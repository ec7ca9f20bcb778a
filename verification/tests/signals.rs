use respos::errno::Errno;
use respos::signal::sig_deliver::{handle_signal, Arch, Delivery, SignalTask, TrapContext};
use respos::signal::sig_handler::{
    sigaction_from_user, sigaction_to_user, ActionType, SigAction, SigHandler, UserSigAction,
};
use respos::signal::sig_info::{LinuxSigInfo, SiField, SigInfo};
use respos::signal::sig_stack::{SigContext, SignalFrame, SignalStack, UContext};
use respos::signal::sig_struct::{Sig, SigPending, SigSet};
use respos::syscall::signal::{
    queued_result, sigsuspend_resume, sigtimedwait_answer, sigtimedwait_must_sleep, sigtimedwait_set, sys_kill,
    sys_rt_sigpending, sys_rt_sigqueueinfo, sys_rt_sigsuspend, sys_rt_sigtimedwait, sys_sigaction,
    sys_sigaltstack, sys_sigprocmask, sys_sigreturn, sys_tgkill, sys_tkill, take_sigtimedwait_signal,
    Sender, SigwaitAction, SigwaitEvent, Taken,
};
use respos::syscall::waiting::WaitState;
use respos::task::Process;
use respos::timer::TimeSpec;
use respos::user::{UserIn, UserOut};

fn set_of(sigs: &[i32]) -> SigSet {
    let mut s = SigSet::empty();
    for n in sigs {
        s.add_signal(Sig::from(*n));
    }
    s
}

fn kill_info(n: i32) -> SigInfo {
    SigInfo::new(n, 0, SiField::Kill { tid: 7 })
}

fn process(tgid: usize) -> Process {
    Process {
        tgid,
        pgid: tgid,
        sid: 1,
        uid: 100,
        euid: 100,
        suid: 100,
        nice: 0,
        alive: true,
        leader: true,
        stopped: false,
        did_exec: false,
        parent: 1,
    }
}

fn sender() -> Sender {
    Sender { tid: 5, tgid: 5, pgid: 5, uid: 100, euid: 100 }
}

#[test]
fn signal_numbers() {
    assert!(Sig::from(1).is_valid());
    assert!(Sig::from(64).is_valid());
    assert!(!Sig::from(0).is_valid());
    assert!(!Sig::from(65).is_valid());
    assert_eq!(Sig::from(9).index(), 8);
    assert!(Sig::from(9).is_kill_or_stop());
    assert!(Sig::from(19).is_kill_or_stop());
    assert!(!Sig::from(15).is_kill_or_stop());
    assert_eq!(Sig::from(15).raw(), 15);
}

#[test]
fn sets_of_signals() {
    let mut s = set_of(&[2, 15]);
    assert!(s.contain_signal(Sig::from(2)));
    assert!(!s.contain_signal(Sig::from(3)));
    assert_eq!(s.bits, 1 << 1 | 1 << 14);
    s.remove_signal(Sig::from(2));
    assert_eq!(s, set_of(&[15]));
    assert_eq!(set_of(&[1, 2]).union(set_of(&[2, 3])), set_of(&[1, 2, 3]));
    assert_eq!(set_of(&[1, 2]).difference(set_of(&[2, 3])), set_of(&[1]));
    assert_eq!(set_of(&[1, 2]).intersection(set_of(&[2, 3])), set_of(&[2]));
    assert_eq!(set_of(&[9, 19, 1]).without_unblockable(), set_of(&[1]));
}

#[test]
fn lowest_unblocked_signal_comes_first() {
    let mut p = SigPending::new();
    p.add_signal(kill_info(12));
    p.add_signal(kill_info(3));
    p.add_signal(kill_info(2));
    p.add_mask(Sig::from(2));
    assert_eq!(p.find_signal(), Some(Sig::from(3)));
    let (sig, info) = p.fetch_signal().unwrap();
    assert_eq!(sig, Sig::from(3));
    assert_eq!(info, kill_info(3));
    assert_eq!(p.fetch_signal().unwrap().0, Sig::from(12));
    assert!(p.fetch_signal().is_none());
    assert_eq!(p.change_mask(SigSet::empty()), set_of(&[2]));
    assert_eq!(p.fetch_signal().unwrap().0, Sig::from(2));
}

#[test]
fn kill_cannot_be_blocked() {
    let mut p = SigPending::with_mask(set_of(&[9]));
    p.add_signal(kill_info(9));
    assert_eq!(p.find_signal(), Some(Sig::from(9)));
}

#[test]
fn pending_signals_are_cleared() {
    let mut p = SigPending::new();
    p.add_signal(kill_info(5));
    assert!(p.get_info(Sig::from(5)).is_some());
    p.add_mask_sigset(set_of(&[6]));
    p.clear_pending();
    assert!(p.get_info(Sig::from(5)).is_none());
    assert_eq!(p.mask, set_of(&[6]));
    p.clear();
    assert_eq!(p.mask, SigSet::empty());
}

#[test]
fn default_actions() {
    assert_eq!(ActionType::default(Sig::from(17)), ActionType::Ignore);
    assert_eq!(ActionType::default(Sig::from(15)), ActionType::Term);
    assert_eq!(ActionType::default(Sig::from(11)), ActionType::Core);
    assert_eq!(ActionType::default(Sig::from(19)), ActionType::Stop);
    assert_eq!(ActionType::default(Sig::from(18)), ActionType::Cont);
}

#[test]
fn handlers_are_reset_for_a_new_program() {
    let mut h = SigHandler::new();
    let mut a = SigAction::new(Sig::from(10));
    assert!(!a.is_user());
    a.sa_handler = 0x1000;
    assert!(a.is_user());
    h.update(Sig::from(10), a);
    assert_eq!(h.get(Sig::from(10)), a);
    let mut ignore = SigAction::new(Sig::from(12));
    ignore.sa_handler = 1;
    h.update(Sig::from(12), ignore);
    h.reset_user_handlers_for_exec();
    assert!(!h.get(Sig::from(10)).is_user());
    assert_eq!(h.get(Sig::from(12)).sa_handler, 1);
    h.reset();
    assert_eq!(h.get(Sig::from(12)), SigAction::new(Sig::from(12)));
}

fn task() -> SignalTask {
    let mut x = [0usize; 32];
    x[2] = 0x8000;
    x[3] = 0x8000;
    SignalTask {
        trap: TrapContext { arch: Arch::Riscv64, x, sepc: 0x400 },
        sig: SigPending::new(),
        handlers: SigHandler::new(),
        altstack: SignalStack::default(),
        sig_context_addr: 0,
        suspended_mask: None,
    }
}

#[test]
fn delivery_of_signals() {
    let mut t = task();
    assert!(matches!(handle_signal(&mut t), Delivery::Nothing));
    t.sig.add_signal(kill_info(15));
    assert!(matches!(handle_signal(&mut t), Delivery::Exit { .. }));
    let mut t = task();
    t.sig.add_signal(kill_info(17));
    assert!(matches!(handle_signal(&mut t), Delivery::Dropped { sig } if sig == Sig::from(17)));
}

#[test]
fn handler_is_entered_and_left() {
    let mut t = task();
    let mut a = SigAction::new(Sig::from(10));
    a.sa_handler = 0x1234;
    a.mask = set_of(&[12]);
    t.handlers.update(Sig::from(10), a);
    t.sig.add_signal(kill_info(10));
    let before = t.trap;
    match handle_signal(&mut t) {
        Delivery::Frame { sig, action, addr, context } => {
            assert_eq!(sig, Sig::from(10));
            assert!(addr < 0x8000);
            assert_eq!(t.enter_handler(sig, action, addr, true, 0x77), None);
            assert_eq!(t.trap.sepc, 0x1234);
            assert_eq!(t.trap.get_sp(), addr);
            assert_eq!(t.trap.get_a0(), 10);
            assert!(t.sig.mask.contain_signal(Sig::from(10)));
            assert!(t.sig.mask.contain_signal(Sig::from(12)));
            let r = sys_sigreturn(&mut t, UserIn::Value(SignalFrame::Plain(context)));
            assert!(r.is_ok());
            assert_eq!(t.trap.sepc, before.sepc);
            assert_eq!(t.trap.x, before.x);
            assert_eq!(t.sig.mask, SigSet::empty());
        }
        _ => panic!("no handler was entered"),
    }
}

#[test]
fn frame_that_cannot_be_written_ends_the_program() {
    let mut t = task();
    let mut a = SigAction::new(Sig::from(10));
    a.sa_handler = 0x1234;
    t.handlers.update(Sig::from(10), a);
    t.sig.add_signal(kill_info(10));
    match handle_signal(&mut t) {
        Delivery::Frame { sig, action, addr, .. } => {
            assert!(t.enter_handler(sig, action, addr, false, 0).is_some());
        }
        _ => panic!("no handler was entered"),
    }
}

#[test]
fn kill_chooses_processes() {
    let procs = vec![process(1), process(5), process(6)];
    let r = sys_kill(&sender(), 6, 15, &procs);
    assert_eq!(r.ret, Ok(0));
    assert_eq!(r.sends.len(), 1);
    assert_eq!(r.sends[0].tgid, 6);
    assert_eq!(r.sends[0].info.signo, 15);
    assert_eq!(sys_kill(&sender(), 99, 15, &procs).ret, Err(Errno::ESRCH));
    assert_eq!(sys_kill(&sender(), 6, 99, &procs).ret, Err(Errno::EINVAL));
    let nothing = sys_kill(&sender(), 6, 0, &procs);
    assert_eq!(nothing.ret, Ok(0));
    assert!(nothing.sends.is_empty());
    let group = sys_kill(&sender(), 0, 15, &procs);
    assert_eq!(group.sends.len(), 1);
    assert_eq!(group.sends[0].tgid, 5);
}

#[test]
fn kill_needs_permission() {
    let mut other = process(6);
    other.uid = 1;
    other.suid = 1;
    other.euid = 1;
    let procs = vec![process(5), other];
    assert_eq!(sys_kill(&sender(), 6, 15, &procs).ret, Err(Errno::EPERM));
    let root = Sender { uid: 0, euid: 0, ..sender() };
    assert_eq!(sys_kill(&root, 6, 15, &procs).ret, Ok(0));
}

#[test]
fn signals_to_threads() {
    assert_eq!(sys_tkill(&sender(), 0, 1, true), Err(Errno::EINVAL));
    assert_eq!(sys_tkill(&sender(), 3, 99, true), Err(Errno::EINVAL));
    assert_eq!(sys_tkill(&sender(), 3, 1, false), Err(Errno::ESRCH));
    assert_eq!(sys_tkill(&sender(), 3, 0, true), Ok(None));
    assert_eq!(sys_tkill(&sender(), 3, 10, true).unwrap().unwrap().signo, 10);
    assert_eq!(sys_tgkill(&sender(), 5, 3, 10, Some(6)), Err(Errno::ESRCH));
    assert!(sys_tgkill(&sender(), 5, 3, 10, Some(5)).unwrap().is_some());
    assert_eq!(sys_tgkill(&sender(), 5, 3, 10, None), Err(Errno::ESRCH));
    assert_eq!(queued_result(true), Ok(0));
    assert_eq!(queued_result(false), Err(Errno::EAGAIN));
}

#[test]
fn queueing_with_information() {
    let info = LinuxSigInfo::new_child(3, 0, 1);
    assert!(sys_rt_sigqueueinfo(&sender(), 6, 10, None, UserIn::Value(info)).is_err());
    assert_eq!(
        sys_rt_sigqueueinfo(&sender(), 6, 10, Some(process(6)), UserIn::Fault),
        Err(Errno::EFAULT)
    );
}

#[test]
fn alternative_stack() {
    let mut s = SignalStack::default();
    let small = SignalStack { ss_sp: 0x1000, ss_flags: 0, ss_size: 16 };
    assert_eq!(
        sys_sigaltstack(&mut s, UserIn::Value(small), UserOut::Null).ret,
        Err(Errno::ENOMEM)
    );
    let good = SignalStack { ss_sp: 0x1000, ss_flags: 0, ss_size: 8192 };
    let before = s;
    let r = sys_sigaltstack(&mut s, UserIn::Value(good), UserOut::Writable);
    assert_eq!(r.ret, Ok(0));
    assert_eq!(r.out, Some(before));
    assert_eq!(s, good);
    assert_eq!(
        sys_sigaltstack(&mut s, UserIn::Null, UserOut::Fault).ret,
        Err(Errno::EFAULT)
    );
    let bad = SignalStack { ss_sp: 0, ss_flags: 0x40, ss_size: 8192 };
    assert_eq!(
        sys_sigaltstack(&mut s, UserIn::Value(bad), UserOut::Null).ret,
        Err(Errno::EINVAL)
    );
}

#[test]
fn changing_the_mask() {
    let mut p = SigPending::new();
    let r = sys_sigprocmask(&mut p, 0, UserIn::Value(set_of(&[2, 9])), UserOut::Writable, 8);
    assert_eq!(r.ret, Ok(0));
    assert_eq!(r.out, Some(SigSet::empty()));
    assert_eq!(p.mask, set_of(&[2]));
    sys_sigprocmask(&mut p, 0, UserIn::Value(set_of(&[3])), UserOut::Null, 8);
    assert_eq!(p.mask, set_of(&[2, 3]));
    sys_sigprocmask(&mut p, 1, UserIn::Value(set_of(&[2])), UserOut::Null, 8);
    assert_eq!(p.mask, set_of(&[3]));
    sys_sigprocmask(&mut p, 2, UserIn::Value(set_of(&[7])), UserOut::Null, 8);
    assert_eq!(p.mask, set_of(&[7]));
    assert_eq!(
        sys_sigprocmask(&mut p, 3, UserIn::Value(set_of(&[7])), UserOut::Null, 8).ret,
        Err(Errno::EINVAL)
    );
    assert_eq!(
        sys_sigprocmask(&mut p, 0, UserIn::Null, UserOut::Null, 4).ret,
        Err(Errno::EINVAL)
    );
}

#[test]
fn changing_an_action() {
    let mut h = SigHandler::new();
    let mut a = SigAction::new(Sig::from(10));
    a.sa_handler = 0x99;
    let r = sys_sigaction(&mut h, 10, UserIn::Value(a), UserOut::Writable, 8);
    assert_eq!(r.ret, Ok(0));
    assert_eq!(r.out, Some(SigAction::new(Sig::from(10))));
    assert_eq!(h.get(Sig::from(10)).sa_handler, 0x99);
    assert_eq!(
        sys_sigaction(&mut h, 9, UserIn::Value(a), UserOut::Null, 8).ret,
        Err(Errno::EINVAL)
    );
    assert_eq!(
        sys_sigaction(&mut h, 0, UserIn::Null, UserOut::Null, 8).ret,
        Err(Errno::EINVAL)
    );
    assert_eq!(
        sys_sigaction(&mut h, 10, UserIn::Fault, UserOut::Null, 8).ret,
        Err(Errno::EFAULT)
    );
}

#[test]
fn pending_set_is_reported() {
    let mut p = SigPending::new();
    p.add_mask(Sig::from(4));
    p.add_signal(kill_info(4));
    let r = sys_rt_sigpending(&p, UserOut::Writable, 8);
    assert_eq!(r.out, Some(set_of(&[4])));
    assert_eq!(sys_rt_sigpending(&p, UserOut::Writable, 9).ret, Err(Errno::EINVAL));
}

#[test]
fn suspending_with_another_mask() {
    let mut t = task();
    t.sig.mask = set_of(&[3]);
    assert_eq!(sys_rt_sigsuspend(&mut t, UserIn::Value(set_of(&[9, 4])), 8), Ok(()));
    assert_eq!(t.sig.mask, set_of(&[4]));
    assert_eq!(t.suspended_mask, Some(set_of(&[3])));
    assert_eq!(sys_rt_sigsuspend(&mut t, UserIn::Null, 8), Err(Errno::EFAULT));
    assert_eq!(sys_rt_sigsuspend(&mut t, UserIn::Null, 7), Err(Errno::EINVAL));
}

#[test]
fn reactions_of_wide_programs() {
    let user = UserSigAction { handler: 5, flags: 0x1_0800_0014, restorer: 6, mask: set_of(&[3]) };
    let action = sigaction_from_user(user);
    assert_eq!(action.flags, 0x0800_0004);
    assert_eq!((action.sa_handler, action.restorer, action.mask), (5, 6, set_of(&[3])));
    assert_eq!(sigaction_from_user(sigaction_to_user(action)), action);
}

#[test]
fn waiting_for_signals() {
    assert_eq!(sigtimedwait_set(UserIn::Value(set_of(&[2, 9])), 8), Ok(set_of(&[2])));
    assert_eq!(sigtimedwait_set(UserIn::Value(set_of(&[2])), 4), Err(Errno::EINVAL));
    match take_sigtimedwait_signal(Some(kill_info(2)), UserOut::Writable) {
        Ok(Taken::Consume { info, out }) => {
            assert_eq!(info, kill_info(2));
            assert_eq!(out.unwrap().si_signo, 2);
        }
        _ => panic!("the signal was not taken"),
    }
    assert!(matches!(take_sigtimedwait_signal(None, UserOut::Null), Ok(Taken::Nothing)));
    assert_eq!(sigtimedwait_answer(true, 2), Some(2));
    assert_eq!(sigtimedwait_answer(false, 2), None);
    let idle = WaitState {
        mask: set_of(&[2]),
        interruptible: false,
        interrupted: false,
        sigwait: None,
    };
    let start = || sys_rt_sigtimedwait(UserIn::Value(set_of(&[2])), 8, UserOut::Null).unwrap();
    let look = |pending: bool, signal: bool, now_ms: usize| SigwaitEvent::Looked {
        candidate: if pending { Some(kill_info(2)) } else { None },
        signal,
        now_ms,
    };
    let consumed = |consumed: bool| SigwaitEvent::Consumed {
        written: Ok(()),
        consumed,
        signal: false,
        now_ms: 5,
    };
    let within = |timeout: UserIn<TimeSpec>| SigwaitEvent::Timeout { timeout, now_ms: 5 };
    let mut t = WaitState { interrupted: true, ..idle };
    let mut c = start();
    assert!(matches!(
        c.step(&mut t, look(true, false, 5)),
        SigwaitAction::Consume { out: None, .. }
    ));
    assert!(matches!(c.step(&mut t, consumed(true)), SigwaitAction::Return(Ok(2))));
    assert_eq!(t, idle);

    let mut c = start();
    c.step(&mut t, look(true, false, 5));
    let unwritten = SigwaitEvent::Consumed {
        written: Err(Errno::EFAULT),
        consumed: false,
        signal: false,
        now_ms: 5,
    };
    assert!(matches!(c.step(&mut t, unwritten), SigwaitAction::Return(Err(Errno::EFAULT))));
    assert_eq!(t, idle);

    let mut c = start();
    c.step(&mut t, look(true, false, 5));
    assert!(matches!(c.step(&mut t, consumed(false)), SigwaitAction::ReadTimeout));
    assert!(t.interruptible);
    assert_eq!(t.sigwait, Some(set_of(&[2])));
    let one = UserIn::Value(TimeSpec { sec: 1, nsec: 0 });
    assert!(matches!(c.step(&mut t, within(one)), SigwaitAction::Look));
    assert!(matches!(
        c.step(&mut t, look(false, false, 5)),
        SigwaitAction::Sleep { deadline_ms: Some(1005) }
    ));
    assert!(matches!(c.step(&mut t, SigwaitEvent::Resumed), SigwaitAction::Look));
    assert!(matches!(
        c.step(&mut t, look(false, false, 1005)),
        SigwaitAction::Return(Err(Errno::EAGAIN))
    ));
    assert_eq!(t, idle);

    for (timeout, e) in [
        (UserIn::Value(TimeSpec { sec: 0, nsec: 0 }), Errno::EAGAIN),
        (UserIn::Value(TimeSpec { sec: 0, nsec: -1 }), Errno::EINVAL),
        (UserIn::Fault, Errno::EFAULT),
    ] {
        let mut c = start();
        c.step(&mut t, look(false, false, 5));
        match c.step(&mut t, within(timeout)) {
            SigwaitAction::Return(r) => assert_eq!(r, Err(e)),
            _ => panic!("the wait goes on"),
        }
        assert_eq!(t, idle);
    }

    let mut c = start();
    c.step(&mut t, look(false, false, 5));
    c.step(&mut t, within(UserIn::Null));
    assert!(matches!(
        c.step(&mut t, look(false, false, 5)),
        SigwaitAction::Sleep { deadline_ms: None }
    ));
    c.step(&mut t, SigwaitEvent::Resumed);
    t.interrupted = true;
    assert!(matches!(
        c.step(&mut t, look(false, true, 9)),
        SigwaitAction::Return(Err(Errno::EINTR))
    ));
    assert_eq!(t, idle);
    assert_eq!(
        sys_rt_sigtimedwait(UserIn::Null, 8, UserOut::Null).err(),
        Some(Errno::EFAULT)
    );
    assert!(sigtimedwait_must_sleep(false, false, false, 0, Some(1)));
    assert!(!sigtimedwait_must_sleep(false, true, false, 0, Some(1)));
    assert!(!sigtimedwait_must_sleep(false, false, false, 1, Some(1)));
}

#[test]
fn frame_with_details_has_its_own_mask() {
    let mut t = task();
    let context = SigContext { x: [7; 32], sepc: 0x90, mask: set_of(&[1]), info: 1 };
    let frame = UContext {
        uc_flags: 0,
        uc_link: 0,
        uc_stack: SignalStack::default(),
        uc_sigmask: set_of(&[2, 9]),
        uc_mcontext: context,
    };
    assert_eq!(sys_sigreturn(&mut t, UserIn::Value(SignalFrame::Rt(frame))), Ok(7));
    assert_eq!(t.trap.sepc, 0x90);
    assert_eq!(t.sig.mask, set_of(&[2]));
    assert_eq!(t.trap.x[0], 0);
    assert_eq!(
        sys_sigreturn(&mut t, UserIn::Value(SignalFrame::Unknown)),
        Err(Errno::EFAULT)
    );
    assert_eq!(sys_sigreturn(&mut t, UserIn::Fault), Err(Errno::EFAULT));
    assert_eq!(t.trap.sepc, 0x90);
}

#[test]
fn suspension_ends_with_the_old_mask() {
    let mut t = task();
    t.sig.mask = set_of(&[3, 10]);
    let mut a = SigAction::new(Sig::from(10));
    a.sa_handler = 0x1234;
    t.handlers.update(Sig::from(10), a);
    assert_eq!(sys_rt_sigsuspend(&mut t, UserIn::Value(set_of(&[4])), 8), Ok(()));
    t.sig.add_signal(kill_info(10));
    assert_eq!(sigsuspend_resume(false), None);
    assert_eq!(sigsuspend_resume(true), Some(Err(Errno::EINTR)));
    match handle_signal(&mut t) {
        Delivery::Frame { sig, action, addr, context } => {
            assert_eq!(context.mask, set_of(&[3, 10]));
            assert!(!t.sig.mask.contain_signal(Sig::from(3)));
            assert!(t.sig.mask.contain_signal(Sig::from(4)));
            t.enter_handler(sig, action, addr, true, 0x77);
            sys_sigreturn(&mut t, UserIn::Value(SignalFrame::Plain(context))).unwrap();
            assert_eq!(t.sig.mask, set_of(&[3, 10]));
            assert_eq!(t.suspended_mask, None);
        }
        _ => panic!("no handler was entered"),
    }
}
