use respos::errno::Errno;
use respos::format::{push_decimal, push_hex, push_hexadecimal, push_padded};
use respos::perf::counters::{context_switch, Counters};
use respos::perf::heap::{
    heap_alloc, heap_class_index, heap_class_snapshot, heap_dealloc, heap_magazine_cached_free,
    heap_magazine_hit, heap_magazine_miss, heap_magazine_overflow_return, heap_magazine_reclaim_blocks,
    heap_magazine_refill_blocks, heap_timing_checkpoint, heap_timing_start, sum_classes, HeapClassCounters,
};
use respos::perf::observe::{
    block_read_size, classify_tlb_shootdown_range, copy_from_user, copy_to_user, elapsed_since, frame_alloc,
    frame_dealloc, now_ticks, observe_dirty_pages, observe_ext4_lock_hold, observe_ext4_lock_wait,
    observe_local_sfence, observe_remote_rfence, observe_scheduler_lock_wait, observe_scheduler_ready,
    observe_tlb_shootdown_range_pages, sample_concurrency, task_running_begin, task_running_end,
};
use respos::perf::report::{render, reset, BounceSnapshot, SystemUse};
use respos::platform::{jh7110, ls2k1000, qemu_loongarch64, qemu_rv64, BootStep, DevError, Piece, PowerAction, SmpStep};
use respos::syscall::basic;
use respos::syscall::table::{merge_offset_arg, syscall, Syscall};

fn text(pieces: &[Piece]) -> String {
    let mut out = String::new();
    for p in pieces {
        match p {
            Piece::Text(t) => out.push_str(t),
            Piece::Hex(n) => out.push_str(&format!("0x{:x}", n)),
        }
    }
    out
}

#[test]
fn numbers_as_text() {
    let mut s = String::new();
    push_decimal(&mut s, 0);
    push_decimal(&mut s, 18446744073709551615);
    assert_eq!(s, "018446744073709551615");
    let mut s = String::new();
    push_padded(&mut s, 7, true, 2);
    push_padded(&mut s, 7, false, 3);
    push_padded(&mut s, 1234, true, 2);
    assert_eq!(s, "07  71234");
    let mut s = String::new();
    push_hex(&mut s, 0xabc, 4, true);
    push_hex(&mut s, 0xabc, 2, false);
    push_hexadecimal(&mut s, 0);
    push_hexadecimal(&mut s, 0x1f0);
    assert_eq!(s, "0ABCbc01f0");
}

#[test]
fn error_numbers() {
    assert_eq!(Errno::EPERM.code(), 1);
    assert_eq!(Errno::ECONNREFUSED.code(), 111);
    assert_eq!(Errno::ENOSYS.as_ret(), -38);
    assert!(!Errno::EINVAL.message().is_empty());
}

#[test]
fn calls_by_number() {
    let a = [1, 2, 3, 4, 5, 6];
    assert_eq!(syscall(63, a), Ok(Syscall::Read { fd: 1, buf: 2, len: 3 }));
    assert_eq!(
        syscall(48, a),
        Ok(Syscall::Faccessat { dirfd: 1, path: 2, mode: 3, flags: 0 })
    );
    assert_eq!(
        syscall(439, a),
        Ok(Syscall::Faccessat { dirfd: 1, path: 2, mode: 3, flags: 4 })
    );
    assert_eq!(syscall(172, a), Ok(Syscall::Getpid));
    assert_eq!(syscall(93, [usize::MAX, 0, 0, 0, 0, 0]), Ok(Syscall::Exit { exit_code: -1 }));
    assert_eq!(syscall(9999, a), Err(Errno::ENOSYS));
    assert_eq!(syscall(0, a), Err(Errno::ENOSYS));
    assert_eq!(merge_offset_arg(0x1_0000_0002, 3), 0x3_0000_0002);
    assert_eq!(merge_offset_arg(0xffff_ffff, 0xffff_ffff), -1);
}

#[test]
fn basic_calls() {
    assert_eq!(
        basic::syscall(64, [1, 2, 3]),
        basic::BasicCall::Write { fd: 1, buf: 2, len: 3 }
    );
    assert_eq!(basic::syscall(93, [5, 0, 0]), basic::BasicCall::Exit { exit_code: 5 });
    assert_eq!(basic::syscall(124, [0, 0, 0]), basic::BasicCall::Yield);
    assert_eq!(basic::syscall(169, [0, 0, 0]), basic::BasicCall::GetTime);
}

#[test]
fn start_of_the_machines() {
    assert_eq!(
        qemu_rv64::init_kernel(),
        vec![
            BootStep::Trap,
            BootStep::Memory,
            BootStep::DirectUart,
            BootStep::Banner,
            BootStep::Realtime,
            BootStep::Network
        ]
    );
    assert_eq!(jh7110::init_kernel().len(), 4);
    assert_eq!(qemu_loongarch64::init_kernel()[1], BootStep::ClockFrequency);
    assert_eq!(ls2k1000::init_kernel()[5], BootStep::InterruptController);
    assert_eq!(
        qemu_rv64::start_secondary_cpus(),
        vec![SmpStep::PublishBootReady, SmpStep::StartSecondary]
    );
    assert!(qemu_rv64::release_secondary_cpus().is_empty());
    assert_eq!(qemu_loongarch64::release_secondary_cpus(), vec![SmpStep::ReleaseSecondary]);
    assert!(jh7110::start_secondary_cpus().is_empty());
    assert!(ls2k1000::start_secondary_cpus().is_empty());
    assert_eq!(qemu_rv64::early_init(1, 2), 2);
    assert_eq!(
        jh7110::early_init(1, 0x46000000),
        "[vf2] Hello RespOS on VisionFive 2 (hart_id=1, dtb=0x46000000)\n"
    );
    assert_eq!(jh7110::memory_end_note(0x80000000), "[vf2] physical_memory_end = 0x80000000\n");
    assert_eq!(
        text(&ls2k1000::early_init(0xc0)),
        "RespOS 2K1000LA: enabling MMU, mem_end=0xc0\n"
    );
    assert_eq!(
        text(&ls2k1000::boot_note(BootStep::NoteMemory, 16)),
        "[RespOS 2K1000LA] mm::init OK, free frames=0x10\n"
    );
}

#[test]
fn end_of_memory() {
    let heap = 0x100_0000;
    assert_eq!(qemu_loongarch64::discover_physical_memory_end(0xfff_ffff, heap), None);
    assert_eq!(
        qemu_loongarch64::discover_physical_memory_end(0x4000_0000, heap),
        Some(0xb000_0000)
    );
    assert_eq!(
        qemu_loongarch64::discover_physical_memory_end(0x1000_0000, heap),
        Some(0x8100_0000)
    );
    assert_eq!(
        qemu_loongarch64::discover_physical_memory_end(0x100_0000_0000, heap),
        Some(0x9_7000_0000)
    );
    assert_eq!(qemu_loongarch64::discover_physical_memory_end(u64::MAX, heap), None);
    assert_eq!(ls2k1000::discover_physical_memory_end(Some(0xc000_0000)), Some(0xc000_0000));
    assert_eq!(ls2k1000::discover_physical_memory_end(Some(0x20_0000)), None);
    assert_eq!(ls2k1000::discover_physical_memory_end(Some((1 << 48) + 1)), None);
    assert_eq!(ls2k1000::discover_physical_memory_end(None), None);
}

#[test]
fn block_devices() {
    assert_eq!(qemu_rv64::new_block_device(0, 0x10), Ok((0x1000_1010, 0x1000)));
    assert_eq!(qemu_rv64::new_block_device(1, 0), Ok((0x1000_2000, 0x1000)));
    assert_eq!(qemu_rv64::new_block_device(2, 0), Err(DevError::InvalidParam));
    assert_eq!(jh7110::new_block_device(0), Ok(()));
    assert_eq!(jh7110::new_block_device(1), Err(DevError::Unsupported));
    assert_eq!(ls2k1000::new_block_device(1), Err(DevError::InvalidParam));
    assert_eq!(qemu_rv64::mmio().len(), 3);
    assert_eq!(qemu_loongarch64::mmio()[3], (0x1fe0_0000, 0x1000));
}

#[test]
fn reports_and_power() {
    assert_eq!(
        qemu_rv64::report_panic(Some(("src/a.rs", 12)), "oops"),
        "Panicked at src/a.rs:12 oops\n"
    );
    assert_eq!(jh7110::report_panic(None, "oops"), "Panicked: oops\n");
    let mut done = ls2k1000::Reported { panic: false, trap: false, fault: false };
    assert_eq!(
        text(&ls2k1000::report_panic(&mut done, Some(("a.rs", 16)))),
        "Panicked at a.rs:0x10\n"
    );
    assert!(ls2k1000::report_panic(&mut done, None).is_empty());
    let t = ls2k1000::TrapState { estat: 1, era: 2, badv: 3, sp: 4, inst: 5 };
    assert_eq!(
        text(&ls2k1000::report_trap(&mut done, "page", t)),
        "[trap] page est=0x1 era=0x2 badv=0x3 sp=0x4 inst=0x5\n"
    );
    assert!(ls2k1000::report_trap(&mut done, "page", t).is_empty());
    assert_eq!(
        text(&ls2k1000::report_fault_in_failure(&mut done, 1, 2, -1)),
        "[trap] faultin-fail va=0x1 sp=0x2 err=0xffffffffffffffff\n"
    );
    assert!(ls2k1000::report_fault_in_failure(&mut done, 1, 2, -1).is_empty());
    assert!(qemu_loongarch64::report_trap().is_empty());
    assert!(qemu_loongarch64::report_fault_in_failure(0, 0, 0).is_empty());
    assert_eq!(qemu_rv64::shutdown(true), PowerAction::Shutdown { failure: true });
    assert_eq!(qemu_rv64::poweroff(), PowerAction::Shutdown { failure: false });
    assert_eq!(jh7110::poweroff(), PowerAction::Restart);
    assert_eq!(qemu_rv64::direct_console_putchar(0x20, b'x'), Some(b'x'));
    assert_eq!(qemu_rv64::direct_console_putchar(0xdf, b'x'), None);
    assert_eq!(jh7110::direct_console_putchar(0x60, b'x'), Some(120));
}

#[test]
fn counting_can_be_off() {
    let mut c = Counters::new(false);
    context_switch(&mut c, 3);
    observe_dirty_pages(&mut c, 9);
    sample_concurrency(&mut c);
    assert_eq!(c.snapshot().context_switches, 0);
    assert_eq!(now_ticks(false, 8), 0);
    assert_eq!(render(&c, &Vec::new(), system()), "enabled=0\n");
}

#[test]
fn single_events_are_counted() {
    let mut c = Counters::new(true);
    context_switch(&mut c, 3);
    context_switch(&mut c, 4);
    observe_dirty_pages(&mut c, 9);
    observe_dirty_pages(&mut c, 2);
    for n in [1, 2, 16, 17, 256, 257] {
        classify_tlb_shootdown_range(&mut c, n);
        observe_tlb_shootdown_range_pages(&mut c, n);
    }
    for n in [512, 513, 4096, 4097, 65536, 65537] {
        block_read_size(&mut c, n);
    }
    observe_ext4_lock_wait(&mut c, 5);
    observe_ext4_lock_wait(&mut c, 3);
    observe_ext4_lock_hold(&mut c, 8);
    observe_scheduler_lock_wait(&mut c, 6);
    observe_remote_rfence(&mut c, 3, 10);
    observe_local_sfence(&mut c, 11);
    frame_alloc(&mut c, 4, 1, 2, 1, false);
    frame_dealloc(&mut c, 2, 1, 1);
    copy_from_user(&mut c, 100, 5);
    copy_to_user(&mut c, 50, 4);
    let s = c.snapshot();
    assert_eq!(s.context_switches, 7);
    assert_eq!(s.dirty_pages_peak, 9);
    assert_eq!(s.tlb_shootdown_range_single_page, 1);
    assert_eq!(s.tlb_shootdown_range_le16_pages, 2);
    assert_eq!(s.tlb_shootdown_range_le256_pages, 2);
    assert_eq!(s.tlb_shootdown_range_gt256_pages, 1);
    assert_eq!(s.tlb_shootdown_range_max_pages, 257);
    assert_eq!(s.block_read_512_or_less, 1);
    assert_eq!(s.block_read_4k_or_less, 2);
    assert_eq!(s.block_read_64k_or_less, 2);
    assert_eq!(s.block_read_over_64k, 1);
    assert_eq!((s.ext4_lock_acquisitions, s.ext4_lock_wait_ticks, s.ext4_lock_max_wait_ticks), (2, 8, 5));
    assert_eq!((s.ext4_lock_hold_ticks, s.ext4_lock_max_hold_ticks), (8, 8));
    assert_eq!((s.scheduler_lock_acquisitions, s.scheduler_lock_max_wait_ticks), (1, 6));
    assert_eq!((s.remote_rfences, s.remote_rfence_target_harts), (1, 3));
    assert_eq!((s.local_sfences, s.local_sfence_max_ticks), (1, 11));
    assert_eq!((s.frame_alloc_calls, s.frame_alloc_failures), (1, 1));
    assert_eq!((s.frame_dealloc_calls, s.frame_dealloc_max_ticks), (1, 2));
    assert_eq!((s.copy_from_user_bytes, s.copy_to_user_bytes), (100, 50));
}

#[test]
fn samples_go_into_buckets() {
    let mut c = Counters::new(true);
    sample_concurrency(&mut c);
    for _ in 0..3 {
        task_running_begin(&mut c);
    }
    observe_scheduler_ready(&mut c, 8);
    sample_concurrency(&mut c);
    task_running_end(&mut c);
    task_running_end(&mut c);
    sample_concurrency(&mut c);
    let s = c.snapshot();
    assert_eq!(s.concurrency_samples, 3);
    assert_eq!((s.running_harts_0, s.running_harts_1, s.running_harts_2_3), (1, 1, 1));
    assert_eq!((s.scheduler_ready_0, s.scheduler_ready_8_plus), (1, 2));
    assert_eq!(s.scheduler_ready_peak, 8);
}

#[test]
fn elapsed_time() {
    assert_eq!(now_ticks(true, 8), 8);
    assert_eq!(elapsed_since(true, 12, 8), 4);
    assert_eq!(elapsed_since(true, 3, usize::MAX), 4);
}

#[test]
fn classes_of_sizes() {
    assert_eq!(heap_class_index(0, 1), 0);
    assert_eq!(heap_class_index(16, 8), 0);
    assert_eq!(heap_class_index(17, 8), 1);
    assert_eq!(heap_class_index(8, 64), 2);
    assert_eq!(heap_class_index(4096, 8), 8);
    assert_eq!(heap_class_index(4097, 8), 9);
}

#[test]
fn heap_operations_are_counted() {
    let mut h = HeapClassCounters::new(true);
    heap_alloc(&mut h, 20, 8, 3, 1, 2, true, true);
    heap_alloc(&mut h, 8, 64, 9, 1, 2, false, false);
    heap_dealloc(&mut h, 20, 8, 4, 1, 2, true);
    assert_eq!(h.classes[1].alloc_calls, 1);
    assert_eq!(h.classes[1].alloc_bytes, 20);
    assert_eq!(h.classes[1].alloc_wait_ticks, 64);
    assert_eq!(h.classes[1].dealloc_core_ticks, 128);
    assert_eq!(h.classes[2].alloc_calls, 1);
    assert_eq!(h.classes[2].alloc_bytes, 0);
    assert_eq!(h.totals.alloc_ticks, 192);
    assert_eq!(h.totals.max_alloc_ticks, 3);
    assert_eq!(h.totals.high_alignment_allocs, 1);
    assert_eq!(h.totals.dealloc_timing_samples, 1);
    heap_alloc(&mut h, 1, 1, usize::MAX, 0, 0, true, true);
    assert_eq!(h.totals.max_alloc_ticks, usize::MAX);
    let all = heap_class_snapshot(&vec![HeapClassCounters::new(true), h]);
    assert_eq!(all.classes[1].alloc_calls, 1);
    assert_eq!(sum_classes(&all.classes).alloc_calls, 3);
    assert_eq!(all.totals.max_dealloc_ticks, 4);
}

#[test]
fn heap_timing_is_sampled() {
    let mut h = HeapClassCounters::new(true);
    assert_eq!(heap_timing_start(&mut h, 55), 55);
    for _ in 0..63 {
        assert_eq!(heap_timing_start(&mut h, 55), 0);
    }
    assert_eq!(heap_timing_start(&mut h, 56), 56);
    assert_eq!(heap_timing_checkpoint(true, 0, 9), 0);
    assert_eq!(heap_timing_checkpoint(true, 1, 9), 9);
    heap_magazine_hit(&mut h, 1);
    heap_magazine_miss(&mut h, 2);
    heap_magazine_cached_free(&mut h, 3);
    heap_magazine_refill_blocks(&mut h, 4);
    heap_magazine_overflow_return(&mut h, 5);
    heap_magazine_reclaim_blocks(&mut h, 6);
    let t = h.totals;
    assert_eq!((t.magazine_hits, t.magazine_misses, t.magazine_cached_frees), (1, 2, 3));
    assert_eq!(
        (t.magazine_refill_blocks, t.magazine_overflow_returns, t.magazine_reclaim_blocks),
        (4, 5, 6)
    );
    let mut off = HeapClassCounters::new(false);
    assert_eq!(heap_timing_start(&mut off, 55), 0);
    heap_alloc(&mut off, 1, 1, 1, 1, 1, true, true);
    assert_eq!(off.classes[0].alloc_calls, 0);
}

fn system() -> SystemUse {
    SystemUse {
        bounce: BounceSnapshot {
            calls: 1,
            bytes: 2,
            copy_to_device_bytes: 3,
            copy_from_device_bytes: 4,
            allocations: 5,
            cache_hits: 6,
            share_ticks: 7,
            unshare_ticks: 8,
            active_peak: 9,
            active: 10,
            cached_buffers: 11,
            cached_bytes: 12,
        },
        page_cache_pages: 21,
        page_cache_dirty_pages: 22,
        page_cache_lru_entries: 23,
        page_cache_registry: 24,
        dirty_owners: 25,
        shared_file_page_entries: 26,
        free_frames: 27,
        heap_current_bytes: 28,
        heap_peak_bytes: 29,
        heap_peak_exact: true,
        heap_magazine: false,
        magazine_cached_bytes: 30,
        magazine_cached_peak_bytes: 31,
        clock_hz: 32,
    }
}

#[test]
fn report_lines() {
    let mut c = Counters::new(true);
    context_switch(&mut c, 3);
    copy_from_user(&mut c, 100, 5);
    let mut h = HeapClassCounters::new(true);
    heap_alloc(&mut h, 20, 8, 3, 1, 2, true, true);
    let text = render(&c, &vec![h], system());
    let lines: Vec<&str> = text.lines().collect();
    assert_eq!(lines[0], "enabled=1");
    assert_eq!(
        lines[1],
        "file_closes=0 close_data_writebacks=0 explicit_fsyncs=0 filesystem_flushes=0"
    );
    assert!(lines.contains(&"virtio_bounce_calls=1 bytes=2 copy_to_device_bytes=3 copy_from_device_bytes=4 allocations=5 cache_hits=6 share_ticks=7 unshare_ticks=8 active_peak=9 active=10 cached_buffers=11 cached_bytes=12"));
    assert!(lines.contains(&"page_cache_pages=21 page_cache_dirty_pages=22 page_cache_lru_entries=23 page_cache_registry=24 dirty_owners=25 shared_file_page_entries=26 free_frames=27"));
    assert!(lines.contains(&"heap_alloc_calls=1 heap_dealloc_calls=0 heap_alloc_bytes=20 heap_dealloc_bytes=0 heap_current_bytes=28 heap_peak_bytes=29"));
    assert!(lines.contains(&"heap_peak_exact=1 heap_magazine_enabled=0 heap_magazine_cached_bytes=0 heap_magazine_cached_peak_upper_bound_bytes=0"));
    assert!(lines.contains(&"heap_timing_sample_rate=64 heap_alloc_timing_samples=1 heap_dealloc_timing_samples=0 heap_timing_estimated=1"));
    assert!(lines.contains(&"heap_class=1 upper=32 alloc_calls=1 dealloc_calls=0 alloc_bytes=20 dealloc_bytes=0 alloc_wait_ticks=64 dealloc_wait_ticks=0 alloc_core_ticks=128 dealloc_core_ticks=0"));
    assert!(lines.contains(&"heap_class=9 upper=0 alloc_calls=0 dealloc_calls=0 alloc_bytes=0 dealloc_bytes=0 alloc_wait_ticks=0 dealloc_wait_ticks=0 alloc_core_ticks=0 dealloc_core_ticks=0"));
    assert!(lines.contains(&"heap_class_totals alloc_calls=1 dealloc_calls=0 alloc_bytes=20 dealloc_bytes=0 alloc_wait_ticks=64 dealloc_wait_ticks=0 alloc_core_ticks=128 dealloc_core_ticks=0 match_totals=1"));
    assert_eq!(
        *lines.last().unwrap(),
        "copy_from_user_calls=1 copy_from_user_bytes=100 copy_from_user_ticks=5 copy_to_user_calls=0 copy_to_user_bytes=0 copy_to_user_ticks=0"
    );
    assert!(text.contains("\ncontext_switches=3 local_sfences=0 "));
}

#[test]
fn counters_start_anew() {
    let mut c = Counters::new(true);
    context_switch(&mut c, 3);
    let mut h = HeapClassCounters::new(true);
    heap_alloc(&mut h, 20, 8, 3, 1, 2, true, true);
    let mut harts = vec![h];
    reset(&mut c, &mut harts, 17);
    assert_eq!(c.snapshot().context_switches, 0);
    assert_eq!(c.snapshot().dirty_pages_peak, 17);
    assert_eq!(harts[0].classes[1].alloc_calls, 0);
    assert_eq!(harts[0].totals.alloc_ticks, 0);
}
