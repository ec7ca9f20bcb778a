//! System identity, personality, log and memory information.

use crate::errno::{err, ok, Errno, SysResult};
use crate::signal::sig_deliver::Arch;
use crate::user::{failed, silent, Reply, UserIn, UserOut};
use vstd::prelude::*;
use vstd::utf8::encode_utf8;

verus! {

/// The parts of the system identity that can be changed.
#[derive(Debug, Clone, Copy)]
pub struct UtsState {
    pub nodename: [u8; 65],
    pub domainname: [u8; 65],
}

/// The system identity in user memory.
#[derive(Debug, Clone, Copy)]
pub struct UtsName {
    pub sysname: [u8; 65],
    pub nodename: [u8; 65],
    pub release: [u8; 65],
    pub version: [u8; 65],
    pub machine: [u8; 65],
    pub domainname: [u8; 65],
}

/// Memory and load information in user memory.
#[derive(Debug, Clone, Copy)]
pub struct SysInfo {
    pub uptime: usize,
    pub loads: [usize; 3],
    pub totalram: usize,
    pub freeram: usize,
    pub sharedram: usize,
    pub bufferram: usize,
    pub totalswap: usize,
    pub freeswap: usize,
    pub procs: u16,
    pub totalhigh: usize,
    pub freehigh: usize,
    pub mem_unit: u32,
}

/// A field of the identity: at most 64 bytes, then zeros.
pub open spec fn field_bytes(s: Seq<u8>) -> Seq<u8> {
    Seq::new(
        65,
        |i: int|
            if i < 64 && i < s.len() {
                s[i]
            } else {
                0u8
            },
    )
}

fn field_from_bytes(bytes: &[u8]) -> (r: [u8; 65])
    ensures
        r@ == field_bytes(bytes@),
{
    let mut field: [u8; 65] = [0;65];
    let mut i: usize = 0;
    while i < 64 && i < bytes.len()
        invariant
            i <= 64,
            i <= bytes@.len(),
            field@.len() == 65,
            forall|k: int| 0 <= k < i ==> #[trigger] field@[k] == bytes@[k],
            forall|k: int| i <= k < 65 ==> #[trigger] field@[k] == 0,
        decreases 64 - i,
    {
        field[i] = bytes[i];
        i = i + 1;
    }
    assert(field@ =~= field_bytes(bytes@));
    field
}

fn field_from_str(info: &str) -> (r: [u8; 65])
    ensures
        r@ == field_bytes(encode_utf8(info@)),
{
    field_from_bytes(info.as_bytes())
}

impl UtsState {
    /// The identity after the start.
    pub fn new() -> (r: Self)
        ensures
            r.nodename@ == field_bytes(encode_utf8("LAPTOP"@)),
            r.domainname@ == field_bytes(encode_utf8("localdomain"@)),
    {
        UtsState {
            nodename: field_from_str("LAPTOP"),
            domainname: field_from_str("localdomain"),
        }
    }
}

/// The personality flag that makes the system report an old release.
pub const UNAME26: usize = 0x0002_0000;

/// The release that a personality reports.
pub open spec fn release_of(persona: usize) -> Seq<char> {
    if persona & UNAME26 != 0 {
        "2.6.40-dev"@
    } else {
        "6.10.0-dev"@
    }
}

/// The name of an instruction set.
pub open spec fn machine_of(arch: Arch) -> Seq<char> {
    match arch {
        Arch::Riscv64 => "riscv64"@,
        Arch::LoongArch64 => "loongarch64"@,
    }
}

/// `u` is what `state` reports under a personality.
pub open spec fn identity(state: UtsState, arch: Arch, persona: usize, u: UtsName) -> bool {
    &&& u.sysname@ == field_bytes(encode_utf8("Linux"@))
    &&& u.nodename == state.nodename
    &&& u.release@ == field_bytes(encode_utf8(release_of(persona)))
    &&& u.version@ == field_bytes(encode_utf8("Resp0S 0.1.0"@))
    &&& u.machine@ == field_bytes(encode_utf8(machine_of(arch)))
    &&& u.domainname == state.domainname
}

/// Reports the system identity.
pub fn sys_uname(state: &UtsState, arch: Arch, persona: usize, buf: UserOut) -> (r: Reply<UtsName>)
    ensures
        buf == UserOut::Writable ==> r.ret == ok(0) && r.out is Some && identity(
            *state,
            arch,
            persona,
            r.out->0,
        ),
        buf != UserOut::Writable ==> r == failed::<UtsName>(Errno::EFAULT),
{
    let release = if persona & UNAME26 != 0 {
        field_from_str("2.6.40-dev")
    } else {
        field_from_str("6.10.0-dev")
    };
    let machine = match arch {
        Arch::Riscv64 => field_from_str("riscv64"),
        Arch::LoongArch64 => field_from_str("loongarch64"),
    };
    buf.reply(
        0,
        UtsName {
            sysname: field_from_str("Linux"),
            nodename: state.nodename,
            release,
            version: field_from_str("Resp0S 0.1.0"),
            machine,
            domainname: state.domainname,
        },
    )
}

/// The longest name that can be set.
pub const MAX_UTS_FIELD_LEN: usize = 64;

/// The new content of a field, or why it is refused.
pub open spec fn new_field(euid: usize, name: UserIn<Vec<u8>>, len: usize) -> SysResult<Seq<u8>> {
    if len > MAX_UTS_FIELD_LEN {
        Err(Errno::EINVAL)
    } else if euid != 0 {
        Err(Errno::EPERM)
    } else if len == 0 {
        Ok(field_bytes(Seq::empty()))
    } else {
        match name {
            UserIn::Value(v) => Ok(field_bytes(v@)),
            _ => Err(Errno::EFAULT),
        }
    }
}

fn read_field(euid: usize, name: UserIn<Vec<u8>>, len: usize) -> (r: SysResult<[u8; 65]>)
    requires
        name matches UserIn::Value(v) ==> v@.len() == len,
    ensures
        match new_field(euid, name, len) {
            Ok(f) => r is Ok && r->Ok_0@ == f,
            Err(e) => r is Err && r->Err_0 == e,
        },
{
    if len > MAX_UTS_FIELD_LEN {
        return Err(Errno::EINVAL);
    }
    if euid != 0 {
        return Err(Errno::EPERM);
    }
    if len == 0 {
        let empty: Vec<u8> = Vec::new();
        return Ok(field_from_bytes(empty.as_slice()));
    }
    match name.read() {
        Ok(v) => Ok(field_from_bytes(v.as_slice())),
        Err(e) => Err(e),
    }
}

/// Changes the host name; `name` holds the `len` bytes that were read.
pub fn sys_sethostname(state: &mut UtsState, euid: usize, name: UserIn<Vec<u8>>, len: usize) -> (r:
    SysResult<usize>)
    requires
        name matches UserIn::Value(v) ==> v@.len() == len,
    ensures
        final(state).domainname == old(state).domainname,
        match new_field(euid, name, len) {
            Ok(f) => r == ok(0) && final(state).nodename@ == f,
            Err(e) => r == err(e) && final(state).nodename == old(state).nodename,
        },
{
    match read_field(euid, name, len) {
        Ok(f) => {
            state.nodename = f;
            Ok(0)
        },
        Err(e) => Err(e),
    }
}

/// Changes the domain name; `name` holds the `len` bytes that were read.
pub fn sys_setdomainname(state: &mut UtsState, euid: usize, name: UserIn<Vec<u8>>, len: usize) -> (r:
    SysResult<usize>)
    requires
        name matches UserIn::Value(v) ==> v@.len() == len,
    ensures
        final(state).nodename == old(state).nodename,
        match new_field(euid, name, len) {
            Ok(f) => r == ok(0) && final(state).domainname@ == f,
            Err(e) => r == err(e) && final(state).domainname == old(state).domainname,
        },
{
    match read_field(euid, name, len) {
        Ok(f) => {
            state.domainname = f;
            Ok(0)
        },
        Err(e) => Err(e),
    }
}

/// A host name that was set is what is reported, followed by a zero.
pub proof fn set_name_is_reported(euid: usize, name: Vec<u8>, u: UtsName, state: UtsState, arch: Arch, persona: usize)
    requires
        euid == 0,
        0 < name@.len() <= 64,
        state.nodename@ == new_field(euid, UserIn::Value(name), name@.len() as usize)->Ok_0,
        identity(state, arch, persona, u),
    ensures
        u.nodename@.subrange(0, name@.len() as int) == name@,
        u.nodename@[name@.len() as int] == 0,
{
    assert(u.nodename@.subrange(0, name@.len() as int) =~= name@);
}

/// The flags of a personality that exist.
pub const PERSONALITY_FLAGS: usize = 0x0042_00ff;

/// Queries and changes the personality and returns the former one. The value
/// with all bits set only queries.
pub fn sys_personality(persona: &mut usize, wanted: usize) -> (r: SysResult<usize>)
    ensures
        wanted == usize::MAX ==> r == ok(*old(persona)) && *final(persona) == *old(persona),
        wanted != usize::MAX && wanted & !PERSONALITY_FLAGS != 0 ==> r == err(Errno::EINVAL)
            && *final(persona) == *old(persona),
        wanted != usize::MAX && wanted & !PERSONALITY_FLAGS == 0 ==> r == ok(*old(persona))
            && *final(persona) == wanted,
{
    let old_persona: usize = *persona;
    if wanted == usize::MAX {
        return Ok(old_persona);
    }
    if wanted & !PERSONALITY_FLAGS != 0 {
        return Err(Errno::EINVAL);
    }
    *persona = wanted;
    Ok(old_persona)
}

/// The text of the kernel log.
pub open spec fn log_text() -> Seq<u8> {
    encode_utf8("<5>RespOS kernel log buffer\n"@)
}

/// Whether reading the log returns `r`.
pub open spec fn log_read(action: usize, buf: UserOut, len: isize, r: Reply<Vec<u8>>) -> bool {
    2 <= action <= 4 ==> if buf == UserOut::Null || len <= 0 {
        r == silent::<Vec<u8>>(0)
    } else if buf == UserOut::Fault {
        r == failed::<Vec<u8>>(Errno::EFAULT)
    } else {
        let n = if len < log_text().len() {
            len as int
        } else {
            log_text().len() as int
        };
        &&& r.ret == ok(n as usize)
        &&& r.out is Some
        &&& r.out->0@ == log_text().subrange(0, n)
    }
}

/// Reads and controls the kernel log, which always holds the same line.
pub fn sys_syslog(action: usize, buf: UserOut, len: isize) -> (r: Reply<Vec<u8>>)
    ensures
        action == 0 || action == 1 || action == 5 ==> r == silent::<Vec<u8>>(0),
        action == 10 ==> r == silent::<Vec<u8>>(4096),
        !(action <= 5 || action == 10) ==> r == failed::<Vec<u8>>(Errno::ENOSYS),
        log_read(action, buf, len, r),
{
    if action == 0 || action == 1 || action == 5 {
        return Reply::done(0);
    }
    if action == 10 {
        return Reply::done(4096);
    }
    if action < 2 || action > 4 {
        return Reply::fail(Errno::ENOSYS);
    }
    if len <= 0 {
        return Reply::done(0);
    }
    match buf {
        UserOut::Null => {
            return Reply::done(0);
        },
        UserOut::Fault => {
            return Reply::fail(Errno::EFAULT);
        },
        UserOut::Writable => {},
    }
    let text = "<5>RespOS kernel log buffer\n".as_bytes();
    let n: usize = if (len as usize) < text.len() {
        len as usize
    } else {
        text.len()
    };
    let mut out: Vec<u8> = Vec::new();
    let mut i: usize = 0;
    while i < n
        invariant
            i <= n <= text@.len(),
            text@ == log_text(),
            out@ == text@.subrange(0, i as int),
        decreases n - i,
    {
        out.push(text[i]);
        i = i + 1;
        proof {
            assert(out@ =~= text@.subrange(0, i as int));
        }
    }
    Reply { ret: Ok(n), out: Some(out) }
}

/// Reports time since the start and the use of memory. `free_bytes` is what the
/// frame allocator has left.
pub fn sys_sysinfo(
    now_ms: usize,
    memory_start: usize,
    memory_end: usize,
    free_bytes: usize,
    tasks: usize,
    buf: UserOut,
) -> (r: Reply<SysInfo>)
    ensures
        buf != UserOut::Writable ==> r == failed::<SysInfo>(Errno::EFAULT),
        buf == UserOut::Writable ==> {
            &&& r.ret == ok(0)
            &&& r.out is Some
            &&& r.out->0.uptime == now_ms / 1000
            &&& r.out->0.loads@ == seq![0usize, 0usize, 0usize]
            &&& r.out->0.totalram == memory_end.saturating_sub(memory_start)
            &&& r.out->0.freeram == free_bytes
            &&& r.out->0.sharedram == 0
            &&& r.out->0.bufferram == 0
            &&& r.out->0.totalswap == 0
            &&& r.out->0.freeswap == 0
            &&& r.out->0.procs == tasks as u16
            &&& r.out->0.totalhigh == 0
            &&& r.out->0.freehigh == 0
            &&& r.out->0.mem_unit == 1
        },
{
    let loads: [usize; 3] = [0, 0, 0];
    assert(loads@ =~= seq![0usize, 0usize, 0usize]);
    buf.reply(
        0,
        SysInfo {
            uptime: now_ms / 1000,
            loads,
            totalram: memory_end.saturating_sub(memory_start),
            freeram: free_bytes,
            sharedram: 0,
            bufferram: 0,
            totalswap: 0,
            freeswap: 0,
            procs: tasks as u16,
            totalhigh: 0,
            freehigh: 0,
            mem_unit: 1,
        },
    )
}

/// What is done to stop the machine.
#[derive(Debug, Clone, Copy, PartialEq, Eq, Structural)]
pub enum StopStep {
    /// File systems write back what they hold.
    FlushFilesystems,
    /// The machine is switched off.
    PowerOff { failure: bool },
}

/// Stops the machine: file systems are flushed before the power goes.
pub fn sys_reboot() -> (r: [StopStep; 2])
    ensures
        r@ == seq![StopStep::FlushFilesystems, StopStep::PowerOff { failure: false }],
{
    let steps = [StopStep::FlushFilesystems, StopStep::PowerOff { failure: false }];
    assert(steps@ =~= seq![StopStep::FlushFilesystems, StopStep::PowerOff { failure: false }]);
    steps
}

/// A field of the machine's identity holds a name's first 64 bytes and ends in a zero byte.
pub proof fn identity_fields_end_in_zero(s: Seq<u8>)
    ensures
        field_bytes(s).len() == 65,
        field_bytes(s)[64] == 0,
        forall|i: int| 0 <= i < 64 && i < s.len() ==> #[trigger] field_bytes(s)[i] == s[i],
        forall|i: int| s.len() <= i < 65 ==> #[trigger] field_bytes(s)[i] == 0,
{
}

/// A name of the machine is set by the superuser alone, to at most 64 bytes, whole.
pub proof fn names_are_set_by_the_superuser(euid: usize, v: Vec<u8>, len: usize)
    requires
        v@.len() == len,
    ensures
        len > 64 ==> new_field(euid, UserIn::Value(v), len) == Err::<Seq<u8>, Errno>(Errno::EINVAL),
        len <= 64 && euid != 0 ==> new_field(euid, UserIn::Value(v), len) == Err::<Seq<u8>, Errno>(
            Errno::EPERM,
        ),
        len <= 64 && euid == 0 ==> (new_field(euid, UserIn::Value(v), len) matches Ok(f) && f.len()
            == 65 && f.subrange(0, len as int) =~= v@ && forall|i: int|
            len <= i < 65 ==> f[i] == 0),
        0 < len <= 64 && euid == 0 ==> new_field(euid, UserIn::Fault, len) == Err::<
            Seq<u8>,
            Errno,
        >(Errno::EFAULT),
{
}

/// The log is told from its start, as far as the buffer goes.
pub proof fn the_log_is_told_from_its_start(action: usize, len: isize, r: Reply<Vec<u8>>)
    requires
        log_read(action, UserOut::Writable, len, r),
        2 <= action <= 4,
    ensures
        len <= 0 ==> r == silent::<Vec<u8>>(0),
        len > 0 ==> {
            &&& r.out is Some && r.ret is Ok
            &&& r.out->0@.len() == r.ret->Ok_0
            &&& r.ret->Ok_0 <= len && r.ret->Ok_0 <= log_text().len()
            &&& r.ret->Ok_0 == len || r.ret->Ok_0 == log_text().len()
            &&& r.out->0@.is_prefix_of(log_text())
        },
{
}

/// The machine tells its two names as they were set, its own kind, and an old release to who
/// asks for one.
pub proof fn identities_tell_the_machine(state: UtsState, arch: Arch, persona: usize, u: UtsName)
    requires
        identity(state, arch, persona, u),
    ensures
        u.nodename == state.nodename && u.domainname == state.domainname,
        persona & 0x2_0000 != 0 ==> u.release@ == field_bytes(encode_utf8("2.6.40-dev"@)),
        persona & 0x2_0000 == 0 ==> u.release@ == field_bytes(encode_utf8("6.10.0-dev"@)),
        arch == Arch::Riscv64 ==> u.machine@ == field_bytes(encode_utf8("riscv64"@)),
        arch == Arch::LoongArch64 ==> u.machine@ == field_bytes(encode_utf8("loongarch64"@)),
        u.sysname@ == field_bytes(encode_utf8("Linux"@)),
{
}

} // verus!
