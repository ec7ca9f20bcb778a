//! Starting programs: executable formats, permissions and special cases.

use crate::errno::{ok, Errno, SysResult};
use crate::syscall::credentials::Credentials;
use crate::text::{
    basename, blank_pred, chars_of, contains_text, holds, holds_at, last_component, next_word,
    same_text, starts_with, word_bounds,
};
use vstd::prelude::*;
use vstd::utf8::*;

verus! {

/// The texts of a list.
pub open spec fn texts(args: Seq<String>) -> Seq<Seq<char>> {
    args.map_values(|s: String| s@)
}

/// The first bytes of an ELF file.
pub open spec fn elf_magic(data: Seq<u8>) -> bool {
    data.len() >= 4 && data[0] == 0x7f && data[1] == 0x45 && data[2] == 0x4c && data[3] == 0x46
}

/// Tells whether a file starts like an ELF file.
pub fn is_elf(data: &[u8]) -> (r: bool)
    ensures
        r == elf_magic(data@),
{
    data.len() >= 4 && data[0] == 0x7f && data[1] == 0x45 && data[2] == 0x4c && data[3] == 0x46
}

/// The content of a file that stands for a program without effect.
pub open spec fn noop_marker() -> Seq<u8> {
    seq![
        0x52,
        0x45,
        0x53,
        0x50,
        0x4f,
        0x53,
        0x5f,
        0x4e,
        0x4f,
        0x4f,
        0x50,
        0x5f,
        0x45,
        0x58,
        0x45,
        0x43,
        0x0a,
    ]
}

/// Tells whether a file stands for a program without effect.
pub fn is_noop_exec_marker(data: &[u8]) -> (r: bool)
    ensures
        r == (data@ == noop_marker()),
{
    let marker: [u8; 17] = [
        0x52,
        0x45,
        0x53,
        0x50,
        0x4f,
        0x53,
        0x5f,
        0x4e,
        0x4f,
        0x4f,
        0x50,
        0x5f,
        0x45,
        0x58,
        0x45,
        0x43,
        0x0a,
    ];
    assert(marker@ =~= noop_marker());
    if data.len() != 17 {
        return false;
    }
    let mut i: usize = 0;
    while i < 17
        invariant
            i <= 17,
            data@.len() == 17,
            marker@ == noop_marker(),
            marker@.len() == 17,
            forall|k: int| 0 <= k < i ==> data@[k] == marker@[k],
        decreases 17 - i,
    {
        if data[i] != marker[i] {
            return false;
        }
        i = i + 1;
    }
    assert(data@ =~= noop_marker());
    true
}

/// How many bytes of a file are looked at to find its format.
pub const EXEC_HEAD_LEN: usize = 256;

/// The number of bytes to read from the start of a file.
pub fn exec_head_len(file_size: usize) -> (r: usize)
    ensures
        r == (if file_size < EXEC_HEAD_LEN {
            file_size
        } else {
            EXEC_HEAD_LEN
        }),
{
    if file_size < EXEC_HEAD_LEN {
        file_size
    } else {
        EXEC_HEAD_LEN
    }
}

/// A program name for making file systems.
pub open spec fn mkfs_name(name: Seq<char>) -> bool {
    ||| name == "mkfs"@
    ||| name == "mkfs.ext2"@
    ||| name == "mkfs.ext3"@
    ||| name == "mkfs.ext4"@
    ||| name == "mkfs.vfat"@
}

/// A shell name.
pub open spec fn shell_name(name: Seq<char>) -> bool {
    name == "sh"@ || name == "busybox"@ || name == "bash"@
}

/// Tells whether a path names a program for making file systems.
pub fn is_ltp_noop_mkfs(path: &str) -> (r: bool)
    ensures
        r == mkfs_name(last_component(path@)),
{
    let name = basename(path);
    let n = name.as_str();
    same_text(n, "mkfs") || same_text(n, "mkfs.ext2") || same_text(n, "mkfs.ext3") || same_text(
        n,
        "mkfs.ext4",
    ) || same_text(n, "mkfs.vfat")
}

/// The first word of a command line.
pub open spec fn first_command(line: Seq<char>) -> Option<Seq<char>> {
    match word_bounds(line, blank_pred(false), 0) {
        None => None,
        Some((start, _)) => match word_bounds(line, blank_pred(true), start) {
            None => None,
            Some((a, b)) => Some(line.subrange(a, b)),
        },
    }
}

/// A `-c` argument is followed by a command line for making a file system.
pub open spec fn runs_mkfs_at(args: Seq<Seq<char>>, i: int) -> bool {
    &&& 0 <= i
    &&& i + 1 < args.len()
    &&& args[i] == "-c"@
    &&& first_command(args[i + 1]) matches Some(w) && mkfs_name(last_component(w))
}

/// Starting `path` with `args` would make a file system, directly or through
/// a shell.
pub open spec fn makes_filesystem(path: Seq<char>, args: Seq<Seq<char>>) -> bool {
    ||| mkfs_name(last_component(path))
    ||| args.len() > 0 && mkfs_name(last_component(args[0]))
    ||| shell_name(last_component(path)) && exists|i: int| runs_mkfs_at(args, i)
}

fn command_is_mkfs(line: &str) -> (r: bool)
    ensures
        r == (first_command(line@) matches Some(w) && mkfs_name(last_component(w))),
{
    let s = chars_of(line);
    match next_word(&s, false, 0) {
        None => false,
        Some((start, _)) => match next_word(&s, true, start) {
            None => false,
            Some((a, b)) => is_ltp_noop_mkfs(line.substring_char(a, b)),
        },
    }
}

/// Tells whether starting `path` with `args` would make a file system; such
/// programs end at once with success.
pub fn finish_ltp_noop_mkfs(path: &str, args: &Vec<String>) -> (r: bool)
    ensures
        r == makes_filesystem(path@, texts(args@)),
{
    if is_ltp_noop_mkfs(path) {
        return true;
    }
    if args.len() > 0 {
        assert(texts(args@)[0] == args@[0]@);
        if is_ltp_noop_mkfs(args[0].as_str()) {
            return true;
        }
    }
    let name = basename(path);
    let n = name.as_str();
    if !(same_text(n, "sh") || same_text(n, "busybox") || same_text(n, "bash")) {
        return false;
    }
    let mut i: usize = 0;
    while i < args.len() && args.len() - i >= 2
        invariant
            i <= args@.len(),
            shell_name(last_component(path@)),
            forall|k: int| 0 <= k < i ==> !runs_mkfs_at(texts(args@), k),
        decreases args@.len() - i,
    {
        assert(texts(args@)[i as int] == args@[i as int]@);
        assert(texts(args@)[i + 1] == args@[i + 1]@);
        if same_text(args[i].as_str(), "-c") && command_is_mkfs(args[i + 1].as_str()) {
            assert(runs_mkfs_at(texts(args@), i as int));
            return true;
        }
        i = i + 1;
    }
    false
}

/// A copy of test programs to the current directory runs the built-in `cp`.
pub open spec fn copies_tests(path: Seq<char>, args: Seq<Seq<char>>) -> bool {
    &&& path == "/musl/cp"@ || path == "/glibc/cp"@ || path == "/bin/cp"@
    &&& args.len() == 3
    &&& holds(args[1], "/ltp/testcases/bin/"@)
    &&& args[2] == "."@
}

/// The built-in program that replaces `path`, if there is one.
pub fn builtin_for_fs_exec(path: &str, args: &Vec<String>) -> (r: Option<&'static str>)
    ensures
        match r {
            Some(name) => copies_tests(path@, texts(args@)) && name@ == "cp"@,
            None => !copies_tests(path@, texts(args@)),
        },
{
    let is_cp = same_text(path, "/musl/cp") || same_text(path, "/glibc/cp") || same_text(
        path,
        "/bin/cp",
    );
    if is_cp && args.len() == 3 {
        assert(texts(args@)[1] == args@[1]@);
        assert(texts(args@)[2] == args@[2]@);
        if contains_text(args[1].as_str(), "/ltp/testcases/bin/") && same_text(
            args[2].as_str(),
            ".",
        ) {
            return Some("cp");
        }
    }
    None
}

/// The shell that runs scripts below a directory.
pub open spec fn busybox_of(script: Seq<char>) -> Seq<char> {
    if holds_at(script, "/glibc/"@, 0) {
        "/glibc/busybox"@
    } else {
        "/musl/busybox"@
    }
}

/// The shell that runs a script.
pub fn shebang_busybox_path(script_path: &str) -> (r: &'static str)
    ensures
        r@ == busybox_of(script_path@),
{
    if starts_with(script_path, "/glibc/") {
        "/glibc/busybox"
    } else {
        "/musl/busybox"
    }
}

/// The text that a byte sequence encodes, if it is valid UTF-8.
///
/// `core::str::from_utf8` accepts exactly the valid UTF-8 sequences and gives
/// the text with those bytes.
#[verifier::external_body]
pub(crate) fn text_of_bytes(bytes: &[u8]) -> (r: Option<&str>)
    ensures
        match r {
            Some(s) => valid_utf8(bytes@) && encode_utf8(s@) == bytes@,
            None => !valid_utf8(bytes@),
        },
{
    core::str::from_utf8(bytes).ok()
}

/// Where the first line ends.
pub open spec fn line_end(data: Seq<u8>, from: int) -> int
    decreases data.len() - from,
{
    if 0 <= from < data.len() && data[from] != 0x0a {
        line_end(data, from + 1)
    } else {
        from
    }
}

/// The bytes of the first line after the two that mark a script.
pub open spec fn script_line(data: Seq<u8>) -> Seq<u8> {
    data.subrange(2, line_end(data, 0))
}

/// A shell interpreter that is replaced by the system's own.
pub open spec fn system_shell(interp: Seq<char>) -> bool {
    interp == "/bin/sh"@ || interp == "/usr/bin/sh"@ || interp == "/busybox"@
}

/// The second word of a line, where the first one ends at `end`.
pub open spec fn second_word(line: Seq<char>, end: int) -> Option<Seq<char>> {
    match word_bounds(line, blank_pred(false), end) {
        None => None,
        Some((a, b)) => Some(line.subrange(a, b)),
    }
}

/// The arguments of the interpreter before those of the script.
pub open spec fn interpreter_args(interp: Seq<char>, arg: Option<Seq<char>>) -> Seq<Seq<char>> {
    if system_shell(interp) {
        seq!["busybox"@, "sh"@]
    } else {
        match arg {
            Some(a) => seq![interp, a],
            None => seq![interp],
        }
    }
}

/// Interpreter and arguments that run a script: at most one interpreter
/// argument counts, the script's path replaces the first argument, and the
/// others follow in order.
pub open spec fn shebang(script: Seq<char>, data: Seq<u8>, args: Seq<Seq<char>>) -> Option<
    (Seq<char>, Seq<Seq<char>>),
> {
    if !(data.len() >= 2 && data[0] == 0x23 && data[1] == 0x21) || !valid_utf8(script_line(data)) {
        None
    } else {
        let line = decode_utf8(script_line(data));
        match word_bounds(line, blank_pred(false), 0) {
            None => None,
            Some((a, b)) => {
                let interp = line.subrange(a, b);
                let rest = if args.len() > 0 {
                    args.subrange(1, args.len() as int)
                } else {
                    Seq::empty()
                };
                Some(
                    (
                        if system_shell(interp) {
                            busybox_of(script)
                        } else {
                            interp
                        },
                        interpreter_args(interp, second_word(line, b)).push(script) + rest,
                    ),
                )
            },
        }
    }
}

/// Interpreter and arguments that run a script, or nothing if the file is no
/// script with an interpreter.
pub fn shebang_args(script_path: &str, data: &[u8], old_args: &Vec<String>) -> (r: Option<
    (String, Vec<String>),
>)
    ensures
        match r {
            Some((path, args)) => shebang(script_path@, data@, texts(old_args@)) == Some(
                (path@, texts(args@)),
            ),
            None => shebang(script_path@, data@, texts(old_args@)) is None,
        },
{
    if !(data.len() >= 2 && data[0] == 0x23 && data[1] == 0x21) {
        return None;
    }
    let mut end: usize = 0;
    while end < data.len() && data[end] != 0x0a
        invariant
            end <= data@.len(),
            line_end(data@, 0) == line_end(data@, end as int),
        decreases data@.len() - end,
    {
        end = end + 1;
    }
    assert(line_end(data@, 0) == end);
    proof {
        reveal_with_fuel(line_end, 3);
        line_end_bounds(data@, 2);
    }
    let line_bytes = vstd::slice::slice_subrange(data, 2, end);
    let line = match text_of_bytes(line_bytes) {
        Some(s) => s,
        None => {
            return None;
        },
    };
    proof {
        encode_utf8_decode_utf8(line@);
    }
    let s = chars_of(line);
    let (a, b) = match next_word(&s, false, 0) {
        Some(w) => w,
        None => {
            return None;
        },
    };
    let interp = line.substring_char(a, b);
    let is_shell = same_text(interp, "/bin/sh") || same_text(interp, "/usr/bin/sh") || same_text(
        interp,
        "/busybox",
    );
    let mut args: Vec<String> = Vec::new();
    let path: String;
    if is_shell {
        args.push("busybox".to_owned());
        args.push("sh".to_owned());
        path = shebang_busybox_path(script_path).to_owned();
        proof {
            assert(texts(args@) =~= seq!["busybox"@, "sh"@]);
        }
    } else {
        args.push(interp.to_owned());
        match next_word(&s, false, b) {
            Some((c, d)) => {
                args.push(line.substring_char(c, d).to_owned());
            },
            None => {},
        }
        path = interp.to_owned();
        proof {
            assert(texts(args@) =~= interpreter_args(interp@, second_word(line@, b as int)));
        }
    }
    args.push(script_path.to_owned());
    let ghost head = texts(args@);
    proof {
        assert(head =~= interpreter_args(interp@, second_word(line@, b as int)).push(
            script_path@,
        ));
    }
    let mut i: usize = 1;
    while i < old_args.len()
        invariant
            1 <= i,
            i <= old_args@.len() || i == 1,
            texts(args@) == head + (if old_args@.len() > 0 {
                texts(old_args@).subrange(1, i as int)
            } else {
                Seq::empty()
            }),
        decreases old_args@.len() - i,
    {
        let ghost before = texts(args@);
        args.push(old_args[i].clone());
        i = i + 1;
        proof {
            assert(texts(args@) =~= before.push(old_args@[i - 1]@));
            assert(texts(old_args@).subrange(1, i as int) =~= texts(old_args@).subrange(
                1,
                i - 1,
            ).push(old_args@[i - 1]@));
        }
    }
    Some((path, args))
}

proof fn line_end_bounds(data: Seq<u8>, from: int)
    requires
        0 <= from <= data.len(),
    ensures
        from <= line_end(data, from) <= data.len(),
    decreases data.len() - from,
{
    if from < data.len() && data[from] != 0x0a {
        line_end_bounds(data, from + 1);
    }
}

/// Owner, group and permissions of a file.
#[derive(Debug, Clone, Copy, PartialEq, Eq, Structural)]
pub struct FileMode {
    pub directory: bool,
    pub mode: u32,
    pub uid: u32,
    pub gid: u32,
}

/// Root needs some execute bit; others need the one of their class.
pub open spec fn may_execute(c: &Credentials, f: FileMode) -> bool {
    !f.directory && (if c.fsuid == 0 {
        f.mode & 0o777 & 0o111 != 0
    } else if c.fsuid as u32 == f.uid {
        f.mode & 0o777 & 0o100 != 0
    } else if c.fsgid == f.gid || c.groups@.contains(f.gid as usize) {
        f.mode & 0o777 & 0o010 != 0
    } else {
        f.mode & 0o777 & 0o001 != 0
    })
}

/// Checks that a file may be started.
pub fn check_exec_permission(c: &Credentials, f: &FileMode) -> (r: SysResult<()>)
    ensures
        r == (if may_execute(c, *f) {
            Ok::<(), Errno>(())
        } else {
            Err(Errno::EACCES)
        }),
{
    if f.directory {
        return Err(Errno::EACCES);
    }
    let mode: u32 = f.mode & 0o777;
    let exec_bit: u32 = if c.fsuid == 0 {
        0o111
    } else if c.fsuid as u32 == f.uid {
        0o100
    } else if c.in_group(f.gid as usize) {
        0o010
    } else {
        0o001
    };
    if mode & exec_bit != 0 {
        Ok(())
    } else {
        Err(Errno::EACCES)
    }
}

/// How the start of a file goes on.
pub enum ExecStep {
    /// The call fails and the old program goes on.
    Fail(Errno),
    /// The process ends with success.
    ExitZero,
    /// The file itself is loaded.
    Load,
    /// An interpreter is to be opened and loaded with these arguments.
    Interpret { path: String, args: Vec<String> },
}

/// What starting a file means.
pub open spec fn exec_meaning(
    c: &Credentials,
    f: FileMode,
    noexec: bool,
    exe_path: Seq<char>,
    args: Seq<Seq<char>>,
    head: SysResult<Seq<u8>>,
    step: ExecStep,
) -> bool {
    if !may_execute(c, f) || noexec {
        step matches ExecStep::Fail(e) && e == Errno::EACCES
    } else if makes_filesystem(exe_path, args) {
        step is ExitZero
    } else {
        match head {
            Err(e) => step matches ExecStep::Fail(x) && x == e,
            Ok(h) => if h == noop_marker() {
                step is ExitZero
            } else if elf_magic(h) {
                step is Load
            } else {
                match shebang(exe_path, h, args) {
                    None => step matches ExecStep::Fail(e) && e == Errno::ENOEXEC,
                    Some((p, a)) => step matches ExecStep::Interpret { path, args } && path@ == p
                        && texts(args@) == a,
                }
            },
        }
    }
}

/// The view of a read that may have failed.
pub open spec fn head_view(head: SysResult<Vec<u8>>) -> SysResult<Seq<u8>> {
    match head {
        Ok(v) => Ok(v@),
        Err(e) => Err(e),
    }
}

/// Decides how an opened file is started. `head` holds its first bytes.
pub fn exec_fs_file(
    c: &Credentials,
    f: &FileMode,
    noexec: bool,
    exe_path: &str,
    args: &Vec<String>,
    head: SysResult<Vec<u8>>,
) -> (r: ExecStep)
    ensures
        exec_meaning(c, *f, noexec, exe_path@, texts(args@), head_view(head), r),
{
    match check_exec_permission(c, f) {
        Err(e) => {
            return ExecStep::Fail(e);
        },
        Ok(_) => {},
    }
    if noexec {
        return ExecStep::Fail(Errno::EACCES);
    }
    if finish_ltp_noop_mkfs(exe_path, args) {
        return ExecStep::ExitZero;
    }
    let h = match head {
        Ok(h) => h,
        Err(e) => {
            return ExecStep::Fail(e);
        },
    };
    if is_noop_exec_marker(h.as_slice()) {
        return ExecStep::ExitZero;
    }
    if !is_elf(h.as_slice()) {
        return match shebang_args(exe_path, h.as_slice(), args) {
            Some((path, new_args)) => ExecStep::Interpret { path, args: new_args },
            None => ExecStep::Fail(Errno::ENOEXEC),
        };
    }
    ExecStep::Load
}

/// Whether a file can interpret a program.
pub open spec fn interpreter_checked(
    c: &Credentials,
    f: FileMode,
    head: SysResult<Vec<u8>>,
) -> SysResult<()> {
    if !may_execute(c, f) {
        Err::<(), Errno>(Errno::EACCES)
    } else {
        match head_view(head) {
            Err(e) => Err(e),
            Ok(h) => if elf_magic(h) {
                Ok(())
            } else {
                Err(Errno::ENOEXEC)
            },
        }
    }
}

/// Decides whether an opened interpreter can be loaded: it must be executable
/// and an ELF file, never a script itself.
pub fn check_interpreter(c: &Credentials, f: &FileMode, head: SysResult<Vec<u8>>) -> (r: SysResult<
    (),
>)
    ensures
        r == interpreter_checked(c, *f, head),
{
    match check_exec_permission(c, f) {
        Err(e) => {
            return Err(e);
        },
        Ok(_) => {},
    }
    match head {
        Err(e) => Err(e),
        Ok(h) => if is_elf(h.as_slice()) {
            Ok(())
        } else {
            Err(Errno::ENOEXEC)
        },
    }
}

/// What `execve` does with a path and arguments.
pub enum ExecveStep {
    Fail(Errno),
    ExitZero,
    /// A built-in program replaces the file.
    Builtin(&'static str),
    /// The path is looked up in the file system.
    Lookup,
}

/// Whether a call to run a program goes on as `r`.
pub open spec fn program_asked(
    path: SysResult<String>,
    args: SysResult<Vec<String>>,
    envs: SysResult<Vec<String>>,
    builtins: bool,
    r: ExecveStep,
) -> bool {
    match (path, args, envs) {
        (Err(e), _, _) => r matches ExecveStep::Fail(x) && x == e,
        (Ok(_), Err(e), _) => r matches ExecveStep::Fail(x) && x == e,
        (Ok(_), Ok(_), Err(e)) => r matches ExecveStep::Fail(x) && x == e,
        (Ok(p), Ok(a), Ok(_)) => if makes_filesystem(p@, texts(a@)) {
            r is ExitZero
        } else if copies_tests(p@, texts(a@)) && builtins {
            r matches ExecveStep::Builtin(name) && name@ == "cp"@
        } else {
            r is Lookup
        },
    }
}

/// The first decision of `execve`: unreadable arguments fail before anything
/// else happens.
pub fn sys_execve(
    path: SysResult<String>,
    args: SysResult<Vec<String>>,
    envs: SysResult<Vec<String>>,
    builtins: bool,
) -> (r: ExecveStep)
    ensures
        program_asked(path, args, envs, builtins, r),
{
    let p = match path {
        Ok(p) => p,
        Err(e) => {
            return ExecveStep::Fail(e);
        },
    };
    let a = match args {
        Ok(a) => a,
        Err(e) => {
            return ExecveStep::Fail(e);
        },
    };
    match envs {
        Ok(_) => {},
        Err(e) => {
            return ExecveStep::Fail(e);
        },
    }
    if finish_ltp_noop_mkfs(p.as_str(), &a) {
        return ExecveStep::ExitZero;
    }
    match builtin_for_fs_exec(p.as_str(), &a) {
        Some(name) => {
            if builtins {
                return ExecveStep::Builtin(name);
            }
        },
        None => {},
    }
    ExecveStep::Lookup
}

/// What follows a failed lookup: a program of the same name inside the kernel
/// image is tried only where no such file exists.
pub fn after_failed_lookup(path: &str, error: Errno) -> (r: SysResult<String>)
    ensures
        error == Errno::ENOENT ==> r is Ok && r->Ok_0@ == last_component(path@),
        error != Errno::ENOENT ==> r is Err && r->Err_0 == error,
{
    match error {
        Errno::ENOENT => Ok(basename(path)),
        _ => Err(error),
    }
}

/// The image of a built-in program must be an ELF file.
pub fn check_embedded(data: &[u8]) -> (r: SysResult<()>)
    ensures
        r == (if elf_magic(data@) {
            Ok::<(), Errno>(())
        } else {
            Err(Errno::ENOEXEC)
        }),
{
    if is_elf(data) {
        Ok(())
    } else {
        Err(Errno::ENOEXEC)
    }
}

pub const AT_SYMLINK_NOFOLLOW: usize = 0x100;

pub const AT_EMPTY_PATH: usize = 0x1000;

/// What `execveat` opens.
pub enum ExecveatStep {
    Fail(Errno),
    ExitZero,
    /// The file behind the descriptor itself.
    Descriptor,
    /// A path, whose last symbolic link is followed or not.
    Path { follow: bool },
}

/// Whether a call to run a program below a directory goes on as `r`.
pub open spec fn program_asked_at(
    path: SysResult<String>,
    args: SysResult<Vec<String>>,
    flags: usize,
    r: ExecveatStep,
) -> bool {
    if flags & !(AT_EMPTY_PATH | AT_SYMLINK_NOFOLLOW) != 0 {
        r matches ExecveatStep::Fail(e) && e == Errno::EINVAL
    } else {
        match (path, args) {
            (Err(e), _) => r matches ExecveatStep::Fail(x) && x == e,
            (Ok(_), Err(e)) => r matches ExecveatStep::Fail(x) && x == e,
            (Ok(p), Ok(a)) => if makes_filesystem(p@, texts(a@)) {
                r is ExitZero
            } else if p@.len() == 0 {
                if flags & AT_EMPTY_PATH == 0 {
                    r matches ExecveatStep::Fail(e) && e == Errno::ENOENT
                } else {
                    r is Descriptor
                }
            } else {
                r matches ExecveatStep::Path { follow } && follow == (flags
                    & AT_SYMLINK_NOFOLLOW == 0)
            },
        }
    }
}

/// The first decision of `execveat`. `args` is empty where the pointer is null.
pub fn sys_execveat(path: SysResult<String>, args: SysResult<Vec<String>>, flags: usize) -> (r:
    ExecveatStep)
    ensures
        program_asked_at(path, args, flags, r),
{
    if flags & !(AT_EMPTY_PATH | AT_SYMLINK_NOFOLLOW) != 0 {
        return ExecveatStep::Fail(Errno::EINVAL);
    }
    let p = match path {
        Ok(p) => p,
        Err(e) => {
            return ExecveatStep::Fail(e);
        },
    };
    let a = match args {
        Ok(a) => a,
        Err(e) => {
            return ExecveatStep::Fail(e);
        },
    };
    if finish_ltp_noop_mkfs(p.as_str(), &a) {
        return ExecveatStep::ExitZero;
    }
    if p.as_str().is_empty() {
        if flags & AT_EMPTY_PATH == 0 {
            return ExecveatStep::Fail(Errno::ENOENT);
        }
        return ExecveatStep::Descriptor;
    }
    ExecveatStep::Path { follow: flags & AT_SYMLINK_NOFOLLOW == 0 }
}

/// A file that nobody may execute is never loaded, not even by root.
pub proof fn loaded_files_are_executable(
    c: &Credentials,
    f: FileMode,
    noexec: bool,
    exe_path: Seq<char>,
    args: Seq<Seq<char>>,
    head: SysResult<Seq<u8>>,
    step: ExecStep,
)
    requires
        exec_meaning(c, f, noexec, exe_path, args, head, step),
        step is Load || step is Interpret,
    ensures
        may_execute(c, f),
        !noexec,
{
}

/// A script gives its own arguments on: every argument after the first one
/// appears again, in order, at the end.
pub proof fn script_arguments_follow(script: Seq<char>, data: Seq<u8>, args: Seq<Seq<char>>, i: int)
    requires
        shebang(script, data, args) is Some,
        1 <= i < args.len(),
    ensures
        ({
            let (_, out) = shebang(script, data, args)->0;
            out[out.len() - args.len() + i] == args[i]
        }),
{
}

/// The environment of an `execveat` whose file was opened: it is read only then.
/// `envs` is empty where the pointer is null.
pub fn execveat_environment(opened: SysResult<()>, envs: SysResult<Vec<String>>) -> (r: SysResult<
    Vec<String>,
>)
    ensures
        r == (match opened {
            Err(e) => Err::<Vec<String>, Errno>(e),
            Ok(_) => envs,
        }),
{
    match opened {
        Err(e) => Err(e),
        Ok(_) => envs,
    }
}

/// A file is executable by the bit of its class: its owner's, its group's or everyone's; the
/// superuser needs any of the three. No directory is.
pub proof fn execution_is_by_class(c: &Credentials, f: FileMode)
    ensures
        f.directory ==> !may_execute(c, f),
        !f.directory && c.fsuid == 0 ==> may_execute(c, f) == (f.mode & 0o100 != 0 || f.mode & 0o010
            != 0 || f.mode & 0o001 != 0),
        !f.directory && c.fsuid != 0 && c.fsuid as u32 == f.uid ==> may_execute(c, f) == (f.mode
            & 0o100 != 0),
        !f.directory && c.fsuid != 0 && c.fsuid as u32 != f.uid && (c.fsgid == f.gid
            || c.groups@.contains(f.gid as usize)) ==> may_execute(c, f) == (f.mode & 0o010 != 0),
        !f.directory && c.fsuid != 0 && c.fsuid as u32 != f.uid && c.fsgid != f.gid
            && !c.groups@.contains(f.gid as usize) ==> may_execute(c, f) == (f.mode & 0o001 != 0),
{
    let m = f.mode;
    assert((m & 0o777 & 0o111 != 0) == (m & 0o100 != 0 || m & 0o010 != 0 || m & 0o001 != 0) && (m
        & 0o777 & 0o100 != 0) == (m & 0o100 != 0) && (m & 0o777 & 0o010 != 0) == (m & 0o010 != 0)
        && (m & 0o777 & 0o001 != 0) == (m & 0o001 != 0)) by (bit_vector);
}

/// A program is one that begins with the four magic bytes; an interpreter is an executable
/// program.
pub proof fn interpreters_are_programs(c: &Credentials, f: FileMode, head: SysResult<Vec<u8>>)
    ensures
        interpreter_checked(c, f, head) is Ok ==> may_execute(c, f) && (head matches Ok(h)
            && h@.len() >= 4 && h@[0] == 127 && h@[1] == 69 && h@[2] == 76 && h@[3] == 70),
        !may_execute(c, f) ==> interpreter_checked(c, f, head) == Err::<(), Errno>(Errno::EACCES),
        may_execute(c, f) ==> (head matches Ok(h) ==> h@.len() >= 4 && h@[0] == 127 && h@[1] == 69
            && h@[2] == 76 && h@[3] == 70 ==> interpreter_checked(c, f, head) is Ok),
        may_execute(c, f) ==> (head matches Ok(h) ==> !elf_magic(h@) ==> interpreter_checked(
            c,
            f,
            head,
        ) == Err::<(), Errno>(Errno::ENOEXEC)),
{
}

/// The first error of path, arguments and environment ends the call; otherwise the program is
/// looked up unless it is one that is done at once.
pub proof fn programs_are_looked_up(
    path: String,
    args: Vec<String>,
    envs: Vec<String>,
    builtins: bool,
    r: ExecveStep,
    e: Errno,
    r1: ExecveStep,
    r2: ExecveStep,
    r3: ExecveStep,
)
    requires
        program_asked(Ok(path), Ok(args), Ok(envs), builtins, r),
        program_asked(Err(e), Ok(args), Ok(envs), builtins, r1),
        program_asked(Ok(path), Err(e), Ok(envs), builtins, r2),
        program_asked(Ok(path), Ok(args), Err(e), builtins, r3),
    ensures
        !makes_filesystem(path@, texts(args@))
            && !copies_tests(path@, texts(args@)) ==> r is Lookup,
        makes_filesystem(path@, texts(args@)) ==> r is ExitZero,
        r is Builtin ==> builtins && copies_tests(path@, texts(args@)),
        r1 == ExecveStep::Fail(e) && r2 == ExecveStep::Fail(e) && r3 == ExecveStep::Fail(e),
{
}

/// Below a directory an empty path names the descriptor itself where the flag allows it, and a
/// link is followed unless the flag forbids it.
pub proof fn empty_paths_name_the_descriptor(
    path: String,
    args: Vec<String>,
    flags: usize,
    r: ExecveatStep,
)
    requires
        program_asked_at(Ok(path), Ok(args), flags, r),
        !makes_filesystem(path@, texts(args@)),
    ensures
        flags & !(0x1000usize | 0x100usize) != 0 ==> r == ExecveatStep::Fail(Errno::EINVAL),
        flags & !(0x1000usize | 0x100usize) == 0 && path@.len() == 0 ==> (if flags & 0x1000 != 0 {
            r is Descriptor
        } else {
            r == ExecveatStep::Fail(Errno::ENOENT)
        }),
        flags & !(0x1000usize | 0x100usize) == 0 && path@.len() > 0 ==> (
        r matches ExecveatStep::Path { follow } && follow == (flags & 0x100 == 0)),
{
}

/// A script's arguments are its interpreter, the word behind it, the script and the caller's
/// arguments but the first.
pub proof fn scripts_come_behind_their_interpreter(interp: Seq<char>, arg: Option<Seq<char>>)
    ensures
        !system_shell(interp) ==> interpreter_args(interp, arg)[0] == interp,
        !system_shell(interp) ==> (arg matches Some(a) ==> interpreter_args(interp, arg).len() == 2
            && interpreter_args(interp, arg)[1] == a),
        !system_shell(interp) && arg is None ==> interpreter_args(interp, arg).len() == 1,
        system_shell(interp) ==> interpreter_args(interp, arg).len() == 2 && interpreter_args(
            interp,
            arg,
        )[0] == "busybox"@ && interpreter_args(interp, arg)[1] == "sh"@,
{
}

/// The first line ends before the first line feed, or with the data.
pub proof fn lines_end_at_a_line_feed(data: Seq<u8>, from: int)
    requires
        0 <= from <= data.len(),
    ensures
        from <= line_end(data, from) <= data.len(),
        line_end(data, from) < data.len() ==> data[line_end(data, from)] == 10,
        forall|i: int| from <= i < line_end(data, from) ==> data[i] != 10,
    decreases data.len() - from,
{
    if from < data.len() && data[from] != 0x0a {
        lines_end_at_a_line_feed(data, from + 1);
    }
}

/// A script below the one library's directory is run by that library's shell, any other by the
/// other's.
pub proof fn scripts_have_their_librarys_shell(rest: Seq<char>, script: Seq<char>)
    ensures
        busybox_of("/glibc/"@ + rest) == "/glibc/busybox"@,
        !"/glibc/"@.is_prefix_of(script) ==> busybox_of(script) == "/musl/busybox"@,
{
    let p = "/glibc/"@;
    assert((p + rest).subrange(0, p.len() as int) =~= p);
    if holds_at(script, p, 0) {
        assert(script.subrange(0, p.len() as int) == p);
    }
}

/// A command makes a file system if its program, its first argument or what a shell is told to
/// run is one of five names.
pub proof fn five_names_make_file_systems(path: Seq<char>, args: Seq<Seq<char>>, i: int)
    ensures
        mkfs_name("mkfs"@) && mkfs_name("mkfs.ext2"@) && mkfs_name("mkfs.ext3"@) && mkfs_name(
            "mkfs.ext4"@,
        ) && mkfs_name("mkfs.vfat"@),
        mkfs_name(last_component(path)) ==> makes_filesystem(path, args),
        args.len() > 0 && mkfs_name(last_component(args[0])) ==> makes_filesystem(path, args),
        0 <= i && i + 1 < args.len() && args[i] == "-c"@ && (last_component(path) == "sh"@
            || last_component(path) == "bash"@ || last_component(path) == "busybox"@) && (
        first_command(args[i + 1]) matches Some(w) && mkfs_name(last_component(w)))
            ==> makes_filesystem(path, args),
        makes_filesystem(path, args) && args.len() == 0 ==> mkfs_name(last_component(path)),
{
    if 0 <= i && i + 1 < args.len() && args[i] == "-c"@ && (first_command(args[i + 1]) matches Some(
        w,
    ) && mkfs_name(last_component(w))) {
        assert(runs_mkfs_at(args, i));
    }
}

/// Three names stand for the system's own shell.
pub proof fn system_shells_have_three_names(interp: Seq<char>)
    ensures
        system_shell("/bin/sh"@) && system_shell("/usr/bin/sh"@) && system_shell("/busybox"@),
        system_shell(interp) ==> interp == "/bin/sh"@ || interp == "/usr/bin/sh"@ || interp
            == "/busybox"@,
        shell_name("sh"@) && shell_name("bash"@) && shell_name("busybox"@),
{
}

} // verus!
