//! A server inside the kernel that answers every request with a page about the
//! state of the system.

use crate::format::{
    decimal, low_digits, low_digits_can_be_read_back, padded, push_decimal, push_hex, push_padded,
};
use crate::net::listen::{listener, owns, port_accepted, replenished, ListenTableEntry};
use crate::net::addr::{Endpoint, ListenEndpoint};
use crate::net::smol;
use crate::net::smol::{
    is_tcp, smaller, tcp_active, tcp_can_send, tcp_closed, tcp_may_recv, tcp_of, SocketView, TcpView,
};
use crate::net::stack::NetStack;
use smoltcp::iface::SocketHandle;
use vstd::prelude::*;
use vstd::string::StringExecFns;
use vstd::utf8::encode_utf8;

verus! {

/// The port of the server.
pub const HTTP_PORT: u16 = 80;

/// The backlog of the server's port.
pub const HTTP_BACKLOG: usize = 16;

/// The largest number of bytes of a request that are kept.
pub const RX_BUF_CAP: usize = 8192;

/// The largest number of connections at a time.
pub const MAX_CONNS: usize = 16;

/// The largest number of bytes that are read at a time.
pub const READ_CHUNK: usize = 1024;

/// What the page tells.
#[derive(Debug, Clone, Copy)]
pub struct StatusInfo {
    /// The processor is a RISC-V one; otherwise it is a LoongArch one.
    pub riscv: bool,
    pub mac: Option<[u8; 6]>,
    pub uptime_us: usize,
    pub idle_us: usize,
    pub online_harts: u32,
    pub max_harts: usize,
    pub tasks: usize,
    pub page_size: usize,
    pub mem_total: usize,
    pub free_frames: usize,
    pub cached_pages: usize,
    pub dirty_pages: usize,
    pub heap_used: usize,
}

impl StatusInfo {
    /// The sizes can be told in bytes.
    pub open spec fn wf(&self) -> bool {
        &&& self.free_frames * self.page_size <= usize::MAX
        &&& self.cached_pages * self.page_size <= usize::MAX
        &&& self.dirty_pages * self.page_size <= usize::MAX
    }
}

/// The end of the headers of a request is at index `i`.
pub open spec fn headers_end_at(rx: Seq<u8>, i: int) -> bool {
    &&& 0 <= i
    &&& i + 4 <= rx.len()
    &&& rx[i] == 13
    &&& rx[i + 1] == 10
    &&& rx[i + 2] == 13
    &&& rx[i + 3] == 10
}

/// The headers of a request are complete: there is an empty line.
pub open spec fn headers_complete(rx: Seq<u8>) -> bool {
    exists|i: int| headers_end_at(rx, i)
}

/// Tells whether the headers of a request are complete.
pub fn request_headers_complete(rx: &Vec<u8>) -> (r: bool)
    ensures
        r == headers_complete(rx@),
{
    let n: usize = rx.len();
    if n < 4 {
        return false;
    }
    let mut i: usize = 0;
    while i <= n - 4
        invariant
            n == rx@.len(),
            n >= 4,
            i <= n - 3,
            forall|j: int| 0 <= j < i ==> !headers_end_at(rx@, j),
        decreases n - i,
    {
        if rx[i] == 13 && rx[i + 1] == 10 && rx[i + 2] == 13 && rx[i + 3] == 10 {
            proof {
                assert(headers_end_at(rx@, i as int));
            }
            return true;
        }
        i = i + 1;
    }
    false
}

/// The name of the processor's architecture.
pub fn arch_name(riscv: bool) -> (r: &'static str)
    ensures
        r@ == (if riscv {
            "RISC-V 64"@
        } else {
            "LoongArch 64"@
        }),
{
    if riscv {
        "RISC-V 64"
    } else {
        "LoongArch 64"
    }
}

/// A mebibyte.
pub const MIB: usize = 0x10_0000;

/// A text with a number of bytes behind it: in mebibytes with two decimals, in
/// kibibytes or in bytes.
pub open spec fn with_bytes(s: Seq<char>, n: usize) -> Seq<char> {
    if n >= MIB {
        s + decimal((n / MIB) as nat) + "."@ + padded(
            decimal((n % MIB * 100 / MIB as int) as nat),
            '0',
            2,
        ) + " MiB"@
    } else if n >= 1024 {
        s + decimal((n / 1024) as nat) + " KiB"@
    } else {
        s + decimal(n as nat) + " B"@
    }
}

fn push_bytes(out: &mut String, n: usize)
    ensures
        final(out)@ == with_bytes(old(out)@, n),
{
    if n >= MIB {
        push_decimal(out, (n / MIB) as u64);
        out.append(".");
        push_padded(out, (n % MIB * 100 / MIB) as u64, true, 2);
        out.append(" MiB");
    } else if n >= 1024 {
        push_decimal(out, (n / 1024) as u64);
        out.append(" KiB");
    } else {
        push_decimal(out, n as u64);
        out.append(" B");
    }
}

/// A number of bytes as text.
pub fn fmt_bytes(bytes: usize) -> (r: String)
    ensures
        r@ == with_bytes(Seq::empty(), bytes),
{
    let mut out = String::new();
    push_bytes(&mut out, bytes);
    out
}

/// A text with a duration behind it: hours, minutes and seconds, leading zeros
/// left out.
pub open spec fn with_duration(s: Seq<char>, us: usize) -> Seq<char> {
    let total = us / 1_000_000;
    let hours = (total / 3600) as nat;
    let minutes = (total % 3600 / 60) as nat;
    let seconds = (total % 60) as nat;
    if hours > 0 {
        s + decimal(hours) + "h "@ + decimal(minutes) + "m "@ + decimal(seconds) + "s"@
    } else if minutes > 0 {
        s + decimal(minutes) + "m "@ + decimal(seconds) + "s"@
    } else {
        s + decimal(seconds) + "s"@
    }
}

fn push_duration(out: &mut String, us: usize)
    ensures
        final(out)@ == with_duration(old(out)@, us),
{
    let total: usize = us / 1_000_000;
    let hours: usize = total / 3600;
    let minutes: usize = total % 3600 / 60;
    let seconds: usize = total % 60;
    if hours > 0 {
        push_decimal(out, hours as u64);
        out.append("h ");
        push_decimal(out, minutes as u64);
        out.append("m ");
    } else if minutes > 0 {
        push_decimal(out, minutes as u64);
        out.append("m ");
    }
    push_decimal(out, seconds as u64);
    out.append("s");
}

/// A duration as text.
pub fn fmt_duration_us(us: usize) -> (r: String)
    ensures
        r@ == with_duration(Seq::empty(), us),
{
    let mut out = String::new();
    push_duration(&mut out, us);
    out
}

/// A text with a device address behind it.
pub open spec fn with_mac(s: Seq<char>, mac: Option<[u8; 6]>) -> Seq<char> {
    match mac {
        Some(m) => s + low_digits(m@[0] as nat, 2, false) + ":"@ + low_digits(m@[1] as nat, 2, false)
            + ":"@ + low_digits(m@[2] as nat, 2, false) + ":"@ + low_digits(m@[3] as nat, 2, false)
            + ":"@ + low_digits(m@[4] as nat, 2, false) + ":"@ + low_digits(
            m@[5] as nat,
            2,
            false,
        ),
        None => s + "n/a"@,
    }
}

fn push_mac(out: &mut String, mac: Option<[u8; 6]>)
    ensures
        final(out)@ == with_mac(old(out)@, mac),
{
    match mac {
        Some(m) => {
            push_hex(out, m[0] as u64, 2, false);
            out.append(":");
            push_hex(out, m[1] as u64, 2, false);
            out.append(":");
            push_hex(out, m[2] as u64, 2, false);
            out.append(":");
            push_hex(out, m[3] as u64, 2, false);
            out.append(":");
            push_hex(out, m[4] as u64, 2, false);
            out.append(":");
            push_hex(out, m[5] as u64, 2, false);
        },
        None => {
            out.append("n/a");
        },
    }
}

/// The page up to the table.
pub open spec fn page_head() -> Seq<char> {
    "<!DOCTYPE html>\n<html lang=\"zh\"><head>\n<meta charset=\"utf-8\">\n<meta http-equiv=\"refresh\" content=\"2\">\n<title>RespOS 内核内 HTTP 服务器</title>\n<style>body{font-family:system-ui,monospace;margin:2rem auto;max-width:52rem;padding:0 1rem;}h1{font-size:1.4rem;}.tag{color:#2563eb;}table{border-collapse:collapse;width:100%;margin-top:1rem;}td,th{border:1px solid #d1d5db;padding:.4rem .6rem;text-align:left;}th{background:#f3f4f6;}</style></head><body>\n<h1>🦀 <span class=\"tag\">RespOS</span> 内核内 HTTP 服务器</h1>\n<p>这个网页运行在 <strong>内核里</strong>：由 virtio-net + smoltcp 驱动，<em>不经过任何用户态进程</em>，每次请求都实时渲染内核状态。</p>\n"@ + "<table>\n<tr><th>项目</th><th>数值</th></tr>\n"@
}

/// The page with the rows about the machine.
pub open spec fn with_machine(s: Seq<char>, i: StatusInfo) -> Seq<char> {
    let a = s + "<tr><td>架构</td><td>"@ + (if i.riscv {
        "RISC-V 64"@
    } else {
        "LoongArch 64"@
    }) + "</td></tr>\n"@ + "<tr><td>Guest IP</td><td>"@ + "10.0.2.15"@ + "</td></tr>\n"@
        + "<tr><td>MAC 地址</td><td>"@;
    let b = with_mac(a, i.mac) + "</td></tr>\n"@ + "<tr><td>系统启动时间</td><td>"@;
    let c = with_duration(b, i.uptime_us) + " (idle "@;
    with_duration(c, i.idle_us) + ")</td></tr>\n"@ + "<tr><td>在线 CPU</td><td>"@ + decimal(
        i.online_harts as nat,
    ) + " / "@ + decimal(i.max_harts as nat) + "</td></tr>\n"@ + "<tr><td>任务数</td><td>"@ + decimal(
        i.tasks as nat,
    ) + "</td></tr>\n"@
}

/// The page with the rows about memory.
pub open spec fn with_memory(s: Seq<char>, i: StatusInfo) -> Seq<char> {
    let a = with_bytes(s + "<tr><td>物理内存总量</td><td>"@, i.mem_total) + "</td></tr>\n"@
        + "<tr><td>空闲内存</td><td>"@;
    let b = with_bytes(a, (i.free_frames * i.page_size) as usize) + "</td></tr>\n"@
        + "<tr><td>PageCache 缓存</td><td>"@;
    let c = with_bytes(b, (i.cached_pages * i.page_size) as usize) + " (脏 "@;
    let d = with_bytes(c, (i.dirty_pages * i.page_size) as usize) + ")</td></tr>\n"@
        + "<tr><td>内核堆占用</td><td>"@;
    with_bytes(d, i.heap_used) + "</td></tr>\n"@ + "</table>\n</body></html>\n"@
}

/// The whole page.
pub open spec fn page_text(i: StatusInfo) -> Seq<char> {
    with_memory(with_machine(page_head(), i), i)
}

fn push_machine(out: &mut String, i: &StatusInfo)
    ensures
        final(out)@ == with_machine(old(out)@, *i),
{
    out.append("<tr><td>架构</td><td>");
    out.append(arch_name(i.riscv));
    out.append("</td></tr>\n");
    out.append("<tr><td>Guest IP</td><td>");
    out.append(crate::net::guest_ip());
    out.append("</td></tr>\n");
    out.append("<tr><td>MAC 地址</td><td>");
    push_mac(out, i.mac);
    out.append("</td></tr>\n");
    out.append("<tr><td>系统启动时间</td><td>");
    push_duration(out, i.uptime_us);
    out.append(" (idle ");
    push_duration(out, i.idle_us);
    out.append(")</td></tr>\n");
    out.append("<tr><td>在线 CPU</td><td>");
    push_decimal(out, i.online_harts as u64);
    out.append(" / ");
    push_decimal(out, i.max_harts as u64);
    out.append("</td></tr>\n");
    out.append("<tr><td>任务数</td><td>");
    push_decimal(out, i.tasks as u64);
    out.append("</td></tr>\n");
}

fn push_memory(out: &mut String, i: &StatusInfo)
    requires
        i.wf(),
    ensures
        final(out)@ == with_memory(old(out)@, *i),
{
    out.append("<tr><td>物理内存总量</td><td>");
    push_bytes(out, i.mem_total);
    out.append("</td></tr>\n");
    out.append("<tr><td>空闲内存</td><td>");
    push_bytes(out, i.free_frames * i.page_size);
    out.append("</td></tr>\n");
    out.append("<tr><td>PageCache 缓存</td><td>");
    push_bytes(out, i.cached_pages * i.page_size);
    out.append(" (脏 ");
    push_bytes(out, i.dirty_pages * i.page_size);
    out.append(")</td></tr>\n");
    out.append("<tr><td>内核堆占用</td><td>");
    push_bytes(out, i.heap_used);
    out.append("</td></tr>\n");
    out.append("</table>\n</body></html>\n");
}

/// The page about the state of the system.
pub fn status_html(i: &StatusInfo) -> (r: String)
    requires
        i.wf(),
    ensures
        r@ == page_text(*i),
{
    let mut out = String::new();
    out.append("<!DOCTYPE html>\n<html lang=\"zh\"><head>\n<meta charset=\"utf-8\">\n<meta http-equiv=\"refresh\" content=\"2\">\n<title>RespOS 内核内 HTTP 服务器</title>\n<style>body{font-family:system-ui,monospace;margin:2rem auto;max-width:52rem;padding:0 1rem;}h1{font-size:1.4rem;}.tag{color:#2563eb;}table{border-collapse:collapse;width:100%;margin-top:1rem;}td,th{border:1px solid #d1d5db;padding:.4rem .6rem;text-align:left;}th{background:#f3f4f6;}</style></head><body>\n<h1>🦀 <span class=\"tag\">RespOS</span> 内核内 HTTP 服务器</h1>\n<p>这个网页运行在 <strong>内核里</strong>：由 virtio-net + smoltcp 驱动，<em>不经过任何用户态进程</em>，每次请求都实时渲染内核状态。</p>\n");
    out.append("<table>\n<tr><th>项目</th><th>数值</th></tr>\n");
    proof {
        assert(out@ =~= page_head());
    }
    push_machine(&mut out, i);
    push_memory(&mut out, i);
    out
}

/// A response with a page of this text.
pub open spec fn response_text(body: Seq<char>) -> Seq<char> {
    "HTTP/1.1 200 OK\r\n"@ + "Content-Type: text/html; charset=utf-8\r\n"@ + "Content-Length: "@
        + decimal(encode_utf8(body).len()) + "\r\n"@ + "Connection: close\r\n"@
        + "Cache-Control: no-store\r\n"@ + "\r\n"@ + body
}

/// The response to any request, in bytes.
pub open spec fn response_bytes(i: StatusInfo) -> Seq<u8> {
    encode_utf8(response_text(page_text(i)))
}

/// The response to any request.
pub fn build_http_response(i: &StatusInfo) -> (r: Vec<u8>)
    requires
        i.wf(),
    ensures
        r@ == response_bytes(*i),
{
    let body = status_html(i);
    let len: usize = body.as_str().as_bytes().len();
    let mut out = String::new();
    out.append("HTTP/1.1 200 OK\r\n");
    proof {
        assert(out@ =~= "HTTP/1.1 200 OK\r\n"@);
    }
    out.append("Content-Type: text/html; charset=utf-8\r\n");
    out.append("Content-Length: ");
    push_decimal(&mut out, len as u64);
    out.append("\r\n");
    out.append("Connection: close\r\n");
    out.append("Cache-Control: no-store\r\n");
    out.append("\r\n");
    out.append(body.as_str());
    let bytes = out.as_str().as_bytes();
    let r = crate::seqs::copy_range(bytes, 0, bytes.len());
    proof {
        assert(r@ =~= bytes@);
    }
    r
}

/// The head of a response, up to and with the empty line.
pub open spec fn response_head(body: Seq<char>) -> Seq<char> {
    "HTTP/1.1 200 OK\r\n"@ + "Content-Type: text/html; charset=utf-8\r\n"@ + "Content-Length: "@
        + decimal(encode_utf8(body).len()) + "\r\n"@ + "Connection: close\r\n"@
        + "Cache-Control: no-store\r\n"@ + "\r\n"@
}

/// A text that ends a line and has no other end of a line.
spec fn is_line(s: Seq<char>) -> bool {
    &&& s.len() > 2
    &&& s[s.len() - 2] == '\r'
    &&& s[s.len() - 1] == '\n'
    &&& forall|k: int| 0 <= k < s.len() - 2 ==> #[trigger] s[k] != '\r'
    &&& vstd::utf8::is_ascii_chars(s)
}

/// Lines of which none is empty.
spec fn full_lines(s: Seq<char>) -> bool {
    &&& s.len() > 2
    &&& s[s.len() - 2] == '\r'
    &&& s[s.len() - 1] == '\n'
    &&& forall|k: int| 0 <= k < s.len() - 2 && #[trigger] s[k] == '\r' ==> s[k + 2] != '\r'
    &&& vstd::utf8::is_ascii_chars(s)
}

proof fn lines_grow(s: Seq<char>, line: Seq<char>)
    requires
        full_lines(s),
        is_line(line),
    ensures
        full_lines(s + line),
{
    let all = s + line;
    assert forall|k: int| 0 <= k < all.len() - 2 && #[trigger] all[k] == '\r' implies all[k + 2]
        != '\r' by {
        if k < s.len() - 2 {
            assert(s[k] == '\r');
        } else if k == s.len() - 2 {
            assert(all[k + 2] == line[0]);
        } else if k >= s.len() {
            assert(line[k - s.len()] == '\r');
        }
    }
    assert forall|k: int| 0 <= k < all.len() implies (#[trigger] all[k] as nat) < 128 by {
        if k < s.len() {
            assert(all[k] == s[k]);
        } else {
            assert(all[k] == line[k - s.len()]);
        }
    }
}

proof fn digits_are_plain(n: nat)
    ensures
        decimal(n).len() >= 1,
        forall|k: int| 0 <= k < decimal(n).len() ==> '0' <= #[trigger] decimal(n)[k] <= '9',
    decreases n,
{
    if n >= 10 {
        digits_are_plain(n / 10);
    }
}

proof fn head_has_full_lines(n: nat)
    ensures
        full_lines(
            "HTTP/1.1 200 OK\r\n"@ + "Content-Type: text/html; charset=utf-8\r\n"@ + (
            "Content-Length: "@ + decimal(n) + "\r\n"@) + "Connection: close\r\n"@
                + "Cache-Control: no-store\r\n"@,
        ),
{
    reveal_strlit("HTTP/1.1 200 OK\r\n");
    reveal_strlit("Content-Type: text/html; charset=utf-8\r\n");
    reveal_strlit("Connection: close\r\n");
    reveal_strlit("Cache-Control: no-store\r\n");
    reveal_strlit("Content-Length: ");
    reveal_strlit("\r\n");
    digits_are_plain(n);
    let a = "HTTP/1.1 200 OK\r\n"@;
    let b = "Content-Type: text/html; charset=utf-8\r\n"@;
    let d = "Connection: close\r\n"@;
    let e = "Cache-Control: no-store\r\n"@;
    let c = "Content-Length: "@ + decimal(n) + "\r\n"@;
    assert(is_line(a));
    assert(is_line(b));
    assert(is_line(d));
    assert(is_line(e));
    assert(is_line(c));
    assert(full_lines(a));
    lines_grow(a, b);
    lines_grow(a + b, c);
    lines_grow(a + b + c, d);
    lines_grow(a + b + c + d, e);
}

proof fn encodings_are_joined(a: Seq<char>, b: Seq<char>)
    ensures
        encode_utf8(a + b) == encode_utf8(a) + encode_utf8(b),
    decreases a.len(),
{
    if a.len() == 0 {
        assert(a + b =~= b);
        assert(encode_utf8(a) + encode_utf8(b) =~= encode_utf8(b));
    } else {
        assert((a + b).drop_first() =~= a.drop_first() + b);
        encodings_are_joined(a.drop_first(), b);
        assert(encode_utf8(a + b) =~= encode_utf8(a) + encode_utf8(b));
    }
}

/// The first empty line of a response ends its head: what follows it is the page,
/// and nothing before it is an empty line.
pub proof fn first_empty_line_ends_the_head(i: StatusInfo)
    ensures
        ({
            let head = encode_utf8(response_head(page_text(i)));
            let all = response_bytes(i);
            &&& all == head + encode_utf8(page_text(i))
            &&& headers_end_at(all, head.len() - 4)
            &&& forall|j: int| 0 <= j < head.len() - 4 ==> !headers_end_at(all, j)
        }),
{
    let body = page_text(i);
    let n = encode_utf8(body).len();
    let head = response_head(body);
    let lines = "HTTP/1.1 200 OK\r\n"@ + "Content-Type: text/html; charset=utf-8\r\n"@ + (
    "Content-Length: "@ + decimal(n) + "\r\n"@) + "Connection: close\r\n"@
        + "Cache-Control: no-store\r\n"@;
    let last = "\r\n"@;
    reveal_strlit("\r\n");
    head_has_full_lines(n);
    assert(head =~= lines + last);
    assert(response_text(body) =~= head + body);
    encodings_are_joined(head, body);
    assert(vstd::utf8::is_ascii_chars(head)) by {
        assert forall|k: int| 0 <= k < head.len() implies (#[trigger] head[k] as nat) < 128 by {
            if k < lines.len() {
                assert(head[k] == lines[k]);
            } else {
                assert(head[k] == last[k - lines.len()]);
            }
        }
    }
    vstd::utf8::is_ascii_chars_encode_utf8(head);
    let bytes = encode_utf8(head);
    let all = response_bytes(i);
    assert forall|k: int| 0 <= k < head.len() implies #[trigger] all[k] == head[k] as u8 by {
        assert(all[k] == bytes[k]);
    }
    let l = lines.len() as int;
    assert(head[l - 2] == '\r' && head[l - 1] == '\n' && head[l] == '\r' && head[l + 1] == '\n');
    assert forall|j: int| 0 <= j < bytes.len() - 4 implies !headers_end_at(all, j) by {
        if headers_end_at(all, j) {
            assert(all[j] == head[j] as u8);
            assert(all[j + 2] == head[j + 2] as u8);
            assert(head[j] == lines[j]);
            assert(lines[j] == '\r');
            assert(head[j + 2] == lines[j + 2]);
        }
    }
}

/// A connection of the server.
pub struct HttpConn {
    pub handle: SocketHandle,
    /// The request as far as it was read.
    pub rx: Vec<u8>,
    pub response: Option<Vec<u8>>,
    /// Bytes of the response that were sent.
    pub sent: usize,
    /// The response was sent and the connection is being closed.
    pub closing: bool,
}

/// What a connection holds.
pub struct ConnView {
    pub handle: SocketHandle,
    pub rx: Seq<u8>,
    pub response: Option<Seq<u8>>,
    pub sent: nat,
    pub closing: bool,
}

impl View for HttpConn {
    type V = ConnView;

    open spec fn view(&self) -> ConnView {
        ConnView {
            handle: self.handle,
            rx: self.rx@,
            response: match self.response {
                Some(v) => Some(v@),
                None => None,
            },
            sent: self.sent as nat,
            closing: self.closing,
        }
    }
}

/// A connection that was just accepted.
pub open spec fn fresh_conn(h: SocketHandle) -> ConnView {
    ConnView { handle: h, rx: Seq::empty(), response: None, sent: 0, closing: false }
}

/// No more is sent than there is.
pub open spec fn conn_ok(c: ConnView) -> bool {
    &&& c.rx.len() <= RX_BUF_CAP
    &&& c.response matches Some(b) ==> c.sent <= b.len()
    &&& c.response is None ==> c.sent == 0
}

/// The bytes of the request that are kept: what was there, and what was read, up
/// to the limit.
pub open spec fn kept_request(rx: Seq<u8>, data: Seq<u8>) -> Seq<u8> {
    rx + data.take(smaller(data.len() as int, RX_BUF_CAP - rx.len()))
}

/// The connection after reading: a part of the request was read, and if that is
/// all of it the response is there. A request is over with an empty line, with
/// the end of the data, or when it gets too long.
pub open spec fn conn_read(c: ConnView, v: TcpView, page: Seq<u8>) -> (ConnView, TcpView) {
    if c.response is Some {
        (c, v)
    } else {
        let open = tcp_may_recv(v);
        let n = if open {
            smaller(v.rx.len() as int, READ_CHUNK as int)
        } else {
            0
        };
        let rx = kept_request(c.rx, v.rx.take(n));
        let done = !open || headers_complete(rx) || rx.len() >= RX_BUF_CAP;
        (
            ConnView {
                rx,
                response: if done {
                    Some(page)
                } else {
                    None
                },
                ..c
            },
            TcpView { rx: v.rx.skip(n), ..v },
        )
    }
}

/// The connection after writing: as much of the response as there is room for
/// was sent, and with its last byte the connection is closed.
pub open spec fn conn_write(c: ConnView, v: TcpView) -> (ConnView, TcpView) {
    match c.response {
        None => (c, v),
        Some(b) => {
            let n = if tcp_can_send(v) {
                smaller(v.tx_cap - v.tx.len(), b.len() - c.sent)
            } else {
                0
            };
            let sent = (c.sent + n) as nat;
            let w = TcpView { tx: v.tx + b.skip(c.sent as int).take(n), ..v };
            if sent >= b.len() {
                (ConnView { sent, closing: true, ..c }, tcp_closed(w))
            } else {
                (ConnView { sent, ..c }, w)
            }
        },
    }
}

/// What a look at a connection comes to: the connection, unless it is over, and
/// the sockets.
pub open spec fn conn_step(
    c: ConnView,
    m: Map<SocketHandle, SocketView>,
    page: Seq<u8>,
) -> (Option<ConnView>, Map<SocketHandle, SocketView>) {
    let v = tcp_of(m, c.handle);
    if c.closing {
        if tcp_active(v) {
            (Some(c), m)
        } else {
            (None, m.remove(c.handle))
        }
    } else {
        let (c1, v1) = conn_read(c, v, page);
        let (c2, v2) = conn_write(c1, v1);
        (Some(c2), m.insert(c.handle, SocketView::Tcp(v2)))
    }
}

/// The socket of the connection exists, and no port has it.
pub open spec fn conn_socket(c: ConnView, net: NetStack) -> bool {
    is_tcp(net.socks@, c.handle) && !owns(net.table@, c.handle)
}

impl HttpConn {
    /// Reads what is there of the request.
    fn read_request(&mut self, net: &mut NetStack, info: &StatusInfo)
        requires
            old(net).wf(),
            info.wf(),
            conn_ok(old(self)@),
            conn_socket(old(self)@, *old(net)),
            old(self)@.response is None,
        ensures
            final(net).wf(),
            conn_ok(final(self)@),
            conn_socket(final(self)@, *final(net)),
            crate::net::tcp::only_sockets_differ(*old(net), *final(net)),
            ({
                let (c, v) = conn_read(
                    old(self)@,
                    tcp_of(old(net).socks@, old(self).handle),
                    response_bytes(*info),
                );
                &&& final(self)@ == c
                &&& final(net).socks@ == old(net).socks@.insert(
                    old(self).handle,
                    SocketView::Tcp(v),
                )
            }),
    {
        let ghost n0 = *net;
        let ghost c0 = self@;
        let ghost v0 = tcp_of(n0.socks@, self.handle);
        let h = self.handle;
        let mut data: Vec<u8> = Vec::new();
        let mut peer_closed = true;
        proof {
            assert(v0.rx.take(0) =~= Seq::<u8>::empty());
            assert(v0.rx.skip(0) =~= v0.rx);
            assert(n0.socks@ =~= n0.socks@.insert(h, SocketView::Tcp(v0)));
        }
        if smol::may_recv(&net.socks.set, h) {
            match smol::recv_slice(&mut net.socks.set, h, READ_CHUNK) {
                Ok(b) => {
                    data = b;
                    peer_closed = false;
                },
                Err(_) => {},
            }
        }
        proof {
            crate::net::tcp::table_unconcerned(n0, h, net.socks@);
        }
        let room: usize = RX_BUF_CAP - self.rx.len();
        let n: usize = if data.len() < room {
            data.len()
        } else {
            room
        };
        let mut part = crate::seqs::copy_range(data.as_slice(), 0, n);
        proof {
            assert(part@ =~= data@.take(n as int));
        }
        self.rx.append(&mut part);
        let done = peer_closed || request_headers_complete(&self.rx) || self.rx.len() >= RX_BUF_CAP;
        if done {
            self.response = Some(build_http_response(info));
        }
    }

    /// Sends as much of the response as there is room for.
    fn write_response(&mut self, net: &mut NetStack)
        requires
            old(net).wf(),
            conn_ok(old(self)@),
            conn_socket(old(self)@, *old(net)),
        ensures
            final(net).wf(),
            conn_ok(final(self)@),
            conn_socket(final(self)@, *final(net)),
            crate::net::tcp::only_sockets_differ(*old(net), *final(net)),
            ({
                let (c, v) = conn_write(
                    old(self)@,
                    tcp_of(old(net).socks@, old(self).handle),
                );
                &&& final(self)@ == c
                &&& final(net).socks@ == old(net).socks@.insert(
                    old(self).handle,
                    SocketView::Tcp(v),
                )
            }),
    {
        let ghost n0 = *net;
        let ghost c0 = self@;
        let h = self.handle;
        let ghost v0 = tcp_of(n0.socks@, h);
        proof {
            assert(n0.socks@ =~= n0.socks@.insert(h, SocketView::Tcp(v0)));
        }
        match &self.response {
            None => {},
            Some(response) => {
                let total: usize = response.len();
                let ghost full = response@;
                let mut done: usize = self.sent;
                let ghost mut n: int = 0;
                proof {
                    assert(v0.tx + full.skip(done as int).take(0) =~= v0.tx);
                }
                if done < total && smol::can_send(&net.socks.set, h) {
                    let rest = crate::seqs::copy_range(response.as_slice(), done, total);
                    match smol::send_slice(&mut net.socks.set, h, rest.as_slice()) {
                        Some(k) => {
                            proof {
                                n = k as int;
                                assert(rest@ =~= full.skip(done as int));
                            }
                            done = done + k;
                        },
                        None => {},
                    }
                }
                proof {
                    crate::net::tcp::table_unconcerned(n0, h, net.socks@);
                }
                self.sent = done;
                if done >= total {
                    let ghost n1 = *net;
                    smol::close_tcp(&mut net.socks.set, h);
                    self.closing = true;
                    proof {
                        crate::net::tcp::table_unconcerned(n1, h, net.socks@);
                    }
                }
                proof {
                    let (c, v) = conn_write(c0, v0);
                    assert(net.socks@ =~= n0.socks@.insert(h, SocketView::Tcp(v)));
                }
            },
        }
    }

    /// Moves a connection on. Tells whether it stays.
    pub fn poll(&mut self, net: &mut NetStack, info: &StatusInfo) -> (r: bool)
        requires
            old(net).wf(),
            info.wf(),
            conn_ok(old(self)@),
            conn_socket(old(self)@, *old(net)),
        ensures
            final(net).wf(),
            conn_ok(final(self)@),
            final(self).handle == old(self).handle,
            r ==> conn_socket(final(self)@, *final(net)),
            crate::net::tcp::only_sockets_differ(*old(net), *final(net)),
            ({
                let (c, m) = conn_step(old(self)@, old(net).socks@, response_bytes(*info));
                &&& final(net).socks@ == m
                &&& match c {
                    Some(c) => r && final(self)@ == c,
                    None => !r && final(self)@ == old(self)@,
                }
            }),
    {
        let ghost n0 = *net;
        if self.closing {
            let finished = !smol::tcp_is_active(&net.socks.set, self.handle);
            if finished {
                net.socks.remove(self.handle);
                proof {
                    crate::net::tcp::table_unconcerned(n0, self.handle, net.socks@);
                }
                return false;
            }
            return true;
        }
        if self.response.is_none() {
            self.read_request(net, info);
        } else {
            proof {
                assert(n0.socks@ =~= n0.socks@.insert(self.handle, n0.socks@[self.handle]));
            }
        }
        let ghost n1 = *net;
        self.write_response(net);
        proof {
            assert(net.socks@ =~= n0.socks@.insert(self.handle, net.socks@[self.handle]));
        }
        true
    }
}

/// The server with its connections.
pub struct HttpServer {
    pub port: u16,
    pub conns: Vec<HttpConn>,
}

/// The connections of the server.
pub open spec fn conn_views(cs: Seq<HttpConn>) -> Seq<ConnView> {
    cs.map_values(|c: HttpConn| c@)
}

/// Connections have sockets of their own, which no port has.
pub open spec fn conns_ok(cs: Seq<ConnView>, net: NetStack) -> bool {
    &&& forall|i: int| 0 <= i < cs.len() ==> conn_ok(#[trigger] cs[i]) && conn_socket(cs[i], net)
    &&& forall|i: int, j: int|
        0 <= i < j < cs.len() ==> (#[trigger] cs[i]).handle != (#[trigger] cs[j]).handle
}

/// What a look at every connection comes to, one after the other.
pub open spec fn conns_step(
    cs: Seq<ConnView>,
    m: Map<SocketHandle, SocketView>,
    page: Seq<u8>,
) -> (Seq<ConnView>, Map<SocketHandle, SocketView>)
    decreases cs.len(),
{
    if cs.len() == 0 {
        (Seq::empty(), m)
    } else {
        let (rest, m1) = conns_step(cs.drop_last(), m, page);
        let (c, m2) = conn_step(cs.last(), m1, page);
        (
            match c {
                Some(c) => rest.push(c),
                None => rest,
            },
            m2,
        )
    }
}

/// A connection's step does not concern other sockets.
proof fn step_keeps_others(c: ConnView, m: Map<SocketHandle, SocketView>, page: Seq<u8>, h: SocketHandle)
    requires
        h != c.handle,
    ensures
        conn_step(c, m, page).1.contains_key(h) == m.contains_key(h),
        m.contains_key(h) ==> conn_step(c, m, page).1[h] == m[h],
        conn_step(c, m, page).0 matches Some(d) ==> d.handle == c.handle,
{
    let v = tcp_of(m, c.handle);
    let (c1, v1) = conn_read(c, v, page);
    let (c2, v2) = conn_write(c1, v1);
}

/// No port was opened, closed or handed out.
pub open spec fn ports_kept(a: NetStack, b: NetStack) -> bool {
    &&& b.next_tcp_port == a.next_tcp_port
    &&& b.next_udp_port == a.next_udp_port
    &&& b.table.active_ports == a.table.active_ports
}

impl HttpServer {
    /// The connections are in order.
    pub open spec fn wf(&self, net: NetStack) -> bool {
        conns_ok(conn_views(self.conns@), net)
    }

    /// Opens the port of the server, if it is free.
    pub fn new(net: &mut NetStack) -> (r: Option<HttpServer>)
        requires
            old(net).wf(),
        ensures
            final(net).wf(),
            final(net).next_tcp_port == old(net).next_tcp_port,
            final(net).next_udp_port == old(net).next_udp_port,
            ({
                let port = HTTP_PORT as usize;
                let e = ListenEndpoint { addr: None, port: HTTP_PORT };
                if old(net).table@.contains_key(port) {
                    &&& r is None
                    &&& final(net).table == old(net).table
                    &&& final(net).socks@ == old(net).socks@
                } else {
                    let entry = final(net).table@[port];
                    let h = entry.listen_handles@[0];
                    &&& r is Some
                    &&& r->0.port == HTTP_PORT
                    &&& r->0.conns@.len() == 0
                    &&& r->0.wf(*final(net))
                    &&& final(net).table@ == old(net).table@.insert(port, entry)
                    &&& final(net).table.active_ports@ == old(net).table.active_ports@.push(
                        HTTP_PORT,
                    )
                    &&& entry.endpoint == e
                    &&& entry.queue_limit == HTTP_BACKLOG
                    &&& !old(net).socks@.contains_key(h)
                    &&& replenished(
                        seq![h],
                        Seq::empty(),
                        old(net).socks@.insert(h, listener(e)),
                        entry,
                        final(net).socks@,
                    )
                }
            }),
    {
        let ghost n0 = *net;
        let e = ListenEndpoint { addr: None, port: HTTP_PORT };
        let h = net.socks.add_tcp();
        let listening = smol::listen_tcp(&mut net.socks.set, h, smol::listen_to_wire(e));
        proof {
            assert(listening);
            assert(net.socks@ =~= n0.socks@.insert(h, listener(e)));
            if owns(n0.table@, h) {
                crate::net::tcp::owned_handles_exist(n0, h);
            }
            crate::net::tcp::table_unconcerned(n0, h, net.socks@);
        }
        let ghost n1 = *net;
        match net.table.listen(&mut net.socks, e, h, HTTP_BACKLOG) {
            Err(_) => {
                net.socks.remove(h);
                proof {
                    assert(net.socks@ =~= n0.socks@);
                    crate::net::tcp::table_unconcerned(n1, h, net.socks@);
                }
                None
            },
            Ok(_) => {
                proof {
                    let entry = net.table@[HTTP_PORT as usize];
                    assert(entry.listen_handles@.take(1)[0] == h);
                }
                Some(HttpServer { port: HTTP_PORT, conns: Vec::new() })
            },
        }
    }

    /// Accepts one connection, unless there are enough or none waits.
    pub fn accept_one(&mut self, net: &mut NetStack) -> (r: bool)
        requires
            old(net).wf(),
            old(self).wf(*old(net)),
        ensures
            final(net).wf(),
            final(self).wf(*final(net)),
            final(self).port == old(self).port,
            ports_kept(*old(net), *final(net)),
            if old(self).conns@.len() >= MAX_CONNS {
                !r && *final(self) == *old(self) && *final(net) == *old(net)
            } else {
                exists|res: Result<(SocketHandle, (Endpoint, Endpoint)), crate::errno::Errno>| {
                    &&& #[trigger] port_accepted(
                        old(self).port as usize,
                        old(net).table@,
                        old(net).socks@,
                        final(net).table@,
                        final(net).socks@,
                        res,
                    )
                    &&& r == res is Ok
                    &&& conn_views(final(self).conns@) == match res {
                        Ok((h, _)) => conn_views(old(self).conns@).push(fresh_conn(h)),
                        Err(_) => conn_views(old(self).conns@),
                    }
                }
            },
    {
        if self.conns.len() >= MAX_CONNS {
            return false;
        }
        let ghost n0 = *net;
        let ghost cs = conn_views(self.conns@);
        let res = net.table.accept(&mut net.socks, self.port);
        proof {
            assert(port_accepted(
                self.port as usize,
                n0.table@,
                n0.socks@,
                net.table@,
                net.socks@,
                res,
            ));
            assert forall|i: int| 0 <= i < cs.len() implies conn_socket(#[trigger] cs[i], *net) by {
                assert(conn_socket(cs[i], n0));
                assert(n0.socks@.contains_key(cs[i].handle) && !owns(n0.table@, cs[i].handle));
            }
        }
        match res {
            Ok((handle, _)) => {
                let ghost before = self.conns@;
                self.conns.push(
                    HttpConn {
                        handle,
                        rx: Vec::new(),
                        response: None,
                        sent: 0,
                        closing: false,
                    },
                );
                proof {
                    let now = conn_views(self.conns@);
                    assert(now =~= cs.push(fresh_conn(handle)));
                    assert(conns_ok(now, *net)) by {
                        assert forall|i: int| 0 <= i < now.len() implies conn_ok(#[trigger] now[i])
                            && conn_socket(now[i], *net) by {
                            if i < cs.len() {
                                assert(now[i] == cs[i]);
                            }
                        }
                        assert forall|i: int, j: int| 0 <= i < j < now.len() implies (
                        #[trigger] now[i]).handle != (#[trigger] now[j]).handle by {
                            assert(now[i] == cs[i]);
                            if j < cs.len() {
                                assert(now[j] == cs[j]);
                            } else {
                                accepted_was_owned(n0, *net, self.port, handle, res);
                                assert(conn_socket(cs[i], n0));
                            }
                        }
                    }
                }
                true
            },
            Err(_) => false,
        }
    }

    /// Looks at every connection and drops those that are over.
    pub fn poll_connections(&mut self, net: &mut NetStack, info: &StatusInfo)
        requires
            old(net).wf(),
            old(self).wf(*old(net)),
            info.wf(),
        ensures
            final(net).wf(),
            final(self).wf(*final(net)),
            final(self).port == old(self).port,
            crate::net::tcp::only_sockets_differ(*old(net), *final(net)),
            (conn_views(final(self).conns@), final(net).socks@) == conns_step(
                conn_views(old(self).conns@),
                old(net).socks@,
                response_bytes(*info),
            ),
    {
        let ghost n0 = *net;
        let ghost all = conn_views(self.conns@);
        let ghost page = response_bytes(*info);
        let mut kept: Vec<HttpConn> = Vec::new();
        let mut left: Vec<HttpConn> = Vec::new();
        std::mem::swap(&mut left, &mut self.conns);
        let ghost total = all.len();
        let ghost mut i: int = 0;
        proof {
            assert(all.take(0) =~= Seq::<ConnView>::empty());
            assert(conn_views(kept@) =~= Seq::<ConnView>::empty());
            assert(conn_views(left@) =~= all.skip(0));
        }
        while left.len() > 0
            invariant
                0 <= i <= all.len(),
                net.wf(),
                info.wf(),
                n0.wf(),
                page == response_bytes(*info),
                conn_views(left@) == all.skip(i),
                crate::net::tcp::only_sockets_differ(n0, *net),
                (conn_views(kept@), net.socks@) == conns_step(all.take(i), n0.socks@, page),
                conns_ok(all, n0),
                forall|k: int| i <= k < all.len() ==> conn_socket(#[trigger] all[k], *net),
                conns_ok(conn_views(kept@), *net),
                forall|k: int, j: int|
                    0 <= k < kept@.len() && i <= j < all.len() ==> (#[trigger] kept@[k]).handle != (
                    #[trigger] all[j]).handle,
            decreases left@.len(),
        {
            let ghost lv = conn_views(left@);
            let ghost n1 = *net;
            let ghost kv = conn_views(kept@);
            let mut c = left.remove(0);
            let ghost c0 = c@;
            proof {
                assert(lv[0] == c0);
                assert(all.skip(i).len() > 0);
                assert(all.skip(i)[0] == all[i]);
                assert forall|k: int| 0 <= k < left@.len() implies conn_views(left@)[k] == all.skip(
                    i + 1,
                )[k] by {
                    assert(conn_views(left@)[k] == lv[k + 1]);
                    assert(lv[k + 1] == all.skip(i)[k + 1]);
                }
                assert(conn_views(left@) =~= all.skip(i + 1));
                assert(all.take(i + 1).drop_last() =~= all.take(i));
                assert(all.take(i + 1).last() == c0);
            }
            let stays = c.poll(net, info);
            proof {
                assert forall|h: SocketHandle| h != c0.handle && #[trigger] n1.socks@.contains_key(
                    h,
                ) implies net.socks@.contains_key(h) && net.socks@[h] == n1.socks@[h] by {
                    step_keeps_others(c0, n1.socks@, page, h);
                }
                assert forall|k: int| i + 1 <= k < all.len() implies conn_socket(
                    #[trigger] all[k],
                    *net,
                ) by {
                    assert(all[i].handle != all[k].handle);
                    assert(conn_socket(all[k], n1));
                }
                assert forall|k: int| 0 <= k < kv.len() implies conn_ok(#[trigger] kv[k])
                    && conn_socket(kv[k], *net) by {
                    assert(conn_socket(kv[k], n1));
                    assert(kept@[k].handle != all[i].handle);
                }
            }
            if stays {
                let ghost cv = c@;
                kept.push(c);
                proof {
                    let now = conn_views(kept@);
                    assert(now =~= kv.push(cv));
                    assert forall|k: int| 0 <= k < now.len() implies conn_ok(#[trigger] now[k])
                        && conn_socket(now[k], *net) by {
                        if k < kv.len() {
                            assert(now[k] == kv[k]);
                        }
                    }
                    assert forall|a: int, b: int| 0 <= a < b < now.len() implies (
                    #[trigger] now[a]).handle != (#[trigger] now[b]).handle by {
                        assert(now[a] == kv[a]);
                        if b < kv.len() {
                            assert(now[b] == kv[b]);
                        } else {
                            assert(kept@[a].handle == kv[a].handle);
                            assert(all[i].handle == cv.handle);
                        }
                    }
                    assert forall|k: int, j: int|
                        0 <= k < kept@.len() && i + 1 <= j < all.len() implies (
                    #[trigger] kept@[k]).handle != (#[trigger] all[j]).handle by {
                        if k == kv.len() {
                            assert(kept@[k].handle == all[i].handle);
                            assert(all[i].handle != all[j].handle);
                        }
                    }
                }
            }
            proof {
                i = i + 1;
            }
        }
        proof {
            assert(left@.len() == 0);
            assert(conn_views(left@).len() == all.len() - i);
            assert(all.take(i) =~= all);
        }
        self.conns = kept;
    }
}

/// These connections were accepted one after the other.
pub open spec fn accepted_in_turn(
    port: usize,
    hs: Seq<SocketHandle>,
    t: Map<usize, ListenTableEntry>,
    m: Map<SocketHandle, SocketView>,
    t2: Map<usize, ListenTableEntry>,
    m2: Map<SocketHandle, SocketView>,
) -> bool
    decreases hs.len(),
{
    if hs.len() == 0 {
        t2 == t && m2 == m
    } else {
        exists|
            t1: Map<usize, ListenTableEntry>,
            m1: Map<SocketHandle, SocketView>,
            ends: (Endpoint, Endpoint),
        | #[trigger]
            port_accepted(port, t1, m1, t2, m2, Ok((hs.last(), ends))) && accepted_in_turn(
                port,
                hs.drop_last(),
                t,
                m,
                t1,
                m1,
            )
    }
}

/// After these connections were accepted there are enough, or none waits any
/// more.
pub open spec fn accepting_ends(
    port: usize,
    hs: Seq<SocketHandle>,
    had: nat,
    t: Map<usize, ListenTableEntry>,
    m: Map<SocketHandle, SocketView>,
    t2: Map<usize, ListenTableEntry>,
    m2: Map<SocketHandle, SocketView>,
) -> bool {
    if had + hs.len() >= MAX_CONNS {
        accepted_in_turn(port, hs, t, m, t2, m2)
    } else {
        exists|
            t1: Map<usize, ListenTableEntry>,
            m1: Map<SocketHandle, SocketView>,
            e: crate::errno::Errno,
        | #[trigger]
            port_accepted(port, t1, m1, t2, m2, Err(e)) && accepted_in_turn(port, hs, t, m, t1, m1)
    }
}

/// New connections for handles.
pub open spec fn fresh_conns(hs: Seq<SocketHandle>) -> Seq<ConnView> {
    hs.map_values(|h: SocketHandle| fresh_conn(h))
}

impl HttpServer {
    /// Accepts every connection that waits, as long as there are not too many.
    pub fn accept_all(&mut self, net: &mut NetStack)
        requires
            old(net).wf(),
            old(self).wf(*old(net)),
        ensures
            final(net).wf(),
            final(self).wf(*final(net)),
            final(self).port == old(self).port,
            ports_kept(*old(net), *final(net)),
            exists|hs: Seq<SocketHandle>| #[trigger]
                accepting_ends(
                    old(self).port as usize,
                    hs,
                    old(self).conns@.len(),
                    old(net).table@,
                    old(net).socks@,
                    final(net).table@,
                    final(net).socks@,
                ) && conn_views(final(self).conns@) == conn_views(old(self).conns@) + fresh_conns(hs),
    {
        let ghost port = self.port as usize;
        let ghost had = self.conns@.len();
        let ghost cs = conn_views(self.conns@);
        let ghost t0 = net.table@;
        let ghost m0 = net.socks@;
        let ghost mut hs: Seq<SocketHandle> = Seq::empty();
        proof {
            assert(cs + fresh_conns(hs) =~= cs);
        }
        while self.conns.len() < MAX_CONNS
            invariant
                net.wf(),
                self.wf(*net),
                self.port == old(self).port,
                ports_kept(*old(net), *net),
                port == self.port as usize,
                had == old(self).conns@.len(),
                cs == conn_views(old(self).conns@),
                t0 == old(net).table@,
                m0 == old(net).socks@,
                conn_views(self.conns@) == cs + fresh_conns(hs),
                accepted_in_turn(port, hs, t0, m0, net.table@, net.socks@),
            decreases MAX_CONNS - self.conns@.len(),
        {
            let ghost t1 = net.table@;
            let ghost m1 = net.socks@;
            let ghost before = conn_views(self.conns@);
            let more = self.accept_one(net);
            proof {
                let res = choose|res: Result<(SocketHandle, (Endpoint, Endpoint)), crate::errno::Errno>| {
                    &&& #[trigger] port_accepted(port, t1, m1, net.table@, net.socks@, res)
                    &&& more == res is Ok
                    &&& conn_views(self.conns@) == match res {
                        Ok((h, _)) => before.push(fresh_conn(h)),
                        Err(_) => before,
                    }
                };
                if more {
                    let (h, ends) = res->Ok_0;
                    let now = hs.push(h);
                    assert(now.drop_last() =~= hs);
                    assert(now.last() == h);
                    assert(port_accepted(
                        port,
                        t1,
                        m1,
                        net.table@,
                        net.socks@,
                        Ok((now.last(), ends)),
                    ));
                    assert(accepted_in_turn(port, now, t0, m0, net.table@, net.socks@));
                    assert(before.push(fresh_conn(h)) =~= cs + fresh_conns(now));
                    assert(self.conns@.len() == conn_views(self.conns@).len());
                    hs = now;
                } else {
                    let e = res->Err_0;
                    assert(port_accepted(port, t1, m1, net.table@, net.socks@, Err(e)));
                    assert(before.len() == had + hs.len());
                    assert(accepting_ends(port, hs, had, t0, m0, net.table@, net.socks@));
                }
            }
            if !more {
                return;
            }
        }
        proof {
            assert(conn_views(self.conns@).len() == had + hs.len());
            assert(accepting_ends(port, hs, had, t0, m0, net.table@, net.socks@));
        }
    }

    /// Moves the server on: accepts connections, then looks at every one.
    pub fn poll(&mut self, net: &mut NetStack, info: &StatusInfo)
        requires
            old(net).wf(),
            old(self).wf(*old(net)),
            info.wf(),
        ensures
            final(net).wf(),
            final(self).wf(*final(net)),
            final(self).port == old(self).port,
            ports_kept(*old(net), *final(net)),
            exists|hs: Seq<SocketHandle>, m1: Map<SocketHandle, SocketView>| #[trigger]
                accepting_ends(
                    old(self).port as usize,
                    hs,
                    old(self).conns@.len(),
                    old(net).table@,
                    old(net).socks@,
                    final(net).table@,
                    m1,
                ) && (conn_views(final(self).conns@), final(net).socks@) == conns_step(
                    conn_views(old(self).conns@) + fresh_conns(hs),
                    m1,
                    response_bytes(*info),
                ),
    {
        self.accept_all(net);
        let ghost m1 = net.socks@;
        proof {
            let hs = choose|hs: Seq<SocketHandle>| #[trigger]
                accepting_ends(
                    old(self).port as usize,
                    hs,
                    old(self).conns@.len(),
                    old(net).table@,
                    old(net).socks@,
                    net.table@,
                    m1,
                ) && conn_views(self.conns@) == conn_views(old(self).conns@) + fresh_conns(hs);
            assert(accepting_ends(
                old(self).port as usize,
                hs,
                old(self).conns@.len(),
                old(net).table@,
                old(net).socks@,
                net.table@,
                m1,
            ));
        }
        self.poll_connections(net, info);
    }
}

/// A request is answered once and as a whole: the bytes that were sent are always
/// the first of the response, and the connection is closed only after the last.
pub proof fn responses_are_sent_in_order(c: ConnView, v: TcpView, tx0: Seq<u8>)
    requires
        conn_ok(c),
        c.response is Some,
        !c.closing,
        v.tx.len() <= v.tx_cap,
        v.tx == tx0 + c.response->0.take(c.sent as int),
    ensures
        ({
            let (d, w) = conn_write(c, v);
            &&& d.response == c.response
            &&& c.sent <= d.sent <= c.response->0.len()
            &&& w.tx == tx0 + c.response->0.take(d.sent as int)
            &&& d.closing <==> d.sent == c.response->0.len()
        }),
{
    let b = c.response->0;
    let (d, w) = conn_write(c, v);
    let n = d.sent - c.sent;
    assert(w.tx =~= tx0 + b.take(d.sent as int));
}

proof fn accepted_was_owned(
    a: NetStack,
    b: NetStack,
    port: u16,
    h: SocketHandle,
    res: Result<(SocketHandle, (Endpoint, Endpoint)), crate::errno::Errno>,
)
    requires
        a.wf(),
        res matches Ok((x, _)) && x == h,
        port_accepted(port as usize, a.table@, a.socks@, b.table@, b.socks@, res),
    ensures
        owns(a.table@, h) || !a.socks@.contains_key(h),
{
    crate::net::listen::accepted_handle_was_a_ports(
        port as usize,
        a.table@,
        a.socks@,
        b.table@,
        b.socks@,
        h,
        res->Ok_0.1,
    );
}

/// The server answers a request once its head is complete, its buffer is full or no more can
/// come, and reads nothing further once it answers.
pub proof fn complete_requests_are_answered(c: ConnView, v: TcpView, page: Seq<u8>)
    requires
        c.response is None,
        c.rx.len() <= 8192,
    ensures
        ({
            let (c2, v2) = conn_read(c, v, page);
            &&& c2.response is Some ==> c2.response == Some(page)
            &&& headers_complete(c2.rx) || c2.rx.len() >= 8192 || !tcp_may_recv(v)
                <==> c2.response is Some
            &&& c2.handle == c.handle && c2.sent == c.sent && c2.closing == c.closing
            &&& c2.rx.len() <= 8192
            &&& c.rx.is_prefix_of(c2.rx)
            &&& v2.tx == v.tx && v2.state == v.state
            &&& v.rx.len() <= 1024 && c.rx.len() + v.rx.len() <= 8192 && tcp_may_recv(v) ==> c2.rx
                =~= c.rx + v.rx && v2.rx.len() == 0
        }),
{
}

/// An answer is sent from where it stands as far as there is room, and the connection is closed
/// once all of it is.
pub proof fn answers_are_sent_to_their_end(c: ConnView, v: TcpView, b: Seq<u8>)
    requires
        c.response == Some(b),
        c.sent <= b.len(),
        v.tx.len() <= v.tx_cap,
    ensures
        ({
            let (c2, v2) = conn_write(c, v);
            &&& c.sent <= c2.sent <= b.len()
            &&& v2.tx =~= v.tx + b.subrange(c.sent as int, c2.sent as int)
            &&& v2.tx.len() <= v.tx_cap
            &&& (c2.closing && !c.closing) ==> c2.sent == b.len()
            &&& c2.sent == b.len() ==> c2.closing
            &&& tcp_can_send(v) ==> c2.sent == b.len() || v2.tx.len() == v.tx_cap
            &&& !tcp_can_send(v) ==> c2.sent == c.sent
        }),
{
    let n = if tcp_can_send(v) {
        smaller(v.tx_cap - v.tx.len(), b.len() - c.sent)
    } else {
        0
    };
    assert(b.skip(c.sent as int).take(n) =~= b.subrange(c.sent as int, c.sent + n));
}

/// A closing connection stays until the other side has closed too, and then its socket goes.
pub proof fn closed_connections_go(
    c: ConnView,
    m: Map<SocketHandle, SocketView>,
    page: Seq<u8>,
)
    requires
        c.closing,
    ensures
        tcp_active(tcp_of(m, c.handle)) ==> conn_step(c, m, page) == (Some(c), m),
        !tcp_active(tcp_of(m, c.handle)) ==> conn_step(c, m, page).0 is None && !conn_step(
            c,
            m,
            page,
        ).1.contains_key(c.handle),
{
}

/// A step of one connection leaves every other socket alone.
pub proof fn connections_are_stepped_alone(
    c: ConnView,
    m: Map<SocketHandle, SocketView>,
    page: Seq<u8>,
    h: SocketHandle,
)
    requires
        h != c.handle,
    ensures
        conn_step(c, m, page).1.contains_key(h) == m.contains_key(h),
        m.contains_key(h) ==> conn_step(c, m, page).1[h] == m[h],
        conn_step(c, m, page).0 matches Some(d) ==> d.handle == c.handle,
{
}

/// Sizes are told in the largest unit that fits.
pub proof fn sizes_are_told_in_fitting_units(s: Seq<char>, n: usize)
    ensures
        n < 1024 ==> with_bytes(s, n) == s + decimal(n as nat) + " B"@,
        1024 <= n < 1048576 ==> with_bytes(s, n) == s + decimal((n / 1024) as nat) + " KiB"@,
        n >= 1048576 && n % 1048576 == 0 ==> with_bytes(s, n) == s + decimal((n / 1048576) as nat)
            + "."@ + padded(decimal(0), '0', 2) + " MiB"@,
{
}

/// Durations are told in seconds, minutes and hours that add up, without leading zero parts.
pub proof fn durations_are_told_in_parts(s: Seq<char>, h: nat, m: nat, sec: nat, us: usize)
    requires
        m < 60,
        sec < 60,
        us == (h * 3600 + m * 60 + sec) * 1_000_000,
    ensures
        h > 0 ==> with_duration(s, us) == s + decimal(h) + "h "@ + decimal(m) + "m "@ + decimal(sec)
            + "s"@,
        h == 0 && m > 0 ==> with_duration(s, us) == s + decimal(m) + "m "@ + decimal(sec) + "s"@,
        h == 0 && m == 0 ==> with_duration(s, us) == s + decimal(sec) + "s"@,
{
    assert(us / 1_000_000 == h * 3600 + m * 60 + sec);
    assert((h * 3600 + m * 60 + sec) / 3600 == h);
    assert((h * 3600 + m * 60 + sec) % 3600 == m * 60 + sec);
    assert((m * 60 + sec) / 60 == m);
    assert((h * 3600 + m * 60 + sec) % 60 == sec) by (nonlinear_arith)
        requires
            sec < 60,
    ;
}

/// A hardware address is six bytes of two hexadecimal digits, first byte first, with colons
/// between them.
pub proof fn hardware_addresses_are_told_in_order(s: Seq<char>, m: [u8; 6])
    ensures
        with_mac(s, Some(m)).len() == s.len() + 17,
        with_mac(s, None) == s + "n/a"@,
        forall|k: int|
            0 <= k < 6 ==> with_mac(s, Some(m)).subrange(
                s.len() + 3 * k,
                s.len() + 3 * k + 2,
            ) =~= #[trigger] low_digits(m@[k] as nat, 2, false),
        forall|k: int|
            0 <= k < 5 ==> #[trigger] with_mac(s, Some(m))[s.len() + 3 * k + 2] == ':',
{
    reveal_strlit(":");
    assert forall|k: int| 0 <= k < 6 implies (#[trigger] low_digits(m@[k] as nat, 2, false)).len()
        == 2 by {
        low_digits_can_be_read_back(m@[k] as nat, 2, false);
    }
    low_digits_can_be_read_back(m@[0] as nat, 2, false);
    low_digits_can_be_read_back(m@[1] as nat, 2, false);
    low_digits_can_be_read_back(m@[2] as nat, 2, false);
    low_digits_can_be_read_back(m@[3] as nat, 2, false);
    low_digits_can_be_read_back(m@[4] as nat, 2, false);
    low_digits_can_be_read_back(m@[5] as nat, 2, false);
}

/// An answer says how long its page is, that it is a page, and ends with it.
pub proof fn answers_carry_their_page(body: Seq<char>)
    ensures
        response_text(body) == response_head(body) + body,
        body.is_suffix_of(response_text(body)),
{
    assert(response_text(body).skip(response_head(body).len() as int) =~= body);
    assert(body =~= response_text(body).subrange(
        response_text(body).len() - body.len(),
        response_text(body).len() as int,
    ));
}

/// Every connection is stepped once, in order; one that stays keeps its socket.
pub proof fn every_connection_is_stepped(
    cs: Seq<ConnView>,
    c: ConnView,
    m: Map<SocketHandle, SocketView>,
    page: Seq<u8>,
)
    ensures
        conns_step(cs, m, page).0.len() <= cs.len(),
        ({
            let (rest, m1) = conns_step(cs, m, page);
            let (d, m2) = conn_step(c, m1, page);
            &&& conns_step(cs.push(c), m, page).1 == m2
            &&& d is None ==> conns_step(cs.push(c), m, page).0 == rest
            &&& d matches Some(x) ==> conns_step(cs.push(c), m, page).0 == rest.push(x)
        }),
    decreases cs.len(),
{
    assert(cs.push(c).drop_last() =~= cs);
    if cs.len() > 0 {
        every_connection_is_stepped(cs.drop_last(), c, m, page);
    }
}

/// Connections are accepted until there are sixteen or no more wait.
pub proof fn sixteen_connections_are_enough(
    port: usize,
    hs: Seq<SocketHandle>,
    had: nat,
    t: Map<usize, ListenTableEntry>,
    m: Map<SocketHandle, SocketView>,
    t2: Map<usize, ListenTableEntry>,
    m2: Map<SocketHandle, SocketView>,
)
    requires
        accepting_ends(port, hs, had, t, m, t2, m2),
    ensures
        had + hs.len() >= 16 ==> accepted_in_turn(port, hs, t, m, t2, m2),
        had + hs.len() < 16 ==> exists|
            t1: Map<usize, ListenTableEntry>,
            m1: Map<SocketHandle, SocketView>,
            e: crate::errno::Errno,
        |
            #[trigger] port_accepted(port, t1, m1, t2, m2, Err(e)) && accepted_in_turn(
                port,
                hs,
                t,
                m,
                t1,
                m1,
            ),
{
}

} // verus!
