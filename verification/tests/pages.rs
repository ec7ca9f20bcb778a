use respos::net::http::{
    arch_name, build_http_response, fmt_bytes, fmt_duration_us, request_headers_complete, status_html,
    StatusInfo,
};
use respos::net::loopback::{fill_checksums, LoopbackDev, Medium as LinkMedium};
use respos::net::{guest_ip, guest_ip_octets, init_ethernet, PollThrottle};

fn info() -> StatusInfo {
    StatusInfo {
        riscv: false,
        mac: Some([0x52, 0x54, 0, 0x12, 0x34, 0x56]),
        uptime_us: 3_661_000_000,
        idle_us: 59_999_999,
        online_harts: 2,
        max_harts: 4,
        tasks: 7,
        page_size: 4096,
        mem_total: 128 * 1024 * 1024,
        free_frames: 1000,
        cached_pages: 2,
        dirty_pages: 0,
        heap_used: 512,
    }
}

#[test]
fn sizes_as_text() {
    assert_eq!(fmt_bytes(0), "0 B");
    assert_eq!(fmt_bytes(1023), "1023 B");
    assert_eq!(fmt_bytes(1024), "1 KiB");
    assert_eq!(fmt_bytes(1024 * 1024 - 1), "1023 KiB");
    assert_eq!(fmt_bytes(1024 * 1024), "1.00 MiB");
    assert_eq!(fmt_bytes(1024 * 1024 * 3 / 2), "1.50 MiB");
    assert_eq!(fmt_bytes(1024 * 1024 + 52429), "1.05 MiB");
}

#[test]
fn durations_as_text() {
    assert_eq!(fmt_duration_us(999_999), "0s");
    assert_eq!(fmt_duration_us(59_000_000), "59s");
    assert_eq!(fmt_duration_us(61_000_000), "1m 1s");
    assert_eq!(fmt_duration_us(3_661_000_000), "1h 1m 1s");
}

#[test]
fn page_rows() {
    let page = status_html(&info());
    assert!(page.starts_with("<!DOCTYPE html>\n<html lang=\"zh\"><head>\n<meta charset=\"utf-8\">\n"));
    assert!(page.contains("<style>body{font-family:system-ui,monospace;margin:2rem auto;"));
    assert!(page.contains("<tr><td>架构</td><td>LoongArch 64</td></tr>\n"));
    assert!(page.contains("<tr><td>Guest IP</td><td>10.0.2.15</td></tr>\n"));
    assert!(page.contains("<tr><td>MAC 地址</td><td>52:54:00:12:34:56</td></tr>\n"));
    assert!(page.contains("<tr><td>系统启动时间</td><td>1h 1m 1s (idle 59s)</td></tr>\n"));
    assert!(page.contains("<tr><td>在线 CPU</td><td>2 / 4</td></tr>\n"));
    assert!(page.contains("<tr><td>任务数</td><td>7</td></tr>\n"));
    assert!(page.contains("<tr><td>物理内存总量</td><td>128.00 MiB</td></tr>\n"));
    assert!(page.contains("<tr><td>空闲内存</td><td>3.90 MiB</td></tr>\n"));
    assert!(page.contains("<tr><td>PageCache 缓存</td><td>8 KiB (脏 0 B)</td></tr>\n"));
    assert!(page.ends_with("<tr><td>内核堆占用</td><td>512 B</td></tr>\n</table>\n</body></html>\n"));
}

#[test]
fn page_without_a_device() {
    let mut i = info();
    i.mac = None;
    assert!(status_html(&i).contains("<tr><td>MAC 地址</td><td>n/a</td></tr>\n"));
    assert_eq!(arch_name(true), "RISC-V 64");
}

#[test]
fn response_has_its_length() {
    let body = status_html(&info());
    let response = build_http_response(&info());
    let head = format!(
        "HTTP/1.1 200 OK\r\nContent-Type: text/html; charset=utf-8\r\nContent-Length: {}\r\nConnection: close\r\nCache-Control: no-store\r\n\r\n",
        body.len()
    );
    let mut expected = head.into_bytes();
    expected.extend_from_slice(body.as_bytes());
    assert_eq!(response, expected);
    let end = response.windows(4).position(|w| w == b"\r\n\r\n").unwrap();
    assert_eq!(&response[end + 4..], body.as_bytes());
}

#[test]
fn end_of_request_headers() {
    assert!(!request_headers_complete(&Vec::new()));
    assert!(!request_headers_complete(&b"GET / HTTP/1.1\r\n".to_vec()));
    assert!(request_headers_complete(&b"GET / HTTP/1.1\r\n\r\n".to_vec()));
    assert!(request_headers_complete(&b"a\r\n\r\nb".to_vec()));
    assert!(!request_headers_complete(&b"\r\n\n\r\n".to_vec()));
}

#[test]
fn guest_address() {
    assert_eq!(guest_ip(), "10.0.2.15");
    assert_eq!(guest_ip_octets(), [10, 0, 2, 15]);
}

#[test]
fn background_polling_is_throttled() {
    let mut t = PollThrottle { last_ms: 0 };
    assert!(!t.poll_background(false, 100));
    assert!(!t.poll_background(true, 9));
    assert!(t.poll_background(true, 10));
    assert!(!t.poll_background(true, 19));
    assert!(!t.poll_background(true, 5));
    assert!(t.poll_background(true, 20));
    assert_eq!(t.last_ms, 20);
}

#[test]
fn network_notes() {
    assert_eq!(
        init_ethernet(None, false),
        "[net] virtio-net not present; real network + HTTP server disabled\n"
    );
    assert_eq!(
        init_ethernet(Some([82, 84, 0, 18, 52, 86]), true),
        "[net] virtio-net up, mac=[82, 84, 0, 18, 52, 86], guest ip=10.0.2.15\n[net] in-kernel HTTP server listening on port 80\n"
    );
    assert_eq!(
        init_ethernet(Some([0, 0, 0, 0, 0, 1]), false),
        "[net] virtio-net up, mac=[0, 0, 0, 0, 0, 1], guest ip=10.0.2.15\n[net] in-kernel HTTP server failed to bind port 80\n"
    );
}

fn sum16(bytes: &[u8]) -> u32 {
    let mut s: u32 = 0;
    for c in bytes.chunks(2) {
        s += ((c[0] as u32) << 8) | (if c.len() > 1 { c[1] as u32 } else { 0 });
    }
    while s > 0xffff {
        s = (s & 0xffff) + (s >> 16);
    }
    s
}

#[test]
fn checksums_are_filled() {
    let mut frame = vec![
        0x45, 0, 0, 40, 0, 0, 0x40, 0, 64, 6, 0, 0, 127, 0, 0, 1, 127, 0, 0, 1,
    ];
    frame.extend_from_slice(&[0x1f, 0x90, 0, 80, 0, 0, 0, 1, 0, 0, 0, 0, 0x50, 2, 0x20, 0, 0, 0, 0, 0]);
    fill_checksums(&mut frame);
    assert_eq!(sum16(&frame[..20]), 0xffff);
    let mut pseudo = vec![127, 0, 0, 1, 127, 0, 0, 1, 0, 6, 0, 20];
    pseudo.extend_from_slice(&frame[20..]);
    assert_eq!(sum16(&pseudo), 0xffff);
    let mut udp = vec![
        0x45, 0, 0, 28, 0, 0, 0x40, 0, 64, 17, 0, 0, 127, 0, 0, 1, 127, 0, 0, 1, 0, 1, 0, 2, 0, 8, 0, 0,
    ];
    let rest = udp[20..].to_vec();
    fill_checksums(&mut udp);
    assert_eq!(sum16(&udp[..20]), 0xffff);
    assert_eq!(&udp[20..], &rest[..]);
    let mut short = vec![0x45, 0, 0];
    fill_checksums(&mut short);
    assert_eq!(short, vec![0x45, 0, 0]);
}

#[test]
fn loopback_gives_back_what_was_sent() {
    let mut d = LoopbackDev::new(LinkMedium::Ip);
    assert!(d.receive().is_none());
    d.transmit(vec![1, 2, 3]);
    d.transmit(vec![4]);
    assert_eq!(d.receive(), Some(vec![1, 2, 3]));
    assert_eq!(d.receive(), Some(vec![4]));
    assert!(d.receive().is_none());
    d.recycle_buf(vec![9, 9]);
    assert_eq!(d.pool.len(), 1);
    assert_eq!(d.take_buf(3), vec![0, 0, 0]);
    assert_eq!(d.pool.len(), 0);
    for _ in 0..70 {
        d.recycle_buf(vec![1]);
    }
    assert_eq!(d.pool.len(), 64);
}

#[test]
fn checksum_of_a_known_header() {
    let mut frame = vec![
        0x45, 0x00, 0x00, 0x73, 0x00, 0x00, 0x40, 0x00, 0x40, 0x11, 0xff, 0xff, 0xc0, 0xa8, 0x00, 0x01, 0xc0,
        0xa8, 0x00, 0xc7,
    ];
    frame.resize(0x73, 0);
    fill_checksums(&mut frame);
    assert_eq!(&frame[10..12], &[0xb8, 0x61]);
}
