//! Error taxonomy, packet equality and plain value types.

use pcap::Device;
use pcap::Error;
use pcap::IoKind;
use pcap::Linktype;
use pcap::Packet;
use pcap::PacketHeader;
use pcap::Stat;
use pcap::Timeval;

fn header(sec: i64, usec: i64, caplen: u32, len: u32) -> PacketHeader {
    PacketHeader { ts: Timeval { tv_sec: sec, tv_usec: usec }, caplen, len }
}

#[test]
fn error_equality_same_kind() {
    assert_eq!(Error::TimeoutExpired, Error::TimeoutExpired);
    assert_eq!(
        Error::PcapError(String::from("boom")),
        Error::PcapError(String::from("boom"))
    );
    assert_eq!(
        Error::IoError(IoKind::WouldBlock),
        Error::IoError(IoKind::WouldBlock)
    );
}

#[test]
fn error_equality_distinguishes() {
    assert_ne!(Error::TimeoutExpired, Error::NoMorePackets);
    assert_ne!(
        Error::PcapError(String::from("a")),
        Error::PcapError(String::from("b"))
    );
    assert_ne!(
        Error::IoError(IoKind::WouldBlock),
        Error::IoError(IoKind::Other)
    );
    assert_ne!(Error::PcapError(String::from("boom")), Error::InvalidString);
}

#[test]
fn error_new_decodes_diagnostics() {
    assert_eq!(
        Error::new(Ok(Some(String::from("no such device")))),
        Error::PcapError(String::from("no such device"))
    );
    assert_eq!(Error::new(Ok(None)), Error::PcapError(String::new()));
    assert_eq!(Error::new(Err(Error::MalformedError)), Error::MalformedError);
}

#[test]
fn error_messages() {
    assert_eq!(
        Error::PcapError(String::from("boom")).message(),
        String::from("libpcap error: boom")
    );
    assert_eq!(
        Error::TimeoutExpired.message(),
        String::from("timeout expired while reading from a live capture")
    );
    assert_eq!(
        Error::NoMorePackets.message(),
        String::from("no more packets to read from the file")
    );
    assert_eq!(
        Error::IoError(IoKind::WouldBlock).message(),
        String::from("io error occurred: operation would block")
    );
    assert_eq!(Error::TimeoutExpired.description(), "timeout expired while reading from a live capture");
    assert_eq!(Error::PcapError(String::from("x")).description(), "libpcap FFI error");
}

#[test]
fn error_from_io_kind() {
    assert_eq!(Error::from(IoKind::WouldBlock), Error::IoError(IoKind::WouldBlock));
}

#[test]
fn packet_equality_holds_on_identical_views() {
    let a = Packet::new(header(7, 500, 3, 3), vec![1, 2, 3]);
    let b = Packet::new(header(7, 500, 3, 3), vec![1, 2, 3]);
    assert_eq!(a, b);
    assert_eq!(a, a.clone());
}

#[test]
fn packet_equality_sensitive_to_each_field() {
    let a = Packet::new(header(7, 500, 3, 3), vec![1, 2, 3]);
    assert_ne!(a, Packet::new(header(8, 500, 3, 3), vec![1, 2, 3]));
    assert_ne!(a, Packet::new(header(7, 501, 3, 3), vec![1, 2, 3]));
    assert_ne!(a, Packet::new(header(7, 500, 2, 3), vec![1, 2, 3]));
    assert_ne!(a, Packet::new(header(7, 500, 3, 4), vec![1, 2, 3]));
    assert_ne!(a, Packet::new(header(7, 500, 3, 3), vec![1, 2, 4]));
}

#[test]
fn packet_header_represents_truncation_as_given() {
    let truncated = header(0, 0, 64, 1500);
    assert!(truncated.caplen < truncated.len);
    let overlong = header(0, 0, 10, 4);
    assert_eq!(overlong.caplen, 10);
    assert_eq!(overlong.len, 4);
}

#[test]
fn linktype_equality_is_numeric() {
    assert_eq!(Linktype(1), Linktype(1));
    assert_ne!(Linktype(1), Linktype(0));
    assert_eq!(Linktype(105).0, 105);
}

#[test]
fn stat_new_keeps_counters() {
    let s = Stat::new(4, 2, 1);
    assert_eq!(s.received, 4);
    assert_eq!(s.dropped, 2);
    assert_eq!(s.if_dropped, 1);
}

#[test]
fn device_new_and_from_str() {
    let d = Device::new(String::from("eth0"), Some(String::from("first adapter")));
    assert_eq!(d.name, "eth0");
    assert_eq!(d.desc, Some(String::from("first adapter")));
    let d2 = Device::from("lo");
    assert_eq!(d2.name, "lo");
    assert!(d2.desc.is_none());
}
