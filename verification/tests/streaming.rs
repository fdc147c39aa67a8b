//! The streaming adapter: construction gate and the poll protocol.

use pcap::Activation;
use pcap::Capture;
use pcap::CaptureFile;
use pcap::Device;
use pcap::Error;
use pcap::IoKind;
use pcap::Linktype;
use pcap::Packet;
use pcap::PacketCodec;
use pcap::PacketHeader;
use pcap::Precision;
use pcap::StreamPoll;
use pcap::Timeval;

struct LengthCodec;

impl PacketCodec for LengthCodec {
    type Type = usize;

    fn decode(&mut self, packet: Packet) -> Result<usize, Error> {
        Ok(packet.data.len())
    }
}

struct PickyCodec;

impl PacketCodec for PickyCodec {
    type Type = u8;

    fn decode(&mut self, packet: Packet) -> Result<u8, Error> {
        match packet.data.first() {
            Some(b) => Ok(*b),
            None => Err(Error::PcapError(String::from("empty frame"))),
        }
    }
}

fn packet(data: Vec<u8>) -> Packet {
    let len = data.len() as u32;
    Packet::new(
        PacketHeader { ts: Timeval { tv_sec: 0, tv_usec: 0 }, caplen: len, len },
        data,
    )
}

fn live_nonblocking() -> Capture<pcap::Active> {
    Capture::from_device(Device::from("eth0"))
        .unwrap()
        .timeout(10)
        .open(&Activation::Ready { linktype: Linktype(1), datalinks: vec![Linktype(1)] })
        .unwrap()
        .setnonblock(&Ok(()))
        .unwrap()
}

#[test]
fn stream_requires_nonblocking_mode() {
    let cap = Capture::from_file(CaptureFile {
        linktype: Linktype(1),
        snaplen: 65535,
        precision: Precision::Micro,
        records: vec![],
    })
    .unwrap();
    match cap.stream(LengthCodec) {
        Err(Error::NonNonBlock) => {}
        _ => panic!("a blocking handle must be refused"),
    }
}

#[test]
fn stream_construction_succeeds_in_nonblocking_mode() {
    assert!(live_nonblocking().stream(LengthCodec).is_ok());
}

#[test]
fn poll_not_ready_suspends_without_clearing() {
    let mut stream = live_nonblocking().stream(LengthCodec).unwrap();
    match stream.poll_step(false) {
        StreamPoll::Pending { clear_readiness } => assert!(!clear_readiness),
        StreamPoll::Item(_) => panic!("nothing may be produced while not ready"),
    }
}

#[test]
fn poll_spurious_wake_clears_readiness() {
    let mut stream = live_nonblocking().stream(LengthCodec).unwrap();
    match stream.poll_step(true) {
        StreamPoll::Pending { clear_readiness } => assert!(clear_readiness),
        StreamPoll::Item(_) => panic!("an empty queue must look like a spurious wake"),
    }
}

#[test]
fn poll_yields_decoded_packets_in_order() {
    let mut cap = live_nonblocking();
    cap.deliver(packet(vec![1, 2, 3]));
    cap.deliver(packet(vec![4]));
    let mut stream = cap.stream(LengthCodec).unwrap();
    match stream.poll_step(true) {
        StreamPoll::Item(Ok(n)) => assert_eq!(n, 3),
        _ => panic!("first poll must decode the first packet"),
    }
    match stream.poll_step(true) {
        StreamPoll::Item(Ok(n)) => assert_eq!(n, 1),
        _ => panic!("second poll must decode the second packet"),
    }
    match stream.poll_step(true) {
        StreamPoll::Pending { clear_readiness } => assert!(clear_readiness),
        StreamPoll::Item(_) => panic!("the drained queue must suspend again"),
    }
}

#[test]
fn poll_surfaces_codec_failures() {
    let mut cap = live_nonblocking();
    cap.deliver(packet(vec![]));
    let mut stream = cap.stream(PickyCodec).unwrap();
    match stream.poll_step(true) {
        StreamPoll::Item(Err(Error::PcapError(m))) => assert_eq!(m, "empty frame"),
        _ => panic!("the codec's failure must be yielded"),
    }
}

#[test]
fn poll_surfaces_read_faults() {
    let mut cap = live_nonblocking();
    cap.deliver_fault(String::from("device vanished"));
    let mut stream = cap.stream(LengthCodec).unwrap();
    match stream.poll_step(true) {
        StreamPoll::Item(Err(Error::PcapError(m))) => assert_eq!(m, "device vanished"),
        _ => panic!("the read fault must end the stream"),
    }
}

#[test]
fn next_noblock_follows_the_readiness_protocol() {
    let mut cap = live_nonblocking();
    cap.deliver(packet(vec![7]));
    let (r, clear) = cap.next_noblock(false);
    assert_eq!(r.unwrap_err(), Error::IoError(IoKind::WouldBlock));
    assert!(!clear);
    let (r, clear) = cap.next_noblock(true);
    assert_eq!(r.unwrap(), packet(vec![7]));
    assert!(!clear);
    let (r, clear) = cap.next_noblock(true);
    assert_eq!(r.unwrap_err(), Error::IoError(IoKind::WouldBlock));
    assert!(clear);
}
