//! The packet-retrieval protocol: file order, timeouts, faults, counters.

use pcap::Activation;
use pcap::Capture;
use pcap::CaptureFile;
use pcap::Device;
use pcap::Error;
use pcap::Linktype;
use pcap::Packet;
use pcap::PacketHeader;
use pcap::Precision;
use pcap::Timeval;

fn packet(sec: i64, byte: u8) -> Packet {
    Packet::new(
        PacketHeader { ts: Timeval { tv_sec: sec, tv_usec: 0 }, caplen: 1, len: 1 },
        vec![byte],
    )
}

fn live(timeout_ms: i32) -> Capture<pcap::Active> {
    Capture::from_device(Device::from("eth0"))
        .unwrap()
        .timeout(timeout_ms)
        .open(&Activation::Ready { linktype: Linktype(1), datalinks: vec![Linktype(1)] })
        .unwrap()
}

#[test]
fn file_order_and_terminal_end_of_input() {
    let records = vec![packet(1, 10), packet(2, 20), packet(3, 30)];
    let expected = vec![packet(1, 10), packet(2, 20), packet(3, 30)];
    let file = CaptureFile {
        linktype: Linktype(1),
        snaplen: 65535,
        precision: Precision::Micro,
        records,
    };
    let mut cap = Capture::from_file(file).unwrap();
    for want in expected {
        assert_eq!(cap.next().unwrap(), want);
    }
    assert_eq!(cap.next().unwrap_err(), Error::NoMorePackets);
    assert_eq!(cap.next().unwrap_err(), Error::NoMorePackets);
    assert_eq!(cap.next().unwrap_err(), Error::NoMorePackets);
}

#[test]
fn live_read_times_out_and_state_is_kept() {
    let mut cap = live(10);
    assert_eq!(cap.next().unwrap_err(), Error::TimeoutExpired);
    assert_eq!(cap.next().unwrap_err(), Error::TimeoutExpired);
    cap.deliver(packet(5, 55));
    assert_eq!(cap.next().unwrap(), packet(5, 55));
    assert_eq!(cap.next().unwrap_err(), Error::TimeoutExpired);
}

#[test]
fn delivered_packets_come_back_in_arrival_order() {
    let mut cap = live(10);
    cap.deliver(packet(1, 1));
    cap.deliver(packet(2, 2));
    cap.deliver(packet(3, 3));
    assert_eq!(cap.next().unwrap(), packet(1, 1));
    assert_eq!(cap.next().unwrap(), packet(2, 2));
    assert_eq!(cap.next().unwrap(), packet(3, 3));
}

#[test]
fn read_fault_surfaces_the_diagnostic() {
    let mut cap = live(10);
    cap.deliver(packet(1, 1));
    cap.deliver_fault(String::from("the interface went down"));
    assert_eq!(cap.next().unwrap(), packet(1, 1));
    assert_eq!(
        cap.next().unwrap_err(),
        Error::PcapError(String::from("the interface went down"))
    );
}

#[test]
fn stats_count_received_packets() {
    let mut cap = live(10);
    assert_eq!(cap.stats().unwrap().received, 0);
    cap.deliver(packet(1, 1));
    cap.deliver(packet(2, 2));
    let s = cap.stats().unwrap();
    assert_eq!(s.received, 2);
    assert_eq!(s.dropped, 0);
    assert_eq!(s.if_dropped, 0);
}

#[test]
fn read_outcome_maps_the_native_codes() {
    let p = packet(9, 99);
    assert_eq!(
        pcap::capture::read_outcome(1, Some(p.clone()), String::new()).unwrap(),
        p
    );
    assert_eq!(
        pcap::capture::read_outcome(0, None, String::new()).unwrap_err(),
        Error::TimeoutExpired
    );
    assert_eq!(
        pcap::capture::read_outcome(-2, None, String::new()).unwrap_err(),
        Error::NoMorePackets
    );
    assert_eq!(
        pcap::capture::read_outcome(-1, None, String::from("read error")).unwrap_err(),
        Error::PcapError(String::from("read error"))
    );
}

#[test]
fn sendpacket_records_or_surfaces() {
    let mut cap = live(10);
    assert!(cap.sendpacket(&[1, 2, 3], &Ok(())).is_ok());
    assert_eq!(
        cap.sendpacket(&[4, 5], &Err(String::from("send: link down"))).unwrap_err(),
        Error::PcapError(String::from("send: link down"))
    );
}
