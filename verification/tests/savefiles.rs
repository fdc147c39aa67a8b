//! Save file sinks and the write/read-back round trip.

use pcap::Capture;
use pcap::CaptureFile;
use pcap::Error;
use pcap::Linktype;
use pcap::Packet;
use pcap::PacketHeader;
use pcap::Precision;
use pcap::Timeval;

fn packet(sec: i64, data: Vec<u8>) -> Packet {
    let len = data.len() as u32;
    Packet::new(
        PacketHeader { ts: Timeval { tv_sec: sec, tv_usec: sec * 7 }, caplen: len, len },
        data,
    )
}

#[test]
fn round_trip_through_a_dead_handle_savefile() {
    let originals = vec![
        packet(1, vec![0xde, 0xad]),
        packet(2, vec![]),
        packet(3, vec![1, 2, 3, 4, 5]),
    ];
    let cap = Capture::dead(Linktype(1)).unwrap();
    let mut save = cap.savefile().unwrap();
    for p in &originals {
        save.write(p);
    }
    let file = save.close();
    let mut reread = Capture::from_file(file).unwrap();
    for p in &originals {
        assert_eq!(&reread.next().unwrap(), p);
    }
    assert_eq!(reread.next().unwrap_err(), Error::NoMorePackets);
    assert_eq!(reread.next().unwrap_err(), Error::NoMorePackets);
}

#[test]
fn savefile_append_accepts_matching_contents() {
    let cap = Capture::dead(Linktype(1)).unwrap();
    let mut save = cap.savefile().unwrap();
    save.write(&packet(1, vec![1]));
    let file = save.close();

    let cap2 = Capture::dead(Linktype(1)).unwrap();
    let mut appended = cap2.savefile_append(file).unwrap();
    appended.write(&packet(2, vec![2]));
    let file = appended.close();

    let mut reread = Capture::from_file(file).unwrap();
    assert_eq!(reread.next().unwrap(), packet(1, vec![1]));
    assert_eq!(reread.next().unwrap(), packet(2, vec![2]));
    assert_eq!(reread.next().unwrap_err(), Error::NoMorePackets);
}

#[test]
fn savefile_append_rejects_a_mismatch() {
    let cap = Capture::dead(Linktype(1)).unwrap();
    let foreign = CaptureFile {
        linktype: Linktype(105),
        snaplen: 65535,
        precision: Precision::Micro,
        records: vec![],
    };
    assert_eq!(
        cap.savefile_append(foreign).unwrap_err(),
        Error::PcapError(String::from("save file parameters do not match the capture"))
    );
}

#[test]
fn savefile_carries_the_handle_configuration() {
    let cap = Capture::dead(Linktype(105)).unwrap();
    let file = cap.savefile().unwrap().close();
    assert_eq!(file.linktype, Linktype(105));
    assert_eq!(file.snaplen, 65535);
    assert_eq!(file.precision, Precision::Micro);
    assert!(file.records.is_empty());
}
