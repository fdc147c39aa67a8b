//! The typestate lifecycle: configuration, activation, erasure.

use pcap::Activation;
use pcap::CaptureFile;
use pcap::Precision;
use pcap::Capture;
use pcap::Device;
use pcap::Error;
use pcap::Linktype;

fn ready(linktype: Linktype, datalinks: Vec<Linktype>) -> Activation {
    Activation::Ready { linktype, datalinks }
}

#[test]
fn builder_then_activation() {
    let inactive = Capture::from_device(Device::from("eth0"))
        .unwrap()
        .timeout(100)
        .promisc(true)
        .snaplen(5000)
        .buffer_size(2000000);
    let cap = inactive
        .open(&ready(Linktype(1), vec![Linktype(1), Linktype(105)]))
        .unwrap();
    assert_eq!(cap.get_datalink(), Linktype(1));
    assert_eq!(
        cap.list_datalinks().unwrap(),
        vec![Linktype(1), Linktype(105)]
    );
    assert!(!cap.is_nonblocking());
}

#[test]
fn activation_refused_leaves_no_handle() {
    let inactive = Capture::from_device(Device::from("nosuchdev")).unwrap();
    let r = inactive.open(&Activation::Failed {
        message: String::from("nosuchdev: No such device exists"),
    });
    match r {
        Err(Error::PcapError(m)) => assert_eq!(m, "nosuchdev: No such device exists"),
        _ => panic!("activation must fail with the engine's diagnostic"),
    }
}

#[test]
fn device_open_success() {
    let cap = Device::from("eth0")
        .open(&ready(Linktype(1), vec![Linktype(1)]))
        .unwrap();
    assert_eq!(cap.get_datalink(), Linktype(1));
}

#[test]
fn device_open_refused() {
    let r = Device::from("wlan9").open(&Activation::Failed {
        message: String::from("permission denied"),
    });
    match r {
        Err(Error::PcapError(m)) => assert_eq!(m, "permission denied"),
        _ => panic!("open must surface the engine error"),
    }
}

#[test]
fn setnonblock_flips_the_flag() {
    let cap = Device::from("eth0")
        .open(&ready(Linktype(1), vec![Linktype(1)]))
        .unwrap();
    let cap = cap.setnonblock(&Ok(())).unwrap();
    assert!(cap.is_nonblocking());
}

#[test]
fn setnonblock_refused() {
    let cap = Device::from("eth0")
        .open(&ready(Linktype(1), vec![Linktype(1)]))
        .unwrap();
    match cap.setnonblock(&Err(String::from("cannot switch"))) {
        Err(Error::PcapError(m)) => assert_eq!(m, "cannot switch"),
        _ => panic!("setnonblock must surface the engine error"),
    }
}

#[test]
fn configuration_reaches_the_activated_handle() {
    let cap = Capture::from_device(Device::from("eth0"))
        .unwrap()
        .snaplen(5000)
        .precision(Precision::Nano)
        .timeout(250)
        .rfmon(true)
        .immediate_mode(true)
        .tstamp_type(pcap::TimestampType::Adapter)
        .open(&ready(Linktype(1), vec![Linktype(1)]))
        .unwrap();
    // The derived save file carries the activated handle's configuration.
    let file = cap.savefile().unwrap().close();
    assert_eq!(file.snaplen, 5000);
    assert_eq!(file.precision, Precision::Nano);
    assert_eq!(file.linktype, Linktype(1));

    // An explicitly requested precision overrides the one in the file.
    let reopened = Capture::from_file_with_precision(
        CaptureFile {
            linktype: Linktype(1),
            snaplen: 5000,
            precision: Precision::Micro,
            records: vec![],
        },
        Precision::Nano,
    )
    .unwrap();
    let derived = reopened.savefile().unwrap().close();
    assert_eq!(derived.precision, Precision::Nano);
    assert_eq!(derived.snaplen, 5000);
}

#[test]
fn erase_keeps_the_handle_usable() {
    let mut cap = Capture::dead(Linktype(1)).unwrap().erase();
    assert_eq!(cap.get_datalink(), Linktype(1));
    assert_eq!(cap.next().unwrap_err(), Error::NoMorePackets);
}
