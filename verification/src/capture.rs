//! The capture handle lifecycle and the packet-retrieval protocol.
//!
//! A [`Capture`] wraps the engine-side handle state behind a phantom state
//! tag drawn from [`Inactive`], [`Active`], [`Offline`] and [`Dead`].  Each
//! state exposes only the operations valid in that state, and every
//! transition consumes the old value, so "configure after activation" or
//! "activate twice" cannot be written at all.
//!
//! The native engine is a collaborator, not part of this crate.  Its
//! observable state behind an activated handle — the packets it has queued,
//! the link type, the counters — is carried here as plain data, and each
//! decision the engine makes on its own (activation, filter compilation,
//! packet arrival) enters as an explicit argument: an [`Activation`], an
//! [`EngineReply`], or a delivered [`Event`].  The embedding layer performs
//! the native calls and feeds those outcomes in; every function below states
//! what it returns and how the handle changes for each possible outcome.

use vstd::prelude::*;
use vstd::string::StringExecFns;
use vstd::string::StringSliceAdditionalSpecFns;

use crate::device::Device;
use crate::error::Error;
use crate::error::ErrorModel;
use crate::link::Linktype;
use crate::packet::Packet;
use crate::packet::PacketModel;
use crate::stat::Stat;

verus! {

/// Phantom type representing an inactive capture handle: created from a
/// device, configurable, not yet activated.
pub struct Inactive;

/// Phantom type representing an active capture handle on a live device.
pub struct Active;

/// Phantom type representing an offline capture handle reading a capture
/// save file.  Behaves as "activated" from creation; there is no separate
/// activation step.
pub struct Offline;

/// Phantom type representing a dead capture handle: a synthetic handle used
/// to obtain a save file sink without a live or file-backed source.  Also
/// "activated".
pub struct Dead;

/// Marker trait for the states a [`Capture`] can be in.  The state tag has
/// no runtime representation; it only gates which operations exist.
pub trait State {

}

impl State for Inactive {

}

impl State for Active {

}

impl State for Offline {

}

impl State for Dead {

}

/// The capability shared by [`Active`], [`Offline`] and [`Dead`]: reading
/// packets, filtering, statistics and datalink operations.  [`Inactive`]
/// deliberately does not implement it, so none of those operations can be
/// reached before activation.
pub trait Activated: State {

}

impl Activated for Active {

}

impl Activated for Offline {

}

impl Activated for Dead {

}

/// Time stamp precision of an activated handle.
#[derive(Debug, Clone, Copy, PartialEq, Eq, Structural)]
pub enum Precision {
    Micro,
    Nano,
}

/// The time stamp source a live capture is asked to use.
#[derive(Debug, Clone, Copy, PartialEq, Eq, Structural)]
pub enum TimestampType {
    Host,
    HostLowPrec,
    HostHighPrec,
    Adapter,
    AdapterUnsynced,
}

/// The direction filter of a live capture: keep both directions, only
/// incoming, or only outgoing packets.
#[derive(Debug, Clone, Copy, PartialEq, Eq, Structural)]
pub enum Direction {
    InOut,
    In,
    Out,
}

/// What kind of source feeds an activated handle: a live device, a finite
/// capture file, or a synthetic (dead) handle with no source at all.
#[derive(Debug, Clone, Copy, PartialEq, Eq, Structural)]
pub enum SourceKind {
    Live,
    File,
    Synthetic,
}

/// The configuration of a not-yet-activated handle, accumulated by the
/// consuming builder calls on `Capture<Inactive>`.
#[derive(Debug, Clone)]
pub struct Settings {
    /// The device the handle was created from.
    pub device: Device,
    /// Read timeout in milliseconds; 0 means block indefinitely.
    pub timeout_ms: i32,
    /// Promiscuous mode.
    pub promisc: bool,
    /// Monitor (rfmon) mode.
    pub rfmon: bool,
    /// Immediate mode.
    pub immediate: bool,
    /// Size of the kernel buffer for incoming packet data.
    pub buffer_size: i32,
    /// Snapshot length: the maximum number of bytes captured per packet.
    pub snaplen: i32,
    /// Requested time stamp precision.
    pub precision: Precision,
    /// Requested time stamp source.
    pub tstamp_type: TimestampType,
}

/// The default configuration carried by a handle freshly created from a
/// device: block indefinitely, no promiscuous or monitor mode, a one
/// megabyte buffer and a 65535-byte snapshot length.
pub open spec fn default_settings(device: Device) -> Settings {
    Settings {
        device,
        timeout_ms: 0,
        promisc: false,
        rfmon: false,
        immediate: false,
        buffer_size: 1000000,
        snaplen: 65535,
        precision: Precision::Micro,
        tstamp_type: TimestampType::Host,
    }
}

/// One outcome the engine has queued for a retrieval call: either a captured
/// packet, or a read fault with the engine's diagnostic text.
#[derive(Debug)]
pub enum Event {
    Packet(Packet),
    Fault(String),
}

/// The mathematical value of an [`Event`].
#[verifier::ext_equal]
pub enum EventModel {
    Packet(PacketModel),
    Fault(Seq<char>),
}

impl View for Event {
    type V = EventModel;

    open spec fn view(&self) -> EventModel {
        match self {
            Event::Packet(p) => EventModel::Packet(p@),
            Event::Fault(m) => EventModel::Fault(m@),
        }
    }
}

/// The observable engine-side state behind an activated handle.
#[derive(Debug)]
pub struct EngineState {
    /// What kind of source feeds the handle.
    pub kind: SourceKind,
    /// The current link-layer type.
    pub linktype: Linktype,
    /// The snapshot length the handle was activated with.
    pub snaplen: i32,
    /// The time stamp precision of produced headers.
    pub precision: Precision,
    /// The configured read timeout in milliseconds.
    pub timeout_ms: i32,
    /// The link types the source supports.
    pub datalinks: Vec<Linktype>,
    /// What the engine will hand out on the coming retrieval calls, oldest
    /// first.
    pub pending: Vec<Event>,
    /// The capture counters.
    pub stats: Stat,
    /// The packets sent out over the handle's interface, oldest first.
    pub sent: Vec<Vec<u8>>,
    /// The installed filter program text, if any.
    pub filter: Option<String>,
}

/// The mathematical value of an [`EngineState`].
#[verifier::ext_equal]
pub struct EngineModel {
    pub kind: SourceKind,
    pub linktype: Linktype,
    pub snaplen: i32,
    pub precision: Precision,
    pub timeout_ms: i32,
    pub datalinks: Seq<Linktype>,
    pub pending: Seq<EventModel>,
    pub stats: Stat,
    pub sent: Seq<Seq<u8>>,
    pub filter: Option<Seq<char>>,
}

impl View for EngineState {
    type V = EngineModel;

    open spec fn view(&self) -> EngineModel {
        EngineModel {
            kind: self.kind,
            linktype: self.linktype,
            snaplen: self.snaplen,
            precision: self.precision,
            timeout_ms: self.timeout_ms,
            datalinks: self.datalinks@,
            pending: self.pending@.map_values(|ev: Event| ev@),
            stats: self.stats,
            sent: self.sent@.map_values(|b: Vec<u8>| b@),
            filter: match &self.filter {
                Some(f) => Some(f@),
                None => None,
            },
        }
    }
}

/// What the engine reported when asked to activate a configured handle.
/// The embedding layer obtains this from the native activation call and
/// passes it to [`Capture::open`].
#[derive(Debug)]
pub enum Activation {
    /// Activation succeeded; the engine reports the handle's link type and
    /// the link types the device supports.
    Ready { linktype: Linktype, datalinks: Vec<Linktype> },
    /// The engine refused — a non-existent or unauthorized device, say —
    /// with its diagnostic text.
    Failed { message: String },
}

/// The engine's reply to a fallible request: success, or the diagnostic
/// text fetched from the engine's error buffer.
pub type EngineReply = Result<(), String>;

/// The contents of a capture save file, as the engine presents them: the
/// link type, snapshot length and precision recorded in the file's global
/// header, and the packet records in file order.
#[derive(Debug)]
pub struct CaptureFile {
    pub linktype: Linktype,
    pub snaplen: i32,
    pub precision: Precision,
    pub records: Vec<Packet>,
}

/// The mathematical value of a [`CaptureFile`].
#[verifier::ext_equal]
pub struct CaptureFileModel {
    pub linktype: Linktype,
    pub snaplen: i32,
    pub precision: Precision,
    pub records: Seq<PacketModel>,
}

impl View for CaptureFile {
    type V = CaptureFileModel;

    open spec fn view(&self) -> CaptureFileModel {
        CaptureFileModel {
            linktype: self.linktype,
            snaplen: self.snaplen,
            precision: self.precision,
            records: self.records@.map_values(|p: Packet| p@),
        }
    }
}

/// The runtime state behind a capture handle: still-unactivated
/// configuration, or the engine-side state of an activated source.
enum Inner {
    Config(Settings),
    Engine(EngineState),
}

/// A capture handle.  The phantom tag `T` records the lifecycle state; the
/// value carries the non-blocking flag and the engine-side state.
///
/// - `Capture<Inactive>` is created by [`Capture::from_device`] and only
///   configured; it cannot produce packets.
/// - `Capture<Active>` is created by activating an inactive handle with
///   [`Capture::open`].
/// - `Capture<Offline>` is created by [`Capture::from_file`] and reads a
///   capture save file.
/// - `Capture<Dead>` is created by [`Capture::dead`] and only derives save
///   file sinks.
pub struct Capture<T: State> {
    nonblock: bool,
    inner: Inner,
    _marker: core::marker::PhantomData<T>,
}

impl<T: State> Capture<T> {
    /// Whether the handle has been switched to non-blocking mode.
    pub closed spec fn nonblocking(self) -> bool {
        self.nonblock
    }

    /// Whether the handle still awaits activation and carries only
    /// configuration.
    pub closed spec fn is_config(self) -> bool {
        self.inner is Config
    }

    /// Whether the handle fronts an activated source.
    pub closed spec fn is_open(self) -> bool {
        self.inner is Engine
    }

    /// The configuration of a handle that awaits activation.
    pub closed spec fn config(self) -> Settings
        recommends
            self.is_config(),
    {
        self.inner->Config_0
    }

    /// The engine-side state of an activated handle.
    pub closed spec fn engine(self) -> EngineModel
        recommends
            self.is_open(),
    {
        self.inner->Engine_0@
    }

    /// Whether the handle is in non-blocking mode.
    pub fn is_nonblocking(&self) -> (r: bool)
        ensures
            r == self.nonblocking(),
    {
        self.nonblock
    }

    /// Takes the configuration out of a handle that awaits activation.
    fn into_settings(self) -> (r: (bool, Settings))
        requires
            self.is_config(),
        ensures
            r.0 == self.nonblocking(),
            r.1 == self.config(),
    {
        match self.inner {
            Inner::Config(s) => (self.nonblock, s),
            Inner::Engine(_) => vstd::pervasive::unreached(),
        }
    }
}

/// The result of one retrieval call on an engine in the given state: the
/// oldest queued event decides, and an empty queue means a timeout on a
/// live source or end of input on a finite one.
pub open spec fn read_result(e: EngineModel) -> Result<PacketModel, ErrorModel> {
    if e.pending.len() == 0 {
        Err(empty_read_error(e.kind))
    } else {
        event_result(e.pending[0])
    }
}

/// The error a retrieval call reports when the engine has nothing queued.
pub open spec fn empty_read_error(kind: SourceKind) -> ErrorModel {
    if kind is Live {
        ErrorModel::TimeoutExpired
    } else {
        ErrorModel::NoMorePackets
    }
}

/// What one queued event makes a retrieval call return.
pub open spec fn event_result(ev: EventModel) -> Result<PacketModel, ErrorModel> {
    match ev {
        EventModel::Packet(p) => Ok(p),
        EventModel::Fault(m) => Err(ErrorModel::PcapError(m)),
    }
}

/// The engine state after one retrieval call: the oldest queued event is
/// consumed; an empty queue is left as it is.
pub open spec fn read_step(e: EngineModel) -> EngineModel {
    if e.pending.len() == 0 {
        e
    } else {
        EngineModel { pending: e.pending.drop_first(), ..e }
    }
}

/// The mathematical value of a retrieval result.
pub open spec fn result_model(r: Result<Packet, Error>) -> Result<PacketModel, ErrorModel> {
    match r {
        Ok(p) => Ok(p@),
        Err(e) => Err(e@),
    }
}

/// The engine state right after a successful activation: a live source with
/// the link types the engine reported, the configured snapshot length,
/// precision and timeout, and nothing queued, counted, sent or filtered yet.
pub open spec fn activated_engine(s: Settings, linktype: Linktype, datalinks: Seq<
    Linktype,
>) -> EngineModel {
    EngineModel {
        kind: SourceKind::Live,
        linktype,
        snaplen: s.snaplen,
        precision: s.precision,
        timeout_ms: s.timeout_ms,
        datalinks,
        pending: Seq::empty(),
        stats: Stat { received: 0, dropped: 0, if_dropped: 0 },
        sent: Seq::empty(),
        filter: None,
    }
}

/// The engine state behind a freshly opened offline handle: a finite source
/// whose queue holds exactly the file's records in file order, read with
/// the given precision.
pub open spec fn offline_engine(f: CaptureFileModel, precision: Precision) -> EngineModel {
    EngineModel {
        kind: SourceKind::File,
        linktype: f.linktype,
        snaplen: f.snaplen,
        precision,
        timeout_ms: 0,
        datalinks: seq![f.linktype],
        pending: f.records.map_values(|p: PacketModel| EventModel::Packet(p)),
        stats: Stat { received: 0, dropped: 0, if_dropped: 0 },
        sent: Seq::empty(),
        filter: None,
    }
}

/// The engine state behind a dead handle: a synthetic source with the given
/// link type, the default 65535-byte snapshot length, and nothing to read.
pub open spec fn dead_engine(linktype: Linktype) -> EngineModel {
    EngineModel {
        kind: SourceKind::Synthetic,
        linktype,
        snaplen: 65535,
        precision: Precision::Micro,
        timeout_ms: 0,
        datalinks: seq![linktype],
        pending: Seq::empty(),
        stats: Stat { received: 0, dropped: 0, if_dropped: 0 },
        sent: Seq::empty(),
        filter: None,
    }
}

impl Capture<Inactive> {
    /// Creates an inactive handle for the given device, carrying the
    /// default configuration.  The handle is not yet activated; activation,
    /// and with it the engine's verdict on the device, comes with
    /// [`Capture::open`].
    pub fn from_device(device: Device) -> (r: Result<Capture<Inactive>, Error>)
        ensures
            r matches Ok(c) && c.is_config() && !c.nonblocking() && c.config() == default_settings(
                device,
            ),
    {
        Ok(
            Capture {
                nonblock: false,
                inner: Inner::Config(
                    Settings {
                        device,
                        timeout_ms: 0,
                        promisc: false,
                        rfmon: false,
                        immediate: false,
                        buffer_size: 1000000,
                        snaplen: 65535,
                        precision: Precision::Micro,
                        tstamp_type: TimestampType::Host,
                    },
                ),
                _marker: core::marker::PhantomData,
            },
        )
    }

    /// Sets the read timeout in milliseconds.  By default this is 0, and a
    /// blocking read waits indefinitely.
    pub fn timeout(self, ms: i32) -> (r: Capture<Inactive>)
        requires
            self.is_config(),
        ensures
            r.is_config(),
            r.nonblocking() == self.nonblocking(),
            r.config() == (Settings { timeout_ms: ms, ..self.config() }),
    {
        let (nonblock, s) = self.into_settings();
        Capture {
            nonblock,
            inner: Inner::Config(Settings { timeout_ms: ms, ..s }),
            _marker: core::marker::PhantomData,
        }
    }

    /// Sets the time stamp type to be used by the capture device.
    pub fn tstamp_type(self, tstamp_type: TimestampType) -> (r: Capture<Inactive>)
        requires
            self.is_config(),
        ensures
            r.is_config(),
            r.nonblocking() == self.nonblocking(),
            r.config() == (Settings { tstamp_type, ..self.config() }),
    {
        let (nonblock, s) = self.into_settings();
        Capture {
            nonblock,
            inner: Inner::Config(Settings { tstamp_type, ..s }),
            _marker: core::marker::PhantomData,
        }
    }

    /// Sets promiscuous mode on or off.  By default this is off.
    pub fn promisc(self, to: bool) -> (r: Capture<Inactive>)
        requires
            self.is_config(),
        ensures
            r.is_config(),
            r.nonblocking() == self.nonblocking(),
            r.config() == (Settings { promisc: to, ..self.config() }),
    {
        let (nonblock, s) = self.into_settings();
        Capture {
            nonblock,
            inner: Inner::Config(Settings { promisc: to, ..s }),
            _marker: core::marker::PhantomData,
        }
    }

    /// Sets immediate mode on or off.  By default this is off.
    pub fn immediate_mode(self, to: bool) -> (r: Capture<Inactive>)
        requires
            self.is_config(),
        ensures
            r.is_config(),
            r.nonblocking() == self.nonblocking(),
            r.config() == (Settings { immediate: to, ..self.config() }),
    {
        let (nonblock, s) = self.into_settings();
        Capture {
            nonblock,
            inner: Inner::Config(Settings { immediate: to, ..s }),
            _marker: core::marker::PhantomData,
        }
    }

    /// Sets monitor (rfmon) mode on or off.
    pub fn rfmon(self, to: bool) -> (r: Capture<Inactive>)
        requires
            self.is_config(),
        ensures
            r.is_config(),
            r.nonblocking() == self.nonblocking(),
            r.config() == (Settings { rfmon: to, ..self.config() }),
    {
        let (nonblock, s) = self.into_settings();
        Capture {
            nonblock,
            inner: Inner::Config(Settings { rfmon: to, ..s }),
            _marker: core::marker::PhantomData,
        }
    }

    /// Sets the buffer size for incoming packet data.  The default is
    /// 1000000; it should always be larger than the snapshot length.
    pub fn buffer_size(self, to: i32) -> (r: Capture<Inactive>)
        requires
            self.is_config(),
        ensures
            r.is_config(),
            r.nonblocking() == self.nonblocking(),
            r.config() == (Settings { buffer_size: to, ..self.config() }),
    {
        let (nonblock, s) = self.into_settings();
        Capture {
            nonblock,
            inner: Inner::Config(Settings { buffer_size: to, ..s }),
            _marker: core::marker::PhantomData,
        }
    }

    /// Sets the time stamp precision returned in captures.
    pub fn precision(self, precision: Precision) -> (r: Capture<Inactive>)
        requires
            self.is_config(),
        ensures
            r.is_config(),
            r.nonblocking() == self.nonblocking(),
            r.config() == (Settings { precision, ..self.config() }),
    {
        let (nonblock, s) = self.into_settings();
        Capture {
            nonblock,
            inner: Inner::Config(Settings { precision, ..s }),
            _marker: core::marker::PhantomData,
        }
    }

    /// Sets the snapshot length: the maximum number of bytes captured per
    /// packet.  The default is 65535.
    pub fn snaplen(self, to: i32) -> (r: Capture<Inactive>)
        requires
            self.is_config(),
        ensures
            r.is_config(),
            r.nonblocking() == self.nonblocking(),
            r.config() == (Settings { snaplen: to, ..self.config() }),
    {
        let (nonblock, s) = self.into_settings();
        Capture {
            nonblock,
            inner: Inner::Config(Settings { snaplen: to, ..s }),
            _marker: core::marker::PhantomData,
        }
    }

    /// Activates the handle, consuming it.  The engine's verdict is passed
    /// in as `outcome`: on success the result is an active handle whose
    /// engine-side state starts from the accumulated configuration; on
    /// refusal the engine's diagnostic is surfaced as an engine error and no
    /// usable handle remains.
    pub fn open(self, outcome: &Activation) -> (r: Result<Capture<Active>, Error>)
        requires
            self.is_config(),
        ensures
            outcome matches Activation::Ready { linktype, datalinks } ==> r matches Ok(c)
                && c.is_open() && c.nonblocking() == self.nonblocking() && c.engine()
                == activated_engine(self.config(), *linktype, datalinks@),
            outcome matches Activation::Failed { message } ==> r matches Err(e) && e@
                == ErrorModel::PcapError(message@),
    {
        match outcome {
            Activation::Ready { linktype, datalinks } => {
                let (nonblock, s) = self.into_settings();
                let dl = datalinks.clone();
                proof {
                    assert(dl@ =~= datalinks@);
                }
                let c = Capture {
                    nonblock,
                    inner: Inner::Engine(
                        EngineState {
                            kind: SourceKind::Live,
                            linktype: *linktype,
                            snaplen: s.snaplen,
                            precision: s.precision,
                            timeout_ms: s.timeout_ms,
                            datalinks: dl,
                            pending: Vec::new(),
                            stats: Stat { received: 0, dropped: 0, if_dropped: 0 },
                            sent: Vec::new(),
                            filter: None,
                        },
                    ),
                    _marker: core::marker::PhantomData,
                };
                proof {
                    assert(c.engine() =~= activated_engine(s, *linktype, datalinks@));
                }
                Ok(c)
            },
            Activation::Failed { message } => Err(Error::PcapError(message.clone())),
        }
    }
}

impl Capture<Offline> {
    /// Opens an offline handle that reads the given capture file contents,
    /// with the precision recorded in the file.  The packets come back from
    /// [`Capture::next`] in file order.
    pub fn from_file(file: CaptureFile) -> (r: Result<Capture<Offline>, Error>)
        ensures
            r matches Ok(c) && c.is_open() && !c.nonblocking() && c.engine() == offline_engine(
                file@,
                file@.precision,
            ),
    {
        let precision = file.precision;
        Self::from_file_with_precision(file, precision)
    }

    /// Opens an offline handle that reads the given capture file contents,
    /// with an explicitly requested time stamp precision.
    pub fn from_file_with_precision(file: CaptureFile, precision: Precision) -> (r: Result<
        Capture<Offline>,
        Error,
    >)
        ensures
            r matches Ok(c) && c.is_open() && !c.nonblocking() && c.engine() == offline_engine(
                file@,
                precision,
            ),
    {
        let ghost file_model = file@;
        let CaptureFile { linktype, snaplen, precision: _, records } = file;
        let mut pending: Vec<Event> = Vec::new();
        let mut i: usize = 0;
        while i < records.len()
            invariant
                i <= records.len(),
                records@.map_values(|p: Packet| p@) == file_model.records,
                pending@.len() == i,
                forall|k: int|
                    0 <= k < i ==> (#[trigger] pending@[k])@ == EventModel::Packet(records@[k]@),
            decreases records.len() - i,
        {
            let ev = Event::Packet(records[i].clone());
            pending.push(ev);
            i += 1;
        }
        let c = Capture {
            nonblock: false,
            inner: Inner::Engine(
                EngineState {
                    kind: SourceKind::File,
                    linktype,
                    snaplen,
                    precision,
                    timeout_ms: 0,
                    datalinks: vec![linktype],
                    pending,
                    stats: Stat { received: 0, dropped: 0, if_dropped: 0 },
                    sent: Vec::new(),
                    filter: None,
                },
            ),
            _marker: core::marker::PhantomData,
        };
        proof {
            assert(c.engine().pending =~= offline_engine(file_model, precision).pending);
            assert(c.engine() =~= offline_engine(file_model, precision));
        }
        Ok(c)
    }
}

impl Capture<Dead> {
    /// Creates a "dead" capture handle for the given link type: a synthetic
    /// activated handle whose only use is deriving save file sinks.
    pub fn dead(linktype: Linktype) -> (r: Result<Capture<Dead>, Error>)
        ensures
            r matches Ok(c) && c.is_open() && !c.nonblocking() && c.engine() == dead_engine(
                linktype,
            ),
    {
        let c = Capture {
            nonblock: false,
            inner: Inner::Engine(
                EngineState {
                    kind: SourceKind::Synthetic,
                    linktype,
                    snaplen: 65535,
                    precision: Precision::Micro,
                    timeout_ms: 0,
                    datalinks: vec![linktype],
                    pending: Vec::new(),
                    stats: Stat { received: 0, dropped: 0, if_dropped: 0 },
                    sent: Vec::new(),
                    filter: None,
                },
            ),
            _marker: core::marker::PhantomData,
        };
        proof {
            assert(c.engine() =~= dead_engine(linktype));
        }
        Ok(c)
    }
}

/// A counter bumped without wrapping: the engine's packet counters stick at
/// their maximum instead of overflowing.
pub open spec fn saturating_inc(c: u32) -> u32 {
    if c < u32::MAX {
        (c + 1) as u32
    } else {
        c
    }
}

/// The engine state after a packet arrives from the wire: the packet is
/// queued behind the already-pending events and the received counter is
/// bumped.
pub open spec fn deliver_step(e: EngineModel, p: PacketModel) -> EngineModel {
    EngineModel {
        pending: e.pending.push(EventModel::Packet(p)),
        stats: Stat { received: saturating_inc(e.stats.received), ..e.stats },
        ..e
    }
}

/// The engine state after a read fault is queued: the coming retrieval
/// calls will reach it after the events already pending.
pub open spec fn fault_step(e: EngineModel, message: Seq<char>) -> EngineModel {
    EngineModel { pending: e.pending.push(EventModel::Fault(message)), ..e }
}

/// The engine state after a packet was sent out over the interface.
pub open spec fn send_step(e: EngineModel, buf: Seq<u8>) -> EngineModel {
    EngineModel { sent: e.sent.push(buf), ..e }
}

/// The engine state after a filter program was compiled and attached.
pub open spec fn filter_step(e: EngineModel, program: Seq<char>) -> EngineModel {
    EngineModel { filter: Some(program), ..e }
}

impl<T: Activated> Capture<T> {
    /// Retrieves the next outcome the engine has queued, in order.
    ///
    /// The three defined outcomes of the native retrieval call are mapped
    /// exactly: a queued packet is returned as `Ok`; a queued read fault is
    /// surfaced as an engine error with its diagnostic; and an empty queue
    /// means the read timeout expired on a live source, or end of input on a
    /// finite one, in both cases leaving the handle unchanged — so reading
    /// past the end of a file keeps reporting end of input.
    ///
    /// A blocking live read with no configured timeout and nothing queued
    /// would wait forever; that situation is excluded by precondition.
    pub fn next(&mut self) -> (r: Result<Packet, Error>)
        requires
            old(self).is_open(),
            old(self).engine().kind is Live && old(self).engine().pending.len() == 0 ==> old(
                self,
            ).engine().timeout_ms > 0 || old(self).nonblocking(),
        ensures
            final(self).is_open(),
            final(self).nonblocking() == old(self).nonblocking(),
            final(self).engine() == read_step(old(self).engine()),
            result_model(r) == read_result(old(self).engine()),
    {
        let r: Result<Packet, Error>;
        match &mut self.inner {
            Inner::Engine(e) => {
                if e.pending.len() == 0 {
                    r = match e.kind {
                        SourceKind::Live => Err(Error::TimeoutExpired),
                        SourceKind::File => Err(Error::NoMorePackets),
                        SourceKind::Synthetic => Err(Error::NoMorePackets),
                    };
                } else {
                    let ev = e.pending.remove(0);
                    r = match ev {
                        Event::Packet(p) => Ok(p),
                        Event::Fault(m) => Err(Error::PcapError(m)),
                    };
                }
            },
            Inner::Config(_) => {
                r = vstd::pervasive::unreached();
            },
        }
        proof {
            assert(self.engine().pending =~= read_step(old(self).engine()).pending);
            assert(self.engine() =~= read_step(old(self).engine()));
        }
        r
    }

    /// Lists the link types this handle's source supports.
    pub fn list_datalinks(&self) -> (r: Result<Vec<Linktype>, Error>)
        requires
            self.is_open(),
        ensures
            r matches Ok(v) && v@ == self.engine().datalinks,
    {
        match &self.inner {
            Inner::Engine(e) => {
                let v = e.datalinks.clone();
                proof {
                    assert(v@ =~= e.datalinks@);
                }
                Ok(v)
            },
            Inner::Config(_) => vstd::pervasive::unreached(),
        }
    }

    /// Asks the engine to switch the handle to the given link type.  The
    /// engine's verdict is passed in as `reply`: on success the handle's
    /// link type changes and nothing else does; on refusal the diagnostic is
    /// surfaced as an engine error and the handle keeps its prior state.
    pub fn set_datalink(&mut self, linktype: Linktype, reply: &EngineReply) -> (r: Result<
        (),
        Error,
    >)
        requires
            old(self).is_open(),
        ensures
            final(self).is_open(),
            final(self).nonblocking() == old(self).nonblocking(),
            reply is Ok ==> r is Ok && final(self).engine() == (EngineModel {
                linktype,
                ..old(self).engine()
            }),
            reply matches Err(m) ==> r matches Err(e) && e@ == ErrorModel::PcapError(m@) && final(self).engine() == old(self).engine(),
    {
        match reply {
            Ok(_) => {
                match &mut self.inner {
                    Inner::Engine(e) => {
                        e.linktype = linktype;
                    },
                    Inner::Config(_) => vstd::pervasive::unreached(),
                }
                proof {
                    assert(self.engine() =~= (EngineModel { linktype, ..old(self).engine() }));
                }
                Ok(())
            },
            Err(m) => Err(Error::PcapError(m.clone())),
        }
    }

    /// The current link type of this handle.
    pub fn get_datalink(&self) -> (r: Linktype)
        requires
            self.is_open(),
        ensures
            r == self.engine().linktype,
    {
        match &self.inner {
            Inner::Engine(e) => e.linktype,
            Inner::Config(_) => vstd::pervasive::unreached(),
        }
    }

    /// Asks the engine to restrict the capture to the given direction.  The
    /// engine's verdict is passed in as `reply`; on refusal its diagnostic
    /// is surfaced as an engine error and the handle keeps its prior state.
    pub fn direction(&self, direction: Direction, reply: &EngineReply) -> (r: Result<(), Error>)
        requires
            self.is_open(),
        ensures
            reply is Ok ==> r is Ok,
            reply matches Err(m) ==> r matches Err(e) && e@ == ErrorModel::PcapError(m@),
    {
        let _ = direction;
        match reply {
            Ok(_) => Ok(()),
            Err(m) => Err(Error::PcapError(m.clone())),
        }
    }

    /// Installs a filter on the capture, given a filter program text.  The
    /// native engine compiles the program and attaches the compiled form,
    /// freeing it again whatever the attachment outcome; its verdict on the
    /// combined step is passed in as `reply`.
    ///
    /// A program with an embedded NUL cannot even be handed to the engine
    /// and is rejected up front; an engine refusal — a malformed program,
    /// say — is surfaced as an engine error.  In both failure cases the
    /// handle keeps its prior state: no filter is installed.
    pub fn filter(&mut self, program: &str, reply: &EngineReply) -> (r: Result<(), Error>)
        requires
            old(self).is_open(),
        ensures
            final(self).is_open(),
            final(self).nonblocking() == old(self).nonblocking(),
            program.spec_bytes().contains(0u8) ==> (r matches Err(e) && e@
                == ErrorModel::InvalidInputString && final(self).engine() == old(self).engine()),
            !program.spec_bytes().contains(0u8) ==> (reply matches Err(m) ==> (r matches Err(e)
                && e@ == ErrorModel::PcapError(m@) && final(self).engine() == old(self).engine())),
            !program.spec_bytes().contains(0u8) && reply is Ok ==> r is Ok && final(self).engine()
                == filter_step(old(self).engine(), program@),
    {
        if has_interior_nul(program) {
            return Err(Error::InvalidInputString);
        }
        match reply {
            Ok(_) => {
                let text = program.to_owned();
                match &mut self.inner {
                    Inner::Engine(e) => {
                        e.filter = Some(text);
                    },
                    Inner::Config(_) => vstd::pervasive::unreached(),
                }
                proof {
                    assert(self.engine() =~= filter_step(old(self).engine(), program@));
                }
                Ok(())
            },
            Err(m) => Err(Error::PcapError(m.clone())),
        }
    }

    /// Reads the capture's statistics counters.  The handle is not changed.
    pub fn stats(&mut self) -> (r: Result<Stat, Error>)
        requires
            old(self).is_open(),
        ensures
            *final(self) == *old(self),
            r == Ok::<Stat, Error>(old(self).engine().stats),
    {
        match &self.inner {
            Inner::Engine(e) => Ok(e.stats),
            Inner::Config(_) => vstd::pervasive::unreached(),
        }
    }

    /// Creates a save file sink bound to this handle's configuration: its
    /// link type, snapshot length and precision.  The sink starts empty.
    pub fn savefile(&self) -> (r: Result<Savefile, Error>)
        requires
            self.is_open(),
        ensures
            r matches Ok(s) && s@ == (CaptureFileModel {
                linktype: self.engine().linktype,
                snaplen: self.engine().snaplen,
                precision: self.engine().precision,
                records: Seq::empty(),
            }),
    {
        match &self.inner {
            Inner::Engine(e) => {
                let s = Savefile {
                    file: CaptureFile {
                        linktype: e.linktype,
                        snaplen: e.snaplen,
                        precision: e.precision,
                        records: Vec::new(),
                    },
                };
                proof {
                    assert(s@ =~= (CaptureFileModel {
                        linktype: self.engine().linktype,
                        snaplen: self.engine().snaplen,
                        precision: self.engine().precision,
                        records: Seq::empty(),
                    }));
                }
                Ok(s)
            },
            Inner::Config(_) => vstd::pervasive::unreached(),
        }
    }

    /// Reopens existing save file contents for appending, using this
    /// handle's configuration.  The engine accepts exactly when the file's
    /// link type, snapshot length and precision match the handle's; on a
    /// mismatch the refusal is surfaced as an engine error and no sink is
    /// produced.
    pub fn savefile_append(&self, file: CaptureFile) -> (r: Result<Savefile, Error>)
        requires
            self.is_open(),
        ensures
            savefile_compatible(self.engine(), file@) ==> (r matches Ok(s) && s@ == file@),
            !savefile_compatible(self.engine(), file@) ==> (r matches Err(e) && e@
                == ErrorModel::PcapError("save file parameters do not match the capture"@)),
    {
        match &self.inner {
            Inner::Engine(e) => {
                if file.linktype == e.linktype && file.snaplen == e.snaplen && file.precision
                    == e.precision {
                    Ok(Savefile { file })
                } else {
                    Err(
                        Error::PcapError(
                            String::from_str("save file parameters do not match the capture"),
                        ),
                    )
                }
            },
            Inner::Config(_) => vstd::pervasive::unreached(),
        }
    }

    /// Erases the concrete state tag, keeping only the "activated"
    /// capability, so that an [`Active`], [`Offline`] or [`Dead`] handle
    /// can be held behind one type.  The handle itself — its mode flag and
    /// engine-side state — is untouched.
    pub fn erase(self) -> (r: Capture<AnyActivated>)
        requires
            self.is_open(),
        ensures
            r.is_open(),
            r.nonblocking() == self.nonblocking(),
            r.engine() == self.engine(),
    {
        Capture { nonblock: self.nonblock, inner: self.inner, _marker: core::marker::PhantomData }
    }
}

/// Phantom type for the capability-erased view of an activated handle:
/// code can hold an [`Active`], [`Offline`] or [`Dead`] capture behind the
/// one type `Capture<AnyActivated>` without re-deriving the concrete
/// state.  It is reachable only through [`Capture::erase`], never from an
/// inactive handle.
pub struct AnyActivated;

impl State for AnyActivated {

}

impl Activated for AnyActivated {

}

/// Translates one native retrieval outcome into the protocol's result.
///
/// The native read reports a status code: a positive count means a packet
/// was read (and only then does packet data accompany the code), 0 means
/// the read timeout expired, -1 an engine error whose diagnostic has been
/// fetched separately, and -2 end of input on a finite source.  No other
/// code is defined; the preconditions exclude them, and the embedding
/// layer treats an undocumented code as an internal-invariant violation
/// rather than mapping it silently.
pub fn read_outcome(code: i32, packet: Option<Packet>, diagnostic: String) -> (r: Result<
    Packet,
    Error,
>)
    requires
        code >= -2,
        code >= 1 <==> packet is Some,
    ensures
        code >= 1 ==> (r matches Ok(p) && packet matches Some(q) && p == q),
        code == 0 ==> r == Err::<Packet, Error>(Error::TimeoutExpired),
        code == -1 ==> (r matches Err(e) && e@ == ErrorModel::PcapError(diagnostic@)),
        code == -2 ==> r == Err::<Packet, Error>(Error::NoMorePackets),
{
    if code >= 1 {
        match packet {
            Some(p) => Ok(p),
            None => vstd::pervasive::unreached(),
        }
    } else if code == 0 {
        Err(Error::TimeoutExpired)
    } else if code == -2 {
        Err(Error::NoMorePackets)
    } else {
        Err(Error::PcapError(diagnostic))
    }
}

/// Whether save file contents fit an activated handle's configuration, so
/// that the engine will append to them.
pub open spec fn savefile_compatible(e: EngineModel, f: CaptureFileModel) -> bool {
    f.linktype == e.linktype && f.snaplen == e.snaplen && f.precision == e.precision
}

/// Scans a caller-supplied string for an embedded NUL terminator, which
/// would make it impossible to hand the string to the engine.
fn has_interior_nul(text: &str) -> (r: bool)
    ensures
        r == text.spec_bytes().contains(0u8),
{
    let bytes = text.as_bytes();
    let mut i: usize = 0;
    while i < bytes.len()
        invariant
            i <= bytes.len(),
            bytes@ == text.spec_bytes(),
            forall|k: int| 0 <= k < i ==> (#[trigger] bytes@[k]) != 0u8,
        decreases bytes.len() - i,
    {
        if bytes[i] == 0 {
            return true;
        }
        i += 1;
    }
    proof {
        assert(!text.spec_bytes().contains(0u8));
    }
    false
}

impl Capture<Active> {
    /// Records the arrival of one packet from the wire: the embedding layer
    /// calls this when the native engine has captured a packet for this
    /// handle.  The packet queues behind the events already pending and the
    /// received counter is bumped.
    pub fn deliver(&mut self, packet: Packet)
        requires
            old(self).is_open(),
        ensures
            final(self).is_open(),
            final(self).nonblocking() == old(self).nonblocking(),
            final(self).engine() == deliver_step(old(self).engine(), packet@),
    {
        let ghost p = packet@;
        match &mut self.inner {
            Inner::Engine(e) => {
                e.pending.push(Event::Packet(packet));
                if e.stats.received < u32::MAX {
                    e.stats.received = e.stats.received + 1;
                }
            },
            Inner::Config(_) => vstd::pervasive::unreached(),
        }
        proof {
            assert(self.engine().pending =~= deliver_step(old(self).engine(), p).pending);
            assert(self.engine() =~= deliver_step(old(self).engine(), p));
        }
    }

    /// Records a read fault reported by the native engine: the coming
    /// retrieval calls reach it after the events already pending, and it is
    /// then surfaced as an engine error.
    pub fn deliver_fault(&mut self, message: String)
        requires
            old(self).is_open(),
        ensures
            final(self).is_open(),
            final(self).nonblocking() == old(self).nonblocking(),
            final(self).engine() == fault_step(old(self).engine(), message@),
    {
        let ghost m = message@;
        match &mut self.inner {
            Inner::Engine(e) => {
                e.pending.push(Event::Fault(message));
            },
            Inner::Config(_) => vstd::pervasive::unreached(),
        }
        proof {
            assert(self.engine().pending =~= fault_step(old(self).engine(), m).pending);
            assert(self.engine() =~= fault_step(old(self).engine(), m));
        }
    }

    /// Sends a packet over this handle's interface.  The engine's verdict
    /// is passed in as `reply`: on success the bytes join the handle's sent
    /// record; on refusal the diagnostic is surfaced as an engine error and
    /// nothing changes.
    pub fn sendpacket(&mut self, buf: &[u8], reply: &EngineReply) -> (r: Result<(), Error>)
        requires
            old(self).is_open(),
        ensures
            final(self).is_open(),
            final(self).nonblocking() == old(self).nonblocking(),
            reply is Ok ==> r is Ok && final(self).engine() == send_step(
                old(self).engine(),
                buf@,
            ),
            reply matches Err(m) ==> r matches Err(e) && e@ == ErrorModel::PcapError(m@) && final(self).engine() == old(self).engine(),
    {
        match reply {
            Ok(_) => {
                let bytes = vstd::slice::slice_to_vec(buf);
                match &mut self.inner {
                    Inner::Engine(e) => {
                        e.sent.push(bytes);
                    },
                    Inner::Config(_) => vstd::pervasive::unreached(),
                }
                proof {
                    assert(self.engine().sent =~= send_step(old(self).engine(), buf@).sent);
                    assert(self.engine() =~= send_step(old(self).engine(), buf@));
                }
                Ok(())
            },
            Err(m) => Err(Error::PcapError(m.clone())),
        }
    }

    /// Switches the handle to non-blocking mode, in which [`Capture::next`]
    /// reports an expired timeout instead of waiting when nothing is
    /// queued.  The engine's verdict is passed in as `reply`; on refusal the
    /// diagnostic is surfaced as an engine error and no handle remains.
    pub fn setnonblock(self, reply: &EngineReply) -> (r: Result<Capture<Active>, Error>)
        requires
            self.is_open(),
        ensures
            reply is Ok ==> (r matches Ok(c) && c.is_open() && c.nonblocking() && c.engine()
                == self.engine()),
            reply matches Err(m) ==> r matches Err(e) && e@ == ErrorModel::PcapError(m@),
    {
        match reply {
            Ok(_) => Ok(
                Capture { nonblock: true, inner: self.inner, _marker: core::marker::PhantomData },
            ),
            Err(m) => Err(Error::PcapError(m.clone())),
        }
    }
}

/// Sink for recording captured packets.  The recorded contents follow the
/// capture-file record layout — the bound configuration once, then one
/// record per written packet, in write order — and can be read back with
/// [`Capture::from_file`].
#[derive(Debug)]
pub struct Savefile {
    file: CaptureFile,
}

impl View for Savefile {
    type V = CaptureFileModel;

    closed spec fn view(&self) -> CaptureFileModel {
        self.file@
    }
}

/// The file contents after one write: the packet's header and bytes
/// appended as one record.
pub open spec fn write_step(f: CaptureFileModel, p: PacketModel) -> CaptureFileModel {
    CaptureFileModel { records: f.records.push(p), ..f }
}

impl Savefile {
    /// Writes one packet: copies its header and data bytes to the end of
    /// the file.  The underlying write is defined to succeed on an open
    /// sink, so nothing is returned.
    pub fn write(&mut self, packet: &Packet)
        ensures
            final(self)@ == write_step(old(self)@, packet@),
    {
        self.file.records.push(packet.clone());
        proof {
            assert(self@.records =~= write_step(old(self)@, packet@).records);
            assert(self@ =~= write_step(old(self)@, packet@));
        }
    }

    /// Finishes writing and yields the recorded file contents, releasing
    /// the sink.
    pub fn close(self) -> (r: CaptureFile)
        ensures
            r@ == self@,
    {
        self.file
    }
}

} // verus!
