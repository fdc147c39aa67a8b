//! Network devices a capture can be opened on.

use vstd::prelude::*;
use vstd::string::StringExecFns;

use crate::capture::Activation;
use crate::capture::Active;
use crate::capture::Capture;
use crate::capture::activated_engine;
use crate::capture::default_settings;
use crate::error::Error;
use crate::error::ErrorModel;

verus! {

/// A network device name and, when the engine knows one, a description of
/// the device.
///
/// Device enumeration itself is the engine's business; this layer only
/// carries the name that a capture handle is created from.
#[derive(Debug, Clone)]
pub struct Device {
    pub name: String,
    pub desc: Option<String>,
}

impl Device {
    /// Assembles a device from its name and optional description.
    pub fn new(name: String, desc: Option<String>) -> (r: Device)
        ensures
            r.name == name,
            r.desc == desc,
    {
        Device { name, desc }
    }

    /// Opens an activated capture on this device with the default
    /// configuration: the handle is created and immediately activated.  As
    /// with [`Capture::open`], the engine's verdict is passed in as
    /// `outcome`, and a refusal leaves no usable handle.
    pub fn open(self, outcome: &Activation) -> (r: Result<Capture<Active>, Error>)
        ensures
            outcome matches Activation::Ready { linktype, datalinks } ==> (r matches Ok(c)
                && c.is_open() && !c.nonblocking() && c.engine() == activated_engine(
                default_settings(self),
                *linktype,
                datalinks@,
            )),
            outcome matches Activation::Failed { message } ==> (r matches Err(e) && e@
                == ErrorModel::PcapError(message@)),
    {
        Capture::from_device(self)?.open(outcome)
    }
}

impl<'a> From<&'a str> for Device {
    /// A bare string names a device with no description.
    fn from(name: &'a str) -> (r: Device) {
        Device { name: String::from_str(name), desc: None }
    }
}

impl<'a> vstd::std_specs::convert::FromSpecImpl<&'a str> for Device {
    open spec fn obeys_from_spec() -> bool {
        false
    }

    open spec fn from_spec(name: &'a str) -> Device {
        arbitrary()
    }
}

} // verus!
