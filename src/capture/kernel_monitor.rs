use vstd::prelude::*;
use vstd::string::*;

use crate::capture::{CaptureError, Result, PORT_RANGE};

verus! {

/// One filter of the kernel packet monitor: UDP traffic on a single port.
#[derive(Clone, Debug)]
pub struct PortFilter {
    pub name: String,
    pub port: u16,
}

/// The filters that the kernel-monitor session installs, one per port of the
/// game's range, in order. Both must be installed, or the backend fails.
pub fn kernel_monitor_filters() -> (r: Vec<PortFilter>)
    ensures
        r@.len() == 2,
        r@[0].port == PORT_RANGE.0,
        r@[1].port == PORT_RANGE.1,
        r@[0].name@ == "UDP Filter"@,
        r@[1].name@ == "UDP Filter"@,
{
    let mut r: Vec<PortFilter> = Vec::new();
    r.push(PortFilter { name: String::from_str("UDP Filter"), port: PORT_RANGE.0 });
    r.push(PortFilter { name: String::from_str("UDP Filter"), port: PORT_RANGE.1 });
    r
}

/// What the consumer gets for one poll of the kernel monitor's packet stream:
/// the payload of the next packet, or the end of capture once the stream has
/// terminated.
pub fn packet_from_stream_item(item: Option<Vec<u8>>) -> (r: Result<Vec<u8>>)
    ensures
        match item {
            Some(p) => r == Ok::<Vec<u8>, CaptureError>(p),
            None => r is Err && r->Err_0 is CaptureClosed,
        },
{
    match item {
        Some(p) => Ok(p),
        None => Err(CaptureError::CaptureClosed),
    }
}

} // verus!
