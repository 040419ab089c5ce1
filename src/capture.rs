use vstd::prelude::*;
use vstd::string::*;

use crate::text::push_str;

pub mod kernel_monitor;
pub mod multi_device;

verus! {

/// The two adjacent UDP ports that the game traffic uses.
pub const PORT_RANGE: (u16, u16) = (22101, 22102);

/// Why a capture backend could not deliver a packet.
#[derive(Debug, PartialEq, Eq)]
pub enum CaptureError {
    /// The capture filter could not be compiled or applied.
    Filter(String),
    /// The capture session failed; `has_captured` tells whether it had delivered
    /// at least one packet before.
    Capture { has_captured: bool, error: String },
    /// The capture stream ended normally.
    CaptureClosed,
    /// The consumer dropped its end of the packet queue.
    ChannelClosed,
}

/// Which strategy obtains the raw packets.
#[derive(Clone, Copy, Debug, PartialEq, Eq, Structural)]
pub enum BackendType {
    /// One kernel packet-monitor session filtered to the two ports.
    Pktmon,
    /// One capture per connected network device, merged into one queue.
    Pcap,
}

pub type Result<T> = core::result::Result<T, CaptureError>;

pub open spec fn bool_text(b: bool) -> Seq<char> {
    if b {
        "true"@
    } else {
        "false"@
    }
}

impl CaptureError {
    /// The human-readable account of the error.
    pub open spec fn description(&self) -> Seq<char> {
        match self {
            CaptureError::Filter(e) => "Filter error: "@ + e@,
            CaptureError::Capture { has_captured, error } => "Capture error (has_captured = "@
                + bool_text(*has_captured) + "): "@ + error@,
            CaptureError::CaptureClosed => "Capture closed"@,
            CaptureError::ChannelClosed => "Channel closed"@,
        }
    }

    /// Renders the error for a log line or a message to the user.
    pub fn describe(&self) -> (r: String)
        ensures
            r@ == self.description(),
    {
        match self {
            CaptureError::Filter(e) => {
                let mut s = String::from_str("Filter error: ");
                push_str(&mut s, e.as_str());
                s
            },
            CaptureError::Capture { has_captured, error } => {
                let mut s = String::from_str("Capture error (has_captured = ");
                if *has_captured {
                    push_str(&mut s, "true");
                } else {
                    push_str(&mut s, "false");
                }
                push_str(&mut s, "): ");
                push_str(&mut s, error.as_str());
                s
            },
            CaptureError::CaptureClosed => String::from_str("Capture closed"),
            CaptureError::ChannelClosed => String::from_str("Channel closed"),
        }
    }
}

/// The step of a capture setup that failed.
#[derive(Clone, Copy, Debug, PartialEq, Eq, Structural)]
pub enum SetupStage {
    /// Opening the capture session or device handle.
    OpenSession,
    /// Installing the packet filter on it.
    InstallFilter,
}

/// The error for a failed setup step: a filter that could not be installed is
/// a filter error; a session that could not be opened never captured.
pub fn setup_failure(stage: SetupStage, cause: String) -> (r: CaptureError)
    ensures
        stage == SetupStage::InstallFilter ==> r == CaptureError::Filter(cause),
        stage == SetupStage::OpenSession ==> r == (CaptureError::Capture { has_captured: false, error: cause }),
{
    match stage {
        SetupStage::OpenSession => CaptureError::Capture { has_captured: false, error: cause },
        SetupStage::InstallFilter => CaptureError::Filter(cause),
    }
}

pub open spec fn unsupported_kernel_monitor_cause() -> Seq<char> {
    "Pktmon capture not supported on this operating system"@
}

/// Settles which backend is to be constructed. The kernel monitor exists only
/// where `kernel_monitor_supported` holds; asking for it elsewhere is a setup
/// failure. The backend asked for is the only one ever chosen.
pub fn create_capture(backend: BackendType, kernel_monitor_supported: bool) -> (r: Result<BackendType>)
    ensures
        backend == BackendType::Pktmon && !kernel_monitor_supported ==> (match r {
            Err(CaptureError::Capture { has_captured, error }) => !has_captured && error@
                == unsupported_kernel_monitor_cause(),
            _ => false,
        }),
        backend == BackendType::Pcap || kernel_monitor_supported ==> r == Ok::<BackendType, CaptureError>(backend),
{
    match backend {
        BackendType::Pktmon => {
            if kernel_monitor_supported {
                Ok(BackendType::Pktmon)
            } else {
                Err(
                    CaptureError::Capture {
                        has_captured: false,
                        error: String::from_str("Pktmon capture not supported on this operating system"),
                    },
                )
            }
        },
        BackendType::Pcap => Ok(BackendType::Pcap),
    }
}

} // verus!
