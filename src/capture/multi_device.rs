use vstd::prelude::*;
use vstd::string::*;

use crate::capture::{CaptureError, Result, PORT_RANGE};
use crate::text::{decimal, push_decimal, push_str};

verus! {

/// Link state that the operating system reports for a network device.
#[derive(Clone, Copy, Debug, PartialEq, Eq, Structural)]
pub enum LinkStatus {
    Unknown,
    Connected,
    Disconnected,
    NotApplicable,
}

/// What the backend knows of one enumerated network device.
#[derive(Clone, Debug)]
pub struct DeviceDescriptor {
    pub name: String,
    pub desc: Option<String>,
    pub status: LinkStatus,
}

/// Only devices with an active link are ever tried.
pub open spec fn is_candidate(d: DeviceDescriptor) -> bool {
    d.status == LinkStatus::Connected
}

pub open spec fn identifier_of(d: DeviceDescriptor) -> Seq<char> {
    let desc = match d.desc {
        Some(s) => s@,
        None => "None"@,
    };
    d.name@ + " (desc "@ + desc + ")"@
}

/// Indices, in increasing order, of the first `n` devices that are candidates
/// and whose capture setup worked.
pub open spec fn working_prefix(devices: Seq<DeviceDescriptor>, works: Seq<bool>, n: nat) -> Seq<usize>
    decreases n,
{
    if n == 0 {
        Seq::empty()
    } else {
        let rest = working_prefix(devices, works, (n - 1) as nat);
        if is_candidate(devices[n - 1]) && works[n - 1] {
            rest.push((n - 1) as usize)
        } else {
            rest
        }
    }
}

/// Indices, in increasing order, of the candidates among the first `n` devices.
pub open spec fn candidate_prefix(devices: Seq<DeviceDescriptor>, n: nat) -> Seq<usize>
    decreases n,
{
    if n == 0 {
        Seq::empty()
    } else {
        let rest = candidate_prefix(devices, (n - 1) as nat);
        if is_candidate(devices[n - 1]) {
            rest.push((n - 1) as usize)
        } else {
            rest
        }
    }
}

pub open spec fn no_device_cause() -> Seq<char> {
    "No capture device available"@
}

/// The capture filter installed on every device: UDP on the game's port range.
pub open spec fn filter_text() -> Seq<char> {
    "udp and portrange "@ + decimal(PORT_RANGE.0 as nat) + "-"@ + decimal(PORT_RANGE.1 as nat)
}

/// Names a device in log lines: its name and its description, if any.
pub fn device_identifier(device: &DeviceDescriptor) -> (r: String)
    ensures
        r@ == identifier_of(*device),
{
    let mut s = device.name.clone();
    push_str(&mut s, " (desc ");
    match &device.desc {
        Some(d) => push_str(&mut s, d.as_str()),
        None => push_str(&mut s, "None"),
    }
    push_str(&mut s, ")");
    s
}

/// Whether capture is to be attempted on the device at all.
pub fn should_capture_on_device(device: &DeviceDescriptor) -> (r: bool)
    ensures
        r == is_candidate(*device),
{
    device.status == LinkStatus::Connected
}

/// The filter expression handed to each device's capture.
pub fn filter_expression() -> (r: String)
    ensures
        r@ == filter_text(),
{
    let mut s = String::from_str("udp and portrange ");
    push_decimal(&mut s, PORT_RANGE.0);
    push_str(&mut s, "-");
    push_decimal(&mut s, PORT_RANGE.1);
    s
}

/// The devices, by index, on which capture setup is to be attempted.
pub fn capture_candidates(devices: &Vec<DeviceDescriptor>) -> (r: Vec<usize>)
    ensures
        r@ == candidate_prefix(devices@, devices@.len()),
{
    let mut r: Vec<usize> = Vec::new();
    let mut i: usize = 0;
    while i < devices.len()
        invariant
            i <= devices@.len(),
            r@ == candidate_prefix(devices@, i as nat),
        decreases devices@.len() - i,
    {
        if should_capture_on_device(&devices[i]) {
            r.push(i);
        }
        i += 1;
    }
    r
}

/// Concludes the multi-device setup once capture was attempted on the
/// candidates: `works[i]` tells whether device `i` accepted its capture and
/// filter (a device never attempted counts as not working). The backend runs
/// on every candidate that works; with none, construction fails.
pub fn conclude_setup(devices: &Vec<DeviceDescriptor>, works: &Vec<bool>) -> (r: Result<Vec<usize>>)
    requires
        works@.len() == devices@.len(),
    ensures
        working_prefix(devices@, works@, devices@.len()).len() > 0 ==> r is Ok && r->Ok_0@
            == working_prefix(devices@, works@, devices@.len()),
        working_prefix(devices@, works@, devices@.len()).len() == 0 ==> (match r {
            Err(CaptureError::Capture { has_captured, error }) => !has_captured && error@ == no_device_cause(),
            _ => false,
        }),
{
    let mut chosen: Vec<usize> = Vec::new();
    let mut i: usize = 0;
    while i < devices.len()
        invariant
            i <= devices@.len(),
            works@.len() == devices@.len(),
            chosen@ == working_prefix(devices@, works@, i as nat),
        decreases devices@.len() - i,
    {
        if should_capture_on_device(&devices[i]) && works[i] {
            chosen.push(i);
        }
        i += 1;
    }
    if chosen.len() == 0 {
        Err(
            CaptureError::Capture {
                has_captured: false,
                error: String::from_str("No capture device available"),
            },
        )
    } else {
        Ok(chosen)
    }
}

/// What one blocking read on a device produced.
#[derive(Debug)]
pub enum ReadOutcome {
    /// The payload of the next captured frame.
    Packet(Vec<u8>),
    /// The device's capture failed, with its cause.
    Failed(String),
}

/// [`ReadOutcome`] as a value of specification.
pub enum ReadModel {
    Packet(Seq<u8>),
    Failed(Seq<char>),
}

impl View for ReadOutcome {
    type V = ReadModel;

    open spec fn view(&self) -> ReadModel {
        match self {
            ReadOutcome::Packet(p) => ReadModel::Packet(p@),
            ReadOutcome::Failed(c) => ReadModel::Failed(c@),
        }
    }
}

/// An item that a capture thread pushes onto the queue, as a value of
/// specification.
pub enum Emission {
    Packet(Seq<u8>),
    Error { has_captured: bool, cause: Seq<char> },
    Other,
}

pub open spec fn emission_of(item: Result<Vec<u8>>) -> Emission {
    match item {
        Ok(p) => Emission::Packet(p@),
        Err(CaptureError::Capture { has_captured, error }) => Emission::Error { has_captured, cause: error@ },
        Err(_) => Emission::Other,
    }
}

/// What a read makes the thread push, `has_captured` telling whether the
/// device delivered a packet before.
pub open spec fn read_emission(has_captured: bool, read: ReadModel) -> Emission {
    match read {
        ReadModel::Packet(p) => Emission::Packet(p),
        ReadModel::Failed(cause) => Emission::Error { has_captured, cause },
    }
}

/// One turn of a capture thread: a read, then the push of what it gave.
pub struct LoopTurn {
    pub read: ReadModel,
    /// Whether the queue took the push.
    pub delivered: bool,
}

/// What a capture thread pushes over successive turns, `has_captured` telling
/// whether its device delivered a packet before the first of them. The thread
/// stops after a failed read or a refused push.
pub open spec fn run_emissions(has_captured: bool, turns: Seq<LoopTurn>) -> Seq<Emission>
    decreases turns.len(),
{
    if turns.len() == 0 {
        Seq::empty()
    } else {
        let e = read_emission(has_captured, turns[0].read);
        if turns[0].read is Failed || !turns[0].delivered {
            seq![e]
        } else {
            seq![e] + run_emissions(true, turns.skip(1))
        }
    }
}

/// The decisions of one device's capture thread. The thread reads a packet,
/// hands it to [`PacketLoop::on_read`], pushes what comes back onto the shared
/// queue and reports the push to [`PacketLoop::on_push`], until the loop says
/// to stop.
pub struct PacketLoop {
    pub has_captured: bool,
    pub finished: bool,
    /// How many packets this device has delivered so far.
    pub packets_read: Ghost<nat>,
}

impl PacketLoop {
    pub open spec fn wf(&self) -> bool {
        self.has_captured <==> self.packets_read@ > 0
    }

    /// A loop for a device that has delivered nothing yet.
    pub fn new() -> (r: PacketLoop)
        ensures
            r.wf(),
            !r.has_captured,
            !r.finished,
            r.packets_read@ == 0,
    {
        PacketLoop { has_captured: false, finished: false, packets_read: Ghost(0) }
    }

    /// The item to push for a read. A packet is forwarded as it is; a failed
    /// read becomes the device's one capture error, which says whether the
    /// device had delivered anything, and ends the loop.
    pub fn on_read(&mut self, outcome: ReadOutcome) -> (item: Result<Vec<u8>>)
        requires
            old(self).wf(),
            !old(self).finished,
        ensures
            final(self).wf(),
            emission_of(item) == read_emission(old(self).has_captured, outcome@),
            final(self).finished == (outcome is Failed),
            match outcome {
                ReadOutcome::Packet(p) => {
                    &&& item == Ok::<Vec<u8>, CaptureError>(p)
                    &&& final(self).has_captured
                    &&& !final(self).finished
                    &&& final(self).packets_read@ == old(self).packets_read@ + 1
                },
                ReadOutcome::Failed(cause) => {
                    &&& (match item {
                        Err(CaptureError::Capture { has_captured, error }) => has_captured == (
                        old(self).packets_read@ > 0) && error == cause,
                        _ => false,
                    })
                    &&& final(self).finished
                    &&& final(self).has_captured == old(self).has_captured
                    &&& final(self).packets_read == old(self).packets_read
                },
            },
    {
        match outcome {
            ReadOutcome::Packet(p) => {
                self.has_captured = true;
                self.packets_read = Ghost(self.packets_read@ + 1);
                Ok(p)
            },
            ReadOutcome::Failed(cause) => {
                self.finished = true;
                Err(CaptureError::Capture { has_captured: self.has_captured, error: cause })
            },
        }
    }

    /// Takes note of the push of the last item and tells whether to read
    /// again. A push that the queue refused means that the consumer is gone:
    /// the loop ends, with nothing more to push.
    pub fn on_push(&mut self, delivered: bool) -> (go_on: bool)
        requires
            old(self).wf(),
        ensures
            final(self).wf(),
            final(self).finished == (old(self).finished || !delivered),
            final(self).has_captured == old(self).has_captured,
            final(self).packets_read == old(self).packets_read,
            go_on == !final(self).finished,
    {
        if !delivered {
            self.finished = true;
        }
        !self.finished
    }
}

/// What the consumer gets for one receive on the shared queue: the item that
/// a capture thread pushed, or, once every thread has gone and the queue is
/// drained, the end of capture.
pub fn packet_from_queue_item(item: Option<Result<Vec<u8>>>) -> (r: Result<Vec<u8>>)
    ensures
        match item {
            Some(x) => r == x,
            None => r is Err && r->Err_0 is CaptureClosed,
        },
{
    match item {
        Some(x) => x,
        None => Err(CaptureError::CaptureClosed),
    }
}

/// Multi-device construction succeeds exactly when some enumerated device has
/// an active link and accepted its capture and filter; it then runs on those
/// devices and no other.
pub proof fn lemma_setup_succeeds_iff_some_device_works(devices: Seq<DeviceDescriptor>, works: Seq<bool>)
    requires
        works.len() == devices.len(),
        devices.len() <= usize::MAX,
    ensures
        working_prefix(devices, works, devices.len()).len() > 0 <==> exists|i: int|
            0 <= i < devices.len() && is_candidate(#[trigger] devices[i]) && works[i],
        forall|k: int|
            0 <= k < working_prefix(devices, works, devices.len()).len() ==> {
                let i = #[trigger] working_prefix(devices, works, devices.len())[k] as int;
                0 <= i < devices.len() && is_candidate(devices[i]) && works[i]
            },
{
    lemma_working_prefix(devices, works, devices.len());
}

proof fn lemma_working_prefix(devices: Seq<DeviceDescriptor>, works: Seq<bool>, n: nat)
    requires
        works.len() == devices.len(),
        n <= devices.len() <= usize::MAX,
    ensures
        working_prefix(devices, works, n).len() > 0 <==> exists|i: int|
            0 <= i < n && is_candidate(#[trigger] devices[i]) && works[i],
        forall|k: int|
            0 <= k < working_prefix(devices, works, n).len() ==> {
                let i = #[trigger] working_prefix(devices, works, n)[k] as int;
                0 <= i < n && is_candidate(devices[i]) && works[i]
            },
    decreases n,
{
    if n > 0 {
        lemma_working_prefix(devices, works, (n - 1) as nat);
        let rest = working_prefix(devices, works, (n - 1) as nat);
        if is_candidate(devices[n - 1]) && works[n - 1] {
            assert(working_prefix(devices, works, n).len() > 0);
            assert forall|k: int| 0 <= k < working_prefix(devices, works, n).len() implies {
                let i = #[trigger] working_prefix(devices, works, n)[k] as int;
                0 <= i < n && is_candidate(devices[i]) && works[i]
            } by {
                if k < rest.len() {
                    assert(working_prefix(devices, works, n)[k] == rest[k]);
                } else {
                    assert(working_prefix(devices, works, n)[k] == (n - 1) as usize);
                }
            }
        } else {
            if exists|i: int| 0 <= i < n && is_candidate(#[trigger] devices[i]) && works[i] {
                let i = choose|i: int| 0 <= i < n && is_candidate(#[trigger] devices[i]) && works[i];
                assert(i < n - 1);
            }
        }
    }
}

/// A capture thread pushes each packet it reads, in the order read, and
/// nothing after a push that the queue refused. A failed read gives exactly one
/// capture error, the last item the thread pushes, and it says whether the
/// device had delivered a packet before.
pub proof fn lemma_capture_thread_run(turns: Seq<LoopTurn>)
    ensures
        run_emissions(false, turns).len() <= turns.len(),
        forall|k: int|
            0 <= k < run_emissions(false, turns).len() ==> #[trigger] run_emissions(false, turns)[k]
                == read_emission(k > 0, turns[k].read),
        forall|k: int|
            0 <= k < run_emissions(false, turns).len() && (run_emissions(false, turns)[k] is Error
                || !turns[k].delivered) ==> k == run_emissions(false, turns).len() - 1,
        forall|k: int|
            0 <= k < turns.len() && (turns[k].read is Failed || !turns[k].delivered) && (forall|j: int|
                0 <= j < k ==> !(#[trigger] turns[j].read is Failed) && turns[j].delivered)
                ==> run_emissions(false, turns).len() == k + 1,
{
    lemma_run_emissions(false, turns);
}

proof fn lemma_run_emissions(has_captured: bool, turns: Seq<LoopTurn>)
    ensures
        run_emissions(has_captured, turns).len() <= turns.len(),
        forall|k: int|
            0 <= k < run_emissions(has_captured, turns).len() ==> #[trigger] run_emissions(
                has_captured,
                turns,
            )[k] == read_emission(has_captured || k > 0, turns[k].read),
        forall|k: int|
            0 <= k < run_emissions(has_captured, turns).len() && (run_emissions(has_captured, turns)[k] is Error
                || !turns[k].delivered) ==> k == run_emissions(has_captured, turns).len() - 1,
        forall|k: int|
            0 <= k < turns.len() && (turns[k].read is Failed || !turns[k].delivered) && (forall|j: int|
                0 <= j < k ==> !(#[trigger] turns[j].read is Failed) && turns[j].delivered)
                ==> run_emissions(has_captured, turns).len() == k + 1,
    decreases turns.len(),
{
    if turns.len() > 0 {
        let rest = turns.skip(1);
        lemma_run_emissions(true, rest);
        let out = run_emissions(has_captured, turns);
        if !(turns[0].read is Failed || !turns[0].delivered) {
            let tail = run_emissions(true, rest);
            assert(out == seq![read_emission(has_captured, turns[0].read)] + tail);
            assert forall|k: int| 0 <= k < out.len() implies #[trigger] out[k] == read_emission(
                has_captured || k > 0,
                turns[k].read,
            ) by {
                if k > 0 {
                    assert(out[k] == tail[k - 1]);
                    assert(rest[k - 1] == turns[k]);
                }
            }
            assert forall|k: int|
                0 <= k < out.len() && (out[k] is Error || !turns[k].delivered) implies k == out.len() - 1 by {
                if k > 0 {
                    assert(out[k] == tail[k - 1]);
                    assert(rest[k - 1] == turns[k]);
                } else {
                    assert(out[0] == read_emission(has_captured, turns[0].read));
                }
            }
            assert forall|k: int|
                0 <= k < turns.len() && (turns[k].read is Failed || !turns[k].delivered) && (forall|j: int|
                    0 <= j < k ==> !(#[trigger] turns[j].read is Failed) && turns[j].delivered)
                    implies out.len() == k + 1 by {
                if k > 0 {
                    assert(rest[k - 1] == turns[k]);
                    assert forall|j: int| 0 <= j < k - 1 implies !(#[trigger] rest[j].read is Failed)
                        && rest[j].delivered by {
                        assert(rest[j] == turns[j + 1]);
                    }
                }
            }
        }
    }
}

} // verus!
