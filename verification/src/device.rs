//! One meter on the line: its address, its cached identifier and reading,
//! and the cycle that polls it.

use vstd::prelude::*;
use crate::codec::{
    build_request, decode_consumption, decode_spec, request_frame, Decoded, Reading,
};
use crate::error::PollError;
use crate::link::{
    received_spec, reconfigured_spec, sent_spec, LinkAction, LinkChannel, LinkChannelView,
    LinkEvent, MAX_RESPONSE_LEN,
};

verus! {

/// Function code of the request that a poll sends.
pub const POLL_FUNCTION_CODE: u8 = 5;

/// Parameter of the request that a poll sends: the first tariff.
pub const POLL_PARAM: u16 = 1;

/// Length of an identifier in its canonical form.
pub const IDENTIFIER_LEN: usize = 36;

/// One physical meter.
pub struct Device {
    address: u8,
    identifier: Option<String>,
    last_reading: Option<Reading>,
    name: Option<String>,
    serial_number: Option<String>,
    last_verification: Option<u64>,
    verification_interval: Option<u64>,
}

/// Mathematical content of a `Device`.
pub struct DeviceView {
    pub address: u8,
    pub identifier: Option<Seq<char>>,
    pub last_reading: Option<Reading>,
    pub name: Option<Seq<char>>,
    pub serial_number: Option<Seq<char>>,
    pub last_verification: Option<u64>,
    pub verification_interval: Option<u64>,
}

/// Where a poll cycle stands. Decoding has no phase of its own: it happens
/// within the step that takes the response.
#[derive(Clone, Copy, Debug, PartialEq, Eq, Structural)]
pub enum PollPhase {
    /// No exchange in flight.
    Idle,
    /// The link is being reconfigured.
    Configuring,
    /// The request is being written.
    Sending,
    /// The response is being awaited.
    AwaitingResponse,
}

/// How one device's poll cycle ended.
#[derive(Clone, Copy, Debug, PartialEq, Eq, Structural)]
pub enum PollOutcome {
    /// The reply was decoded and is now the device's last reading.
    Updated(Reading),
    /// The request was none that decoding interprets; nothing changed.
    NoUpdate,
    /// The cycle failed; nothing changed.
    Failed(PollError),
}

/// What a step of a poll cycle asks for.
#[derive(Clone, Copy, Debug, PartialEq, Eq, Structural)]
pub enum PollStep {
    /// Perform this action on the link and report the answer.
    Perform(LinkAction),
    /// The cycle is over.
    Finished(PollOutcome),
}

/// The state of one poll cycle: its phase and the request in flight.
pub struct PollCycle {
    phase: PollPhase,
    request: Vec<u8>,
}

/// Mathematical content of a `PollCycle`.
pub struct PollCycleView {
    pub phase: PollPhase,
    pub request: Seq<u8>,
}

/// Device, channel and cycle after a step, and what the step asks for.
pub struct PollTransition {
    pub device: DeviceView,
    pub channel: LinkChannelView,
    pub cycle: PollCycleView,
    pub step: PollStep,
}

/// The characters of an optional text.
pub open spec fn text_view(text: Option<String>) -> Option<Seq<char>> {
    match text {
        Some(s) => Some(s@),
        None => None,
    }
}

impl View for Device {
    type V = DeviceView;

    closed spec fn view(&self) -> DeviceView {
        DeviceView {
            address: self.address,
            identifier: text_view(self.identifier),
            last_reading: self.last_reading,
            name: text_view(self.name),
            serial_number: text_view(self.serial_number),
            last_verification: self.last_verification,
            verification_interval: self.verification_interval,
        }
    }
}

impl View for PollCycle {
    type V = PollCycleView;

    closed spec fn view(&self) -> PollCycleView {
        PollCycleView { phase: self.phase, request: self.request@ }
    }
}

/// A device as it is created: no identifier, no reading, no metadata.
pub open spec fn new_device(address: u8) -> DeviceView {
    DeviceView {
        address,
        identifier: None,
        last_reading: None,
        name: None,
        serial_number: None,
        last_verification: None,
        verification_interval: None,
    }
}

/// A cycle with nothing in flight.
pub open spec fn idle_cycle() -> PollCycleView {
    PollCycleView { phase: PollPhase::Idle, request: Seq::empty() }
}

/// Whether `c` is a digit of lower-case hexadecimal.
pub open spec fn is_lower_hex(c: char) -> bool {
    ('0' <= c && c <= '9') || ('a' <= c && c <= 'f')
}

/// The canonical form of a random 128-bit identifier: 36 characters, hyphens
/// after the 8th, 12th, 16th and 20th digit, lower-case hexadecimal digits
/// elsewhere, and the version digit 4.
pub open spec fn is_canonical_identifier(text: Seq<char>) -> bool {
    &&& text.len() == IDENTIFIER_LEN
    &&& forall|i: int|
        0 <= i < text.len() ==> if i == 8 || i == 13 || i == 18 || i == 23 {
            text[i] == '-'
        } else {
            is_lower_hex(#[trigger] text[i])
        }
    &&& text[14] == '4'
}

/// Device after `identifier` or `adopt_identifier` with the candidate
/// `candidate`, and the identifier handed out: the cached one if there is
/// one, else the candidate, which is then cached.
pub open spec fn identifier_spec(device: DeviceView, candidate: Seq<char>) -> (
    DeviceView,
    Seq<char>,
) {
    match device.identifier {
        Some(cached) => (device, cached),
        None => (DeviceView { identifier: Some(candidate), ..device }, candidate),
    }
}

/// Device after interpreting `response` as the answer to `request`, and the
/// outcome. Only a decoded reading changes the device.
pub open spec fn interpret_spec(device: DeviceView, request: Seq<u8>, response: Seq<u8>) -> (
    DeviceView,
    PollOutcome,
) {
    match decode_spec(request, response) {
        Ok(Decoded::Reading(reading)) => (
            DeviceView { last_reading: Some(reading), ..device },
            PollOutcome::Updated(reading),
        ),
        Ok(Decoded::NoUpdate) => (device, PollOutcome::NoUpdate),
        Err(e) => (device, PollOutcome::Failed(e)),
    }
}

/// The request that polls the device at `address`.
pub open spec fn poll_request(address: u8) -> Seq<u8> {
    request_frame(address, POLL_FUNCTION_CODE, POLL_PARAM)
}

/// One step of a device's poll cycle: from the phase and the answer `event`
/// to the action in flight, to the next phase and what to do next.
///
/// A cycle runs `Configuring`, `Sending`, `AwaitingResponse` and back to
/// `Idle`. A failure in any phase ends the cycle at once.
pub open spec fn poll_spec(
    device: DeviceView,
    channel: LinkChannelView,
    cycle: PollCycleView,
    event: LinkEvent,
) -> PollTransition {
    match cycle.phase {
        PollPhase::Idle => PollTransition {
            device,
            channel,
            cycle: idle_cycle(),
            step: PollStep::Finished(PollOutcome::Failed(PollError::UnexpectedEvent)),
        },
        PollPhase::Configuring => {
            let (channel_after, verdict) = reconfigured_spec(channel, event);
            match verdict {
                Ok(_) => PollTransition {
                    device,
                    channel: channel_after,
                    cycle: PollCycleView {
                        phase: PollPhase::Sending,
                        request: poll_request(device.address),
                    },
                    step: PollStep::Perform(LinkAction::Send),
                },
                Err(e) => PollTransition {
                    device,
                    channel: channel_after,
                    cycle: idle_cycle(),
                    step: PollStep::Finished(PollOutcome::Failed(e)),
                },
            }
        },
        PollPhase::Sending => match sent_spec(cycle.request.len(), event) {
            Ok(_) => PollTransition {
                device,
                channel,
                cycle: PollCycleView { phase: PollPhase::AwaitingResponse, request: cycle.request },
                step: PollStep::Perform(LinkAction::Receive { max_len: MAX_RESPONSE_LEN }),
            },
            Err(e) => PollTransition {
                device,
                channel,
                cycle: idle_cycle(),
                step: PollStep::Finished(PollOutcome::Failed(e)),
            },
        },
        PollPhase::AwaitingResponse => match received_spec(event) {
            Ok(response) => {
                let (device_after, outcome) = interpret_spec(device, cycle.request, response);
                PollTransition {
                    device: device_after,
                    channel,
                    cycle: idle_cycle(),
                    step: PollStep::Finished(outcome),
                }
            },
            Err(e) => PollTransition {
                device,
                channel,
                cycle: idle_cycle(),
                step: PollStep::Finished(PollOutcome::Failed(e)),
            },
        },
    }
}

/// Calls `uuid::Uuid::new_v4` and renders the result with its `Display`.
///
/// Trusted: whatever the random bits, the text is the hyphenated lower-case
/// form of a version 4 identifier. The outside function panics if the
/// operating system cannot supply random bytes.
#[verifier::external_body]
fn fresh_identifier() -> (text: String)
    ensures
        is_canonical_identifier(text@),
{
    uuid::Uuid::new_v4().to_string()
}

impl PollCycle {
    /// A cycle with nothing in flight.
    pub fn new() -> (cycle: PollCycle)
        ensures
            cycle@ == idle_cycle(),
    {
        PollCycle { phase: PollPhase::Idle, request: Vec::new() }
    }

    /// Where the cycle stands.
    pub fn phase(&self) -> (phase: PollPhase)
        ensures
            phase == self@.phase,
    {
        self.phase
    }

    /// The request in flight; empty outside `Sending` and `AwaitingResponse`.
    pub fn request(&self) -> (request: &Vec<u8>)
        ensures
            request@ == self@.request,
    {
        &self.request
    }
}

impl Device {
    /// A device at `address`, with no identifier, reading or metadata yet.
    pub fn new(address: u8) -> (device: Device)
        ensures
            device@ == new_device(address),
    {
        Device {
            address,
            identifier: None,
            last_reading: None,
            name: None,
            serial_number: None,
            last_verification: None,
            verification_interval: None,
        }
    }

    /// Address of the device on the line.
    pub fn address(&self) -> (address: u8)
        ensures
            address == self@.address,
    {
        self.address
    }

    /// Kind of meter that this type speaks to.
    pub fn model_name() -> (name: &'static str)
        ensures
            name@ == "IMercury230"@,
    {
        "IMercury230"
    }

    /// The identifier of the device if one is cached, else `candidate`, which
    /// is cached from then on.
    pub fn adopt_identifier(&mut self, candidate: String) -> (identifier: String)
        ensures
            (final(self)@, identifier@) == identifier_spec(old(self)@, candidate@),
    {
        match &self.identifier {
            Some(cached) => cached.clone(),
            None => {
                let identifier = candidate.clone();
                self.identifier = Some(candidate);
                identifier
            },
        }
    }

    /// The identifier of the device: generated at random on the first call,
    /// cached, and the same on every later call.
    pub fn identifier(&mut self) -> (identifier: String)
        ensures
            (final(self)@, identifier@) == identifier_spec(old(self)@, identifier@),
            old(self)@.identifier is None ==> is_canonical_identifier(identifier@),
    {
        match &self.identifier {
            Some(cached) => cached.clone(),
            None => {
                let candidate = fresh_identifier();
                self.adopt_identifier(candidate)
            },
        }
    }

    /// The last reading, if any poll has produced one.
    pub fn consumption(&self) -> (reading: Option<Reading>)
        ensures
            reading == self@.last_reading,
    {
        self.last_reading
    }

    /// Name of the meter, if set.
    pub fn name(&self) -> (name: Option<String>)
        ensures
            text_view(name) == self@.name,
    {
        match &self.name {
            Some(text) => Some(text.clone()),
            None => None,
        }
    }

    /// Serial number of the meter, if set.
    pub fn serial_number(&self) -> (serial_number: Option<String>)
        ensures
            text_view(serial_number) == self@.serial_number,
    {
        match &self.serial_number {
            Some(text) => Some(text.clone()),
            None => None,
        }
    }

    /// Performs a verification of the meter. Nothing needs doing.
    pub fn verification(&self) -> (result: Result<(), PollError>)
        ensures
            result is Ok,
    {
        Ok(())
    }

    /// When the meter was last verified, in seconds, if known.
    pub fn last_verification(&self) -> (seconds: Option<u64>)
        ensures
            seconds == self@.last_verification,
    {
        self.last_verification
    }

    /// How often the meter is to be verified, in seconds, if set.
    pub fn verification_interval(&self) -> (seconds: Option<u64>)
        ensures
            seconds == self@.verification_interval,
    {
        self.verification_interval
    }

    /// Accepts a verification interval. This kind of meter keeps none: the
    /// call succeeds and changes nothing.
    pub fn set_verification_interval(&mut self, seconds: u64) -> (result: Result<(), PollError>)
        ensures
            result is Ok,
            final(self)@ == old(self)@,
    {
        Ok(())
    }

    /// Mains frequency on `phase`, if the meter reports it. This kind does not.
    pub fn frequencies(&self, phase: i32) -> (frequency: Option<i32>)
        ensures
            frequency is None,
    {
        None
    }

    /// Interprets `response` as the answer to `request`. A decoded reading
    /// becomes the last reading; anything else leaves the device as it was.
    pub fn interpret(&mut self, request: &[u8], response: &[u8]) -> (outcome: PollOutcome)
        ensures
            (final(self)@, outcome) == interpret_spec(old(self)@, request@, response@),
    {
        match decode_consumption(request, response) {
            Ok(Decoded::Reading(reading)) => {
                self.last_reading = Some(reading);
                PollOutcome::Updated(reading)
            },
            Ok(Decoded::NoUpdate) => PollOutcome::NoUpdate,
            Err(e) => PollOutcome::Failed(e),
        }
    }

    /// Begins a poll cycle: the first action is to reconfigure the link.
    pub fn poll(&self, channel: &LinkChannel) -> (begun: (PollCycle, LinkAction))
        ensures
            begun.0@ == (PollCycleView { phase: PollPhase::Configuring, request: Seq::empty() }),
            begun.1 == (LinkAction::Reconfigure { open_port: !channel@.open }),
    {
        (PollCycle { phase: PollPhase::Configuring, request: Vec::new() }, channel.reconfigure())
    }

    /// Takes the answer `event` to the action in flight and moves the cycle on.
    pub fn advance_poll(
        &mut self,
        channel: &mut LinkChannel,
        cycle: &mut PollCycle,
        event: LinkEvent,
    ) -> (step: PollStep)
        ensures
            (PollTransition {
                device: final(self)@,
                channel: final(channel)@,
                cycle: final(cycle)@,
                step,
            }) == poll_spec(old(self)@, old(channel)@, old(cycle)@, event),
    {
        match cycle.phase {
            PollPhase::Idle => {
                cycle.request = Vec::new();
                PollStep::Finished(PollOutcome::Failed(PollError::UnexpectedEvent))
            },
            PollPhase::Configuring => {
                match channel.reconfigured(&event) {
                    Ok(_) => {
                        cycle.phase = PollPhase::Sending;
                        cycle.request = build_request(self.address, POLL_FUNCTION_CODE, POLL_PARAM);
                        PollStep::Perform(LinkAction::Send)
                    },
                    Err(e) => {
                        cycle.phase = PollPhase::Idle;
                        cycle.request = Vec::new();
                        PollStep::Finished(PollOutcome::Failed(e))
                    },
                }
            },
            PollPhase::Sending => {
                match LinkChannel::sent(cycle.request.len(), &event) {
                    Ok(_) => {
                        cycle.phase = PollPhase::AwaitingResponse;
                        PollStep::Perform(LinkChannel::receive())
                    },
                    Err(e) => {
                        cycle.phase = PollPhase::Idle;
                        cycle.request = Vec::new();
                        PollStep::Finished(PollOutcome::Failed(e))
                    },
                }
            },
            PollPhase::AwaitingResponse => {
                let outcome = match LinkChannel::received(event) {
                    Ok(response) => self.interpret(cycle.request.as_slice(), response.as_slice()),
                    Err(e) => PollOutcome::Failed(e),
                };
                cycle.phase = PollPhase::Idle;
                cycle.request = Vec::new();
                PollStep::Finished(outcome)
            },
        }
    }
}

/// Asking a device for its identifier twice gives the same text both times,
/// and the second call changes nothing, whatever candidates were on offer.
pub proof fn law_identifier_is_stable(device: DeviceView, first: Seq<char>, second: Seq<char>)
    ensures
        ({
            let (after_first, handed_first) = identifier_spec(device, first);
            let (after_second, handed_second) = identifier_spec(after_first, second);
            &&& handed_second == handed_first
            &&& after_second == after_first
            &&& after_first.identifier == Some(handed_first)
        }),
{
}

/// Interpreting an exchange changes a device only by a decoded reading, which
/// becomes its last reading. Any other outcome leaves the device as it was.
pub proof fn law_interpret_changes_only_the_reading(
    device: DeviceView,
    request: Seq<u8>,
    response: Seq<u8>,
)
    ensures
        ({
            let (after, outcome) = interpret_spec(device, request, response);
            match outcome {
                PollOutcome::Updated(reading) => after == (DeviceView {
                    last_reading: Some(reading),
                    ..device
                }),
                _ => after == device,
            }
        }),
{
}

/// A step of a poll cycle changes the device only when it ends the cycle with
/// a decoded reading. A step that ends the cycle leaves it idle, and a cycle
/// that fails while configuring, sending or awaiting the response ends at
/// once with the device untouched.
pub proof fn law_poll_changes_only_the_reading(
    device: DeviceView,
    channel: LinkChannelView,
    cycle: PollCycleView,
    event: LinkEvent,
)
    ensures
        ({
            let moved = poll_spec(device, channel, cycle, event);
            &&& match moved.step {
                PollStep::Finished(PollOutcome::Updated(reading)) => moved.device == (DeviceView {
                    last_reading: Some(reading),
                    ..device
                }),
                _ => moved.device == device,
            }
            &&& moved.step is Finished ==> moved.cycle == idle_cycle()
            &&& moved.step is Perform ==> moved.cycle.phase != PollPhase::Idle
        }),
{
}

} // verus!
