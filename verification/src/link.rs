//! The link channel: configuration of the shared serial line, whether its
//! port is open, and the rules that judge what the transport reports.
//!
//! The port itself is driven from outside this library. The library says
//! which action to perform next (`LinkAction`) and is told how it went
//! (`LinkEvent`).

use vstd::prelude::*;
use crate::error::PollError;

verus! {

/// Largest response that one receive takes from the line.
pub const MAX_RESPONSE_LEN: usize = 255;

/// Read timeout applied to the port, in milliseconds.
pub const READ_TIMEOUT_MS: u64 = 1000;

/// Data bits per character on the line.
pub const DATA_BITS: u8 = 8;

/// Stop bits per character on the line.
pub const STOP_BITS: u8 = 1;

/// Standard line speeds.
#[derive(Clone, Copy, Debug, PartialEq, Eq, Structural)]
pub enum BaudRate {
    Baud110,
    Baud300,
    Baud600,
    Baud1200,
    Baud2400,
    Baud4800,
    Baud9600,
    Baud19200,
    Baud38400,
    Baud57600,
    Baud115200,
}

/// Parity checking on the line. The meters use none.
#[derive(Clone, Copy, Debug, PartialEq, Eq, Structural)]
pub enum Parity {
    NoParity,
}

/// Flow control on the line. The meters use none.
#[derive(Clone, Copy, Debug, PartialEq, Eq, Structural)]
pub enum FlowControl {
    NoFlowControl,
}

/// What is applied to the port on every reconfiguration.
#[derive(Clone, Copy, Debug, PartialEq, Eq, Structural)]
pub struct LineSettings {
    pub baud_rate: BaudRate,
    pub data_bits: u8,
    pub parity: Parity,
    pub stop_bits: u8,
    pub flow_control: FlowControl,
    pub read_timeout_ms: u64,
}

/// What the driver of the port is asked to do next.
#[derive(Clone, Copy, Debug, PartialEq, Eq, Structural)]
pub enum LinkAction {
    /// Open the port first if `open_port` is set, then apply the channel's
    /// line settings and read timeout.
    Reconfigure { open_port: bool },
    /// Write the request frame in flight to the port.
    Send,
    /// Read at most `max_len` bytes, giving up at the read timeout.
    Receive { max_len: usize },
}

/// What the driver of the port reports back.
#[derive(Debug)]
pub enum LinkEvent {
    /// The port is open and the settings are applied.
    Reconfigured,
    /// The port could not be opened.
    OpenFailed,
    /// Settings or timeout could not be applied.
    ConfigureFailed,
    /// The transport accepted this many bytes of the request.
    Written(usize),
    /// Writing failed.
    WriteFailed,
    /// The bytes that arrived before the timeout; none, if none did.
    Received(Vec<u8>),
}

/// The serial link that the devices share.
pub struct LinkChannel {
    port_name: String,
    baud_rate: BaudRate,
    open: bool,
}

/// Mathematical content of a `LinkChannel`.
pub struct LinkChannelView {
    pub port_name: Seq<char>,
    pub baud_rate: BaudRate,
    pub open: bool,
}

impl View for LinkChannel {
    type V = LinkChannelView;

    closed spec fn view(&self) -> LinkChannelView {
        LinkChannelView { port_name: self.port_name@, baud_rate: self.baud_rate, open: self.open }
    }
}

impl BaudRate {
    /// Line speed in bits per second.
    pub open spec fn spec_bits_per_second(self) -> u32 {
        match self {
            BaudRate::Baud110 => 110,
            BaudRate::Baud300 => 300,
            BaudRate::Baud600 => 600,
            BaudRate::Baud1200 => 1200,
            BaudRate::Baud2400 => 2400,
            BaudRate::Baud4800 => 4800,
            BaudRate::Baud9600 => 9600,
            BaudRate::Baud19200 => 19200,
            BaudRate::Baud38400 => 38400,
            BaudRate::Baud57600 => 57600,
            BaudRate::Baud115200 => 115200,
        }
    }

    /// Line speed in bits per second.
    #[verifier::when_used_as_spec(spec_bits_per_second)]
    pub fn bits_per_second(self) -> (speed: u32)
        ensures
            speed == self.spec_bits_per_second(),
    {
        match self {
            BaudRate::Baud110 => 110,
            BaudRate::Baud300 => 300,
            BaudRate::Baud600 => 600,
            BaudRate::Baud1200 => 1200,
            BaudRate::Baud2400 => 2400,
            BaudRate::Baud4800 => 4800,
            BaudRate::Baud9600 => 9600,
            BaudRate::Baud19200 => 19200,
            BaudRate::Baud38400 => 38400,
            BaudRate::Baud57600 => 57600,
            BaudRate::Baud115200 => 115200,
        }
    }
}

/// The line settings that go with a baud rate: eight data bits, no parity,
/// one stop bit, no flow control, and the fixed read timeout.
pub open spec fn line_settings(baud_rate: BaudRate) -> LineSettings {
    LineSettings {
        baud_rate,
        data_bits: DATA_BITS,
        parity: Parity::NoParity,
        stop_bits: STOP_BITS,
        flow_control: FlowControl::NoFlowControl,
        read_timeout_ms: READ_TIMEOUT_MS,
    }
}

/// The channel after the answer `event` to a reconfiguration, and the verdict
/// on it. The port counts as open only after a reconfiguration that succeeded.
pub open spec fn reconfigured_spec(channel: LinkChannelView, event: LinkEvent) -> (
    LinkChannelView,
    Result<(), PollError>,
) {
    match event {
        LinkEvent::Reconfigured => (LinkChannelView { open: true, ..channel }, Ok(())),
        LinkEvent::OpenFailed => (
            LinkChannelView { open: false, ..channel },
            Err(PollError::TransportOpenError),
        ),
        LinkEvent::ConfigureFailed => (
            LinkChannelView { open: false, ..channel },
            Err(PollError::TransportConfigureError),
        ),
        _ => (channel, Err(PollError::UnexpectedEvent)),
    }
}

/// The verdict on the answer `event` to sending a frame of `frame_len` bytes:
/// every byte must have been written.
pub open spec fn sent_spec(frame_len: nat, event: LinkEvent) -> Result<(), PollError> {
    match event {
        LinkEvent::Written(count) => if count >= frame_len {
            Ok(())
        } else {
            Err(PollError::TransportWriteError)
        },
        LinkEvent::WriteFailed => Err(PollError::TransportWriteError),
        _ => Err(PollError::UnexpectedEvent),
    }
}

/// The first `MAX_RESPONSE_LEN` bytes of what arrived, or all of it if it is
/// shorter.
pub open spec fn bounded_response(bytes: Seq<u8>) -> Seq<u8> {
    if bytes.len() > MAX_RESPONSE_LEN {
        bytes.subrange(0, MAX_RESPONSE_LEN as int)
    } else {
        bytes
    }
}

/// The response that the answer `event` to a receive carries.
pub open spec fn received_spec(event: LinkEvent) -> Result<Seq<u8>, PollError> {
    match event {
        LinkEvent::Received(bytes) => Ok(bounded_response(bytes@)),
        _ => Err(PollError::UnexpectedEvent),
    }
}

impl LinkChannel {
    /// A channel with the default parameters: port `COM1` at 9600 baud, not
    /// yet open.
    pub fn new() -> (channel: LinkChannel)
        ensures
            channel@.port_name == "COM1"@,
            channel@.baud_rate == BaudRate::Baud9600,
            !channel@.open,
    {
        LinkChannel { port_name: "COM1".to_owned(), baud_rate: BaudRate::Baud9600, open: false }
    }

    /// A channel for the given port and speed, not yet open.
    pub fn with_port(port_name: String, baud_rate: BaudRate) -> (channel: LinkChannel)
        ensures
            channel@ == (LinkChannelView { port_name: port_name@, baud_rate, open: false }),
    {
        LinkChannel { port_name, baud_rate, open: false }
    }

    /// Name of the serial port, such as a device path.
    pub fn port_name(&self) -> (name: &String)
        ensures
            name@ == self@.port_name,
    {
        &self.port_name
    }

    /// Configured line speed.
    pub fn baud_rate(&self) -> (baud_rate: BaudRate)
        ensures
            baud_rate == self@.baud_rate,
    {
        self.baud_rate
    }

    /// Whether the last reconfiguration succeeded, so that the port is open.
    pub fn is_open(&self) -> (open: bool)
        ensures
            open == self@.open,
    {
        self.open
    }

    /// What a reconfiguration applies to the port.
    pub fn settings(&self) -> (settings: LineSettings)
        ensures
            settings == line_settings(self@.baud_rate),
    {
        LineSettings {
            baud_rate: self.baud_rate,
            data_bits: DATA_BITS,
            parity: Parity::NoParity,
            stop_bits: STOP_BITS,
            flow_control: FlowControl::NoFlowControl,
            read_timeout_ms: READ_TIMEOUT_MS,
        }
    }

    /// The action that reconfigures the link: it opens the port only if it is
    /// not open yet.
    pub fn reconfigure(&self) -> (action: LinkAction)
        ensures
            action == (LinkAction::Reconfigure { open_port: !self@.open }),
    {
        LinkAction::Reconfigure { open_port: !self.open }
    }

    /// Takes the answer to a reconfiguration.
    pub fn reconfigured(&mut self, event: &LinkEvent) -> (result: Result<(), PollError>)
        ensures
            (final(self)@, result) == reconfigured_spec(old(self)@, *event),
    {
        match event {
            LinkEvent::Reconfigured => {
                self.open = true;
                Ok(())
            },
            LinkEvent::OpenFailed => {
                self.open = false;
                Err(PollError::TransportOpenError)
            },
            LinkEvent::ConfigureFailed => {
                self.open = false;
                Err(PollError::TransportConfigureError)
            },
            _ => Err(PollError::UnexpectedEvent),
        }
    }

    /// Takes the answer to sending a frame of `frame_len` bytes.
    pub fn sent(frame_len: usize, event: &LinkEvent) -> (result: Result<(), PollError>)
        ensures
            result == sent_spec(frame_len as nat, *event),
    {
        match event {
            LinkEvent::Written(count) => {
                if *count >= frame_len {
                    Ok(())
                } else {
                    Err(PollError::TransportWriteError)
                }
            },
            LinkEvent::WriteFailed => Err(PollError::TransportWriteError),
            _ => Err(PollError::UnexpectedEvent),
        }
    }

    /// The action that reads a response.
    pub fn receive() -> (action: LinkAction)
        ensures
            action == (LinkAction::Receive { max_len: MAX_RESPONSE_LEN }),
    {
        LinkAction::Receive { max_len: MAX_RESPONSE_LEN }
    }

    /// Takes the answer to a receive: the response, cut to
    /// `MAX_RESPONSE_LEN` bytes. A timeout shows as a short or empty response.
    pub fn received(event: LinkEvent) -> (result: Result<Vec<u8>, PollError>)
        ensures
            result is Ok == received_spec(event) is Ok,
            result matches Ok(bytes) ==> received_spec(event) == Ok::<Seq<u8>, PollError>(bytes@),
            result matches Err(e) ==> received_spec(event) == Err::<Seq<u8>, PollError>(e),
    {
        match event {
            LinkEvent::Received(bytes) => {
                let mut bytes = bytes;
                let ghost arrived = bytes@;
                bytes.truncate(MAX_RESPONSE_LEN);
                assert(bytes@ =~= bounded_response(arrived));
                Ok(bytes)
            },
            _ => Err(PollError::UnexpectedEvent),
        }
    }
}

} // verus!
