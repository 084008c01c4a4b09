//! The client of the avatar's input surface: its two endpoints, the
//! datagrams it hands to the socket, and the writes each control is set by.

use vstd::prelude::*;
use vstd::string::*;
use crate::input::{
    chatbox_write, chatbox_write_of, int_write, bool_write, jump_path, jump_write, look_path,
    look_write, move_path, move_write, parse_look_direction, parse_move_direction, parsed_look,
    parsed_move, run_path, run_write, InputError,
};
use crate::osc::{
    args_view, decode, decode_spec, encode, encoded_message, optional_view, outcome_view, Arg,
    DecodeError, Message, MessageView, Received, ReceivedView, MTU,
};
use vstd::slice::slice_subrange;

verus! {

/// How long a button stays pressed, in milliseconds, so that the press is noticed.
pub const KEYPRESS_DELAY_MS: u64 = 10;

/// An address of the network: four octets and a port.
#[derive(Debug, Clone, Copy, PartialEq, Eq)]
pub struct Endpoint {
    pub ip: [u8; 4],
    pub port: u16,
}

/// One decimal digit as text.
pub open spec fn digit_text(d: nat) -> Seq<char> {
    if d == 0 {
        "0"@
    } else if d == 1 {
        "1"@
    } else if d == 2 {
        "2"@
    } else if d == 3 {
        "3"@
    } else if d == 4 {
        "4"@
    } else if d == 5 {
        "5"@
    } else if d == 6 {
        "6"@
    } else if d == 7 {
        "7"@
    } else if d == 8 {
        "8"@
    } else {
        "9"@
    }
}

/// A number in decimal, without leading zeros.
pub open spec fn decimal_text(n: nat) -> Seq<char>
    decreases n,
{
    if n < 10 {
        digit_text(n)
    } else {
        decimal_text(n / 10) + digit_text(n % 10)
    }
}

/// An endpoint as text: the octets with dots between them, a colon, the port.
pub open spec fn endpoint_text(ip: Seq<u8>, port: u16) -> Seq<char>
    recommends
        ip.len() == 4,
{
    decimal_text(ip[0] as nat) + "."@ + decimal_text(ip[1] as nat) + "."@ + decimal_text(
        ip[2] as nat,
    ) + "."@ + decimal_text(ip[3] as nat) + ":"@ + decimal_text(port as nat)
}

fn digit(d: u16) -> (r: &'static str)
    requires
        d < 10,
    ensures
        r@ == digit_text(d as nat),
{
    if d == 0 {
        "0"
    } else if d == 1 {
        "1"
    } else if d == 2 {
        "2"
    } else if d == 3 {
        "3"
    } else if d == 4 {
        "4"
    } else if d == 5 {
        "5"
    } else if d == 6 {
        "6"
    } else if d == 7 {
        "7"
    } else if d == 8 {
        "8"
    } else {
        "9"
    }
}

fn decimal(n: u16) -> (r: String)
    ensures
        r@ == decimal_text(n as nat),
    decreases n,
{
    if n < 10 {
        String::from_str(digit(n))
    } else {
        let mut out = decimal(n / 10);
        out.append(digit(n % 10));
        out
    }
}

impl Endpoint {
    /// The text form that the socket takes as a destination.
    pub fn to_string(&self) -> (r: String)
        ensures
            r@ == endpoint_text(self.ip@, self.port),
    {
        let mut out = decimal(self.ip[0] as u16);
        out.append(".");
        out.append(decimal(self.ip[1] as u16).as_str());
        out.append(".");
        out.append(decimal(self.ip[2] as u16).as_str());
        out.append(".");
        out.append(decimal(self.ip[3] as u16).as_str());
        out.append(":");
        out.append(decimal(self.port).as_str());
        out
    }
}

/// The octets of the local host.
pub open spec fn localhost() -> Seq<u8> {
    seq![127u8, 0u8, 0u8, 1u8]
}

/// A packet together with where it goes.
#[derive(Debug, Clone, PartialEq, Eq)]
pub struct Datagram {
    pub destination: String,
    pub payload: Vec<u8>,
}

/// One step of a timed sequence of writes.
#[derive(Debug, Clone, PartialEq, Eq)]
pub enum Step {
    /// Send this message now.
    Send(Message),
    /// Let this many milliseconds pass.
    Wait(u64),
}

pub enum StepView {
    Send(MessageView),
    Wait(u64),
}

impl View for Step {
    type V = StepView;

    open spec fn view(&self) -> StepView {
        match *self {
            Step::Send(m) => StepView::Send(m@),
            Step::Wait(ms) => StepView::Wait(ms),
        }
    }
}

/// The steps of a sequence, each by its view.
pub open spec fn steps_view(steps: Seq<Step>) -> Seq<StepView> {
    Seq::new(steps.len(), |i: int| steps[i]@)
}

/// A jump: press, hold for the keypress delay, reset.
pub open spec fn jump_pulse() -> Seq<StepView> {
    seq![
        StepView::Send(int_write(jump_path(), 1)),
        StepView::Wait(KEYPRESS_DELAY_MS),
        StepView::Send(int_write(jump_path(), 0)),
    ]
}

/// The start-up sequence: jump reset, the keypress delay, run reset.
pub open spec fn button_init() -> Seq<StepView> {
    seq![
        StepView::Send(int_write(jump_path(), 0)),
        StepView::Wait(KEYPRESS_DELAY_MS),
        StepView::Send(int_write(run_path(), 0)),
    ]
}

/// What a datagram of `len` bytes yields: nothing where it is empty, where
/// it does not decode and where it is a bundle; else the message.
pub open spec fn received(len: usize, decoded: Result<Option<ReceivedView>, DecodeError>) -> Option<
    ReceivedView,
> {
    if len == 0 {
        None
    } else {
        match decoded {
            Ok(Some(m)) => Some(m),
            _ => None,
        }
    }
}

/// The view of a write that may have been refused.
pub open spec fn write_view(r: Result<Message, InputError>) -> Result<MessageView, InputError> {
    match r {
        Ok(m) => Ok(m@),
        Err(e) => Err(e),
    }
}

/// The message, if any, that a datagram of `len` bytes gave once decoded.
/// A decoding failure counts as no data.
pub fn received_message(len: usize, decoded: Result<Option<Received>, DecodeError>) -> (r: Option<
    Received,
>)
    ensures
        optional_view(r) == received(len, outcome_view(decoded)),
        decoded is Err ==> r is None,
{
    if len == 0 {
        None
    } else {
        match decoded {
            Ok(Some(m)) => Some(m),
            _ => None,
        }
    }
}

/// The marker of a source of what the avatar reports. It asks nothing yet.
pub trait Avatar {
}

/// The client: where it listens and where it sends.
#[derive(Debug, Clone, PartialEq, Eq)]
pub struct Client {
    pub receive_addr: Endpoint,
    pub receive_addr_str: String,
    pub transmit_addr: Endpoint,
    pub transmit_addr_str: String,
}

impl Client {
    /// Whether the text forms are those of the endpoints.
    pub open spec fn wf(&self) -> bool {
        &&& self.receive_addr_str@ == endpoint_text(self.receive_addr.ip@, self.receive_addr.port)
        &&& self.transmit_addr_str@ == endpoint_text(
            self.transmit_addr.ip@,
            self.transmit_addr.port,
        )
    }

    /// A client of the local host that listens on the first port and sends
    /// to the second.
    pub fn new(receiver_port: u16, transmitter_port: u16) -> (c: Client)
        ensures
            c.wf(),
            c.receive_addr.ip@ == localhost(),
            c.receive_addr.port == receiver_port,
            c.transmit_addr.ip@ == localhost(),
            c.transmit_addr.port == transmitter_port,
    {
        let receive_addr = Endpoint { ip: [127, 0, 0, 1], port: receiver_port };
        let transmit_addr = Endpoint { ip: [127, 0, 0, 1], port: transmitter_port };
        assert(receive_addr.ip@ =~= localhost());
        assert(transmit_addr.ip@ =~= localhost());
        Client {
            receive_addr,
            receive_addr_str: receive_addr.to_string(),
            transmit_addr,
            transmit_addr_str: transmit_addr.to_string(),
        }
    }

    /// The datagram that carries one write: the encoded message, addressed
    /// to the transmit endpoint.
    pub fn send_data(&self, param_name: &str, param_arg: Vec<Arg>) -> (d: Datagram)
        ensures
            d.destination@ == self.transmit_addr_str@,
            d.payload@ == encoded_message(param_name@, args_view(param_arg@)),
    {
        let msg = Message { addr: String::from_str(param_name), args: param_arg };
        Datagram { destination: self.transmit_addr_str.clone(), payload: encode(&msg) }
    }

    /// The message in a receive buffer whose first `len` bytes are the
    /// datagram. Only those bytes are read: a datagram that was cut short
    /// is not completed by what follows it in the buffer.
    pub fn recv_data(&self, buf: &[u8], len: usize) -> (r: Option<Received>)
        requires
            len <= buf@.len(),
            len <= MTU,
        ensures
            optional_view(r) == received(len, decode_spec(buf@.subrange(0, len as int))),
            len == 0 || decode_spec(buf@.subrange(0, len as int)) is Err ==> r is None,
    {
        if len == 0 {
            None
        } else {
            received_message(len, decode(slice_subrange(buf, 0, len)))
        }
    }

    /// The write that presses or releases a direction of movement, named in
    /// any casing.
    pub fn input_move(&self, direction: &str, toggle: bool) -> (r: Result<Message, InputError>)
        ensures
            write_view(r) == (match parsed_move(direction@) {
                Ok(d) => Ok(bool_write(move_path(d), toggle)),
                Err(e) => Err(e),
            }),
    {
        match parse_move_direction(direction) {
            Ok(d) => Ok(move_write(d, toggle)),
            Err(e) => Err(e),
        }
    }

    /// The write that presses or releases a direction of looking, named in
    /// any casing.
    pub fn input_look(&self, direction: &str, toggle: bool) -> (r: Result<Message, InputError>)
        ensures
            write_view(r) == (match parsed_look(direction@) {
                Ok(d) => Ok(bool_write(look_path(d), toggle)),
                Err(e) => Err(e),
            }),
    {
        match parse_look_direction(direction) {
            Ok(d) => Ok(look_write(d, toggle)),
            Err(e) => Err(e),
        }
    }

    /// A jump: two writes to the jump button, 1 and then 0, with the
    /// keypress delay between them.
    pub fn input_jump(&self) -> (steps: Vec<Step>)
        ensures
            steps_view(steps@) == jump_pulse(),
    {
        let steps = vec![
            Step::Send(jump_write(1)),
            Step::Wait(KEYPRESS_DELAY_MS),
            Step::Send(jump_write(0)),
        ];
        assert(steps_view(steps@) =~= jump_pulse());
        steps
    }

    /// The write that sets the run level: 1 runs, 0 walks.
    pub fn input_run(&self, toggle: i32) -> (m: Message)
        ensures
            m@ == int_write(run_path(), toggle),
    {
        run_write(toggle)
    }

    /// The write that posts a text to the chatbox, whatever its length.
    pub fn chatbox_message(&self, message: &str) -> (m: Message)
        ensures
            m@ == chatbox_write(message@),
    {
        chatbox_write_of(message)
    }

    /// The writes that reset jump and run before anything else is sent.
    pub fn input_button_init(&self) -> (steps: Vec<Step>)
        ensures
            steps_view(steps@) == button_init(),
    {
        let steps = vec![
            Step::Send(jump_write(0)),
            Step::Wait(KEYPRESS_DELAY_MS),
            Step::Send(run_write(0)),
        ];
        assert(steps_view(steps@) =~= button_init());
        steps
    }
}

} // verus!
