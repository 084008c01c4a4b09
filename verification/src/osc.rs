//! The wire protocol: a message is an address and a list of typed arguments.
//! Packets are written and read by the `rosc` crate; this module holds the
//! models of what is sent and of what is received, and decides what a
//! received packet means.

use vstd::prelude::*;
use vstd::string::*;
use rosc::{OscMessage, OscPacket, OscType};
use rosc::OscError;

verus! {

/// The largest datagram, in bytes, that the receive side reads.
pub const MTU: usize = 1536;

/// One typed argument of a message that is sent.
#[derive(Debug, Clone, PartialEq, Eq)]
pub enum Arg {
    Int(i32),
    Bool(bool),
    Str(String),
}

/// What an `Arg` stands for.
pub enum ArgView {
    Int(i32),
    Bool(bool),
    Str(Seq<char>),
}

impl View for Arg {
    type V = ArgView;

    open spec fn view(&self) -> ArgView {
        match *self {
            Arg::Int(v) => ArgView::Int(v),
            Arg::Bool(v) => ArgView::Bool(v),
            Arg::Str(s) => ArgView::Str(s@),
        }
    }
}

/// The arguments of a list, each by its view.
pub open spec fn args_view(args: Seq<Arg>) -> Seq<ArgView> {
    Seq::new(args.len(), |i: int| args[i]@)
}

/// A message to send: a parameter path and its arguments, in order.
#[derive(Debug, Clone, PartialEq, Eq)]
pub struct Message {
    pub addr: String,
    pub args: Vec<Arg>,
}

pub struct MessageView {
    pub addr: Seq<char>,
    pub args: Seq<ArgView>,
}

impl View for Message {
    type V = MessageView;

    open spec fn view(&self) -> MessageView {
        MessageView { addr: self.addr@, args: args_view(self.args@) }
    }
}

/// The argument type of the `rosc` crate. Nothing is read of a value of it;
/// it is carried as it came.
#[verifier::external_type_specification]
#[verifier::external_body]
pub struct ExOscType(OscType);

/// The error type of the `rosc` crate.
#[verifier::external_type_specification]
#[verifier::external_body]
pub struct ExOscError(OscError);

/// One typed argument of a message that was received. A float is held as
/// the bit pattern of its IEEE 754 single-precision form. An argument of
/// any other type than float, integer, boolean and string is handed on as
/// the codec read it.
#[derive(Debug, PartialEq)]
pub enum Value {
    Float(u32),
    Int(i32),
    Bool(bool),
    Str(String),
    Other(OscType),
}

/// What a `Value` stands for.
pub enum ValueView {
    Float(u32),
    Int(i32),
    Bool(bool),
    Str(Seq<char>),
    Other(OscType),
}

impl View for Value {
    type V = ValueView;

    open spec fn view(&self) -> ValueView {
        match *self {
            Value::Float(bits) => ValueView::Float(bits),
            Value::Int(v) => ValueView::Int(v),
            Value::Bool(v) => ValueView::Bool(v),
            Value::Str(s) => ValueView::Str(s@),
            Value::Other(o) => ValueView::Other(o),
        }
    }
}

/// The values of a list, each by its view.
pub open spec fn values_view(args: Seq<Value>) -> Seq<ValueView> {
    Seq::new(args.len(), |i: int| args[i]@)
}

/// A message that was received: a parameter path and its arguments, in order.
#[derive(Debug, PartialEq)]
pub struct Received {
    pub addr: String,
    pub args: Vec<Value>,
}

pub struct ReceivedView {
    pub addr: Seq<char>,
    pub args: Seq<ValueView>,
}

impl View for Received {
    type V = ReceivedView;

    open spec fn view(&self) -> ReceivedView {
        ReceivedView { addr: self.addr@, args: values_view(self.args@) }
    }
}

/// A packet as it was read: a message, or a bundle of packets, of which
/// nothing is kept.
#[derive(Debug, PartialEq)]
pub enum Packet {
    Message(String, Vec<Value>),
    Bundle,
}

pub enum PacketView {
    Message(Seq<char>, Seq<ValueView>),
    Bundle,
}

impl View for Packet {
    type V = PacketView;

    open spec fn view(&self) -> PacketView {
        match *self {
            Packet::Message(addr, args) => PacketView::Message(addr@, values_view(args@)),
            Packet::Bundle => PacketView::Bundle,
        }
    }
}

/// Why a buffer gave no packet.
#[derive(Debug, Clone, Copy, PartialEq, Eq, Structural)]
pub enum DecodeError {
    /// The buffer is too short or does not hold a well-formed packet.
    Malformed,
}

/// The bytes that `rosc::encoder::encode` gives for a message with this
/// address and these arguments.
pub uninterp spec fn encoded_message(addr: Seq<char>, args: Seq<ArgView>) -> Seq<u8>;

/// What `rosc::decoder::decode_udp` reads from these bytes: the packet at
/// their start, or `None` where it reports an error.
pub uninterp spec fn decoded_packet(bytes: Seq<u8>) -> Option<PacketView>;

/// Calls `rosc::encoder::encode` on a message packet. That function returns
/// `Ok` for every packet, and its result depends on the packet alone; the
/// contract gives the bytes their name and claims nothing else of them.
#[verifier::external_body]
fn encode_packet(addr: &str, args: &Vec<Arg>) -> (bytes: Vec<u8>)
    ensures
        bytes@ == encoded_message(addr@, args_view(args@)),
{
    let args = args.iter().map(|a| match a {
        Arg::Int(v) => OscType::Int(*v),
        Arg::Bool(v) => OscType::Bool(*v),
        Arg::Str(s) => OscType::String(s.clone()),
    }).collect();
    let packet = OscPacket::Message(OscMessage { addr: addr.to_string(), args });
    rosc::encoder::encode(&packet).unwrap()
}

/// Calls `rosc::decoder::decode_udp` and drops the bytes that follow the
/// packet. The result depends on the bytes alone; the contract gives it its
/// name: `Ok` with the packet read, `Err` with the crate's error. A float
/// is handed on as its bits, by `to_bits`; an argument of a type that
/// `Value` does not spell out is moved into `Value::Other`. The buffer is
/// at most one datagram long, which bounds how deep bundles nest.
#[verifier::external_body]
fn decode_packet(bytes: &[u8]) -> (r: Result<Packet, OscError>)
    requires
        bytes@.len() <= MTU,
    ensures
        r is Ok ==> decoded_packet(bytes@) == Some(r->Ok_0@),
        r is Err ==> decoded_packet(bytes@) is None,
{
    match rosc::decoder::decode_udp(bytes)?.1 {
        OscPacket::Message(m) => Ok(Packet::Message(m.addr, m.args.into_iter().map(|a| match a {
            OscType::Float(x) => Value::Float(x.to_bits()),
            OscType::Int(v) => Value::Int(v),
            OscType::Bool(v) => Value::Bool(v),
            OscType::String(s) => Value::Str(s),
            other => Value::Other(other),
        }).collect())),
        OscPacket::Bundle(_) => Ok(Packet::Bundle),
    }
}

/// The bytes of the packet that carries `msg`.
pub fn encode(msg: &Message) -> (bytes: Vec<u8>)
    ensures
        bytes@ == encoded_message(msg@.addr, msg@.args),
{
    encode_packet(msg.addr.as_str(), &msg.args)
}

/// What a packet means: a message is that message, with every argument in
/// place; a bundle carries no message.
pub open spec fn packet_meaning(p: PacketView) -> Option<ReceivedView> {
    match p {
        PacketView::Message(addr, args) => Some(ReceivedView { addr, args }),
        PacketView::Bundle => None,
    }
}

/// The view of a received message that may be absent.
pub open spec fn optional_view(m: Option<Received>) -> Option<ReceivedView> {
    match m {
        Some(m) => Some(m@),
        None => None,
    }
}

/// The view of a decoding result.
pub open spec fn outcome_view(r: Result<Option<Received>, DecodeError>) -> Result<
    Option<ReceivedView>,
    DecodeError,
> {
    match r {
        Ok(m) => Ok(optional_view(m)),
        Err(e) => Err(e),
    }
}

/// Reads a packet as a message, or as nothing where it is a bundle.
pub fn interpret(packet: Packet) -> (r: Option<Received>)
    ensures
        optional_view(r) == packet_meaning(packet@),
{
    match packet {
        Packet::Message(addr, args) => Some(Received { addr, args }),
        Packet::Bundle => None,
    }
}

/// What decoding `bytes` gives: the message read, nothing for a bundle, or
/// `Malformed` where no packet could be read.
pub open spec fn decode_spec(bytes: Seq<u8>) -> Result<Option<ReceivedView>, DecodeError> {
    match decoded_packet(bytes) {
        Some(p) => Ok(packet_meaning(p)),
        None => Err(DecodeError::Malformed),
    }
}

/// Decodes the packet at the start of `bytes`.
pub fn decode(bytes: &[u8]) -> (r: Result<Option<Received>, DecodeError>)
    requires
        bytes@.len() <= MTU,
    ensures
        outcome_view(r) == decode_spec(bytes@),
{
    match decode_packet(bytes) {
        Ok(packet) => Ok(interpret(packet)),
        Err(_) => Err(DecodeError::Malformed),
    }
}

} // verus!
