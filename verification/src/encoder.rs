use vstd::prelude::*;

use crate::bytes;
use crate::messages::{Command, Negotiation, TelnetMessage, TelnetMessageView};

verus! {

/// The wire code that stands for a command.
pub open spec fn spec_command_code(command: Command) -> u8 {
    match command {
        Command::DataMark => bytes::DATA_MARK,
        Command::Break => bytes::BREAK,
        Command::InterruptProcess => bytes::INTERRUPT_PROCESS,
        Command::AbortOutput => bytes::ABORT_OUTPUT,
        Command::AreYouThere => bytes::ARE_YOU_THERE,
        Command::EraseCharacter => bytes::ERASE_CHARACTER,
        Command::EraseLine => bytes::ERASE_LINE,
        Command::GoAhead => bytes::GO_AHEAD,
    }
}

/// The wire code that stands for a negotiation verb.
pub open spec fn spec_negotiation_code(negotiation: Negotiation) -> u8 {
    match negotiation {
        Negotiation::Do => bytes::DO,
        Negotiation::Dont => bytes::DONT,
        Negotiation::Will => bytes::WILL,
        Negotiation::Wont => bytes::WONT,
    }
}

/// The encoding of one data byte: the control-escape byte is doubled,
/// every other byte stands for itself. This is the single escaping rule
/// of the protocol, shared by plain data bytes and subnegotiation payloads.
pub open spec fn spec_encode_byte(b: u8) -> Seq<u8> {
    if b == bytes::IAC {
        seq![bytes::IAC, bytes::IAC]
    } else {
        seq![b]
    }
}

/// The byte-escaped encoding of a whole payload: each byte encoded by
/// [`spec_encode_byte`], in order.
pub open spec fn spec_escape_payload(payload: Seq<u8>) -> Seq<u8>
    decreases payload.len(),
{
    if payload.len() == 0 {
        Seq::empty()
    } else {
        spec_encode_byte(payload[0]) + spec_escape_payload(payload.drop_first())
    }
}

/// The exact wire bytes of a message:
/// - a data byte is escaped by [`spec_encode_byte`];
/// - a command is the control-escape byte followed by the command's code;
/// - a negotiation is the control-escape byte, the verb's code, then the
///   option byte, which is never escaped;
/// - a subnegotiation is the begin marker and option, the escaped payload,
///   then the end marker.
pub open spec fn spec_encode(m: TelnetMessageView) -> Seq<u8> {
    match m {
        TelnetMessageView::Byte(b) => spec_encode_byte(b),
        TelnetMessageView::Command(c) => seq![bytes::IAC, spec_command_code(c)],
        TelnetMessageView::Negotiation(n, o) => seq![bytes::IAC, spec_negotiation_code(n), o],
        TelnetMessageView::SubNegotiation(o, p) => seq![bytes::IAC, bytes::SB, o]
            + spec_escape_payload(p) + seq![bytes::IAC, bytes::SE],
    }
}

/// Escaping a payload one byte longer appends that byte's encoding.
proof fn lemma_escape_payload_push(payload: Seq<u8>, b: u8)
    ensures
        spec_escape_payload(payload.push(b)) == spec_escape_payload(payload) + spec_encode_byte(b),
    decreases payload.len(),
{
    if payload.len() == 0 {
        assert(payload.push(b).drop_first() =~= Seq::<u8>::empty());
        assert(payload.push(b)[0] == b);
        assert(spec_escape_payload(Seq::<u8>::empty()) =~= Seq::<u8>::empty());
        assert(spec_escape_payload(payload.push(b)) =~= spec_encode_byte(b));
        assert(spec_escape_payload(payload) + spec_encode_byte(b) =~= spec_encode_byte(b));
    } else {
        assert(payload.push(b).drop_first() =~= payload.drop_first().push(b));
        lemma_escape_payload_push(payload.drop_first(), b);
        assert(spec_encode_byte(payload[0]) + (spec_escape_payload(payload.drop_first())
            + spec_encode_byte(b)) =~= (spec_encode_byte(payload[0])
            + spec_escape_payload(payload.drop_first())) + spec_encode_byte(b));
    }
}

/// Encode a Telnet message into the exact bytes that represent it on the wire.
pub fn encode_telnet_message(msg: TelnetMessage) -> (r: Vec<u8>)
    ensures
        r@ == spec_encode(msg@),
{
    match msg {
        TelnetMessage::Byte(b) => encode_byte_message(b),
        TelnetMessage::Command(c) => encode_command_message(c),
        TelnetMessage::Negotiation(n, o) => encode_negotiation_message(n, o),
        TelnetMessage::SubNegotiation(o, p) => encode_subnegotiation_message(o, p),
    }
}

/// Encode one data byte, doubling it when it is the control-escape byte.
fn encode_byte_message(msg: u8) -> (r: Vec<u8>)
    ensures
        r@ == spec_encode_byte(msg),
{
    let mut r: Vec<u8> = Vec::new();
    if msg == bytes::IAC {
        r.push(bytes::IAC);
        r.push(bytes::IAC);
        proof {
            assert(r@ =~= spec_encode_byte(msg));
        }
    } else {
        r.push(msg);
        proof {
            assert(r@ =~= spec_encode_byte(msg));
        }
    }
    r
}

/// Encode a command: the control-escape byte followed by the command's code.
fn encode_command_message(command: Command) -> (r: Vec<u8>)
    ensures
        r@ == spec_encode(TelnetMessageView::Command(command)),
{
    let command_byte: u8 = match command {
        Command::DataMark => bytes::DATA_MARK,
        Command::Break => bytes::BREAK,
        Command::InterruptProcess => bytes::INTERRUPT_PROCESS,
        Command::AbortOutput => bytes::ABORT_OUTPUT,
        Command::AreYouThere => bytes::ARE_YOU_THERE,
        Command::EraseCharacter => bytes::ERASE_CHARACTER,
        Command::EraseLine => bytes::ERASE_LINE,
        Command::GoAhead => bytes::GO_AHEAD,
    };
    let mut r: Vec<u8> = Vec::new();
    r.push(bytes::IAC);
    r.push(command_byte);
    proof {
        assert(r@ =~= spec_encode(TelnetMessageView::Command(command)));
    }
    r
}

/// Encode a negotiation: the control-escape byte, the verb's code, then the
/// option byte as it is.
fn encode_negotiation_message(negotiation: Negotiation, option: u8) -> (r: Vec<u8>)
    ensures
        r@ == spec_encode(TelnetMessageView::Negotiation(negotiation, option)),
{
    let negotiation_byte: u8 = match negotiation {
        Negotiation::Do => bytes::DO,
        Negotiation::Dont => bytes::DONT,
        Negotiation::Will => bytes::WILL,
        Negotiation::Wont => bytes::WONT,
    };
    let mut r: Vec<u8> = Vec::new();
    r.push(bytes::IAC);
    r.push(negotiation_byte);
    r.push(option);
    proof {
        assert(r@ =~= spec_encode(TelnetMessageView::Negotiation(negotiation, option)));
    }
    r
}

/// Encode a subnegotiation: begin marker and option, the escaped payload,
/// then the end marker.
fn encode_subnegotiation_message(option: u8, payload: Vec<u8>) -> (r: Vec<u8>)
    ensures
        r@ == spec_encode(TelnetMessageView::SubNegotiation(option, payload@)),
{
    let mut message: Vec<u8> = Vec::new();
    message.push(bytes::IAC);
    message.push(bytes::SB);
    message.push(option);
    proof {
        assert(payload@.take(0) =~= Seq::<u8>::empty());
        assert(message@ =~= seq![bytes::IAC, bytes::SB, option]
            + spec_escape_payload(payload@.take(0)));
    }

    let mut i: usize = 0;
    while i < payload.len()
        invariant
            i <= payload.len(),
            message@ == seq![bytes::IAC, bytes::SB, option]
                + spec_escape_payload(payload@.take(i as int)),
        decreases payload.len() - i,
    {
        let mut escaped = encode_byte_message(payload[i]);
        proof {
            lemma_escape_payload_push(payload@.take(i as int), payload@[i as int]);
            assert(payload@.take(i as int).push(payload@[i as int])
                =~= payload@.take(i as int + 1));
        }
        message.append(&mut escaped);
        proof {
            assert(message@ =~= seq![bytes::IAC, bytes::SB, option]
                + spec_escape_payload(payload@.take(i as int + 1)));
        }
        i = i + 1;
    }

    proof {
        assert(payload@.take(payload@.len() as int) =~= payload@);
    }
    message.push(bytes::IAC);
    message.push(bytes::SE);
    proof {
        assert(message@ =~= spec_encode(TelnetMessageView::SubNegotiation(option, payload@)));
    }
    message
}

} // verus!
