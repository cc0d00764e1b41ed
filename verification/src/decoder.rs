use vstd::prelude::*;

use crate::bytes;
use crate::messages::{message_view, Command, Negotiation, TelnetMessage, TelnetMessageView};

verus! {

/// The decoder's position in the framing grammar, together with what it has
/// gathered so far. This is the mathematical shape of a decoder's state.
pub enum DecoderStateView {
    /// No control sequence is pending.
    Ready,
    /// The previous byte was the control-escape byte.
    SawEscape,
    /// A negotiation verb was seen; the next byte is the option.
    NegotiationPending(Negotiation),
    /// A begin-subnegotiation marker was seen; the next byte is the option.
    SubOptionPending,
    /// A subnegotiation payload is being gathered: the option, the payload so
    /// far, and whether the last payload byte was the control-escape byte.
    SubPayload(u8, Seq<u8>, bool),
}

/// The transition taken from the escape state: a command code completes a
/// command, a negotiation verb or the begin-subnegotiation marker opens a
/// longer sequence, and any other byte (the control-escape byte included)
/// degrades to a literal data byte.
pub open spec fn spec_step_escape(b: u8) -> (DecoderStateView, Option<TelnetMessageView>) {
    if b == bytes::DATA_MARK {
        (DecoderStateView::Ready, Option::Some(TelnetMessageView::Command(Command::DataMark)))
    } else if b == bytes::BREAK {
        (DecoderStateView::Ready, Option::Some(TelnetMessageView::Command(Command::Break)))
    } else if b == bytes::INTERRUPT_PROCESS {
        (
            DecoderStateView::Ready,
            Option::Some(TelnetMessageView::Command(Command::InterruptProcess)),
        )
    } else if b == bytes::ABORT_OUTPUT {
        (DecoderStateView::Ready, Option::Some(TelnetMessageView::Command(Command::AbortOutput)))
    } else if b == bytes::ARE_YOU_THERE {
        (DecoderStateView::Ready, Option::Some(TelnetMessageView::Command(Command::AreYouThere)))
    } else if b == bytes::ERASE_CHARACTER {
        (
            DecoderStateView::Ready,
            Option::Some(TelnetMessageView::Command(Command::EraseCharacter)),
        )
    } else if b == bytes::ERASE_LINE {
        (DecoderStateView::Ready, Option::Some(TelnetMessageView::Command(Command::EraseLine)))
    } else if b == bytes::GO_AHEAD {
        (DecoderStateView::Ready, Option::Some(TelnetMessageView::Command(Command::GoAhead)))
    } else if b == bytes::DO {
        (DecoderStateView::NegotiationPending(Negotiation::Do), Option::None)
    } else if b == bytes::DONT {
        (DecoderStateView::NegotiationPending(Negotiation::Dont), Option::None)
    } else if b == bytes::WILL {
        (DecoderStateView::NegotiationPending(Negotiation::Will), Option::None)
    } else if b == bytes::WONT {
        (DecoderStateView::NegotiationPending(Negotiation::Wont), Option::None)
    } else if b == bytes::SB {
        (DecoderStateView::SubOptionPending, Option::None)
    } else {
        (DecoderStateView::Ready, Option::Some(TelnetMessageView::Byte(b)))
    }
}

/// One step of the decoder: the state after consuming one byte, and the
/// message that byte completed, if any.
pub open spec fn spec_step(s: DecoderStateView, b: u8) -> (
    DecoderStateView,
    Option<TelnetMessageView>,
) {
    match s {
        DecoderStateView::Ready => {
            if b == bytes::IAC {
                (DecoderStateView::SawEscape, Option::None)
            } else {
                (DecoderStateView::Ready, Option::Some(TelnetMessageView::Byte(b)))
            }
        },
        DecoderStateView::SawEscape => spec_step_escape(b),
        DecoderStateView::NegotiationPending(n) => (
            DecoderStateView::Ready,
            Option::Some(TelnetMessageView::Negotiation(n, b)),
        ),
        DecoderStateView::SubOptionPending => (
            DecoderStateView::SubPayload(b, Seq::empty(), false),
            Option::None,
        ),
        DecoderStateView::SubPayload(o, p, esc) => {
            if esc {
                if b == bytes::SE {
                    (
                        DecoderStateView::Ready,
                        Option::Some(TelnetMessageView::SubNegotiation(o, p)),
                    )
                } else {
                    (DecoderStateView::SubPayload(o, p.push(b), false), Option::None)
                }
            } else {
                if b == bytes::IAC {
                    (DecoderStateView::SubPayload(o, p, true), Option::None)
                } else {
                    (DecoderStateView::SubPayload(o, p.push(b), false), Option::None)
                }
            }
        },
    }
}

/// The decoder folded over a whole input: the state it ends in, and every
/// message it emitted, in order.
pub open spec fn spec_run(s: DecoderStateView, input: Seq<u8>) -> (
    DecoderStateView,
    Seq<TelnetMessageView>,
)
    decreases input.len(),
{
    if input.len() == 0 {
        (s, Seq::empty())
    } else {
        let first = spec_step(s, input[0]);
        let rest = spec_run(first.0, input.drop_first());
        (
            rest.0,
            match first.1 {
                Option::Some(m) => seq![m] + rest.1,
                Option::None => rest.1,
            },
        )
    }
}

/// The decoder's concrete state, mirroring [`DecoderStateView`] with the
/// gathered payload held in a vector.
enum TelnetDecoderState {
    Ready,
    SawEscape,
    NegotiationPending(Negotiation),
    SubOptionPending,
    SubPayload(u8, Vec<u8>, bool),
}

impl View for TelnetDecoderState {
    type V = DecoderStateView;

    closed spec fn view(&self) -> DecoderStateView {
        match self {
            TelnetDecoderState::Ready => DecoderStateView::Ready,
            TelnetDecoderState::SawEscape => DecoderStateView::SawEscape,
            TelnetDecoderState::NegotiationPending(n) => DecoderStateView::NegotiationPending(*n),
            TelnetDecoderState::SubOptionPending => DecoderStateView::SubOptionPending,
            TelnetDecoderState::SubPayload(o, p, esc) => DecoderStateView::SubPayload(
                *o,
                p@,
                *esc,
            ),
        }
    }
}

/// The outcome of consuming one byte in some state: the state to move to and
/// the message that was completed, if any.
struct DecoderResult {
    /// The state to move to as a result of this byte.
    new_state: TelnetDecoderState,
    /// The message that was produced, if any.
    message: Option<TelnetMessage>,
}

impl DecoderResult {
    /// An outcome that only moves to a new state.
    fn new_state(state: TelnetDecoderState) -> (r: DecoderResult)
        ensures
            r.new_state == state,
            r.message is None,
    {
        DecoderResult { new_state: state, message: Option::None }
    }

    /// An outcome that emits a message and returns to the ready state.
    fn new_message(message: TelnetMessage) -> (r: DecoderResult)
        ensures
            r.new_state is Ready,
            r.message == Option::Some(message),
    {
        DecoderResult { new_state: TelnetDecoderState::Ready, message: Option::Some(message) }
    }
}

/// Consumes bytes of a Telnet stream one at a time and emits each message
/// they complete. A fresh decoder starts with no sequence pending; its state
/// advances exactly as [`spec_step`] says.
pub struct TelnetDecoder {
    state: TelnetDecoderState,
}

impl View for TelnetDecoder {
    type V = DecoderStateView;

    closed spec fn view(&self) -> DecoderStateView {
        self.state@
    }
}

impl TelnetDecoder {
    /// Create a decoder with no control sequence pending.
    pub fn new() -> (d: TelnetDecoder)
        ensures
            d@ == DecoderStateView::Ready,
    {
        TelnetDecoder { state: TelnetDecoderState::Ready }
    }

    /// Consume one byte: the state advances by one [`spec_step`] transition,
    /// and the byte's completed message, if any, is returned.
    pub fn inject_byte(&mut self, b: u8) -> (r: Option<TelnetMessage>)
        ensures
            final(self)@ == spec_step(old(self)@, b).0,
            message_view(r) == spec_step(old(self)@, b).1,
    {
        let result = match &self.state {
            TelnetDecoderState::Ready => decode_from_none(b),
            TelnetDecoderState::SawEscape => decode_from_iac(b),
            TelnetDecoderState::NegotiationPending(negotiation) => decode_from_negotiation(
                *negotiation,
                b,
            ),
            TelnetDecoderState::SubOptionPending => decode_from_subnegotiation(b),
            TelnetDecoderState::SubPayload(option, payload, iac) => {
                decode_from_subnegotiation_payload(*option, payload, *iac, b)
            },
        };

        self.state = result.new_state;
        result.message
    }
}

/// One byte consumed with no sequence pending.
fn decode_from_none(b: u8) -> (r: DecoderResult)
    ensures
        r.new_state@ == spec_step(DecoderStateView::Ready, b).0,
        message_view(r.message) == spec_step(DecoderStateView::Ready, b).1,
{
    if b == bytes::IAC {
        DecoderResult::new_state(TelnetDecoderState::SawEscape)
    } else {
        DecoderResult::new_message(TelnetMessage::Byte(b))
    }
}

/// One byte consumed right after the control-escape byte.
fn decode_from_iac(b: u8) -> (r: DecoderResult)
    ensures
        r.new_state@ == spec_step(DecoderStateView::SawEscape, b).0,
        message_view(r.message) == spec_step(DecoderStateView::SawEscape, b).1,
{
    if b == bytes::DATA_MARK {
        DecoderResult::new_message(TelnetMessage::Command(Command::DataMark))
    } else if b == bytes::BREAK {
        DecoderResult::new_message(TelnetMessage::Command(Command::Break))
    } else if b == bytes::INTERRUPT_PROCESS {
        DecoderResult::new_message(TelnetMessage::Command(Command::InterruptProcess))
    } else if b == bytes::ABORT_OUTPUT {
        DecoderResult::new_message(TelnetMessage::Command(Command::AbortOutput))
    } else if b == bytes::ARE_YOU_THERE {
        DecoderResult::new_message(TelnetMessage::Command(Command::AreYouThere))
    } else if b == bytes::ERASE_CHARACTER {
        DecoderResult::new_message(TelnetMessage::Command(Command::EraseCharacter))
    } else if b == bytes::ERASE_LINE {
        DecoderResult::new_message(TelnetMessage::Command(Command::EraseLine))
    } else if b == bytes::GO_AHEAD {
        DecoderResult::new_message(TelnetMessage::Command(Command::GoAhead))
    } else if b == bytes::DO {
        DecoderResult::new_state(TelnetDecoderState::NegotiationPending(Negotiation::Do))
    } else if b == bytes::DONT {
        DecoderResult::new_state(TelnetDecoderState::NegotiationPending(Negotiation::Dont))
    } else if b == bytes::WILL {
        DecoderResult::new_state(TelnetDecoderState::NegotiationPending(Negotiation::Will))
    } else if b == bytes::WONT {
        DecoderResult::new_state(TelnetDecoderState::NegotiationPending(Negotiation::Wont))
    } else if b == bytes::SB {
        DecoderResult::new_state(TelnetDecoderState::SubOptionPending)
    } else {
        DecoderResult::new_message(TelnetMessage::Byte(b))
    }
}

/// The option byte consumed while a negotiation is pending.
fn decode_from_negotiation(negotiation: Negotiation, option: u8) -> (r: DecoderResult)
    ensures
        r.new_state@ == spec_step(DecoderStateView::NegotiationPending(negotiation), option).0,
        message_view(r.message) == spec_step(
            DecoderStateView::NegotiationPending(negotiation),
            option,
        ).1,
{
    DecoderResult::new_message(TelnetMessage::Negotiation(negotiation, option))
}

/// The option byte consumed right after the begin-subnegotiation marker.
fn decode_from_subnegotiation(option: u8) -> (r: DecoderResult)
    ensures
        r.new_state@ == spec_step(DecoderStateView::SubOptionPending, option).0,
        message_view(r.message) == spec_step(DecoderStateView::SubOptionPending, option).1,
{
    let r = DecoderResult::new_state(
        TelnetDecoderState::SubPayload(option, Vec::new(), false),
    );
    proof {
        assert(r.new_state@->SubPayload_1 =~= Seq::<u8>::empty());
    }
    r
}

/// One byte consumed while a subnegotiation payload is being gathered.
fn decode_from_subnegotiation_payload(option: u8, payload: &Vec<u8>, iac: bool, b: u8) -> (r:
    DecoderResult)
    ensures
        r.new_state@ == spec_step(DecoderStateView::SubPayload(option, payload@, iac), b).0,
        message_view(r.message) == spec_step(
            DecoderStateView::SubPayload(option, payload@, iac),
            b,
        ).1,
{
    if iac {
        if b == bytes::SE {
            DecoderResult::new_message(TelnetMessage::SubNegotiation(option, copy_payload(payload)))
        } else {
            DecoderResult::new_state(
                TelnetDecoderState::SubPayload(option, append_to_payload(payload, b), false),
            )
        }
    } else {
        if b == bytes::IAC {
            DecoderResult::new_state(
                TelnetDecoderState::SubPayload(option, copy_payload(payload), true),
            )
        } else {
            DecoderResult::new_state(
                TelnetDecoderState::SubPayload(option, append_to_payload(payload, b), false),
            )
        }
    }
}

/// A fresh vector holding the payload's bytes unchanged.
fn copy_payload(payload: &Vec<u8>) -> (r: Vec<u8>)
    ensures
        r@ == payload@,
{
    let mut r: Vec<u8> = Vec::new();
    let mut i: usize = 0;
    while i < payload.len()
        invariant
            i <= payload.len(),
            r@ == payload@.take(i as int),
        decreases payload.len() - i,
    {
        r.push(payload[i]);
        proof {
            assert(r@ =~= payload@.take(i as int + 1));
        }
        i = i + 1;
    }
    proof {
        assert(payload@.take(payload@.len() as int) =~= payload@);
    }
    r
}

/// A fresh vector holding the payload's bytes with one more at the end.
fn append_to_payload(payload: &Vec<u8>, next: u8) -> (r: Vec<u8>)
    ensures
        r@ == payload@.push(next),
{
    let mut r = copy_payload(payload);
    r.push(next);
    r
}

} // verus!
