use vstd::prelude::*;

verus! {

/// The four negotiation verbs that can be sent or received for a Telnet option.
#[derive(Clone, Copy, Debug, PartialEq, Eq)]
pub enum Negotiation {
    Do,
    Dont,
    Will,
    Wont,
}

/// The single-byte protocol commands that can stand alone as Telnet messages.
#[derive(Clone, Copy, Debug, PartialEq, Eq)]
pub enum Command {
    DataMark,
    Break,
    InterruptProcess,
    AbortOutput,
    AreYouThere,
    EraseCharacter,
    EraseLine,
    GoAhead,
}

/// A single decoded Telnet message: a plain data byte, a protocol command,
/// an option negotiation, or an option subnegotiation with its payload.
#[derive(Debug, PartialEq, Eq)]
pub enum TelnetMessage {
    /// A single bare data byte.
    Byte(u8),
    /// A protocol-level command.
    Command(Command),
    /// An option negotiation: a verb together with the option it concerns.
    Negotiation(Negotiation, u8),
    /// An option subnegotiation: the option together with its raw payload.
    SubNegotiation(u8, Vec<u8>),
}

/// The mathematical shape of a [`TelnetMessage`]: the same variants, with the
/// subnegotiation payload abstracted to a sequence of bytes.
pub enum TelnetMessageView {
    Byte(u8),
    Command(Command),
    Negotiation(Negotiation, u8),
    SubNegotiation(u8, Seq<u8>),
}

impl View for TelnetMessage {
    type V = TelnetMessageView;

    open spec fn view(&self) -> TelnetMessageView {
        match self {
            TelnetMessage::Byte(b) => TelnetMessageView::Byte(*b),
            TelnetMessage::Command(c) => TelnetMessageView::Command(*c),
            TelnetMessage::Negotiation(n, o) => TelnetMessageView::Negotiation(*n, *o),
            TelnetMessage::SubNegotiation(o, p) => TelnetMessageView::SubNegotiation(*o, p@),
        }
    }
}

/// The view of a decoder step's output: the message it holds, if any, as its view.
pub open spec fn message_view(m: Option<TelnetMessage>) -> Option<TelnetMessageView> {
    match m {
        Option::Some(msg) => Option::Some(msg@),
        Option::None => Option::None,
    }
}

} // verus!
