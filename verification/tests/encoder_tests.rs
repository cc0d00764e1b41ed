use libelinvar::decoder::TelnetDecoder;
use libelinvar::encoder::encode_telnet_message;
use libelinvar::messages::{Command, Negotiation, TelnetMessage};

#[test]
fn test_encode_byte() {
    let message = TelnetMessage::Byte(200);
    let encoded = encode_telnet_message(message);
    assert_eq!(vec![200], encoded);
}

#[test]
fn test_encode_iac_byte() {
    let message = TelnetMessage::Byte(255);
    let encoded = encode_telnet_message(message);
    assert_eq!(vec![255, 255], encoded);
}

#[test]
fn test_encode_abort_output() {
    let message = TelnetMessage::Command(Command::AbortOutput);
    let encoded = encode_telnet_message(message);
    assert_eq!(vec![255, 245], encoded);
}

#[test]
fn test_encode_negotiation() {
    let message = TelnetMessage::Negotiation(Negotiation::Wont, 31);
    let encoded = encode_telnet_message(message);
    assert_eq!(vec![255, 252, 31], encoded);
}

#[test]
fn test_encode_empty_subnegotiation() {
    let message = TelnetMessage::SubNegotiation(31, vec![]);
    let encoded = encode_telnet_message(message);
    assert_eq!(vec![255, 250, 31, 255, 240], encoded);
}

#[test]
fn test_encode_simple_subnegotiation() {
    let message = TelnetMessage::SubNegotiation(31, vec![0, 80, 0, 24]);
    let encoded = encode_telnet_message(message);
    assert_eq!(vec![255, 250, 31, 0, 80, 0, 24, 255, 240], encoded);
}

#[test]
fn test_encode_subnegotiation_containing_iac() {
    let message = TelnetMessage::SubNegotiation(31, vec![0, 255, 0, 24]);
    let encoded = encode_telnet_message(message);
    assert_eq!(vec![255, 250, 31, 0, 255, 255, 0, 24, 255, 240], encoded);
}

#[test]
fn test_encode_negotiation_option_is_not_escaped() {
    let message = TelnetMessage::Negotiation(Negotiation::Do, 255);
    let encoded = encode_telnet_message(message);
    assert_eq!(vec![255, 253, 255], encoded);
}

/// Encode a message and feed the bytes back into a fresh decoder, returning
/// every message the decoder emits.
fn roundtrip(message: TelnetMessage) -> Vec<TelnetMessage> {
    let encoded = encode_telnet_message(message);
    let mut decoder = TelnetDecoder::new();
    let mut decoded = Vec::new();
    for b in encoded {
        if let Some(m) = decoder.inject_byte(b) {
            decoded.push(m);
        }
    }
    decoded
}

#[test]
fn test_roundtrip_plain_byte() {
    assert_eq!(vec![TelnetMessage::Byte(42)], roundtrip(TelnetMessage::Byte(42)));
}

#[test]
fn test_roundtrip_escape_byte() {
    let encoded = encode_telnet_message(TelnetMessage::Byte(255));
    assert_eq!(2, encoded.len());
    assert_eq!(vec![255, 255], encoded);
    assert_eq!(vec![TelnetMessage::Byte(255)], roundtrip(TelnetMessage::Byte(255)));
}

#[test]
fn test_roundtrip_all_commands() {
    let commands = vec![
        Command::DataMark,
        Command::Break,
        Command::InterruptProcess,
        Command::AbortOutput,
        Command::AreYouThere,
        Command::EraseCharacter,
        Command::EraseLine,
        Command::GoAhead,
    ];
    for c in commands {
        assert_eq!(vec![TelnetMessage::Command(c)], roundtrip(TelnetMessage::Command(c)));
    }
}

#[test]
fn test_roundtrip_all_negotiations() {
    let verbs = vec![Negotiation::Do, Negotiation::Dont, Negotiation::Will, Negotiation::Wont];
    for n in verbs {
        assert_eq!(
            vec![TelnetMessage::Negotiation(n, 13)],
            roundtrip(TelnetMessage::Negotiation(n, 13))
        );
    }
}

#[test]
fn test_roundtrip_subnegotiation_with_escapes() {
    let message = TelnetMessage::SubNegotiation(31, vec![0, 255, 0, 24]);
    let expected = TelnetMessage::SubNegotiation(31, vec![0, 255, 0, 24]);
    assert_eq!(vec![expected], roundtrip(message));
}
