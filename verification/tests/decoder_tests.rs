use libelinvar::decoder::TelnetDecoder;
use libelinvar::messages::{Command, Negotiation, TelnetMessage};

/// Decode a list of bytes into the list of Telnet messages they complete.
/// Bytes that do not complete a message add nothing to the result.
fn decode_bytes(bytes: Vec<u8>) -> Vec<TelnetMessage> {
    let mut result = Vec::new();
    let mut decoder = TelnetDecoder::new();
    for b in bytes {
        let message = decoder.inject_byte(b);
        if message.is_some() {
            result.push(message.unwrap());
        }
    }

    result
}

#[test]
fn test_decode_simple_byte() {
    let actual = decode_bytes(vec![200]);
    assert_eq!(vec![TelnetMessage::Byte(200)], actual);
}

#[test]
fn test_decode_iac_byte() {
    let actual = decode_bytes(vec![255]);
    assert_eq!(0, actual.len());
}

#[test]
fn test_decode_escaped_iac_byte() {
    let actual = decode_bytes(vec![255, 255]);
    assert_eq!(vec![TelnetMessage::Byte(255)], actual);
}

#[test]
fn test_decode_go_ahead() {
    let actual = decode_bytes(vec![255, 249]);
    assert_eq!(vec![TelnetMessage::Command(Command::GoAhead)], actual);
}

#[test]
fn test_decode_do() {
    let actual = decode_bytes(vec![255, 253]);
    assert_eq!(0, actual.len());
}

#[test]
fn test_decode_do_option() {
    let actual = decode_bytes(vec![255, 253, 12]);
    assert_eq!(vec![TelnetMessage::Negotiation(Negotiation::Do, 12)], actual);
}

#[test]
fn test_decode_empty_subnegotiation() {
    let actual = decode_bytes(vec![255, 250, 31, 255, 240]);
    assert_eq!(vec![TelnetMessage::SubNegotiation(31, vec![])], actual);
}

#[test]
fn test_decode_subnegotiation_containing_iac() {
    let actual = decode_bytes(vec![255, 250, 31, 0, 255, 255, 0, 24, 255, 240]);
    assert_eq!(vec![TelnetMessage::SubNegotiation(31, vec![0, 255, 0, 24])], actual);
}

#[test]
fn test_decode_negotiation_option_is_not_unescaped() {
    let actual = decode_bytes(vec![255, 253, 255]);
    assert_eq!(vec![TelnetMessage::Negotiation(Negotiation::Do, 255)], actual);
}

#[test]
fn test_decode_unknown_escape_degrades_to_byte() {
    let actual = decode_bytes(vec![255, 100]);
    assert_eq!(vec![TelnetMessage::Byte(100)], actual);
}

#[test]
fn test_decode_payload_escape_before_other_byte_is_dropped() {
    let actual = decode_bytes(vec![255, 250, 31, 255, 80, 255, 240]);
    assert_eq!(vec![TelnetMessage::SubNegotiation(31, vec![80])], actual);
}

#[test]
fn test_decode_all_commands() {
    let expected = vec![
        TelnetMessage::Command(Command::DataMark),
        TelnetMessage::Command(Command::Break),
        TelnetMessage::Command(Command::InterruptProcess),
        TelnetMessage::Command(Command::AbortOutput),
        TelnetMessage::Command(Command::AreYouThere),
        TelnetMessage::Command(Command::EraseCharacter),
        TelnetMessage::Command(Command::EraseLine),
        TelnetMessage::Command(Command::GoAhead),
    ];
    let actual = decode_bytes(vec![
        255, 242, 255, 243, 255, 244, 255, 245, 255, 246, 255, 247, 255, 248, 255, 249,
    ]);
    assert_eq!(expected, actual);
}

#[test]
fn test_decode_completed_message_leaves_no_residual_state() {
    let first: Vec<u8> = vec![255, 253, 12];
    let second: Vec<u8> = vec![255, 250, 31, 0, 255, 255, 255, 240];
    let third: Vec<u8> = vec![200];

    let mut combined = Vec::new();
    combined.extend(first.clone());
    combined.extend(second.clone());
    combined.extend(third.clone());

    let mut expected = Vec::new();
    expected.extend(decode_bytes(first));
    expected.extend(decode_bytes(second));
    expected.extend(decode_bytes(third));

    assert_eq!(expected, decode_bytes(combined));
}
