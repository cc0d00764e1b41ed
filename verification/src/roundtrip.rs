use vstd::prelude::*;

use crate::bytes;
use crate::decoder::{spec_run, spec_step, DecoderStateView};
use crate::encoder::{spec_encode, spec_encode_byte, spec_escape_payload};
use crate::messages::{Command, Negotiation, TelnetMessageView};

verus! {

/// Running the decoder over `a + b` is running it over `a`, then over `b`
/// from the state `a` left behind; the messages are those of the two runs in
/// order.
pub proof fn lemma_run_append(s: DecoderStateView, a: Seq<u8>, b: Seq<u8>)
    ensures
        spec_run(s, a + b).0 == spec_run(spec_run(s, a).0, b).0,
        spec_run(s, a + b).1 == spec_run(s, a).1 + spec_run(spec_run(s, a).0, b).1,
    decreases a.len(),
{
    if a.len() == 0 {
        assert(a + b =~= b);
        assert(spec_run(s, a).1 + spec_run(spec_run(s, a).0, b).1 =~= spec_run(s, b).1);
    } else {
        let s1 = spec_step(s, a[0]).0;
        assert((a + b)[0] == a[0]);
        assert((a + b).drop_first() =~= a.drop_first() + b);
        lemma_run_append(s1, a.drop_first(), b);
        match spec_step(s, a[0]).1 {
            Option::Some(m) => {
                assert(seq![m] + (spec_run(s1, a.drop_first()).1 + spec_run(
                    spec_run(s1, a.drop_first()).0,
                    b,
                ).1) =~= (seq![m] + spec_run(s1, a.drop_first()).1) + spec_run(
                    spec_run(s1, a.drop_first()).0,
                    b,
                ).1);
            },
            Option::None => {},
        }
    }
}

/// Feeding the escaped encoding of a payload into a decoder that is gathering
/// a subnegotiation appends exactly that payload to what was gathered, emits
/// nothing, and leaves the escape flag clear.
proof fn lemma_run_escaped_payload(option: u8, acc: Seq<u8>, payload: Seq<u8>)
    ensures
        spec_run(
            DecoderStateView::SubPayload(option, acc, false),
            spec_escape_payload(payload),
        ).0 == DecoderStateView::SubPayload(option, acc + payload, false),
        spec_run(
            DecoderStateView::SubPayload(option, acc, false),
            spec_escape_payload(payload),
        ).1 == Seq::<TelnetMessageView>::empty(),
    decreases payload.len(),
{
    reveal_with_fuel(spec_run, 4);
    let s0 = DecoderStateView::SubPayload(option, acc, false);
    if payload.len() == 0 {
        assert(acc + payload =~= acc);
    } else {
        let b0 = payload[0];
        let acc1 = acc.push(b0);
        let s1 = DecoderStateView::SubPayload(option, acc1, false);
        lemma_run_append(s0, spec_encode_byte(b0), spec_escape_payload(payload.drop_first()));
        if b0 == bytes::IAC {
            assert(spec_encode_byte(b0) =~= seq![bytes::IAC, bytes::IAC]);
            assert(spec_encode_byte(b0).drop_first() =~= seq![bytes::IAC]);
            assert(seq![bytes::IAC].drop_first() =~= Seq::<u8>::empty());
            assert(spec_run(s0, spec_encode_byte(b0)).0 == s1);
            assert(spec_run(s0, spec_encode_byte(b0)).1 =~= Seq::<TelnetMessageView>::empty());
        } else {
            assert(spec_encode_byte(b0) =~= seq![b0]);
            assert(seq![b0].drop_first() =~= Seq::<u8>::empty());
            assert(spec_run(s0, spec_encode_byte(b0)).0 == s1);
            assert(spec_run(s0, spec_encode_byte(b0)).1 =~= Seq::<TelnetMessageView>::empty());
        }
        lemma_run_escaped_payload(option, acc1, payload.drop_first());
        assert(acc1 + payload.drop_first() =~= acc + payload);
    }
}

/// Law: decoding is the inverse of encoding. Feeding the encoding of any
/// message into a decoder with no sequence pending yields exactly that
/// message and leaves the decoder with no sequence pending again. This holds
/// of every variant: plain data bytes (the control-escape byte included),
/// commands, negotiations with any option byte, and subnegotiations with any
/// payload.
pub proof fn lemma_decode_encode_roundtrip(m: TelnetMessageView)
    ensures
        spec_run(DecoderStateView::Ready, spec_encode(m)).0 == DecoderStateView::Ready,
        spec_run(DecoderStateView::Ready, spec_encode(m)).1 == seq![m],
{
    reveal_with_fuel(spec_run, 5);
    let ready = DecoderStateView::Ready;
    match m {
        TelnetMessageView::Byte(b) => {
            if b == bytes::IAC {
                assert(spec_encode(m) =~= seq![bytes::IAC, bytes::IAC]);
                assert(spec_encode(m).drop_first() =~= seq![bytes::IAC]);
                assert(seq![bytes::IAC].drop_first() =~= Seq::<u8>::empty());
                assert(spec_run(ready, spec_encode(m)).1 =~= seq![m]);
            } else {
                assert(spec_encode(m) =~= seq![b]);
                assert(seq![b].drop_first() =~= Seq::<u8>::empty());
                assert(spec_run(ready, spec_encode(m)).1 =~= seq![m]);
            }
        },
        TelnetMessageView::Command(c) => {
            assert(spec_encode(m).drop_first() =~= seq![spec_encode(m)[1]]);
            assert(seq![spec_encode(m)[1]].drop_first() =~= Seq::<u8>::empty());
            assert(spec_run(ready, spec_encode(m)).1 =~= seq![m]);
        },
        TelnetMessageView::Negotiation(n, o) => {
            assert(spec_encode(m).drop_first() =~= seq![spec_encode(m)[1], o]);
            assert(seq![spec_encode(m)[1], o].drop_first() =~= seq![o]);
            assert(seq![o].drop_first() =~= Seq::<u8>::empty());
            assert(spec_run(ready, spec_encode(m)).1 =~= seq![m]);
        },
        TelnetMessageView::SubNegotiation(o, p) => {
            lemma_roundtrip_subnegotiation_bytes(o, p);
        },
    }
}

/// The subnegotiation case of the round trip: the opening bytes put the
/// decoder into payload gathering, the escaped payload re-creates the
/// payload, and the closing bytes emit the message.
proof fn lemma_roundtrip_subnegotiation_bytes(option: u8, payload: Seq<u8>)
    ensures
        spec_run(
            DecoderStateView::Ready,
            spec_encode(TelnetMessageView::SubNegotiation(option, payload)),
        ).0 == DecoderStateView::Ready,
        spec_run(
            DecoderStateView::Ready,
            spec_encode(TelnetMessageView::SubNegotiation(option, payload)),
        ).1 == seq![TelnetMessageView::SubNegotiation(option, payload)],
{
    reveal_with_fuel(spec_run, 5);
    let ready = DecoderStateView::Ready;
    let opening = seq![bytes::IAC, bytes::SB, option];
    let escaped = spec_escape_payload(payload);
    let closing = seq![bytes::IAC, bytes::SE];
    let whole = spec_encode(TelnetMessageView::SubNegotiation(option, payload));
    assert(whole =~= (opening + escaped) + closing);

    let gathering = DecoderStateView::SubPayload(option, Seq::empty(), false);
    assert(opening.drop_first() =~= seq![bytes::SB, option]);
    assert(seq![bytes::SB, option].drop_first() =~= seq![option]);
    assert(seq![option].drop_first() =~= Seq::<u8>::empty());
    assert(spec_run(ready, opening).0 == gathering);
    assert(spec_run(ready, opening).1 =~= Seq::<TelnetMessageView>::empty());

    lemma_run_escaped_payload(option, Seq::empty(), payload);
    assert(Seq::empty() + payload =~= payload);
    let gathered = DecoderStateView::SubPayload(option, payload, false);

    assert(closing.drop_first() =~= seq![bytes::SE]);
    assert(seq![bytes::SE].drop_first() =~= Seq::<u8>::empty());
    assert(spec_run(gathered, closing).0 == ready);
    assert(spec_run(gathered, closing).1 =~= seq![
        TelnetMessageView::SubNegotiation(option, payload),
    ]);

    lemma_run_append(ready, opening, escaped);
    assert(spec_run(ready, opening + escaped).1 =~= Seq::<TelnetMessageView>::empty());
    lemma_run_append(ready, opening + escaped, closing);
    assert(spec_run(ready, whole).1 =~= seq![
        TelnetMessageView::SubNegotiation(option, payload),
    ]);
}

/// Law: a plain data byte other than the control-escape byte decodes from
/// its encoding to exactly itself.
pub proof fn lemma_roundtrip_plain_byte(b: u8)
    requires
        b != bytes::IAC,
    ensures
        spec_run(
            DecoderStateView::Ready,
            spec_encode(TelnetMessageView::Byte(b)),
        ) == (DecoderStateView::Ready, seq![TelnetMessageView::Byte(b)]),
{
    lemma_decode_encode_roundtrip(TelnetMessageView::Byte(b));
}

/// Law: every command decodes from its encoding to exactly itself.
pub proof fn lemma_roundtrip_command(c: Command)
    ensures
        spec_run(
            DecoderStateView::Ready,
            spec_encode(TelnetMessageView::Command(c)),
        ) == (DecoderStateView::Ready, seq![TelnetMessageView::Command(c)]),
{
    lemma_decode_encode_roundtrip(TelnetMessageView::Command(c));
}

/// Law: every negotiation, with any option byte, decodes from its encoding
/// to exactly itself.
pub proof fn lemma_roundtrip_negotiation(n: Negotiation, option: u8)
    ensures
        spec_run(
            DecoderStateView::Ready,
            spec_encode(TelnetMessageView::Negotiation(n, option)),
        ) == (DecoderStateView::Ready, seq![TelnetMessageView::Negotiation(n, option)]),
{
    lemma_decode_encode_roundtrip(TelnetMessageView::Negotiation(n, option));
}

/// Law: every subnegotiation, with any option and any payload (empty or
/// holding the control-escape byte value included), decodes from its
/// encoding to exactly itself.
pub proof fn lemma_roundtrip_subnegotiation(option: u8, payload: Seq<u8>)
    ensures
        spec_run(
            DecoderStateView::Ready,
            spec_encode(TelnetMessageView::SubNegotiation(option, payload)),
        ) == (
            DecoderStateView::Ready,
            seq![TelnetMessageView::SubNegotiation(option, payload)],
        ),
{
    lemma_decode_encode_roundtrip(TelnetMessageView::SubNegotiation(option, payload));
}

/// Law: a byte sequence that leaves the decoder with no sequence pending
/// leaves no residue behind. Whatever is decoded after it comes out exactly
/// as it would from a fresh decoder, and the combined run emits the two runs'
/// messages in order.
pub proof fn lemma_ready_leaves_no_residual_state(a: Seq<u8>, b: Seq<u8>)
    requires
        spec_run(DecoderStateView::Ready, a).0 == DecoderStateView::Ready,
    ensures
        spec_run(DecoderStateView::Ready, a + b).0 == spec_run(DecoderStateView::Ready, b).0,
        spec_run(DecoderStateView::Ready, a + b).1 == spec_run(DecoderStateView::Ready, a).1
            + spec_run(DecoderStateView::Ready, b).1,
{
    lemma_run_append(DecoderStateView::Ready, a, b);
}

} // verus!
