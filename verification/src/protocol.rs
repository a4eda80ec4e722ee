//! The plug's wire format: a cipher in which each byte is masked with the one before it, and
//! frames that carry their length in front.
use vstd::arithmetic::div_mod::lemma_div_denominator;
use vstd::prelude::*;
use vstd::string::StringSliceAdditionalSpecFns;

verus! {

/// What the plug is asked for: who it is and what it measures right now.
pub const KASA_REQUEST: &'static str =
    "{\"system\":{\"get_sysinfo\":{}},\"emeter\":{\"get_realtime\":{}}}";

/// The bytes of a text that is ASCII throughout.
pub open spec fn ascii_bytes(text: Seq<char>) -> Seq<u8> {
    Seq::new(text.len(), |i: int| text[i] as u8)
}

/// The mask of the first byte.
pub const FIRST_MASK: u8 = 0xAB;

/// `plain` enciphered: each byte is masked with the enciphered byte before it.
pub open spec fn enciphered(plain: Seq<u8>) -> Seq<u8>
    decreases plain.len(),
{
    if plain.len() == 0 {
        Seq::empty()
    } else {
        let before = enciphered(plain.drop_last());
        before.push(plain.last() ^ last_or_first_mask(before))
    }
}

/// `cipher` deciphered: each byte is masked with the enciphered byte before it.
pub open spec fn deciphered(cipher: Seq<u8>) -> Seq<u8> {
    Seq::new(
        cipher.len(),
        |i: int| cipher[i] ^ last_or_first_mask(cipher.take(i)),
    )
}

/// The byte that masks the one to follow.
pub open spec fn last_or_first_mask(cipher: Seq<u8>) -> u8 {
    if cipher.len() == 0 {
        FIRST_MASK
    } else {
        cipher.last()
    }
}

/// The four bytes of `n`, the most significant first.
pub open spec fn be_bytes(n: u32) -> Seq<u8> {
    seq![
        (n / 0x100_0000) as u8,
        (n / 0x1_0000 % 0x100) as u8,
        (n / 0x100 % 0x100) as u8,
        (n % 0x100) as u8,
    ]
}

/// The number that four bytes stand for, the most significant first.
pub open spec fn be_value(b: Seq<u8>) -> int {
    b[0] * 0x100_0000 + b[1] * 0x1_0000 + b[2] * 0x100 + b[3]
}

/// Calls `tplink_shome_protocol::encrypt`. The result is [`enciphered`] of the argument.
#[verifier::external_body]
fn encrypt(plain: &[u8]) -> (r: Vec<u8>)
    ensures
        r@ == enciphered(plain@),
{
    tplink_shome_protocol::encrypt(plain)
}

/// Calls `tplink_shome_protocol::decrypt`. The result is [`deciphered`] of the argument.
#[verifier::external_body]
fn decrypt(cipher: &[u8]) -> (r: Vec<u8>)
    ensures
        r@ == deciphered(cipher@),
{
    tplink_shome_protocol::decrypt(cipher)
}

/// A message on its way to the plug: the length of the body, and the body.
#[derive(Debug, PartialEq, Eq)]
pub struct Frame {
    pub header: [u8; 4],
    pub body: Vec<u8>,
}

/// The frame that carries `message`.
pub fn encode_message(message: &[u8]) -> (r: Frame)
    requires
        message@.len() <= u32::MAX,
    ensures
        r.body@ == enciphered(message@),
        r.header@ == be_bytes(message@.len() as u32),
{
    let body = encrypt(message);
    proof {
        lemma_enciphered_len(message@);
    }
    let n: u32 = body.len() as u32;
    let header: [u8; 4] = [
        (n / 0x100_0000) as u8,
        (n / 0x1_0000 % 0x100) as u8,
        (n / 0x100 % 0x100) as u8,
        (n % 0x100) as u8,
    ];
    assert(header@ =~= be_bytes(n));
    Frame { header, body }
}

/// The frame that asks the plug for a reading.
pub fn request_frame() -> (r: Frame)
    ensures
        r.body@ == enciphered(ascii_bytes(KASA_REQUEST@)),
        r.header@ == be_bytes(58),
{
    proof {
        lemma_request_bytes();
    }
    encode_message(KASA_REQUEST.as_bytes())
}

/// How many bytes of body follow a frame's header.
pub fn body_len(header: [u8; 4]) -> (r: usize)
    ensures
        r == be_value(header@),
{
    let n: u32 = header[0] as u32 * 0x100_0000 + header[1] as u32 * 0x1_0000 + header[2] as u32
        * 0x100 + header[3] as u32;
    n as usize
}

/// The message that a frame's body carries.
pub fn decode_body(body: &[u8]) -> (r: Vec<u8>)
    ensures
        r@ == deciphered(body@),
{
    decrypt(body)
}

proof fn lemma_request_bytes()
    ensures
        KASA_REQUEST@.len() == 58,
        KASA_REQUEST.spec_bytes() == ascii_bytes(KASA_REQUEST@),
{
    reveal_strlit("{\"system\":{\"get_sysinfo\":{}},\"emeter\":{\"get_realtime\":{}}}");
    assert(KASA_REQUEST.is_ascii());
    assert(KASA_REQUEST.spec_bytes() =~= ascii_bytes(KASA_REQUEST@));
}

pub proof fn lemma_enciphered_len(plain: Seq<u8>)
    ensures
        enciphered(plain).len() == plain.len(),
    decreases plain.len(),
{
    if plain.len() > 0 {
        lemma_enciphered_len(plain.drop_last());
    }
}

/// What was enciphered is deciphered to itself.
pub proof fn law_decipher_enciphered(plain: Seq<u8>)
    ensures
        deciphered(enciphered(plain)) == plain,
    decreases plain.len(),
{
    lemma_enciphered_len(plain);
    if plain.len() > 0 {
        let init = plain.drop_last();
        law_decipher_enciphered(init);
        lemma_enciphered_len(init);
        let c = enciphered(plain);
        let before = enciphered(init);
        assert(c.take(before.len() as int) =~= before);
        assert forall|i: int| 0 <= i < plain.len() implies deciphered(c)[i] == plain[i] by {
            if i < init.len() {
                assert(c.take(i) =~= before.take(i));
                assert(deciphered(before)[i] == init[i]);
            } else {
                let p = plain.last();
                let m = last_or_first_mask(before);
                assert((p ^ m) ^ m == p) by (bit_vector);
            }
        }
    }
    assert(deciphered(enciphered(plain)) =~= plain);
}

/// What was deciphered is enciphered to itself.
pub proof fn law_encipher_deciphered(cipher: Seq<u8>)
    ensures
        enciphered(deciphered(cipher)) == cipher,
    decreases cipher.len(),
{
    if cipher.len() > 0 {
        let init = cipher.drop_last();
        law_encipher_deciphered(init);
        let p = deciphered(cipher);
        assert(p.drop_last() =~= deciphered(init)) by {
            assert forall|i: int| 0 <= i < init.len() implies p[i] == deciphered(init)[i] by {
                assert(cipher.take(i) =~= init.take(i));
            }
        }
        let last = cipher.last();
        assert(cipher.take(cipher.len() - 1) =~= init);
        let m = last_or_first_mask(init);
        assert((last ^ m) ^ m == last) by (bit_vector);
        assert(enciphered(p) =~= cipher);
    } else {
        assert(enciphered(deciphered(cipher)) =~= cipher);
    }
}

proof fn lemma_be_value(n: u32)
    ensures
        be_value(be_bytes(n)) == n,
{
    let x = n as int;
    lemma_div_denominator(x, 0x100, 0x100);
    lemma_div_denominator(x, 0x1_0000, 0x100);
    let b = be_bytes(n);
    assert(b[3] == x % 0x100);
    assert(b[2] == x / 0x100 % 0x100);
    assert(b[1] == x / 0x1_0000 % 0x100);
    assert(b[0] == x / 0x100_0000);
}

proof fn lemma_be_bytes(b: Seq<u8>)
    requires
        b.len() == 4,
    ensures
        0 <= be_value(b) <= u32::MAX,
        be_bytes(be_value(b) as u32) == b,
{
    let x = be_value(b);
    lemma_div_denominator(x, 0x100, 0x100);
    lemma_div_denominator(x, 0x1_0000, 0x100);
    let x1 = b[0] * 0x1_0000 + b[1] * 0x100 + b[2];
    let x2 = b[0] * 0x100 + b[1];
    assert(x == x1 * 0x100 + b[3] && x1 == x2 * 0x100 + b[2]);
    assert(x / 0x100 == x1);
    assert(x1 / 0x100 == x2);
    assert(x2 / 0x100 == b[0]);
    assert(be_bytes(x as u32) =~= b);
}

/// A frame's header gives back the length that was written into it, and a length read from a
/// header is written as that header.
pub proof fn law_header_round_trip(n: u32, header: Seq<u8>)
    requires
        header.len() == 4,
    ensures
        be_value(be_bytes(n)) == n,
        0 <= be_value(header) <= u32::MAX,
        be_bytes(be_value(header) as u32) == header,
{
    lemma_be_value(n);
    lemma_be_bytes(header);
}

/// Whoever reads a frame as the plug's replies are read gets the message that it was made
/// from: the header says how many bytes follow, and they decode to the message.
pub proof fn law_frame_round_trip(message: Seq<u8>)
    requires
        message.len() <= u32::MAX,
    ensures
        be_value(be_bytes(message.len() as u32)) == enciphered(message).len(),
        deciphered(enciphered(message)) == message,
{
    lemma_be_value(message.len() as u32);
    lemma_enciphered_len(message);
    law_decipher_enciphered(message);
}

proof fn lemma_enciphered_bytes(plain: Seq<u8>, i: int)
    requires
        0 <= i < plain.len(),
    ensures
        enciphered(plain).len() == plain.len(),
        enciphered(plain)[i] == plain[i] ^ (if i == 0 {
            0xABu8
        } else {
            enciphered(plain)[i - 1]
        }),
    decreases plain.len(),
{
    let init = plain.drop_last();
    lemma_enciphered_len(plain);
    lemma_enciphered_len(init);
    if i < init.len() {
        lemma_enciphered_bytes(init, i);
    }
}

/// What a frame holds, byte by byte. The body is as long as the message, and each of its bytes
/// is the message's with the body's byte before it laid over, the first with a fixed one. The
/// header is that length in base 256, most significant digit first. Any message whose length
/// is a `u32` has a frame.
pub proof fn law_frame_bytes(message: &[u8], r: Frame, i: int)
    requires
        message@.len() <= 0xFFFF_FFFF,
        call_ensures(encode_message, (message,), r),
    ensures
        r.body@.len() == message@.len(),
        0 < i < message@.len() ==> r.body@[i] == message@[i] ^ r.body@[i - 1],
        message@.len() > 0 ==> r.body@[0] == message@[0] ^ 0xABu8,
        r.header@.len() == 4,
        ((r.header@[0] * 256 + r.header@[1]) * 256 + r.header@[2]) * 256 + r.header@[3]
            == message@.len(),
        call_requires(encode_message, (message,)),
{
    lemma_enciphered_len(message@);
    lemma_be_value(message@.len() as u32);
    if message@.len() > 0 {
        lemma_enciphered_bytes(message@, 0);
    }
    if 0 < i < message@.len() {
        lemma_enciphered_bytes(message@, i);
    }
}

/// What a body decodes to, byte by byte: as long as the body, each byte the body's with the
/// body's byte before it laid over, the first with a fixed one.
pub proof fn law_decoded_bytes(body: &[u8], r: Vec<u8>, i: int)
    requires
        call_ensures(decode_body, (body,), r),
    ensures
        r@.len() == body@.len(),
        0 < i < body@.len() ==> r@[i] == body@[i] ^ body@[i - 1],
        body@.len() > 0 ==> r@[0] == body@[0] ^ 0xABu8,
{
}

/// A header says how many bytes follow in base 256, most significant digit first.
pub proof fn law_header_is_positional(header: [u8; 4], r: usize)
    requires
        call_ensures(body_len, (header,), r),
    ensures
        r == ((header@[0] * 256 + header@[1]) * 256 + header@[2]) * 256 + header@[3],
{
}

/// Who sends a message in a frame and reads it as a reply is read gets the message back.
pub proof fn law_message_comes_back(message: &[u8], frame: Frame, body: &[u8], r: Vec<u8>, n: usize)
    requires
        message@.len() <= 0xFFFF_FFFF,
        call_ensures(encode_message, (message,), frame),
        call_ensures(body_len, (frame.header,), n),
        body@ == frame.body@,
        call_ensures(decode_body, (body,), r),
    ensures
        n == frame.body@.len(),
        r@ == message@,
{
    law_frame_round_trip(message@);
}

/// The request is a frame of fifty-eight bytes that decodes to the question, character by
/// character.
pub proof fn law_request_asks_for_a_reading(frame: Frame, body: &[u8], r: Vec<u8>, i: int)
    requires
        call_ensures(request_frame, (), frame),
        body@ == frame.body@,
        call_ensures(decode_body, (body,), r),
    ensures
        frame.header@ == seq![0u8, 0u8, 0u8, 58u8],
        r@.len() == 58,
        0 <= i < 58 ==> r@[i] as char
            == "{\"system\":{\"get_sysinfo\":{}},\"emeter\":{\"get_realtime\":{}}}"@[i],
{
    reveal_strlit("{\"system\":{\"get_sysinfo\":{}},\"emeter\":{\"get_realtime\":{}}}");
    lemma_request_bytes();
    law_decipher_enciphered(ascii_bytes(KASA_REQUEST@));
    assert(frame.header@ =~= seq![0u8, 0u8, 0u8, 58u8]);
}

} // verus!
