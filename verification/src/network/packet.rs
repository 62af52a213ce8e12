use vstd::prelude::*;
use vstd::utf8::{decode_utf8, encode_utf8, valid_utf8};

verus! {

/// The two little-endian bytes of `x`.
pub open spec fn u16_le(x: u16) -> Seq<u8> {
    seq![(x % 256) as u8, (x / 256) as u8]
}

/// The number whose little-endian bytes are `lo` and `hi`.
pub open spec fn u16_from_le(lo: u8, hi: u8) -> u16 {
    (lo + 256 * hi) as u16
}

/// The four little-endian bytes of `x`.
pub open spec fn u32_le(x: u32) -> Seq<u8> {
    seq![(x % 256) as u8, (x / 256 % 256) as u8, (x / 65536 % 256) as u8, (x / 16777216) as u8]
}

/// The number whose little-endian bytes are `b0`, `b1`, `b2`, `b3`.
pub open spec fn u32_from_le(b0: u8, b1: u8, b2: u8, b3: u8) -> u32 {
    (b0 + 256 * b1 + 65536 * b2 + 16777216 * b3) as u32
}

/// A packet on the wire: the packet id in little-endian order, then the payload.
pub open spec fn frame(packet_id: u16, payload: Seq<u8>) -> Seq<u8> {
    u16_le(packet_id) + payload
}

/// The id read from the first two bytes of a frame.
pub open spec fn frame_id(data: Seq<u8>) -> u16
    recommends
        data.len() >= 2,
{
    u16_from_le(data[0], data[1])
}

/// What follows the id in a frame.
pub open spec fn frame_payload(data: Seq<u8>) -> Seq<u8> {
    data.subrange(2, data.len() as int)
}

/// The id that marks a text packet.
pub open spec fn test_packet_id() -> u16 {
    0
}

/// The id that marks a keep-alive packet.
pub open spec fn keep_alive_packet_id() -> u16 {
    1
}

/// What `TestPacket::create` gives for text `content`: the text's UTF-8 bytes framed
/// under the text id, as long as they are at most one byte.
pub open spec fn test_create_spec(content: Seq<char>) -> Result<Seq<u8>, Seq<char>> {
    if encode_utf8(content).len() > 1 {
        Err("Content size exceeds max packet size"@)
    } else {
        Ok(frame(test_packet_id(), encode_utf8(content)))
    }
}

/// What `TestPacket::interpret` gives for a payload: at most one byte of valid UTF-8,
/// decoded.
pub open spec fn test_interpret_spec(content: Seq<u8>) -> Result<Seq<char>, Seq<char>> {
    if content.len() > 1 {
        Err("Content is too large to be interpreted as this packet"@)
    } else if valid_utf8(content) {
        Ok(decode_utf8(content))
    } else {
        Err("Invalid UTF-8"@)
    }
}

/// What `KeepAlivePacket::interpret` gives for a payload: exactly four bytes, read as a
/// little-endian number.
pub open spec fn keep_alive_interpret_spec(content: Seq<u8>) -> Result<u32, Seq<char>> {
    if content.len() == 4 {
        Ok(u32_from_le(content[0], content[1], content[2], content[3]))
    } else {
        Err("Content is not a keep-alive number"@)
    }
}

/// A kind of packet: its id on the wire, and how its content is written and read back.
pub trait Packet {
    type InterpretType;

    const PACKET_ID: u16;

    fn create(content: Self::InterpretType) -> Result<Box<[u8]>, &'static str>;

    fn interpret(content: Box<[u8]>) -> Result<Self::InterpretType, &'static str>;
}

/// The ids of the packet kinds on the wire: text packets are marked 0, keep-alive packets 1.
pub proof fn lemma_packet_ids()
    ensures
        TestPacket::PACKET_ID == test_packet_id(),
        KeepAlivePacket::PACKET_ID == keep_alive_packet_id(),
{
}

/// Which texts a text packet takes, and what it holds: every text whose UTF-8 encoding is at
/// most one byte is accepted, and its packet is the id 0 in two bytes followed by that
/// encoding; a longer text is refused.
pub proof fn lemma_test_create_accepts(content: Seq<char>)
    ensures
        encode_utf8(content).len() <= 1 ==> test_create_spec(content) == Ok::<Seq<u8>, Seq<char>>(
            seq![0u8, 0u8] + encode_utf8(content),
        ),
        encode_utf8(content).len() > 1 ==> test_create_spec(content) is Err,
{
}

/// Every ASCII character is accepted as a text packet: the character of byte `b` below 0x80
/// gives the three bytes `0, 0, b`.
pub proof fn lemma_test_create_ascii(b: u8)
    requires
        b < 0x80,
    ensures
        test_create_spec(seq![b as char]) == Ok::<Seq<u8>, Seq<char>>(seq![0u8, 0u8, b]),
{
    broadcast use vstd::utf8::group_utf8_lib;

    let text = seq![b as char];
    assert(vstd::utf8::is_ascii_chars(text));
    vstd::utf8::is_ascii_chars_encode_utf8(text);
    assert(encode_utf8(text) =~= seq![b]);
    assert(seq![0u8, 0u8] + encode_utf8(text) =~= seq![0u8, 0u8, b]);
}

/// A packet that carries a short text.
pub struct TestPacket;

impl Packet for TestPacket {
    type InterpretType = String;

    const PACKET_ID: u16 = 0;

    fn create(content: String) -> (res: Result<Box<[u8]>, &'static str>)
        ensures
            match res {
                Ok(b) => test_create_spec(content@) == Ok::<Seq<u8>, Seq<char>>(b@),
                Err(e) => test_create_spec(content@) == Err::<Seq<u8>, Seq<char>>(e@),
            },
            encode_utf8(content@).len() <= 1 ==> (res matches Ok(b) && b@ == seq![0u8, 0u8]
                + encode_utf8(content@)),
            encode_utf8(content@).len() > 1 ==> res is Err,
    {
        let bytes = content.as_str().as_bytes();
        if bytes.len() > 1 {
            Err("Content size exceeds max packet size")
        } else {
            Ok(create_raw(Self::PACKET_ID, bytes))
        }
    }

    fn interpret(content: Box<[u8]>) -> (res: Result<String, &'static str>)
        ensures
            match res {
                Ok(s) => test_interpret_spec(content@) == Ok::<Seq<char>, Seq<char>>(s@),
                Err(e) => test_interpret_spec(content@) == Err::<Seq<char>, Seq<char>>(e@),
            },
    {
        let bytes = content.into_vec();
        if bytes.len() > 1 {
            Err("Content is too large to be interpreted as this packet")
        } else {
            match string_from_utf8(bytes) {
                Some(result) => Ok(result),
                None => Err("Invalid UTF-8"),
            }
        }
    }
}

/// A packet that carries the number of a keep-alive check.
pub struct KeepAlivePacket;

impl Packet for KeepAlivePacket {
    type InterpretType = u32;

    const PACKET_ID: u16 = 1;

    fn create(content: u32) -> (res: Result<Box<[u8]>, &'static str>)
        ensures
            res matches Ok(b) && b@ == frame(keep_alive_packet_id(), u32_le(content)),
    {
        let bytes: [u8; 4] = [
            (content % 256) as u8,
            (content / 256 % 256) as u8,
            (content / 65536 % 256) as u8,
            (content / 16777216) as u8,
        ];
        Ok(create_raw(Self::PACKET_ID, &bytes))
    }

    fn interpret(content: Box<[u8]>) -> (res: Result<u32, &'static str>)
        ensures
            match res {
                Ok(n) => keep_alive_interpret_spec(content@) == Ok::<u32, Seq<char>>(n),
                Err(e) => keep_alive_interpret_spec(content@) == Err::<u32, Seq<char>>(e@),
            },
    {
        let bytes = content.into_vec();
        if bytes.len() != 4 {
            Err("Content is not a keep-alive number")
        } else {
            Ok(bytes[0] as u32 + 256 * (bytes[1] as u32) + 65536 * (bytes[2] as u32) + 16777216
                * (bytes[3] as u32))
        }
    }
}

/// Frames `slice` as a packet with id `packet_id`: the id's two little-endian bytes, then
/// the slice.
pub fn create_raw(packet_id: u16, slice: &[u8]) -> (res: Box<[u8]>)
    requires
        slice@.len() + 2 <= usize::MAX,
    ensures
        res@ == frame(packet_id, slice@),
{
    let mut combined: Vec<u8> = Vec::with_capacity(2 + slice.len());
    combined.push((packet_id % 256) as u8);
    combined.push((packet_id / 256) as u8);
    let mut i: usize = 0;
    while i < slice.len()
        invariant
            i <= slice@.len(),
            combined@ == u16_le(packet_id) + slice@.subrange(0, i as int),
        decreases slice@.len() - i,
    {
        combined.push(slice[i]);
        i = i + 1;
        proof {
            assert(slice@.subrange(0, i as int) == slice@.subrange(0, i - 1) + seq![slice@[i - 1]]);
        }
    }
    proof {
        assert(slice@.subrange(0, slice@.len() as int) == slice@);
    }
    into_boxed(combined)
}

/// Frames hold their id and payload: reading a frame back gives the id and payload it was
/// made of.
pub proof fn lemma_frame_round_trip(packet_id: u16, payload: Seq<u8>)
    ensures
        frame(packet_id, payload).len() >= 2,
        frame_id(frame(packet_id, payload)) == packet_id,
        frame_payload(frame(packet_id, payload)) == payload,
{
    let f = frame(packet_id, payload);
    assert(f[0] == (packet_id % 256) as u8 && f[1] == (packet_id / 256) as u8);
    assert(frame_payload(f) =~= payload);
}

/// Framing puts the id in front of the content and leaves the content as it is: the frame of
/// an empty content is the id's two bytes, and framing `a + b` gives the frame of `a`
/// followed by `b`.
pub proof fn lemma_frame_concat(packet_id: u16, a: Seq<u8>, b: Seq<u8>)
    ensures
        frame(packet_id, Seq::<u8>::empty()) == u16_le(packet_id),
        frame(packet_id, a + b) == frame(packet_id, a) + b,
{
    assert(frame(packet_id, Seq::<u8>::empty()) =~= u16_le(packet_id));
    assert(frame(packet_id, a + b) =~= frame(packet_id, a) + b);
}

/// A keep-alive number survives the trip through its four bytes.
pub proof fn lemma_keep_alive_number_round_trip(number: u32)
    ensures
        keep_alive_interpret_spec(u32_le(number)) == Ok::<u32, Seq<char>>(number),
{
    assert(u32_from_le(
        (number % 256) as u8,
        (number / 256 % 256) as u8,
        (number / 65536 % 256) as u8,
        (number / 16777216) as u8,
    ) == number) by (bit_vector);
}

/// A text that `TestPacket::create` accepts is what `TestPacket::interpret` gives back for
/// the payload of the packet it made.
pub proof fn lemma_text_round_trip(content: Seq<char>)
    ensures
        test_create_spec(content) matches Ok(f) ==> {
            &&& frame_id(f) == test_packet_id()
            &&& test_interpret_spec(frame_payload(f)) == Ok::<Seq<char>, Seq<char>>(content)
        },
{
    broadcast use vstd::utf8::group_utf8_lib;

    if let Ok(f) = test_create_spec(content) {
        lemma_frame_round_trip(test_packet_id(), encode_utf8(content));
    }
}

/// `Vec::into_boxed_slice`: the same bytes, as a boxed slice.
#[verifier::external_body]
pub(crate) fn into_boxed(v: Vec<u8>) -> (b: Box<[u8]>)
    ensures
        b@ == v@,
{
    v.into_boxed_slice()
}

/// `String::from_utf8`: the decoded text exactly when the bytes are valid UTF-8, and
/// nothing (its error) otherwise.
#[verifier::external_body]
fn string_from_utf8(bytes: Vec<u8>) -> (res: Option<String>)
    ensures
        match res {
            Some(s) => valid_utf8(bytes@) && s@ == decode_utf8(bytes@),
            None => !valid_utf8(bytes@),
        },
{
    match String::from_utf8(bytes) {
        Ok(s) => Some(s),
        Err(_) => None,
    }
}

} // verus!
