use vstd::prelude::*;

use crate::network::packet::{
    frame, frame_id, frame_payload, into_boxed, keep_alive_interpret_spec, keep_alive_packet_id,
    lemma_frame_round_trip, lemma_keep_alive_number_round_trip, lemma_packet_ids, lemma_text_round_trip,
    test_create_spec, test_interpret_spec, test_packet_id, u32_from_le, u32_le,
    KeepAlivePacket, Packet, TestPacket,
};
use crate::util::number::random_non_zero_u32;
use vstd::utf8::{decode_utf8, encode_utf8, is_ascii_chars, is_ascii_chars_encode_utf8, valid_utf8};

verus! {

/// What the reader of a connection does with one read from its stream.
pub enum ReaderAction {
    /// The peer closed the stream, or the connection is shutting down: report that the
    /// connection was closed and stop reading.
    Closed,
    /// Fewer bytes than a packet id arrived: nothing to do.
    Ignore,
    /// A text packet arrived: report its text as a success.
    Text(String),
    /// The awaited keep-alive number came back: report success and clear the awaited
    /// number (store 0).
    KeepAliveCompleted,
    /// Another keep-alive number came back: warn and stop reading.
    KeepAliveFailed,
    /// The packet id names no known packet: warn and go on reading.
    UnknownPacket,
    /// A packet of a known kind could not be interpreted, for the reason given: the reader
    /// fails with that error.
    Malformed(&'static str),
}

/// The mathematical counterpart of `ReaderAction`.
pub enum ReaderOutcome {
    Closed,
    Ignore,
    Text(Seq<char>),
    KeepAliveCompleted,
    KeepAliveFailed,
    UnknownPacket,
    Malformed(Seq<char>),
}

impl View for ReaderAction {
    type V = ReaderOutcome;

    open spec fn view(&self) -> ReaderOutcome {
        match self {
            ReaderAction::Closed => ReaderOutcome::Closed,
            ReaderAction::Ignore => ReaderOutcome::Ignore,
            ReaderAction::Text(s) => ReaderOutcome::Text(s@),
            ReaderAction::KeepAliveCompleted => ReaderOutcome::KeepAliveCompleted,
            ReaderAction::KeepAliveFailed => ReaderOutcome::KeepAliveFailed,
            ReaderAction::UnknownPacket => ReaderOutcome::UnknownPacket,
            ReaderAction::Malformed(e) => ReaderOutcome::Malformed(e@),
        }
    }
}

/// What the reader does with the bytes `data` of one read, when `shutdown` tells whether
/// the connection is shutting down and `expected` is the awaited keep-alive number (0 when
/// none is awaited).
pub open spec fn reader_outcome(data: Seq<u8>, shutdown: bool, expected: u32) -> ReaderOutcome {
    if data.len() == 0 || shutdown {
        ReaderOutcome::Closed
    } else if data.len() < 2 {
        ReaderOutcome::Ignore
    } else if frame_id(data) == test_packet_id() {
        match test_interpret_spec(frame_payload(data)) {
            Ok(text) => ReaderOutcome::Text(text),
            Err(e) => ReaderOutcome::Malformed(e),
        }
    } else if frame_id(data) == keep_alive_packet_id() {
        match keep_alive_interpret_spec(frame_payload(data)) {
            Ok(number) => if number == expected {
                ReaderOutcome::KeepAliveCompleted
            } else {
                ReaderOutcome::KeepAliveFailed
            },
            Err(e) => ReaderOutcome::Malformed(e),
        }
    } else {
        ReaderOutcome::UnknownPacket
    }
}

/// The bytes of `data` from `start` on, in a box of their own.
fn boxed_tail(data: &[u8], start: usize) -> (res: Box<[u8]>)
    requires
        start <= data@.len(),
    ensures
        res@ == data@.subrange(start as int, data@.len() as int),
{
    let mut rest: Vec<u8> = Vec::new();
    let mut i: usize = start;
    while i < data.len()
        invariant
            start <= i <= data@.len(),
            rest@ == data@.subrange(start as int, i as int),
        decreases data@.len() - i,
    {
        rest.push(data[i]);
        i = i + 1;
        proof {
            assert(data@.subrange(start as int, i as int) == data@.subrange(start as int, i - 1)
                + seq![data@[i - 1]]);
        }
    }
    into_boxed(rest)
}

/// Decides what the reader of a connection does with the bytes `data` of one read (see
/// `reader_outcome`).
pub fn reader_step(data: &[u8], shutdown: bool, expected: u32) -> (action: ReaderAction)
    ensures
        action@ == reader_outcome(data@, shutdown, expected),
{
    if data.len() == 0 || shutdown {
        return ReaderAction::Closed;
    }
    if data.len() < 2 {
        return ReaderAction::Ignore;
    }
    let id: u16 = data[0] as u16 + 256 * (data[1] as u16);
    let content = boxed_tail(data, 2);
    proof {
        lemma_packet_ids();
    }
    if id == TestPacket::PACKET_ID {
        match TestPacket::interpret(content) {
            Ok(text) => ReaderAction::Text(text),
            Err(e) => ReaderAction::Malformed(e),
        }
    } else if id == KeepAlivePacket::PACKET_ID {
        match KeepAlivePacket::interpret(content) {
            Ok(number) => if number == expected {
                ReaderAction::KeepAliveCompleted
            } else {
                ReaderAction::KeepAliveFailed
            },
            Err(e) => ReaderAction::Malformed(e),
        }
    } else {
        ReaderAction::UnknownPacket
    }
}

/// What the keep-alive timer of a connection does when it fires.
pub enum KeepAliveAction {
    /// The connection is shutting down: stop the timer.
    Stop,
    /// The previous keep-alive number was never answered: warn and stop the timer.
    NoResponse,
    /// Await `number` (store it) and send `frame`, the keep-alive packet that carries it.
    Send(u32, Box<[u8]>),
}

/// The mathematical counterpart of `KeepAliveAction`.
pub enum KeepAliveOutcome {
    Stop,
    NoResponse,
    Send(u32, Seq<u8>),
}

impl View for KeepAliveAction {
    type V = KeepAliveOutcome;

    open spec fn view(&self) -> KeepAliveOutcome {
        match self {
            KeepAliveAction::Stop => KeepAliveOutcome::Stop,
            KeepAliveAction::NoResponse => KeepAliveOutcome::NoResponse,
            KeepAliveAction::Send(n, f) => KeepAliveOutcome::Send(*n, f@),
        }
    }
}

/// The keep-alive packet that carries `number`.
pub open spec fn keep_alive_frame(number: u32) -> Seq<u8> {
    frame(keep_alive_packet_id(), u32_le(number))
}

/// What the keep-alive timer does when `shutdown` tells whether the connection is
/// shutting down, `expected` is the awaited number (0 when none is awaited) and `number`
/// is the fresh number to send.
pub open spec fn keep_alive_outcome(shutdown: bool, expected: u32, number: u32) -> KeepAliveOutcome {
    if shutdown {
        KeepAliveOutcome::Stop
    } else if expected != 0 {
        KeepAliveOutcome::NoResponse
    } else {
        KeepAliveOutcome::Send(number, keep_alive_frame(number))
    }
}

/// Decides what the keep-alive timer does, given the fresh number `number` (see
/// `keep_alive_outcome`).
pub fn keep_alive_step(shutdown: bool, expected: u32, number: u32) -> (action: KeepAliveAction)
    ensures
        action@ == keep_alive_outcome(shutdown, expected, number),
{
    if shutdown {
        return KeepAliveAction::Stop;
    }
    if expected != 0 {
        return KeepAliveAction::NoResponse;
    }
    match KeepAlivePacket::create(number) {
        Ok(packet) => KeepAliveAction::Send(number, packet),
        Err(_) => KeepAliveAction::Stop,
    }
}

/// Decides what the keep-alive timer does when it fires; when a packet is to be sent, it
/// draws a fresh non-zero number from the clock for it.
pub fn keep_alive_tick(shutdown: bool, expected: u32) -> (action: KeepAliveAction)
    ensures
        shutdown ==> action@ == KeepAliveOutcome::Stop,
        !shutdown && expected != 0 ==> action@ == KeepAliveOutcome::NoResponse,
        !shutdown && expected == 0 ==> exists|n: u32|
            n != 0 && #[trigger] keep_alive_outcome(false, 0, n) == action@,
{
    if shutdown || expected != 0 {
        keep_alive_step(shutdown, expected, 0)
    } else {
        let number = random_non_zero_u32();
        keep_alive_step(false, 0, number)
    }
}

/// The awaited keep-alive number once the reader has acted on `outcome`, when `awaited`
/// was awaited before: a completed check clears it (0); every other outcome leaves it.
pub open spec fn awaited_after_read(outcome: ReaderOutcome, awaited: u32) -> u32 {
    if outcome is KeepAliveCompleted {
        0
    } else {
        awaited
    }
}

/// The awaited keep-alive number once the timer has acted on `outcome`, when `awaited` was
/// awaited before: a sent packet's number becomes the awaited one; otherwise it stays.
pub open spec fn awaited_after_tick(outcome: KeepAliveOutcome, awaited: u32) -> u32 {
    match outcome {
        KeepAliveOutcome::Send(number, _) => number,
        _ => awaited,
    }
}

impl ReaderAction {
    /// The keep-alive number to await after this action, when `awaited` was awaited before
    /// (see `awaited_after_read`).
    pub fn next_awaited(&self, awaited: u32) -> (next: u32)
        ensures
            next == awaited_after_read(self@, awaited),
            !(self@ is KeepAliveCompleted) ==> next == awaited,
            self@ is KeepAliveCompleted ==> next == 0,
    {
        match self {
            ReaderAction::KeepAliveCompleted => 0,
            _ => awaited,
        }
    }
}

impl KeepAliveAction {
    /// The keep-alive number to await after this action, when `awaited` was awaited before
    /// (see `awaited_after_tick`).
    pub fn next_awaited(&self, awaited: u32) -> (next: u32)
        ensures
            next == awaited_after_tick(self@, awaited),
    {
        match self {
            KeepAliveAction::Send(number, _) => *number,
            _ => awaited,
        }
    }
}

/// Only the echo of the awaited number clears it: after a read the awaited keep-alive number
/// is 0 exactly when the read is, outside shutdown, a six-byte keep-alive packet (id bytes
/// 1, 0) whose four little-endian content bytes make the awaited number; after every other
/// read (text, unknown id, short, malformed, another number, closing) it is what it was.
pub proof fn lemma_only_echo_clears(data: Seq<u8>, shutdown: bool, awaited: u32)
    ensures
        awaited_after_read(reader_outcome(data, shutdown, awaited), awaited) == if !shutdown
            && data.len() == 6 && data[0] == 1 && data[1] == 0 && data[2] + 256 * data[3] + 65536
            * data[4] + 16777216 * data[5] == awaited {
            0
        } else {
            awaited
        },
{
}

/// Only a sent packet sets the awaited number: after a tick it is the number of the packet
/// sent, which happens exactly when the connection is not shutting down and nothing is
/// awaited; otherwise it is what it was.
pub proof fn lemma_only_send_sets(shutdown: bool, awaited: u32, number: u32)
    ensures
        awaited_after_tick(keep_alive_outcome(shutdown, awaited, number), awaited) == if !shutdown
            && awaited == 0 {
            number
        } else {
            awaited
        },
{
}

/// The keep-alive invariant of a connection, where `last_sent` is the number of the last
/// keep-alive packet sent: the awaited number is 0 (none awaited, as at the start) or
/// `last_sent`.
pub open spec fn keep_alive_invariant(awaited: u32, last_sent: u32) -> bool {
    awaited == 0 || awaited == last_sent
}

/// Every read keeps the keep-alive invariant: the awaited number is cleared or left as it
/// was, and no packet is sent.
pub proof fn lemma_read_keeps_invariant(data: Seq<u8>, shutdown: bool, awaited: u32, last_sent: u32)
    requires
        keep_alive_invariant(awaited, last_sent),
    ensures
        keep_alive_invariant(
            awaited_after_read(reader_outcome(data, shutdown, awaited), awaited),
            last_sent,
        ),
{
}

/// Every tick of the keep-alive timer keeps the keep-alive invariant, and at most one check
/// is outstanding: a packet is sent only when no number is awaited, and its number becomes
/// both the awaited and the last sent one; otherwise the awaited number stays.
pub proof fn lemma_tick_keeps_invariant(shutdown: bool, awaited: u32, last_sent: u32, number: u32)
    requires
        keep_alive_invariant(awaited, last_sent),
    ensures
        match keep_alive_outcome(shutdown, awaited, number) {
            KeepAliveOutcome::Send(sent, _) => {
                &&& awaited == 0
                &&& sent == number
                &&& awaited_after_tick(keep_alive_outcome(shutdown, awaited, number), awaited)
                    == sent
                &&& keep_alive_invariant(sent, sent)
            },
            _ => {
                &&& awaited_after_tick(keep_alive_outcome(shutdown, awaited, number), awaited)
                    == awaited
                &&& keep_alive_invariant(awaited, last_sent)
            },
        },
{
}

/// What the accept loop of the server does with one incoming stream.
pub enum AcceptAction {
    /// The connection was set up: keep it and accept the next stream.
    Keep,
    /// The connection could not be set up: report it and accept the next stream.
    Skip,
    /// The incoming stream is invalid: report it and stop accepting.
    Stop,
}

/// Decides what the accept loop does, given whether the incoming stream was valid and
/// whether a connection could be set up on it.
pub fn accept_step(stream_ok: bool, connection_ok: bool) -> (action: AcceptAction)
    ensures
        !stream_ok ==> action is Stop,
        stream_ok && connection_ok ==> action is Keep,
        stream_ok && !connection_ok ==> action is Skip,
{
    if !stream_ok {
        AcceptAction::Stop
    } else if connection_ok {
        AcceptAction::Keep
    } else {
        AcceptAction::Skip
    }
}

/// A text packet is read back as the text it was made from: whenever
/// `TestPacket::create` accepts a text, the reader of a connection that receives the
/// packet reports that very text, whatever keep-alive number it awaits.
pub proof fn lemma_text_packet_arrives(content: Seq<char>, expected: u32)
    ensures
        test_create_spec(content) matches Ok(f) ==> reader_outcome(f, false, expected)
            == ReaderOutcome::Text(content),
{
    lemma_text_round_trip(content);
    if let Ok(f) = test_create_spec(content) {
        lemma_frame_round_trip(test_packet_id(), vstd::utf8::encode_utf8(content));
    }
}

/// A keep-alive check that the peer answers by sending the packet back completes it: the
/// timer, with no check outstanding, sends the packet for its fresh number `number`; the
/// reader, awaiting that number, completes the check when those bytes come back.
pub proof fn lemma_keep_alive_echo_completes(number: u32)
    ensures
        keep_alive_outcome(false, 0, number) == KeepAliveOutcome::Send(
            number,
            keep_alive_frame(number),
        ),
        reader_outcome(keep_alive_frame(number), false, number)
            == ReaderOutcome::KeepAliveCompleted,
{
    lemma_frame_round_trip(keep_alive_packet_id(), u32_le(number));
    lemma_keep_alive_number_round_trip(number);
}

/// A keep-alive answer that carries another number than the awaited one fails the check.
pub proof fn lemma_keep_alive_wrong_answer_fails(answer: u32, expected: u32)
    requires
        answer != expected,
    ensures
        reader_outcome(keep_alive_frame(answer), false, expected)
            == ReaderOutcome::KeepAliveFailed,
{
    lemma_frame_round_trip(keep_alive_packet_id(), u32_le(answer));
    lemma_keep_alive_number_round_trip(answer);
}

/// A read that is empty, or that arrives while the connection is shutting down, closes the
/// reader: its bytes are not interpreted.
pub proof fn lemma_reader_closes(data: Seq<u8>, shutdown: bool, expected: u32)
    requires
        data.len() == 0 || shutdown,
    ensures
        reader_outcome(data, shutdown, expected) == ReaderOutcome::Closed,
{
}

/// A read of a single byte is too short for a packet id and is passed over.
pub proof fn lemma_reader_ignores_single_byte(data: Seq<u8>, expected: u32)
    requires
        data.len() == 1,
    ensures
        reader_outcome(data, false, expected) == ReaderOutcome::Ignore,
{
}

/// The bytes of one read are one whole packet: a read under the text id whose content is at
/// most one byte of valid UTF-8 is reported as that content, decoded; an empty content or
/// one byte below 0x80 always is, the byte giving its ASCII character.
pub proof fn lemma_reader_text(data: Seq<u8>, expected: u32)
    requires
        data.len() >= 2,
        frame_id(data) == test_packet_id(),
    ensures
        frame_payload(data).len() <= 1 && valid_utf8(frame_payload(data)) ==> reader_outcome(
            data,
            false,
            expected,
        ) == ReaderOutcome::Text(decode_utf8(frame_payload(data))),
        frame_payload(data).len() == 0 ==> reader_outcome(data, false, expected)
            == ReaderOutcome::Text(Seq::<char>::empty()),
        frame_payload(data).len() == 1 && frame_payload(data)[0] < 0x80 ==> reader_outcome(
            data,
            false,
            expected,
        ) == ReaderOutcome::Text(seq![frame_payload(data)[0] as char]),
        frame_payload(data).len() > 1 ==> reader_outcome(data, false, expected)
            == ReaderOutcome::Malformed("Content is too large to be interpreted as this packet"@),
{
    broadcast use vstd::utf8::group_utf8_lib;

    let payload = frame_payload(data);
    if payload.len() == 0 {
        let none = Seq::<char>::empty();
        assert(encode_utf8(none) =~= payload) by {
            assert(encode_utf8(none).len() == 0);
        }
    }
    if payload.len() == 1 && payload[0] < 0x80 {
        let c = payload[0] as char;
        let text = seq![c];
        assert(is_ascii_chars(text));
        is_ascii_chars_encode_utf8(text);
        assert(encode_utf8(text) =~= payload);
    }
}

/// A read under the keep-alive id completes the check when its four content bytes carry
/// the awaited number and fails it when they carry another; content of another length is
/// malformed.
pub proof fn lemma_reader_keep_alive(data: Seq<u8>, expected: u32)
    requires
        data.len() >= 2,
        frame_id(data) == keep_alive_packet_id(),
    ensures
        data.len() == 6 && u32_from_le(data[2], data[3], data[4], data[5]) == expected
            ==> reader_outcome(data, false, expected) == ReaderOutcome::KeepAliveCompleted,
        data.len() == 6 && u32_from_le(data[2], data[3], data[4], data[5]) != expected
            ==> reader_outcome(data, false, expected) == ReaderOutcome::KeepAliveFailed,
        data.len() != 6 ==> reader_outcome(data, false, expected) == ReaderOutcome::Malformed(
            "Content is not a keep-alive number"@,
        ),
{
}

/// A read under any id other than the text and keep-alive ids is an unknown packet, and
/// reading goes on.
pub proof fn lemma_reader_unknown_id(data: Seq<u8>, expected: u32)
    requires
        data.len() >= 2,
        frame_id(data) != test_packet_id(),
        frame_id(data) != keep_alive_packet_id(),
    ensures
        reader_outcome(data, false, expected) == ReaderOutcome::UnknownPacket,
{
}

/// When the keep-alive timer fires it stops on shutdown, gives up when the previous number
/// is still awaited, and otherwise awaits the fresh number and sends the keep-alive packet
/// that carries it.
pub proof fn lemma_keep_alive_timer(shutdown: bool, expected: u32, number: u32)
    ensures
        shutdown ==> keep_alive_outcome(shutdown, expected, number) == KeepAliveOutcome::Stop,
        !shutdown && expected != 0 ==> keep_alive_outcome(shutdown, expected, number)
            == KeepAliveOutcome::NoResponse,
        !shutdown && expected == 0 ==> keep_alive_outcome(shutdown, expected, number)
            == KeepAliveOutcome::Send(number, keep_alive_frame(number)),
        frame_id(keep_alive_frame(number)) == keep_alive_packet_id(),
        keep_alive_interpret_spec(frame_payload(keep_alive_frame(number))) == Ok::<
            u32,
            Seq<char>,
        >(number),
{
    lemma_frame_round_trip(keep_alive_packet_id(), u32_le(number));
    lemma_keep_alive_number_round_trip(number);
}

} // verus!
