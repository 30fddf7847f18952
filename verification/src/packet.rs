//! The framing of the packets that carry the game information from the
//! plugin to the client: each packet is its payload followed by a newline,
//! and the reader cuts its input at each newline.

use vstd::prelude::*;

verus! {

/// The byte that ends each packet: a newline.
pub const PACKET_DELIMITER: u8 = 10;

/// Whether `s` holds no packet delimiter.
pub open spec fn free_of_delimiter(s: Seq<u8>) -> bool {
    forall|i: int| 0 <= i < s.len() ==> s[i] != PACKET_DELIMITER
}

/// A payload as it travels: followed by the delimiter.
pub open spec fn framed(payload: Seq<u8>) -> Seq<u8> {
    payload.push(PACKET_DELIMITER)
}

/// Payloads sent one after another, each framed.
pub open spec fn framed_all(payloads: Seq<Seq<u8>>) -> Seq<u8>
    decreases payloads.len(),
{
    if payloads.len() == 0 {
        Seq::empty()
    } else {
        framed(payloads[0]) + framed_all(payloads.drop_first())
    }
}

/// Ends a payload with the packet delimiter, making it ready to send.
pub fn frame_packet(payload: &mut Vec<u8>)
    ensures
        final(payload)@ == framed(old(payload)@),
{
    payload.push(PACKET_DELIMITER);
}

/// Takes the first complete packet off the front of `buffer`: the bytes
/// before the first delimiter. The delimiter goes too, and the rest of the
/// buffer stays for the next packets. Where the buffer holds no delimiter
/// yet, nothing is taken.
pub fn take_packet(buffer: &mut Vec<u8>) -> (packet: Option<Vec<u8>>)
    ensures
        match packet {
            Option::Some(p) => free_of_delimiter(p@) && old(buffer)@ == framed(p@) + final(buffer)@,
            Option::None => free_of_delimiter(old(buffer)@) && final(buffer)@ == old(buffer)@,
        },
{
    let len = buffer.len();
    let mut i: usize = 0;
    while i < len
        invariant
            len == buffer@.len(),
            buffer@ == old(buffer)@,
            i <= len,
            free_of_delimiter(buffer@.take(i as int)),
        decreases len - i,
    {
        if buffer[i] == PACKET_DELIMITER {
            let ghost whole = buffer@;
            let mut rest = buffer.split_off(i + 1);
            buffer.pop();
            std::mem::swap(buffer, &mut rest);
            assert(rest@ =~= whole.take(i as int));
            assert(whole =~= framed(rest@) + buffer@);
            return Option::Some(rest);
        }
        assert(buffer@.take(i + 1) =~= buffer@.take(i as int).push(buffer@[i as int]));
        i = i + 1;
    }
    assert(buffer@.take(len as int) =~= buffer@);
    Option::None
}

/// What is left in the buffer when the input ends: a last packet that no
/// delimiter closed, where there are bytes left, else nothing.
pub fn take_last_packet(buffer: Vec<u8>) -> (packet: Option<Vec<u8>>)
    ensures
        match packet {
            Option::Some(p) => buffer@.len() > 0 && p@ == buffer@,
            Option::None => buffer@.len() == 0,
        },
{
    if buffer.len() > 0 {
        Option::Some(buffer)
    } else {
        Option::None
    }
}

/// A framed payload that holds no delimiter is cut off whole: whatever way
/// `framed(payload) + rest` splits into a delimiter-free packet, its frame and
/// a remainder, the packet is `payload` and the remainder is `rest`.
pub proof fn lemma_framed_packet_is_taken_whole(
    payload: Seq<u8>,
    rest: Seq<u8>,
    packet: Seq<u8>,
    remainder: Seq<u8>,
)
    requires
        free_of_delimiter(payload),
        free_of_delimiter(packet),
        framed(packet) + remainder == framed(payload) + rest,
    ensures
        packet == payload,
        remainder == rest,
{
    let whole = framed(payload) + rest;
    if packet.len() < payload.len() {
        assert(whole[packet.len() as int] == PACKET_DELIMITER);
        assert(whole[packet.len() as int] == payload[packet.len() as int]);
    } else if packet.len() > payload.len() {
        assert(whole[payload.len() as int] == PACKET_DELIMITER);
        assert(whole[payload.len() as int] == packet[payload.len() as int]);
    }
    assert(packet =~= payload) by {
        assert forall|i: int| 0 <= i < packet.len() implies packet[i] == payload[i] by {
            assert(whole[i] == packet[i]);
            assert(whole[i] == payload[i]);
        }
    }
    assert(framed(payload).len() == payload.len() + 1);
    assert(framed(packet).len() == packet.len() + 1);
    assert(packet.len() == payload.len());
    assert((framed(packet) + remainder).len() == (framed(payload) + rest).len());
    assert((framed(packet) + remainder).len() == framed(packet).len() + remainder.len());
    assert((framed(payload) + rest).len() == framed(payload).len() + rest.len());
    assert(remainder.len() == rest.len());
    assert(remainder =~= rest) by {
        assert forall|i: int| 0 <= i < remainder.len() implies remainder[i] == rest[i] by {
            assert(whole[payload.len() + 1 + i] == remainder[i]);
            assert(whole[payload.len() + 1 + i] == rest[i]);
        }
    }
}

/// Packets sent one after another are read back one by one, in order: a
/// buffer holding the framed payloads gives up the first payload and keeps
/// the frames of the others, and an empty buffer gives up nothing.
pub proof fn lemma_framed_stream_reads_back(
    payloads: Seq<Seq<u8>>,
    packet: Seq<u8>,
    remainder: Seq<u8>,
)
    requires
        forall|k: int| 0 <= k < payloads.len() ==> free_of_delimiter(#[trigger] payloads[k]),
        free_of_delimiter(packet),
        framed(packet) + remainder == framed_all(payloads),
    ensures
        payloads.len() > 0,
        packet == payloads[0],
        remainder == framed_all(payloads.drop_first()),
{
    if payloads.len() == 0 {
        assert(framed_all(payloads).len() == 0);
        assert((framed(packet) + remainder).len() > 0);
    } else {
        assert(free_of_delimiter(payloads[0]));
        lemma_framed_packet_is_taken_whole(
            payloads[0],
            framed_all(payloads.drop_first()),
            packet,
            remainder,
        );
    }
}

/// A buffer that holds only framed payloads, or nothing, ends on a delimiter:
/// when the input ends there, no last packet is left over.
pub proof fn lemma_framed_stream_has_no_tail(payloads: Seq<Seq<u8>>)
    ensures
        framed_all(payloads).len() == 0 || framed_all(payloads).last() == PACKET_DELIMITER,
    decreases payloads.len(),
{
    if payloads.len() > 0 {
        lemma_framed_stream_has_no_tail(payloads.drop_first());
        let tail = framed_all(payloads.drop_first());
        assert(framed_all(payloads) == framed(payloads[0]) + tail);
    }
}

} // verus!
