//! What each operation of a stream comes to, offset by offset and byte by byte.

use crate::stream::{
    c_char, c_chars, signed, ReadOutcome, SeekAction, SeekEvent, StreamView, BUFFER_HIGH_WATER,
    BUFFER_LOW_WATER, BUFFER_TRIM_MARGIN,
};
use vstd::prelude::*;

verus! {

/// The byte that a stream keeps for an offset of the resource.
pub open spec fn byte_at(v: StreamView, offset: int) -> u8 {
    v.bytes[offset - v.start]
}

/// Whether a stream is in order: its read position lies between the first byte kept and the
/// end, and offsets are countable.
pub open spec fn in_order(v: StreamView) -> bool {
    0 <= v.start <= v.pos <= v.start + v.bytes.len() <= u64::MAX
}

/// Whether two streams differ in nothing but their window and read position.
pub open spec fn same_flags(v: StreamView, w: StreamView) -> bool {
    &&& v.eof == w.eof
    &&& v.cancelled == w.cancelled
    &&& v.seeking == w.seeking
    &&& v.total == w.total
    &&& v.observed == w.observed
}

/// Whether two streams keep the same bytes for the same offsets.
pub open spec fn same_window(v: StreamView, w: StreamView) -> bool {
    v.start == w.start && v.bytes == w.bytes
}

/// Being in order is what the operations ask for and keep.
pub proof fn order_is_well_formedness(v: StreamView)
    ensures
        v.wf() == in_order(v),
        v.end() == v.start + v.bytes.len(),
        forall|offset: int| #[trigger]
            v.holds(offset) == (v.start <= offset <= v.start + v.bytes.len()),
{
}

/// A new stream keeps nothing, stands at offset 0, has not ended, is not cancelled, and knows
/// no size; and it knows of a client as it was told.
pub proof fn new_stream_is_empty(observed: bool)
    ensures
        in_order(StreamView::fresh(observed)),
        StreamView::fresh(observed).start == 0,
        StreamView::fresh(observed).pos == 0,
        StreamView::fresh(observed).bytes.len() == 0,
        !StreamView::fresh(observed).eof,
        !StreamView::fresh(observed).cancelled,
        !StreamView::fresh(observed).seeking,
        StreamView::fresh(observed).total is None,
        StreamView::fresh(observed).observed == observed,
{
}

/// mpv receives an unsigned 64-bit number as the signed one that differs from it by a multiple
/// of 2 to the power of 64; one that fits is received unchanged.
pub proof fn numbers_keep_their_bits(n: u64)
    ensures
        i64::MIN <= signed(n as int) <= i64::MAX,
        (signed(n as int) - n) % 0x1_0000_0000_0000_0000 == 0,
        n <= i64::MAX ==> signed(n as int) == n,
{
}

/// A C `char` differs from the byte that it carries by a multiple of 256, so different bytes
/// travel as different `char`s.
pub proof fn chars_keep_their_bits(a: u8, b: u8)
    ensures
        (c_char(a) - a) % 256 == 0,
        c_char(a) == c_char(b) ==> a == b,
{
}

/// Bytes travel one by one and in order.
pub proof fn runs_of_chars_keep_their_bytes(bytes: Seq<u8>, i: int)
    requires
        0 <= i < bytes.len(),
    ensures
        c_chars(bytes).len() == bytes.len(),
        c_chars(bytes)[i] == c_char(bytes[i]),
{
}

/// What is unread are the bytes kept from the read position on, none left out.
pub proof fn unread_bytes_follow_the_position(v: StreamView, i: int)
    requires
        in_order(v),
        0 <= i < v.start + v.bytes.len() - v.pos,
    ensures
        v.unread().len() == v.start + v.bytes.len() - v.pos,
        v.unread()[i] == byte_at(v, v.pos + i),
{
}

/// How much is unread is the distance from the read position to the end.
pub proof fn unread_length_is_distance_to_end(v: StreamView)
    requires
        in_order(v),
    ensures
        v.unread().len() == v.start + v.bytes.len() - v.pos,
{
}

/// A push appends: it moves the end by as many bytes as it brings, keeps the byte of every
/// offset that it does not trim, and puts the bytes that it brings at the offsets behind the
/// old end. It moves neither the read position nor any flag.
pub proof fn push_appends(v: StreamView, data: Seq<u8>, offset: int)
    requires
        in_order(v),
        !v.seeking,
    ensures
        ({
            let w = v.pushed(data);
            let end = v.start + v.bytes.len();
            &&& w.start + w.bytes.len() == end + data.len()
            &&& w.pos == v.pos
            &&& same_flags(v, w)
            &&& w.start <= offset < end ==> byte_at(w, offset) == byte_at(v, offset)
            &&& end <= offset < end + data.len() ==> byte_at(w, offset) == data[offset - end]
        }),
{
}

/// A push trims history beyond the margin and no more: the window starts where it started
/// before, or at the margin behind the read position if that is later.
pub proof fn push_trims_to_the_margin(v: StreamView, data: Seq<u8>)
    requires
        in_order(v),
        !v.seeking,
    ensures
        v.pushed(data).start >= v.start,
        v.pushed(data).start >= v.pos - BUFFER_TRIM_MARGIN,
        v.pushed(data).start == v.start || v.pushed(data).start == v.pos - BUFFER_TRIM_MARGIN,
{
}

/// A push while a seek is being negotiated changes nothing.
pub proof fn push_in_flight_changes_nothing(v: StreamView, data: Seq<u8>)
    requires
        v.seeking,
    ensures
        v.pushed(data) == v,
{
}

/// A read delivers as many of the unread bytes as there is room for, from the read position
/// on, and moves the read position behind them. It changes nothing else.
pub proof fn read_delivers_from_the_position(v: StreamView, room: nat, i: int)
    requires
        in_order(v),
    ensures
        ({
            let left = v.start + v.bytes.len() - v.pos;
            let n = v.delivery(room).len();
            let w = v.after_read(room);
            &&& n <= room && n <= left
            &&& n == room || n == left
            &&& v.readable(room) == n
            &&& 0 <= i < n ==> v.delivery(room)[i] == byte_at(v, v.pos + i)
            &&& w.pos == v.pos + n
            &&& same_window(v, w)
            &&& same_flags(v, w)
        }),
{
}

/// A read puts the unread bytes, from the read position on, at the front of mpv's buffer, each
/// with its bits, and leaves the rest of the buffer alone.
pub proof fn read_fills_the_front_of_the_buffer(v: StreamView, buf: Seq<i8>, i: int)
    requires
        in_order(v),
        0 <= i < buf.len(),
    ensures
        v.filled(buf).len() == buf.len(),
        v.pos + i < v.start + v.bytes.len() ==> (v.filled(buf)[i] - byte_at(v, v.pos + i)) % 256
            == 0,
        v.pos + i >= v.start + v.bytes.len() ==> v.filled(buf)[i] == buf[i],
{
}

/// A push wakes every reader that it ends the wait of, and wakes nobody where it is dropped.
pub proof fn push_wakes_whom_it_serves(v: StreamView, data: Seq<u8>)
    requires
        in_order(v),
    ensures
        v.must_wait() && !v.pushed(data).must_wait() ==> v.push_wakes(),
        v.push_wakes() <==> v.pushed(data).start + v.pushed(data).bytes.len() == v.start
            + v.bytes.len() + data.len() && !v.seeking,
{
}

/// A read waits exactly where nothing is unread and the stream is neither cancelled nor ended,
/// wherever the window starts.
pub proof fn read_waits_only_for_data(v: StreamView, room: nat)
    requires
        in_order(v),
    ensures
        v.read_outcome(room) is Wait <==> v.pos == v.start + v.bytes.len() && !v.cancelled
            && !v.eof,
        v.must_wait() <==> v.read_outcome(room) is Wait,
{
}

/// Where nothing is unread, a read reports -1 after a cancellation, and otherwise 0 at the end
/// of the stream, wherever the window starts and however much room there is.
pub proof fn exhausted_read_reports_why(v: StreamView, room: nat)
    requires
        in_order(v),
        v.pos == v.start + v.bytes.len(),
    ensures
        v.cancelled ==> v.read_outcome(room) == ReadOutcome::Done((-1) as i64),
        !v.cancelled && v.eof ==> v.read_outcome(room) == ReadOutcome::Done(0),
        v.delivery(room).len() == 0,
{
}

/// Where something is unread, a read reports how many bytes it delivers, whatever the flags.
pub proof fn read_reports_what_it_delivers(v: StreamView, room: nat)
    requires
        in_order(v),
        v.pos < v.start + v.bytes.len(),
        room <= i64::MAX,
    ensures
        v.read_outcome(room) matches ReadOutcome::Done(n) && n == v.delivery(room).len(),
        room > 0 ==> v.delivery(room).len() > 0,
{
}

/// A seek to an offset within the window, ahead of the read position or behind it, is answered
/// at once with that offset, leaves the stream exactly there and otherwise as it was, and the
/// next read delivers the bytes kept from that offset on.
pub proof fn seek_within_the_window_is_taken(v: StreamView, offset: int, room: nat, i: int)
    requires
        in_order(v),
        v.start <= offset <= v.start + v.bytes.len(),
        offset <= i64::MAX,
    ensures
        ({
            let w = v.seek_begun(offset);
            &&& v.seek_answer(offset) == SeekAction::Return(offset as i64)
            &&& w.pos == offset
            &&& same_window(v, w)
            &&& same_flags(v, w)
            &&& 0 <= i < w.delivery(room).len() ==> w.delivery(room)[i] == byte_at(v, offset + i)
            &&& w.delivery(room).len() == room || w.delivery(room).len() == v.start
                + v.bytes.len() - offset
        }),
{
}

/// Two seeks within the window, one after the other, come to the second alone.
pub proof fn last_seek_counts(v: StreamView, first: int, second: int)
    requires
        in_order(v),
        v.start <= first <= v.start + v.bytes.len(),
        v.start <= second <= v.start + v.bytes.len(),
    ensures
        v.seek_begun(first).seek_begun(second) == v.seek_begun(second),
        v.seek_begun(first).seek_answer(second) == v.seek_answer(second),
        v.seek_begun(first).seek_begun(v.pos) == v,
{
}

/// A seek to a negative offset changes nothing and reports the read position.
pub proof fn negative_seek_asks_for_the_position(v: StreamView, offset: int)
    requires
        in_order(v),
        offset < 0,
    ensures
        v.seek_begun(offset) == v,
        v.pos <= i64::MAX ==> v.seek_answer(offset) == SeekAction::Return(v.pos as i64),
        v.seek_answer(offset) == SeekAction::Return(signed(v.pos) as i64),
{
}

/// A seek to an offset outside the window asks the client for that very offset, where there is
/// a client, and until the client answers the stream stays as it is.
pub proof fn seek_outside_the_window_asks_the_client(v: StreamView, offset: int)
    requires
        in_order(v),
        0 <= offset <= i64::MAX,
        offset < v.start || offset > v.start + v.bytes.len(),
        v.observed,
    ensures
        v.seek_answer(offset) matches SeekAction::OpenChannel(target) && target == offset,
        v.seek_begun(offset) == v,
{
}

/// A seek to an offset outside the window goes to the nearer end of the window, where there is
/// no client, and changes nothing else.
pub proof fn seek_without_client_stays_in_the_window(v: StreamView, offset: int)
    requires
        in_order(v),
        0 <= offset <= i64::MAX,
        !v.observed,
    ensures
        ({
            let w = v.seek_begun(offset);
            let end = v.start + v.bytes.len();
            &&& offset > end ==> w.pos == end
            &&& offset < v.start ==> w.pos == v.start
            &&& v.start <= offset <= end ==> w.pos == offset
            &&& v.seek_answer(offset) == SeekAction::Return(signed(w.pos) as i64)
            &&& same_window(v, w)
            &&& same_flags(v, w)
        }),
{
}

/// The steps of a negotiation before the client's answer touch nothing but the flag that has
/// pushes dropped: it is set once there is a channel, and taken back where the client cannot be
/// told or goes away, when the old position is reported.
pub proof fn negotiation_leaves_the_window_alone(v: StreamView, target: u64, event: SeekEvent)
    requires
        in_order(v),
        event != SeekEvent::ClientReady,
    ensures
        ({
            let w = v.seek_stepped(target, event);
            &&& same_window(v, w)
            &&& w.pos == v.pos
            &&& w.eof == v.eof
            &&& w.cancelled == v.cancelled
            &&& w.total == v.total
            &&& w.observed == v.observed
            &&& event == SeekEvent::ChannelOpened ==> w.seeking && v.seek_step_answer(
                target,
                event,
            ) == SeekAction::NotifyClient(target)
            &&& event == SeekEvent::ClientNotified ==> w.seeking == v.seeking
                && v.seek_step_answer(target, event) == SeekAction::AwaitClient(target)
            &&& event == SeekEvent::ChannelFailed ==> w.seeking == v.seeking
            &&& (event == SeekEvent::NotifyFailed || event == SeekEvent::ClientGone) ==> !w.seeking
            &&& (event == SeekEvent::ChannelFailed || event == SeekEvent::NotifyFailed || event
                == SeekEvent::ClientGone) ==> v.seek_step_answer(target, event)
                == SeekAction::Return(signed(v.pos) as i64)
        }),
{
}

/// Once the client is ready the stream stands empty at the target, takes pushes again, and mpv
/// is told the target. End, cancellation, size and client are as before.
pub proof fn ready_client_moves_the_window(v: StreamView, target: u64)
    ensures
        ({
            let w = v.seek_stepped(target, SeekEvent::ClientReady);
            &&& w.start == target
            &&& w.pos == target
            &&& w.bytes.len() == 0
            &&& !w.seeking
            &&& w.eof == v.eof
            &&& w.cancelled == v.cancelled
            &&& w.total == v.total
            &&& w.observed == v.observed
            &&& v.seek_step_answer(target, SeekEvent::ClientReady) == SeekAction::Acknowledge(
                signed(target as int) as i64,
            )
        }),
{
}

/// mpv is told the size that the client told; without one, the offset of the end once the
/// stream has ended, wherever the window starts; and else that the size is not known.
pub proof fn size_is_told_size_or_end(v: StreamView)
    requires
        in_order(v),
    ensures
        v.total matches Some(size) ==> v.reported_size() == signed(size as int),
        v.total is None && v.eof ==> v.reported_size() == signed(v.start + v.bytes.len()),
        v.total is None && !v.eof ==> v.reported_size() == -1,
{
}

/// An end, a cancellation and a size are remembered as they are told, in any state and of any
/// value, and change nothing else.
pub proof fn news_is_remembered(v: StreamView, size: u64)
    ensures
        v.ended().eof && v.ended().cancelled == v.cancelled && v.ended().total == v.total,
        v.given_up().cancelled && v.given_up().eof == v.eof && v.given_up().total == v.total,
        v.sized(size).total == Some(size),
        v.sized(size).eof == v.eof && v.sized(size).cancelled == v.cancelled,
        same_window(v, v.ended()) && same_window(v, v.given_up()) && same_window(v, v.sized(size)),
        v.ended().pos == v.pos && v.given_up().pos == v.pos && v.sized(size).pos == v.pos,
        v.ended().seeking == v.seeking && v.given_up().seeking == v.seeking
            && v.sized(size).seeking == v.seeking,
        v.ended().observed == v.observed && v.given_up().observed == v.observed
            && v.sized(size).observed == v.observed,
{
}

/// A push can be taken where the offsets behind the end suffice for it, and always while pushes
/// are dropped.
pub proof fn pushes_need_offsets(v: StreamView, len: nat)
    ensures
        v.can_take(len) <==> v.seeking || v.start + v.bytes.len() + len <= u64::MAX,
{
}

/// A stream is full from ten megabytes on that are unread, and low below one.
pub proof fn marks_count_unread_bytes(v: StreamView)
    requires
        in_order(v),
    ensures
        v.is_full() <==> v.start + v.bytes.len() - v.pos >= 10 * 1024 * 1024,
        v.is_low() <==> v.start + v.bytes.len() - v.pos < 1024 * 1024,
        v.unread().len() >= BUFFER_HIGH_WATER <==> v.start + v.bytes.len() - v.pos >= 10 * 1024
            * 1024,
        v.unread().len() < BUFFER_LOW_WATER <==> v.start + v.bytes.len() - v.pos < 1024 * 1024,
        BUFFER_TRIM_MARGIN == 20 * 1024 * 1024,
{
}

} // verus!
