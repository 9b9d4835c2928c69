//! What holds of a stream over whole runs of operations.

use crate::stream::{
    signed, SeekAction, SeekEvent, StreamView, BUFFER_HIGH_WATER, BUFFER_LOW_WATER, BUFFER_TRIM_MARGIN,
};
use vstd::prelude::*;

verus! {

/// An operation on a stream.
pub ghost enum StreamOp {
    /// The client pushes bytes.
    Push(Seq<u8>),
    /// mpv reads into a buffer of this many bytes.
    Read(nat),
    /// The client ends the stream.
    Eof,
    /// The player goes away.
    Cancel,
    /// The client tells the total size.
    Size(u64),
    /// mpv asks for a position.
    Seek(int),
    /// A negotiated seek to an offset goes one step.
    SeekStep(u64, SeekEvent),
}

/// The stream after one operation.
pub open spec fn apply(v: StreamView, op: StreamOp) -> StreamView {
    match op {
        StreamOp::Push(data) => v.pushed(data),
        StreamOp::Read(room) => v.after_read(room),
        StreamOp::Eof => v.ended(),
        StreamOp::Cancel => v.given_up(),
        StreamOp::Size(size) => v.sized(size),
        StreamOp::Seek(offset) => v.seek_begun(offset),
        StreamOp::SeekStep(target, event) => v.seek_stepped(target, event),
    }
}

/// The stream after a run of operations.
pub open spec fn run(v: StreamView, ops: Seq<StreamOp>) -> StreamView
    decreases ops.len(),
{
    if ops.len() == 0 {
        v
    } else {
        apply(run(v, ops.drop_last()), ops.last())
    }
}

/// The bytes that one operation delivers to mpv.
pub open spec fn delivered_by(v: StreamView, op: StreamOp) -> Seq<u8> {
    match op {
        StreamOp::Read(room) => v.delivery(room),
        _ => Seq::empty(),
    }
}

/// The bytes that one operation takes from the client.
pub open spec fn accepted_by(v: StreamView, op: StreamOp) -> Seq<u8> {
    match op {
        StreamOp::Push(data) => if v.seeking {
            Seq::empty()
        } else {
            data
        },
        _ => Seq::empty(),
    }
}

/// All bytes that a run delivers to mpv, in order.
pub open spec fn delivered(v: StreamView, ops: Seq<StreamOp>) -> Seq<u8>
    decreases ops.len(),
{
    if ops.len() == 0 {
        Seq::empty()
    } else {
        delivered(v, ops.drop_last()) + delivered_by(run(v, ops.drop_last()), ops.last())
    }
}

/// All bytes that a run takes from the client, in order.
pub open spec fn accepted(v: StreamView, ops: Seq<StreamOp>) -> Seq<u8>
    decreases ops.len(),
{
    if ops.len() == 0 {
        Seq::empty()
    } else {
        accepted(v, ops.drop_last()) + accepted_by(run(v, ops.drop_last()), ops.last())
    }
}

/// Whether an operation can move the read position other than by reading.
pub open spec fn is_seek(op: StreamOp) -> bool {
    op is Seek || op is SeekStep
}

/// The read position lies within what is kept.
pub open spec fn ordered(v: StreamView) -> bool {
    0 <= v.start <= v.pos <= v.end()
}

/// Every operation keeps the read position within what is kept.
pub proof fn ordered_is_kept(v: StreamView, ops: Seq<StreamOp>)
    requires
        ordered(v),
    ensures
        ordered(run(v, ops)),
    decreases ops.len(),
{
    if ops.len() > 0 {
        ordered_is_kept(v, ops.drop_last());
    }
}

/// As long as nobody seeks, mpv receives exactly the bytes that the client pushed, in
/// order, none lost and none repeated: what was delivered, followed by what is still
/// unread, is what was unread at first, followed by what was accepted since. Trimming
/// history takes nothing away from this.
pub proof fn reads_follow_pushes(v: StreamView, ops: Seq<StreamOp>)
    requires
        ordered(v),
        forall|i: int| 0 <= i < ops.len() ==> !is_seek(#[trigger] ops[i]),
    ensures
        delivered(v, ops) + run(v, ops).unread() == v.unread() + accepted(v, ops),
    decreases ops.len(),
{
    if ops.len() == 0 {
        assert(delivered(v, ops) + run(v, ops).unread() =~= v.unread() + accepted(v, ops));
    } else {
        let before = ops.drop_last();
        reads_follow_pushes(v, before);
        ordered_is_kept(v, before);
        let w = run(v, before);
        let op = ops.last();
        let after = apply(w, op);
        assert(!is_seek(ops[ops.len() - 1]));
        assert(delivered_by(w, op) + after.unread() =~= w.unread() + accepted_by(w, op));
        assert(delivered(v, ops) + after.unread() =~= delivered(v, before) + (delivered_by(w, op)
            + after.unread()));
        assert(v.unread() + accepted(v, ops) =~= (v.unread() + accepted(v, before)) + accepted_by(
            w,
            op,
        ));
        assert(delivered(v, before) + (w.unread() + accepted_by(w, op)) =~= (delivered(v, before)
            + w.unread()) + accepted_by(w, op));
    }
}

/// Whether everything kept is what the resource holds at the same offsets.
pub open spec fn matches_resource(v: StreamView, resource: Seq<u8>) -> bool {
    &&& v.bytes.len() > 0 ==> 0 <= v.start && v.end() <= resource.len()
    &&& forall|i: int| 0 <= i < v.bytes.len() ==> #[trigger] v.bytes[i] == resource[v.start + i]
}

/// Whether an operation, if it is a push that is not dropped, continues the resource
/// where the window ends. Of a push during a negotiated seek nothing is asked.
pub open spec fn is_faithful(v: StreamView, op: StreamOp, resource: Seq<u8>) -> bool {
    op matches StreamOp::Push(data) ==> !v.seeking ==> {
        &&& data.len() > 0 ==> v.end() + data.len() <= resource.len()
        &&& forall|i: int| 0 <= i < data.len() ==> #[trigger] data[i] == resource[v.end() + i]
    }
}

/// Whether every operation of a run is faithful where it happens.
pub open spec fn all_faithful(v: StreamView, ops: Seq<StreamOp>, resource: Seq<u8>) -> bool
    decreases ops.len(),
{
    ops.len() > 0 ==> all_faithful(v, ops.drop_last(), resource) && is_faithful(
        run(v, ops.drop_last()),
        ops.last(),
        resource,
    )
}

/// The window goes on matching the resource over every run of pushes, reads and seeks
/// in which the client continues the resource where the window ends.
proof fn window_matches_resource(v: StreamView, ops: Seq<StreamOp>, resource: Seq<u8>)
    requires
        ordered(v),
        matches_resource(v, resource),
        all_faithful(v, ops, resource),
    ensures
        ordered(run(v, ops)),
        matches_resource(run(v, ops), resource),
    decreases ops.len(),
{
    if ops.len() > 0 {
        window_matches_resource(v, ops.drop_last(), resource);
        let w = run(v, ops.drop_last());
        let after = apply(w, ops.last());
        assert forall|i: int| 0 <= i < after.bytes.len() implies #[trigger] after.bytes[i]
            == resource[after.start + i] by {
            let k = i + (after.start - w.start);
            if k < w.bytes.len() {
                assert(w.bytes[k] == resource[w.start + k]);
            }
            if let StreamOp::Push(data) = ops.last() {
                if !w.seeking {
                    assert(after.bytes[i] == (w.bytes + data)[k]);
                    if k >= w.bytes.len() {
                        assert(data[k - w.bytes.len()] == resource[w.end() + (k - w.bytes.len())]);
                    }
                }
            }
        }
    }
}

/// mpv reads the resource: over every run of pushes, reads and seeks, local or
/// negotiated, in which the client continues the resource where the window ends, a read
/// delivers the bytes that the resource holds at the read position. What is pushed while
/// a seek is being negotiated may be anything.
pub proof fn reads_match_resource(
    v: StreamView,
    ops: Seq<StreamOp>,
    resource: Seq<u8>,
    room: nat,
)
    requires
        ordered(v),
        matches_resource(v, resource),
        all_faithful(v, ops, resource),
    ensures
        ({
            let w = run(v, ops);
            w.readable(room) > 0 ==> w.delivery(room) == resource.subrange(
                w.pos,
                w.pos + w.readable(room),
            )
        }),
{
    window_matches_resource(v, ops, resource);
    let w = run(v, ops);
    if w.readable(room) > 0 {
        let n = w.readable(room);
        let d = w.pos - w.start;
        assert(w.bytes[d + n - 1] == resource[w.start + (d + n - 1)]);
        assert forall|i: int| 0 <= i < n implies w.delivery(room)[i] == resource.subrange(
            w.pos,
            w.pos + n,
        )[i] by {
            assert(w.bytes[d + i] == resource[w.start + (d + i)]);
        }
        assert(w.delivery(room) =~= resource.subrange(w.pos, w.pos + n));
    }
}

/// A read with room for it gives back what a push wrote, right behind what was unread
/// before.
pub proof fn push_then_read(v: StreamView, data: Seq<u8>, room: nat)
    requires
        ordered(v),
        !v.seeking,
        room >= v.unread().len() + data.len(),
    ensures
        v.pushed(data).delivery(room) == v.unread() + data,
        v.pushed(data).after_read(room).unread().len() == 0,
{
    assert(v.pushed(data).unread() =~= v.unread() + data);
    assert(v.pushed(data).delivery(room) =~= v.unread() + data);
}

/// Recent positions stay reachable: over every run without seeks, a position that was
/// reachable still is where it lies no further behind the read position than the margin, and
/// the byte at it is still the same.
pub proof fn recent_positions_stay_reachable(v: StreamView, ops: Seq<StreamOp>, offset: int)
    requires
        ordered(v),
        forall|i: int| 0 <= i < ops.len() ==> !is_seek(#[trigger] ops[i]),
        v.holds(offset),
        offset >= run(v, ops).pos - BUFFER_TRIM_MARGIN,
    ensures
        run(v, ops).holds(offset),
        run(v, ops).pos >= v.pos,
        offset < v.end() ==> run(v, ops).bytes[offset - run(v, ops).start] == v.bytes[offset
            - v.start],
        offset < v.end() ==> offset < run(v, ops).end(),
    decreases ops.len(),
{
    if ops.len() > 0 {
        let before = ops.drop_last();
        assert forall|i: int| 0 <= i < before.len() implies !is_seek(#[trigger] before[i]) by {
            assert(before[i] == ops[i]);
        }
        assert(!is_seek(ops[ops.len() - 1]));
        ordered_is_kept(v, before);
        recent_positions_stay_reachable(v, before, offset);
    }
}

/// Small backward seeks are served locally, without asking the client: after every run
/// without seeks that leaves the read position no further ahead than the margin, a seek back to
/// where a read started is answered at once, and the same bytes are read again.
pub proof fn replay_after_run(v: StreamView, room: nat, ops: Seq<StreamOp>)
    requires
        ordered(v),
        forall|i: int| 0 <= i < ops.len() ==> !is_seek(#[trigger] ops[i]),
        run(v.after_read(room), ops).pos - BUFFER_TRIM_MARGIN <= v.pos,
    ensures
        ({
            let later = run(v.after_read(room), ops);
            let again = later.seek_begun(v.pos);
            &&& later.seek_answer(v.pos) is Return
            &&& again.pos == v.pos
            &&& again.delivery(v.readable(room) as nat) == v.delivery(room)
        }),
{
    let read = v.after_read(room);
    let later = run(read, ops);
    let again = later.seek_begun(v.pos);
    let n = v.readable(room);
    recent_positions_stay_reachable(read, ops, v.pos);
    ordered_is_kept(read, ops);
    assert forall|i: int| 0 <= i < n implies v.pos + i < later.end() && again.unread()[i]
        == v.unread()[i] by {
        recent_positions_stay_reachable(read, ops, v.pos + i);
    }
    if n > 0 {
        assert(v.pos + (n - 1) < later.end() && again.unread()[n - 1] == v.unread()[n - 1]);
    }
    assert(again.delivery(n as nat) =~= v.delivery(room));
}

/// Memory stays bounded: a push that is not dropped leaves no more history than the
/// margin, and where the client heeds the high-water mark, no more bytes in all than the
/// margin, the mark and one push.
pub proof fn memory_is_bounded(v: StreamView, data: Seq<u8>)
    requires
        ordered(v),
        !v.seeking,
    ensures
        v.pos - v.pushed(data).start <= BUFFER_TRIM_MARGIN,
        v.unread().len() < BUFFER_HIGH_WATER ==> v.pushed(data).bytes.len() < BUFFER_TRIM_MARGIN
            + BUFFER_HIGH_WATER + data.len(),
{
}

/// Whether an operation, if it is a push that is not dropped, heeds the high-water mark and
/// brings at most so many bytes.
pub open spec fn heeds(v: StreamView, op: StreamOp, most: nat) -> bool {
    op matches StreamOp::Push(data) ==> !v.seeking ==> {
        &&& v.unread().len() < BUFFER_HIGH_WATER
        &&& data.len() <= most
    }
}

/// Whether every operation of a run heeds the mark where it happens.
pub open spec fn all_heed(v: StreamView, ops: Seq<StreamOp>, most: nat) -> bool
    decreases ops.len(),
{
    ops.len() > 0 ==> all_heed(v, ops.drop_last(), most) && heeds(
        run(v, ops.drop_last()),
        ops.last(),
        most,
    )
}

/// Memory stays bounded over every run, seeks included, in which the client heeds the
/// high-water mark: there are never more bytes in all than the margin, the mark and the largest
/// push.
pub proof fn memory_stays_bounded(v: StreamView, ops: Seq<StreamOp>, most: nat)
    requires
        ordered(v),
        v.bytes.len() < BUFFER_TRIM_MARGIN + BUFFER_HIGH_WATER + most,
        all_heed(v, ops, most),
    ensures
        run(v, ops).bytes.len() < BUFFER_TRIM_MARGIN + BUFFER_HIGH_WATER + most,
    decreases ops.len(),
{
    if ops.len() > 0 {
        let before = ops.drop_last();
        memory_stays_bounded(v, before, most);
        ordered_is_kept(v, before);
        if let StreamOp::Push(data) = ops.last() {
            if !run(v, before).seeking {
                memory_is_bounded(run(v, before), data);
            }
        }
    }
}

/// A stream is never both low and full.
pub proof fn low_is_not_full(v: StreamView)
    ensures
        !(v.unread().len() < BUFFER_LOW_WATER && v.unread().len() >= BUFFER_HIGH_WATER),
{
}

/// While a seek is being negotiated no push has any effect, however many there are.
pub proof fn pushes_during_seek_are_dropped(v: StreamView, ops: Seq<StreamOp>)
    requires
        v.seeking,
        forall|i: int| 0 <= i < ops.len() ==> (#[trigger] ops[i]) is Push,
    ensures
        run(v, ops) == v,
    decreases ops.len(),
{
    if ops.len() > 0 {
        pushes_during_seek_are_dropped(v, ops.drop_last());
        assert(ops[ops.len() - 1] is Push);
    }
}

/// A negotiated seek that fails, at whichever step, leaves the stream as it was and
/// reports the old position.
pub proof fn failed_seek_changes_nothing(v: StreamView, target: u64)
    requires
        !v.seeking,
    ensures
        ({
            let opened = v.seek_stepped(target, SeekEvent::ChannelOpened);
            let told = opened.seek_stepped(target, SeekEvent::ClientNotified);
            &&& v.seek_stepped(target, SeekEvent::ChannelFailed) == v
            &&& opened.seek_stepped(target, SeekEvent::NotifyFailed) == v
            &&& told.seek_stepped(target, SeekEvent::ClientGone) == v
            &&& opened.seek_step_answer(target, SeekEvent::NotifyFailed) == v.seek_step_answer(
                target,
                SeekEvent::ChannelFailed,
            )
            &&& told.seek_step_answer(target, SeekEvent::ClientGone) == v.seek_step_answer(
                target,
                SeekEvent::ChannelFailed,
            )
        }),
{
}

/// A negotiated seek that succeeds puts the stream at the target, whatever happens between
/// the opening of the channel and the client's answer, and the next push is what the next
/// read delivers.
pub proof fn seek_then_push_then_read(
    v: StreamView,
    offset: int,
    meanwhile: Seq<StreamOp>,
    data: Seq<u8>,
    room: nat,
)
    requires
        0 <= offset <= i64::MAX,
        v.seek_answer(offset) is OpenChannel,
        room >= data.len(),
    ensures
        ({
            let target = offset as u64;
            let opened = v.seek_begun(offset).seek_stepped(target, SeekEvent::ChannelOpened);
            let told = run(opened, meanwhile);
            let done = told.seek_stepped(target, SeekEvent::ClientReady);
            &&& opened.seeking
            &&& told.seek_step_answer(target, SeekEvent::ClientReady) == SeekAction::Acknowledge(
                offset as i64,
            )
            &&& done.pos == offset
            &&& done.unread().len() == 0
            &&& !done.seeking
            &&& done.pushed(data).delivery(room) == data
        }),
{
    let target = offset as u64;
    let opened = v.seek_begun(offset).seek_stepped(target, SeekEvent::ChannelOpened);
    let told = run(opened, meanwhile);
    let done = told.seek_stepped(target, SeekEvent::ClientReady);
    push_then_read(done, data, room);
    assert(done.unread() + data =~= data);
}

/// A seek that is served at once reports the position at which the next read starts.
pub proof fn local_seek_reports_position(v: StreamView, offset: int)
    requires
        v.wf(),
        offset <= i64::MAX,
        v.seek_answer(offset) is Return,
    ensures
        v.seek_answer(offset) == SeekAction::Return(signed(v.seek_begun(offset).pos) as i64),
{
}

/// Whether waiting readers are woken after an operation: after a push that is not dropped, the
/// end of the stream, a cancellation, and a negotiated seek that succeeds.
pub open spec fn wakes(v: StreamView, op: StreamOp) -> bool {
    match op {
        StreamOp::Push(_) => !v.seeking,
        StreamOp::Eof | StreamOp::Cancel => true,
        StreamOp::SeekStep(target, event) => v.seek_step_answer(target, event) is Acknowledge,
        StreamOp::Read(_) | StreamOp::Size(_) | StreamOp::Seek(_) => false,
    }
}

/// No wake-up is lost: whatever lets a waiting reader go on wakes it, save the local part of a
/// seek, which mpv's reading thread makes itself.
pub proof fn wakes_are_not_lost(v: StreamView, op: StreamOp)
    requires
        ordered(v),
        v.must_wait(),
        !apply(v, op).must_wait(),
    ensures
        wakes(v, op) || op is Seek,
{
}

/// Nothing that has arrived is withheld: mpv sees a cancellation or the end of the stream
/// only once it has read everything.
pub proof fn data_before_end(v: StreamView, room: nat)
    requires
        v.wf(),
        room > 0,
        room <= i64::MAX,
        v.unread().len() > 0,
    ensures
        v.read_outcome(room) is Done,
        v.read_outcome(room)->Done_0 == v.delivery(room).len(),
        v.read_outcome(room)->Done_0 > 0,
{
}

/// A reader never waits again once the stream has ended or is cancelled, whatever happens
/// afterwards.
pub proof fn ended_stream_never_waits(v: StreamView, ops: Seq<StreamOp>)
    requires
        v.eof || v.cancelled,
    ensures
        v.eof ==> run(v, ops).eof,
        v.cancelled ==> run(v, ops).cancelled,
        !run(v, ops).must_wait(),
    decreases ops.len(),
{
    if ops.len() > 0 {
        ended_stream_never_waits(v, ops.drop_last());
    }
}

/// Trimmed history is fetched through the client: once data has been pushed, a seek
/// to a position further behind the read position than the margin asks the client for data
/// from there.
pub proof fn trimmed_positions_need_the_client(v: StreamView, data: Seq<u8>, offset: int)
    requires
        ordered(v),
        v.observed,
        !v.seeking,
        0 <= offset < v.pos - BUFFER_TRIM_MARGIN,
    ensures
        v.pushed(data).seek_answer(offset) == SeekAction::OpenChannel(offset as u64),
        v.pushed(data).seek_begun(offset) == v.pushed(data),
{
}

/// A known total size is what mpv is told, however much has been downloaded: nothing but the
/// client's telling another changes it.
pub proof fn known_size_is_told(v: StreamView, ops: Seq<StreamOp>, size: u64)
    requires
        v.total == Some(size),
        forall|i: int| 0 <= i < ops.len() ==> !(#[trigger] ops[i] is Size),
    ensures
        run(v, ops).total == Some(size),
        run(v, ops).reported_size() == signed(size as int),
    decreases ops.len(),
{
    if ops.len() > 0 {
        let before = ops.drop_last();
        assert forall|i: int| 0 <= i < before.len() implies !(#[trigger] before[i] is Size) by {
            assert(before[i] == ops[i]);
        }
        known_size_is_told(v, before, size);
        assert(!(ops[ops.len() - 1] is Size));
    }
}

/// The stream that mpv gets for an address that names none has no client and stays empty: as
/// long as nobody pushes to it, every seek on it, wherever to, ends at once at its start.
pub proof fn fallback_stream_stays_empty(ops: Seq<StreamOp>, offset: int)
    requires
        forall|i: int|
            0 <= i < ops.len() ==> !(#[trigger] ops[i] is Push) && !(ops[i] is SeekStep),
    ensures
        run(StreamView::fresh(false), ops).unread().len() == 0,
        run(StreamView::fresh(false), ops).seek_answer(offset) == SeekAction::Return(0),
        run(StreamView::fresh(false), ops).seek_begun(offset) == run(StreamView::fresh(false), ops),
{
    empty_stream_stays_empty(ops);
}

/// A stream without a client to which nobody pushes holds nothing and stays at its start.
proof fn empty_stream_stays_empty(ops: Seq<StreamOp>)
    requires
        forall|i: int|
            0 <= i < ops.len() ==> !(#[trigger] ops[i] is Push) && !(ops[i] is SeekStep),
    ensures
        run(StreamView::fresh(false), ops).start == 0,
        run(StreamView::fresh(false), ops).bytes.len() == 0,
        run(StreamView::fresh(false), ops).pos == 0,
        !run(StreamView::fresh(false), ops).observed,
    decreases ops.len(),
{
    if ops.len() > 0 {
        let before = ops.drop_last();
        assert forall|i: int| 0 <= i < before.len() implies !(#[trigger] before[i] is Push) && !(
        before[i] is SeekStep) by {
            assert(before[i] == ops[i]);
        }
        empty_stream_stays_empty(before);
        assert(!(ops[ops.len() - 1] is Push));
    }
}

/// Whether an event can come of an action.
pub open spec fn answers(event: SeekEvent, action: SeekAction) -> bool {
    match event {
        SeekEvent::ChannelOpened | SeekEvent::ChannelFailed => action is OpenChannel,
        SeekEvent::ClientNotified | SeekEvent::NotifyFailed => action is NotifyClient,
        SeekEvent::ClientReady | SeekEvent::ClientGone => action is AwaitClient,
    }
}

/// The offset that a negotiation is about.
pub open spec fn target_of(action: SeekAction) -> Option<u64> {
    match action {
        SeekAction::OpenChannel(target) => Some(target),
        SeekAction::NotifyClient(target) => Some(target),
        SeekAction::AwaitClient(target) => Some(target),
        SeekAction::Return(_) | SeekAction::Acknowledge(_) => None,
    }
}

/// How many steps a negotiation has left at most.
pub open spec fn steps_left(action: SeekAction) -> nat {
    match action {
        SeekAction::OpenChannel(_) => 3,
        SeekAction::NotifyClient(_) => 2,
        SeekAction::AwaitClient(_) => 1,
        SeekAction::Return(_) | SeekAction::Acknowledge(_) => 0,
    }
}

/// Whether the client has been, or is about to be, told of a seek.
pub open spec fn in_flight(action: SeekAction) -> bool {
    action is NotifyClient || action is AwaitClient
}

/// A negotiation ends: whatever state the stream is in meanwhile and whatever comes of an
/// action, each step leaves fewer steps, and until the end it goes on about the same offset.
pub proof fn negotiation_ends(v: StreamView, action: SeekAction, event: SeekEvent, target: u64)
    requires
        target_of(action) == Some(target),
        answers(event, action),
    ensures
        steps_left(v.seek_step_answer(target, event)) < steps_left(action) <= 3,
        steps_left(v.seek_step_answer(target, event)) > 0 ==> target_of(
            v.seek_step_answer(target, event),
        ) == Some(target),
{
}

/// A stream drops what is pushed exactly while a seek is in flight: a step of a negotiation
/// keeps this so, and nothing else that happens meanwhile changes it.
pub proof fn pushes_are_dropped_while_in_flight(
    v: StreamView,
    action: SeekAction,
    event: SeekEvent,
    target: u64,
    op: StreamOp,
)
    requires
        target_of(action) == Some(target),
        answers(event, action),
        v.seeking == in_flight(action),
    ensures
        v.seek_stepped(target, event).seeking == in_flight(v.seek_step_answer(target, event)),
        !(op is SeekStep) ==> apply(v, op).seeking == v.seeking,
{
}

} // verus!
