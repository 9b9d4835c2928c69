//! The byte stream behind `servo://` addresses.
//!
//! A client pushes downloaded bytes, mpv's demuxer reads and seeks. The stream
//! keeps a window of the resource: the bytes downloaded so far, less the history
//! that has been trimmed. Locking, waiting and talking to the client are done by
//! the caller; the results of these functions say what to do.

use vstd::prelude::*;

verus! {

/// Unread bytes from which on the client should stop pushing.
pub const BUFFER_HIGH_WATER: usize = 10 * 1024 * 1024;

/// Unread bytes below which the stream runs low.
pub const BUFFER_LOW_WATER: usize = 1024 * 1024;

/// How much already-read data is kept behind the read position, so that small
/// backward seeks can be served locally while memory use stays bounded.
pub const BUFFER_TRIM_MARGIN: u64 = 20 * 1024 * 1024;

/// What mpv receives for an unsigned 64-bit number: its two's complement reading.
pub open spec fn signed(n: int) -> int {
    if n <= i64::MAX {
        n
    } else {
        n - 0x1_0000_0000_0000_0000
    }
}

/// The C `char` that carries a byte.
pub open spec fn c_char(b: u8) -> i8 {
    if b < 128 {
        b as i8
    } else {
        (b - 256) as i8
    }
}

/// The C `char`s that carry a run of bytes.
pub open spec fn c_chars(bytes: Seq<u8>) -> Seq<i8> {
    bytes.map_values(|b: u8| c_char(b))
}

/// The smaller of two numbers.
pub open spec fn least(a: int, b: int) -> int {
    if a <= b {
        a
    } else {
        b
    }
}

/// The larger of two numbers.
pub open spec fn greatest(a: int, b: int) -> int {
    if a >= b {
        a
    } else {
        b
    }
}

/// A stream as mathematics.
#[verifier::ext_equal]
pub struct StreamView {
    /// Offset in the resource of the first byte kept.
    pub start: int,
    /// The bytes kept, in order.
    pub bytes: Seq<u8>,
    /// Offset in the resource of the next byte to be read.
    pub pos: int,
    /// The client has said that no more data will come.
    pub eof: bool,
    /// The player is going away.
    pub cancelled: bool,
    /// A seek is being negotiated with the client.
    pub seeking: bool,
    /// The size of the whole resource, where the client has told it.
    pub total: Option<u64>,
    /// There is a client with which a seek can be negotiated.
    pub observed: bool,
}

impl StreamView {
    /// Offset in the resource just behind the last byte kept.
    pub open spec fn end(self) -> int {
        self.start + self.bytes.len()
    }

    /// The read position lies within what is kept, and offsets fit their type.
    pub open spec fn wf(self) -> bool {
        0 <= self.start <= self.pos <= self.end() <= u64::MAX
    }

    /// The bytes that the next reads will deliver.
    pub open spec fn unread(self) -> Seq<u8> {
        self.bytes.skip(self.pos - self.start)
    }

    /// Whether a read position can be reached without the client.
    pub open spec fn holds(self, offset: int) -> bool {
        self.start <= offset <= self.end()
    }

    /// A stream from which nothing has been read and to which nothing was pushed.
    pub open spec fn fresh(observed: bool) -> StreamView {
        StreamView {
            start: 0,
            bytes: Seq::empty(),
            pos: 0,
            eof: false,
            cancelled: false,
            seeking: false,
            total: None,
            observed,
        }
    }

    /// Where the window starts once history beyond the margin is dropped.
    pub open spec fn trimmed_start(self) -> int {
        greatest(self.start, self.pos - BUFFER_TRIM_MARGIN)
    }

    /// The stream after a push: the data is appended and history is trimmed,
    /// unless a seek is being negotiated, when the data is dropped.
    pub open spec fn pushed(self, data: Seq<u8>) -> StreamView {
        if self.seeking {
            self
        } else {
            StreamView {
                start: self.trimmed_start(),
                bytes: (self.bytes + data).skip(self.trimmed_start() - self.start),
                ..self
            }
        }
    }

    /// Whether a push wakes waiting readers.
    pub open spec fn push_wakes(self) -> bool {
        !self.seeking
    }

    /// The stream once no more data will come.
    pub open spec fn ended(self) -> StreamView {
        StreamView { eof: true, ..self }
    }

    /// The stream once the player is going away.
    pub open spec fn given_up(self) -> StreamView {
        StreamView { cancelled: true, ..self }
    }

    /// The stream once the size of the whole resource is known.
    pub open spec fn sized(self, size: u64) -> StreamView {
        StreamView { total: Some(size), ..self }
    }

    /// Whether the client should stop pushing.
    pub open spec fn is_full(self) -> bool {
        self.unread().len() >= BUFFER_HIGH_WATER
    }

    /// Whether the client should push more.
    pub open spec fn is_low(self) -> bool {
        self.unread().len() < BUFFER_LOW_WATER
    }

    /// Whether offsets stay countable when so many bytes are pushed.
    pub open spec fn can_take(self, len: nat) -> bool {
        self.seeking || self.end() + len <= u64::MAX
    }

    /// Whether a read has to wait: nothing to deliver and no reason to give up.
    pub open spec fn must_wait(self) -> bool {
        self.pos == self.end() && !self.cancelled && !self.eof
    }

    /// How many bytes a read into a buffer of `room` bytes delivers.
    pub open spec fn readable(self, room: nat) -> int {
        least(self.unread().len() as int, room as int)
    }

    /// The bytes that such a read delivers.
    pub open spec fn delivery(self, room: nat) -> Seq<u8> {
        self.unread().take(self.readable(room))
    }

    /// The stream after such a read.
    pub open spec fn after_read(self, room: nat) -> StreamView {
        StreamView { pos: self.pos + self.readable(room), ..self }
    }

    /// What mpv's buffer holds after such a read: what was delivered, and behind it what it
    /// held before.
    pub open spec fn filled(self, buf: Seq<i8>) -> Seq<i8> {
        c_chars(self.delivery(buf.len())) + buf.skip(self.readable(buf.len()))
    }

    /// What such a read tells mpv: the number of bytes; with nothing left, -1
    /// after a cancellation and 0 at the end of the stream.
    pub open spec fn read_outcome(self, room: nat) -> ReadOutcome {
        if self.pos < self.end() {
            ReadOutcome::Done(signed(self.readable(room)) as i64)
        } else if self.cancelled {
            ReadOutcome::Done((-1) as i64)
        } else if self.eof {
            ReadOutcome::Done(0)
        } else {
            ReadOutcome::Wait
        }
    }

    /// The size that mpv is told: the known total, else what has arrived once the
    /// stream has ended, else -1.
    pub open spec fn reported_size(self) -> int {
        match self.total {
            Some(size) => signed(size as int),
            None => if self.eof {
                signed(self.end())
            } else {
                -1
            },
        }
    }

    /// The offset kept that lies nearest to `offset`.
    pub open spec fn nearest(self, offset: int) -> int {
        greatest(least(offset, self.end()), self.start)
    }

    /// The stream after mpv has asked for a position, before any negotiation.
    pub open spec fn seek_begun(self, offset: int) -> StreamView {
        if offset >= 0 && self.holds(offset) {
            StreamView { pos: offset, ..self }
        } else if offset >= 0 && !self.observed {
            StreamView { pos: self.nearest(offset), ..self }
        } else {
            self
        }
    }

    /// What is to be done about that request: a negative position changes nothing,
    /// a position that is kept is taken at once, without a client the nearest kept
    /// position is taken, and otherwise the client has to be asked.
    pub open spec fn seek_answer(self, offset: int) -> SeekAction {
        if offset < 0 {
            SeekAction::Return(signed(self.pos) as i64)
        } else if self.holds(offset) {
            SeekAction::Return(offset as i64)
        } else if !self.observed {
            SeekAction::Return(signed(self.nearest(offset)) as i64)
        } else {
            SeekAction::OpenChannel(offset as u64)
        }
    }

    /// The stream after one step of the negotiation for `target`.
    pub open spec fn seek_stepped(self, target: u64, event: SeekEvent) -> StreamView {
        match event {
            SeekEvent::ChannelFailed | SeekEvent::ClientNotified => self,
            SeekEvent::ChannelOpened => StreamView { seeking: true, ..self },
            SeekEvent::NotifyFailed | SeekEvent::ClientGone => StreamView {
                seeking: false,
                ..self
            },
            SeekEvent::ClientReady => StreamView {
                start: target as int,
                bytes: Seq::empty(),
                pos: target as int,
                seeking: false,
                ..self
            },
        }
    }

    /// What is to be done after that step: every failure ends the seek at the old
    /// position.
    pub open spec fn seek_step_answer(self, target: u64, event: SeekEvent) -> SeekAction {
        match event {
            SeekEvent::ChannelFailed | SeekEvent::NotifyFailed | SeekEvent::ClientGone =>
                SeekAction::Return(signed(self.pos) as i64),
            SeekEvent::ChannelOpened => SeekAction::NotifyClient(target),
            SeekEvent::ClientNotified => SeekAction::AwaitClient(target),
            SeekEvent::ClientReady => SeekAction::Acknowledge(signed(target as int) as i64),
        }
    }
}

/// What a read came to.
#[derive(Debug, Clone, Copy, PartialEq, Eq, Structural)]
pub enum ReadOutcome {
    /// Nothing can be delivered yet: wait to be woken, then read again.
    Wait,
    /// Hand this to mpv.
    Done(i64),
}

/// What the caller has to do about a seek.
#[derive(Debug, Clone, Copy, PartialEq, Eq, Structural)]
pub enum SeekAction {
    /// The seek is over: hand this position to mpv.
    Return(i64),
    /// Open a channel on which the client can answer a seek to this offset.
    OpenChannel(u64),
    /// Tell the client that data from this offset is needed.
    NotifyClient(u64),
    /// Wait until the client has arranged a fetch from this offset.
    AwaitClient(u64),
    /// Wake waiting readers, tell the client to start pushing, and hand this
    /// position to mpv.
    Acknowledge(i64),
}

/// What came of the last action of a seek that is negotiated with the client.
#[derive(Debug, Clone, Copy, PartialEq, Eq, Structural)]
pub enum SeekEvent {
    /// The channel for the answer is open.
    ChannelOpened,
    /// No channel could be opened.
    ChannelFailed,
    /// The client has been told.
    ClientNotified,
    /// The client could not be told.
    NotifyFailed,
    /// The client has arranged the new fetch.
    ClientReady,
    /// The client went away without an answer.
    ClientGone,
}

/// A stream of bytes from a client to mpv.
pub struct ServoStream {
    /// Bytes downloaded so far, starting at logical offset `buffer_start`.
    buffer: Vec<u8>,
    /// Logical file offset represented by `buffer[0]`.
    buffer_start: u64,
    /// Logical file offset of the next byte mpv will read.
    read_pos: u64,
    eof: bool,
    cancelled: bool,
    /// True while a network-level seek is in flight. Data pushed while this is
    /// set belongs to the fetch that is being abandoned and is dropped.
    seeking: bool,
    /// Known total size of the resource, if any. Independent of how much has
    /// been downloaded.
    total_size: Option<u64>,
    /// False only for the fallback stream of an address that names no stream.
    observed: bool,
}

impl View for ServoStream {
    type V = StreamView;

    closed spec fn view(&self) -> StreamView {
        StreamView {
            start: self.buffer_start as int,
            bytes: self.buffer@,
            pos: self.read_pos as int,
            eof: self.eof,
            cancelled: self.cancelled,
            seeking: self.seeking,
            total: self.total_size,
            observed: self.observed,
        }
    }
}

/// A byte as the C `char` of the same bits.
fn byte_to_c_char(b: u8) -> (r: i8)
    ensures
        r == c_char(b),
{
    assert(b < 128 ==> (b as i8) as int == b as int) by (bit_vector);
    assert(b >= 128 ==> (b as i8) as int == b as int - 256) by (bit_vector);
    b as i8
}

/// A number as mpv receives it.
fn to_signed(n: u64) -> (r: i64)
    ensures
        r == signed(n as int),
{
    assert(n <= 0x7fff_ffff_ffff_ffff ==> (n as i64) as int == n as int) by (bit_vector);
    assert(n > 0x7fff_ffff_ffff_ffff ==> (n as i64) as int == n as int - 0x1_0000_0000_0000_0000)
        by (bit_vector);
    n as i64
}

impl ServoStream {
    /// An empty stream. `observed` says whether there is a client with which a
    /// seek can be negotiated.
    pub fn new(observed: bool) -> (r: Self)
        ensures
            r@ == StreamView::fresh(observed),
            r@.wf(),
    {
        ServoStream {
            buffer: Vec::with_capacity(1024 * 1024),
            buffer_start: 0,
            read_pos: 0,
            eof: false,
            cancelled: false,
            seeking: false,
            total_size: None,
            observed,
        }
    }

    /// Whether offsets stay countable when so many bytes are pushed.
    pub fn has_room(&self, len: usize) -> (r: bool)
        requires
            self@.wf(),
        ensures
            r == (self@.seeking || self@.end() + len <= u64::MAX),
            r == self@.can_take(len as nat),
    {
        self.seeking || u64::MAX - self.write_pos() >= len as u64
    }

    /// Appends downloaded bytes and drops history beyond the margin. While a seek
    /// is being negotiated the bytes belong to an abandoned fetch and are dropped.
    /// The result says whether waiting readers are to be woken.
    pub fn push_data(&mut self, data: &[u8]) -> (wake: bool)
        requires
            old(self)@.wf(),
            !old(self)@.seeking ==> old(self)@.end() + data@.len() <= u64::MAX,
        ensures
            final(self)@ == old(self)@.pushed(data@),
            final(self)@.wf(),
            wake == !old(self)@.seeking,
            wake == old(self)@.push_wakes(),
    {
        if self.seeking {
            return false;
        }
        let ghost before = self@;
        self.buffer.extend_from_slice(data);
        assert(self.buffer@ =~= before.bytes + data@);

        let held: usize = self.buffer.len();
        let trim_before: u64 = self.read_pos.saturating_sub(BUFFER_TRIM_MARGIN);
        if trim_before > self.buffer_start {
            let drop_count: usize = (trim_before - self.buffer_start) as usize;
            if drop_count > 0 && drop_count <= held {
                let kept = self.buffer.split_off(drop_count);
                self.buffer = kept;
                self.buffer_start = self.buffer_start + drop_count as u64;
            }
        }
        assert(self.buffer@ =~= (before.bytes + data@).skip(before.trimmed_start() - before.start));
        true
    }

    /// Records that no more data will come. The result says that waiting readers are to be
    /// woken.
    pub fn set_eof(&mut self) -> (wake: bool)
        ensures
            final(self)@ == (StreamView { eof: true, ..old(self)@ }),
            final(self)@ == old(self)@.ended(),
            wake,
    {
        self.eof = true;
        true
    }

    /// Records the size of the whole resource, so that mpv knows the real seek
    /// range before everything has been downloaded.
    pub fn set_size(&mut self, size: u64)
        ensures
            final(self)@ == (StreamView { total: Some(size), ..old(self)@ }),
            final(self)@ == old(self)@.sized(size),
    {
        self.total_size = Some(size);
    }

    /// Records that the player is going away. The result says that waiting readers are to be
    /// woken.
    pub fn cancel(&mut self) -> (wake: bool)
        ensures
            final(self)@ == (StreamView { cancelled: true, ..old(self)@ }),
            final(self)@ == old(self)@.given_up(),
            wake,
    {
        self.cancelled = true;
        true
    }

    /// Offset just behind the last byte kept.
    fn write_pos(&self) -> (r: u64)
        requires
            self@.wf(),
        ensures
            r == self@.end(),
    {
        self.buffer_start + self.buffer.len() as u64
    }

    /// Number of bytes that have arrived and not been read.
    fn unread_len(&self) -> (r: usize)
        requires
            self@.wf(),
        ensures
            r == self@.unread().len(),
    {
        let held: usize = self.buffer.len();
        held - (self.read_pos - self.buffer_start) as usize
    }

    /// Whether the client should stop pushing.
    pub fn is_buffer_full(&self) -> (r: bool)
        requires
            self@.wf(),
        ensures
            r == (self@.unread().len() >= BUFFER_HIGH_WATER),
            r == self@.is_full(),
    {
        self.unread_len() >= BUFFER_HIGH_WATER
    }

    /// Whether the client should push more.
    pub fn is_buffer_low(&self) -> (r: bool)
        requires
            self@.wf(),
        ensures
            r == (self@.unread().len() < BUFFER_LOW_WATER),
            r == self@.is_low(),
    {
        self.unread_len() < BUFFER_LOW_WATER
    }

    /// Reads into mpv's buffer. What is unread is delivered first; only then do a
    /// cancellation and the end of the stream show.
    pub fn read(&mut self, buf: &mut [i8]) -> (r: ReadOutcome)
        requires
            old(self)@.wf(),
        ensures
            r == old(self)@.read_outcome(old(buf)@.len()),
            final(self)@ == old(self)@.after_read(old(buf)@.len()),
            final(self)@.wf(),
            final(buf)@ == c_chars(old(self)@.delivery(old(buf)@.len()))
                + old(buf)@.skip(old(self)@.readable(old(buf)@.len())),
            final(buf)@ == old(self)@.filled(old(buf)@),
    {
        let write_pos: u64 = self.write_pos();
        let ghost before = self@;
        let ghost old_buf = buf@;
        if self.read_pos >= write_pos {
            assert(before.unread().len() == 0);
            assert(buf@ =~= c_chars(before.delivery(old_buf.len())) + old_buf.skip(0));
            if self.cancelled {
                return ReadOutcome::Done(-1);
            }
            if self.eof {
                return ReadOutcome::Done(0);
            }
            return ReadOutcome::Wait;
        }
        let held: usize = self.buffer.len();
        let available: usize = self.unread_len();
        let to_read: usize = if available <= buf.len() { available } else { buf.len() };
        let start: usize = (self.read_pos - self.buffer_start) as usize;
        let mut i: usize = 0;
        while i < to_read
            invariant
                i <= to_read,
                to_read <= old_buf.len(),
                buf@.len() == old_buf.len(),
                start + to_read <= held,
                held == self.buffer@.len(),
                self@ == before,
                forall|j: int| 0 <= j < i ==> buf@[j] == c_char(self.buffer@[start + j]),
                forall|j: int| i <= j < old_buf.len() ==> buf@[j] == old_buf[j],
            decreases to_read - i,
        {
            buf[i] = byte_to_c_char(self.buffer[start + i]);
            i = i + 1;
        }
        self.read_pos = self.read_pos + to_read as u64;
        assert(buf@ =~= c_chars(before.delivery(old_buf.len())) + old_buf.skip(to_read as int));
        ReadOutcome::Done(to_signed(to_read as u64))
    }

    /// Starts a seek to an absolute offset. It is served locally where the offset is
    /// kept; otherwise the answer starts a negotiation with the client, which
    /// `seek_step` carries on.
    pub fn seek(&mut self, offset: i64) -> (r: SeekAction)
        requires
            old(self)@.wf(),
        ensures
            final(self)@ == old(self)@.seek_begun(offset as int),
            final(self)@.wf(),
            r == old(self)@.seek_answer(offset as int),
    {
        if offset < 0 {
            return SeekAction::Return(to_signed(self.read_pos));
        }
        let target: u64 = offset as u64;
        let write_pos: u64 = self.write_pos();
        if target >= self.buffer_start && target <= write_pos {
            self.read_pos = target;
            return SeekAction::Return(offset);
        }
        if !self.observed {
            let capped: u64 = if target <= write_pos { target } else { write_pos };
            self.read_pos = if capped >= self.buffer_start { capped } else { self.buffer_start };
            return SeekAction::Return(to_signed(self.read_pos));
        }
        SeekAction::OpenChannel(target)
    }

    /// Carries on the negotiation of a seek to `target`: takes what came of the last
    /// action and says what to do next.
    pub fn seek_step(&mut self, target: u64, event: SeekEvent) -> (r: SeekAction)
        requires
            old(self)@.wf(),
        ensures
            final(self)@ == old(self)@.seek_stepped(target, event),
            final(self)@.wf(),
            r == old(self)@.seek_step_answer(target, event),
    {
        match event {
            SeekEvent::ChannelFailed => SeekAction::Return(to_signed(self.read_pos)),
            SeekEvent::ChannelOpened => {
                self.seeking = true;
                SeekAction::NotifyClient(target)
            },
            SeekEvent::ClientNotified => SeekAction::AwaitClient(target),
            SeekEvent::NotifyFailed | SeekEvent::ClientGone => {
                self.seeking = false;
                SeekAction::Return(to_signed(self.read_pos))
            },
            SeekEvent::ClientReady => {
                self.buffer.clear();
                self.buffer_start = target;
                self.read_pos = target;
                self.seeking = false;
                SeekAction::Acknowledge(to_signed(target))
            },
        }
    }

    /// The size that mpv is told.
    pub fn size(&self) -> (r: i64)
        requires
            self@.wf(),
        ensures
            r == self@.reported_size(),
    {
        match self.total_size {
            Some(size) => to_signed(size),
            None => {
                if self.eof {
                    to_signed(self.write_pos())
                } else {
                    -1
                }
            },
        }
    }
}

/// A stream as a client and mpv's threads share it: what locks it, and the client with which
/// seeks are negotiated, `None` only for the fallback stream of an address that names no
/// stream.
pub struct SharedStream<O, L> {
    pub observer: Option<O>,
    pub inner: L,
}

/// Whether an empty stream, with a client or without, can be given a lock.
pub open spec fn lockable<L, F: FnOnce(ServoStream) -> L>(lock: F, observed: bool) -> bool {
    forall|stream: ServoStream|
        stream@ == StreamView::fresh(observed) ==> #[trigger] call_requires(lock, (stream,))
}

/// Whether something is an empty stream, with a client or without, under a lock.
pub open spec fn locked<L, F: FnOnce(ServoStream) -> L>(lock: F, observed: bool, inner: L) -> bool {
    exists|stream: ServoStream|
        stream@ == StreamView::fresh(observed) && #[trigger] call_ensures(lock, (stream,), inner)
}

impl<O, L> SharedStream<O, L> {
    /// An empty stream to be shared. It knows of a client exactly where it has one.
    pub fn new<F: FnOnce(ServoStream) -> L>(observer: Option<O>, lock: F) -> (r: Self)
        requires
            lockable(lock, observer is Some),
        ensures
            r.observer == observer,
            locked(lock, observer is Some, r.inner),
    {
        let stream: ServoStream = ServoStream::new(observer.is_some());
        let inner: L = lock(stream);
        SharedStream { observer, inner }
    }
}

} // verus!
