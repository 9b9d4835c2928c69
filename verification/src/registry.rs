//! The streams that mpv can open, by number.

use crate::address::{address_names_stream, address_of, number_of, parse_stream_id, without_scheme};
use crate::stream::{lockable, locked, ServoStream, SharedStream};
use std::collections::HashMap;
use std::sync::Arc;
use vstd::prelude::*;

verus! {

/// A registry as mathematics.
pub struct RegistryView<O, L> {
    /// The streams that can be opened, by number.
    pub streams: Map<u64, Arc<SharedStream<O, L>>>,
    /// The number of the next stream.
    pub next_id: u64,
}

impl<O, L> RegistryView<O, L> {
    /// Numbers start at one, the next one has not been given out, and every stream has a
    /// client.
    pub open spec fn wf(self) -> bool {
        &&& self.next_id >= 1
        &&& forall|id: u64| #[trigger]
            self.streams.contains_key(id) ==> 1 <= id < self.next_id && self.streams[id].observer
                is Some
    }

    /// The registry once a stream is registered.
    pub open spec fn registered(self, stream: Arc<SharedStream<O, L>>) -> RegistryView<O, L> {
        RegistryView {
            streams: self.streams.insert(self.next_id, stream),
            next_id: (self.next_id + 1) as u64,
        }
    }

    /// The registry once a number is forgotten.
    pub open spec fn without(self, id: u64) -> RegistryView<O, L> {
        RegistryView { streams: self.streams.remove(id), ..self }
    }

    /// What the opening of an address comes to.
    pub open spec fn opened(self, uri: Seq<char>) -> OpenOutcome<O, L> {
        match number_of(without_scheme(uri)) {
            Some(id) => match self.streams.get(id) {
                Some(stream) => OpenOutcome::Found(stream),
                None => OpenOutcome::UnknownStream(id),
            },
            None => OpenOutcome::BadAddress,
        }
    }
}

/// The streams that mpv can open, by number. `O` is a client, and `L` a stream under its lock.
pub struct StreamRegistry<O, L> {
    streams: HashMap<u64, Arc<SharedStream<O, L>>>,
    next_id: u64,
}

impl<O, L> View for StreamRegistry<O, L> {
    type V = RegistryView<O, L>;

    closed spec fn view(&self) -> RegistryView<O, L> {
        RegistryView { streams: self.streams@, next_id: self.next_id }
    }
}

/// What the opening of an address came to.
pub enum OpenOutcome<O, L> {
    /// The address names this stream.
    Found(Arc<SharedStream<O, L>>),
    /// The address names a stream that is not registered.
    UnknownStream(u64),
    /// The address names no stream.
    BadAddress,
}

impl<O, L> StreamRegistry<O, L> {
    /// A registry without streams.
    pub fn new() -> (r: Self)
        ensures
            r@.streams == Map::<u64, Arc<SharedStream<O, L>>>::empty(),
            r@.next_id == 1,
            r@.wf(),
    {
        StreamRegistry { streams: HashMap::new(), next_id: 1 }
    }

    /// Whether there is a number for another stream.
    pub fn has_number(&self) -> (r: bool)
        ensures
            r == (self@.next_id < u64::MAX),
    {
        self.next_id < u64::MAX
    }

    /// Registers a new, empty stream for a client under a number of its own, and hands both
    /// back.
    pub fn register<F: FnOnce(ServoStream) -> L>(&mut self, observer: O, lock: F) -> (r: (
        u64,
        Arc<SharedStream<O, L>>,
    ))
        requires
            old(self)@.wf(),
            old(self)@.next_id < u64::MAX,
            lockable(lock, true),
        ensures
            r.0 == old(self)@.next_id,
            r.1.observer == Some(observer),
            locked(lock, true, r.1.inner),
            final(self)@ == old(self)@.registered(r.1),
            final(self)@.wf(),
    {
        broadcast use vstd::std_specs::hash::group_hash_axioms;

        let id: u64 = self.next_id;
        self.next_id = self.next_id + 1;
        let stream: Arc<SharedStream<O, L>> = Arc::new(SharedStream::new(Some(observer), lock));
        self.streams.insert(id, stream.clone());
        (id, stream)
    }

    /// The stream with a number, if it is registered.
    pub fn get(&mut self, id: u64) -> (r: Option<Arc<SharedStream<O, L>>>)
        ensures
            r == old(self)@.streams.get(id),
            final(self)@ == old(self)@,
    {
        broadcast use vstd::std_specs::hash::group_hash_axioms;
        match self.streams.get(&id) {
            Some(stream) => Some(stream.clone()),
            None => None,
        }
    }

    /// Forgets the stream with a number. The number is not given out again.
    pub fn remove(&mut self, id: u64)
        ensures
            final(self)@.streams == old(self)@.streams.remove(id),
            final(self)@.next_id == old(self)@.next_id,
            final(self)@ == old(self)@.without(id),
            old(self)@.wf() ==> final(self)@.wf(),
    {
        broadcast use vstd::std_specs::hash::group_hash_axioms;
        self.streams.remove(&id);
    }

    /// The stream that mpv is to read for an address. Where there is none, mpv gets an
    /// empty stream without a client.
    pub fn open(&mut self, uri: &str) -> (r: OpenOutcome<O, L>)
        ensures
            r == old(self)@.opened(uri@),
            final(self)@ == old(self)@,
    {
        match parse_stream_id(uri) {
            Some(id) => match self.get(id) {
                Some(stream) => OpenOutcome::Found(stream),
                None => OpenOutcome::UnknownStream(id),
            },
            None => OpenOutcome::BadAddress,
        }
    }
}

/// An operation on a registry.
pub ghost enum RegistryOp<O, L> {
    /// A stream is registered.
    Register(Arc<SharedStream<O, L>>),
    /// A number is forgotten.
    Remove(u64),
}

/// Whether every stream that is registered has a client.
pub open spec fn all_observed<O, L>(ops: Seq<RegistryOp<O, L>>) -> bool {
    forall|i: int|
        0 <= i < ops.len() ==> (#[trigger] ops[i] matches RegistryOp::Register(stream)
            ==> stream.observer is Some)
}

/// Whether a number is never forgotten.
pub open spec fn keeps<O, L>(ops: Seq<RegistryOp<O, L>>, id: u64) -> bool {
    forall|i: int| 0 <= i < ops.len() ==> #[trigger] ops[i] != RegistryOp::<O, L>::Remove(id)
}

/// The registry after one operation.
pub open spec fn apply<O, L>(v: RegistryView<O, L>, op: RegistryOp<O, L>) -> RegistryView<O, L> {
    match op {
        RegistryOp::Register(stream) => v.registered(stream),
        RegistryOp::Remove(id) => v.without(id),
    }
}

/// The registry after a run of operations.
pub open spec fn run<O, L>(
    v: RegistryView<O, L>,
    ops: Seq<RegistryOp<O, L>>,
) -> RegistryView<O, L>
    decreases ops.len(),
{
    if ops.len() == 0 {
        v
    } else {
        apply(run(v, ops.drop_last()), ops.last())
    }
}

/// The numbers that a run gives out, in order.
pub open spec fn issued<O, L>(v: RegistryView<O, L>, ops: Seq<RegistryOp<O, L>>) -> Seq<u64>
    decreases ops.len(),
{
    if ops.len() == 0 {
        Seq::empty()
    } else if ops.last() is Register {
        issued(v, ops.drop_last()).push(run(v, ops.drop_last()).next_id)
    } else {
        issued(v, ops.drop_last())
    }
}

/// A number is given out once: over every run of registrations and removals that does not
/// use up all numbers, the numbers given out count up from the first, so none is repeated,
/// removed or not.
pub proof fn numbers_are_never_reused<O, L>(v: RegistryView<O, L>, ops: Seq<RegistryOp<O, L>>)
    requires
        v.next_id + issued(v, ops).len() <= u64::MAX,
    ensures
        run(v, ops).next_id == v.next_id + issued(v, ops).len(),
        forall|k: int|
            0 <= k < issued(v, ops).len() ==> #[trigger] issued(v, ops)[k] == v.next_id + k,
        issued(v, ops).no_duplicates(),
    decreases ops.len(),
{
    if ops.len() > 0 {
        numbers_are_never_reused(v, ops.drop_last());
    }
}

/// A registry that is in order stays so: in particular, every stream that mpv can open has a
/// client with which seeks can be negotiated.
pub proof fn order_is_kept<O, L>(v: RegistryView<O, L>, ops: Seq<RegistryOp<O, L>>)
    requires
        v.wf(),
        all_observed(ops),
        v.next_id + issued(v, ops).len() <= u64::MAX,
    ensures
        run(v, ops).wf(),
    decreases ops.len(),
{
    if ops.len() > 0 {
        let before = ops.drop_last();
        assert forall|i: int| 0 <= i < before.len() implies (#[trigger] before[i] matches
            RegistryOp::Register(stream) ==> stream.observer is Some) by {
            assert(before[i] == ops[i]);
        }
        order_is_kept(v, before);
        numbers_are_never_reused(v, before);
        assert(ops[ops.len() - 1] == ops.last());
    }
}

/// A registered stream stays where it is: as long as its number is not removed, other
/// registrations and removals leave it alone.
pub proof fn registered_stream_stays<O, L>(
    v: RegistryView<O, L>,
    id: u64,
    ops: Seq<RegistryOp<O, L>>,
)
    requires
        v.wf(),
        v.next_id + issued(v, ops).len() <= u64::MAX,
        v.streams.contains_key(id),
        keeps(ops, id),
    ensures
        run(v, ops).streams.get(id) == Some(v.streams[id]),
    decreases ops.len(),
{
    if ops.len() > 0 {
        let before = ops.drop_last();
        assert(ops[ops.len() - 1] == ops.last());
        assert forall|i: int| 0 <= i < before.len() implies #[trigger] before[i] != RegistryOp::<
            O,
            L,
        >::Remove(id) by {
            assert(before[i] == ops[i]);
        }
        registered_stream_stays(v, id, before);
        numbers_are_never_reused(v, before);
    }
}

/// mpv opens what was registered: as long as a stream's number is not removed, the address
/// made of that number opens that stream.
pub proof fn address_opens_registered_stream<O, L>(
    v: RegistryView<O, L>,
    stream: Arc<SharedStream<O, L>>,
    ops: Seq<RegistryOp<O, L>>,
)
    requires
        v.wf(),
        stream.observer is Some,
        v.next_id < u64::MAX,
        v.next_id + 1 + issued(v.registered(stream), ops).len() <= u64::MAX,
        keeps(ops, v.next_id),
    ensures
        run(v.registered(stream), ops).opened(address_of(v.next_id)) == OpenOutcome::Found(stream),
{
    registered_stream_stays(v.registered(stream), v.next_id, ops);
    address_names_stream(v.next_id);
}

/// Once a number is removed, its address opens nothing any more, whatever is registered
/// later.
pub proof fn removed_stream_is_gone<O, L>(
    v: RegistryView<O, L>,
    id: u64,
    ops: Seq<RegistryOp<O, L>>,
)
    requires
        id < v.next_id,
        v.next_id + issued(apply(v, RegistryOp::Remove(id)), ops).len() <= u64::MAX,
    ensures
        run(apply(v, RegistryOp::Remove(id)), ops).opened(address_of(id)) == OpenOutcome::<
            O,
            L,
        >::UnknownStream(id),
    decreases ops.len(),
{
    let w = apply(v, RegistryOp::Remove(id));
    address_names_stream(id);
    if ops.len() > 0 {
        removed_stream_is_gone(v, id, ops.drop_last());
        numbers_are_never_reused(w, ops.drop_last());
    }
}

/// The address of a number opens the stream that is registered under it, and reports that number
/// where none is.
pub proof fn address_opens_by_number<O, L>(v: RegistryView<O, L>, id: u64)
    ensures
        v.streams.contains_key(id) ==> v.opened(address_of(id)) == OpenOutcome::Found(
            v.streams[id],
        ),
        !v.streams.contains_key(id) ==> v.opened(address_of(id)) == OpenOutcome::<
            O,
            L,
        >::UnknownStream(id),
{
    address_names_stream(id);
}

/// Every text behind the scheme opens what its number opens, and one that is no number opens
/// nothing.
pub proof fn texts_open_by_their_number<O, L>(v: RegistryView<O, L>, text: Seq<char>)
    ensures
        number_of(without_scheme(text)) matches Some(id) ==> v.opened(text) == v.opened(
            address_of(id),
        ),
        number_of(without_scheme(text)) is None <==> v.opened(text) is BadAddress,
{
    if let Some(id) = number_of(without_scheme(text)) {
        address_names_stream(id);
    }
}

/// A registration puts the stream under the next number, leaves every other number alone, and
/// moves on to the following number.
pub proof fn registration_takes_the_next_number<O, L>(
    v: RegistryView<O, L>,
    stream: Arc<SharedStream<O, L>>,
    other: u64,
)
    requires
        v.next_id < u64::MAX,
        other != v.next_id,
    ensures
        v.registered(stream).streams.contains_key(v.next_id),
        v.registered(stream).streams[v.next_id] == stream,
        v.registered(stream).streams.contains_key(other) == v.streams.contains_key(other),
        v.registered(stream).streams[other] == v.streams[other],
        v.registered(stream).next_id == v.next_id + 1,
{
}

/// A removal forgets its own number, whichever it is, leaves every other alone, and gives no
/// number back.
pub proof fn removal_forgets_one_number<O, L>(v: RegistryView<O, L>, id: u64, other: u64)
    requires
        other != id,
    ensures
        !v.without(id).streams.contains_key(id),
        v.without(id).streams.contains_key(other) == v.streams.contains_key(other),
        v.streams.contains_key(other) ==> v.without(id).streams[other] == v.streams[other],
        v.without(id).next_id == v.next_id,
{
}

} // verus!
