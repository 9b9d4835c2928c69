//! The backend's table of live media instances, by the client context that they belong to, and
//! what the instances are numbered by.

use servo_media_traits::ClientContextId;
use vstd::prelude::*;

verus! {

/// `servo_media_traits::ClientContextId`: the client context that an instance belongs to. Its
/// contents are not looked into.
#[verifier::external_type_specification]
#[verifier::external_body]
pub struct ExClientContextId(ClientContextId);

/// `==` on `servo_media_traits::ClientContextId`, which compares the two numbers that the
/// type is made of: two contexts compare equal exactly where they are the same value.
#[verifier::external_body]
fn same_context(a: &ClientContextId, b: &ClientContextId) -> (r: bool)
    ensures
        r == (*a == *b),
{
    a == b
}

/// What is known of the playability of a media type.
#[derive(Debug, Clone, Copy, PartialEq, Eq, Structural)]
pub enum SupportsMediaType {
    Maybe,
    No,
    Probably,
}

/// A table as mathematics. `H` is a handle to an instance.
#[verifier::ext_equal]
pub struct TableView<H> {
    /// The instances of each context, with their numbers, in the order in which they came.
    pub instances: Map<ClientContextId, Seq<(usize, H)>>,
}

/// A backend as mathematics, apart from its table.
pub struct BackendView {
    /// The number of the next instance.
    pub next_instance_id: usize,
    /// Whether captured media is to be made up.
    pub capture_mocking: bool,
}

/// The number after another, the first one following the last.
pub open spec fn id_after(id: usize) -> int {
    if id == usize::MAX {
        0
    } else {
        id + 1
    }
}

/// Having another number.
pub open spec fn other_than<H>(id: usize) -> spec_fn((usize, H)) -> bool {
    |e: (usize, H)| e.0 != id
}

/// Instances without those that have a number.
pub open spec fn without_id<H>(instances: Seq<(usize, H)>, id: usize) -> Seq<(usize, H)> {
    instances.filter(other_than(id))
}

/// The instances whose flags are set.
pub open spec fn flagged<H>(instances: Seq<(usize, H)>, live: Seq<bool>) -> Seq<(usize, H)>
    decreases instances.len(),
{
    if instances.len() == 0 {
        Seq::empty()
    } else if live[instances.len() - 1] {
        flagged(instances.drop_last(), live).push(instances.last())
    } else {
        flagged(instances.drop_last(), live)
    }
}

/// The numbers of instances, in order.
pub open spec fn ids<H>(instances: Seq<(usize, H)>) -> Seq<usize> {
    instances.map_values(|e: (usize, H)| e.0)
}

/// The numbers that a list names for a context, in order.
pub open spec fn ids_for(list: Seq<(ClientContextId, usize)>, context: ClientContextId) -> Seq<usize>
    decreases list.len(),
{
    if list.len() == 0 {
        Seq::empty()
    } else if list.last().0 == context {
        ids_for(list.drop_last(), context).push(list.last().1)
    } else {
        ids_for(list.drop_last(), context)
    }
}

/// The instances of a context; none where the context is unknown.
pub open spec fn lookup<H>(
    instances: Map<ClientContextId, Seq<(usize, H)>>,
    context: ClientContextId,
) -> Seq<(usize, H)> {
    if instances.contains_key(context) {
        instances[context]
    } else {
        Seq::empty()
    }
}

impl<H> TableView<H> {
    /// The instances of a context; none where the context is unknown.
    pub open spec fn of(self, context: ClientContextId) -> Seq<(usize, H)> {
        lookup(self.instances, context)
    }

    /// The table once an instance has joined a context, known before or not.
    pub open spec fn added(self, context: ClientContextId, id: usize, handle: H) -> TableView<H> {
        TableView {
            instances: self.instances.insert(context, self.of(context).push((id, handle))),
        }
    }

    /// The table once an instance is gone. A context without instances goes too.
    pub open spec fn shut_down(self, context: ClientContextId, id: usize) -> TableView<H> {
        let left = without_id(self.of(context), id);
        TableView {
            instances: if left.len() == 0 {
                self.instances.remove(context)
            } else {
                self.instances.insert(context, left)
            },
        }
    }

    /// The table once the instances of a context whose flags are not set are forgotten. The
    /// context stays, even without instances.
    pub open spec fn kept(self, context: ClientContextId, live: Seq<bool>) -> TableView<H> {
        if self.instances.contains_key(context) {
            TableView {
                instances: self.instances.insert(
                    context,
                    flagged(self.instances[context], live),
                ),
            }
        } else {
            self
        }
    }
}

/// The instances of one context.
struct Group<H> {
    context: ClientContextId,
    members: Vec<(usize, H)>,
}

/// The live media instances.
pub struct InstanceTable<H> {
    groups: Vec<Group<H>>,
}

/// What a backend has besides the table of its instances. The two are apart so that numbers can
/// be taken while something is done to the instances of a context.
pub struct MpvBackend {
    next_instance_id: usize,
    capture_mocking: bool,
}

/// The contexts and instances that groups hold.
spec fn table<H>(groups: Seq<Group<H>>) -> Map<ClientContextId, Seq<(usize, H)>>
    decreases groups.len(),
{
    if groups.len() == 0 {
        Map::empty()
    } else {
        table(groups.drop_last()).insert(groups.last().context, groups.last().members@)
    }
}

/// No context has two groups.
spec fn distinct<H>(groups: Seq<Group<H>>) -> bool {
    forall|i: int, j: int|
        0 <= i < j < groups.len() ==> #[trigger] groups[i].context != #[trigger] groups[j].context
}

impl<H> View for InstanceTable<H> {
    type V = TableView<H>;

    closed spec fn view(&self) -> TableView<H> {
        TableView { instances: table(self.groups@) }
    }
}

impl View for MpvBackend {
    type V = BackendView;

    closed spec fn view(&self) -> BackendView {
        BackendView {
            next_instance_id: self.next_instance_id,
            capture_mocking: self.capture_mocking,
        }
    }
}

/// Where a context's group stands is where the table has it, and the other way round.
proof fn table_by_index<H>(groups: Seq<Group<H>>)
    requires
        distinct(groups),
    ensures
        forall|i: int|
            0 <= i < groups.len() ==> #[trigger] table(groups).contains_key(groups[i].context)
                && table(groups)[groups[i].context] == groups[i].members@,
        forall|c: ClientContextId| #[trigger]
            table(groups).contains_key(c) ==> exists|i: int|
                0 <= i < groups.len() && #[trigger] groups[i].context == c,
    decreases groups.len(),
{
    if groups.len() > 0 {
        let rest = groups.drop_last();
        assert forall|i: int, j: int| 0 <= i < j < rest.len() implies #[trigger] rest[i].context
            != #[trigger] rest[j].context by {
            assert(groups[i].context != groups[j].context);
        }
        table_by_index(rest);
        assert forall|i: int| 0 <= i < groups.len() implies #[trigger] table(groups).contains_key(
            groups[i].context,
        ) && table(groups)[groups[i].context] == groups[i].members@ by {
            if i < rest.len() {
                assert(rest[i] == groups[i]);
                assert(table(rest).contains_key(rest[i].context));
                assert(groups[i].context != groups[groups.len() - 1].context);
            }
        }
        assert forall|c: ClientContextId| #[trigger] table(groups).contains_key(c) implies exists|
            i: int,
        |
            0 <= i < groups.len() && #[trigger] groups[i].context == c by {
            if c == groups.last().context {
                assert(groups[groups.len() - 1].context == c);
            } else {
                assert(table(rest).contains_key(c));
                let i = choose|i: int| 0 <= i < rest.len() && #[trigger] rest[i].context == c;
                assert(groups[i].context == c);
            }
        }
    }
}

impl<H> InstanceTable<H> {
    /// No context has two groups.
    #[verifier::type_invariant]
    spec fn wf(self) -> bool {
        distinct(self.groups@)
    }

    /// A table without instances.
    pub fn new() -> (r: Self)
        ensures
            r@.instances == Map::<ClientContextId, Seq<(usize, H)>>::empty(),
    {
        InstanceTable { groups: Vec::new() }
    }

    /// Takes in a new instance of a context.
    pub fn add_instance(&mut self, context: &ClientContextId, id: usize, handle: H)
        ensures
            final(self)@ == old(self)@.added(*context, id, handle),
    {
        proof {
            use_type_invariant(&*self);
        }
        let mut groups: Vec<Group<H>> = Vec::new();
        std::mem::swap(&mut groups, &mut self.groups);
        let ghost before = groups@;
        proof {
            table_by_index(before);
        }
        match find_group(&groups, context) {
            Some(i) => {
                let mut group: Group<H> = groups.remove(i);
                proof {
                    table_without(before, i as int);
                }
                group.members.push((id, handle));
                groups.push(group);
                assert(groups@.drop_last() =~= before.remove(i as int));
            },
            None => {
                let mut members: Vec<(usize, H)> = Vec::new();
                members.push((id, handle));
                groups.push(Group { context: *context, members });
                assert(groups@.drop_last() =~= before);
                assert(groups@.last().members@ =~= Seq::<(usize, H)>::empty().push((id, handle)));
            },
        }
        assert(distinct(groups@));
        self.groups = groups;
        assert(self@.instances =~= old(self)@.added(*context, id, handle).instances);
    }

    /// The instances of a context, where the context is known, with their numbers, in the
    /// order in which they came.
    pub fn instances_of(&self, context: &ClientContextId) -> (r: Option<&Vec<(usize, H)>>)
        ensures
            match r {
                Some(members) => self@.instances.contains_key(*context) && members@
                    == self@.instances[*context],
                None => !self@.instances.contains_key(*context),
            },
    {
        proof {
            use_type_invariant(self);
            table_by_index(self.groups@);
        }
        match find_group(&self.groups, context) {
            Some(i) => {
                assert(table(self.groups@).contains_key(self.groups@[i as int].context));
                Some(&self.groups[i].members)
            },
            None => None,
        }
    }

    /// Forgets the instances of a context whose flags are not set. An unknown context stays
    /// unknown; a known one stays known, even without instances.
    pub fn keep_live(&mut self, context: &ClientContextId, live: &[bool])
        requires
            old(self)@.of(*context).len() == live@.len(),
        ensures
            final(self)@ == old(self)@.kept(*context, live@),
    {
        proof {
            use_type_invariant(&*self);
        }
        let mut groups: Vec<Group<H>> = Vec::new();
        std::mem::swap(&mut groups, &mut self.groups);
        let ghost before = groups@;
        proof {
            table_by_index(before);
        }
        if let Some(i) = find_group(&groups, context) {
            assert(table(before).contains_key(before[i as int].context));
            let group: Group<H> = groups.remove(i);
            proof {
                table_without(before, i as int);
            }
            let members: Vec<(usize, H)> = keep_flagged(group.members, live);
            groups.push(Group { context: *context, members });
            assert(groups@.drop_last() =~= before.remove(i as int));
        }
        assert(distinct(groups@));
        self.groups = groups;
        assert(self@.instances =~= old(self)@.kept(*context, live@).instances);
    }

    /// Forgets an instance that has shut down, and its context with the last one.
    pub fn shutdown_instance(&mut self, context: &ClientContextId, id: usize)
        ensures
            final(self)@ == old(self)@.shut_down(*context, id),
    {
        proof {
            use_type_invariant(&*self);
        }
        let mut groups: Vec<Group<H>> = Vec::new();
        std::mem::swap(&mut groups, &mut self.groups);
        let ghost before = groups@;
        proof {
            table_by_index(before);
        }
        if let Some(i) = find_group(&groups, context) {
            assert(table(before).contains_key(before[i as int].context));
            let group: Group<H> = groups.remove(i);
            proof {
                table_without(before, i as int);
            }
            let members: Vec<(usize, H)> = drop_id(group.members, id);
            if members.len() > 0 {
                groups.push(Group { context: *context, members });
                assert(groups@.drop_last() =~= before.remove(i as int));
            }
        }
        assert(distinct(groups@));
        self.groups = groups;
        proof {
            assert(without_id(Seq::<(usize, H)>::empty(), id).len() == 0) by {
                reveal(Seq::filter);
            }
        }
        assert(self@.instances =~= old(self)@.shut_down(*context, id).instances);
    }

    /// Every instance by context and number, each as often as it is there; the numbers of one
    /// context come in the order in which its instances came.
    pub fn all_instances(&self) -> (r: Vec<(ClientContextId, usize)>)
        ensures
            forall|c: ClientContextId| #[trigger] ids_for(r@, c) == ids(self@.of(c)),
    {
        proof {
            use_type_invariant(self);
        }
        let mut r: Vec<(ClientContextId, usize)> = Vec::new();
        let mut i: usize = 0;
        while i < self.groups.len()
            invariant
                i <= self.groups@.len(),
                distinct(self.groups@),
                forall|c: ClientContextId| #[trigger]
                    ids_for(r@, c) == ids(lookup(table(self.groups@.take(i as int)), c)),
            decreases self.groups@.len() - i,
        {
            let context: ClientContextId = self.groups[i].context;
            let members: &Vec<(usize, H)> = &self.groups[i].members;
            let ghost before = r@;
            let ghost done = self.groups@.take(i as int);
            proof {
                assert(distinct(done));
                table_by_index(done);
                assert(!table(done).contains_key(context)) by {
                    if table(done).contains_key(context) {
                        let k = choose|k: int|
                            0 <= k < done.len() && #[trigger] done[k].context == context;
                        assert(self.groups@[k].context != self.groups@[i as int].context);
                    }
                }
                assert(ids_for(before, context) =~= Seq::<usize>::empty());
                assert(ids(members@.take(0)) =~= Seq::<usize>::empty());
            }
            let mut j: usize = 0;
            while j < members.len()
                invariant
                    j <= members@.len(),
                    ids_for(r@, context) == ids(members@.take(j as int)),
                    forall|c: ClientContextId|
                        c != context ==> #[trigger] ids_for(r@, c) == ids_for(before, c),
                decreases members@.len() - j,
            {
                let ghost so_far = r@;
                r.push((context, members[j].0));
                proof {
                    assert(r@.drop_last() =~= so_far);
                    assert forall|c: ClientContextId| c != context implies #[trigger] ids_for(r@, c)
                        == ids_for(before, c) by {
                        assert(ids_for(r@, c) == ids_for(so_far, c));
                    }
                    assert(ids(members@.take(j + 1)) =~= ids(members@.take(j as int)).push(
                        members@[j as int].0,
                    ));
                }
                j = j + 1;
            }
            proof {
                assert(members@.take(members@.len() as int) =~= members@);
                assert(self.groups@.take(i + 1).drop_last() =~= done);
                let after = table(self.groups@.take(i + 1));
                assert(after == table(done).insert(context, members@));
                assert forall|c: ClientContextId| #[trigger] ids_for(r@, c) == ids(
                    lookup(after, c),
                ) by {
                    if c != context {
                        assert(ids_for(r@, c) == ids_for(before, c));
                        assert(lookup(after, c) == lookup(table(done), c));
                    }
                }
            }
            i = i + 1;
        }
        proof {
            assert(self.groups@.take(self.groups@.len() as int) =~= self.groups@);
        }
        r
    }
}

impl MpvBackend {
    /// A new backend.
    pub fn init() -> (r: Self)
        ensures
            r@ == (BackendView { next_instance_id: 0, capture_mocking: false }),
    {
        MpvBackend { next_instance_id: 0, capture_mocking: false }
    }

    /// The number for a new instance.
    pub fn take_instance_id(&mut self) -> (r: usize)
        ensures
            r == old(self)@.next_instance_id,
            final(self)@.next_instance_id == id_after(old(self)@.next_instance_id),
            final(self)@.capture_mocking == old(self)@.capture_mocking,
    {
        let id: usize = self.next_instance_id;
        self.next_instance_id = id.wrapping_add(1);
        id
    }

    /// What is known of the playability of a media type: mpv probably plays it.
    pub fn can_play_type(&self, _media_type: &str) -> (r: SupportsMediaType)
        ensures
            r == SupportsMediaType::Probably,
    {
        SupportsMediaType::Probably
    }

    /// Says whether captured media is to be made up.
    pub fn set_capture_mocking(&mut self, mock: bool)
        ensures
            final(self)@ == (BackendView { capture_mocking: mock, ..old(self)@ }),
    {
        self.capture_mocking = mock;
    }
}

/// Keeps the instances whose flags are set.
fn keep_flagged<H>(members: Vec<(usize, H)>, live: &[bool]) -> (r: Vec<(usize, H)>)
    requires
        members@.len() == live@.len(),
    ensures
        r@ == flagged(members@, live@),
{
    let ghost all = members@;
    let mut kept: Vec<(usize, H)> = Vec::new();
    let mut i: usize = 0;
    for member in iter: members
        invariant
            iter.seq() == all,
            i == iter.index(),
            all.len() == live@.len(),
            kept@ == flagged(all.take(iter.index()), live@),
    {
        proof {
            assert(all.take(i + 1).drop_last() =~= all.take(i as int));
        }
        if live[i] {
            kept.push(member);
        }
        i = i + 1;
    }
    assert(all.take(all.len() as int) =~= all);
    kept
}

/// Drops the instances that have a number.
fn drop_id<H>(members: Vec<(usize, H)>, id: usize) -> (r: Vec<(usize, H)>)
    ensures
        r@ == without_id(members@, id),
{
    let ghost all = members@;
    let mut kept: Vec<(usize, H)> = Vec::new();
    proof {
        reveal(Seq::filter);
    }
    for member in iter: members
        invariant
            iter.seq() == all,
            kept@ == without_id(all.take(iter.index()), id),
    {
        proof {
            reveal(Seq::filter);
            assert(all.take(iter.index() + 1).drop_last() =~= all.take(iter.index()));
        }
        if member.0 != id {
            kept.push(member);
        }
    }
    assert(all.take(all.len() as int) =~= all);
    kept
}

/// Where the group of a context stands.
fn find_group<H>(groups: &Vec<Group<H>>, context: &ClientContextId) -> (r: Option<usize>)
    ensures
        match r {
            Some(i) => i < groups@.len() && groups@[i as int].context == *context,
            None => forall|i: int| 0 <= i < groups@.len() ==> #[trigger] groups@[i].context != *context,
        },
{
    let mut i: usize = 0;
    while i < groups.len()
        invariant
            i <= groups@.len(),
            forall|j: int| 0 <= j < i ==> #[trigger] groups@[j].context != *context,
        decreases groups@.len() - i,
    {
        if same_context(&groups[i].context, context) {
            return Some(i);
        }
        i = i + 1;
    }
    None
}

/// Groups without one of them hold the table without its context.
proof fn table_without<H>(groups: Seq<Group<H>>, i: int)
    requires
        distinct(groups),
        0 <= i < groups.len(),
    ensures
        distinct(groups.remove(i)),
        table(groups.remove(i)) == table(groups).remove(groups[i].context),
{
    let rest = groups.remove(i);
    let context = groups[i].context;
    assert forall|j: int| 0 <= j < rest.len() implies #[trigger] rest[j] == groups[if j < i {
        j
    } else {
        j + 1
    }] by {}
    assert(distinct(rest));
    table_by_index(groups);
    table_by_index(rest);
    assert forall|c: ClientContextId| table(rest).contains_key(c) == (table(groups).contains_key(c)
        && c != context) && (table(rest).contains_key(c) ==> table(rest)[c] == table(groups)[c]) by {
        if table(rest).contains_key(c) {
            let j = choose|j: int| 0 <= j < rest.len() && #[trigger] rest[j].context == c;
            let k = if j < i {
                j
            } else {
                j + 1
            };
            assert(groups[k] == rest[j]);
            assert(table(groups).contains_key(groups[k].context));
            assert(table(rest).contains_key(rest[j].context));
        }
        if table(groups).contains_key(c) && c != context {
            let k = choose|k: int| 0 <= k < groups.len() && #[trigger] groups[k].context == c;
            let j = if k < i {
                k
            } else {
                k - 1
            };
            assert(rest[j] == groups[k]);
            assert(table(rest).contains_key(rest[j].context));
        }
    }
    assert(table(rest) =~= table(groups).remove(context));
}

/// What happens to a table.
pub ghost enum TableOp<H> {
    /// An instance joins a context.
    Add(ClientContextId, usize, H),
    /// An instance has shut down.
    ShutDown(ClientContextId, usize),
    /// An action has found out which instances of a context are left.
    KeepLive(ClientContextId, Seq<bool>),
}

/// The table after one operation.
pub open spec fn apply<H>(v: TableView<H>, op: TableOp<H>) -> TableView<H> {
    match op {
        TableOp::Add(context, id, handle) => v.added(context, id, handle),
        TableOp::ShutDown(context, id) => v.shut_down(context, id),
        TableOp::KeepLive(context, live) => v.kept(context, live),
    }
}

/// What happens to a backend apart from its table.
pub ghost enum BackendOp {
    /// A number is taken for a new instance.
    TakeId,
    /// Captured media is to be made up, or no longer.
    SetCaptureMocking(bool),
}

/// The backend after a run of operations.
pub open spec fn run(v: BackendView, ops: Seq<BackendOp>) -> BackendView
    decreases ops.len(),
{
    if ops.len() == 0 {
        v
    } else {
        let before = run(v, ops.drop_last());
        match ops.last() {
            BackendOp::TakeId => BackendView {
                next_instance_id: id_after(before.next_instance_id) as usize,
                ..before
            },
            BackendOp::SetCaptureMocking(mock) => BackendView { capture_mocking: mock, ..before },
        }
    }
}

/// The numbers that a run gives out, in order.
pub open spec fn taken(v: BackendView, ops: Seq<BackendOp>) -> Seq<usize>
    decreases ops.len(),
{
    if ops.len() == 0 {
        Seq::empty()
    } else if ops.last() is TakeId {
        taken(v, ops.drop_last()).push(run(v, ops.drop_last()).next_instance_id)
    } else {
        taken(v, ops.drop_last())
    }
}

/// The number that comes some steps after another, the first one following the last.
pub open spec fn id_later(id: usize, steps: int) -> int {
    if id + steps <= usize::MAX {
        id + steps
    } else {
        id + steps - usize::MAX - 1
    }
}

/// Numbers count up, and none is given out twice before all of them have been: over every
/// run that takes no more numbers than there are, the numbers given out are the next one and
/// those that follow it.
pub proof fn numbers_are_distinct(v: BackendView, ops: Seq<BackendOp>)
    requires
        taken(v, ops).len() <= usize::MAX + 1,
    ensures
        run(v, ops).next_instance_id == id_later(
            v.next_instance_id,
            taken(v, ops).len() as int,
        ),
        forall|k: int|
            0 <= k < taken(v, ops).len() ==> #[trigger] taken(v, ops)[k] == id_later(
                v.next_instance_id,
                k,
            ),
        taken(v, ops).no_duplicates(),
    decreases ops.len(),
{
    if ops.len() > 0 {
        numbers_are_distinct(v, ops.drop_last());
    }
}

/// What is done to one context leaves the instances of the others alone.
pub proof fn contexts_are_independent<H>(
    v: TableView<H>,
    op: TableOp<H>,
    other: ClientContextId,
)
    requires
        match op {
            TableOp::Add(context, _, _) => context != other,
            TableOp::ShutDown(context, _) => context != other,
            TableOp::KeepLive(context, _) => context != other,
        },
    ensures
        apply(v, op).of(other) == v.of(other),
        apply(v, op).instances.contains_key(other) == v.instances.contains_key(other),
{
}

/// An instance that has shut down is gone, and the others of its context are still there.
pub proof fn shut_down_removes<H>(
    v: TableView<H>,
    context: ClientContextId,
    id: usize,
    member: (usize, H),
)
    ensures
        v.shut_down(context, id).of(context).contains(member) == (v.of(context).contains(member)
            && member.0 != id),
{
    let all = v.of(context);
    let left = without_id(all, id);
    let stays = other_than::<H>(id);
    if all.contains(member) && member.0 != id {
        let i = choose|i: int| 0 <= i < all.len() && all[i] == member;
        all.lemma_filter_contains(stays, i);
    }
    if left.contains(member) {
        let i = choose|i: int| 0 <= i < left.len() && left[i] == member;
        all.lemma_filter_pred(stays, i);
        all.lemma_filter_contains_rev(stays, member);
    }
}

/// The table after a list of instances has shut down.
pub open spec fn after_shutdowns<H>(
    v: TableView<H>,
    list: Seq<(ClientContextId, usize)>,
) -> TableView<H>
    decreases list.len(),
{
    if list.len() == 0 {
        v
    } else {
        after_shutdowns(v, list.drop_last()).shut_down(list.last().0, list.last().1)
    }
}

/// What is left after a list of instances has shut down was there before and is not listed.
proof fn shutdowns_leave<H>(
    v: TableView<H>,
    list: Seq<(ClientContextId, usize)>,
    context: ClientContextId,
    member: (usize, H),
)
    requires
        after_shutdowns(v, list).of(context).contains(member),
    ensures
        v.of(context).contains(member),
        !ids_for(list, context).contains(member.0),
    decreases list.len(),
{
    if list.len() > 0 {
        let before = after_shutdowns(v, list.drop_last());
        let (c, id) = list.last();
        if c == context {
            shut_down_removes(before, c, id, member);
        } else {
            contexts_are_independent(before, TableOp::ShutDown(c, id), context);
        }
        shutdowns_leave(v, list.drop_last(), context, member);
        let listed = ids_for(list.drop_last(), context);
        if ids_for(list, context).contains(member.0) {
            let k = choose|k: int|
                0 <= k < ids_for(list, context).len() && ids_for(list, context)[k] == member.0;
            if c == context && k == listed.len() {
            } else {
                assert(listed[k] == member.0);
            }
        }
    }
}

/// Shutting down every instance that the table lists leaves no instance in any context.
pub proof fn shutting_down_all_leaves_none<H>(
    v: TableView<H>,
    list: Seq<(ClientContextId, usize)>,
    context: ClientContextId,
)
    requires
        forall|c: ClientContextId| #[trigger] ids_for(list, c) == ids(v.of(c)),
    ensures
        after_shutdowns(v, list).of(context).len() == 0,
{
    let left = after_shutdowns(v, list).of(context);
    if left.len() > 0 {
        let member = left[0];
        assert(left.contains(member));
        shutdowns_leave(v, list, context, member);
        let i = choose|i: int| 0 <= i < v.of(context).len() && v.of(context)[i] == member;
        assert(ids(v.of(context))[i] == member.0);
        assert(ids_for(list, context)[i] == member.0);
    }
}

/// An action on a context forgets the instances that are gone and no others: where all flags
/// are set it forgets nothing, and where none is it forgets all instances. The context stays.
pub proof fn actions_forget_the_dead<H>(
    v: TableView<H>,
    context: ClientContextId,
    live: Seq<bool>,
)
    requires
        v.instances.contains_key(context),
        live.len() == v.of(context).len(),
    ensures
        v.kept(context, live).instances.contains_key(context),
        (forall|i: int| 0 <= i < live.len() ==> live[i]) ==> v.kept(context, live).of(context)
            == v.of(context),
        (forall|i: int| 0 <= i < live.len() ==> !live[i]) ==> v.kept(context, live).of(
            context,
        ).len() == 0,
{
    all_or_none(v.of(context), live);
}

/// With all flags set all instances are kept, with none set none.
proof fn all_or_none<H>(members: Seq<(usize, H)>, live: Seq<bool>)
    requires
        live.len() >= members.len(),
    ensures
        (forall|i: int| 0 <= i < live.len() ==> live[i]) ==> flagged(members, live) == members,
        (forall|i: int| 0 <= i < live.len() ==> !live[i]) ==> flagged(members, live).len() == 0,
    decreases members.len(),
{
    if members.len() > 0 {
        all_or_none(members.drop_last(), live);
        assert(members.drop_last().push(members.last()) =~= members);
    }
}

/// Whether something is the selection of the items at some places: just those items, in their
/// order, each as often as it is there. `places` are the places, from the first to the last.
pub open spec fn is_selection<T>(
    items: Seq<T>,
    chosen: spec_fn(int) -> bool,
    selection: Seq<T>,
    places: Seq<int>,
) -> bool {
    &&& places.len() == selection.len()
    &&& forall|k: int, l: int| 0 <= k < l < places.len() ==> places[k] < places[l]
    &&& forall|k: int|
        0 <= k < places.len() ==> 0 <= #[trigger] places[k] < items.len() && chosen(places[k])
            && selection[k] == items[places[k]]
    &&& forall|i: int| 0 <= i < items.len() && #[trigger] chosen(i) ==> places.contains(i)
}

/// One more item belongs to a selection or does not.
proof fn selection_grows<T>(
    items: Seq<T>,
    chosen: spec_fn(int) -> bool,
    selection: Seq<T>,
    places: Seq<int>,
) -> (longer: Seq<int>)
    requires
        items.len() > 0,
        is_selection(items.drop_last(), chosen, selection, places),
    ensures
        chosen(items.len() - 1) ==> is_selection(
            items,
            chosen,
            selection.push(items.last()),
            longer,
        ),
        !chosen(items.len() - 1) ==> is_selection(items, chosen, selection, longer),
{
    let last = items.len() - 1;
    if chosen(last) {
        let longer = places.push(last);
        let more = selection.push(items.last());
        assert forall|k: int| 0 <= k < longer.len() implies 0 <= #[trigger] longer[k] < items.len()
            && chosen(longer[k]) && more[k] == items[longer[k]] by {
            if k < places.len() {
                assert(longer[k] == places[k]);
            }
        }
        assert forall|i: int| 0 <= i < items.len() && #[trigger] chosen(i) implies longer.contains(
            i,
        ) by {
            if i < last {
                let k = choose|k: int| 0 <= k < places.len() && places[k] == i;
                assert(longer[k] == i);
            } else {
                assert(longer[places.len() as int] == i);
            }
        }
        longer
    } else {
        assert forall|k: int| 0 <= k < places.len() implies 0 <= #[trigger] places[k] < items.len()
            && chosen(places[k]) && selection[k] == items[places[k]] by {}
        places
    }
}

/// An action keeps just the instances whose own flags are set: for all flags, mixed ones
/// included, what is left are the instances at the places of the set flags, in their old order.
/// The result are those places.
pub proof fn flagged_instances_are_selected<H>(
    instances: Seq<(usize, H)>,
    live: Seq<bool>,
) -> (places: Seq<int>)
    requires
        live.len() >= instances.len(),
    ensures
        is_selection(instances, |i: int| live[i], flagged(instances, live), places),
    decreases instances.len(),
{
    let chosen = |i: int| live[i];
    if instances.len() == 0 {
        let none = Seq::<int>::empty();
        assert(is_selection(instances, chosen, flagged(instances, live), none));
        none
    } else {
        let before = flagged_instances_are_selected(instances.drop_last(), live);
        selection_grows(instances, chosen, flagged(instances.drop_last(), live), before)
    }
}

/// A shutdown takes out just the instances with its number: what is left are the instances at
/// the places of the other numbers, in their old order. The result are those places.
pub proof fn other_numbers_are_selected<H>(instances: Seq<(usize, H)>, id: usize) -> (places: Seq<
    int,
>)
    ensures
        is_selection(instances, |i: int| instances[i].0 != id, without_id(instances, id), places),
    decreases instances.len(),
{
    let chosen = |i: int| instances[i].0 != id;
    reveal(Seq::filter);
    if instances.len() == 0 {
        let none = Seq::<int>::empty();
        assert(is_selection(instances, chosen, without_id(instances, id), none));
        none
    } else {
        let rest = instances.drop_last();
        let before = other_numbers_are_selected(rest, id);
        let shorter = |i: int| rest[i].0 != id;
        assert(is_selection(rest, shorter, without_id(rest, id), before));
        assert(is_selection(rest, chosen, without_id(rest, id), before)) by {
            assert forall|k: int| 0 <= k < before.len() implies 0 <= #[trigger] before[k]
                < rest.len() && chosen(before[k]) && without_id(rest, id)[k] == rest[before[k]] by {
                assert(shorter(before[k]));
            }
            assert forall|i: int| 0 <= i < rest.len() && #[trigger] chosen(i) implies before.contains(
                i,
            ) by {
                assert(shorter(i));
            }
        }
        selection_grows(instances, chosen, without_id(rest, id), before)
    }
}

/// The numbers that a list names for a context are those at the places where it names the
/// context, in their order. The result are those places.
pub proof fn listed_numbers_are_selected(
    list: Seq<(ClientContextId, usize)>,
    context: ClientContextId,
) -> (places: Seq<int>)
    ensures
        is_selection(
            list.map_values(|e: (ClientContextId, usize)| e.1),
            |i: int| list[i].0 == context,
            ids_for(list, context),
            places,
        ),
    decreases list.len(),
{
    let number = |e: (ClientContextId, usize)| e.1;
    let chosen = |i: int| list[i].0 == context;
    let all = list.map_values(number);
    if list.len() == 0 {
        let none = Seq::<int>::empty();
        assert(is_selection(all, chosen, ids_for(list, context), none));
        none
    } else {
        let rest = list.drop_last();
        let before = listed_numbers_are_selected(rest, context);
        let shorter = |i: int| rest[i].0 == context;
        assert(rest.map_values(number) =~= all.drop_last());
        assert(is_selection(all.drop_last(), shorter, ids_for(rest, context), before));
        assert(is_selection(all.drop_last(), chosen, ids_for(rest, context), before)) by {
            assert forall|k: int| 0 <= k < before.len() implies 0 <= #[trigger] before[k]
                < all.drop_last().len() && chosen(before[k]) && ids_for(rest, context)[k]
                == all.drop_last()[before[k]] by {
                assert(shorter(before[k]));
            }
            assert forall|i: int|
                0 <= i < all.drop_last().len() && #[trigger] chosen(i) implies before.contains(
                i,
            ) by {
                assert(shorter(i));
            }
        }
        selection_grows(all, chosen, ids_for(rest, context), before)
    }
}

/// The numbers of instances are theirs, one by one.
pub proof fn numbers_belong_to_their_instances<H>(instances: Seq<(usize, H)>, i: int)
    requires
        0 <= i < instances.len(),
    ensures
        ids(instances).len() == instances.len(),
        ids(instances)[i] == instances[i].0,
{
}

/// The instances of a known context are those that the table holds for it, and an unknown
/// context has none.
pub proof fn contexts_have_their_instances<H>(v: TableView<H>, context: ClientContextId)
    ensures
        v.instances.contains_key(context) ==> v.of(context) == v.instances[context],
        !v.instances.contains_key(context) ==> v.of(context).len() == 0,
{
}

/// An instance that joins stands last in its context, behind those that were there, whether the
/// context was known or not.
pub proof fn new_instance_stands_last<H>(
    v: TableView<H>,
    context: ClientContextId,
    id: usize,
    handle: H,
    i: int,
)
    ensures
        ({
            let old_members = v.of(context);
            let w = v.added(context, id, handle);
            &&& w.instances.contains_key(context)
            &&& w.instances[context].len() == old_members.len() + 1
            &&& w.instances[context][old_members.len() as int] == (id, handle)
            &&& 0 <= i < old_members.len() ==> w.instances[context][i] == old_members[i]
        }),
{
}

/// A context goes with its last instance and not before: after a shutdown it is known exactly
/// where it has an instance with another number left.
pub proof fn context_goes_with_its_last_instance<H>(
    v: TableView<H>,
    context: ClientContextId,
    id: usize,
)
    ensures
        v.shut_down(context, id).instances.contains_key(context) <==> (exists|i: int|
            0 <= i < v.of(context).len() && #[trigger] v.of(context)[i].0 != id),
        v.shut_down(context, id).of(context) == without_id(v.of(context), id),
{
    let members = v.of(context);
    let places = other_numbers_are_selected(members, id);
    let chosen = |i: int| members[i].0 != id;
    let left = without_id(members, id);
    if left.len() > 0 {
        assert(chosen(places[0]));
        assert(members[places[0]].0 != id);
    }
    if exists|i: int| 0 <= i < members.len() && #[trigger] members[i].0 != id {
        let i = choose|i: int| 0 <= i < members.len() && #[trigger] members[i].0 != id;
        assert(chosen(i));
        assert(places.contains(i));
    }
    assert(v.shut_down(context, id).of(context) =~= left);
}

/// An action on an unknown context changes nothing, and on a known one it leaves the instances
/// whose flags are set.
pub proof fn action_keeps_flagged_instances<H>(
    v: TableView<H>,
    context: ClientContextId,
    live: Seq<bool>,
)
    ensures
        !v.instances.contains_key(context) ==> v.kept(context, live) == v,
        v.instances.contains_key(context) ==> v.kept(context, live).instances.contains_key(context)
            && v.kept(context, live).instances[context] == flagged(v.instances[context], live),
{
}

/// The number after another is the next one, and after the last comes the first.
pub proof fn numbers_follow_each_other(id: usize)
    ensures
        id < usize::MAX ==> id_after(id) == id + 1,
        id == usize::MAX ==> id_after(id) == 0,
{
}

} // verus!
