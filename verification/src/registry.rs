//! The instance registry: worker id to live instance state (pending event
//! queue and liveness deadline), with heartbeat-based stale eviction.
//!
//! The registry is modelled as a map from id (a sequence of characters) to
//! an [`InstanceModel`]; every operation's contract is stated as a spec-level
//! transition on that map, and the liveness and ordering laws are proved
//! over those transitions.

use vstd::prelude::*;

use crate::messages::RobloxEvent;

verus! {

/// Number of time units a worker may stay silent before it becomes stale.
pub const LIVENESS_TIMEOUT: u64 = 10;

/// Mathematical state of one live worker instance.
pub ghost struct InstanceModel {
    /// Pending events, in arrival order.
    pub queue: Seq<RobloxEvent>,
    /// The time at which the instance becomes stale unless a heartbeat
    /// arrives first.
    pub deadline: int,
}

/// Mathematical state of the registry: at most one entry per worker id.
pub type RegistryModel = Map<Seq<char>, InstanceModel>;

/// The state a newly registered instance starts in: an empty queue and a
/// full liveness budget.
pub open spec fn fresh_instance(now: int) -> InstanceModel {
    InstanceModel { queue: Seq::empty(), deadline: now + LIVENESS_TIMEOUT }
}

/// `register(id)`: idempotent upsert; creates a fresh entry when absent,
/// leaves the registry untouched when present.
pub open spec fn spec_register(m: RegistryModel, id: Seq<char>, now: int) -> RegistryModel {
    if m.contains_key(id) {
        m
    } else {
        m.insert(id, fresh_instance(now))
    }
}

/// `heartbeat(id)`: resets the liveness deadline of a present entry; absent
/// ids are left untouched (the operation reports the failure separately).
pub open spec fn spec_heartbeat(m: RegistryModel, id: Seq<char>, now: int) -> RegistryModel {
    if m.contains_key(id) {
        m.insert(id, InstanceModel { queue: m[id].queue, deadline: now + LIVENESS_TIMEOUT })
    } else {
        m
    }
}

/// `enqueue(id, event)`: appends to the entry's queue, creating the entry
/// first when absent (lazy registration).
pub open spec fn spec_enqueue(
    m: RegistryModel,
    id: Seq<char>,
    event: RobloxEvent,
    now: int,
) -> RegistryModel {
    if m.contains_key(id) {
        m.insert(id, InstanceModel { queue: m[id].queue.push(event), deadline: m[id].deadline })
    } else {
        m.insert(id, InstanceModel { queue: seq![event], deadline: now + LIVENESS_TIMEOUT })
    }
}

/// `drain(id)`: empties the queue of a present entry, keeping its deadline.
pub open spec fn spec_drain(m: RegistryModel, id: Seq<char>) -> RegistryModel {
    if m.contains_key(id) {
        m.insert(id, InstanceModel { queue: Seq::empty(), deadline: m[id].deadline })
    } else {
        m
    }
}

/// `evict(id)`: removes the entry entirely.
pub open spec fn spec_evict(m: RegistryModel, id: Seq<char>) -> RegistryModel {
    m.remove(id)
}

/// An entry is stale at time `now` when it exists and its deadline has
/// passed without a heartbeat.
pub open spec fn is_stale(m: RegistryModel, id: Seq<char>, now: int) -> bool {
    m.contains_key(id) && m[id].deadline <= now
}

/// The evictor's action at time `now`: remove the entry iff it is stale.
pub open spec fn spec_evict_stale(m: RegistryModel, id: Seq<char>, now: int) -> RegistryModel {
    if is_stale(m, id, now) {
        m.remove(id)
    } else {
        m
    }
}

/// A heartbeat received before the liveness timeout elapses prevents
/// eviction: after a heartbeat at time `h`, the evictor's check at any time
/// `t` earlier than `h + LIVENESS_TIMEOUT` removes nothing and the worker
/// stays registered.
pub proof fn lemma_heartbeat_prevents_eviction(m: RegistryModel, id: Seq<char>, h: int, t: int)
    requires
        m.contains_key(id),
        t < h + LIVENESS_TIMEOUT,
    ensures
        spec_heartbeat(m, id, h).contains_key(id),
        spec_evict_stale(spec_heartbeat(m, id, h), id, t) == spec_heartbeat(m, id, h),
{
}

/// With no heartbeat for the full timeout, a worker is evicted exactly
/// once: the evictor's check at or after the deadline removes the id, and
/// any later check finds nothing left to remove.
pub proof fn lemma_stale_eviction_exactly_once(m: RegistryModel, id: Seq<char>, t: int, t2: int)
    requires
        m.contains_key(id),
        m[id].deadline <= t,
    ensures
        spec_evict_stale(m, id, t) == m.remove(id),
        !spec_evict_stale(m, id, t).contains_key(id),
        spec_evict_stale(spec_evict_stale(m, id, t), id, t2) == spec_evict_stale(m, id, t),
{
    assert(spec_evict_stale(m.remove(id), id, t2) =~= m.remove(id));
}

/// `events` enqueued one after the other for `id`, in order.
pub open spec fn spec_enqueue_all(
    m: RegistryModel,
    id: Seq<char>,
    events: Seq<RobloxEvent>,
    now: int,
) -> RegistryModel
    decreases events.len(),
{
    if events.len() == 0 {
        m
    } else {
        spec_enqueue(spec_enqueue_all(m, id, events.drop_last(), now), id, events.last(), now)
    }
}

/// Events enqueued in order are drained in exactly that order, exactly
/// once: after enqueueing `events` for `id`, the queue for `id` holds
/// whatever was already queued followed by `events`; a drain empties the
/// queue, so an immediate second drain returns the empty sequence.
pub proof fn lemma_enqueue_drain_order(
    m: RegistryModel,
    id: Seq<char>,
    events: Seq<RobloxEvent>,
    now: int,
)
    requires
        m.contains_key(id) || events.len() > 0,
    ensures
        ({
            let queued = spec_enqueue_all(m, id, events, now);
            let before = if m.contains_key(id) {
                m[id].queue
            } else {
                Seq::<RobloxEvent>::empty()
            };
            &&& queued.contains_key(id)
            &&& queued[id].queue == before + events
            &&& spec_drain(queued, id)[id].queue == Seq::<RobloxEvent>::empty()
            &&& spec_drain(spec_drain(queued, id), id)[id].queue == Seq::<RobloxEvent>::empty()
        }),
    decreases events.len(),
{
    let before = if m.contains_key(id) {
        m[id].queue
    } else {
        Seq::<RobloxEvent>::empty()
    };
    if events.len() == 0 {
        assert(before + events =~= before);
    } else if events.len() == 1 && !m.contains_key(id) {
        assert(spec_enqueue_all(m, id, events.drop_last(), now) == m);
        assert(before + events =~= seq![events.last()]);
    } else {
        lemma_enqueue_drain_order(m, id, events.drop_last(), now);
        assert(before + events =~= (before + events.drop_last()).push(events.last()));
    }
}

/// One registry write, as issued by a concurrent caller: an explicit
/// registration or a (lazily registering) event enqueue.
pub ghost enum RegistryOp {
    Register { id: Seq<char>, now: int },
    Enqueue { id: Seq<char>, event: RobloxEvent, now: int },
}

/// The id an operation touches.
pub open spec fn op_id(op: RegistryOp) -> Seq<char> {
    match op {
        RegistryOp::Register { id, .. } => id,
        RegistryOp::Enqueue { id, .. } => id,
    }
}

/// The effect of one operation.
pub open spec fn spec_apply(m: RegistryModel, op: RegistryOp) -> RegistryModel {
    match op {
        RegistryOp::Register { id, now } => spec_register(m, id, now),
        RegistryOp::Enqueue { id, event, now } => spec_enqueue(m, id, event, now),
    }
}

/// The effect of a whole interleaving of operations, applied in order.
pub open spec fn spec_apply_all(m: RegistryModel, ops: Seq<RegistryOp>) -> RegistryModel
    decreases ops.len(),
{
    if ops.len() == 0 {
        m
    } else {
        spec_apply(spec_apply_all(m, ops.drop_last()), ops.last())
    }
}

/// The set of ids an interleaving touches.
pub open spec fn op_ids(ops: Seq<RegistryOp>) -> Set<Seq<char>>
    decreases ops.len(),
{
    if ops.len() == 0 {
        Set::empty()
    } else {
        op_ids(ops.drop_last()).insert(op_id(ops.last()))
    }
}

/// The events an interleaving enqueues for `id`, in issue order.
pub open spec fn events_for(ops: Seq<RegistryOp>, id: Seq<char>) -> Seq<RobloxEvent>
    decreases ops.len(),
{
    if ops.len() == 0 {
        Seq::empty()
    } else {
        let rest = events_for(ops.drop_last(), id);
        match ops.last() {
            RegistryOp::Enqueue { id: other, event, .. } => if other == id {
                rest.push(event)
            } else {
                rest
            },
            RegistryOp::Register { .. } => rest,
        }
    }
}

proof fn lemma_apply_all_dom(m: RegistryModel, ops: Seq<RegistryOp>)
    ensures
        spec_apply_all(m, ops).dom() =~= m.dom() + op_ids(ops),
    decreases ops.len(),
{
    if ops.len() > 0 {
        lemma_apply_all_dom(m, ops.drop_last());
    }
}

proof fn lemma_events_for_untouched(ops: Seq<RegistryOp>, id: Seq<char>)
    requires
        !op_ids(ops).contains(id),
    ensures
        events_for(ops, id) == Seq::<RobloxEvent>::empty(),
    decreases ops.len(),
{
    if ops.len() > 0 {
        lemma_events_for_untouched(ops.drop_last(), id);
    }
}

proof fn lemma_apply_all_queue(m: RegistryModel, ops: Seq<RegistryOp>, id: Seq<char>)
    requires
        m.contains_key(id) || op_ids(ops).contains(id),
    ensures
        ({
            let after = spec_apply_all(m, ops);
            let before = if m.contains_key(id) {
                m[id].queue
            } else {
                Seq::<RobloxEvent>::empty()
            };
            &&& after.contains_key(id)
            &&& after[id].queue == before + events_for(ops, id)
        }),
    decreases ops.len(),
{
    let before = if m.contains_key(id) {
        m[id].queue
    } else {
        Seq::<RobloxEvent>::empty()
    };
    if ops.len() == 0 {
        assert(before + events_for(ops, id) =~= before);
    } else {
        let mid = spec_apply_all(m, ops.drop_last());
        lemma_apply_all_dom(m, ops.drop_last());
        if m.contains_key(id) || op_ids(ops.drop_last()).contains(id) {
            lemma_apply_all_queue(m, ops.drop_last(), id);
            if op_id(ops.last()) == id {
                match ops.last() {
                    RegistryOp::Register { .. } => {
                        assert(before + events_for(ops, id) =~= before + events_for(
                            ops.drop_last(),
                            id,
                        ));
                    },
                    RegistryOp::Enqueue { event, .. } => {
                        assert(before + events_for(ops, id) =~= (before + events_for(
                            ops.drop_last(),
                            id,
                        )).push(event));
                    },
                }
            } else {
                assert(events_for(ops, id) == events_for(ops.drop_last(), id));
            }
        } else {
            assert(op_id(ops.last()) == id);
            assert(!mid.contains_key(id));
            lemma_events_for_untouched(ops.drop_last(), id);
            match ops.last() {
                RegistryOp::Register { .. } => {
                    assert(before + events_for(ops, id) =~= Seq::<RobloxEvent>::empty());
                },
                RegistryOp::Enqueue { event, .. } => {
                    assert(before + events_for(ops, id) =~= seq![event]);
                },
            }
        }
    }
}

/// Register/enqueue calls for distinct ids never lose one another's
/// writes, whatever their interleaving: applying any sequence of such
/// operations to the empty registry leaves exactly one live entry per
/// touched id -- as many entries as distinct ids -- and the queue of each
/// id holds exactly the events enqueued for it, in issue order.
pub proof fn lemma_concurrent_writes_preserved(ops: Seq<RegistryOp>)
    ensures
        spec_apply_all(Map::empty(), ops).dom() == op_ids(ops),
        forall|id: Seq<char>| #[trigger] op_ids(ops).contains(id) ==> spec_apply_all(
            Map::empty(),
            ops,
        )[id].queue == events_for(ops, id),
{
    lemma_apply_all_dom(Map::empty(), ops);
    assert(spec_apply_all(Map::<Seq<char>, InstanceModel>::empty(), ops).dom() =~= op_ids(ops));
    assert forall|id: Seq<char>| #[trigger] op_ids(ops).contains(id) implies spec_apply_all(
        Map::empty(),
        ops,
    )[id].queue == events_for(ops, id) by {
        lemma_apply_all_queue(Map::empty(), ops, id);
        assert(Seq::<RobloxEvent>::empty() + events_for(ops, id) =~= events_for(ops, id));
    }
}

/// Why a registry operation was refused.
#[derive(Debug, Clone, Copy, PartialEq, Eq, Structural)]
pub enum RegistryError {
    /// The worker id is not registered.
    NotFound,
}

/// One live worker instance as stored: its id, its pending events in
/// arrival order, and its liveness deadline.
pub struct StudioInstance {
    pub id: String,
    pub event_queue: Vec<RobloxEvent>,
    pub deadline: u64,
}

impl View for StudioInstance {
    type V = InstanceModel;

    open spec fn view(&self) -> InstanceModel {
        InstanceModel { queue: self.event_queue@, deadline: self.deadline as int }
    }
}

/// No two stored entries share an id.
spec fn unique_ids(s: Seq<StudioInstance>) -> bool {
    forall|i: int, j: int| 0 <= i < j < s.len() ==> s[i].id@ != s[j].id@
}

/// The map described by a sequence of entries (later entries win, which is
/// irrelevant once ids are unique).
spec fn map_of(s: Seq<StudioInstance>) -> RegistryModel
    decreases s.len(),
{
    if s.len() == 0 {
        Map::empty()
    } else {
        map_of(s.drop_last()).insert(s.last().id@, s.last()@)
    }
}

proof fn lemma_map_of_contains(s: Seq<StudioInstance>, k: Seq<char>)
    ensures
        map_of(s).contains_key(k) <==> exists|i: int| 0 <= i < s.len() && s[i].id@ == k,
    decreases s.len(),
{
    if s.len() > 0 {
        lemma_map_of_contains(s.drop_last(), k);
        if s.last().id@ == k {
            assert(s[s.len() - 1].id@ == k);
        } else {
            if exists|i: int| 0 <= i < s.len() && s[i].id@ == k {
                let i = choose|i: int| 0 <= i < s.len() && s[i].id@ == k;
                assert(s.drop_last()[i].id@ == k);
            }
        }
    }
}

proof fn lemma_map_of_index(s: Seq<StudioInstance>, i: int)
    requires
        unique_ids(s),
        0 <= i < s.len(),
    ensures
        map_of(s).contains_key(s[i].id@),
        map_of(s)[s[i].id@] == s[i]@,
    decreases s.len(),
{
    if i < s.len() - 1 {
        assert(unique_ids(s.drop_last())) by {
            assert(forall|x: int, y: int|
                0 <= x < y < s.drop_last().len() ==> s.drop_last()[x].id@ != s.drop_last()[y].id@);
        }
        lemma_map_of_index(s.drop_last(), i);
        assert(s[i].id@ != s.last().id@);
    }
}

proof fn lemma_map_of_push(s: Seq<StudioInstance>, e: StudioInstance)
    ensures
        map_of(s.push(e)) == map_of(s).insert(e.id@, e@),
    decreases s.len(),
{
    assert(s.push(e).drop_last() =~= s);
    assert(s.push(e).last() == e);
}

proof fn lemma_map_of_update(s: Seq<StudioInstance>, i: int, e: StudioInstance)
    requires
        unique_ids(s),
        0 <= i < s.len(),
        e.id@ == s[i].id@,
    ensures
        map_of(s.update(i, e)) == map_of(s).insert(e.id@, e@),
        unique_ids(s.update(i, e)),
    decreases s.len(),
{
    let t = s.update(i, e);
    assert(unique_ids(t)) by {
        assert(forall|x: int| 0 <= x < t.len() ==> t[x].id@ == s[x].id@);
    }
    if i == s.len() - 1 {
        assert(t.drop_last() =~= s.drop_last());
        assert(t.last() == e);
        assert(map_of(t) =~= map_of(s).insert(e.id@, e@));
    } else {
        assert(unique_ids(s.drop_last()));
        assert(t.drop_last() =~= s.drop_last().update(i, e));
        assert(t.last() == s.last());
        lemma_map_of_update(s.drop_last(), i, e);
        assert(e.id@ != s.last().id@);
        assert(map_of(t) =~= map_of(s).insert(e.id@, e@));
    }
}

proof fn lemma_map_of_remove(s: Seq<StudioInstance>, i: int)
    requires
        unique_ids(s),
        0 <= i < s.len(),
    ensures
        map_of(s.remove(i)) == map_of(s).remove(s[i].id@),
        unique_ids(s.remove(i)),
    decreases s.len(),
{
    let t = s.remove(i);
    assert(unique_ids(t)) by {
        assert(forall|x: int| 0 <= x < t.len() ==> #[trigger] t[x] == if x < i {
            s[x]
        } else {
            s[x + 1]
        });
    }
    if i == s.len() - 1 {
        assert(t =~= s.drop_last());
        lemma_map_of_contains(s.drop_last(), s[i].id@);
        assert(forall|j: int| 0 <= j < s.drop_last().len() ==> s.drop_last()[j].id@ != s[i].id@);
        assert(map_of(t) =~= map_of(s).remove(s[i].id@));
    } else {
        assert(unique_ids(s.drop_last()));
        assert(t.drop_last() =~= s.drop_last().remove(i));
        assert(t.last() == s.last());
        lemma_map_of_remove(s.drop_last(), i);
        assert(s[i].id@ != s.last().id@);
        assert(map_of(t) =~= map_of(s).remove(s[i].id@));
    }
}

proof fn lemma_map_of_dom_len(s: Seq<StudioInstance>)
    requires
        unique_ids(s),
    ensures
        map_of(s).dom().finite(),
        map_of(s).dom().len() == s.len(),
    decreases s.len(),
{
    if s.len() > 0 {
        assert(unique_ids(s.drop_last()));
        lemma_map_of_dom_len(s.drop_last());
        lemma_map_of_contains(s.drop_last(), s.last().id@);
        assert(forall|j: int|
            0 <= j < s.drop_last().len() ==> s.drop_last()[j].id@ != s.last().id@);
        assert(!map_of(s.drop_last()).contains_key(s.last().id@));
        assert(map_of(s).dom() =~= map_of(s.drop_last()).dom().insert(s.last().id@));
    }
}

/// The instance registry. It exclusively owns all live instances; all
/// mutation goes through the operations below.
pub struct Registry {
    entries: Vec<StudioInstance>,
}

impl View for Registry {
    type V = RegistryModel;

    closed spec fn view(&self) -> RegistryModel {
        map_of(self.entries@)
    }
}

impl Registry {
    /// Well-formed: at most one live entry per id.
    pub closed spec fn wf(self) -> bool {
        unique_ids(self.entries@)
    }

    /// An empty registry.
    pub fn new() -> (r: Registry)
        ensures
            r.wf(),
            r@ == Map::<Seq<char>, InstanceModel>::empty(),
    {
        Registry { entries: Vec::new() }
    }

    /// The position of the entry for `id`, if any.
    fn find(&self, id: &String) -> (r: Option<usize>)
        requires
            self.wf(),
        ensures
            match r {
                Some(i) => {
                    &&& i < self.entries@.len()
                    &&& self.entries@[i as int].id@ == id@
                    &&& self@.contains_key(id@)
                    &&& self@[id@] == self.entries@[i as int]@
                },
                None => !self@.contains_key(id@),
            },
    {
        let n = self.entries.len();
        let mut i: usize = 0;
        while i < n
            invariant
                self.wf(),
                n == self.entries@.len(),
                i <= n,
                forall|j: int| 0 <= j < i ==> self.entries@[j].id@ != id@,
            decreases n - i,
        {
            if self.entries[i].id == *id {
                proof {
                    lemma_map_of_index(self.entries@, i as int);
                }
                return Some(i);
            }
            i += 1;
        }
        proof {
            lemma_map_of_contains(self.entries@, id@);
        }
        None
    }

    /// True iff `id` is currently registered.
    pub fn contains(&self, id: &String) -> (r: bool)
        requires
            self.wf(),
        ensures
            r == self@.contains_key(id@),
    {
        self.find(id).is_some()
    }

    /// Number of live entries.
    pub fn len(&self) -> (r: usize)
        requires
            self.wf(),
        ensures
            r == self@.dom().len(),
    {
        proof {
            lemma_map_of_dom_len(self.entries@);
        }
        self.entries.len()
    }

    /// Idempotent upsert: when `id` is absent, creates an entry with an
    /// empty queue and a full liveness budget; when present, changes
    /// nothing.
    pub fn register(&mut self, id: String, now: u64)
        requires
            old(self).wf(),
            now + LIVENESS_TIMEOUT <= u64::MAX,
        ensures
            final(self).wf(),
            final(self)@ == spec_register(old(self)@, id@, now as int),
    {
        match self.find(&id) {
            Some(_) => {},
            None => {
                let ghost pre = self.entries@;
                let inst = StudioInstance {
                    id,
                    event_queue: Vec::new(),
                    deadline: now + LIVENESS_TIMEOUT,
                };
                let ghost ginst = inst;
                self.entries.push(inst);
                proof {
                    lemma_map_of_contains(pre, ginst.id@);
                    lemma_map_of_push(pre, ginst);
                    assert(unique_ids(pre.push(ginst))) by {
                        assert(forall|x: int|
                            0 <= x < pre.len() ==> #[trigger] pre.push(ginst)[x] == pre[x]);
                    }
                }
            },
        }
    }

    /// Resets the liveness deadline of `id`; fails with `NotFound` when the
    /// id is not registered, leaving the registry unchanged.
    pub fn heartbeat(&mut self, id: &String, now: u64) -> (r: Result<(), RegistryError>)
        requires
            old(self).wf(),
            now + LIVENESS_TIMEOUT <= u64::MAX,
        ensures
            final(self).wf(),
            final(self)@ == spec_heartbeat(old(self)@, id@, now as int),
            match r {
                Ok(()) => old(self)@.contains_key(id@),
                Err(e) => !old(self)@.contains_key(id@) && e == RegistryError::NotFound,
            },
    {
        match self.find(id) {
            Some(i) => {
                let ghost pre = self.entries@;
                self.entries[i].deadline = now + LIVENESS_TIMEOUT;
                proof {
                    lemma_map_of_update(pre, i as int, self.entries@[i as int]);
                    assert(final(self)@ =~= spec_heartbeat(old(self)@, id@, now as int));
                }
                Ok(())
            },
            None => Err(RegistryError::NotFound),
        }
    }

    /// Appends `event` to the queue for `id`, creating the entry first when
    /// absent (lazy registration). Arrival order is preserved.
    pub fn enqueue(&mut self, id: String, event: RobloxEvent, now: u64)
        requires
            old(self).wf(),
            now + LIVENESS_TIMEOUT <= u64::MAX,
        ensures
            final(self).wf(),
            final(self)@ == spec_enqueue(old(self)@, id@, event, now as int),
    {
        match self.find(&id) {
            Some(i) => {
                let ghost pre = self.entries@;
                self.entries[i].event_queue.push(event);
                proof {
                    lemma_map_of_update(pre, i as int, self.entries@[i as int]);
                    assert(final(self)@ =~= spec_enqueue(old(self)@, id@, event, now as int));
                }
            },
            None => {
                let ghost pre = self.entries@;
                let mut queue: Vec<RobloxEvent> = Vec::new();
                queue.push(event);
                let inst = StudioInstance { id, event_queue: queue, deadline: now + LIVENESS_TIMEOUT };
                let ghost ginst = inst;
                self.entries.push(inst);
                proof {
                    assert(ginst@.queue =~= seq![event]);
                    lemma_map_of_contains(pre, ginst.id@);
                    lemma_map_of_push(pre, ginst);
                    assert(unique_ids(pre.push(ginst))) by {
                        assert(forall|x: int|
                            0 <= x < pre.len() ==> #[trigger] pre.push(ginst)[x] == pre[x]);
                    }
                }
            },
        }
    }

    /// Atomically removes and returns the full ordered queue for `id`,
    /// leaving it empty; fails with `NotFound` when the id is not
    /// registered.
    pub fn drain(&mut self, id: &String) -> (r: Result<Vec<RobloxEvent>, RegistryError>)
        requires
            old(self).wf(),
        ensures
            final(self).wf(),
            final(self)@ == spec_drain(old(self)@, id@),
            match r {
                Ok(events) => {
                    &&& old(self)@.contains_key(id@)
                    &&& events@ == old(self)@[id@].queue
                },
                Err(e) => !old(self)@.contains_key(id@) && e == RegistryError::NotFound,
            },
    {
        match self.find(id) {
            Some(i) => {
                let ghost pre = self.entries@;
                let inst = self.entries.remove(i);
                let StudioInstance { id: inst_id, event_queue, deadline } = inst;
                let replacement = StudioInstance { id: inst_id, event_queue: Vec::new(), deadline };
                let ghost grep = replacement;
                self.entries.insert(i, replacement);
                proof {
                    assert(self.entries@ =~= pre.update(i as int, grep));
                    lemma_map_of_update(pre, i as int, grep);
                    assert(final(self)@ =~= spec_drain(old(self)@, id@));
                }
                Ok(event_queue)
            },
            None => Err(RegistryError::NotFound),
        }
    }

    /// Removes the entry for `id` entirely; returns whether anything was
    /// removed.
    pub fn evict(&mut self, id: &String) -> (removed: bool)
        requires
            old(self).wf(),
        ensures
            final(self).wf(),
            final(self)@ == spec_evict(old(self)@, id@),
            removed == old(self)@.contains_key(id@),
    {
        match self.find(id) {
            Some(i) => {
                let ghost pre = self.entries@;
                self.entries.remove(i);
                proof {
                    lemma_map_of_remove(pre, i as int);
                }
                true
            },
            None => {
                proof {
                    assert(old(self)@ =~= old(self)@.remove(id@));
                }
                false
            },
        }
    }

    /// The evictor's action at time `now`: removes the entry for `id` iff
    /// its liveness deadline has passed; returns whether it did.
    pub fn evict_stale(&mut self, id: &String, now: u64) -> (removed: bool)
        requires
            old(self).wf(),
        ensures
            final(self).wf(),
            final(self)@ == spec_evict_stale(old(self)@, id@, now as int),
            removed == is_stale(old(self)@, id@, now as int),
    {
        match self.find(id) {
            Some(i) => {
                if self.entries[i].deadline <= now {
                    let ghost pre = self.entries@;
                    self.entries.remove(i);
                    proof {
                        lemma_map_of_remove(pre, i as int);
                    }
                    true
                } else {
                    false
                }
            },
            None => false,
        }
    }

    /// Tears the registry down wholesale (orchestrator shutdown).
    pub fn clear(&mut self)
        ensures
            final(self).wf(),
            final(self)@ == Map::<Seq<char>, InstanceModel>::empty(),
    {
        self.entries.clear();
    }
}

} // verus!
