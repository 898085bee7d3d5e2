//! Topic registry: a bounded bidirectional mapping between topic-name
//! strings and (id-kind, numeric id) pairs, owned by the session engine.
//!
//! Within one registry each name maps to at most one record; re-registering
//! a name overwrites its record (last-write-wins). Records are never
//! evicted. Both directions are needed: name to id before a publish or
//! subscribe (to avoid re-registering), and id to name when an inbound
//! publish carries only the numeric id.

use vstd::prelude::*;

use crate::errors::MqttSnClientError;
use crate::messages::TopicIdType;

verus! {

/// Fixed capacity of the registry's backing store (a deployment constant
/// sized for small targets).
pub const TOPIC_CAPACITY: usize = 16;

/// One registered topic: its name, the kind of its id, and the id.
#[derive(Debug, Clone)]
pub struct TopicRecord {
    pub name: String,
    pub kind: TopicIdType,
    pub id: u16,
}

/// Abstract value of one record: (name, kind, id).
pub type RecordModel = (Seq<char>, TopicIdType, u16);

/// Is `name` the name of some record?
pub open spec fn contains_name(rs: Seq<RecordModel>, name: Seq<char>) -> bool {
    exists|i: int| 0 <= i < rs.len() && rs[i].0 == name
}

/// Is `id` the id of some record?
pub open spec fn contains_id(rs: Seq<RecordModel>, id: u16) -> bool {
    exists|i: int| 0 <= i < rs.len() && rs[i].2 == id
}

/// The first record named `name`, scanning from index `i`.
pub open spec fn lookup_name_from(rs: Seq<RecordModel>, name: Seq<char>, i: int) -> Option<
    (TopicIdType, u16),
>
    decreases rs.len() - i,
{
    if i < 0 || i >= rs.len() {
        None
    } else if rs[i].0 == name {
        Some((rs[i].1, rs[i].2))
    } else {
        lookup_name_from(rs, name, i + 1)
    }
}

/// The (kind, id) pair of the first record named `name`, if any.
pub open spec fn lookup_name(rs: Seq<RecordModel>, name: Seq<char>) -> Option<(TopicIdType, u16)> {
    lookup_name_from(rs, name, 0)
}

/// The name of the first record with id `id`, scanning from index `i`.
pub open spec fn lookup_id_from(rs: Seq<RecordModel>, id: u16, i: int) -> Option<Seq<char>>
    decreases rs.len() - i,
{
    if i < 0 || i >= rs.len() {
        None
    } else if rs[i].2 == id {
        Some(rs[i].0)
    } else {
        lookup_id_from(rs, id, i + 1)
    }
}

/// The name of the first record with id `id`, if any.
pub open spec fn lookup_id(rs: Seq<RecordModel>, id: u16) -> Option<Seq<char>> {
    lookup_id_from(rs, id, 0)
}

/// The registry after a last-write-wins insert of (name, kind, id): every
/// record named `name` is overwritten, all others are kept.
pub open spec fn overwrite_name(
    rs: Seq<RecordModel>,
    name: Seq<char>,
    kind: TopicIdType,
    id: u16,
) -> Seq<RecordModel> {
    rs.map(|i: int, r: RecordModel| if r.0 == name { (name, kind, id) } else { r })
}

/// The bounded name-to-id / id-to-name registry.
#[derive(Debug, Clone)]
pub struct Topics {
    records: Vec<TopicRecord>,
}

impl View for Topics {
    type V = Seq<RecordModel>;

    closed spec fn view(&self) -> Seq<RecordModel> {
        self.records@.map(|i: int, r: TopicRecord| (r.name@, r.kind, r.id))
    }
}

impl Topics {
    /// Registry well-formedness: no two records share a name, and the store
    /// respects its capacity.
    pub open spec fn wf(self) -> bool {
        self@.len() <= TOPIC_CAPACITY && forall|i: int, j: int|
            0 <= i < j < self@.len() ==> (#[trigger] self@[i]).0 != (#[trigger] self@[j]).0
    }

    /// An empty registry.
    pub fn new() -> (r: Topics)
        ensures
            r@ =~= Seq::<RecordModel>::empty(),
            r.wf(),
    {
        Topics { records: Vec::new() }
    }

    /// Name-to-id lookup, no side effect: the (kind, id) pair of the record
    /// named `name`, or `None` when no such record exists.
    pub fn get_by_topic(&self, name: &String) -> (r: Option<(TopicIdType, u16)>)
        ensures
            r == lookup_name(self@, name@),
            r is Some <==> contains_name(self@, name@),
    {
        let n = self.records.len();
        for idx in 0..n
            invariant
                n == self.records.len(),
                self@.len() == n,
                forall|k: int| 0 <= k < self@.len() ==> self@[k] == (self.records@[k].name@, self.records@[k].kind, self.records@[k].id),
                forall|k: int| 0 <= k < idx ==> (#[trigger] self@[k]).0 != name@,
                lookup_name_from(self@, name@, idx as int) == lookup_name(self@, name@),
        {
            if self.records[idx].name == *name {
                return Some((self.records[idx].kind, self.records[idx].id));
            }
        }
        None
    }

    /// Id-to-name lookup: the name of the record with id `id`, or
    /// `TopicNotRegistered` when the registry never saw that id (a protocol
    /// or ordering violation by the peer).
    pub fn get_by_id(&self, id: u16) -> (r: Result<String, MqttSnClientError>)
        ensures
            r matches Ok(s) ==> lookup_id(self@, id) == Some(s@),
            r is Err <==> !contains_id(self@, id),
            r is Err ==> r == Err::<String, MqttSnClientError>(MqttSnClientError::TopicNotRegistered),
    {
        let n = self.records.len();
        for idx in 0..n
            invariant
                n == self.records.len(),
                self@.len() == n,
                forall|k: int| 0 <= k < self@.len() ==> self@[k] == (self.records@[k].name@, self.records@[k].kind, self.records@[k].id),
                forall|k: int| 0 <= k < idx ==> (#[trigger] self@[k]).2 != id,
                lookup_id_from(self@, id, idx as int) == lookup_id(self@, id),
        {
            if self.records[idx].id == id {
                return Ok(self.records[idx].name.clone());
            }
        }
        Err(MqttSnClientError::TopicNotRegistered)
    }

    /// Inserts (name, kind, id). Overwriting an existing name with a new id
    /// is allowed (re-registration is a legitimate protocol event); a new
    /// name fails with `TopicFailedInsert` when the store is full.
    pub fn insert(&mut self, name: String, kind: TopicIdType, id: u16) -> (r: Result<
        (),
        MqttSnClientError,
    >)
        requires
            old(self).wf(),
        ensures
            contains_name(old(self)@, name@) ==> r is Ok && final(self)@ =~= overwrite_name(
                old(self)@,
                name@,
                kind,
                id,
            ),
            !contains_name(old(self)@, name@) && old(self)@.len() < TOPIC_CAPACITY ==> r is Ok
                && final(self)@ =~= old(self)@.push((name@, kind, id)),
            !contains_name(old(self)@, name@) && old(self)@.len() >= TOPIC_CAPACITY ==> r
                == Err::<(), MqttSnClientError>(MqttSnClientError::TopicFailedInsert)
                && final(self)@ =~= old(self)@,
            final(self).wf(),
            r is Ok ==> contains_name(final(self)@, name@),
            r is Ok ==> lookup_name(final(self)@, name@) == Some((kind, id)),
    {
        let n = self.records.len();
        for idx in 0..n
            invariant
                n == self.records.len(),
                self@ == old(self)@,
                old(self).wf(),
                self@.len() == n,
                forall|k: int| 0 <= k < self@.len() ==> self@[k] == (self.records@[k].name@, self.records@[k].kind, self.records@[k].id),
                forall|k: int| 0 <= k < idx ==> (#[trigger] old(self)@[k]).0 != name@,
        {
            if self.records[idx].name == name {
                proof {
                    assert((old(self)@[idx as int]).0 == name@);
                    assert forall|k: int| 0 <= k < old(self)@.len() && k != idx implies (
                    #[trigger] old(self)@[k]).0 != name@ by {
                        if idx < k {
                            assert((old(self)@[idx as int]).0 != (old(self)@[k]).0);
                        }
                    }
                }
                self.records.set(idx, TopicRecord { name: name.clone(), kind, id });
                proof {
                    assert(self@ =~= overwrite_name(old(self)@, name@, kind, id));
                    assert(forall|k: int|
                        0 <= k < old(self)@.len() ==> (#[trigger] self@[k]).0 == old(self)@[k].0);
                    lemma_lookup_name_found(self@, name@, idx as int);
                }
                return Ok(());
            }
        }
        if self.records.len() < TOPIC_CAPACITY {
            self.records.push(TopicRecord { name: name.clone(), kind, id });
            proof {
                assert(self@ =~= old(self)@.push((name@, kind, id)));
                assert(self@[old(self)@.len() as int].0 == name@);
                lemma_lookup_name_found(self@, name@, old(self)@.len() as int);
            }
            Ok(())
        } else {
            Err(MqttSnClientError::TopicFailedInsert)
        }
    }
}

/// If the record at `i` is the first named `name`, the scan finds it.
proof fn lemma_lookup_name_found(rs: Seq<RecordModel>, name: Seq<char>, i: int)
    requires
        0 <= i < rs.len(),
        rs[i].0 == name,
        forall|k: int| 0 <= k < i ==> (#[trigger] rs[k]).0 != name,
    ensures
        lookup_name(rs, name) == Some((rs[i].1, rs[i].2)),
    decreases i,
{
    lemma_lookup_name_step(rs, name, 0, i);
}

/// Scanning from `j` with no match before `i` reaches the match at `i`.
proof fn lemma_lookup_name_step(rs: Seq<RecordModel>, name: Seq<char>, j: int, i: int)
    requires
        0 <= j <= i < rs.len(),
        rs[i].0 == name,
        forall|k: int| j <= k < i ==> (#[trigger] rs[k]).0 != name,
    ensures
        lookup_name_from(rs, name, j) == Some((rs[i].1, rs[i].2)),
    decreases i - j,
{
    if j < i {
        lemma_lookup_name_step(rs, name, j + 1, i);
    }
}

} // verus!
