//! Registry laws: what the topic registry's two lookup directions promise
//! together.

use vstd::prelude::*;

use crate::messages::TopicIdType;
use crate::topics::{lookup_id, lookup_id_from, lookup_name, lookup_name_from, RecordModel};

verus! {

/// A successful name scan from `j` found an actual record.
proof fn lemma_lookup_name_witness(
    rs: Seq<RecordModel>,
    name: Seq<char>,
    j: int,
    kind: TopicIdType,
    id: u16,
)
    requires
        0 <= j,
        lookup_name_from(rs, name, j) == Some((kind, id)),
    ensures
        exists|i: int| j <= i < rs.len() && rs[i] == (name, kind, id),
    decreases rs.len() - j,
{
    if j < rs.len() {
        if rs[j].0 == name {
            assert(rs[j] == (name, kind, id));
        } else {
            lemma_lookup_name_witness(rs, name, j + 1, kind, id);
        }
    }
}

/// An id scan from `j` succeeds whenever a record with that id lies ahead,
/// and what it returns is the name of such a record.
proof fn lemma_lookup_id_finds(rs: Seq<RecordModel>, id: u16, j: int)
    requires
        0 <= j,
        exists|i: int| j <= i < rs.len() && #[trigger] rs[i].2 == id,
    ensures
        lookup_id_from(rs, id, j) matches Some(n) && exists|i: int|
            j <= i < rs.len() && rs[i].2 == id && #[trigger] rs[i].0 == n,
    decreases rs.len() - j,
{
    if rs[j].2 == id {
        assert(lookup_id_from(rs, id, j) == Some(rs[j].0));
    } else {
        lemma_lookup_id_finds(rs, id, j + 1);
    }
}

/// Law: the registry's two directions round-trip. Whenever a name resolves
/// to (kind, id), and that id belongs to no other name (re-registration
/// may leave an old id behind under the same name only), resolving the id
/// gives back exactly the original name.
pub proof fn lemma_registry_round_trip(
    rs: Seq<RecordModel>,
    name: Seq<char>,
    kind: TopicIdType,
    id: u16,
)
    requires
        lookup_name(rs, name) == Some((kind, id)),
        forall|i: int| 0 <= i < rs.len() && #[trigger] rs[i].2 == id ==> rs[i].0 == name,
    ensures
        lookup_id(rs, id) == Some(name),
{
    lemma_lookup_name_witness(rs, name, 0, kind, id);
    let i = choose|i: int| 0 <= i < rs.len() && rs[i] == (name, kind, id);
    assert(rs[i].2 == id);
    lemma_lookup_id_finds(rs, id, 0);
}

} // verus!
