use vstd::prelude::*;
use crate::doc::Rec;

verus! {

// The narrow contract the repository assumes of the store.
//
// One collection's contents are modeled as the sequence of its records, in
// insertion order. Each spec function below states what one primitive
// operation of the connection handle does to, or reads from, that sequence;
// the laws that follow are proved against this model together with the
// contracts of the repository's own operations. Identifiers are assumed
// unique per collection — the invariant a correctly functioning store
// maintains, since every insert carries a fresh client-assigned identifier.

/// Some record of the collection carries this raw identifier.
pub open spec fn has_id<T>(m: Seq<Rec<T>>, id: Seq<u8>) -> bool {
    exists|i: int| 0 <= i < m.len() && (#[trigger] m[i])._id@ == id
}

/// What insert-one does: appends the one record.
pub open spec fn store_insert<T>(m: Seq<Rec<T>>, r: Rec<T>) -> Seq<Rec<T>> {
    m.push(r)
}

/// What a single batched insert does: appends every record, in order.
pub open spec fn store_insert_many<T>(m: Seq<Rec<T>>, rs: Seq<Rec<T>>) -> Seq<Rec<T>> {
    m + rs
}

/// What find-one by identifier returns: a record carrying the identifier,
/// or nothing when none does.
pub open spec fn find_by_id<T>(m: Seq<Rec<T>>, id: Seq<u8>) -> Option<Rec<T>> {
    if has_id(m, id) {
        Some(m[choose|i: int| 0 <= i < m.len() && (#[trigger] m[i])._id@ == id])
    } else {
        None
    }
}

/// What count with the match-everything filter returns.
pub open spec fn store_count<T>(m: Seq<Rec<T>>) -> int {
    m.len() as int
}

/// What update-one by identifier with a partial field update does: every
/// record carrying the identifier gets exactly its payload and `updated_at`
/// replaced; every other record, and every other field, is untouched.
pub open spec fn store_update_by_id<T>(m: Seq<Rec<T>>, id: Seq<u8>, data: T, ts: i64) -> Seq<
    Rec<T>,
> {
    Seq::new(
        m.len(),
        |i: int|
            if m[i]._id@ == id {
                Rec { _id: m[i]._id, created_at: m[i].created_at, updated_at: ts, data }
            } else {
                m[i]
            },
    )
}

/// Most recent first: descending `created_at`.
pub open spec fn sorted_desc<T>(m: Seq<Rec<T>>) -> bool {
    forall|i: int, j: int| 0 <= i <= j < m.len() ==> m[i].created_at >= m[j].created_at
}

/// What find-many with skip and limit returns from the sorted sequence:
/// up to `limit` records starting after the first `skip`.
pub open spec fn page_slice<T>(m: Seq<Rec<T>>, skip: int, limit: int) -> Seq<Rec<T>>
    recommends
        0 <= skip,
        0 <= limit,
{
    let lo = if skip <= m.len() {
        skip
    } else {
        m.len() as int
    };
    let hi = if skip + limit <= m.len() {
        skip + limit
    } else {
        m.len() as int
    };
    if lo <= hi {
        m.subrange(lo, hi)
    } else {
        Seq::empty()
    }
}

/// Law: a created envelope, once its record is inserted, is found again
/// under its own identifier, and what is found deep-equals what was
/// created — the payload is `p` and `created_at == updated_at`. The
/// identifier is fresh: it was just assigned client-side, so no record of
/// the collection carries it yet.
pub proof fn lemma_create_save_load<T>(m: Seq<Rec<T>>, r: Rec<T>, p: T, now: i64)
    requires
        r.data == p,
        r.created_at == now,
        r.updated_at == now,
        !has_id(m, r._id@),
    ensures
        ({
            let found = find_by_id(store_insert(m, r), r._id@);
            &&& found == Some(r)
            &&& found->0.data == p
            &&& found->0.created_at == found->0.updated_at
        }),
{
    lemma_insert_then_find(m, r);
}

/// Law: the identifier string a caller gets from a fresh envelope leads back
/// to that envelope's record. The hex form of the record's identifier is a
/// syntactically valid identifier string — so `load` accepts it — it parses
/// back to exactly the record's raw identifier, and once the record is
/// inserted, the lookup by that identifier finds the record.
pub proof fn lemma_load_by_hex_of_id<T>(m: Seq<Rec<T>>, r: Rec<T>)
    requires
        r._id@.len() == 12,
        !has_id(m, r._id@),
    ensures
        crate::oid::valid_hex_id(crate::oid::hex_of(r._id@)),
        crate::oid::bytes_of_hex(crate::oid::hex_of(r._id@)) == r._id@,
        find_by_id(store_insert(m, r), crate::oid::bytes_of_hex(crate::oid::hex_of(r._id@)))
            == Some(r),
{
    crate::oid::lemma_hex_roundtrip(r._id@);
    lemma_insert_then_find(m, r);
}

/// A record inserted under a fresh identifier is found under it.
proof fn lemma_insert_then_find<T>(m: Seq<Rec<T>>, r: Rec<T>)
    requires
        !has_id(m, r._id@),
    ensures
        find_by_id(store_insert(m, r), r._id@) == Some(r),
{
    let m2 = store_insert(m, r);
    assert(m2[m.len() as int] == r);
    assert(has_id(m2, r._id@));
    let i = choose|i: int| 0 <= i < m2.len() && (#[trigger] m2[i])._id@ == r._id@;
    if i < m.len() {
        assert(m[i] == m2[i]);
        assert(has_id(m, r._id@));
    }
    assert(m2[i] == r);
}

/// Law: a save-as-update rewrites exactly the payload and `updated_at` of
/// the matched record; its identifier and `created_at`, and every other
/// record, are unchanged.
pub proof fn lemma_update_only_data_and_updated_at<T>(m: Seq<Rec<T>>, id: Seq<u8>, data: T, ts: i64)
    ensures
        ({
            let m2 = store_update_by_id(m, id, data, ts);
            &&& m2.len() == m.len()
            &&& forall|i: int| 0 <= i < m.len() && m[i]._id@ != id ==> m2[i] == #[trigger] m[i]
            &&& forall|i: int|
                0 <= i < m.len() && (#[trigger] m[i])._id@ == id ==> m2[i]._id == m[i]._id
                    && m2[i].created_at == m[i].created_at && m2[i].data == data
                    && m2[i].updated_at == ts
        }),
{
}

/// Law: a well-formed but absent identifier finds nothing — the load then
/// fails as not-found, never as invalid input.
pub proof fn lemma_absent_id_not_found<T>(m: Seq<Rec<T>>, id: Seq<u8>)
    requires
        !has_id(m, id),
    ensures
        find_by_id(m, id) is None,
{
}

/// Law: a page holds at most `limit` records; two consecutive pages of the
/// stable sorted sequence hold exactly what one double-length page holds —
/// no overlap and no gap — and every page of a most-recent-first sequence
/// is itself most-recent-first.
pub proof fn lemma_pages_partition<T>(m: Seq<Rec<T>>, skip: int, limit: int)
    requires
        0 <= skip,
        0 <= limit,
    ensures
        page_slice(m, skip, limit).len() <= limit,
        page_slice(m, skip, limit) + page_slice(m, skip + limit, limit) =~= page_slice(
            m,
            skip,
            2 * limit,
        ),
        sorted_desc(m) ==> sorted_desc(page_slice(m, skip, limit)),
{
}

/// Law: a batched insert of N records raises the match-everything count by
/// exactly N; the empty batch — which issues no store request at all —
/// leaves it unchanged.
pub proof fn lemma_insert_many_count<T>(m: Seq<Rec<T>>, rs: Seq<Rec<T>>)
    ensures
        store_count(store_insert_many(m, rs)) == store_count(m) + rs.len(),
        store_count(store_insert_many(m, Seq::<Rec<T>>::empty())) == store_count(m),
{
}

} // verus!
