use vstd::prelude::*;
use crate::error::{Error, ErrorKind};
use crate::filter::{Cond, Query};
use crate::name::{coll_name_of, to_coll_name};
use crate::oid::{bytes_of_hex, valid_hex_id, DocId};

verus! {

// Document repository.
//
// A `Doc<T>` is the envelope around one payload value: identity, the two
// timestamps, and the ephemeral mode and collection binding that never reach
// the wire. Every operation below makes the repository's decisions —
// resolving the collection, validating input, building the one store request
// the operation issues, and folding the store's answer back into an
// envelope — while the single network round trip itself is carried out
// outside, against the connection handle, with exactly the request returned
// here.

/// `mongodb::bson::Document` carried through untouched: the repository never
/// reads inside an aggregation pipeline stage.
#[verifier::external_type_specification]
#[verifier::external_body]
pub struct ExDocument(mongodb::bson::Document);

/// `mongodb::options::AggregateOptions` carried through untouched.
#[verifier::external_type_specification]
#[verifier::external_body]
pub struct ExAggregateOptions(mongodb::options::AggregateOptions);

/// Whether an envelope has ever been persisted.
#[derive(Clone, Copy, PartialEq, Eq, Structural, Debug)]
pub enum Mode {
    /// Not yet persisted: the next save inserts the full envelope.
    Create,
    /// Persisted: the next save updates only the payload and `updated_at`.
    Update,
}

/// The wire form of one stored document: exactly the fields that are
/// persisted — identifier, both timestamps, and the payload. The mode and
/// the collection binding never appear here.
#[derive(Debug)]
pub struct Rec<T> {
    pub _id: DocId,
    pub created_at: i64,
    pub updated_at: i64,
    pub data: T,
}

/// How the caller-supplied options drive a find-many call.
#[derive(Debug)]
pub enum SortSpec {
    /// Most recent first: descending `created_at`, the repository default.
    CreatedAtDesc,
    /// An explicit field and direction.
    ByField { field: String, ascending: bool },
}

/// Skip, limit and sort of a find-many call.
#[derive(Debug)]
pub struct FindOpts {
    pub skip: Option<u64>,
    pub limit: Option<i64>,
    pub sort: Option<SortSpec>,
}

/// A single find-one round trip: which collection, which query.
#[derive(Debug)]
pub struct FindOneReq {
    pub collection: String,
    pub query: Query,
}

/// A single find-many round trip.
#[derive(Debug)]
pub struct FindReq {
    pub collection: String,
    pub query: Query,
    pub opts: FindOpts,
}

/// A single count round trip.
#[derive(Debug)]
pub struct CountReq {
    pub collection: String,
    pub query: Query,
}

/// A single delete-one round trip.
#[derive(Debug)]
pub struct DeleteOneReq {
    pub collection: String,
    pub query: Query,
}

/// A single delete-many round trip.
#[derive(Debug)]
pub struct DeleteManyReq {
    pub collection: String,
    pub query: Query,
}

/// A single batched insert round trip.
#[derive(Debug)]
pub struct InsertManyReq<T> {
    pub collection: String,
    pub records: Vec<Rec<T>>,
}

/// A single aggregation round trip: the pipeline stages pass through
/// uninterpreted.
pub struct AggregateReq {
    pub collection: String,
    pub pipeline: Vec<mongodb::bson::Document>,
    pub options: Option<mongodb::options::AggregateOptions>,
}

/// What a save must do, decided by the envelope's mode.
#[derive(PartialEq, Eq, Structural, Debug)]
pub enum SaveAction {
    /// Insert the full envelope as a new document.
    InsertNew,
    /// Update only the payload field and `updated_at`, matched by identifier.
    UpdateData { updated_at: i64 },
}

/// The query holds exactly one condition: equality on this raw identifier.
pub open spec fn is_id_query(conds: Seq<Cond>, id_bytes: Seq<u8>) -> bool {
    &&& conds.len() == 1
    &&& conds[0] matches Cond::IdEq { id } && id@ == id_bytes
}

/// The page size every `list` call uses.
pub const PAGE_SIZE: u64 = 20;

/// The envelope around one payload value of type `T`.
#[derive(Debug)]
pub struct Doc<T> {
    pub _id: DocId,
    pub created_at: i64,
    pub updated_at: i64,
    pub data: T,
    /// Ephemeral: the collection this instance is bound to, resolved once
    /// from the payload's type identifier and cached. Never persisted.
    pub coll_name: String,
    /// Ephemeral: whether this instance has been persisted. Never persisted.
    pub mode: Mode,
}

impl<T> Doc<T> {
    /// The collection this instance is bound to.
    pub open spec fn collection(&self) -> Seq<char> {
        self.coll_name@
    }

    /// Timestamps never run backwards within an envelope.
    pub open spec fn wf(&self) -> bool {
        self.created_at <= self.updated_at
    }

    /// The wire form this envelope persists as.
    pub open spec fn rec(&self) -> Rec<T> {
        Rec { _id: self._id, created_at: self.created_at, updated_at: self.updated_at, data: self.data }
    }

    /// The cached collection name, for addressing the store.
    pub fn collection_name(&self) -> (r: &String)
        ensures
            r@ == self.collection(),
    {
        &self.coll_name
    }

    /// Whether this instance has ever been persisted.
    pub fn is_committed(&self) -> (r: bool)
        ensures
            r == (self.mode == Mode::Update),
    {
        match self.mode {
            Mode::Update => true,
            Mode::Create => false,
        }
    }

    /// Builds a new envelope around `data`: fresh identifier, both
    /// timestamps set to `now`, not yet persisted. No store round trip
    /// happens here, and none can fail.
    pub fn create(data: T, type_ident: &str, now: i64) -> (d: Doc<T>)
        ensures
            d.data == data,
            d.created_at == now,
            d.updated_at == now,
            d.mode == Mode::Create,
            d.collection() == coll_name_of(type_ident@),
            d.wf(),
    {
        Doc {
            _id: DocId::new(),
            created_at: now,
            updated_at: now,
            data,
            coll_name: to_coll_name(type_ident),
            mode: Mode::Create,
        }
    }

    /// Decides what the one atomic store operation of a save is: a not yet
    /// persisted envelope is inserted whole; a persisted one gets exactly
    /// its payload and `updated_at` rewritten, matched by identifier —
    /// `_id` and `created_at` are never rewritten.
    pub fn save(&self, now: i64) -> (a: SaveAction)
        ensures
            self.mode == Mode::Create ==> a == SaveAction::InsertNew,
            self.mode == Mode::Update ==> a == (SaveAction::UpdateData { updated_at: now }),
    {
        match self.mode {
            Mode::Create => SaveAction::InsertNew,
            Mode::Update => SaveAction::UpdateData { updated_at: now },
        }
    }

    /// Applies a successful save to the in-memory instance: it is now
    /// persisted, and after a save-as-update `updated_at` is refreshed to
    /// the value the store received. Identifier, `created_at`, payload and
    /// collection binding are untouched. A failed save applies nothing, so
    /// the caller may retry from the prior state.
    pub fn save_committed(&mut self, now: i64)
        requires
            old(self).updated_at <= now,
        ensures
            final(self).mode == Mode::Update,
            final(self)._id == old(self)._id,
            final(self).created_at == old(self).created_at,
            final(self).data == old(self).data,
            final(self).collection() == old(self).collection(),
            final(self).updated_at == if old(self).mode == Mode::Update {
                now
            } else {
                old(self).updated_at
            },
            final(self).updated_at >= old(self).updated_at,
            old(self).wf() ==> final(self).wf(),
    {
        match self.mode {
            Mode::Update => {
                self.updated_at = now;
            },
            Mode::Create => {
                self.mode = Mode::Update;
            },
        }
    }

    /// Validates a caller-supplied identifier string and builds the
    /// find-one request of a load. A malformed identifier is rejected as
    /// the caller's input error before any store round trip — never
    /// reported as a missing document.
    pub fn load(id: &str, type_ident: &str) -> (r: Result<FindOneReq, Error>)
        ensures
            r is Ok <==> valid_hex_id(id@),
            r is Err ==> r->Err_0.kind == ErrorKind::InvalidInput,
            r is Ok ==> r->Ok_0.collection@ == coll_name_of(type_ident@),
            r is Ok ==> is_id_query(r->Ok_0.query.conds@, bytes_of_hex(id@)),
    {
        let parsed = DocId::parse_str(id)?;
        let mut conds: Vec<Cond> = Vec::new();
        conds.push(Cond::IdEq { id: parsed });
        Ok(FindOneReq { collection: to_coll_name(type_ident), query: Query { conds } })
    }

    /// Folds the store's answer to a find-one back into an envelope: zero
    /// matches is a not-found failure; a match comes back bound to its
    /// collection and already persisted.
    pub fn loaded(found: Option<Rec<T>>, type_ident: &str) -> (r: Result<Doc<T>, Error>)
        ensures
            found is None ==> r is Err && r->Err_0.kind == ErrorKind::NotFound,
            found is Some ==> r is Ok && ({
                let d = r->Ok_0;
                &&& d.rec() == found->0
                &&& d.mode == Mode::Update
                &&& d.collection() == coll_name_of(type_ident@)
            }),
    {
        match found {
            None => Err(Error::new(ErrorKind::NotFound, "document not found")),
            Some(rec) => Ok(
                Doc {
                    _id: rec._id,
                    created_at: rec.created_at,
                    updated_at: rec.updated_at,
                    data: rec.data,
                    coll_name: to_coll_name(type_ident),
                    mode: Mode::Update,
                },
            ),
        }
    }

    /// The find-one request for the first document of the collection, in
    /// arbitrary order: the empty, match-everything query.
    pub fn frist(type_ident: &str) -> (req: FindOneReq)
        ensures
            req.collection@ == coll_name_of(type_ident@),
            req.query.conds@ == Seq::<Cond>::empty(),
    {
        FindOneReq { collection: to_coll_name(type_ident), query: Query { conds: Vec::new() } }
    }

    /// The find-one request for the first document matching `filter`.
    pub fn find_one(filter: Query, type_ident: &str) -> (req: FindOneReq)
        ensures
            req.collection@ == coll_name_of(type_ident@),
            req.query == filter,
    {
        FindOneReq { collection: to_coll_name(type_ident), query: filter }
    }

    /// The find-many request of a 1-indexed page: skip the earlier pages,
    /// take one page of twenty, most recent first. Page number zero — and a
    /// page whose skip would not fit the machine word — is the caller's
    /// input error.
    pub fn list(page_num: u64, filter: Query, type_ident: &str) -> (r: Result<FindReq, Error>)
        ensures
            r is Ok <==> 1 <= page_num && (page_num - 1) * (PAGE_SIZE as int) <= u64::MAX,
            r is Err ==> r->Err_0.kind == ErrorKind::InvalidInput,
            r is Ok ==> ({
                let req = r->Ok_0;
                &&& req.collection@ == coll_name_of(type_ident@)
                &&& req.query == filter
                &&& req.opts.skip == Some(((page_num - 1) * (PAGE_SIZE as int)) as u64)
                &&& req.opts.limit == Some(PAGE_SIZE as i64)
                &&& req.opts.sort matches Some(SortSpec::CreatedAtDesc)
            }),
    {
        if page_num == 0 {
            return Err(Error::new(ErrorKind::InvalidInput, "page numbers start at 1"));
        }
        match (page_num - 1).checked_mul(PAGE_SIZE) {
            None => Err(Error::new(ErrorKind::InvalidInput, "page number out of range")),
            Some(skip) => Ok(
                FindReq {
                    collection: to_coll_name(type_ident),
                    query: filter,
                    opts: FindOpts {
                        skip: Some(skip),
                        limit: Some(PAGE_SIZE as i64),
                        sort: Some(SortSpec::CreatedAtDesc),
                    },
                },
            ),
        }
    }

    /// The generalized find-many request: caller-supplied options override
    /// the default most-recent-first ordering when present.
    pub fn find_many(filter: Query, option: Option<FindOpts>, type_ident: &str) -> (req: FindReq)
        ensures
            req.collection@ == coll_name_of(type_ident@),
            req.query == filter,
            option is Some ==> req.opts == option->0,
            option is None ==> req.opts == (FindOpts {
                skip: None,
                limit: None,
                sort: Some(SortSpec::CreatedAtDesc),
            }),
    {
        let opts = match option {
            Some(o) => o,
            None => FindOpts { skip: None, limit: None, sort: Some(SortSpec::CreatedAtDesc) },
        };
        FindReq { collection: to_coll_name(type_ident), query: filter, opts }
    }

    /// The count request: how many documents match, with no pagination.
    pub fn count(filter: Query, type_ident: &str) -> (req: CountReq)
        ensures
            req.collection@ == coll_name_of(type_ident@),
            req.query == filter,
    {
        CountReq { collection: to_coll_name(type_ident), query: filter }
    }

    /// Builds one already-persisted record per payload, fresh identifiers
    /// and both timestamps set to `now`, for a single batched insert. An
    /// empty batch is a no-op: no request, hence no store round trip.
    pub fn insert_many(documents: Vec<T>, type_ident: &str, now: i64) -> (r: Option<
        InsertManyReq<T>,
    >)
        ensures
            r is None <==> documents@.len() == 0,
            r is Some ==> ({
                let req = r->0;
                &&& req.collection@ == coll_name_of(type_ident@)
                &&& req.records@.len() == documents@.len()
                &&& forall|i: int|
                    0 <= i < documents@.len() ==> {
                        &&& (#[trigger] req.records@[i]).data == documents@[i]
                        &&& req.records@[i].created_at == now
                        &&& req.records@[i].updated_at == now
                    }
            }),
    {
        if documents.len() == 0 {
            return None;
        }
        let ghost originals = documents@;
        let mut rest = documents;
        let mut records: Vec<Rec<T>> = Vec::new();
        while rest.len() > 0
            invariant
                records@.len() + rest@.len() == originals.len(),
                rest@ =~= originals.skip(records@.len() as int),
                forall|i: int|
                    0 <= i < records@.len() ==> {
                        &&& (#[trigger] records@[i]).data == originals[i]
                        &&& records@[i].created_at == now
                        &&& records@[i].updated_at == now
                    },
            decreases rest@.len(),
        {
            let ele = rest.remove(0);
            assert(ele == originals[records@.len() as int]);
            records.push(Rec { _id: DocId::new(), created_at: now, updated_at: now, data: ele });
            assert(rest@ =~= originals.skip(records@.len() as int));
        }
        Some(InsertManyReq { collection: to_coll_name(type_ident), records })
    }

    /// The delete-one request for this envelope, matched by identifier.
    pub fn delete(&self) -> (req: DeleteOneReq)
        ensures
            req.collection@ == self.collection(),
            is_id_query(req.query.conds@, self._id@),
    {
        let mut conds: Vec<Cond> = Vec::new();
        conds.push(Cond::IdEq { id: self._id });
        DeleteOneReq { collection: self.coll_name.clone(), query: Query { conds } }
    }

    /// The delete-many request for every document matching `filter`.
    pub fn delete_many(filter: Query, type_ident: &str) -> (req: DeleteManyReq)
        ensures
            req.collection@ == coll_name_of(type_ident@),
            req.query == filter,
    {
        DeleteManyReq { collection: to_coll_name(type_ident), query: filter }
    }

    /// The delete-many request for every document whose payload field
    /// `field` contains `keyword`.
    pub fn delete_all(field: &str, keyword: &str, type_ident: &str) -> (req: DeleteManyReq)
        ensures
            req.collection@ == coll_name_of(type_ident@),
            req.query.conds@.len() == 1,
            req.query.conds@[0] matches Cond::Like { key, value } && key@ == field@ && value@
                == keyword@,
    {
        let mut conds: Vec<Cond> = Vec::new();
        conds.push(Cond::Like { key: field.to_owned(), value: keyword.to_owned() });
        DeleteManyReq { collection: to_coll_name(type_ident), query: Query { conds } }
    }

    /// The aggregation request: the pipeline stages and options pass
    /// through to the store untouched and uninterpreted.
    pub fn aggregate(
        pipeline: Vec<mongodb::bson::Document>,
        options: Option<mongodb::options::AggregateOptions>,
        type_ident: &str,
    ) -> (req: AggregateReq)
        ensures
            req.collection@ == coll_name_of(type_ident@),
            req.pipeline == pipeline,
            req.options == options,
    {
        AggregateReq { collection: to_coll_name(type_ident), pipeline, options }
    }
}

} // verus!
