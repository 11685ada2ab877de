use vstd::prelude::*;

verus! {

// Filter builder.
//
// A filter is an ordered collection of predicates over fields of the
// payload, combined by conjunction only. Each predicate renders its own
// condition on `data.<field>`; the empty filter renders the expression that
// matches every document. Escaping of pattern values is the caller's
// responsibility.

/// One rendered comparison of the store query expression.
#[derive(Debug)]
pub enum Cond {
    /// Exact match of the document's identifier.
    IdEq { id: crate::oid::DocId },
    /// Exact match on the payload field `data.<key>`.
    Eq { key: String, value: String },
    /// Pattern containment on the payload field `data.<key>`.
    Like { key: String, value: String },
}

impl Cond {
    /// A structurally equal copy of this condition.
    pub fn dup(&self) -> (r: Cond)
        ensures
            r == *self,
    {
        match self {
            Cond::IdEq { id } => Cond::IdEq { id: *id },
            Cond::Eq { key, value } => Cond::Eq { key: key.clone(), value: value.clone() },
            Cond::Like { key, value } => Cond::Like { key: key.clone(), value: value.clone() },
        }
    }
}

/// The store-native query expression: the conjunction of its conditions.
/// With no conditions it matches every document.
#[derive(Debug)]
pub struct Query {
    pub conds: Vec<Cond>,
}

/// How the query expression reads one stored document: its raw identifier
/// and its queryable fields, each field path bound to a string value.
pub struct QueryView {
    pub id: Seq<u8>,
    pub fields: Map<Seq<char>, Seq<char>>,
}

/// The field path a payload key renders to: `data.<key>`.
pub open spec fn data_path(key: Seq<char>) -> Seq<char> {
    "data."@ + key
}

/// `pat` occurs contiguously inside `text`.
pub open spec fn is_substring(pat: Seq<char>, text: Seq<char>) -> bool {
    exists|i: int|
        0 <= i && i + pat.len() <= text.len() && #[trigger] text.subrange(i, i + pat.len())
            == pat
}

/// Whether one condition holds of one document.
pub open spec fn cond_matches(c: Cond, v: QueryView) -> bool {
    match c {
        Cond::IdEq { id } => v.id == id@,
        Cond::Eq { key, value } => v.fields.contains_key(data_path(key@)) && v.fields[data_path(
            key@,
        )] == value@,
        Cond::Like { key, value } => v.fields.contains_key(data_path(key@)) && is_substring(
            value@,
            v.fields[data_path(key@)],
        ),
    }
}

/// Whether the conjunction of all conditions holds of one document.
pub open spec fn query_matches(conds: Seq<Cond>, v: QueryView) -> bool {
    forall|i: int| 0 <= i < conds.len() ==> cond_matches(#[trigger] conds[i], v)
}

/// Law: the query built from an empty predicate set matches every document.
pub proof fn lemma_empty_query_matches_all(v: QueryView)
    ensures
        query_matches(Seq::<Cond>::empty(), v),
{
}

/// Law: a query of one equality predicate matches exactly the documents
/// whose field `data.<key>` equals the value.
pub proof fn lemma_eq_query_matches_exactly(key: String, value: String, v: QueryView)
    ensures
        query_matches(seq![Cond::Eq { key, value }], v) <==> (v.fields.contains_key(
            data_path(key@),
        ) && v.fields[data_path(key@)] == value@),
{
    let conds = seq![Cond::Eq { key, value }];
    if cond_matches(conds[0], v) {
        assert(query_matches(conds, v));
    }
}

/// A predicate that renders itself as one condition of the query.
/// New predicate kinds extend the filter without touching existing ones.
pub trait FilterDoc {
    /// The condition this predicate renders to.
    spec fn spec_cond(&self) -> Cond;

    fn to_doc(&self) -> (c: Cond)
        ensures
            c == self.spec_cond(),
    ;
}

/// Substring match on a payload field.
pub struct Like {
    pub key: String,
    pub value: String,
}

impl Like {
    pub fn new(key: &str, value: &str) -> (r: Like)
        ensures
            r.key@ == key@,
            r.value@ == value@,
    {
        Like { key: key.to_owned(), value: value.to_owned() }
    }
}

impl FilterDoc for Like {
    open spec fn spec_cond(&self) -> Cond {
        Cond::Like { key: self.key, value: self.value }
    }

    fn to_doc(&self) -> (c: Cond) {
        Cond::Like { key: self.key.clone(), value: self.value.clone() }
    }
}

/// Exact match on a payload field.
pub struct Eq {
    pub key: String,
    pub value: String,
}

impl Eq {
    pub fn new(key: &str, value: &str) -> (r: Eq)
        ensures
            r.key@ == key@,
            r.value@ == value@,
    {
        Eq { key: key.to_owned(), value: value.to_owned() }
    }
}

impl FilterDoc for Eq {
    open spec fn spec_cond(&self) -> Cond {
        Cond::Eq { key: self.key, value: self.value }
    }

    fn to_doc(&self) -> (c: Cond) {
        Cond::Eq { key: self.key.clone(), value: self.value.clone() }
    }
}

/// An ordered collection of predicates, combined by conjunction.
pub struct Filter {
    conds: Vec<Cond>,
}

impl Filter {
    /// The conditions pushed so far, in order.
    pub closed spec fn conds(&self) -> Seq<Cond> {
        self.conds@
    }

    /// An empty filter: it renders the match-everything expression.
    pub fn new() -> (r: Filter)
        ensures
            r.conds() == Seq::<Cond>::empty(),
    {
        Filter { conds: Vec::new() }
    }

    /// Appends one predicate's condition to the conjunction.
    pub fn push<F: FilterDoc>(&mut self, filter: F) -> (n: usize)
        ensures
            final(self).conds() == old(self).conds().push(filter.spec_cond()),
            n == final(self).conds().len(),
    {
        self.conds.push(filter.to_doc());
        self.conds.len()
    }

    /// Renders the predicates into the single conjunctive query expression.
    pub fn to_doc(&self) -> (q: Query)
        ensures
            q.conds@ == self.conds(),
    {
        let mut conds: Vec<Cond> = Vec::new();
        let mut i: usize = 0;
        while i < self.conds.len()
            invariant
                i <= self.conds@.len(),
                conds@ =~= self.conds@.take(i as int),
            decreases self.conds@.len() - i,
        {
            conds.push(self.conds[i].dup());
            i = i + 1;
            assert(conds@ =~= self.conds@.take(i as int));
        }
        assert(conds@ =~= self.conds@);
        Query { conds }
    }
}

} // verus!
