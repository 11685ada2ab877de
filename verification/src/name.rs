use vstd::prelude::*;
use vstd::string::*;
use crate::strutil::push_char;

verus! {

// Collection name resolver.
//
// A type identifier (its short name, ignoring any `::`-qualified prefix) is
// turned into a collection name: an underscore is inserted before every
// ASCII uppercase letter that is not the first character, the letter is
// lowercased, and a pluralizing `s` is appended. The function is pure and
// total: it cannot fail.

/// A `::` separator starts at position `i` of `s`.
pub open spec fn is_sep_at(s: Seq<char>, i: int) -> bool {
    &&& 0 <= i
    &&& i + 2 <= s.len()
    &&& s[i] == ':'
    &&& s[i + 1] == ':'
}

/// `s` holds a `::` separator somewhere.
pub open spec fn has_sep(s: Seq<char>) -> bool {
    exists|i: int| is_sep_at(s, i)
}

/// A `::` separator starts at `i` and none starts later.
pub open spec fn is_last_sep(s: Seq<char>, i: int) -> bool {
    &&& is_sep_at(s, i)
    &&& forall|j: int| i < j ==> !is_sep_at(s, j)
}

/// The short name of a type identifier: everything after the last `::`,
/// or the identifier itself when no `::` occurs.
pub open spec fn short_name(s: Seq<char>) -> Seq<char> {
    if has_sep(s) {
        let i = choose|i: int| is_last_sep(s, i);
        s.subrange(i + 2, s.len() as int)
    } else {
        s
    }
}

/// ASCII uppercase letter.
pub open spec fn is_ascii_upper(c: char) -> bool {
    65 <= (c as u32) && (c as u32) <= 90
}

/// The lowercase form of an ASCII uppercase letter; other characters are kept.
pub open spec fn lower(c: char) -> char {
    if is_ascii_upper(c) {
        (((c as u32) + 32) as u8) as char
    } else {
        c
    }
}

/// What one character of the short name contributes to the collection name.
pub open spec fn snake_char(c: char, first: bool) -> Seq<char> {
    if is_ascii_upper(c) {
        if first {
            seq![lower(c)]
        } else {
            seq!['_', lower(c)]
        }
    } else {
        seq![c]
    }
}

/// The snake-case rendering of the first `n` characters of `s`.
pub open spec fn snake_upto(s: Seq<char>, n: int) -> Seq<char>
    decreases n,
{
    if n <= 0 {
        Seq::empty()
    } else {
        snake_upto(s, n - 1) + snake_char(s[n - 1], n - 1 == 0)
    }
}

/// The snake-case rendering of all of `s`.
pub open spec fn snake_case(s: Seq<char>) -> Seq<char> {
    snake_upto(s, s.len() as int)
}

/// The collection name a type identifier resolves to.
pub open spec fn coll_name_of(s: Seq<char>) -> Seq<char> {
    snake_case(short_name(s)) + seq!['s']
}

/// Among the separator positions below `n` there is a greatest one.
proof fn lemma_last_sep_below(s: Seq<char>, n: int)
    requires
        exists|i: int| i < n && is_sep_at(s, i),
    ensures
        exists|i: int|
            i < n && is_sep_at(s, i) && (forall|j: int| i < j < n ==> !is_sep_at(s, j)),
    decreases n,
{
    if is_sep_at(s, n - 1) {
        assert(n - 1 < n && is_sep_at(s, n - 1) && (forall|j: int|
            n - 1 < j < n ==> !is_sep_at(s, j)));
    } else {
        let w = choose|i: int| i < n && is_sep_at(s, i);
        assert(w < n - 1 && is_sep_at(s, w));
        lemma_last_sep_below(s, n - 1);
        let i = choose|i: int|
            i < n - 1 && is_sep_at(s, i) && (forall|j: int| i < j < n - 1 ==> !is_sep_at(s, j));
        assert(i < n && is_sep_at(s, i) && (forall|j: int| i < j < n ==> !is_sep_at(s, j)));
    }
}

/// Where some separator occurs, a last one occurs.
proof fn lemma_exists_last_sep(s: Seq<char>)
    requires
        has_sep(s),
    ensures
        exists|i: int| is_last_sep(s, i),
{
    let n = s.len() as int;
    assert(exists|i: int| i < n && is_sep_at(s, i)) by {
        let w = choose|i: int| is_sep_at(s, i);
        assert(w < n && is_sep_at(s, w));
    }
    lemma_last_sep_below(s, n);
    let i = choose|i: int|
        i < n && is_sep_at(s, i) && (forall|j: int| i < j < n ==> !is_sep_at(s, j));
    assert(forall|j: int| i < j ==> !is_sep_at(s, j)) by {
        assert forall|j: int| i < j implies !is_sep_at(s, j) by {
            if j < n {
                assert(!is_sep_at(s, j));
            } else {
                assert(j + 2 > s.len());
            }
        }
    }
    assert(is_last_sep(s, i));
}

/// Two last separators are the same separator.
proof fn lemma_last_sep_unique(s: Seq<char>, i: int, j: int)
    requires
        is_last_sep(s, i),
        is_last_sep(s, j),
    ensures
        i == j,
{
    if i < j {
        assert(!is_sep_at(s, j));
    } else if j < i {
        assert(!is_sep_at(s, i));
    }
}

/// The position of the last `::` separator in `s`, if any.
fn find_last_sep(s: &str) -> (r: Option<usize>)
    ensures
        r is Some ==> is_last_sep(s@, r->0 as int),
        r is None ==> !has_sep(s@),
{
    let n = s.unicode_len();
    if n < 2 {
        assert(!has_sep(s@)) by {
            assert forall|i: int| !is_sep_at(s@, i) by {
                assert(i + 2 <= s@.len() ==> i < 0);
            }
        }
        return None;
    }
    let mut i: usize = n - 1;
    while i > 0
        invariant
            n == s@.len(),
            2 <= n,
            i <= n - 1,
            forall|j: int| i <= j ==> !is_sep_at(s@, j),
        decreases i,
    {
        i = i - 1;
        let c0 = s.get_char(i);
        let c1 = s.get_char(i + 1);
        if c0 == ':' && c1 == ':' {
            assert(is_sep_at(s@, i as int));
            return Some(i);
        }
        assert(!is_sep_at(s@, i as int));
    }
    assert(forall|j: int| 0 <= j ==> !is_sep_at(s@, j));
    None
}

/// The short name of `type_ident`: everything after the last `::`.
fn short_name_of(s: &str) -> (r: String)
    ensures
        r@ == short_name(s@),
{
    match find_last_sep(s) {
        Some(i) => {
            proof {
                lemma_exists_last_sep(s@);
                let w = choose|k: int| is_last_sep(s@, k);
                lemma_last_sep_unique(s@, w, i as int);
            }
            let n = s.unicode_len();
            let tail = s.substring_char(i + 2, n);
            tail.to_owned()
        },
        None => s.to_owned(),
    }
}

/// Resolves a type identifier to its collection name: the short name in
/// lowercase-with-underscore form, with a pluralizing `s` appended.
/// Deterministic and total: the same identifier always yields the same name.
pub fn to_coll_name(type_ident: &str) -> (r: String)
    ensures
        r@ == coll_name_of(type_ident@),
{
    let short = short_name_of(type_ident);
    let n = short.as_str().unicode_len();
    let mut out = String::new();
    let mut i: usize = 0;
    while i < n
        invariant
            n == short@.len(),
            i <= n,
            short@ == short_name(type_ident@),
            out@ == snake_upto(short@, i as int),
        decreases n - i,
    {
        let c = short.as_str().get_char(i);
        let u = c as u32;
        if 65 <= u && u <= 90 {
            if i > 0 {
                push_char(&mut out, '_');
            }
            let lc = ((u + 32) as u8) as char;
            assert(lc == lower(c));
            push_char(&mut out, lc);
        } else {
            push_char(&mut out, c);
        }
        i = i + 1;
        assert(out@ =~= snake_upto(short@, i as int));
    }
    push_char(&mut out, 's');
    assert(out@ =~= coll_name_of(type_ident@));
    out
}

/// Law: collection naming is deterministic and idempotent — resolving the
/// same type identifier twice yields identical names.
pub proof fn lemma_coll_name_deterministic(a: Seq<char>, b: Seq<char>)
    requires
        a == b,
    ensures
        coll_name_of(a) == coll_name_of(b),
{
}

} // verus!
