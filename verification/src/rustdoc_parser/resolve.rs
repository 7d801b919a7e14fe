//! Item resolution: the two-phase lookup of one named item in a document,
//! first through the paths table by suffix match, then through the index
//! by bare name.

use vstd::prelude::*;
use vstd::string::*;

use crate::errors::ParseError;
use crate::model::{get_item, lookup, Document, Item, PathInfo};
use crate::rustdoc_parser::render::{describe, describe_text};
use crate::text::{join_strings, join_with, str_eq};

verus! {

/// A paths-table entry's segments joined with the path separator.
pub open spec fn joined_path(p: PathInfo) -> Seq<char> {
    join_with(p.path.deep_view(), "::"@)
}

/// Whether a paths-table entry matches the query: its joined path ends
/// with the query, or its last segment alone equals the query.
pub open spec fn path_matches(p: PathInfo, q: Seq<char>) -> bool {
    ||| {
        let jp = joined_path(p);
        q.len() <= jp.len() && jp.skip(jp.len() - q.len()) == q
    }
    ||| (p.path@.len() > 0 && p.path@[p.path@.len() - 1]@ == q)
}

/// The first phase of resolution over the remaining paths entries: the
/// first entry that matches the query and whose id resolves in the index,
/// together with that entry's kind label.
pub open spec fn phase1(doc: Document, entries: Seq<(u64, PathInfo)>, q: Seq<char>) -> Option<
    (Item, Seq<char>),
>
    decreases entries.len(),
{
    if entries.len() == 0 {
        None
    } else if path_matches(entries[0].1, q) && lookup(doc.index@, entries[0].0) is Some {
        Some((lookup(doc.index@, entries[0].0)->0, entries[0].1.kind@))
    } else {
        phase1(doc, entries.drop_first(), q)
    }
}

/// The bare name of a query: the text after its last dot, or the whole
/// query when it has none. This supports the conventional forms of the
/// query, where a kind prefix precedes the name.
pub open spec fn bare_name(q: Seq<char>) -> Seq<char>
    decreases q.len(),
{
    if q.len() == 0 {
        q
    } else if q[q.len() - 1] == '.' {
        Seq::empty()
    } else {
        bare_name(q.drop_last()) + seq![q.last()]
    }
}

/// The second phase of resolution: the first index entry whose item bears
/// the bare name.
pub open spec fn phase2(entries: Seq<(u64, Item)>, name: Seq<char>) -> Option<Item>
    decreases entries.len(),
{
    if entries.len() == 0 {
        None
    } else if entries[0].1.name matches Some(n) && n@ == name {
        Some(entries[0].1)
    } else {
        phase2(entries.drop_first(), name)
    }
}

/// The resolution result: the matched item, with the kind label of the
/// paths entry as the display override when the first phase hits.
pub open spec fn resolution(doc: Document, q: Seq<char>) -> Option<(Item, Option<Seq<char>>)> {
    match phase1(doc, doc.paths@, q) {
        Some((it, label)) => Some((it, Some(label))),
        None => match phase2(doc.index@, bare_name(q)) {
            Some(it) => Some((it, None)),
            None => None,
        },
    }
}

fn is_suffix(hay: &str, needle: &str) -> (r: bool)
    ensures
        r == (needle@.len() <= hay@.len() && hay@.skip(hay@.len() - needle@.len()) == needle@),
{
    let hl = hay.unicode_len();
    let nl = needle.unicode_len();
    if nl > hl {
        return false;
    }
    let tail = hay.substring_char(hl - nl, hl);
    proof {
        assert(tail@ =~= hay@.skip(hay@.len() - needle@.len()));
    }
    str_eq(tail, needle)
}

proof fn lemma_bare_determined(q: Seq<char>, a: int)
    requires
        0 <= a <= q.len(),
        forall|j: int| a <= j < q.len() ==> q[j] != '.',
        a > 0 ==> q[a - 1] == '.',
    ensures
        bare_name(q) == q.skip(a),
    decreases q.len(),
{
    if q.len() == 0 {
        assert(bare_name(q) =~= q.skip(0));
    } else if q[q.len() - 1] == '.' {
        assert(a == q.len());
        assert(bare_name(q) =~= q.skip(a));
    } else {
        assert(a < q.len());
        let r = q.drop_last();
        lemma_bare_determined(r, a);
        assert(r.skip(a) + seq![q.last()] =~= q.skip(a));
    }
}

fn bare_name_exec(q: &str) -> (r: String)
    ensures
        r@ == bare_name(q@),
{
    let len = q.unicode_len();
    let mut start: usize = 0;
    let mut i: usize = 0;
    while i < len
        invariant
            len == q@.len(),
            0 <= i <= len,
            start <= i,
            start > 0 ==> q@[start as int - 1] == '.',
            forall|j: int| start <= j < i ==> q@[j] != '.',
        decreases len - i,
    {
        if q.get_char(i) == '.' {
            start = i + 1;
        }
        i += 1;
    }
    proof {
        lemma_bare_determined(q@, start as int);
    }
    let tail = q.substring_char(start, len);
    tail.to_owned()
}

/// Resolve a named item in the document and render it. The first phase
/// walks the paths table in order; the second scans the index for the
/// bare name; a query matching neither yields an error naming the query.
pub fn find_in_document(doc: &Document, item_path: &str) -> (r: Result<String, ParseError>)
    ensures
        match r {
            Ok(s) => resolution(*doc, item_path@) matches Some((it, lbl)) && s@ == describe_text(
                it,
                lbl,
            ),
            Err(e) => {
                &&& resolution(*doc, item_path@) is None
                &&& e matches ParseError::ItemNotFound { item_path: p } && p@ == item_path@
            },
        },
{
    let n = doc.paths.len();
    let mut i: usize = 0;
    proof {
        assert(doc.paths@.skip(0) =~= doc.paths@);
    }
    while i < n
        invariant
            n == doc.paths@.len(),
            0 <= i <= n,
            phase1(*doc, doc.paths@, item_path@) == phase1(
                *doc,
                doc.paths@.skip(i as int),
                item_path@,
            ),
        decreases n - i,
    {
        proof {
            let rest = doc.paths@.skip(i as int);
            assert(rest.len() > 0);
            assert(rest[0] == doc.paths@[i as int]);
            assert(rest.drop_first() =~= doc.paths@.skip(i as int + 1));
        }
        let entry_id = doc.paths[i].0;
        let info = &doc.paths[i].1;
        let full_path = join_strings(&info.path, "::");
        let mut matched = is_suffix(full_path.as_str(), item_path);
        if !matched && info.path.len() > 0 {
            matched = str_eq(info.path[info.path.len() - 1].as_str(), item_path);
        }
        if matched {
            proof {
                assert(path_matches(doc.paths@[i as int].1, item_path@));
            }
            match get_item(&doc.index, entry_id) {
                Some(it) => {
                    return Ok(describe(it, Some(info.kind.as_str())));
                },
                None => {},
            }
        }
        i += 1;
    }
    proof {
        assert(doc.paths@.skip(n as int) =~= Seq::<(u64, PathInfo)>::empty());
        assert(phase1(*doc, doc.paths@, item_path@) is None);
    }
    // fallback: search the whole index for the bare name
    let search_name = bare_name_exec(item_path);
    let m = doc.index.len();
    let mut k: usize = 0;
    proof {
        assert(doc.index@.skip(0) =~= doc.index@);
    }
    while k < m
        invariant
            m == doc.index@.len(),
            0 <= k <= m,
            search_name@ == bare_name(item_path@),
            phase1(*doc, doc.paths@, item_path@) is None,
            phase2(doc.index@, search_name@) == phase2(
                doc.index@.skip(k as int),
                search_name@,
            ),
        decreases m - k,
    {
        proof {
            let rest = doc.index@.skip(k as int);
            assert(rest.len() > 0);
            assert(rest[0] == doc.index@[k as int]);
            assert(rest.drop_first() =~= doc.index@.skip(k as int + 1));
        }
        let it = &doc.index[k].1;
        let name_hit = match &it.name {
            Some(nm) => str_eq(nm.as_str(), search_name.as_str()),
            None => false,
        };
        if name_hit {
            return Ok(describe(it, None));
        }
        k += 1;
    }
    proof {
        assert(doc.index@.skip(m as int) =~= Seq::<(u64, Item)>::empty());
        assert(phase2(doc.index@, search_name@) is None);
    }
    Err(ParseError::ItemNotFound { item_path: item_path.to_owned() })
}

} // verus!
