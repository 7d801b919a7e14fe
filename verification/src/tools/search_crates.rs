//! The pure side of crate search: decoding a registry search response and
//! formatting the results. The HTTP request runs outside the library.

use vstd::prelude::*;
use vstd::string::*;

use serde_json::Value;

use crate::json::{
    json_as_array, json_as_str, json_as_u64, json_get, json_is_null, json_parses, parse_json,
};
use crate::text::{dec_rep, grouped, format_number, u64_to_dec};

verus! {

/// What a crate-search request names.
#[derive(Clone, Debug)]
pub struct SearchCratesParams {
    /// Search query for crate names.
    pub query: String,
    /// Maximum number of results to return.
    pub limit: usize,
}

/// The limit used when a search request names none.
pub fn default_limit() -> (r: usize)
    ensures
        r == 10,
{
    10
}

/// One search hit, as the formatter reads it.
#[derive(Clone, Debug)]
pub struct CrateSummary {
    pub name: String,
    pub description: Option<String>,
    pub downloads: u64,
    pub recent_downloads: u64,
    pub max_version: String,
    pub documentation: Option<String>,
}

/// A decoded search response: the total number of matches the registry
/// reports, and the returned page of crates.
#[derive(Clone, Debug)]
pub struct SearchResults {
    pub total: u64,
    pub crates: Vec<CrateSummary>,
}

fn opt_string_field(v: &Value, field: &str) -> (r: Option<String>) {
    match json_get(v, field) {
        Some(x) => {
            if json_is_null(x) {
                None
            } else {
                match json_as_str(x) {
                    Some(s) => Some(s.to_owned()),
                    None => None,
                }
            }
        },
        None => None,
    }
}

/// Decode a registry search response: a body that is no JSON decodes to
/// nothing, and only a body that parses can decode to results. What the
/// parsed value holds is opaque to the verifier, so the field extraction
/// is verified for every value the parser can hand back, and a malformed
/// shape decodes to nothing at run time.
pub fn parse_search_response(body: &str) -> (r: Option<SearchResults>)
    ensures
        !json_parses(body@) ==> r is None,
{
    let v = match parse_json(body) {
        Ok(v) => v,
        Err(_) => {
            return None;
        },
    };
    let crates_v = match json_get(&v, "crates") {
        Some(x) => x,
        None => {
            return None;
        },
    };
    let arr = match json_as_array(crates_v) {
        Some(a) => a,
        None => {
            return None;
        },
    };
    let mut crates: Vec<CrateSummary> = Vec::new();
    let mut i: usize = 0;
    while i < arr.len()
        invariant
            0 <= i <= arr@.len(),
        decreases arr@.len() - i,
    {
        let c = &arr[i];
        let name = match json_get(c, "name") {
            Some(x) => match json_as_str(x) {
                Some(s) => s.to_owned(),
                None => {
                    return None;
                },
            },
            None => {
                return None;
            },
        };
        let downloads = match json_get(c, "downloads") {
            Some(x) => match json_as_u64(x) {
                Some(n) => n,
                None => {
                    return None;
                },
            },
            None => {
                return None;
            },
        };
        let recent_downloads = match json_get(c, "recent_downloads") {
            Some(x) => match json_as_u64(x) {
                Some(n) => n,
                None => {
                    return None;
                },
            },
            None => {
                return None;
            },
        };
        let max_version = match json_get(c, "max_version") {
            Some(x) => match json_as_str(x) {
                Some(s) => s.to_owned(),
                None => {
                    return None;
                },
            },
            None => {
                return None;
            },
        };
        let description = opt_string_field(c, "description");
        let documentation = opt_string_field(c, "documentation");
        crates.push(
            CrateSummary {
                name,
                description,
                downloads,
                recent_downloads,
                max_version,
                documentation,
            },
        );
        i += 1;
    }
    let total = match json_get(&v, "meta") {
        Some(m) => match json_get(m, "total") {
            Some(t) => match json_as_u64(t) {
                Some(n) => n,
                None => {
                    return None;
                },
            },
            None => {
                return None;
            },
        },
        None => {
            return None;
        },
    };
    Some(SearchResults { total, crates })
}

/// The formatted block of one search hit: its rank, name and version,
/// then description, download counts, and documentation link when known.
pub open spec fn crate_entry(i: int, c: CrateSummary) -> Seq<char> {
    dec_rep(i + 1) + ". **"@ + c.name@ + "** v"@ + c.max_version@ + "\n"@ + (match c.description {
        Some(d) => "   "@ + d@ + "\n"@,
        None => Seq::<char>::empty(),
    }) + "   Downloads: "@ + grouped(dec_rep(c.downloads as int)) + " ("@ + grouped(
        dec_rep(c.recent_downloads as int),
    ) + " recent)\n"@ + (match c.documentation {
        Some(d) => "   Docs: "@ + d@ + "\n"@,
        None => Seq::<char>::empty(),
    }) + "\n"@
}

/// The formatted blocks of the first `k` search hits, in order.
pub open spec fn entries_upto(cs: Seq<CrateSummary>, k: int) -> Seq<char>
    decreases k,
{
    if k <= 0 {
        Seq::empty()
    } else {
        entries_upto(cs, k - 1) + crate_entry(k - 1, cs[k - 1])
    }
}

/// The full text of a search result: a no-match sentence when the page is
/// empty, else a header naming the total and the page size, followed by
/// one block per hit.
pub open spec fn search_results_text(query: Seq<char>, total: int, cs: Seq<CrateSummary>) -> Seq<
    char,
> {
    if cs.len() == 0 {
        "No crates found matching \""@ + query + "\""@
    } else {
        "Found "@ + dec_rep(total) + " crates matching \""@ + query + "\" (showing top "@
            + dec_rep(cs.len() as int) + "):\n\n"@ + entries_upto(cs, cs.len() as int)
    }
}

#[verifier::rlimit(100)]
fn append_crate_entry(s: &mut String, rank_base: u64, c: &CrateSummary)
    requires
        rank_base < u64::MAX,
    ensures
        final(s)@ == old(s)@ + crate_entry(rank_base as int, *c),
{
    let rank = u64_to_dec(rank_base + 1);
    s.append(rank.as_str());
    s.append(". **");
    s.append(c.name.as_str());
    s.append("** v");
    s.append(c.max_version.as_str());
    s.append("\n");
    match &c.description {
        Some(d) => {
            s.append("   ");
            s.append(d.as_str());
            s.append("\n");
        },
        None => {},
    }
    s.append("   Downloads: ");
    let dl = format_number(c.downloads);
    s.append(dl.as_str());
    s.append(" (");
    let rdl = format_number(c.recent_downloads);
    s.append(rdl.as_str());
    s.append(" recent)\n");
    match &c.documentation {
        Some(d) => {
            s.append("   Docs: ");
            s.append(d.as_str());
            s.append("\n");
        },
        None => {},
    }
    s.append("\n");
    proof {
        assert(s@ =~= old(s)@ + crate_entry(rank_base as int, *c));
    }
}

/// Format a decoded search response for display.
#[verifier::rlimit(100)]
pub fn format_search_results(query: &str, results: &SearchResults) -> (r: String)
    ensures
        r@ == search_results_text(query@, results.total as int, results.crates@),
{
    if results.crates.len() == 0 {
        let mut s = String::from_str("No crates found matching \"");
        s.append(query);
        s.append("\"");
        proof {
            assert(s@ =~= search_results_text(query@, results.total as int, results.crates@));
        }
        return s;
    }
    let mut s = String::from_str("Found ");
    let t = u64_to_dec(results.total);
    s.append(t.as_str());
    s.append(" crates matching \"");
    s.append(query);
    s.append("\" (showing top ");
    let shown = u64_to_dec(results.crates.len() as u64);
    s.append(shown.as_str());
    s.append("):\n\n");
    let ghost header = s@;
    let mut i: usize = 0;
    while i < results.crates.len()
        invariant
            0 <= i <= results.crates@.len(),
            s@ == header + entries_upto(results.crates@, i as int),
        decreases results.crates@.len() - i,
    {
        let c = &results.crates[i];
        append_crate_entry(&mut s, i as u64, c);
        proof {
            assert(s@ =~= header + entries_upto(results.crates@, i as int + 1));
        }
        i += 1;
    }
    proof {
        assert(s@ =~= search_results_text(query@, results.total as int, results.crates@));
    }
    s
}

/// The names of the returned crates, for suggesting alternatives.
pub fn crate_names(results: &SearchResults) -> (r: Vec<String>)
    ensures
        r.deep_view() == results.crates@.map_values(|c: CrateSummary| c.name@),
{
    let mut r: Vec<String> = Vec::new();
    let mut i: usize = 0;
    while i < results.crates.len()
        invariant
            0 <= i <= results.crates@.len(),
            r@.len() == i,
            forall|j: int| 0 <= j < i ==> (#[trigger] r@[j])@ == results.crates@[j].name@,
        decreases results.crates@.len() - i,
    {
        r.push(results.crates[i].name.clone());
        i += 1;
    }
    proof {
        let target = results.crates@.map_values(|c: CrateSummary| c.name@);
        assert forall|j: int| 0 <= j < results.crates@.len() implies r.deep_view()[j] == target[j] by {
            assert(r.deep_view()[j] == r@[j]@);
        }
        assert(r.deep_view() =~= target);
    }
    r
}

} // verus!
