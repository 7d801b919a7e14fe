//! The pure part of document retrieval: building the docs.rs URL for a
//! crate's documentation export. The network fetch itself lives outside
//! the library.

use vstd::prelude::*;
use vstd::string::*;

use crate::text::{dec_rep, u64_to_dec};

verus! {

/// The docs.rs JSON endpoint for a crate: name, then the version (or
/// `latest`), then the target when given, then the JSON suffix, then the
/// format version when given.
pub open spec fn json_url(
    name: Seq<char>,
    version: Option<Seq<char>>,
    target: Option<Seq<char>>,
    format_version: Option<u32>,
) -> Seq<char> {
    "https://docs.rs/crate/"@ + name + "/"@ + (match version {
        Some(v) => v,
        None => "latest"@,
    }) + (match target {
        Some(t) => "/"@ + t,
        None => Seq::<char>::empty(),
    }) + "/json"@ + (match format_version {
        Some(n) => "/"@ + dec_rep(n as int),
        None => Seq::<char>::empty(),
    })
}

/// Build the docs.rs JSON URL for a crate.
pub fn build_json_url(
    crate_name: &str,
    version: Option<&str>,
    target: Option<&str>,
    format_version: Option<u32>,
) -> (r: String)
    ensures
        r@ == json_url(
            crate_name@,
            match version {
                Some(v) => Some(v@),
                None => None,
            },
            match target {
                Some(t) => Some(t@),
                None => None,
            },
            format_version,
        ),
{
    let mut url = String::from_str("https://docs.rs/crate/");
    url.append(crate_name);
    url.append("/");
    match version {
        Some(v) => url.append(v),
        None => url.append("latest"),
    }
    match target {
        Some(t) => {
            url.append("/");
            url.append(t);
        },
        None => {},
    }
    url.append("/json");
    match format_version {
        Some(n) => {
            url.append("/");
            let d = u64_to_dec(n as u64);
            url.append(d.as_str());
        },
        None => {},
    }
    proof {
        assert(url@ =~= json_url(
            crate_name@,
            match version {
                Some(v) => Some(v@),
                None => None,
            },
            match target {
                Some(t) => Some(t@),
                None => None,
            },
            format_version,
        ));
    }
    url
}

} // verus!
