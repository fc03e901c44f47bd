//! Shapes of the remote package registry's responses, and the query URLs
//! the tool sends to it.
//!
//! The network call itself is not made here: the embedding program issues
//! the request for a URL built by this module and hands the decoded
//! response records back to the reducer as plain values.

use vstd::prelude::*;

verus! {

/// A search hit: a candidate package, not yet a dependency of the document.
#[derive(Clone, Debug, PartialEq)]
pub struct SearchResponseDoc {
    pub id: String,
    pub g: String,
    pub a: String,
    pub latest_version: String,
    pub timestamp: u64,
}

/// Body of a free-text search response: a bounded window of hits.
#[derive(Clone, Debug, PartialEq)]
pub struct SearchResponse {
    pub num_found: u32,
    pub start: u32,
    pub docs: Vec<SearchResponseDoc>,
}

/// One published version of a package.
#[derive(Clone, Debug, PartialEq)]
pub struct GetVersionsResponseDoc {
    pub id: String,
    pub g: String,
    pub a: String,
    pub v: String,
    pub timestamp: u64,
}

/// Body of a version-listing response.
#[derive(Clone, Debug, PartialEq)]
pub struct GetVersionsResponse {
    pub num_found: u32,
    pub start: u32,
    pub docs: Vec<GetVersionsResponseDoc>,
}

/// The registry wraps every response body in one `response` object.
#[derive(Clone, Debug, PartialEq)]
pub struct MavenResponse<T> {
    pub response: T,
}

/// The decimal digit standing for `d`.
pub open spec fn spec_digit(d: int) -> char
    recommends
        0 <= d < 10,
{
    if d == 0 {
        '0'
    } else if d == 1 {
        '1'
    } else if d == 2 {
        '2'
    } else if d == 3 {
        '3'
    } else if d == 4 {
        '4'
    } else if d == 5 {
        '5'
    } else if d == 6 {
        '6'
    } else if d == 7 {
        '7'
    } else if d == 8 {
        '8'
    } else {
        '9'
    }
}

/// The decimal digits of `n`, most significant first.
pub open spec fn spec_decimal(n: int) -> Seq<char>
    recommends
        n >= 0,
    decreases n,
{
    if n < 10 {
        seq![spec_digit(n)]
    } else {
        spec_decimal(n / 10).push(spec_digit(n % 10))
    }
}

/// One decimal digit as a string slice.
fn digit_str(d: u32) -> (r: &'static str)
    requires
        d < 10,
    ensures
        r@ == seq![spec_digit(d as int)],
{
    proof {
        reveal_strlit("0");
        reveal_strlit("1");
        reveal_strlit("2");
        reveal_strlit("3");
        reveal_strlit("4");
        reveal_strlit("5");
        reveal_strlit("6");
        reveal_strlit("7");
        reveal_strlit("8");
        reveal_strlit("9");
    }
    let r = match d {
        0 => "0",
        1 => "1",
        2 => "2",
        3 => "3",
        4 => "4",
        5 => "5",
        6 => "6",
        7 => "7",
        8 => "8",
        _ => "9",
    };
    proof {
        assert(r@ =~= seq![spec_digit(d as int)]);
    }
    r
}

/// Render `n` in decimal.
fn decimal_string(n: u32) -> (s: String)
    ensures
        s@ == spec_decimal(n as int),
    decreases n,
{
    if n < 10 {
        digit_str(n).to_owned()
    } else {
        let mut s = decimal_string(n / 10);
        s.append(digit_str(n % 10));
        proof {
            assert(s@ =~= spec_decimal(n as int));
        }
        s
    }
}

/// The remote package registry's query interface.
pub struct MavenRegistry {}

impl MavenRegistry {
    /// The query URL for a free-text search over the registry, bounded to
    /// `rows` result rows.
    pub fn api_search_preview_url(query: String, rows: u32) -> (url: String)
        ensures
            url@ == "https://search.maven.org/solrsearch/select?q="@ + query@ + "&rows="@
                + spec_decimal(rows as int) + "&wt=json"@,
    {
        let mut url = String::new();
        url.append("https://search.maven.org/solrsearch/select?q=");
        url.append(query.as_str());
        url.append("&rows=");
        let rows_str = decimal_string(rows);
        url.append(rows_str.as_str());
        url.append("&wt=json");
        url
    }

    /// The query URL listing the published versions of one package,
    /// bounded to `rows` result rows.
    pub fn api_versions_url(group_id: String, artifact_id: String, rows: u32) -> (url: String)
        ensures
            url@ == "https://search.maven.org/solrsearch/select?q=g:"@ + group_id@ + "+AND+a:"@
                + artifact_id@ + "&core=gav&rows="@ + spec_decimal(rows as int) + "&wt=json"@,
    {
        let mut url = String::new();
        url.append("https://search.maven.org/solrsearch/select?q=g:");
        url.append(group_id.as_str());
        url.append("+AND+a:");
        url.append(artifact_id.as_str());
        url.append("&core=gav&rows=");
        let rows_str = decimal_string(rows);
        url.append(rows_str.as_str());
        url.append("&wt=json");
        url
    }
}

} // verus!
