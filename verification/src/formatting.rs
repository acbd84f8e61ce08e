//! Rendering of search matches into deterministic operator-facing text.

use vstd::prelude::*;

use crate::client::{SearchResponse, SearchResponseView, SearchResult, SearchResultView};
use crate::text::{
    i32_to_decimal, join_strings, spec_digit_char, spec_int_chars, spec_join, spec_nat_chars,
    u64_to_decimal,
};

verus! {

/// A trust score held in tenths, rendered with one decimal place: the digits
/// of the whole part, a point, and the single tenths digit.
pub open spec fn spec_trust_chars(t: int) -> Seq<char>
    recommends
        t >= 0,
{
    spec_nat_chars(t / 10) + seq!['.', spec_digit_char(t % 10)]
}

/// One search match rendered as a block: title, identifier and description
/// always, in that order; then the snippet count unless absent or the -1
/// sentinel; then the trust score unless absent or negative, with one
/// decimal place; then the versions unless absent or empty, comma-joined.
pub open spec fn spec_format_result(m: SearchResultView) -> Seq<char> {
    "- Title: "@ + m.title + "\n- Context7-compatible library ID: "@ + m.id + "\n- Description: "@
        + m.description + (match m.total_snippets {
        Some(n) => if n != -1 {
            "\n- Code Snippets: "@ + spec_int_chars(n as int)
        } else {
            Seq::<char>::empty()
        },
        None => Seq::<char>::empty(),
    }) + (match m.trust_score {
        Some(t) => if t >= 0 {
            "\n- Trust Score: "@ + spec_trust_chars(t as int)
        } else {
            Seq::<char>::empty()
        },
        None => Seq::<char>::empty(),
    }) + (match m.versions {
        Some(v) => if v.len() > 0 {
            "\n- Versions: "@ + spec_join(v, ", "@)
        } else {
            Seq::<char>::empty()
        },
        None => Seq::<char>::empty(),
    })
}

/// The rendering of a whole result list: a fixed sentence when it is empty,
/// otherwise the blocks in input order joined by a separator line.
pub open spec fn spec_format_search_results(r: SearchResponseView) -> Seq<char> {
    if r.results.len() == 0 {
        "No documentation libraries found matching your query."@
    } else {
        spec_join(
            r.results.map_values(|m: SearchResultView| spec_format_result(m)),
            "\n----------\n"@,
        )
    }
}

/// Renders a trust score held in tenths with one decimal place.
pub fn trust_to_decimal(t: i64) -> (r: String)
    requires
        t >= 0,
    ensures
        r@ == spec_trust_chars(t as int),
{
    let mut s = u64_to_decimal((t / 10) as u64);
    s.append(".");
    s.append(u64_to_decimal((t % 10) as u64).as_str());
    proof {
        reveal_strlit(".");
        assert(spec_nat_chars((t % 10) as int) =~= seq![spec_digit_char((t % 10) as int)]);
        assert(s@ =~= spec_trust_chars(t as int));
    }
    s
}

/// Renders one search match as its block of lines.
pub fn format_result(result: &SearchResult) -> (r: String)
    ensures
        r@ == spec_format_result(result@),
{
    let mut s = "- Title: ".to_owned();
    s.append(result.title.as_str());
    s.append("\n- Context7-compatible library ID: ");
    s.append(result.id.as_str());
    s.append("\n- Description: ");
    s.append(result.description.as_str());

    match result.total_snippets {
        Some(n) => {
            if n != -1 {
                s.append("\n- Code Snippets: ");
                s.append(i32_to_decimal(n).as_str());
            }
        },
        None => {},
    }

    match result.trust_score {
        Some(t) => {
            if t >= 0 {
                s.append("\n- Trust Score: ");
                s.append(trust_to_decimal(t).as_str());
            }
        },
        None => {},
    }

    match &result.versions {
        Some(versions) => {
            if versions.len() > 0 {
                s.append("\n- Versions: ");
                s.append(join_strings(versions, ", ").as_str());
            }
        },
        None => {},
    }

    proof {
        assert(s@ =~= spec_format_result(result@));
    }
    s
}

/// Renders a result list as the operator-facing text described by
/// [`spec_format_search_results`].
pub fn format_search_results(response: &SearchResponse) -> (r: String)
    ensures
        r@ == spec_format_search_results(response@),
{
    if response.results.len() == 0 {
        return "No documentation libraries found matching your query.".to_owned();
    }
    let ghost blocks = response@.results.map_values(|m: SearchResultView| spec_format_result(m));
    let mut res = String::new();
    for i in 0..response.results.len()
        invariant
            blocks == response@.results.map_values(|m: SearchResultView| spec_format_result(m)),
            blocks.len() == response.results@.len(),
            res@ == spec_join(blocks.take(i as int), "\n----------\n"@),
    {
        if i != 0 {
            res.append("\n----------\n");
        }
        let block = format_result(&response.results[i]);
        res.append(block.as_str());
        proof {
            if i == 0 {
                assert(blocks.take(1) =~= seq![blocks[0]]);
            } else {
                assert(blocks.take(i as int + 1).drop_last() =~= blocks.take(i as int));
            }
        }
    }
    proof {
        assert(blocks.take(response.results@.len() as int) =~= blocks);
    }
    res
}

/// With no matches, the rendering is exactly the fixed "none found"
/// sentence, whatever else the outcome holds.
pub proof fn lemma_format_empty_results(r: SearchResponseView)
    requires
        r.results.len() == 0,
    ensures
        spec_format_search_results(r) == "No documentation libraries found matching your query."@,
{
}

/// A snippet count of -1 is a sentinel: the rendered block is exactly the
/// block of the same match without a snippet count, so the sentinel never
/// appears in the output.
pub proof fn lemma_snippet_sentinel_suppressed(m: SearchResultView)
    requires
        m.total_snippets == Some(-1i32),
    ensures
        spec_format_result(m) == spec_format_result(
            SearchResultView { total_snippets: None, ..m },
        ),
{
}

/// A negative trust score is a sentinel: the rendered block is exactly the
/// block of the same match without a trust score, so the sentinel never
/// appears in the output.
pub proof fn lemma_trust_sentinel_suppressed(m: SearchResultView)
    requires
        m.trust_score matches Some(t) && t < 0,
    ensures
        spec_format_result(m) == spec_format_result(SearchResultView { trust_score: None, ..m }),
{
}

} // verus!
