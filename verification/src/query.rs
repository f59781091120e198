//! Query strings: the parameters of a request, as `name=value` pairs in the
//! `application/x-www-form-urlencoded` syntax.

use vstd::prelude::*;
use crate::text::text_of;

verus! {

/// The pairs that `url::form_urlencoded::parse` yields for the UTF-8 bytes of
/// `input`, in the order in which it yields them.
pub uninterp spec fn form_pairs(input: Seq<char>) -> Seq<(Seq<char>, Seq<char>)>;

/// The names and values of a sequence of pairs, as texts.
pub open spec fn pair_models(pairs: Seq<(String, String)>) -> Seq<(Seq<char>, Seq<char>)> {
    pairs.map_values(|p: (String, String)| (p.0@, p.1@))
}

/// Calls `url::form_urlencoded::parse` on the bytes of `query` and collects
/// what its iterator yields, each pair as two owned strings. The parser splits
/// at `&` and at the first `=` of each piece, skips empty pieces, reads `+` as
/// a space and decodes percent escapes; the contract only names that result.
#[verifier::external_body]
fn parse_pairs(query: &str) -> (pairs: Vec<(String, String)>)
    ensures
        pair_models(pairs@) == form_pairs(query@),
{
    url::form_urlencoded::parse(query.as_bytes()).into_owned().collect()
}

/// The value of the first pair whose name is `name`.
pub open spec fn first_value(pairs: Seq<(Seq<char>, Seq<char>)>, name: Seq<char>) -> Option<
    Seq<char>,
>
    decreases pairs.len(),
{
    if pairs.len() == 0 {
        None
    } else if pairs[0].0 == name {
        Some(pairs[0].1)
    } else {
        first_value(pairs.drop_first(), name)
    }
}

/// Looks `name` up in parsed pairs: the value of the first pair of that name.
pub fn lookup(pairs: &Vec<(String, String)>, name: &str) -> (r: Option<String>)
    ensures
        text_of(r) == first_value(pair_models(pairs@), name@),
{
    let ghost all = pair_models(pairs@);
    let n = pairs.len();
    let mut i: usize = 0;
    assert(all.skip(0) =~= all);
    while i < n
        invariant
            n == pairs@.len(),
            i <= n,
            all == pair_models(pairs@),
            first_value(all, name@) == first_value(all.skip(i as int), name@),
        decreases n - i,
    {
        assert(all.skip(i as int).drop_first() =~= all.skip(i + 1));
        if str::eq(pairs[i].0.as_str(), name) {
            return Some(pairs[i].1.clone());
        }
        i = i + 1;
    }
    None
}

/// The value of the parameter `param_name` in the query string `query`: that
/// of its first occurrence, decoded. `None` where the query has no such
/// parameter.
pub fn extract_query_param(query: &str, param_name: &str) -> (r: Option<String>)
    ensures
        text_of(r) == first_value(form_pairs(query@), param_name@),
{
    let pairs = parse_pairs(query);
    lookup(&pairs, param_name)
}

/// The parameter `param_name` of a request whose query string, if it has one,
/// is `query`.
pub open spec fn param_of(query: Option<Seq<char>>, param_name: Seq<char>) -> Option<Seq<char>> {
    match query {
        Some(q) => first_value(form_pairs(q), param_name),
        None => None,
    }
}

/// The value of the parameter `param_name` of a request; `None` where the
/// request has no query string or the query no such parameter.
pub fn param(query: &Option<String>, param_name: &str) -> (r: Option<String>)
    ensures
        text_of(r) == param_of(text_of(*query), param_name@),
{
    match query {
        Some(q) => extract_query_param(q.as_str(), param_name),
        None => None,
    }
}

} // verus!
