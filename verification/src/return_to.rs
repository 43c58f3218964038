//! Links that carry the chat to come back to, and reading them back.
use vstd::prelude::*;

use crate::routing::{
    decode_component, decode_component_spec, encode_component, encode_component_spec,
    lemma_decode_encode_component, lemma_encode_component_chars, route_from_pathname, route_spec,
    AppRoute, RouteView,
};
use crate::text::{
    chars_eq, chars_of, concat_str, index_of, index_of_from, lemma_index_of, lemma_index_of_unique,
    string_from_chars,
    sub_chars,
};

verus! {

/// `s` without the `?` characters it starts with.
pub open spec fn trim_leading_question(s: Seq<char>) -> Seq<char>
    decreases s.len(),
{
    if s.len() > 0 && s[0] == '?' {
        trim_leading_question(s.drop_first())
    } else {
        s
    }
}

/// The decoded value of a `key=value` pair whose key is `name`.
pub open spec fn pair_value(pair: Seq<char>, name: Seq<char>) -> Option<Seq<char>> {
    let k = index_of(pair, '=');
    if pair.len() == 0 || k >= pair.len() {
        None
    } else if pair.take(k) == name {
        decode_component_spec(pair.skip(k + 1))
    } else {
        None
    }
}

/// The first decodable value named `name` among the `&`-separated pairs of
/// `s`.
pub open spec fn lookup_pairs(s: Seq<char>, name: Seq<char>) -> Option<Seq<char>>
    decreases s.len(),
{
    let k = index_of(s, '&');
    let here = pair_value(s.take(k), name);
    if here is Some {
        here
    } else if 0 <= k < s.len() {
        proof {
            lemma_index_of(s, '&');
        }
        lookup_pairs(s.skip(k + 1), name)
    } else {
        None
    }
}

/// The value of the query parameter `name` in a query string.
pub open spec fn query_param_spec(search: Seq<char>, name: Seq<char>) -> Option<Seq<char>> {
    lookup_pairs(trim_leading_question(search), name)
}

/// The session path that a query string asks to return to: the
/// `return_to` parameter, when it is the path of a session's page.
pub open spec fn session_return_to_spec(search: Seq<char>) -> Option<Seq<char>> {
    match query_param_spec(search, "return_to"@) {
        Some(path) => if route_spec(path) is Session {
            Some(path)
        } else {
            None
        },
        None => None,
    }
}

/// `base_path` with a `return_to` parameter holding the encoded
/// `return_to_path`.
pub fn path_with_return_to(base_path: &str, return_to_path: &str) -> (path: String)
    ensures
        path@ == base_path@ + "?return_to="@ + encode_component_spec(return_to_path@),
{
    let encoded = encode_component(return_to_path);
    let with_key = concat_str(base_path, "?return_to=");
    let path = concat_str(with_key.as_str(), encoded.as_str());
    path
}

/// The decoded value of one `key=value` pair when its key is `name`.
fn pair_value_of(pair: &[char], name: &[char]) -> (r: Option<String>)
    ensures
        match r {
            Some(v) => pair_value(pair@, name@) == Some(v@),
            None => pair_value(pair@, name@) is None,
        },
{
    if pair.len() == 0 {
        return None;
    }
    let k = index_of_from(pair, '=', 0);
    assert(pair@.skip(0) =~= pair@);
    if k >= pair.len() {
        return None;
    }
    let key = sub_chars(pair, 0, k);
    assert(key@ =~= pair@.take(k as int));
    if !chars_eq(key.as_slice(), name) {
        return None;
    }
    let value = sub_chars(pair, k + 1, pair.len());
    assert(value@ =~= pair@.skip(k + 1));
    let value_text = string_from_chars(value.as_slice());
    decode_component(value_text.as_str())
}

/// The value of the query parameter `name` in `search` (a leading `?` is
/// optional); pairs without `=` or whose value does not decode are skipped.
pub fn query_param(search: &str, name: &str) -> (r: Option<String>)
    ensures
        match r {
            Some(v) => query_param_spec(search@, name@) == Some(v@),
            None => query_param_spec(search@, name@) is None,
        },
{
    let s = chars_of(search);
    let name_chars = chars_of(name);
    let mut start: usize = 0;
    assert(s@.skip(0) =~= s@);
    while start < s.len() && s[start] == '?'
        invariant
            start <= s.len(),
            trim_leading_question(s@) == trim_leading_question(s@.skip(start as int)),
        decreases s.len() - start,
    {
        assert(s@.skip(start as int).drop_first() =~= s@.skip(start + 1));
        start = start + 1;
    }
    assert(trim_leading_question(s@.skip(start as int)) == s@.skip(start as int));
    let mut pos: usize = start;
    while pos <= s.len()
        invariant
            start <= pos <= s.len(),
            query_param_spec(search@, name@) == lookup_pairs(s@.skip(pos as int), name_chars@),
            s@ == search@,
            name_chars@ == name@,
        decreases s.len() - pos,
    {
        let ghost rest = s@.skip(pos as int);
        let k = index_of_from(s.as_slice(), '&', pos);
        proof {
            lemma_index_of(rest, '&');
        }
        let pair = sub_chars(s.as_slice(), pos, k);
        assert(pair@ =~= rest.take(k - pos));
        match pair_value_of(pair.as_slice(), name_chars.as_slice()) {
            Some(v) => {
                return Some(v);
            },
            None => {},
        }
        if k >= s.len() {
            return None;
        }
        assert(rest.skip(k - pos + 1) =~= s@.skip(k + 1));
        pos = k + 1;
    }
    None
}

/// The session path named by the `return_to` parameter of `search`, when it
/// is one.
pub fn session_return_to_path(search: &str) -> (r: Option<String>)
    ensures
        match r {
            Some(p) => session_return_to_spec(search@) == Some(p@),
            None => session_return_to_spec(search@) is None,
        },
{
    proof {
        reveal_strlit("return_to");
    }
    let name = "return_to";
    match query_param(search, name) {
        Some(path) => {
            let route = route_from_pathname(path.as_str());
            match route {
                AppRoute::Session(_) => Some(path),
                _ => None,
            }
        },
        None => None,
    }
}

/// The session path to return to, read from the query string of the page
/// the browser shows; without a browser window there is none.
pub fn session_return_to_path_from_search(search: Option<&str>) -> (r: Option<String>)
    ensures
        match search {
            Some(s) => match r {
                Some(p) => session_return_to_spec(s@) == Some(p@),
                None => session_return_to_spec(s@) is None,
            },
            None => r is None,
        },
{
    match search {
        Some(s) => session_return_to_path(s),
        None => None,
    }
}

/// The session path to return to where no browser window is at hand.
pub fn session_return_to_path_from_location() -> (r: Option<String>)
    ensures
        r is None,
{
    session_return_to_path_from_search(None)
}

/// A return-to link reads back as the path it carries exactly when that
/// path is a session's page: for every path `p`, the query string
/// `?return_to=` followed by the encoded `p` gives `Some(p)` if `p` routes to
/// a session and `None` otherwise.
pub proof fn lemma_return_to_round_trip(p: Seq<char>)
    ensures
        session_return_to_spec("?return_to="@ + encode_component_spec(p)) == (if route_spec(
            p,
        ) is Session {
            Some(p)
        } else {
            None
        }),
{
    reveal_strlit("?return_to=");
    reveal_strlit("return_to");
    reveal_strlit("return_to=");
    let e = encode_component_spec(p);
    lemma_encode_component_chars(p);
    lemma_decode_encode_component(p);
    let search = "?return_to="@ + e;
    let t = "return_to="@ + e;
    assert(search.drop_first() =~= t);
    assert(trim_leading_question(t) == t);
    assert(trim_leading_question(search) == t);
    assert forall|j: int| 0 <= j < t.len() implies t[j] != '&' by {
        if j >= 10 {
            assert(t[j] == e[j - 10]);
        }
    }
    lemma_index_of_unique(t, '&', t.len() as int);
    assert(t.take(t.len() as int) =~= t);
    lemma_index_of_unique(t, '=', 9);
    assert(t.take(9) =~= "return_to"@);
    assert(t.skip(10) =~= e);
    assert(pair_value(t, "return_to"@) == Some(p));
    assert(lookup_pairs(t, "return_to"@) == Some(p));
}

} // verus!
