//! The app's routes and the percent-encoding of path and query components.
use vstd::prelude::*;
use vstd::utf8::*;

use crate::text::{chars_eq, chars_of, concat_str, string_from_chars, strip_prefix_chars};

verus! {

/// A page of the app, as a path under `/app` selects it.
#[derive(Clone, Debug, PartialEq, Eq)]
pub enum AppRoute {
    Home,
    Register,
    SignIn,
    Accounts,
    Session(String),
    NotFound,
}

/// The abstract value of an [`AppRoute`]: a session route carries the
/// characters of its session id.
pub ghost enum RouteView {
    Home,
    Register,
    SignIn,
    Accounts,
    Session(Seq<char>),
    NotFound,
}

impl View for AppRoute {
    type V = RouteView;

    open spec fn view(&self) -> RouteView {
        match self {
            AppRoute::Home => RouteView::Home,
            AppRoute::Register => RouteView::Register,
            AppRoute::SignIn => RouteView::SignIn,
            AppRoute::Accounts => RouteView::Accounts,
            AppRoute::Session(id) => RouteView::Session(id@),
            AppRoute::NotFound => RouteView::NotFound,
        }
    }
}

/// Bytes that percent-encoding leaves as they are: ASCII letters and digits
/// and `-`, `.`, `_`, `~`.
pub open spec fn is_unreserved(b: u8) -> bool {
    ||| 48 <= b <= 57
    ||| 65 <= b <= 90
    ||| 97 <= b <= 122
    ||| b == 45
    ||| b == 46
    ||| b == 95
    ||| b == 126
}

/// The upper-case hexadecimal digit (as an ASCII byte) for `n < 16`.
pub open spec fn hex_digit_upper(n: u8) -> u8
    recommends
        n < 16,
{
    if n < 10 {
        (48 + n) as u8
    } else {
        (55 + n) as u8
    }
}

/// The encoding of one byte: the byte itself when unreserved, else `%` and
/// two upper-case hexadecimal digits.
pub open spec fn encode_byte(b: u8) -> Seq<u8> {
    if is_unreserved(b) {
        seq![b]
    } else {
        seq![37u8, hex_digit_upper(b / 16), hex_digit_upper(b % 16)]
    }
}

/// The percent-encoding of a byte sequence.
pub open spec fn percent_encode(bytes: Seq<u8>) -> Seq<u8>
    decreases bytes.len(),
{
    if bytes.len() == 0 {
        seq![]
    } else {
        encode_byte(bytes[0]) + percent_encode(bytes.drop_first())
    }
}

/// The characters whose codes are the given (ASCII) bytes.
pub open spec fn ascii_chars(bytes: Seq<u8>) -> Seq<char> {
    bytes.map_values(|b: u8| b as char)
}

/// The percent-encoding of the UTF-8 bytes of `s`.
pub open spec fn encode_component_spec(s: Seq<char>) -> Seq<char> {
    ascii_chars(percent_encode(encode_utf8(s)))
}

/// The value of a hexadecimal digit, either case.
pub open spec fn hex_value_spec(b: u8) -> Option<u8> {
    if 48 <= b <= 57 {
        Some((b - 48) as u8)
    } else if 97 <= b <= 102 {
        Some((b - 87) as u8)
    } else if 65 <= b <= 70 {
        Some((b - 55) as u8)
    } else {
        None
    }
}

/// Percent-decoding of a byte sequence: `%` must be followed by two
/// hexadecimal digits, any other byte stands for itself.
pub open spec fn percent_decode(bytes: Seq<u8>) -> Option<Seq<u8>>
    decreases bytes.len(),
{
    if bytes.len() == 0 {
        Some(seq![])
    } else if bytes[0] != 37 {
        match percent_decode(bytes.drop_first()) {
            Some(rest) => Some(seq![bytes[0]] + rest),
            None => None,
        }
    } else if bytes.len() < 3 {
        None
    } else {
        match (hex_value_spec(bytes[1]), hex_value_spec(bytes[2])) {
            (Some(high), Some(low)) => match percent_decode(bytes.skip(3)) {
                Some(rest) => Some(seq![(high * 16 + low) as u8] + rest),
                None => None,
            },
            _ => None,
        }
    }
}

/// Decoding of a component: percent-decoding of its UTF-8 bytes, which must
/// then be valid UTF-8.
pub open spec fn decode_component_spec(s: Seq<char>) -> Option<Seq<char>> {
    match percent_decode(encode_utf8(s)) {
        Some(d) => if valid_utf8(d) {
            Some(decode_utf8(d))
        } else {
            None
        },
        None => None,
    }
}

/// The route that a path selects.
pub open spec fn route_spec(p: Seq<char>) -> RouteView {
    if p == "/app"@ || p == "/app/"@ {
        RouteView::Home
    } else if p == "/app/register"@ || p == "/app/register/"@ {
        RouteView::Register
    } else if p == "/app/sign-in"@ || p == "/app/sign-in/"@ {
        RouteView::SignIn
    } else if p == "/app/accounts"@ || p == "/app/accounts/"@ {
        RouteView::Accounts
    } else if "/app/sessions/"@.len() < p.len() && p.take("/app/sessions/"@.len() as int)
        == "/app/sessions/"@ && decode_component_spec(p.skip("/app/sessions/"@.len() as int)) is Some {
        RouteView::Session(decode_component_spec(p.skip("/app/sessions/"@.len() as int)).unwrap())
    } else {
        RouteView::NotFound
    }
}

/// `String::from_utf8`: the string whose UTF-8 encoding is `bytes`, when
/// they are valid UTF-8.
#[verifier::external_body]
fn string_from_utf8(bytes: Vec<u8>) -> (res: Option<String>)
    ensures
        res is Some <==> valid_utf8(bytes@),
        res matches Some(s) ==> s@ == decode_utf8(bytes@),
{
    match String::from_utf8(bytes) {
        Ok(s) => Some(s),
        Err(_) => None,
    }
}

/// The upper-case hexadecimal digit for `n < 16`.
fn hex_digit(n: u8) -> (c: u8)
    requires
        n < 16,
    ensures
        c == hex_digit_upper(n),
{
    if n < 10 {
        48 + n
    } else {
        55 + n
    }
}

/// Whether `byte` is left as it is by percent-encoding.
fn is_unreserved_byte(byte: u8) -> (r: bool)
    ensures
        r == is_unreserved(byte),
{
    (48 <= byte && byte <= 57) || (65 <= byte && byte <= 90) || (97 <= byte && byte <= 122) || byte
        == 45 || byte == 46 || byte == 95 || byte == 126
}

/// Percent-encodes the UTF-8 bytes of `value`, keeping ASCII letters, digits
/// and `-._~`.
pub fn encode_component(value: &str) -> (encoded: String)
    ensures
        encoded@ == encode_component_spec(value@),
{
    let bytes = value.as_bytes();
    let ghost bs = bytes@;
    let mut out: Vec<char> = Vec::new();
    let mut i: usize = 0;
    assert(bs.skip(0) =~= bs);
    while i < bytes.len()
        invariant
            bs == bytes@,
            i <= bytes.len(),
            ascii_chars(percent_encode(bs)) == out@ + ascii_chars(percent_encode(bs.skip(i as int))),
        decreases bytes.len() - i,
    {
        let byte = bytes[i];
        let ghost before = out@;
        if is_unreserved_byte(byte) {
            out.push(byte as char);
        } else {
            out.push('%');
            out.push(hex_digit(byte / 16) as char);
            out.push(hex_digit(byte % 16) as char);
        }
        proof {
            let tail = bs.skip(i as int);
            assert(tail.drop_first() =~= bs.skip(i + 1));
            assert(percent_encode(tail) == encode_byte(byte) + percent_encode(bs.skip(i + 1)));
            assert(ascii_chars(encode_byte(byte) + percent_encode(bs.skip(i + 1))) =~= ascii_chars(
                encode_byte(byte),
            ) + ascii_chars(percent_encode(bs.skip(i + 1))));
            assert(out@ =~= before + ascii_chars(encode_byte(byte)));
        }
        i = i + 1;
    }
    assert(bs.skip(i as int) =~= Seq::<u8>::empty());
    assert(out@ =~= ascii_chars(percent_encode(bs)));
    string_from_chars(out.as_slice())
}

/// The value of a hexadecimal digit (either case).
pub fn hex_value(byte: u8) -> (r: Option<u8>)
    ensures
        r == hex_value_spec(byte),
{
    if 48 <= byte && byte <= 57 {
        Some(byte - 48)
    } else if 97 <= byte && byte <= 102 {
        Some(byte - 87)
    } else if 65 <= byte && byte <= 70 {
        Some(byte - 55)
    } else {
        None
    }
}

/// Percent-decodes `value`; `None` when a `%` is not followed by two
/// hexadecimal digits or when the decoded bytes are not UTF-8.
pub fn decode_component(value: &str) -> (res: Option<String>)
    ensures
        match res {
            Some(s) => decode_component_spec(value@) == Some(s@),
            None => decode_component_spec(value@) is None,
        },
{
    let bytes = value.as_bytes();
    let ghost bs = bytes@;
    let mut decoded: Vec<u8> = Vec::new();
    let mut index: usize = 0;
    assert(bs.skip(0) =~= bs);
    while index < bytes.len()
        invariant
            bs == bytes@,
            bs == encode_utf8(value@),
            index <= bytes.len(),
            percent_decode(bs) == match percent_decode(bs.skip(index as int)) {
                Some(rest) => Some(decoded@ + rest),
                None => None,
            },
        decreases bytes.len() - index,
    {
        let tail = Ghost(bs.skip(index as int));
        if bytes[index] != 37 {
            proof {
                assert(tail@.drop_first() =~= bs.skip(index + 1));
                match percent_decode(bs.skip(index + 1)) {
                    Some(rest) => {
                        assert(decoded@.push(bytes@[index as int]) + rest =~= decoded@ + (seq![
                            bytes@[index as int],
                        ] + rest));
                    },
                    None => {},
                }
            }
            decoded.push(bytes[index]);
            index = index + 1;
            continue ;
        }
        if bytes.len() - index < 3 {
            return None;
        }
        let high = match hex_value(bytes[index + 1]) {
            Some(h) => h,
            None => {
                return None;
            },
        };
        let low = match hex_value(bytes[index + 2]) {
            Some(l) => l,
            None => {
                return None;
            },
        };
        let byte = high * 16 + low;
        proof {
            assert(tail@.skip(3) =~= bs.skip(index + 3));
            match percent_decode(bs.skip(index + 3)) {
                Some(rest) => {
                    assert(decoded@.push(byte) + rest =~= decoded@ + (seq![byte] + rest));
                },
                None => {},
            }
        }
        decoded.push(byte);
        index = index + 3;
    }
    assert(bs.skip(index as int) =~= Seq::<u8>::empty());
    assert(decoded@ + Seq::<u8>::empty() =~= decoded@);
    string_from_utf8(decoded)
}

/// The route that `pathname` selects.
pub fn route_from_pathname(pathname: &str) -> (route: AppRoute)
    ensures
        route@ == route_spec(pathname@),
{
    let p = chars_of(pathname);
    let home = chars_of("/app");
    let home_slash = chars_of("/app/");
    let register = chars_of("/app/register");
    let register_slash = chars_of("/app/register/");
    let sign_in = chars_of("/app/sign-in");
    let sign_in_slash = chars_of("/app/sign-in/");
    let accounts = chars_of("/app/accounts");
    let accounts_slash = chars_of("/app/accounts/");
    if chars_eq(p.as_slice(), home.as_slice()) || chars_eq(p.as_slice(), home_slash.as_slice()) {
        return AppRoute::Home;
    }
    if chars_eq(p.as_slice(), register.as_slice()) || chars_eq(
        p.as_slice(),
        register_slash.as_slice(),
    ) {
        return AppRoute::Register;
    }
    if chars_eq(p.as_slice(), sign_in.as_slice()) || chars_eq(p.as_slice(), sign_in_slash.as_slice()) {
        return AppRoute::SignIn;
    }
    if chars_eq(p.as_slice(), accounts.as_slice()) || chars_eq(
        p.as_slice(),
        accounts_slash.as_slice(),
    ) {
        return AppRoute::Accounts;
    }
    let sessions = chars_of("/app/sessions/");
    match strip_prefix_chars(p.as_slice(), sessions.as_slice()) {
        Some(rest) => {
            if rest.len() == 0 {
                return AppRoute::NotFound;
            }
            let id = string_from_chars(rest.as_slice());
            match decode_component(id.as_str()) {
                Some(decoded) => AppRoute::Session(decoded),
                None => AppRoute::NotFound,
            }
        },
        None => AppRoute::NotFound,
    }
}

/// The route of the page the browser shows, given its path; without a
/// browser window there is no path, and the route is `NotFound`.
pub fn current_route_from(pathname: Option<&str>) -> (route: AppRoute)
    ensures
        match pathname {
            Some(p) => route@ == route_spec(p@),
            None => route@ == RouteView::NotFound,
        },
{
    match pathname {
        Some(p) => route_from_pathname(p),
        None => AppRoute::NotFound,
    }
}

/// The route of the current page where no browser window is at hand.
pub fn current_route() -> (route: AppRoute)
    ensures
        route@ == RouteView::NotFound,
{
    current_route_from(None)
}

/// The path of the chat page of a session.
pub fn app_session_path(session_id: &str) -> (path: String)
    ensures
        path@ == "/app/sessions/"@ + encode_component_spec(session_id@),
{
    let encoded = encode_component(session_id);
    concat_str("/app/sessions/", encoded.as_str())
}

/// Every byte of a percent-encoding is unreserved or `%`.
proof fn lemma_percent_encode_safe(bytes: Seq<u8>)
    ensures
        forall|i: int|
            0 <= i < percent_encode(bytes).len() ==> is_unreserved(#[trigger] percent_encode(bytes)[i])
                || percent_encode(bytes)[i] == 37,
    decreases bytes.len(),
{
    if bytes.len() > 0 {
        lemma_percent_encode_safe(bytes.drop_first());
        let head = encode_byte(bytes[0]);
        let tail = percent_encode(bytes.drop_first());
        assert forall|i: int| 0 <= i < percent_encode(bytes).len() implies is_unreserved(
            #[trigger] percent_encode(bytes)[i],
        ) || percent_encode(bytes)[i] == 37 by {
            if i < head.len() {
                assert(percent_encode(bytes)[i] == head[i]);
            } else {
                assert(percent_encode(bytes)[i] == tail[i - head.len()]);
            }
        }
    }
}

/// Every character of an encoded component is an ASCII letter or digit or
/// one of `-._~%`; in particular none of `?`, `&`, `=`, `/`.
pub proof fn lemma_encode_component_chars(s: Seq<char>)
    ensures
        forall|i: int|
            0 <= i < encode_component_spec(s).len() ==> is_unreserved(
                #[trigger] encode_component_spec(s)[i] as u8,
            ) || encode_component_spec(s)[i] == '%',
        forall|i: int|
            0 <= i < encode_component_spec(s).len() ==> #[trigger] encode_component_spec(s)[i] != '?'
                && encode_component_spec(s)[i] != '&' && encode_component_spec(s)[i] != '='
                && encode_component_spec(s)[i] != '/',
{
    let bytes = percent_encode(encode_utf8(s));
    lemma_percent_encode_safe(encode_utf8(s));
    assert forall|i: int| 0 <= i < encode_component_spec(s).len() implies is_unreserved(
        #[trigger] encode_component_spec(s)[i] as u8,
    ) || encode_component_spec(s)[i] == '%' by {
        assert(encode_component_spec(s)[i] == bytes[i] as char);
    }
}

/// Percent-decoding undoes percent-encoding.
proof fn lemma_percent_decode_encode(bytes: Seq<u8>)
    ensures
        percent_decode(percent_encode(bytes)) == Some(bytes),
    decreases bytes.len(),
{
    if bytes.len() == 0 {
        assert(percent_encode(bytes) =~= Seq::<u8>::empty());
    } else {
        let b = bytes[0];
        let rest = bytes.drop_first();
        lemma_percent_decode_encode(rest);
        let enc = percent_encode(bytes);
        assert(enc == encode_byte(b) + percent_encode(rest));
        if is_unreserved(b) {
            assert(enc.drop_first() =~= percent_encode(rest));
            assert(seq![b] + rest =~= bytes);
        } else {
            assert(enc.skip(3) =~= percent_encode(rest));
            assert(hex_value_spec(hex_digit_upper(b / 16)) == Some((b / 16) as u8));
            assert(hex_value_spec(hex_digit_upper(b % 16)) == Some((b % 16) as u8));
            assert(((b / 16) as u8) * 16 + ((b % 16) as u8) == b);
            assert(seq![b] + rest =~= bytes);
        }
    }
}

/// The UTF-8 encoding of characters with codes below 128 is those codes.
proof fn lemma_ascii_chars_encode_utf8(bytes: Seq<u8>)
    requires
        forall|i: int| 0 <= i < bytes.len() ==> #[trigger] bytes[i] < 128,
    ensures
        encode_utf8(ascii_chars(bytes)) == bytes,
{
    let chars = ascii_chars(bytes);
    assert(is_ascii_chars(chars)) by {
        assert forall|i: int| 0 <= i < chars.len() implies '\0' <= #[trigger] chars[i] <= '\u{7f}' by {
            assert(chars[i] == bytes[i] as char);
            assert(bytes[i] < 128);
        }
    }
    is_ascii_chars_encode_utf8(chars);
    assert(encode_utf8(chars) =~= bytes);
}

/// Decoding an encoded component gives back the component: for every
/// string `s`, `decode_component(encode_component(s))` is `s`.
pub proof fn lemma_decode_encode_component(s: Seq<char>)
    ensures
        decode_component_spec(encode_component_spec(s)) == Some(s),
{
    let bytes = encode_utf8(s);
    lemma_percent_encode_safe(bytes);
    lemma_ascii_chars_encode_utf8(percent_encode(bytes));
    lemma_percent_decode_encode(bytes);
    encode_utf8_valid_utf8(s);
    encode_utf8_decode_utf8(s);
}

/// An encoded component is empty only when the component is.
proof fn lemma_encode_component_empty(s: Seq<char>)
    ensures
        (encode_component_spec(s).len() == 0) == (s.len() == 0),
{
    let bytes = encode_utf8(s);
    if s.len() > 0 {
        assert(bytes == encode_scalar(s[0] as u32) + encode_utf8(s.drop_first()));
        assert(encode_scalar(s[0] as u32).len() > 0);
        assert(percent_encode(bytes) == encode_byte(bytes[0]) + percent_encode(bytes.drop_first()));
    } else {
        assert(bytes =~= Seq::<u8>::empty());
    }
}

/// The path of a session's chat page routes back to that session: for every
/// non-empty session id, `route_from_pathname(app_session_path(id))` is
/// `Session(id)`.
pub proof fn lemma_session_path_routes_to_session(id: Seq<char>)
    requires
        id.len() > 0,
    ensures
        route_spec("/app/sessions/"@ + encode_component_spec(id)) == RouteView::Session(id),
{
    reveal_strlit("/app");
    reveal_strlit("/app/");
    reveal_strlit("/app/register");
    reveal_strlit("/app/register/");
    reveal_strlit("/app/sign-in");
    reveal_strlit("/app/sign-in/");
    reveal_strlit("/app/accounts");
    reveal_strlit("/app/accounts/");
    reveal_strlit("/app/sessions/");
    let enc = encode_component_spec(id);
    let p = "/app/sessions/"@ + enc;
    lemma_encode_component_empty(id);
    lemma_decode_encode_component(id);
    assert(p.take(14) =~= "/app/sessions/"@);
    assert(p.skip(14) =~= enc);
}

} // verus!
