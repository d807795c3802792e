//! Route dispatch: which handler an inbound method and path reach, and
//! the percent-decoding of the name segment of `/samples/{name}`.
//!
//! A `%XX` escape is decoded when `XX` is two hex digits naming a
//! seven-bit character; an escape naming a byte beyond that range, or a
//! malformed one, makes the whole segment undecodable and the path
//! matches no route.

use vstd::prelude::*;

use crate::text::push_char;
use crate::text::str_eq;

verus! {

/// Whether `c` is an ASCII hex digit.
pub open spec fn is_hex_digit(c: char) -> bool {
    let v = c as u32 as int;
    (0x30 <= v <= 0x39) || (0x41 <= v <= 0x46) || (0x61 <= v <= 0x66)
}

/// The value of an ASCII hex digit.
pub open spec fn hex_value(c: char) -> int {
    let v = c as u32 as int;
    if 0x30 <= v <= 0x39 {
        v - 0x30
    } else if 0x41 <= v <= 0x46 {
        v - 0x37
    } else {
        v - 0x57
    }
}

/// Percent-decoding of a path segment: each `%XX` escape of a seven-bit
/// character becomes that character, every other character stands as
/// itself, and a malformed or out-of-range escape yields nothing.
pub open spec fn percent_decoded(s: Seq<char>) -> Option<Seq<char>>
    decreases s.len(),
{
    if s.len() == 0 {
        Some(Seq::empty())
    } else if s[0] == '%' {
        if s.len() >= 3 && is_hex_digit(s[1]) && is_hex_digit(s[2]) && hex_value(s[1]) * 16
            + hex_value(s[2]) < 0x80 {
            match percent_decoded(s.skip(3)) {
                Some(t) => Some(
                    seq![((hex_value(s[1]) * 16 + hex_value(s[2])) as u8) as char] + t,
                ),
                None => None,
            }
        } else {
            None
        }
    } else {
        match percent_decoded(s.skip(1)) {
            Some(t) => Some(seq![s[0]] + t),
            None => None,
        }
    }
}

/// Whether a path selects the single-record route: a `/samples/` prefix
/// followed by one non-empty, decodable segment.
pub open spec fn is_sample_path(path: Seq<char>) -> bool {
    path.len() > 9 && path.take(9) == "/samples/"@ && (forall|i: int|
        9 <= i < path.len() ==> path[i] != '/') && percent_decoded(path.skip(9)) is Some
}

/// Where an inbound request is dispatched.
pub enum Route {
    /// The liveness probe.
    Health,
    /// Fetch one record, by its decoded name.
    GetSample(String),
    /// Create one record from the request body.
    CreateSample,
    /// List every record.
    ListSamples,
    /// No route matches; the framework answers 404.
    NoMatch,
}

/// The value of an ASCII hex digit character, if it is one.
fn hex_digit_value(c: char) -> (r: Option<u8>)
    ensures
        is_hex_digit(c) ==> (r matches Some(v) && v == hex_value(c)),
        !is_hex_digit(c) ==> r is None,
{
    let v: u32 = c as u32;
    if 0x30 <= v && v <= 0x39 {
        Some((v - 0x30) as u8)
    } else if 0x41 <= v && v <= 0x46 {
        Some((v - 0x37) as u8)
    } else if 0x61 <= v && v <= 0x66 {
        Some((v - 0x57) as u8)
    } else {
        None
    }
}

/// Decode the percent-escapes of one path segment.
pub fn percent_decode(s: &str) -> (r: Option<String>)
    ensures
        percent_decoded(s@) matches Some(t) ==> (r matches Some(d) && d@ == t),
        percent_decoded(s@) is None ==> r is None,
{
    let n = s.unicode_len();
    let mut out = String::new();
    let mut i: usize = 0;
    proof {
        assert(s@.skip(0) =~= s@);
        if percent_decoded(s@) is Some {
            let t = percent_decoded(s@)->Some_0;
            assert(out@ + t =~= t);
        }
    }
    while i < n
        invariant
            n == s@.len(),
            i <= n,
            percent_decoded(s@) == (match percent_decoded(s@.skip(i as int)) {
                Some(t) => Some(out@ + t),
                None => None::<Seq<char>>,
            }),
        decreases n - i,
    {
        let ghost i0 = i as int;
        let ghost out0 = out@;
        let ghost rest = s@.skip(i0);
        let c = s.get_char(i);
        proof {
            assert(rest[0] == s@[i0]);
        }
        if c == '%' {
            if n - i < 3 {
                proof {
                    assert(rest.len() < 3);
                }
                return None;
            }
            let d1 = s.get_char(i + 1);
            let d2 = s.get_char(i + 2);
            proof {
                assert(rest[1] == s@[i0 + 1]);
                assert(rest[2] == s@[i0 + 2]);
            }
            let v1 = hex_digit_value(d1);
            let v2 = hex_digit_value(d2);
            match (v1, v2) {
                (Some(h), Some(l)) => {
                    let b: u8 = h * 16 + l;
                    if b >= 0x80 {
                        return None;
                    }
                    let decoded: char = b as char;
                    push_char(&mut out, decoded);
                    i = i + 3;
                    proof {
                        assert(rest.skip(3) =~= s@.skip(i as int));
                        if percent_decoded(s@.skip(i as int)) is Some {
                            let t = percent_decoded(s@.skip(i as int))->Some_0;
                            assert(percent_decoded(rest) == Some(seq![decoded] + t));
                            assert(out0.push(decoded) + t =~= out0 + (seq![decoded] + t));
                        }
                    }
                },
                _ => {
                    return None;
                },
            }
        } else {
            let piece = s.substring_char(i, i + 1);
            proof {
                assert(piece@ =~= seq![s@[i0]]);
            }
            out.append(piece);
            i = i + 1;
            proof {
                assert(rest.skip(1) =~= s@.skip(i as int));
                if percent_decoded(s@.skip(i as int)) is Some {
                    let t = percent_decoded(s@.skip(i as int))->Some_0;
                    assert(percent_decoded(rest) == Some(seq![c] + t));
                    assert(out0 + seq![c] + t =~= out0 + (seq![c] + t));
                }
            }
        }
    }
    proof {
        assert(s@.skip(n as int) =~= Seq::<char>::empty());
        let t = percent_decoded(s@.skip(n as int))->Some_0;
        assert(out@ + t =~= out@);
    }
    Some(out)
}

/// Match an inbound method and path to a route, decoding the name
/// segment of the single-record route.
#[verifier::loop_isolation(false)]
pub fn match_route(method: &str, path: &str) -> (r: Route)
    ensures
        (r is Health) <==> (method@ == "GET"@ && path@ == "/health"@),
        (r is ListSamples) <==> (method@ == "GET"@ && path@ == "/samples"@),
        (r is CreateSample) <==> (method@ == "POST"@ && path@ == "/samples"@),
        (r is GetSample) <==> (method@ == "GET"@ && is_sample_path(path@)),
        r matches Route::GetSample(n) ==> percent_decoded(path@.skip(9)) == Some(n@),
{
    proof {
        reveal_strlit("GET");
        reveal_strlit("POST");
        reveal_strlit("/health");
        reveal_strlit("/samples");
        reveal_strlit("/samples/");
        assert("GET"@.len() == 3);
        assert("POST"@.len() == 4);
        assert("/health"@.len() == 7);
        assert("/samples"@.len() == 8);
        assert("/samples/"@.len() == 9);
    }
    let is_get = str_eq(method, "GET");
    let is_post = str_eq(method, "POST");
    if is_get && str_eq(path, "/health") {
        return Route::Health;
    }
    if is_get && str_eq(path, "/samples") {
        return Route::ListSamples;
    }
    if is_post && str_eq(path, "/samples") {
        return Route::CreateSample;
    }
    if !is_get {
        return Route::NoMatch;
    }
    let n = path.unicode_len();
    if n <= 9 {
        return Route::NoMatch;
    }
    let prefix = path.substring_char(0, 9);
    proof {
        assert(path@.take(9) =~= prefix@);
    }
    if !str_eq(prefix, "/samples/") {
        return Route::NoMatch;
    }
    for i in 9..n
        invariant
            n == path@.len(),
            path@.take(9) == "/samples/"@,
            forall|j: int| 9 <= j < i ==> path@[j] != '/',
    {
        let c = path.get_char(i);
        if c == '/' {
            proof {
                assert(path@[i as int] == '/');
            }
            return Route::NoMatch;
        }
    }
    let segment = path.substring_char(9, n);
    proof {
        assert(segment@ =~= path@.skip(9));
    }
    match percent_decode(segment) {
        Some(name) => Route::GetSample(name),
        None => Route::NoMatch,
    }
}

} // verus!
