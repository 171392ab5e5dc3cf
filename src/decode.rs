use vstd::prelude::*;
use vstd::string::StrSliceExecFns;
use vstd::string::StringExecFns;

use crate::error::{is_api_error, ProwlError};
use crate::text::{opt_view, text_eq};
use crate::types::{is_plain_success, ApiResponse};
use crate::xml::{attr_lookup, attrs_view, document_child, document_element, Attribute, Element, ElementView};

verus! {

/// A decimal digit.
pub open spec fn is_digit(c: char) -> bool {
    '0' <= c && c <= '9'
}

/// The value of a decimal digit.
pub open spec fn digit_value(c: char) -> int {
    (c as u32) as int - ('0' as u32) as int
}

/// A non-empty run of decimal digits.
pub open spec fn all_digits(s: Seq<char>) -> bool {
    s.len() > 0 && forall|i: int| 0 <= i < s.len() ==> is_digit(#[trigger] s[i])
}

/// The number that a run of decimal digits writes.
pub open spec fn digits_value(s: Seq<char>) -> int
    decreases s.len(),
{
    if s.len() == 0 {
        0
    } else {
        digits_value(s.drop_last()) * 10 + digit_value(s.last())
    }
}

/// The integer that `s` writes: digits, with an optional leading sign.
pub open spec fn int_value(s: Seq<char>) -> Option<int> {
    if s.len() > 0 && s[0] == '-' {
        if all_digits(s.drop_first()) {
            Some(-digits_value(s.drop_first()))
        } else {
            None
        }
    } else if s.len() > 0 && s[0] == '+' {
        if all_digits(s.drop_first()) {
            Some(digits_value(s.drop_first()))
        } else {
            None
        }
    } else if all_digits(s) {
        Some(digits_value(s))
    } else {
        None
    }
}

/// The 32-bit integer that `s` writes; `None` when it writes none, or one out of range.
pub open spec fn parse_i32(s: Seq<char>) -> Option<i32> {
    match int_value(s) {
        Some(v) => if i32::MIN <= v <= i32::MAX {
            Some(v as i32)
        } else {
            None
        },
        None => None,
    }
}

/// An attribute of an element.
pub open spec fn attr(el: ElementView, name: Seq<char>) -> Option<Seq<char>> {
    attr_lookup(el.attributes, name)
}

/// An attribute of an element read as a 32-bit integer: `None` when it is absent,
/// `Some(None)` when it is there but writes no such integer.
pub open spec fn int_attr(el: ElementView, name: Seq<char>) -> Option<Option<i32>> {
    match attr(el, name) {
        None => None,
        Some(t) => Some(parse_i32(t)),
    }
}

/// The code and remaining count of a `success` element; `None` when the code is
/// missing or either does not read as an integer.
pub open spec fn success_numbers(el: ElementView) -> Option<(i32, Option<i32>)> {
    match int_attr(el, "code"@) {
        Some(Some(code)) => match int_attr(el, "remaining"@) {
            None => Some((code, None)),
            Some(Some(v)) => Some((code, Some(v))),
            Some(None) => None,
        },
        _ => None,
    }
}

/// The code of an `error` element; `None` when it is missing or does not read.
pub open spec fn error_code(el: ElementView) -> Option<i32> {
    match int_attr(el, "code"@) {
        Some(Some(code)) => Some(code),
        _ => None,
    }
}

/// `r` is a failure to decode the document.
pub open spec fn is_decode_failure(r: Result<ApiResponse, ProwlError>) -> bool {
    match r {
        Err(ProwlError::XmlParse(_)) => true,
        _ => false,
    }
}

/// What a `success` element decodes to, in either mode.
pub open spec fn success_outcome(el: ElementView, r: Result<ApiResponse, ProwlError>) -> bool {
    match success_numbers(el) {
        None => is_decode_failure(r),
        Some((code, remaining)) => match r {
            Ok(resp) => is_plain_success(resp, code, remaining, attr(el, "resetdate"@)),
            Err(_) => false,
        },
    }
}

/// What the child element decodes to when the request was a send or a verify.
pub open spec fn response_outcome(el: ElementView, r: Result<ApiResponse, ProwlError>) -> bool {
    if el.name == "success"@ {
        success_outcome(el, r)
    } else if el.name == "error"@ {
        match error_code(el) {
            None => is_decode_failure(r),
            Some(code) => match r {
                Err(e) => is_api_error(e, code, el.text),
                Ok(_) => false,
            },
        }
    } else {
        is_decode_failure(r)
    }
}

/// What the child element decodes to when the request was for a token or an API key.
pub open spec fn token_response_outcome(el: ElementView, r: Result<ApiResponse, ProwlError>) -> bool {
    if el.name == "success"@ {
        success_outcome(el, r)
    } else if el.name == "retrieve"@ {
        let token = attr(el, "token"@);
        let url = attr(el, "url"@);
        let apikey = attr(el, "apikey"@);
        if token is Some && url is Some {
            match r {
                Ok(resp) => is_plain_success(
                    ApiResponse { token: None, token_url: None, ..resp },
                    200,
                    None,
                    None,
                ) && opt_view(resp.token) == token && opt_view(resp.token_url) == url,
                Err(_) => false,
            }
        } else if apikey is Some {
            match r {
                Ok(resp) => is_plain_success(ApiResponse { apikey: None, ..resp }, 200, None, None)
                    && opt_view(resp.apikey) == apikey,
                Err(_) => false,
            }
        } else {
            match r {
                Err(e) => is_api_error(e, 500, Some("Invalid retrieve response"@)),
                Ok(_) => false,
            }
        }
    } else if el.name == "error"@ {
        match error_code(el) {
            None => is_decode_failure(r),
            Some(code) => match r {
                Err(e) => if code == 409 {
                    e is TokenNotApproved
                } else {
                    is_api_error(e, code, el.text)
                },
                Ok(_) => false,
            },
        }
    } else {
        is_decode_failure(r)
    }
}

/// In either mode, an `error` element with code 401 decodes to a failure whose
/// exit status is 2; in send/verify mode it is the API error with that code.
pub proof fn unauthorized_exits_two(el: ElementView, r: Result<ApiResponse, ProwlError>)
    requires
        el.name == "error"@,
        error_code(el) == Some(401i32),
        response_outcome(el, r) || token_response_outcome(el, r),
    ensures
        match r {
            Err(e) => e.spec_exit_code() == 2,
            Ok(_) => false,
        },
        response_outcome(el, r) ==> match r {
            Err(e) => is_api_error(e, 401, el.text),
            Ok(_) => false,
        },
{
    reveal_strlit("error");
    reveal_strlit("success");
    reveal_strlit("retrieve");
    assert("error"@[0] != "success"@[0] && "error"@[0] != "retrieve"@[0]);
}

/// For a token or API key retrieval, an `error` element with code 409 decodes to
/// the distinguished not-yet-approved failure, whose exit status is 4.
pub proof fn not_approved_exits_four(el: ElementView, r: Result<ApiResponse, ProwlError>)
    requires
        el.name == "error"@,
        error_code(el) == Some(409i32),
        token_response_outcome(el, r),
    ensures
        match r {
            Err(e) => e is TokenNotApproved && e.spec_exit_code() == 4,
            Ok(_) => false,
        },
{
    reveal_strlit("error");
    reveal_strlit("success");
    reveal_strlit("retrieve");
    assert("error"@[0] != "success"@[0] && "error"@[0] != "retrieve"@[0]);
}

/// A `retrieve` element answers only a retrieval: for a send or a verify it is a
/// failure to decode.
pub proof fn retrieve_needs_token_mode(el: ElementView, r: Result<ApiResponse, ProwlError>)
    requires
        el.name == "retrieve"@,
        response_outcome(el, r),
    ensures
        is_decode_failure(r),
{
    reveal_strlit("error");
    reveal_strlit("success");
    reveal_strlit("retrieve");
    assert("retrieve"@[0] != "success"@[0] && "retrieve"@[0] != "error"@[0]);
}

/// Reads the 32-bit integer that `s` writes.
pub fn parse_int(s: &str) -> (r: Option<i32>)
    ensures
        r == parse_i32(s@),
{
    let n = s.unicode_len();
    if n == 0 {
        return None;
    }
    let c0 = s.get_char(0);
    let start: usize = if c0 == '-' || c0 == '+' {
        1
    } else {
        0
    };
    if start == n {
        proof {
            assert(!all_digits(s@.drop_first()));
        }
        return None;
    }
    let ghost body = s@.subrange(start as int, n as int);
    proof {
        if start == 1 {
            assert(body =~= s@.drop_first());
        } else {
            assert(body =~= s@);
        }
    }
    let mut acc: u64 = 0;
    let mut big = false;
    let mut i: usize = start;
    while i < n
        invariant
            n == s@.len(),
            start <= i <= n,
            start <= 1,
            n > 0,
            c0 == s@[0],
            start == 1 <==> (c0 == '-' || c0 == '+'),
            body == s@.subrange(start as int, n as int),
            forall|k: int| start <= k < i ==> is_digit(#[trigger] s@[k]),
            !big ==> acc == digits_value(s@.subrange(start as int, i as int)) && acc <= 2147483648,
            big ==> digits_value(s@.subrange(start as int, i as int)) > 2147483648,
        decreases n - i,
    {
        let c = s.get_char(i);
        if !('0' <= c && c <= '9') {
            proof {
                assert(body[i - start] == c);
                assert(!all_digits(body));
                if start == 1 {
                    assert(body =~= s@.drop_first());
                    assert(!all_digits(s@.drop_first()));
                    assert(s@[0] == '-' || s@[0] == '+');
                    assert(int_value(s@) is None);
                } else {
                    assert(body =~= s@);
                    assert(!all_digits(s@));
                    assert(s@[0] != '-' && s@[0] != '+');
                    assert(int_value(s@) is None);
                }
            }
            return None;
        }
        let d = (c as u32 - '0' as u32) as u64;
        let ghost prev = digits_value(s@.subrange(start as int, i as int));
        proof {
            assert(s@.subrange(start as int, i + 1).drop_last() =~= s@.subrange(
                start as int,
                i as int,
            ));
            assert(s@.subrange(start as int, i + 1).last() == c);
        }
        if !big {
            let v = acc * 10 + d;
            if v > 2147483648 {
                big = true;
            } else {
                acc = v;
            }
        } else {
            proof {
                assert(prev * 10 >= prev) by (nonlinear_arith)
                    requires
                        prev > 0,
                ;
            }
        }
        i = i + 1;
    }
    proof {
        assert(s@.subrange(start as int, n as int) == body);
        assert forall|k: int| 0 <= k < body.len() implies is_digit(#[trigger] body[k]) by {
            assert(body[k] == s@[k + start]);
        }
        assert(all_digits(body));
    }
    if big {
        None
    } else if start == 1 && c0 == '-' {
        Some((0 - acc as i64) as i32)
    } else if acc <= 2147483647 {
        Some(acc as i32)
    } else {
        None
    }
}

/// The value of the first attribute of `attrs` called `name`.
pub fn lookup(attrs: &Vec<Attribute>, name: &str) -> (r: Option<String>)
    ensures
        opt_view(r) == attr_lookup(attrs_view(attrs@), name@),
{
    let ghost all = attrs_view(attrs@);
    proof {
        assert(all.subrange(0, all.len() as int) =~= all);
    }
    let mut i: usize = 0;
    while i < attrs.len()
        invariant
            all == attrs_view(attrs@),
            0 <= i <= attrs@.len(),
            attr_lookup(all, name@) == attr_lookup(all.subrange(i as int, all.len() as int), name@),
        decreases attrs@.len() - i,
    {
        let ghost rest = all.subrange(i as int, all.len() as int);
        proof {
            assert(rest.drop_first() =~= all.subrange(i + 1, all.len() as int));
            assert(rest[0] == (attrs@[i as int].name@, attrs@[i as int].value@));
        }
        if text_eq(attrs[i].name.as_str(), name) {
            return Some(attrs[i].value.clone());
        }
        i = i + 1;
    }
    None
}

fn int_attribute(el: &Element, name: &str) -> (r: Option<Option<i32>>)
    ensures
        r == int_attr(el@, name@),
{
    match lookup(&el.attributes, name) {
        None => None,
        Some(t) => Some(parse_int(t.as_str())),
    }
}

fn malformed(what: &str) -> (r: ProwlError)
    ensures
        r is XmlParse,
{
    ProwlError::XmlParse(String::from_str(what))
}

fn decode_success(el: &Element) -> (r: Result<ApiResponse, ProwlError>)
    ensures
        success_outcome(el@, r),
{
    proof {
        reveal_strlit("code");
        reveal_strlit("remaining");
        reveal_strlit("resetdate");
    }
    let code = match int_attribute(el, "code") {
        Some(Some(c)) => c,
        _ => return Err(malformed("missing or invalid attribute `code`")),
    };
    let remaining = match int_attribute(el, "remaining") {
        None => None,
        Some(Some(v)) => Some(v),
        Some(None) => return Err(malformed("invalid attribute `remaining`")),
    };
    let reset_date = lookup(&el.attributes, "resetdate");
    Ok(ApiResponse::success(code, remaining, reset_date))
}

fn error_element_code(el: &Element) -> (r: Option<i32>)
    ensures
        r == error_code(el@),
{
    proof {
        reveal_strlit("code");
    }
    match int_attribute(el, "code") {
        Some(Some(c)) => Some(c),
        _ => None,
    }
}

/// Decodes the child element of a response to a send or a verify.
pub fn decode_response(el: &Element) -> (r: Result<ApiResponse, ProwlError>)
    ensures
        response_outcome(el@, r),
{
    proof {
        reveal_strlit("success");
        reveal_strlit("error");
    }
    if text_eq(el.name.as_str(), "success") {
        decode_success(el)
    } else if text_eq(el.name.as_str(), "error") {
        match error_element_code(el) {
            None => Err(malformed("missing or invalid attribute `code`")),
            Some(code) => Err(ProwlError::from_api_code(code, el.text.clone())),
        }
    } else {
        Err(malformed("unexpected element"))
    }
}

/// Decodes the child element of a response to a token or API key retrieval.
pub fn decode_token_response(el: &Element) -> (r: Result<ApiResponse, ProwlError>)
    ensures
        token_response_outcome(el@, r),
{
    proof {
        reveal_strlit("success");
        reveal_strlit("retrieve");
        reveal_strlit("error");
        reveal_strlit("token");
        reveal_strlit("url");
        reveal_strlit("apikey");
    }
    if text_eq(el.name.as_str(), "success") {
        decode_success(el)
    } else if text_eq(el.name.as_str(), "retrieve") {
        let token = lookup(&el.attributes, "token");
        let url = lookup(&el.attributes, "url");
        let apikey = lookup(&el.attributes, "apikey");
        match (token, url) {
            (Some(t), Some(u)) => Ok(ApiResponse::success(200, None, None).with_token(t, u)),
            _ => match apikey {
                Some(k) => Ok(ApiResponse::success(200, None, None).with_apikey(k)),
                None => Err(
                    ProwlError::Api {
                        code: 500,
                        message: String::from_str("Invalid retrieve response"),
                    },
                ),
            },
        }
    } else if text_eq(el.name.as_str(), "error") {
        match error_element_code(el) {
            None => Err(malformed("missing or invalid attribute `code`")),
            Some(code) => if code == 409 {
                Err(ProwlError::TokenNotApproved)
            } else {
                Err(ProwlError::from_api_code(code, el.text.clone()))
            },
        }
    } else {
        Err(malformed("unexpected element"))
    }
}

/// Decodes the body of a response to a send or a verify.
pub fn parse_response(xml: &str) -> (r: Result<ApiResponse, ProwlError>)
    ensures
        match document_child(xml@) {
            None => is_decode_failure(r),
            Some(el) => response_outcome(el, r),
        },
{
    match document_element(xml) {
        None => Err(malformed("not a response document")),
        Some(el) => decode_response(&el),
    }
}

/// Decodes the body of a response to a token or API key retrieval.
pub fn parse_token_response(xml: &str) -> (r: Result<ApiResponse, ProwlError>)
    ensures
        match document_child(xml@) {
            None => is_decode_failure(r),
            Some(el) => token_response_outcome(el, r),
        },
{
    match document_element(xml) {
        None => Err(malformed("not a response document")),
        Some(el) => decode_token_response(&el),
    }
}

} // verus!
