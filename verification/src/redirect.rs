//! Parsing the redirect captured by the loopback listener: one HTTP request
//! line whose target's query string must carry `code` and `state`.

use crate::encoding::{pct_decoded, percent_decode};
use crate::errors::FlowError;
use crate::text::{find_char, find_char_at, has_char, lemma_find_char_bounds, second_token,
    second_token_of, str_eq};
use vstd::prelude::*;
use vstd::string::*;

verus! {

/// `code` and `state` as parsed from the one accepted connection's query
/// string; consumed immediately by the flow and then discarded.
pub struct RedirectResult {
    pub code: String,
    pub state: String,
}

/// The query part of a request target: what follows the first `?`.
pub open spec fn query_of(target: Seq<char>) -> Seq<char> {
    if has_char(target, '?') {
        target.skip(find_char(target, '?') + 1)
    } else {
        Seq::empty()
    }
}

/// The decoded value of the first `&`-separated pair of a query string
/// whose decoded key equals `key`.
pub open spec fn query_lookup(q: Seq<char>, key: Seq<char>) -> Option<Seq<char>>
    decreases q.len(),
    via query_lookup_decreases
{
    let j = find_char(q, '&');
    let pair = if j < 0 {
        q
    } else {
        q.take(j)
    };
    let k = find_char(pair, '=');
    let pk = if k < 0 {
        pair
    } else {
        pair.take(k)
    };
    let pv = if k < 0 {
        Seq::empty()
    } else {
        pair.skip(k + 1)
    };
    if pct_decoded(pk) == key {
        Some(pct_decoded(pv))
    } else if j < 0 {
        None
    } else {
        query_lookup(q.skip(j + 1), key)
    }
}

#[via_fn]
proof fn query_lookup_decreases(q: Seq<char>, key: Seq<char>) {
    lemma_find_char_bounds(q, '&');
}

/// The decoded `code` and `state` parameters of a redirect request line,
/// when the line has a request target carrying both.
pub open spec fn parsed_redirect(line: Seq<char>) -> Option<(Seq<char>, Seq<char>)> {
    let target = second_token_of(line);
    if target.len() == 0 {
        None
    } else {
        let q = query_of(target);
        match (query_lookup(q, "code"@), query_lookup(q, "state"@)) {
            (Some(c), Some(s)) => Some((c, s)),
            _ => None,
        }
    }
}

/// Finds the first query pair whose decoded key equals `key` and returns
/// its decoded value.
pub fn lookup_query(q: &str, key: &str) -> (r: Option<String>)
    ensures
        match r {
            Some(v) => query_lookup(q@, key@) == Some(v@),
            None => query_lookup(q@, key@) is None,
        },
    decreases q@.len(),
{
    proof {
        lemma_find_char_bounds(q@, '&');
    }
    let n = q.unicode_len();
    let j = find_char_at(q, '&');
    let pair: &str = match j {
        Some(jj) => q.substring_char(0, jj),
        None => q,
    };
    proof {
        if find_char(q@, '&') >= 0 {
            assert(pair@ =~= q@.take(find_char(q@, '&')));
        }
        lemma_find_char_bounds(pair@, '=');
    }
    let m = pair.unicode_len();
    let k = find_char_at(pair, '=');
    let (pk, pv): (&str, &str) = match k {
        Some(kk) => (pair.substring_char(0, kk), pair.substring_char(kk + 1, m)),
        None => (pair, ""),
    };
    proof {
        reveal_strlit("");
        let ks = find_char(pair@, '=');
        if ks >= 0 {
            assert(pk@ =~= pair@.take(ks));
            assert(pv@ =~= pair@.skip(ks + 1));
        } else {
            assert(pv@ =~= Seq::<char>::empty());
        }
    }
    let dk = percent_decode(pk);
    if str_eq(dk.as_str(), key) {
        Some(percent_decode(pv))
    } else {
        match j {
            Some(jj) => {
                let rest = q.substring_char(jj + 1, n);
                proof {
                    assert(rest@ =~= q@.skip(jj + 1));
                }
                lookup_query(rest, key)
            },
            None => None,
        }
    }
}

/// The minimal fixed response the listener writes back on the one accepted
/// connection: an HTTP 200 with a content-length header and a short body
/// telling the user to return to the initiating application.
pub fn confirmation_response() -> (r: String)
    ensures
        r@ == "HTTP/1.1 200 OK\r\ncontent-length: 27\r\n\r\nGo back to your terminal :)"@,
{
    "HTTP/1.1 200 OK\r\ncontent-length: 27\r\n\r\nGo back to your terminal :)".to_owned()
}

/// Parses one HTTP request line into the redirect's `code` and `state`.
/// A line without a second token, or whose query lacks either parameter,
/// is a malformed redirect, never a crash.
pub fn parse_redirect_line(line: &str) -> (r: Result<RedirectResult, FlowError>)
    ensures
        match r {
            Ok(rr) => parsed_redirect(line@) == Some((rr.code@, rr.state@)),
            Err(e) => parsed_redirect(line@) is None && e is MalformedRedirectError,
        },
{
    let target = second_token(line);
    let tn = target.as_str().unicode_len();
    if tn == 0 {
        return Err(FlowError::MalformedRedirectError);
    }
    let q: String = match find_char_at(target.as_str(), '?') {
        Some(j) => {
            let s = target.as_str().substring_char(j + 1, tn);
            proof {
                assert(s@ =~= target@.skip(find_char(target@, '?') + 1));
            }
            s.to_owned()
        },
        None => String::new(),
    };
    assert(q@ == query_of(second_token_of(line@)));
    let code = lookup_query(q.as_str(), "code");
    let state = lookup_query(q.as_str(), "state");
    match (code, state) {
        (Some(c), Some(s)) => Ok(RedirectResult { code: c, state: s }),
        _ => Err(FlowError::MalformedRedirectError),
    }
}

} // verus!
