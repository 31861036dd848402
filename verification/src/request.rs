//! Textual conversion requests.
//!
//! A request line is whitespace-tokenized into `<value> <from-unit>
//! <connector> <to-unit>`.  The connector token, conventionally `to`, is
//! consumed without being inspected, and tokens past the fourth are ignored.
//! The value token must be a numeric literal; the two unit tokens must match
//! aliases.  A line with fewer than four tokens, or a value token that is
//! not numeric, is a malformed request.

use vstd::prelude::*;

verus! {

use crate::error::Error;
use crate::number::{check_number_token, is_number_token};
use crate::units::{unit_of_token, Unit};

/// A whitespace character, as far as tokenization is concerned.
pub open spec fn is_space(c: char) -> bool {
    c == ' ' || c == '\t' || c == '\n' || c == '\r'
}

/// The tokens of `s` from position `i` on, with `cur` the piece of a token
/// read so far.
pub open spec fn tokens_from(s: Seq<char>, i: int, cur: Seq<char>) -> Seq<Seq<char>>
    decreases s.len() - i,
{
    if i < 0 || i >= s.len() {
        if cur.len() > 0 {
            seq![cur]
        } else {
            seq![]
        }
    } else if is_space(s[i]) {
        (if cur.len() > 0 {
            seq![cur]
        } else {
            seq![]
        }) + tokens_from(s, i + 1, Seq::empty())
    } else {
        tokens_from(s, i + 1, cur.push(s[i]))
    }
}

/// The whitespace-separated tokens of `s`, in order.
pub open spec fn tokens(s: Seq<char>) -> Seq<Seq<char>> {
    tokens_from(s, 0, Seq::empty())
}

/// A parsed conversion request: the numeric value still as text, and the
/// two parsed units.
#[derive(Clone, Debug)]
pub struct Request {
    pub value: String,
    pub original_unit: Unit,
    pub target_unit: Unit,
}

/// Decides whether `c` is a whitespace character.
fn check_space(c: char) -> (r: bool)
    ensures
        r == is_space(c),
{
    c == ' ' || c == '\t' || c == '\n' || c == '\r'
}

/// Splits a line into its whitespace-separated tokens.
pub fn tokenize(s: &str) -> (v: Vec<String>)
    ensures
        v.deep_view() == tokens(s@),
{
    let len = s.unicode_len();
    let mut v: Vec<String> = Vec::new();
    let mut in_token = false;
    let mut start: usize = 0;
    let mut i: usize = 0;
    proof {
        assert(v.deep_view() =~= Seq::<Seq<char>>::empty());
    }
    while i < len
        invariant
            i <= len == s@.len(),
            in_token ==> start < i,
            tokens(s@) == v.deep_view() + tokens_from(
                s@,
                i as int,
                if in_token {
                    s@.subrange(start as int, i as int)
                } else {
                    Seq::empty()
                },
            ),
        decreases len - i,
    {
        let ghost cur: Seq<char> = if in_token {
            s@.subrange(start as int, i as int)
        } else {
            Seq::empty()
        };
        let c = s.get_char(i);
        if check_space(c) {
            if in_token {
                let tok = s.substring_char(start, i);
                proof {
                    assert(cur.len() > 0);
                    assert(tokens_from(s@, i as int, cur) =~= seq![cur] + tokens_from(
                        s@,
                        i + 1,
                        Seq::empty(),
                    ));
                }
                let ghost old_dv = v.deep_view();
                v.push(String::from_str(tok));
                proof {
                    assert(v.deep_view() =~= old_dv.push(cur));
                    assert(v.deep_view() + tokens_from(s@, i + 1, Seq::empty()) =~= old_dv + (
                    seq![cur] + tokens_from(s@, i + 1, Seq::empty())));
                }
                in_token = false;
            } else {
                proof {
                    assert(tokens_from(s@, i as int, cur) =~= tokens_from(
                        s@,
                        i + 1,
                        Seq::empty(),
                    ));
                }
            }
        } else {
            if !in_token {
                start = i;
                in_token = true;
                proof {
                    assert(s@.subrange(i as int, i + 1) =~= cur.push(s@[i as int]));
                }
            } else {
                proof {
                    assert(s@.subrange(start as int, i + 1) =~= cur.push(s@[i as int]));
                }
            }
        }
        i = i + 1;
    }
    if in_token {
        let tok = s.substring_char(start, len);
        let ghost cur = s@.subrange(start as int, len as int);
        let ghost old_dv = v.deep_view();
        v.push(String::from_str(tok));
        proof {
            assert(tokens_from(s@, len as int, cur) =~= seq![cur]);
            assert(v.deep_view() =~= old_dv.push(cur));
            assert(v.deep_view() =~= old_dv + seq![cur]);
        }
    } else {
        proof {
            assert(tokens_from(s@, len as int, Seq::<char>::empty()) =~= Seq::<Seq<char>>::empty());
            assert(v.deep_view() + Seq::<Seq<char>>::empty() =~= v.deep_view());
        }
    }
    v
}

/// Parses a request line into its value token and its two units.
///
/// The line must hold at least four tokens; the first must be a numeric
/// literal, the second and fourth must be unit aliases, and the third is
/// consumed unchecked.  Anything after the fourth token is ignored.
pub fn parse_request(line: &str) -> (r: Result<Request, Error>)
    ensures
        ({
            let ts = tokens(line@);
            &&& r is Ok <==> (ts.len() >= 4 && is_number_token(ts[0]) && unit_of_token(ts[1])
                is Some && unit_of_token(ts[3]) is Some)
            &&& r matches Ok(req) ==> req.value@ == ts[0] && unit_of_token(ts[1]) == Some(
                req.original_unit,
            ) && unit_of_token(ts[3]) == Some(req.target_unit)
            &&& r matches Err(e) ==> (e is MalformedRequest <==> (ts.len() < 4
                || !is_number_token(ts[0])))
            &&& r matches Err(e) ==> (e is MalformedRequest || e matches
                Error::UnrecognizedUnit { .. })
            &&& r matches Err(e) ==> (e matches Error::UnrecognizedUnit { unit } ==> (if
                unit_of_token(ts[1]) is None {
                unit@ == ts[1]
            } else {
                unit@ == ts[3] && unit_of_token(ts[3]) is None
            }))
        }),
{
    let toks = tokenize(line);
    if toks.len() < 4 {
        return Err(Error::MalformedRequest);
    }
    if !check_number_token(toks[0].as_str()) {
        return Err(Error::MalformedRequest);
    }
    let original_unit = match Unit::from_str(toks[1].as_str()) {
        Ok(u) => u,
        Err(e) => {
            return Err(e);
        },
    };
    let target_unit = match Unit::from_str(toks[3].as_str()) {
        Ok(u) => u,
        Err(e) => {
            return Err(e);
        },
    };
    let value = toks[0].clone();
    Ok(Request { value, original_unit, target_unit })
}


} // verus!
