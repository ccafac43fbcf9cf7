//! The provider's error envelope: `{ "error": { "message": ..., "type": ...,
//! "code": ... } }`.
//!
//! The decoder accepts exactly that shape — an object with the single key
//! `error`, whose value holds a `message` string and optional `type` and
//! `code` members (strings or `null`), each key at most once, in any order,
//! with arbitrary whitespace between tokens. String values may use the JSON
//! escapes `\" \\ \/ \b \f \n \r \t`. Anything else is not an envelope, and
//! the response body is then read as plain text instead.

use vstd::prelude::*;

use crate::outside::{bytes_to_text, lossy_text};
use crate::types::{ApiErrorDetail, ApiErrorResponse};

verus! {

/// JSON insignificant whitespace.
pub open spec fn is_ws(b: u8) -> bool {
    b == 32 || b == 9 || b == 10 || b == 13
}

/// The first index at or after `i` that holds no whitespace.
pub open spec fn ws_end(s: Seq<u8>, i: int) -> int
    decreases s.len() - i,
{
    if 0 <= i < s.len() && is_ws(s[i]) {
        ws_end(s, i + 1)
    } else {
        i
    }
}

/// What a one-character JSON escape stands for.
pub open spec fn unescaped(b: u8) -> Option<u8> {
    if b == 34 {
        Some(34u8)
    } else if b == 92 {
        Some(92u8)
    } else if b == 47 {
        Some(47u8)
    } else if b == 98 {
        Some(8u8)
    } else if b == 102 {
        Some(12u8)
    } else if b == 110 {
        Some(10u8)
    } else if b == 114 {
        Some(13u8)
    } else if b == 116 {
        Some(9u8)
    } else {
        None
    }
}

/// The content of a JSON string whose opening quote stands just before `i`,
/// together with the index after its closing quote; `None` when the string
/// never closes, holds a raw control byte, or uses an escape the decoder
/// does not take.
pub open spec fn str_body(s: Seq<u8>, i: int) -> Option<(Seq<u8>, int)>
    decreases s.len() - i,
{
    if i < 0 || i >= s.len() {
        None
    } else if s[i] == 34 {
        Some((Seq::empty(), i + 1))
    } else if s[i] == 92 {
        if i + 1 < s.len() {
            match unescaped(s[i + 1]) {
                Some(c) => match str_body(s, i + 2) {
                    Some(t) => Some((seq![c] + t.0, t.1)),
                    None => None,
                },
                None => None,
            }
        } else {
            None
        }
    } else if s[i] < 32 {
        None
    } else {
        match str_body(s, i + 1) {
            Some(t) => Some((seq![s[i]] + t.0, t.1)),
            None => None,
        }
    }
}

/// Whether the quoted key `"error"` stands at `i`.
pub open spec fn error_key_at(s: Seq<u8>, i: int) -> bool {
    &&& 0 <= i
    &&& i + 7 <= s.len()
    &&& s[i] == 34
    &&& s[i + 1] == 101
    &&& s[i + 2] == 114
    &&& s[i + 3] == 114
    &&& s[i + 4] == 111
    &&& s[i + 5] == 114
    &&& s[i + 6] == 34
}

/// Whether the quoted key `"message"` stands at `i`.
pub open spec fn message_key_at(s: Seq<u8>, i: int) -> bool {
    &&& 0 <= i
    &&& i + 9 <= s.len()
    &&& s[i] == 34
    &&& s[i + 1] == 109
    &&& s[i + 2] == 101
    &&& s[i + 3] == 115
    &&& s[i + 4] == 115
    &&& s[i + 5] == 97
    &&& s[i + 6] == 103
    &&& s[i + 7] == 101
    &&& s[i + 8] == 34
}

/// Whether the quoted key `"type"` stands at `i`.
pub open spec fn type_key_at(s: Seq<u8>, i: int) -> bool {
    &&& 0 <= i
    &&& i + 6 <= s.len()
    &&& s[i] == 34
    &&& s[i + 1] == 116
    &&& s[i + 2] == 121
    &&& s[i + 3] == 112
    &&& s[i + 4] == 101
    &&& s[i + 5] == 34
}

/// Whether the quoted key `"code"` stands at `i`.
pub open spec fn code_key_at(s: Seq<u8>, i: int) -> bool {
    &&& 0 <= i
    &&& i + 6 <= s.len()
    &&& s[i] == 34
    &&& s[i + 1] == 99
    &&& s[i + 2] == 111
    &&& s[i + 3] == 100
    &&& s[i + 4] == 101
    &&& s[i + 5] == 34
}

/// Whether the literal `null` stands at `i`.
pub open spec fn null_at(s: Seq<u8>, i: int) -> bool {
    &&& 0 <= i
    &&& i + 4 <= s.len()
    &&& s[i] == 110
    &&& s[i + 1] == 117
    &&& s[i + 2] == 108
    &&& s[i + 3] == 108
}

/// One member of the inner object starting at `i`: the key (0 `message`,
/// 1 `type`, 2 `code`), its value (`None` for `null`), and the index after
/// the value. `message` takes only a string value.
pub open spec fn member(s: Seq<u8>, i: int) -> Option<(int, Option<Seq<u8>>, int)> {
    let (key, klen): (int, int) = if message_key_at(s, i) {
        (0, 9)
    } else if type_key_at(s, i) {
        (1, 6)
    } else if code_key_at(s, i) {
        (2, 6)
    } else {
        (3, 0)
    };
    if key == 3 {
        None
    } else {
        let a = ws_end(s, i + klen);
        if a < s.len() && s[a] == 58 {
            let b = ws_end(s, a + 1);
            if b < s.len() && s[b] == 34 {
                match str_body(s, b + 1) {
                    Some(t) => Some((key, Some(t.0), t.1)),
                    None => None,
                }
            } else if key != 0 && null_at(s, b) {
                Some((key, None, b + 4))
            } else {
                None
            }
        } else {
            None
        }
    }
}

/// The members of the inner object from `i` on, given which keys were
/// already seen and the values gathered so far: the final `(message, type,
/// code)` and the index after the closing brace. At most `fuel` members
/// remain; three is enough, since no key may repeat.
pub open spec fn members(
    s: Seq<u8>,
    i: int,
    seen: (bool, bool, bool),
    acc: (Option<Seq<u8>>, Option<Seq<u8>>, Option<Seq<u8>>),
    fuel: nat,
) -> Option<((Seq<u8>, Option<Seq<u8>>, Option<Seq<u8>>), int)>
    decreases fuel,
{
    if fuel == 0 {
        None
    } else {
        match member(s, i) {
            None => None,
            Some(m) => {
                let (k, v, e) = m;
                if (k == 0 && seen.0) || (k == 1 && seen.1) || (k == 2 && seen.2) {
                    None
                } else {
                    let seen2 = (seen.0 || k == 0, seen.1 || k == 1, seen.2 || k == 2);
                    let acc2 = (
                        if k == 0 {
                            v
                        } else {
                            acc.0
                        },
                        if k == 1 {
                            v
                        } else {
                            acc.1
                        },
                        if k == 2 {
                            v
                        } else {
                            acc.2
                        },
                    );
                    let t = ws_end(s, e);
                    if t < s.len() && s[t] == 125 {
                        match acc2.0 {
                            Some(msg) => Some(((msg, acc2.1, acc2.2), t + 1)),
                            None => None,
                        }
                    } else if t < s.len() && s[t] == 44 {
                        members(s, ws_end(s, t + 1), seen2, acc2, (fuel - 1) as nat)
                    } else {
                        None
                    }
                }
            },
        }
    }
}

/// What the whole body decodes to when it is exactly the provider's error
/// envelope: the message bytes and the optional type and code bytes.
pub open spec fn envelope_of(s: Seq<u8>) -> Option<(Seq<u8>, Option<Seq<u8>>, Option<Seq<u8>>)> {
    let i0 = ws_end(s, 0);
    if i0 < s.len() && s[i0] == 123 {
        let i1 = ws_end(s, i0 + 1);
        if error_key_at(s, i1) {
            let i2 = ws_end(s, i1 + 7);
            if i2 < s.len() && s[i2] == 58 {
                let i3 = ws_end(s, i2 + 1);
                if i3 < s.len() && s[i3] == 123 {
                    match members(s, ws_end(s, i3 + 1), (false, false, false), (None, None, None), 3) {
                        Some(t) => {
                            let u = ws_end(s, t.1);
                            if u < s.len() && s[u] == 125 && ws_end(s, u + 1) == s.len() {
                                Some(t.0)
                            } else {
                                None
                            }
                        },
                        None => None,
                    }
                } else {
                    None
                }
            } else {
                None
            }
        } else {
            None
        }
    } else {
        None
    }
}

/// Skips whitespace.
fn ws_skip(s: &Vec<u8>, i: usize) -> (r: usize)
    requires
        i <= s@.len(),
    ensures
        r == ws_end(s@, i as int),
        i <= r <= s@.len(),
{
    let mut cur = i;
    while cur < s.len() && (s[cur] == 32 || s[cur] == 9 || s[cur] == 10 || s[cur] == 13)
        invariant
            i <= cur <= s@.len(),
            ws_end(s@, i as int) == ws_end(s@, cur as int),
        decreases s@.len() - cur,
    {
        proof {
            assert(ws_end(s@, cur as int) == ws_end(s@, cur + 1));
        }
        cur = cur + 1;
    }
    cur
}

/// Reads a JSON string whose opening quote stands just before `i`.
fn read_str_body(s: &Vec<u8>, i: usize) -> (r: Option<(Vec<u8>, usize)>)
    requires
        i <= s@.len(),
    ensures
        r is Some <==> str_body(s@, i as int) is Some,
        r matches Some(t) ==> str_body(s@, i as int) matches Some(st) && t.0@ == st.0 && t.1
            == st.1 && i <= t.1 <= s@.len(),
{
    let mut acc: Vec<u8> = Vec::new();
    let mut cur = i;
    loop
        invariant
            i <= cur <= s@.len(),
            str_body(s@, i as int) == (match str_body(s@, cur as int) {
                Some(t) => Some::<(Seq<u8>, int)>((acc@ + t.0, t.1)),
                None => None::<(Seq<u8>, int)>,
            }),
        decreases s@.len() - cur,
    {
        if cur >= s.len() {
            return None;
        }
        let c = s[cur];
        if c == 34 {
            proof {
                assert(acc@ + Seq::<u8>::empty() =~= acc@);
            }
            return Some((acc, cur + 1));
        } else if c == 92 {
            if cur + 1 >= s.len() {
                return None;
            }
            let n = s[cur + 1];
            let u: u8 = if n == 34 {
                34
            } else if n == 92 {
                92
            } else if n == 47 {
                47
            } else if n == 98 {
                8
            } else if n == 102 {
                12
            } else if n == 110 {
                10
            } else if n == 114 {
                13
            } else if n == 116 {
                9
            } else {
                return None;
            };
            let ghost pre = acc@;
            acc.push(u);
            proof {
                if str_body(s@, cur + 2) is Some {
                    let t = str_body(s@, cur + 2)->Some_0;
                    assert(pre + (seq![u] + t.0) =~= acc@ + t.0);
                }
            }
            cur = cur + 2;
        } else if c < 32 {
            return None;
        } else {
            let ghost pre = acc@;
            acc.push(c);
            proof {
                if str_body(s@, cur + 1) is Some {
                    let t = str_body(s@, cur + 1)->Some_0;
                    assert(pre + (seq![c] + t.0) =~= acc@ + t.0);
                }
            }
            cur = cur + 1;
        }
    }
}

/// Reads one member of the inner object.
fn read_member(s: &Vec<u8>, i: usize) -> (r: Option<(u8, Option<Vec<u8>>, usize)>)
    requires
        i <= s@.len(),
    ensures
        r is Some <==> member(s@, i as int) is Some,
        r matches Some(t) ==> member(s@, i as int) matches Some(st) && t.0 as int == st.0 && (
        match (t.1, st.1) {
            (Some(v), Some(sv)) => v@ == sv,
            (None, None) => true,
            _ => false,
        }) && t.2 as int == st.2 && i <= t.2 <= s@.len(),
{
    let n = s.len();
    let (key, klen): (u8, usize) = if n - i >= 9 && s[i] == 34 && s[i + 1] == 109 && s[i + 2]
        == 101 && s[i + 3] == 115 && s[i + 4] == 115 && s[i + 5] == 97 && s[i + 6] == 103 && s[i
        + 7] == 101 && s[i + 8] == 34 {
        (0, 9)
    } else if n - i >= 6 && s[i] == 34 && s[i + 1] == 116 && s[i + 2] == 121 && s[i + 3] == 112
        && s[i + 4] == 101 && s[i + 5] == 34 {
        (1, 6)
    } else if n - i >= 6 && s[i] == 34 && s[i + 1] == 99 && s[i + 2] == 111 && s[i + 3] == 100
        && s[i + 4] == 101 && s[i + 5] == 34 {
        (2, 6)
    } else {
        return None;
    };
    let a = ws_skip(s, i + klen);
    if !(a < n && s[a] == 58) {
        return None;
    }
    let b = ws_skip(s, a + 1);
    if b < n && s[b] == 34 {
        match read_str_body(s, b + 1) {
            Some((v, e)) => Some((key, Some(v), e)),
            None => None,
        }
    } else if key != 0 && n - b >= 4 && s[b] == 110 && s[b + 1] == 117 && s[b + 2] == 108 && s[b
        + 3] == 108 {
        Some((key, None, b + 4))
    } else {
        None
    }
}

/// Reads the members of the inner object, starting at `i`.
fn read_members(s: &Vec<u8>, i: usize, seen: (bool, bool, bool), acc: (
    Option<Vec<u8>>,
    Option<Vec<u8>>,
    Option<Vec<u8>>,
), fuel: u8) -> (r: Option<((Vec<u8>, Option<Vec<u8>>, Option<Vec<u8>>), usize)>)
    requires
        i <= s@.len(),
    ensures
        r is Some <==> members(s@, i as int, seen, opt_views(acc), fuel as nat) is Some,
        r matches Some(t) ==> members(s@, i as int, seen, opt_views(acc), fuel as nat) matches Some(
            st,
        ) && t.0.0@ == st.0.0 && opt_view(t.0.1) == st.0.1 && opt_view(t.0.2) == st.0.2 && t.1
            == st.1 && t.1 <= s@.len(),
    decreases fuel,
{
    if fuel == 0 {
        return None;
    }
    let m = read_member(s, i);
    match m {
        None => None,
        Some((k, v, e)) => {
            if (k == 0 && seen.0) || (k == 1 && seen.1) || (k == 2 && seen.2) {
                return None;
            }
            let seen2 = (seen.0 || k == 0, seen.1 || k == 1, seen.2 || k == 2);
            let (a0, a1, a2) = acc;
            let acc2: (Option<Vec<u8>>, Option<Vec<u8>>, Option<Vec<u8>>) = if k == 0 {
                (v, a1, a2)
            } else if k == 1 {
                (a0, v, a2)
            } else {
                (a0, a1, v)
            };
            let t = ws_skip(s, e);
            if t < s.len() && s[t] == 125 {
                match acc2 {
                    (Some(msg), ty, cd) => Some(((msg, ty, cd), t + 1)),
                    _ => None,
                }
            } else if t < s.len() && s[t] == 44 {
                let nx = ws_skip(s, t + 1);
                read_members(s, nx, seen2, acc2, fuel - 1)
            } else {
                None
            }
        },
    }
}

/// The views of an optional byte vector.
pub open spec fn opt_view(v: Option<Vec<u8>>) -> Option<Seq<u8>> {
    match v {
        Some(x) => Some(x@),
        None => None,
    }
}

/// The views of three gathered member values.
pub open spec fn opt_views(acc: (Option<Vec<u8>>, Option<Vec<u8>>, Option<Vec<u8>>)) -> (
    Option<Seq<u8>>,
    Option<Seq<u8>>,
    Option<Seq<u8>>,
) {
    (opt_view(acc.0), opt_view(acc.1), opt_view(acc.2))
}

/// Decodes a response body as the provider's error envelope. Returns the
/// typed envelope exactly when the body has the envelope shape; the text
/// fields are the decoded member bytes.
pub fn parse_error_body(body: &Vec<u8>) -> (r: Option<ApiErrorResponse>)
    ensures
        r is Some <==> envelope_of(body@) is Some,
        r matches Some(resp) ==> envelope_of(body@) matches Some(t) && resp.error.message@
            == lossy_text(t.0) && (match (resp.error.error_type, t.1) {
            (Some(v), Some(sv)) => v@ == lossy_text(sv),
            (None, None) => true,
            _ => false,
        }) && (match (resp.error.code, t.2) {
            (Some(v), Some(sv)) => v@ == lossy_text(sv),
            (None, None) => true,
            _ => false,
        }),
{
    let n = body.len();
    let i0 = ws_skip(body, 0);
    if !(i0 < n && body[i0] == 123) {
        return None;
    }
    let i1 = ws_skip(body, i0 + 1);
    if !(n - i1 >= 7 && body[i1] == 34 && body[i1 + 1] == 101 && body[i1 + 2] == 114 && body[i1
        + 3] == 114 && body[i1 + 4] == 111 && body[i1 + 5] == 114 && body[i1 + 6] == 34) {
        return None;
    }
    let i2 = ws_skip(body, i1 + 7);
    if !(i2 < n && body[i2] == 58) {
        return None;
    }
    let i3 = ws_skip(body, i2 + 1);
    if !(i3 < n && body[i3] == 123) {
        return None;
    }
    let j = ws_skip(body, i3 + 1);
    match read_members(body, j, (false, false, false), (None, None, None), 3) {
        None => None,
        Some(((msg, ty, cd), e)) => {
            let u = ws_skip(body, e);
            if !(u < n && body[u] == 125) {
                return None;
            }
            if ws_skip(body, u + 1) != n {
                return None;
            }
            let message = bytes_to_text(&msg);
            let error_type = match ty {
                Some(v) => Some(bytes_to_text(&v)),
                None => None,
            };
            let code = match cd {
                Some(v) => Some(bytes_to_text(&v)),
                None => None,
            };
            Some(ApiErrorResponse { error: ApiErrorDetail { message, error_type, code } })
        },
    }
}

} // verus!
