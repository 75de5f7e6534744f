//! Decoding of the server's error payload.
//!
//! A failed request carries a body of the shape
//! `{"errors":[{"context":...,"message":...,"exceptionName":...},...]}`,
//! where each of the three fields is either the null keyword or a quoted
//! text. The decoder below accepts exactly the server's compact rendering of
//! that shape, with texts that carry neither a quote nor a backslash, and
//! its contract pins both directions: what a successful decode returns, and
//! that a refusal means no payload renders to the given body.

use crate::models::{BitbucketError, BitbucketErrors};
use vstd::prelude::*;
use vstd::string::StrSliceExecFns;

verus! {

/// A text the wire form can hold verbatim: no quote, no backslash.
pub open spec fn plain_text(s: Seq<char>) -> bool {
    forall|k: int| 0 <= k < s.len() ==> s[k] != '"' && s[k] != '\\'
}

/// The three texts one error entry carries: context, message, exception
/// name.
pub type ErrorFields = (Option<Seq<char>>, Seq<char>, Option<Seq<char>>);

/// The texts carried by one decoded entry.
pub open spec fn error_fields(e: BitbucketError) -> ErrorFields {
    (
        match e.context {
            Option::Some(c) => Option::Some(c@),
            Option::None => Option::None,
        },
        e.message@,
        match e.exception_name {
            Option::Some(x) => Option::Some(x@),
            Option::None => Option::None,
        },
    )
}

/// The texts carried by a sequence of decoded entries.
pub open spec fn errors_fields(es: Seq<BitbucketError>) -> Seq<ErrorFields> {
    es.map_values(|e: BitbucketError| error_fields(e))
}

/// Whether an entry's texts are all plain.
pub open spec fn plain_fields(v: ErrorFields) -> bool {
    &&& (v.0 is Some ==> plain_text(v.0->0))
    &&& plain_text(v.1)
    &&& (v.2 is Some ==> plain_text(v.2->0))
}

/// Whether every entry's texts are plain.
pub open spec fn plain_fields_seq(vs: Seq<ErrorFields>) -> bool {
    forall|k: int| 0 <= k < vs.len() ==> plain_fields(#[trigger] vs[k])
}

/// A text in its quotes.
pub open spec fn quoted(s: Seq<char>) -> Seq<char> {
    seq!['"'] + s + seq!['"']
}

/// An optional text: absent renders as the null keyword.
pub open spec fn quoted_or_null(o: Option<Seq<char>>) -> Seq<char> {
    match o {
        Option::Some(s) => quoted(s),
        Option::None => "null"@,
    }
}

/// The wire form of one error entry.
pub open spec fn error_json(v: ErrorFields) -> Seq<char> {
    "{\"context\":"@ + quoted_or_null(v.0) + ",\"message\":"@ + quoted(v.1)
        + ",\"exceptionName\":"@ + quoted_or_null(v.2) + "}"@
}

/// The comma-separated wire form of a sequence of entries.
pub open spec fn errors_list_json(vs: Seq<ErrorFields>) -> Seq<char>
    decreases vs.len(),
{
    if vs.len() == 0 {
        Seq::<char>::empty()
    } else if vs.len() == 1 {
        error_json(vs[0])
    } else {
        error_json(vs[0]) + ","@ + errors_list_json(vs.drop_first())
    }
}

/// The whole wire form of an error payload.
pub open spec fn errors_json(vs: Seq<ErrorFields>) -> Seq<char> {
    "{\"errors\":["@ + errors_list_json(vs) + "]}"@
}

/// Whether `p` occurs in `s` starting at position `i`.
pub open spec fn starts_with_at(s: Seq<char>, p: Seq<char>, i: int) -> bool {
    &&& 0 <= i
    &&& i + p.len() <= s.len()
    &&& forall|k: int| 0 <= k < p.len() ==> s[i + k] == p[k]
}

/// Two fragments occur back to back exactly when their concatenation does.
proof fn lemma_starts_with_concat(s: Seq<char>, p1: Seq<char>, p2: Seq<char>, i: int)
    ensures
        starts_with_at(s, p1 + p2, i) <==> (starts_with_at(s, p1, i) && starts_with_at(
            s,
            p2,
            i + p1.len(),
        )),
{
    if starts_with_at(s, p1 + p2, i) {
        assert forall|k: int| 0 <= k < p1.len() implies s[i + k] == p1[k] by {
            assert((p1 + p2)[k] == p1[k]);
        }
        assert forall|k: int| 0 <= k < p2.len() implies s[i + p1.len() + k] == p2[k] by {
            assert((p1 + p2)[p1.len() + k] == p2[k]);
        }
    }
    if starts_with_at(s, p1, i) && starts_with_at(s, p2, i + p1.len()) {
        assert forall|k: int| 0 <= k < (p1 + p2).len() implies s[i + k] == (p1 + p2)[k] by {
            if k < p1.len() {
                assert((p1 + p2)[k] == p1[k]);
            } else {
                assert((p1 + p2)[k] == p2[k - p1.len()]);
            }
        }
    }
}

/// A whole string starts with each piece of its own concatenation.
proof fn lemma_eq_concat_starts(s: Seq<char>, p1: Seq<char>, p2: Seq<char>)
    requires
        s == p1 + p2,
    ensures
        starts_with_at(s, p1, 0),
        starts_with_at(s, p2, p1.len() as int),
{
    lemma_starts_with_concat(s, p1, p2, 0);
    assert(starts_with_at(s, p1 + p2, 0));
}

/// Checks whether the literal `lit` occurs in `body` at position `i`.
fn expect_lit(body: &str, i: usize, lit: &str) -> (r: Option<usize>)
    requires
        i <= body@.len(),
    ensures
        (match r {
            Option::Some(j) => j == i + lit@.len() && starts_with_at(body@, lit@, i as int),
            Option::None => !starts_with_at(body@, lit@, i as int),
        }),
{
    let n = body.unicode_len();
    let m = lit.unicode_len();
    if m > n - i {
        return Option::None;
    }
    let mut k: usize = 0;
    while k < m
        invariant
            0 <= k <= m,
            m == lit@.len(),
            n == body@.len(),
            i + m <= n,
            forall|t: int| 0 <= t < k ==> body@[i + t] == lit@[t],
        decreases m - k,
    {
        if body.get_char(i + k) != lit.get_char(k) {
            proof {
                assert(!starts_with_at(body@, lit@, i as int)) by {
                    if starts_with_at(body@, lit@, i as int) {
                        assert(body@[i + k as int] == lit@[k as int]);
                    }
                }
            }
            return Option::None;
        }
        k = k + 1;
    }
    Option::Some(i + m)
}

/// Parses a quoted plain text at position `i`, handing back the text and
/// the position just past its closing quote.
fn parse_text(body: &str, i: usize) -> (r: Option<(String, usize)>)
    requires
        i <= body@.len(),
    ensures
        (match r {
            Option::Some((t, j)) => {
                &&& plain_text(t@)
                &&& starts_with_at(body@, quoted(t@), i as int)
                &&& j == i + t@.len() + 2
                &&& j <= body@.len()
            },
            Option::None => forall|s: Seq<char>|
                plain_text(s) ==> !starts_with_at(body@, quoted(s), i as int),
        }),
{
    let n = body.unicode_len();
    if i >= n || body.get_char(i) != '"' {
        proof {
            assert forall|s: Seq<char>| plain_text(s) implies !starts_with_at(
                body@,
                quoted(s),
                i as int,
            ) by {
                if starts_with_at(body@, quoted(s), i as int) {
                    assert(quoted(s)[0] == '"');
                    assert(body@[i as int] == '"');
                }
            }
        }
        return Option::None;
    }
    let mut j = i + 1;
    while j < n
        invariant
            i + 1 <= j <= n,
            n == body@.len(),
            i < n,
            body@[i as int] == '"',
            forall|t: int| i < t < j ==> body@[t] != '"' && body@[t] != '\\',
        decreases n - j,
    {
        let c = body.get_char(j);
        if c == '"' {
            let t = body.substring_char(i + 1, j).to_owned();
            proof {
                assert forall|k: int| 0 <= k < quoted(t@).len() implies body@[i + k] == quoted(
                    t@,
                )[k] by {
                    if k == 0 {
                        assert(quoted(t@)[0] == '"');
                    } else if k <= t@.len() {
                        assert(quoted(t@)[k] == t@[k - 1]);
                        assert(t@[k - 1] == body@[i + k]);
                    } else {
                        assert(quoted(t@)[k] == '"');
                    }
                }
                assert forall|k: int| 0 <= k < t@.len() implies t@[k] != '"' && t@[k] != '\\' by {
                    assert(t@[k] == body@[i + 1 + k]);
                }
            }
            return Option::Some((t, j + 1));
        }
        if c == '\\' {
            proof {
                assert forall|s: Seq<char>| plain_text(s) implies !starts_with_at(
                    body@,
                    quoted(s),
                    i as int,
                ) by {
                    if starts_with_at(body@, quoted(s), i as int) {
                        let close = i + 1 + s.len();
                        assert(quoted(s)[s.len() as int + 1] == '"');
                        assert(body@[close] == '"');
                        if close < j {
                            assert(body@[close] != '"');
                        } else if close == j {
                            assert(body@[j as int] == '\\');
                        } else {
                            assert(quoted(s)[j - i] == s[j - i - 1]);
                            assert(body@[j as int] == s[j - i - 1]);
                            assert(s[j - i - 1] != '\\');
                        }
                    }
                }
            }
            return Option::None;
        }
        j = j + 1;
    }
    proof {
        assert forall|s: Seq<char>| plain_text(s) implies !starts_with_at(
            body@,
            quoted(s),
            i as int,
        ) by {
            if starts_with_at(body@, quoted(s), i as int) {
                let close = i + 1 + s.len();
                assert(quoted(s)[s.len() as int + 1] == '"');
                assert(body@[close] == '"');
                assert(i < close < n);
                assert(body@[close] != '"');
            }
        }
    }
    Option::None
}

/// The view of an optional owned text.
pub open spec fn opt_view(o: Option<String>) -> Option<Seq<char>> {
    match o {
        Option::Some(t) => Option::Some(t@),
        Option::None => Option::None,
    }
}

/// Whether an optional text is plain.
pub open spec fn plain_opt(o: Option<Seq<char>>) -> bool {
    o is Some ==> plain_text(o->0)
}

/// Parses the null keyword or a quoted plain text at position `i`.
fn parse_opt_text(body: &str, i: usize) -> (r: Option<(Option<String>, usize)>)
    requires
        i <= body@.len(),
    ensures
        (match r {
            Option::Some((o, j)) => {
                &&& plain_opt(opt_view(o))
                &&& starts_with_at(body@, quoted_or_null(opt_view(o)), i as int)
                &&& j == i + quoted_or_null(opt_view(o)).len()
                &&& j <= body@.len()
            },
            Option::None => forall|o: Option<Seq<char>>|
                plain_opt(o) ==> !starts_with_at(body@, quoted_or_null(o), i as int),
        }),
{
    match expect_lit(body, i, "null") {
        Option::Some(j) => Option::Some((Option::None, j)),
        Option::None => {
            match parse_text(body, i) {
                Option::Some((t, j)) => Option::Some((Option::Some(t), j)),
                Option::None => Option::None,
            }
        },
    }
}

/// Two plain texts rendered at the same position are the same text.
proof fn lemma_text_unique(s: Seq<char>, t1: Seq<char>, t2: Seq<char>, i: int)
    requires
        plain_text(t1),
        plain_text(t2),
        starts_with_at(s, quoted(t1), i),
        starts_with_at(s, quoted(t2), i),
    ensures
        t1 == t2,
{
    if t1.len() < t2.len() {
        let k = t1.len() as int;
        assert(quoted(t1)[1 + k] == '"');
        assert(s[i + 1 + k] == '"');
        assert(quoted(t2)[1 + k] == t2[k]);
        assert(s[i + 1 + k] == t2[k]);
        assert(false);
    }
    if t2.len() < t1.len() {
        let k = t2.len() as int;
        assert(quoted(t2)[1 + k] == '"');
        assert(s[i + 1 + k] == '"');
        assert(quoted(t1)[1 + k] == t1[k]);
        assert(s[i + 1 + k] == t1[k]);
        assert(false);
    }
    assert forall|k: int| 0 <= k < t1.len() implies t1[k] == t2[k] by {
        assert(quoted(t1)[1 + k] == t1[k]);
        assert(quoted(t2)[1 + k] == t2[k]);
        assert(s[i + 1 + k] == quoted(t1)[1 + k]);
        assert(s[i + 1 + k] == quoted(t2)[1 + k]);
    }
    assert(t1 =~= t2);
}

/// Two optional plain texts rendered at the same position are the same.
proof fn lemma_opt_unique(s: Seq<char>, a: Option<Seq<char>>, b: Option<Seq<char>>, i: int)
    requires
        plain_opt(a),
        plain_opt(b),
        starts_with_at(s, quoted_or_null(a), i),
        starts_with_at(s, quoted_or_null(b), i),
    ensures
        a == b,
{
    reveal_strlit("null");
    if a is None && b is Some {
        assert(s[i + 0] == "null"@[0]);
        assert(quoted(b->0)[0] == '"');
        assert(s[i + 0] == quoted(b->0)[0]);
        assert(false);
    }
    if a is Some && b is None {
        assert(s[i + 0] == "null"@[0]);
        assert(quoted(a->0)[0] == '"');
        assert(s[i + 0] == quoted(a->0)[0]);
        assert(false);
    }
    if a is Some && b is Some {
        lemma_text_unique(s, a->0, b->0, i);
    }
}

/// Where each piece of an entry's wire form lies, measured from the
/// position of the whole entry.
proof fn lemma_error_split(s: Seq<char>, v: ErrorFields, i: int)
    requires
        starts_with_at(s, error_json(v), i),
    ensures
        error_json(v).len() == 42 + quoted_or_null(v.0).len() + v.1.len() + quoted_or_null(
            v.2,
        ).len(),
        starts_with_at(s, "{\"context\":"@, i),
        starts_with_at(s, quoted_or_null(v.0), i + 11),
        starts_with_at(s, ",\"message\":"@, i + 11 + quoted_or_null(v.0).len()),
        starts_with_at(s, quoted(v.1), i + 22 + quoted_or_null(v.0).len()),
        starts_with_at(s, ",\"exceptionName\":"@, i + 24 + quoted_or_null(v.0).len() + v.1.len()),
        starts_with_at(
            s,
            quoted_or_null(v.2),
            i + 41 + quoted_or_null(v.0).len() + v.1.len(),
        ),
        starts_with_at(
            s,
            "}"@,
            i + 41 + quoted_or_null(v.0).len() + v.1.len() + quoted_or_null(v.2).len(),
        ),
{
    reveal_strlit("{\"context\":");
    reveal_strlit(",\"message\":");
    reveal_strlit(",\"exceptionName\":");
    reveal_strlit("}");
    let l1 = "{\"context\":"@;
    let q0 = quoted_or_null(v.0);
    let l2 = ",\"message\":"@;
    let q1 = quoted(v.1);
    let l3 = ",\"exceptionName\":"@;
    let q2 = quoted_or_null(v.2);
    let l4 = "}"@;
    lemma_starts_with_concat(s, l1 + q0 + l2 + q1 + l3 + q2, l4, i);
    lemma_starts_with_concat(s, l1 + q0 + l2 + q1 + l3, q2, i);
    lemma_starts_with_concat(s, l1 + q0 + l2 + q1, l3, i);
    lemma_starts_with_concat(s, l1 + q0 + l2, q1, i);
    lemma_starts_with_concat(s, l1 + q0, l2, i);
    lemma_starts_with_concat(s, l1, q0, i);
}

/// The converse: pieces at their places make up a whole entry.
proof fn lemma_error_join(s: Seq<char>, v: ErrorFields, i: int)
    requires
        starts_with_at(s, "{\"context\":"@, i),
        starts_with_at(s, quoted_or_null(v.0), i + 11),
        starts_with_at(s, ",\"message\":"@, i + 11 + quoted_or_null(v.0).len()),
        starts_with_at(s, quoted(v.1), i + 22 + quoted_or_null(v.0).len()),
        starts_with_at(s, ",\"exceptionName\":"@, i + 24 + quoted_or_null(v.0).len() + v.1.len()),
        starts_with_at(
            s,
            quoted_or_null(v.2),
            i + 41 + quoted_or_null(v.0).len() + v.1.len(),
        ),
        starts_with_at(
            s,
            "}"@,
            i + 41 + quoted_or_null(v.0).len() + v.1.len() + quoted_or_null(v.2).len(),
        ),
    ensures
        starts_with_at(s, error_json(v), i),
        error_json(v).len() == 42 + quoted_or_null(v.0).len() + v.1.len() + quoted_or_null(
            v.2,
        ).len(),
{
    reveal_strlit("{\"context\":");
    reveal_strlit(",\"message\":");
    reveal_strlit(",\"exceptionName\":");
    reveal_strlit("}");
    let l1 = "{\"context\":"@;
    let q0 = quoted_or_null(v.0);
    let l2 = ",\"message\":"@;
    let q1 = quoted(v.1);
    let l3 = ",\"exceptionName\":"@;
    let q2 = quoted_or_null(v.2);
    let l4 = "}"@;
    lemma_starts_with_concat(s, l1, q0, i);
    lemma_starts_with_concat(s, l1 + q0, l2, i);
    lemma_starts_with_concat(s, l1 + q0 + l2, q1, i);
    lemma_starts_with_concat(s, l1 + q0 + l2 + q1, l3, i);
    lemma_starts_with_concat(s, l1 + q0 + l2 + q1 + l3, q2, i);
    lemma_starts_with_concat(s, l1 + q0 + l2 + q1 + l3 + q2, l4, i);
}

/// Parses one error entry at position `i`.
fn parse_error(body: &str, i: usize) -> (r: Option<(BitbucketError, usize)>)
    requires
        i <= body@.len(),
    ensures
        (match r {
            Option::Some((e, j)) => {
                &&& plain_fields(error_fields(e))
                &&& starts_with_at(body@, error_json(error_fields(e)), i as int)
                &&& j == i + error_json(error_fields(e)).len()
                &&& j <= body@.len()
            },
            Option::None => forall|v: ErrorFields|
                plain_fields(v) ==> !starts_with_at(body@, error_json(v), i as int),
        }),
{
    let j0 = match expect_lit(body, i, "{\"context\":") {
        Option::Some(j) => j,
        Option::None => {
            proof {
                assert forall|v: ErrorFields| plain_fields(v) implies !starts_with_at(
                    body@,
                    error_json(v),
                    i as int,
                ) by {
                    if starts_with_at(body@, error_json(v), i as int) {
                        lemma_error_split(body@, v, i as int);
                    }
                }
            }
            return Option::None;
        },
    };
    let (ctx, j1) = match parse_opt_text(body, j0) {
        Option::Some(p) => p,
        Option::None => {
            proof {
                assert forall|v: ErrorFields| plain_fields(v) implies !starts_with_at(
                    body@,
                    error_json(v),
                    i as int,
                ) by {
                    if starts_with_at(body@, error_json(v), i as int) {
                        lemma_error_split(body@, v, i as int);
                        reveal_strlit("{\"context\":");
                        assert(j0 as int == i + 11);
                        assert(plain_opt(v.0));
                        assert(starts_with_at(body@, quoted_or_null(v.0), j0 as int));
                    }
                }
            }
            return Option::None;
        },
    };
    let j2 = match expect_lit(body, j1, ",\"message\":") {
        Option::Some(j) => j,
        Option::None => {
            proof {
                assert forall|v: ErrorFields| plain_fields(v) implies !starts_with_at(
                    body@,
                    error_json(v),
                    i as int,
                ) by {
                    if starts_with_at(body@, error_json(v), i as int) {
                        lemma_error_split(body@, v, i as int);
                        reveal_strlit("{\"context\":");
                        assert(j0 as int == i + 11);
                        lemma_opt_unique(body@, v.0, opt_view(ctx), i + 11);
                        assert(j1 as int == i + 11 + quoted_or_null(v.0).len());
                        assert(starts_with_at(body@, ",\"message\":"@, j1 as int));
                    }
                }
            }
            return Option::None;
        },
    };
    let (msg, j3) = match parse_text(body, j2) {
        Option::Some(p) => p,
        Option::None => {
            proof {
                assert forall|v: ErrorFields| plain_fields(v) implies !starts_with_at(
                    body@,
                    error_json(v),
                    i as int,
                ) by {
                    if starts_with_at(body@, error_json(v), i as int) {
                        lemma_error_split(body@, v, i as int);
                        reveal_strlit("{\"context\":");
                        reveal_strlit(",\"message\":");
                        assert(j0 as int == i + 11);
                        lemma_opt_unique(body@, v.0, opt_view(ctx), i + 11);
                        assert(j2 as int == i + 22 + quoted_or_null(v.0).len());
                        assert(starts_with_at(body@, quoted(v.1), j2 as int));
                    }
                }
            }
            return Option::None;
        },
    };
    let j4 = match expect_lit(body, j3, ",\"exceptionName\":") {
        Option::Some(j) => j,
        Option::None => {
            proof {
                assert forall|v: ErrorFields| plain_fields(v) implies !starts_with_at(
                    body@,
                    error_json(v),
                    i as int,
                ) by {
                    if starts_with_at(body@, error_json(v), i as int) {
                        lemma_error_split(body@, v, i as int);
                        reveal_strlit("{\"context\":");
                        reveal_strlit(",\"message\":");
                        assert(j0 as int == i + 11);
                        lemma_opt_unique(body@, v.0, opt_view(ctx), i + 11);
                        assert(j2 as int == i + 22 + quoted_or_null(v.0).len());
                        lemma_text_unique(body@, v.1, msg@, j2 as int);
                        assert(j3 as int == i + 24 + quoted_or_null(v.0).len() + v.1.len());
                        assert(starts_with_at(body@, ",\"exceptionName\":"@, j3 as int));
                    }
                }
            }
            return Option::None;
        },
    };
    let (exc, j5) = match parse_opt_text(body, j4) {
        Option::Some(p) => p,
        Option::None => {
            proof {
                assert forall|v: ErrorFields| plain_fields(v) implies !starts_with_at(
                    body@,
                    error_json(v),
                    i as int,
                ) by {
                    if starts_with_at(body@, error_json(v), i as int) {
                        lemma_error_split(body@, v, i as int);
                        reveal_strlit("{\"context\":");
                        reveal_strlit(",\"message\":");
                        reveal_strlit(",\"exceptionName\":");
                        assert(j0 as int == i + 11);
                        lemma_opt_unique(body@, v.0, opt_view(ctx), i + 11);
                        assert(j2 as int == i + 22 + quoted_or_null(v.0).len());
                        lemma_text_unique(body@, v.1, msg@, j2 as int);
                        assert(j4 as int == i + 41 + quoted_or_null(v.0).len() + v.1.len());
                        assert(plain_opt(v.2));
                        assert(starts_with_at(body@, quoted_or_null(v.2), j4 as int));
                    }
                }
            }
            return Option::None;
        },
    };
    let j6 = match expect_lit(body, j5, "}") {
        Option::Some(j) => j,
        Option::None => {
            proof {
                assert forall|v: ErrorFields| plain_fields(v) implies !starts_with_at(
                    body@,
                    error_json(v),
                    i as int,
                ) by {
                    if starts_with_at(body@, error_json(v), i as int) {
                        lemma_error_split(body@, v, i as int);
                        reveal_strlit("{\"context\":");
                        reveal_strlit(",\"message\":");
                        reveal_strlit(",\"exceptionName\":");
                        assert(j0 as int == i + 11);
                        lemma_opt_unique(body@, v.0, opt_view(ctx), i + 11);
                        assert(j2 as int == i + 22 + quoted_or_null(v.0).len());
                        lemma_text_unique(body@, v.1, msg@, j2 as int);
                        assert(j4 as int == i + 41 + quoted_or_null(v.0).len() + v.1.len());
                        lemma_opt_unique(body@, v.2, opt_view(exc), j4 as int);
                        assert(j5 as int == i + 41 + quoted_or_null(v.0).len() + v.1.len()
                            + quoted_or_null(v.2).len());
                        assert(starts_with_at(body@, "}"@, j5 as int));
                    }
                }
            }
            return Option::None;
        },
    };
    let e = BitbucketError { context: ctx, message: msg, exception_name: exc };
    proof {
        reveal_strlit("{\"context\":");
        reveal_strlit(",\"message\":");
        reveal_strlit(",\"exceptionName\":");
        reveal_strlit("}");
        lemma_error_join(body@, error_fields(e), i as int);
    }
    Option::Some((e, j6))
}

/// Two plain entries rendered at the same position are the same entry.
proof fn lemma_error_unique(s: Seq<char>, v1: ErrorFields, v2: ErrorFields, i: int)
    requires
        plain_fields(v1),
        plain_fields(v2),
        starts_with_at(s, error_json(v1), i),
        starts_with_at(s, error_json(v2), i),
    ensures
        v1 == v2,
{
    lemma_error_split(s, v1, i);
    lemma_error_split(s, v2, i);
    lemma_opt_unique(s, v1.0, v2.0, i + 11);
    lemma_text_unique(s, v1.1, v2.1, i + 22 + quoted_or_null(v1.0).len());
    lemma_opt_unique(s, v1.2, v2.2, i + 41 + quoted_or_null(v1.0).len() + v1.1.len());
}

/// Splitting a suffix equality into a prefix occurrence and the rest.
proof fn lemma_skip_starts(s: Seq<char>, p: Seq<char>, q: Seq<char>, j: int)
    requires
        0 <= j <= s.len(),
        s.skip(j) == p + q,
    ensures
        starts_with_at(s, p, j),
        s.skip(j + p.len()) == q,
{
    assert(s.skip(j).len() == s.len() - j);
    assert forall|k: int| 0 <= k < p.len() implies s[j + k] == p[k] by {
        assert(s.skip(j)[k] == s[j + k]);
        assert((p + q)[k] == p[k]);
    }
    assert(s.skip(j + p.len()) =~= q) by {
        assert forall|k: int| 0 <= k < q.len() implies s.skip(j + p.len() as int)[k] == q[k] by {
            assert(s.skip(j + p.len() as int)[k] == s[j + p.len() + k]);
            assert(s.skip(j)[p.len() + k] == s[j + p.len() + k]);
            assert((p + q)[p.len() + k] == q[k]);
        }
    }
}

/// An occurrence extends what was read so far.
proof fn lemma_starts_take(s: Seq<char>, p: Seq<char>, j: int)
    requires
        0 <= j,
        starts_with_at(s, p, j),
    ensures
        s.take(j + p.len()) == s.take(j) + p,
{
    assert(s.take(j + p.len() as int) =~= s.take(j) + p);
}

/// A string whose prefix and closing piece meet at its end is their
/// concatenation.
proof fn lemma_full_split(s: Seq<char>, p: Seq<char>, j: int)
    requires
        0 <= j,
        starts_with_at(s, p, j),
        j + p.len() == s.len(),
    ensures
        s == s.take(j) + p,
{
    assert(s =~= s.take(j) + p);
}

/// The remaining wire form from a position where items are still expected:
/// the remaining entries, then the closing.
pub open spec fn rest_json(vs: Seq<ErrorFields>) -> Seq<char> {
    errors_list_json(vs) + "]}"@
}

/// One unfolding step of the remaining wire form.
proof fn lemma_rest_unfold(vs: Seq<ErrorFields>)
    requires
        vs.len() > 0,
    ensures
        vs.len() == 1 ==> rest_json(vs) == error_json(vs[0]) + "]}"@,
        vs.len() > 1 ==> rest_json(vs) == error_json(vs[0]) + (","@ + rest_json(
            vs.drop_first(),
        )),
{
    if vs.len() > 1 {
        assert(rest_json(vs) =~= error_json(vs[0]) + (","@ + rest_json(vs.drop_first())));
    }
}

/// Appending one entry to a rendered list appends a separator and the
/// entry's wire form.
proof fn lemma_list_snoc(vs: Seq<ErrorFields>, v: ErrorFields)
    ensures
        vs.len() == 0 ==> errors_list_json(vs.push(v)) == error_json(v),
        vs.len() > 0 ==> errors_list_json(vs.push(v)) == errors_list_json(vs) + ","@ + error_json(
            v,
        ),
    decreases vs.len(),
{
    let w = vs.push(v);
    if vs.len() == 0 {
        assert(w.len() == 1);
        assert(w[0] == v);
    } else if vs.len() == 1 {
        assert(w[0] == vs[0]);
        assert(w.drop_first() =~= seq![v]);
        assert(errors_list_json(seq![v]) == error_json(v));
        assert(errors_list_json(w) == error_json(vs[0]) + ","@ + error_json(v));
    } else {
        assert(w[0] == vs[0]);
        assert(w.drop_first() =~= vs.drop_first().push(v));
        lemma_list_snoc(vs.drop_first(), v);
        assert(errors_list_json(w) == error_json(vs[0]) + ","@ + (errors_list_json(
            vs.drop_first(),
        ) + ","@ + error_json(v)));
        assert(error_json(vs[0]) + ","@ + (errors_list_json(vs.drop_first()) + ","@ + error_json(
            v,
        )) =~= (error_json(vs[0]) + ","@ + errors_list_json(vs.drop_first())) + ","@ + error_json(
            v,
        ));
    }
}

/// The texts of entries commute with appending an entry.
proof fn lemma_fields_push(es: Seq<BitbucketError>, e: BitbucketError)
    ensures
        errors_fields(es.push(e)) == errors_fields(es).push(error_fields(e)),
{
    assert(errors_fields(es.push(e)) =~= errors_fields(es).push(error_fields(e)));
}

/// Decodes an error payload body.
///
/// On success the body is exactly the wire form of the returned payload; a
/// refusal means no plain payload renders to the body.
pub fn decode_errors(body: &str) -> (r: Option<BitbucketErrors>)
    ensures
        (match r {
            Option::Some(es) => {
                &&& plain_fields_seq(errors_fields(es.errors@))
                &&& body@ == errors_json(errors_fields(es.errors@))
            },
            Option::None => forall|vs: Seq<ErrorFields>|
                plain_fields_seq(vs) ==> body@ != errors_json(vs),
        }),
{
    let n = body.unicode_len();
    let j0 = match expect_lit(body, 0, "{\"errors\":[") {
        Option::Some(j) => j,
        Option::None => {
            proof {
                assert forall|vs: Seq<ErrorFields>| plain_fields_seq(vs) implies body@
                    != errors_json(vs) by {
                    if body@ == errors_json(vs) {
                        assert(errors_json(vs) =~= "{\"errors\":["@ + (errors_list_json(vs)
                            + "]}"@));
                        lemma_eq_concat_starts(
                            body@,
                            "{\"errors\":["@,
                            errors_list_json(vs) + "]}"@,
                        );
                    }
                }
            }
            return Option::None;
        },
    };
    proof {
        reveal_strlit("{\"errors\":[");
        assert(j0 == 11);
    }
    match expect_lit(body, j0, "]}") {
        Option::Some(jend) => {
            if jend == n {
                proof {
                    reveal_strlit("]}");
                    assert(body@ =~= "{\"errors\":["@ + "]}"@);
                    let vs0 = errors_fields(Seq::<BitbucketError>::empty());
                    assert(vs0.len() == 0);
                    assert(errors_json(vs0) =~= "{\"errors\":["@ + "]}"@);
                }
                let empty_list: Vec<BitbucketError> = Vec::new();
                return Option::Some(BitbucketErrors { errors: empty_list });
            }
            proof {
                reveal_strlit("{\"errors\":[");
                reveal_strlit("]}");
                reveal_strlit("{\"context\":");
                assert forall|vs: Seq<ErrorFields>| plain_fields_seq(vs) implies body@
                    != errors_json(vs) by {
                    if body@ == errors_json(vs) {
                        assert(errors_json(vs) =~= "{\"errors\":["@ + (errors_list_json(vs)
                            + "]}"@));
                        assert(body@.skip(0) =~= body@);
                        lemma_skip_starts(body@, "{\"errors\":["@, errors_list_json(vs) + "]}"@, 0);
                        if vs.len() == 0 {
                            assert(body@.skip(11) == "]}"@);
                            assert(body@.len() == 13);
                        } else {
                            assert(body@.skip(11) == rest_json(vs));
                            lemma_rest_unfold(vs);
                            if vs.len() == 1 {
                                lemma_skip_starts(body@, error_json(vs[0]), "]}"@, 11);
                            } else {
                                lemma_skip_starts(
                                    body@,
                                    error_json(vs[0]),
                                    ","@ + rest_json(vs.drop_first()),
                                    11,
                                );
                            }
                            lemma_error_split(body@, vs[0], 11);
                            assert(body@[11 + 0int] == "{\"context\":"@[0]);
                            assert(body@[11] == '{');
                            assert(starts_with_at(body@, "]}"@, 11));
                            assert(body@[11 + 0int] == "]}"@[0]);
                            assert(body@[11] == ']');
                        }
                    }
                }
            }
            return Option::None;
        },
        Option::None => {},
    }
    let mut acc: Vec<BitbucketError> = Vec::new();
    let mut j = j0;
    proof {
        assert(acc@ =~= Seq::<BitbucketError>::empty());
        assert(errors_fields(acc@) =~= Seq::<ErrorFields>::empty());
        assert forall|vs: Seq<ErrorFields>|
            plain_fields_seq(vs) && body@ == errors_json(vs) implies {
            &&& vs.len() > acc@.len()
            &&& vs.take(acc@.len() as int) == errors_fields(acc@)
            &&& body@.skip(j as int) == rest_json(vs.skip(acc@.len() as int))
        } by {
            assert(errors_json(vs) =~= "{\"errors\":["@ + (errors_list_json(vs) + "]}"@));
            assert(body@.skip(0) =~= body@);
            lemma_skip_starts(body@, "{\"errors\":["@, errors_list_json(vs) + "]}"@, 0);
            reveal_strlit("]}");
            if vs.len() == 0 {
                assert(body@.skip(11) == "]}"@);
                assert(starts_with_at(body@, "]}"@, 11));
            }
            assert(vs.take(0) =~= errors_fields(acc@));
            assert(vs.skip(0) =~= vs);
        }
        assert(body@.take(11) =~= "{\"errors\":["@);
    }
    loop
        invariant
            n == body@.len(),
            j0 == 11,
            11 <= j <= n,
            plain_fields_seq(errors_fields(acc@)),
            body@.take(j as int) == (if acc@.len() == 0 {
                "{\"errors\":["@
            } else {
                "{\"errors\":["@ + errors_list_json(errors_fields(acc@)) + ","@
            }),
            forall|vs: Seq<ErrorFields>|
                plain_fields_seq(vs) && body@ == errors_json(vs) ==> {
                    &&& vs.len() > acc@.len()
                    &&& vs.take(acc@.len() as int) == errors_fields(acc@)
                    &&& body@.skip(j as int) == rest_json(vs.skip(acc@.len() as int))
                },
        decreases n - j,
    {
        let ghost acc_prev = acc@;
        let ghost m = acc@.len() as int;
        let (e, j2) = match parse_error(body, j) {
            Option::Some(p) => p,
            Option::None => {
                proof {
                    assert forall|vs: Seq<ErrorFields>| plain_fields_seq(vs) implies body@
                        != errors_json(vs) by {
                        if body@ == errors_json(vs) {
                            let tail = vs.skip(m);
                            assert(tail.len() > 0);
                            assert(tail[0] == vs[m]);
                            lemma_rest_unfold(tail);
                            if tail.len() == 1 {
                                lemma_skip_starts(body@, error_json(vs[m]), "]}"@, j as int);
                            } else {
                                lemma_skip_starts(
                                    body@,
                                    error_json(vs[m]),
                                    ","@ + rest_json(tail.drop_first()),
                                    j as int,
                                );
                            }
                            assert(plain_fields(vs[m]));
                        }
                    }
                }
                return Option::None;
            },
        };
        proof {
            lemma_error_split(body@, error_fields(e), j as int);
            assert(error_json(error_fields(e)).len() >= 42);
        }
        acc.push(e);
        let step = expect_lit(body, j2, ",");
        match step {
            Option::Some(jc) => {
                proof {
                    reveal_strlit(",");
                    reveal_strlit("]}");
                    let fe = error_fields(e);
                    lemma_fields_push(acc_prev, e);
                    lemma_starts_take(body@, error_json(fe), j as int);
                    lemma_starts_take(body@, ","@, j2 as int);
                    assert(body@.take(jc as int) == body@.take(j as int) + error_json(fe)
                        + ","@);
                    if m == 0 {
                        assert(errors_fields(acc@) =~= seq![fe]);
                        assert(errors_list_json(seq![fe]) == error_json(fe));
                        assert(body@.take(jc as int) =~= "{\"errors\":["@ + errors_list_json(
                            errors_fields(acc@),
                        ) + ","@);
                    } else {
                        lemma_list_snoc(errors_fields(acc_prev), fe);
                        assert(body@.take(jc as int) =~= "{\"errors\":["@ + errors_list_json(
                            errors_fields(acc@),
                        ) + ","@);
                    }
                    assert forall|k: int|
                        0 <= k < errors_fields(acc@).len() implies plain_fields(
                        #[trigger] errors_fields(acc@)[k],
                    ) by {
                        if k < m {
                            assert(errors_fields(acc_prev)[k] == errors_fields(acc@)[k]);
                        }
                    }
                    assert forall|vs: Seq<ErrorFields>|
                        plain_fields_seq(vs) && body@ == errors_json(vs) implies {
                        &&& vs.len() > acc@.len()
                        &&& vs.take(acc@.len() as int) == errors_fields(acc@)
                        &&& body@.skip(jc as int) == rest_json(vs.skip(acc@.len() as int))
                    } by {
                        let tail = vs.skip(m);
                        assert(tail.len() > 0);
                        assert(tail[0] == vs[m]);
                        lemma_rest_unfold(tail);
                        if tail.len() == 1 {
                            lemma_skip_starts(body@, error_json(vs[m]), "]}"@, j as int);
                            assert(plain_fields(vs[m]));
                            lemma_error_unique(body@, vs[m], fe, j as int);
                            assert(body@.skip(j2 as int) == "]}"@);
                            assert(body@.skip(j2 as int)[0] == body@[j2 as int]);
                            assert(body@[j2 as int] == ']');
                            assert(starts_with_at(body@, ","@, j2 as int));
                            assert(body@[j2 as int + 0] == ","@[0]);
                            assert(body@[j2 as int] == ',');
                        } else {
                            lemma_skip_starts(
                                body@,
                                error_json(vs[m]),
                                ","@ + rest_json(tail.drop_first()),
                                j as int,
                            );
                            assert(plain_fields(vs[m]));
                            lemma_error_unique(body@, vs[m], fe, j as int);
                            assert(body@.skip(j2 as int) == ","@ + rest_json(tail.drop_first()));
                            lemma_skip_starts(body@, ","@, rest_json(tail.drop_first()), j2 as int);
                            assert(body@.skip(jc as int) == rest_json(tail.drop_first()));
                            assert(tail.drop_first() =~= vs.skip(m + 1));
                            assert(vs.take(m + 1) =~= vs.take(m).push(vs[m]));
                            lemma_fields_push(acc_prev, e);
                            assert(vs.take(acc@.len() as int) == errors_fields(acc@));
                        }
                    }
                }
                j = jc;
            },
            Option::None => {
                let close = expect_lit(body, j2, "]}");
                match close {
                    Option::Some(jend) => {
                        if jend == n {
                            proof {
                                reveal_strlit("]}");
                                let fe = error_fields(e);
                                lemma_fields_push(acc_prev, e);
                                lemma_starts_take(body@, error_json(fe), j as int);
                                if m == 0 {
                                    assert(errors_fields(acc@) =~= seq![fe]);
                                    assert(errors_list_json(seq![fe]) == error_json(fe));
                                } else {
                                    lemma_list_snoc(errors_fields(acc_prev), fe);
                                }
                                assert(body@.take(j2 as int) =~= "{\"errors\":["@
                                    + errors_list_json(errors_fields(acc@)));
                                lemma_full_split(body@, "]}"@, j2 as int);
                                assert(body@ =~= "{\"errors\":["@ + errors_list_json(
                                    errors_fields(acc@),
                                ) + "]}"@);
                                assert forall|k: int|
                                    0 <= k < errors_fields(acc@).len() implies plain_fields(
                                    #[trigger] errors_fields(acc@)[k],
                                ) by {
                                    if k < m {
                                        assert(errors_fields(acc_prev)[k] == errors_fields(
                                            acc@,
                                        )[k]);
                                    }
                                }
                            }
                            return Option::Some(BitbucketErrors { errors: acc });
                        }
                        proof {
                            reveal_strlit(",");
                            reveal_strlit("]}");
                            let fe = error_fields(e);
                            assert forall|vs: Seq<ErrorFields>| plain_fields_seq(vs) implies body@
                                != errors_json(vs) by {
                                if body@ == errors_json(vs) {
                                    let tail = vs.skip(m);
                                    assert(tail.len() > 0);
                                    assert(tail[0] == vs[m]);
                                    lemma_rest_unfold(tail);
                                    if tail.len() == 1 {
                                        lemma_skip_starts(
                                            body@,
                                            error_json(vs[m]),
                                            "]}"@,
                                            j as int,
                                        );
                                        assert(plain_fields(vs[m]));
                                        lemma_error_unique(body@, vs[m], fe, j as int);
                                        assert(body@.skip(j2 as int) == "]}"@);
                                        assert(body@.len() - j2 == 2);
                                    } else {
                                        lemma_skip_starts(
                                            body@,
                                            error_json(vs[m]),
                                            ","@ + rest_json(tail.drop_first()),
                                            j as int,
                                        );
                                        assert(plain_fields(vs[m]));
                                        lemma_error_unique(body@, vs[m], fe, j as int);
                                        assert(body@.skip(j2 as int) == ","@ + rest_json(
                                            tail.drop_first(),
                                        ));
                                        assert(body@.skip(j2 as int)[0] == body@[j2 as int]);
                                        assert((","@ + rest_json(tail.drop_first()))[0]
                                            == ","@[0]);
                                        assert(body@[j2 as int] == ',');
                                        assert(starts_with_at(body@, "]}"@, j2 as int));
                                        assert(body@[j2 as int + 0] == "]}"@[0]);
                                        assert(body@[j2 as int] == ']');
                                    }
                                }
                            }
                        }
                        return Option::None;
                    },
                    Option::None => {
                        proof {
                            reveal_strlit(",");
                            reveal_strlit("]}");
                            let fe = error_fields(e);
                            assert forall|vs: Seq<ErrorFields>| plain_fields_seq(vs) implies body@
                                != errors_json(vs) by {
                                if body@ == errors_json(vs) {
                                    let tail = vs.skip(m);
                                    assert(tail.len() > 0);
                                    assert(tail[0] == vs[m]);
                                    lemma_rest_unfold(tail);
                                    if tail.len() == 1 {
                                        lemma_skip_starts(
                                            body@,
                                            error_json(vs[m]),
                                            "]}"@,
                                            j as int,
                                        );
                                        assert(plain_fields(vs[m]));
                                        lemma_error_unique(body@, vs[m], fe, j as int);
                                        assert(body@.skip(j2 as int) == "]}"@);
                                        lemma_skip_starts(
                                            body@,
                                            "]}"@,
                                            Seq::<char>::empty(),
                                            j2 as int,
                                        );
                                        assert(starts_with_at(body@, "]}"@, j2 as int));
                                    } else {
                                        lemma_skip_starts(
                                            body@,
                                            error_json(vs[m]),
                                            ","@ + rest_json(tail.drop_first()),
                                            j as int,
                                        );
                                        assert(plain_fields(vs[m]));
                                        lemma_error_unique(body@, vs[m], fe, j as int);
                                        assert(body@.skip(j2 as int) == ","@ + rest_json(
                                            tail.drop_first(),
                                        ));
                                        lemma_skip_starts(
                                            body@,
                                            ","@,
                                            rest_json(tail.drop_first()),
                                            j2 as int,
                                        );
                                        assert(starts_with_at(body@, ","@, j2 as int));
                                    }
                                }
                            }
                        }
                        return Option::None;
                    },
                }
            },
        }
    }
}

} // verus!
