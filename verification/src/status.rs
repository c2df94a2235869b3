//! The status-line parser: a decoded status payload is seven
//! whitespace-separated numeric fields in a fixed order. The parser splits
//! the line on runs of ASCII whitespace, takes at most the first seven
//! tokens, and accepts each only if it is written in the floating-point
//! syntax that the standard library's number parser reads: an optional
//! sign, then either digits with at most one decimal point, optionally
//! followed by an exponent part, or one of the words `inf`, `infinity` and
//! `nan` in any letter case. A partial parse is rejected wholesale.

use vstd::prelude::*;
use vstd::string::StrSliceExecFns;
use vstd::string::StringExecFns;
use crate::error::UpsError;

verus! {

/// ASCII whitespace. The protocol text a descriptor response decodes to is
/// printable ASCII, where the only separator that can occur is the space.
pub open spec fn is_space(c: char) -> bool {
    c == ' ' || c == '\t' || c == '\n' || c == '\r' || c == '\u{0b}' || c == '\u{0c}'
}

/// Length of the leading run of non-whitespace characters.
pub open spec fn token_len(s: Seq<char>) -> int
    decreases s.len(),
{
    if s.len() == 0 || is_space(s[0]) {
        0
    } else {
        1 + token_len(s.skip(1))
    }
}

pub proof fn lemma_token_len_bounds(s: Seq<char>)
    ensures
        0 <= token_len(s) <= s.len(),
        s.len() > 0 && !is_space(s[0]) ==> 1 <= token_len(s),
    decreases s.len(),
{
    if s.len() > 0 && !is_space(s[0]) {
        lemma_token_len_bounds(s.skip(1));
    }
}

/// The whitespace-separated tokens of `s`, in order.
pub open spec fn tokens_of(s: Seq<char>) -> Seq<Seq<char>>
    decreases s.len(),
    via tokens_of_decreases
{
    if s.len() == 0 {
        Seq::empty()
    } else if is_space(s[0]) {
        tokens_of(s.skip(1))
    } else {
        seq![s.take(token_len(s))] + tokens_of(s.skip(token_len(s)))
    }
}

#[via_fn]
proof fn tokens_of_decreases(s: Seq<char>) {
    lemma_token_len_bounds(s);
}

pub open spec fn is_digit(c: char) -> bool {
    '0' <= c && c <= '9'
}

pub open spec fn is_sign(c: char) -> bool {
    c == '+' || c == '-'
}

pub open spec fn is_exp_mark(c: char) -> bool {
    c == 'e' || c == 'E'
}

pub open spec fn all_digits(s: Seq<char>) -> bool {
    forall|i: int| 0 <= i < s.len() ==> is_digit(s[i])
}

/// Digits with at most one decimal point and at least one digit.
pub open spec fn is_mantissa(s: Seq<char>) -> bool {
    &&& forall|i: int| 0 <= i < s.len() ==> is_digit(s[i]) || s[i] == '.'
    &&& forall|i: int, j: int| 0 <= i < j < s.len() && s[i] == '.' ==> s[j] != '.'
    &&& exists|i: int| 0 <= i < s.len() && is_digit(s[i])
}

/// An exponent part, after the `e`: an optional sign, then digits.
pub open spec fn is_exponent(s: Seq<char>) -> bool {
    if s.len() > 0 && is_sign(s[0]) {
        s.len() >= 2 && all_digits(s.skip(1))
    } else {
        s.len() >= 1 && all_digits(s)
    }
}

/// A decimal number: a mantissa, optionally followed by `e` or `E` and an
/// exponent part.
pub open spec fn is_decimal(s: Seq<char>) -> bool {
    ||| is_mantissa(s)
    ||| exists|k: int|
        0 <= k < s.len() && #[trigger] is_exp_mark(s[k]) && is_mantissa(s.take(k)) && is_exponent(
            s.skip(k + 1),
        )
}

/// `c` is the letter `lower`, in either letter case.
pub open spec fn either_case(c: char, lower: char, upper: char) -> bool {
    c == lower || c == upper
}

pub open spec fn is_inf_body(s: Seq<char>) -> bool {
    s.len() == 3 && either_case(s[0], 'i', 'I') && either_case(s[1], 'n', 'N') && either_case(
        s[2],
        'f',
        'F',
    )
}

pub open spec fn is_infinity_body(s: Seq<char>) -> bool {
    s.len() == 8 && either_case(s[0], 'i', 'I') && either_case(s[1], 'n', 'N') && either_case(
        s[2],
        'f',
        'F',
    ) && either_case(s[3], 'i', 'I') && either_case(s[4], 'n', 'N') && either_case(s[5], 'i', 'I')
        && either_case(s[6], 't', 'T') && either_case(s[7], 'y', 'Y')
}

pub open spec fn is_nan_body(s: Seq<char>) -> bool {
    s.len() == 3 && either_case(s[0], 'n', 'N') && either_case(s[1], 'a', 'A') && either_case(
        s[2],
        'n',
        'N',
    )
}

/// One of the special float words, in any letter case.
pub open spec fn is_special(s: Seq<char>) -> bool {
    is_inf_body(s) || is_infinity_body(s) || is_nan_body(s)
}

/// The token with its optional leading sign stripped.
pub open spec fn float_body(s: Seq<char>) -> Seq<char> {
    if s.len() > 0 && is_sign(s[0]) {
        s.skip(1)
    } else {
        s
    }
}

/// True iff `s` is a token the standard floating-point parser accepts.
pub open spec fn is_float_token(s: Seq<char>) -> bool {
    is_special(float_body(s)) || is_decimal(float_body(s))
}

/// The seven fields of a status line, if the line resolves to them: at
/// least seven tokens, the first seven all numeric. Anything else — too few
/// tokens or a non-numeric token among the first seven — is no status line.
pub open spec fn status_fields(s: Seq<char>) -> Option<Seq<Seq<char>>> {
    let ts = tokens_of(s);
    if ts.len() >= 7 && (forall|i: int| 0 <= i < 7 ==> is_float_token(#[trigger] ts[i])) {
        Some(ts.take(7))
    } else {
        None
    }
}

fn is_space_char(c: char) -> (r: bool)
    ensures
        r == is_space(c),
{
    c == ' ' || c == '\t' || c == '\n' || c == '\r' || c == '\u{0b}' || c == '\u{0c}'
}

/// The characters of `s`, as a vector the parser can index freely.
fn chars_of(s: &str) -> (cs: Vec<char>)
    ensures
        cs@ == s@,
{
    let n = s.unicode_len();
    let mut cs: Vec<char> = Vec::new();
    let mut i: usize = 0;
    while i < n
        invariant
            i <= n,
            n == s@.len(),
            cs@ == s@.take(i as int),
        decreases n - i,
    {
        cs.push(s.get_char(i));
        proof {
            assert(cs@ =~= s@.take(i + 1));
        }
        i += 1;
    }
    proof {
        assert(s@.take(n as int) =~= s@);
    }
    cs
}

/// Advance past whitespace; the tokens of the remainder do not change.
fn skip_spaces(cs: &Vec<char>, from: usize) -> (r: usize)
    requires
        from <= cs@.len(),
    ensures
        from <= r <= cs@.len(),
        tokens_of(cs@.skip(from as int)) == tokens_of(cs@.skip(r as int)),
        r < cs@.len() ==> !is_space(cs@[r as int]),
    decreases cs@.len() - from,
{
    let mut i = from;
    while i < cs.len() && is_space_char(cs[i])
        invariant
            from <= i <= cs@.len(),
            tokens_of(cs@.skip(from as int)) == tokens_of(cs@.skip(i as int)),
        decreases cs@.len() - i,
    {
        proof {
            assert(cs@.skip(i as int).skip(1) =~= cs@.skip(i + 1));
        }
        i += 1;
    }
    i
}

/// Scan to the end of the token that starts at `start`.
fn scan_token(cs: &Vec<char>, start: usize) -> (end: usize)
    requires
        start < cs@.len(),
        !is_space(cs@[start as int]),
    ensures
        start < end <= cs@.len(),
        end - start == token_len(cs@.skip(start as int)),
        end == cs@.len() || is_space(cs@[end as int]),
        forall|i: int| start <= i < end ==> !is_space(cs@[i]),
{
    let mut i = start;
    while i < cs.len() && !is_space_char(cs[i])
        invariant
            start <= i <= cs@.len(),
            token_len(cs@.skip(start as int)) == (i - start) + token_len(cs@.skip(i as int)),
            forall|j: int| start <= j < i ==> !is_space(cs@[j]),
        decreases cs@.len() - i,
    {
        proof {
            assert(cs@.skip(i as int).skip(1) =~= cs@.skip(i + 1));
        }
        i += 1;
    }
    proof {
        lemma_token_len_bounds(cs@.skip(start as int));
    }
    i
}

fn is_digit_char(c: char) -> (r: bool)
    ensures
        r == is_digit(c),
{
    c >= '0' && c <= '9'
}

fn is_sign_char(c: char) -> (r: bool)
    ensures
        r == is_sign(c),
{
    c == '+' || c == '-'
}

fn either_case_char(c: char, lower: char, upper: char) -> (r: bool)
    ensures
        r == either_case(c, lower, upper),
{
    c == lower || c == upper
}

/// Does `cs[from..end]` spell one of the special float words?
fn check_special(cs: &Vec<char>, from: usize, end: usize) -> (r: bool)
    requires
        from <= end <= cs@.len(),
    ensures
        r == is_special(cs@.subrange(from as int, end as int)),
{
    let ghost t = cs@.subrange(from as int, end as int);
    let len = end - from;
    if len == 3 {
        let inf = either_case_char(cs[from], 'i', 'I') && either_case_char(cs[from + 1], 'n', 'N')
            && either_case_char(cs[from + 2], 'f', 'F');
        let nan = either_case_char(cs[from], 'n', 'N') && either_case_char(cs[from + 1], 'a', 'A')
            && either_case_char(cs[from + 2], 'n', 'N');
        proof {
            assert(t[0] == cs@[from as int] && t[1] == cs@[from + 1] && t[2] == cs@[from + 2]);
        }
        inf || nan
    } else if len == 8 {
        let r = either_case_char(cs[from], 'i', 'I') && either_case_char(cs[from + 1], 'n', 'N')
            && either_case_char(cs[from + 2], 'f', 'F') && either_case_char(cs[from + 3], 'i', 'I')
            && either_case_char(cs[from + 4], 'n', 'N') && either_case_char(cs[from + 5], 'i', 'I')
            && either_case_char(cs[from + 6], 't', 'T') && either_case_char(cs[from + 7], 'y', 'Y');
        proof {
            assert(t[0] == cs@[from as int] && t[1] == cs@[from + 1] && t[2] == cs@[from + 2]
                && t[3] == cs@[from + 3] && t[4] == cs@[from + 4] && t[5] == cs@[from + 5] && t[6]
                == cs@[from + 6] && t[7] == cs@[from + 7]);
        }
        r
    } else {
        false
    }
}

/// Is `cs[from..end]` a mantissa: digits, at most one point, one digit?
fn check_mantissa(cs: &Vec<char>, from: usize, end: usize) -> (r: bool)
    requires
        from <= end <= cs@.len(),
    ensures
        r == is_mantissa(cs@.subrange(from as int, end as int)),
{
    let ghost t = cs@.subrange(from as int, end as int);
    let mut i = from;
    let mut seen_digit = false;
    let mut seen_dot = false;
    while i < end
        invariant
            from <= i <= end <= cs@.len(),
            t == cs@.subrange(from as int, end as int),
            forall|j: int| from <= j < i ==> is_digit(#[trigger] cs@[j]) || cs@[j] == '.',
            seen_digit == exists|j: int| from <= j < i && is_digit(#[trigger] cs@[j]),
            seen_dot == exists|j: int| from <= j < i && #[trigger] cs@[j] == '.',
            forall|j1: int, j2: int|
                from <= j1 < j2 < i && #[trigger] cs@[j1] == '.' ==> #[trigger] cs@[j2] != '.',
        decreases end - i,
    {
        let c = cs[i];
        if is_digit_char(c) {
            seen_digit = true;
        } else if c == '.' {
            if seen_dot {
                proof {
                    let j1 = choose|j: int| from <= j < i && #[trigger] cs@[j] == '.';
                    assert(t[j1 - from] == '.' && t[i - from] == '.');
                    assert(!is_mantissa(t));
                }
                return false;
            }
            seen_dot = true;
        } else {
            proof {
                assert(t[i - from] == cs@[i as int]);
                assert(!is_mantissa(t));
            }
            return false;
        }
        i += 1;
    }
    proof {
        if seen_digit {
            assert forall|j: int| 0 <= j < t.len() implies is_digit(#[trigger] t[j]) || t[j]
                == '.' by {
                assert(t[j] == cs@[from + j]);
            }
            assert forall|j1: int, j2: int|
                0 <= j1 < j2 < t.len() && #[trigger] t[j1] == '.' implies #[trigger] t[j2]
                != '.' by {
                assert(t[j1] == cs@[from + j1] && t[j2] == cs@[from + j2]);
            }
            let w = choose|j: int| from <= j < end && is_digit(#[trigger] cs@[j]);
            assert(t[w - from] == cs@[w]);
            assert(is_mantissa(t));
        } else {
            assert forall|j: int| 0 <= j < t.len() implies !is_digit(#[trigger] t[j]) by {
                assert(t[j] == cs@[from + j]);
            }
            assert(!is_mantissa(t));
        }
    }
    seen_digit
}

/// Is `cs[from..end]` an exponent part: an optional sign, then digits?
fn check_exponent(cs: &Vec<char>, from: usize, end: usize) -> (r: bool)
    requires
        from <= end <= cs@.len(),
    ensures
        r == is_exponent(cs@.subrange(from as int, end as int)),
{
    let ghost t = cs@.subrange(from as int, end as int);
    let mut i = from;
    if i < end && is_sign_char(cs[i]) {
        proof {
            assert(t[0] == cs@[from as int]);
        }
        i += 1;
    }
    let ghost digits_lo = i as int;
    if i == end {
        proof {
            if from < end {
                assert(t.len() == 1 && is_sign(t[0]));
            }
            assert(!is_exponent(t));
        }
        return false;
    }
    while i < end
        invariant
            digits_lo <= i <= end <= cs@.len(),
            digits_lo < end,
            from <= digits_lo <= from + 1,
            t == cs@.subrange(from as int, end as int),
            digits_lo == from + 1 ==> is_sign(t[0]),
            digits_lo == from ==> t.len() == 0 || !is_sign(t[0]),
            forall|j: int| digits_lo <= j < i ==> is_digit(#[trigger] cs@[j]),
        decreases end - i,
    {
        if !is_digit_char(cs[i]) {
            proof {
                assert(t[i - from] == cs@[i as int]);
                if digits_lo == from + 1 {
                    assert(t.skip(1)[i - from - 1] == t[i - from]);
                    assert(!is_digit(t.skip(1)[i - from - 1]));
                } else {
                    assert(!is_digit(t[i - from]));
                }
                assert(!is_exponent(t));
            }
            return false;
        }
        i += 1;
    }
    proof {
        if digits_lo == from + 1 {
            assert forall|j: int| 0 <= j < t.skip(1).len() implies is_digit(
                #[trigger] t.skip(1)[j],
            ) by {
                assert(t.skip(1)[j] == cs@[from + 1 + j]);
            }
            assert(is_exponent(t));
        } else {
            assert forall|j: int| 0 <= j < t.len() implies is_digit(#[trigger] t[j]) by {
                assert(t[j] == cs@[from + j]);
            }
            assert(is_exponent(t));
        }
    }
    true
}

/// Position of the first exponent mark in `cs[from..end]`, if any.
fn find_exp_mark(cs: &Vec<char>, from: usize, end: usize) -> (r: Option<usize>)
    requires
        from <= end <= cs@.len(),
    ensures
        match r {
            Some(k) => from <= k < end && is_exp_mark(cs@[k as int]) && forall|i: int|
                from <= i < k ==> !is_exp_mark(#[trigger] cs@[i]),
            None => forall|i: int| from <= i < end ==> !is_exp_mark(#[trigger] cs@[i]),
        },
{
    let mut i = from;
    while i < end
        invariant
            from <= i <= end <= cs@.len(),
            forall|j: int| from <= j < i ==> !is_exp_mark(#[trigger] cs@[j]),
        decreases end - i,
    {
        let c = cs[i];
        if c == 'e' || c == 'E' {
            return Some(i);
        }
        i += 1;
    }
    None
}

/// Is the token `cs[start..end]` a float token?
fn check_float_token(cs: &Vec<char>, start: usize, end: usize) -> (r: bool)
    requires
        start <= end <= cs@.len(),
    ensures
        r == is_float_token(cs@.subrange(start as int, end as int)),
{
    let ghost t = cs@.subrange(start as int, end as int);
    let mut p = start;
    if p < end && is_sign_char(cs[p]) {
        proof {
            assert(t[0] == cs@[start as int]);
        }
        p += 1;
    }
    let ghost body = cs@.subrange(p as int, end as int);
    proof {
        assert(body =~= float_body(t));
    }
    if check_special(cs, p, end) {
        return true;
    }
    match find_exp_mark(cs, p, end) {
        None => {
            let m = check_mantissa(cs, p, end);
            proof {
                if !m {
                    assert forall|k: int|
                        0 <= k < body.len() implies !is_exp_mark(#[trigger] body[k]) by {
                        assert(body[k] == cs@[p + k]);
                    }
                    assert(!is_decimal(body));
                }
            }
            m
        },
        Some(k) => {
            let m1 = check_mantissa(cs, p, k);
            let m2 = check_exponent(cs, k + 1, end);
            proof {
                let kk = k - p;
                assert(body[kk] == cs@[k as int]);
                assert(body.take(kk) =~= cs@.subrange(p as int, k as int));
                assert(body.skip(kk + 1) =~= cs@.subrange(k + 1, end as int));
                if m1 && m2 {
                    assert(is_decimal(body));
                } else {
                    assert(!is_mantissa(body)) by {
                        assert(body[kk] == cs@[k as int] && is_exp_mark(body[kk]));
                    }
                    assert forall|k2: int|
                        0 <= k2 < body.len() && #[trigger] is_exp_mark(body[k2]) && is_mantissa(
                            body.take(k2),
                        ) implies !is_exponent(body.skip(k2 + 1)) by {
                        if k2 < kk {
                            assert(body[k2] == cs@[p + k2]);
                            assert(false);
                        } else if k2 > kk {
                            assert(body.take(k2)[kk] == body[kk]);
                            assert(!is_mantissa(body.take(k2)));
                            assert(false);
                        }
                    }
                    assert(!is_decimal(body));
                }
            }
            m1 && m2
        },
    }
}

/// The parsed status snapshot: seven numeric fields in fixed order. Each
/// field holds its token exactly as it stood in the status line, so no
/// precision is lost; a caller turns it into whatever number type it needs.
#[derive(Clone, Debug)]
pub struct UpsStatus {
    pub input_voltage: String,
    pub input_fault_voltage: String,
    pub output_voltage: String,
    pub output_current: String,
    pub input_frequency: String,
    pub battery_voltage: String,
    pub temperature: String,
}

/// Every field of a well-formed status record is a numeric token.
pub open spec fn status_wf(st: UpsStatus) -> bool {
    &&& is_float_token(st.input_voltage@)
    &&& is_float_token(st.input_fault_voltage@)
    &&& is_float_token(st.output_voltage@)
    &&& is_float_token(st.output_current@)
    &&& is_float_token(st.input_frequency@)
    &&& is_float_token(st.battery_voltage@)
    &&& is_float_token(st.temperature@)
}

/// The record `st` is what parsing the status line `line` yields: the
/// line resolves to seven fields, and the record carries them in order.
pub open spec fn parsed_from(line: Seq<char>, st: UpsStatus) -> bool {
    &&& status_fields(line) matches Some(fs)
    &&& st.input_voltage@ == fs[0]
    &&& st.input_fault_voltage@ == fs[1]
    &&& st.output_voltage@ == fs[2]
    &&& st.output_current@ == fs[3]
    &&& st.input_frequency@ == fs[4]
    &&& st.battery_voltage@ == fs[5]
    &&& st.temperature@ == fs[6]
}

impl UpsStatus {
    /// Parse one decoded status line. Succeeds exactly when the line has at
    /// least seven whitespace-separated tokens and the first seven are all
    /// numeric; the record then carries those seven, in order. Anything
    /// else fails wholesale with `InvalidResponse` — no partial record.
    pub fn from_str(status: &str) -> (r: Result<UpsStatus, UpsError>)
        ensures
            match r {
                Ok(st) => parsed_from(status@, st) && status_wf(st),
                Err(e) => status_fields(status@) is None && e matches UpsError::InvalidResponse,
            },
    {
        let cs = chars_of(status);
        let mut fields: Vec<String> = Vec::new();
        proof {
            assert(cs@.skip(0) =~= cs@);
        }
        let mut i = skip_spaces(&cs, 0);
        while fields.len() < 7
            invariant
                i <= cs@.len(),
                cs@ == status@,
                fields@.len() <= 7,
                tokens_of(cs@) == fields@.map_values(|f: String| f@) + tokens_of(
                    cs@.skip(i as int),
                ),
                forall|j: int| 0 <= j < fields@.len() ==> is_float_token(#[trigger] fields@[j]@),
                i < cs@.len() ==> !is_space(cs@[i as int]),
            decreases 7 - fields@.len(),
        {
            let ghost toks = tokens_of(cs@);
            let ghost done = fields@.map_values(|f: String| f@);
            if i >= cs.len() {
                proof {
                    assert(cs@.skip(i as int) =~= Seq::<char>::empty());
                    assert(tokens_of(cs@.skip(i as int)) =~= Seq::<Seq<char>>::empty());
                    assert(toks =~= done);
                    assert(toks.len() < 7);
                }
                return Err(UpsError::InvalidResponse);
            }
            let end = scan_token(&cs, i);
            let ghost rem = cs@.skip(i as int);
            let ghost tokc = cs@.subrange(i as int, end as int);
            let ghost rest = tokens_of(cs@.skip(end as int));
            proof {
                assert(rem[0] == cs@[i as int]);
                assert(rem.take(token_len(rem)) =~= tokc);
                assert(rem.skip(token_len(rem)) =~= cs@.skip(end as int));
                assert(tokens_of(rem) == seq![tokc] + rest);
                assert(toks == done + (seq![tokc] + rest));
                assert(toks[done.len() as int] == (seq![tokc] + rest)[0]);
                assert(toks[done.len() as int] == tokc);
            }
            if !check_float_token(&cs, i, end) {
                proof {
                    assert(!is_float_token(toks[done.len() as int]));
                    assert(status_fields(status@) is None);
                }
                return Err(UpsError::InvalidResponse);
            }
            let tok = status.substring_char(i, end);
            fields.push(String::from_str(tok));
            proof {
                assert(fields@.map_values(|f: String| f@) =~= done.push(tokc));
                assert(done.push(tokc) + rest =~= toks);
            }
            i = skip_spaces(&cs, end);
        }
        proof {
            let done = fields@.map_values(|f: String| f@);
            let toks = tokens_of(cs@);
            assert(toks.len() >= 7);
            assert(toks.take(7) =~= done);
            assert forall|j: int| 0 <= j < 7 implies is_float_token(#[trigger] toks[j]) by {
                assert(toks[j] == done[j]);
            }
            assert(status_fields(status@) matches Some(fs) && fs == done);
        }
        Ok(
            UpsStatus {
                input_voltage: fields[0].clone(),
                input_fault_voltage: fields[1].clone(),
                output_voltage: fields[2].clone(),
                output_current: fields[3].clone(),
                input_frequency: fields[4].clone(),
                battery_voltage: fields[5].clone(),
                temperature: fields[6].clone(),
            },
        )
    }
}

} // verus!
