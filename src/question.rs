use vstd::prelude::*;

use crate::model::text;
use crate::text::{chars_of, trim, trimmed};

verus! {

/// What kind of answer a console question expects.
#[derive(Debug, Clone, Copy, PartialEq, Eq, Structural)]
pub enum InputAnswerKind {
    YesNo,
    Number,
    Text,
}

/// Timing and automation options of a console question.
#[derive(Debug, Clone, Copy, PartialEq, Eq, Structural)]
pub struct InputQuestionOptions {
    pub auto: bool,
    pub time: u64,
}

impl Default for InputQuestionOptions {
    fn default() -> (r: Self)
        ensures
            r.auto == false,
            r.time == 0,
    {
        InputQuestionOptions { auto: false, time: 0 }
    }
}

/// Largest delay, in seconds, that a question may wait before it is asked.
pub const MAX_QUESTION_DELAY: u64 = 60;

/// The delay is accepted: none at all, or at most a minute.
pub open spec fn valid_delay(time: u64) -> bool {
    time <= MAX_QUESTION_DELAY
}

/// Why a question's options were refused.
#[derive(Debug, Clone, Copy, PartialEq, Eq, Structural)]
pub enum QuestionError {
    DelayOutOfRange,
}

pub fn input_validate_time(time: u64) -> (r: Result<(), QuestionError>)
    ensures
        r is Ok <==> valid_delay(time),
        r is Err ==> r == Err::<(), QuestionError>(QuestionError::DelayOutOfRange),
{
    if time <= MAX_QUESTION_DELAY {
        Ok(())
    } else {
        Err(QuestionError::DelayOutOfRange)
    }
}

/// The answer given without asking, for each kind of question.
pub open spec fn auto_answer_text(kind: InputAnswerKind) -> Seq<char> {
    match kind {
        InputAnswerKind::YesNo => "yes"@,
        InputAnswerKind::Number => "1"@,
        InputAnswerKind::Text => "나비"@,
    }
}

/// The answer given without asking.
pub fn auto_answer(kind: InputAnswerKind) -> (r: String)
    ensures
        r@ == auto_answer_text(kind),
{
    match kind {
        InputAnswerKind::YesNo => text("yes"),
        InputAnswerKind::Number => text("1"),
        InputAnswerKind::Text => text("나비"),
    }
}

/// `c` is the lower-case letter `l` in either case (ASCII only).
pub open spec fn same_letter(c: char, l: char) -> bool {
    c == l || ('A' <= c && c <= 'Z' && c as u32 + 32 == l as u32)
}

/// `s` spells the lower-case word `w`, ignoring ASCII case.
pub open spec fn spells(s: Seq<char>, w: Seq<char>) -> bool {
    s.len() == w.len() && forall|i: int| 0 <= i < s.len() ==> same_letter(#[trigger] s[i], w[i])
}

/// The normalised yes/no answer: `y` or `yes` give `yes`, `n` or `no` give
/// `no`, in any ASCII case; anything else is no answer.
pub open spec fn yes_no_answer(s: Seq<char>) -> Option<Seq<char>> {
    if spells(s, "y"@) || spells(s, "yes"@) {
        Some("yes"@)
    } else if spells(s, "n"@) || spells(s, "no"@) {
        Some("no"@)
    } else {
        None
    }
}

fn letter_matches(c: char, l: char) -> (r: bool)
    requires
        'a' <= l && l <= 'z',
    ensures
        r == same_letter(c, l),
{
    c == l || ('A' <= c && c <= 'Z' && (c as u32) + 32 == (l as u32))
}

fn word_matches(v: &Vec<char>, w: &str) -> (r: bool)
    requires
        forall|i: int| 0 <= i < w@.len() ==> 'a' <= #[trigger] w@[i] && w@[i] <= 'z',
    ensures
        r == spells(v@, w@),
{
    let wl = w.unicode_len();
    if v.len() != wl {
        return false;
    }
    let mut i: usize = 0;
    while i < v.len()
        invariant
            i <= v.len(),
            v.len() == w@.len(),
            forall|k: int| 0 <= k < w@.len() ==> 'a' <= #[trigger] w@[k] && w@[k] <= 'z',
            forall|k: int| 0 <= k < i ==> same_letter(#[trigger] v@[k], w@[k]),
        decreases v.len() - i,
    {
        let l = w.get_char(i);
        if !letter_matches(v[i], l) {
            return false;
        }
        i = i + 1;
    }
    true
}

/// The normalised yes/no answer of `input`, if it is one.
pub fn input_validate_yes_no(input: &str) -> (r: Option<String>)
    ensures
        match yes_no_answer(input@) {
            Some(a) => r is Some && r->0@ == a,
            None => r is None,
        },
{
    let v = chars_of(input);
    proof {
        reveal_strlit("y");
        reveal_strlit("yes");
        reveal_strlit("n");
        reveal_strlit("no");
    }
    if word_matches(&v, "y") || word_matches(&v, "yes") {
        Some(text("yes"))
    } else if word_matches(&v, "n") || word_matches(&v, "no") {
        Some(text("no"))
    } else {
        None
    }
}

/// The value of a run of decimal digits.
pub open spec fn digits_value(d: Seq<char>) -> nat
    decreases d.len(),
{
    if d.len() == 0 {
        0
    } else {
        digits_value(d.drop_last()) * 10 + (d.last() as nat - '0' as nat) as nat
    }
}

/// Every character of `d` is an ASCII digit.
pub open spec fn all_digits(d: Seq<char>) -> bool {
    forall|i: int| 0 <= i < d.len() ==> '0' <= #[trigger] d[i] && d[i] <= '9'
}

/// Text that `i64`'s parser accepts: an optional `+` or `-`, at least one
/// decimal digit and nothing else, and a value within the range of `i64`.
pub open spec fn is_i64_text(s: Seq<char>) -> bool {
    let neg = s.len() > 0 && s[0] == '-';
    let signed = s.len() > 0 && (s[0] == '-' || s[0] == '+');
    let d = if signed { s.drop_first() } else { s };
    &&& d.len() > 0
    &&& all_digits(d)
    &&& digits_value(d) <= (if neg { 9223372036854775808nat } else { 9223372036854775807nat })
}

/// Whether `input` is a whole number that fits in an `i64`.
pub fn input_validate_number(input: &str) -> (r: bool)
    ensures
        r == is_i64_text(input@),
{
    let v = chars_of(input);
    let n = v.len();
    if n == 0 {
        return false;
    }
    let neg = v[0] == '-';
    let signed = v[0] == '-' || v[0] == '+';
    let start: usize = if signed { 1 } else { 0 };
    let limit: u128 = if neg { 9223372036854775808 } else { 9223372036854775807 };
    let ghost d = if signed { v@.drop_first() } else { v@ };
    assert(d =~= v@.subrange(start as int, n as int));
    if start == n {
        return false;
    }
    let mut acc: u128 = 0;
    let mut i: usize = start;
    while i < n
        invariant
            start <= i <= n,
            n == v.len(),
            n > 0,
            v@ == input@,
            signed == (v@[0] == '-' || v@[0] == '+'),
            start == (if signed { 1usize } else { 0usize }),
            d == (if signed { input@.drop_first() } else { input@ }),
            d == v@.subrange(start as int, n as int),
            limit <= 9223372036854775808,
            acc <= limit + 1,
            all_digits(v@.subrange(start as int, i as int)),
            acc == (if digits_value(v@.subrange(start as int, i as int)) > limit {
                limit as nat + 1
            } else {
                digits_value(v@.subrange(start as int, i as int))
            }),
        decreases n - i,
    {
        let c = v[i];
        if !('0' <= c && c <= '9') {
            assert(d[(i - start) as int] == v@[i as int]);
            assert(!all_digits(d));
            return false;
        }
        let dv = (c as u32 - '0' as u32) as u128;
        let ghost p = v@.subrange(start as int, i as int);
        let ghost q = v@.subrange(start as int, i as int + 1);
        assert(q.drop_last() =~= p);
        assert(digits_value(q) == digits_value(p) * 10 + dv);
        if acc > limit {
            acc = limit + 1;
        } else {
            let next = acc * 10 + dv;
            acc = if next > limit { limit + 1 } else { next };
        }
        i = i + 1;
    }
    assert(v@.subrange(start as int, n as int) == d);
    acc <= limit
}

/// The answer a typed line gives to a question, or `None` where the line is
/// no valid answer and the question is asked again.
pub open spec fn answer_for(kind: InputAnswerKind, line: Seq<char>) -> Option<Seq<char>> {
    let t = trim(line);
    match kind {
        InputAnswerKind::YesNo => yes_no_answer(t),
        InputAnswerKind::Number => if is_i64_text(t) { Some(t) } else { None },
        InputAnswerKind::Text => Some(t),
    }
}

/// Decides what one typed line answers.
pub fn input_answer_line(kind: InputAnswerKind, line: &str) -> (r: Option<String>)
    ensures
        match answer_for(kind, line@) {
            Some(a) => r is Some && r->0@ == a,
            None => r is None,
        },
{
    let t = trimmed(line);
    match kind {
        InputAnswerKind::YesNo => input_validate_yes_no(t.as_str()),
        InputAnswerKind::Number => {
            if input_validate_number(t.as_str()) {
                Some(t)
            } else {
                None
            }
        },
        InputAnswerKind::Text => Some(t),
    }
}

} // verus!
