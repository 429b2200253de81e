use vstd::prelude::*;
use vstd::string::*;

use crate::errors::{AppError, ErrorView};

verus! {

/// One broken rule of a request body: the field and the message that describes the rule.
#[derive(Debug, Clone, Copy, PartialEq, Eq)]
pub struct FieldError {
    pub field: &'static str,
    pub message: &'static str,
}

/// A broken rule, as a pair of character sequences (field, message).
pub type Problem = (Seq<char>, Seq<char>);

impl FieldError {
    pub open spec fn problem(self) -> Problem {
        (self.field@, self.message@)
    }
}

pub open spec fn problems_of(v: Seq<FieldError>) -> Seq<Problem> {
    v.map_values(|e: FieldError| e.problem())
}

/// Whether `s` has between `min` and `max` characters, both included.
pub open spec fn char_len_within(s: Seq<char>, min: int, max: int) -> bool {
    min <= s.len() <= max
}

/// The characters a username may hold: ASCII letters, digits and the underscore.
pub open spec fn is_username_char(c: char) -> bool {
    ('a' <= c <= 'z') || ('A' <= c <= 'Z') || ('0' <= c <= '9') || c == '_'
}

/// A non-empty run of username characters.
pub open spec fn username_chars_ok(s: Seq<char>) -> bool {
    s.len() > 0 && forall|i: int| 0 <= i < s.len() ==> #[trigger] is_username_char(s[i])
}

/// `problems` followed by `(field, message)` when `ok` is false.
pub open spec fn add_if(problems: Seq<Problem>, ok: bool, field: Seq<char>, message: Seq<char>) -> Seq<Problem> {
    if ok {
        problems
    } else {
        problems.push((field, message))
    }
}

/// One broken rule as text: `field: message`.
pub open spec fn problem_text(p: Problem) -> Seq<char> {
    p.0 + ": "@ + p.1
}

/// The broken rules as text, separated by `, `.
pub open spec fn problems_text(ps: Seq<Problem>) -> Seq<char>
    decreases ps.len(),
{
    if ps.len() == 0 {
        Seq::empty()
    } else if ps.len() == 1 {
        problem_text(ps[0])
    } else {
        problems_text(ps.drop_last()) + ", "@ + problem_text(ps.last())
    }
}

/// Full report of a failed validation.
pub open spec fn report(ps: Seq<Problem>) -> Seq<char> {
    "验证失败: "@ + problems_text(ps)
}

/// Whether `s` holds between `min` and `max` characters, both included.
pub fn length_within(s: &str, min: usize, max: usize) -> (r: bool)
    requires
        max < usize::MAX,
    ensures
        r == char_len_within(s@, min as int, max as int),
{
    let mut n: usize = 0;
    for c in it: s.chars()
        invariant
            n == it.index(),
            it.seq() == s@,
            n <= max,
    {
        if n == max {
            return false;
        }
        n = n + 1;
    }
    min <= n
}

pub fn is_username_char_exec(c: char) -> (r: bool)
    ensures
        r == is_username_char(c),
{
    ('a' <= c && c <= 'z') || ('A' <= c && c <= 'Z') || ('0' <= c && c <= '9') || c == '_'
}

/// Whether `s` is a non-empty run of ASCII letters, digits and underscores.
pub fn username_pattern_matches(s: &str) -> (r: bool)
    ensures
        r == username_chars_ok(s@),
{
    for c in it: s.chars()
        invariant
            it.seq() == s@,
            forall|i: int| 0 <= i < it.index() ==> #[trigger] is_username_char(s@[i]),
    {
        if !is_username_char_exec(c) {
            return false;
        }
    }
    proof {
        if s@.len() > 0 {
            assert(is_username_char(s@[0]));
        }
    }
    !s.is_empty()
}

/// `field: message` for each broken rule, joined by `, `, after a fixed heading.
pub fn format_validation_errors(errors: &Vec<FieldError>) -> (r: String)
    ensures
        r@ == report(problems_of(errors@)),
{
    let mut text = "验证失败: ".to_owned();
    let ghost head = text@;
    let mut i: usize = 0;
    while i < errors.len()
        invariant
            i <= errors.len(),
            head == "验证失败: "@,
            text@ == head + problems_text(problems_of(errors@.subrange(0, i as int))),
        decreases errors.len() - i,
    {
        let e = errors[i];
        let ghost before = errors@.subrange(0, i as int);
        let ghost after = errors@.subrange(0, i + 1);
        proof {
            assert(after.drop_last() =~= before);
            assert(problems_of(after).drop_last() =~= problems_of(before));
        }
        if i > 0 {
            text.append(", ");
        }
        text.append(e.field);
        text.append(": ");
        text.append(e.message);
        i = i + 1;
        proof {
            let pa = problems_of(after);
            assert(pa.last() == e.problem());
            if i > 1 {
                assert(problems_text(pa) == problems_text(pa.drop_last()) + ", "@ + problem_text(pa.last()));
            }
            assert(text@ =~= head + problems_text(problems_of(after)));
        }
    }
    proof {
        assert(errors@.subrange(0, errors@.len() as int) =~= errors@);
    }
    text
}

/// The error returned for a request body that breaks the rules listed in `errors`.
pub fn validation_error(errors: &Vec<FieldError>) -> (r: AppError)
    ensures
        r@ == ErrorView::Validation(report(problems_of(errors@))),
{
    AppError::Validation(format_validation_errors(errors))
}

/// A validation outcome with the broken rules turned into a validation failure.
pub fn validated(outcome: Result<(), Vec<FieldError>>) -> (r: Result<(), AppError>)
    ensures
        r is Ok <==> outcome is Ok,
        outcome matches Err(errors) ==> (r matches Err(e) && e@ == ErrorView::Validation(report(problems_of(errors@)))),
{
    match outcome {
        Ok(()) => Ok(()),
        Err(errors) => Err(validation_error(&errors)),
    }
}

} // verus!
