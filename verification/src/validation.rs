//! Field validation of request bodies: length limits (counted in
//! characters) and e-mail syntax, reported field by field.
use vstd::prelude::*;

use crate::error::{ApiError, ApiResult};
use crate::text::{decimal, owned, push_char, push_decimal};

verus! {

/// A field that broke one of its rules: the field's name, the rule's code
/// (`length` or `email`), and the text of the rule's parameters as the
/// report shows them.
#[derive(Debug)]
pub struct Violation {
    pub field: String,
    pub code: String,
    pub params: String,
}

/// The field, rule and parameter text of each violation, in order.
pub open spec fn violations_view(v: Seq<Violation>) -> Seq<(Seq<char>, Seq<char>, Seq<char>)> {
    v.map_values(|x: Violation| (x.field@, x.code@, x.params@))
}

/// The violation `(field, code, params)` when `bad` holds, none otherwise.
pub open spec fn flag(bad: bool, field: Seq<char>, code: Seq<char>, params: Seq<char>) -> Seq<
    (Seq<char>, Seq<char>, Seq<char>),
> {
    if bad {
        seq![(field, code, params)]
    } else {
        seq![]
    }
}

/// Whether a text's length in characters lies within `[min, max]`.
pub open spec fn length_within(s: Seq<char>, min: nat, max: nat) -> bool {
    min <= s.len() && s.len() <= max
}

/// Whether a text is an e-mail address under the rules of the `validator`
/// crate (RFC 5321 lengths, HTML5 user part, domain or IP-literal host).
pub uninterp spec fn email_valid(s: Seq<char>) -> bool;

/// What `{:?}` writes for a text: the text in double quotes, with the
/// escapes of `str`'s `Debug` (which characters it escapes rests on
/// Unicode's printable and grapheme-extend tables).
pub uninterp spec fn debug_quoted(s: Seq<char>) -> Seq<char>;

/// The parameters of a `length` violation as the report shows them: the
/// bounds and the offending value, as JSON values in `Debug` form.
pub open spec fn length_params(min: nat, max: Option<nat>, value: Seq<char>) -> Seq<char> {
    "{\"min\": Number("@ + decimal(min) + ")"@ + match max {
        Some(m) => ", \"max\": Number("@ + decimal(m) + ")"@,
        None => Seq::<char>::empty(),
    } + ", \"value\": String("@ + debug_quoted(value) + ")}"@
}

/// The parameters of an `email` violation as the report shows them: the
/// offending value.
pub open spec fn email_params(value: Seq<char>) -> Seq<char> {
    "{\"value\": String("@ + debug_quoted(value) + ")}"@
}

/// `validator::validate_length` with a lower and an upper bound, on a text
/// whose length the crate counts in characters.
#[verifier::external_body]
fn validate_length_between(s: &str, min: u64, max: u64) -> (r: bool)
    ensures
        r == length_within(s@, min as nat, max as nat),
{
    validator::validate_length(s, Some(min), Some(max), None)
}

/// `validator::validate_length` with a lower bound only.
#[verifier::external_body]
fn validate_length_at_least(s: &str, min: u64) -> (r: bool)
    ensures
        r == (min <= s@.len()),
{
    validator::validate_length(s, Some(min), None, None)
}

/// `str`'s `Debug` from std, as `{:?}` writes it.
#[verifier::external_body]
fn debug_text(s: &str) -> (r: String)
    ensures
        r@ == debug_quoted(s@),
{
    format!("{:?}", s)
}

/// `validator::validate_email`.
#[verifier::external_body]
fn validate_email_text(s: &str) -> (r: bool)
    ensures
        r == email_valid(s@),
{
    validator::validate_email(s)
}

/// The parameter text of a `length` violation.
fn length_params_text(min: u64, max: Option<u64>, value: &str) -> (r: String)
    ensures
        r@ == length_params(
            min as nat,
            match max {
                Some(m) => Some(m as nat),
                None => None,
            },
            value@,
        ),
{
    let mut out = owned("{\"min\": Number(");
    push_decimal(&mut out, min);
    out.append(")");
    let ghost head = out@;
    match max {
        Some(m) => {
            out.append(", \"max\": Number(");
            push_decimal(&mut out, m);
            out.append(")");
        },
        None => {},
    }
    let ghost mid = out@;
    out.append(", \"value\": String(");
    out.append(debug_text(value).as_str());
    out.append(")}");
    proof {
        let mx: Option<nat> = match max {
            Some(m) => Some(m as nat),
            None => None,
        };
        let part: Seq<char> = match mx {
            Some(m) => ", \"max\": Number("@ + decimal(m) + ")"@,
            None => Seq::<char>::empty(),
        };
        assert(head =~= "{\"min\": Number("@ + decimal(min as nat) + ")"@);
        assert(mid =~= head + part);
        assert(out@ =~= length_params(min as nat, mx, value@));
    }
    out
}

/// The parameter text of an `email` violation.
fn email_params_text(value: &str) -> (r: String)
    ensures
        r@ == email_params(value@),
{
    let mut out = owned("{\"value\": String(");
    out.append(debug_text(value).as_str());
    out.append(")}");
    assert(out@ =~= email_params(value@));
    out
}

/// Records a `length` violation of `field` unless `value` has between
/// `min` and `max` characters.
pub fn check_length(out: &mut Vec<Violation>, field: &str, value: &str, min: u64, max: u64)
    ensures
        violations_view(final(out)@) == violations_view(old(out)@) + flag(
            !length_within(value@, min as nat, max as nat),
            field@,
            "length"@,
            length_params(min as nat, Some(max as nat), value@),
        ),
{
    if !validate_length_between(value, min, max) {
        let params = length_params_text(min, Some(max), value);
        out.push(Violation { field: owned(field), code: owned("length"), params });
    }
    assert(violations_view(final(out)@) =~= violations_view(old(out)@) + flag(
        !length_within(value@, min as nat, max as nat),
        field@,
        "length"@,
        length_params(min as nat, Some(max as nat), value@),
    ));
}

/// Records a `length` violation of `field` unless `value` has at least
/// `min` characters.
pub fn check_min_length(out: &mut Vec<Violation>, field: &str, value: &str, min: u64)
    ensures
        violations_view(final(out)@) == violations_view(old(out)@) + flag(
            value@.len() < min,
            field@,
            "length"@,
            length_params(min as nat, None, value@),
        ),
{
    if !validate_length_at_least(value, min) {
        let params = length_params_text(min, None, value);
        out.push(Violation { field: owned(field), code: owned("length"), params });
    }
    assert(violations_view(final(out)@) =~= violations_view(old(out)@) + flag(
        value@.len() < min,
        field@,
        "length"@,
        length_params(min as nat, None, value@),
    ));
}

/// Records an `email` violation of `field` unless `value` is an e-mail
/// address.
pub fn check_email(out: &mut Vec<Violation>, field: &str, value: &str)
    ensures
        violations_view(final(out)@) == violations_view(old(out)@) + flag(
            !email_valid(value@),
            field@,
            "email"@,
            email_params(value@),
        ),
{
    if !validate_email_text(value) {
        let params = email_params_text(value);
        out.push(Violation { field: owned(field), code: owned("email"), params });
    }
    assert(violations_view(final(out)@) =~= violations_view(old(out)@) + flag(
        !email_valid(value@),
        field@,
        "email"@,
        email_params(value@),
    ));
}

/// One line of a validation report, as `validator` displays a field's
/// error: `field: Validation error: code [params]`.
pub open spec fn report_line(v: (Seq<char>, Seq<char>, Seq<char>)) -> Seq<char> {
    v.0 + ": Validation error: "@ + v.1 + " ["@ + v.2 + "]"@
}

/// A validation report: one line per violation, in order, separated by
/// line breaks.
pub open spec fn report_lines(v: Seq<(Seq<char>, Seq<char>, Seq<char>)>) -> Seq<char>
    decreases v.len(),
{
    if v.len() == 0 {
        seq![]
    } else if v.len() == 1 {
        report_line(v[0])
    } else {
        report_lines(v.drop_last()) + seq!['\n'] + report_line(v.last())
    }
}

/// The outcome of validating a request body with the given violations:
/// success when there are none, else a validation error whose message is
/// the report of the violations.
pub fn outcome(violations: Vec<Violation>) -> (r: ApiResult<()>)
    ensures
        violations@.len() == 0 ==> r is Ok,
        violations@.len() > 0 ==> (r matches Err(ApiError::Validation(m)) && m@ == report_lines(
            violations_view(violations@),
        )),
{
    if violations.len() == 0 {
        return Ok(());
    }
    let mut msg = String::new();
    let n: usize = violations.len();
    let mut i: usize = 0;
    while i < n
        invariant
            n == violations@.len(),
            i <= n,
            msg@ == report_lines(violations_view(violations@).subrange(0, i as int)),
        decreases n - i,
    {
        let ghost prefix = violations_view(violations@).subrange(0, i as int + 1);
        if i > 0 {
            push_char(&mut msg, '\n');
        }
        msg.append(violations[i].field.as_str());
        msg.append(": Validation error: ");
        msg.append(violations[i].code.as_str());
        msg.append(" [");
        msg.append(violations[i].params.as_str());
        msg.append("]");
        proof {
            assert(prefix.drop_last() =~= violations_view(violations@).subrange(0, i as int));
            assert(prefix.last() == (
                violations@[i as int].field@,
                violations@[i as int].code@,
                violations@[i as int].params@,
            ));
            if i == 0 {
                assert(report_lines(violations_view(violations@).subrange(0, 0)) == Seq::<
                    char,
                >::empty());
                assert(msg@ =~= report_line(prefix[0]));
            } else {
                assert(msg@ =~= report_lines(prefix.drop_last()) + seq!['\n'] + report_line(
                    prefix.last(),
                ));
            }
        }
        i = i + 1;
    }
    assert(violations_view(violations@).subrange(0, n as int) =~= violations_view(violations@));
    Err(ApiError::Validation(msg))
}

} // verus!
