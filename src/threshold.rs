//! Threshold evaluation: the observed value is spliced into the alert's
//! `warn` and `crit` expressions in place of `$this`, and each is evaluated
//! as a boolean expression.

use vstd::prelude::*;

use crate::alert::Alert;
use crate::text::replace_all;
use crate::text::replace_all_exec;

verus! {

#[verifier::external_type_specification]
#[verifier::external_body]
pub struct ExEvalexprError(evalexpr::EvalexprError);

/// What `evalexpr::eval_boolean` makes of `s`: the boolean it evaluates to,
/// or `None` where it fails.
pub uninterp spec fn boolean_value(s: Seq<char>) -> Option<bool>;

/// Relies on `evalexpr::eval_boolean`: parses and evaluates `s` against an
/// empty context, so the outcome depends on `s` alone.
#[verifier::external_body]
fn eval_boolean(s: &str) -> (r: Result<bool, evalexpr::EvalexprError>)
    ensures
        match boolean_value(s@) {
            Some(b) => r == Ok::<bool, evalexpr::EvalexprError>(b),
            None => r is Err,
        },
{
    evalexpr::eval_boolean(s)
}

/// Which of the two expressions could not be evaluated.
#[derive(Debug, PartialEq, Eq, Clone, Copy, Structural)]
pub enum ThresholdError {
    Warn,
    Crit,
}

/// The placeholder that stands for the observed value.
pub open spec fn placeholder() -> Seq<char> {
    "$this"@
}

/// `expr` with the observed value `result` in place of `$this`.
pub open spec fn substituted(expr: Seq<char>, result: Seq<char>) -> Seq<char> {
    replace_all(expr, placeholder(), result)
}

/// The pair `(should_warn, should_crit)` from the outcomes of the two
/// evaluations; the warn expression is evaluated first.
pub open spec fn threshold_outcome(w: Option<bool>, c: Option<bool>) -> Result<
    (bool, bool),
    ThresholdError,
> {
    match w {
        None => Err(ThresholdError::Warn),
        Some(a) => match c {
            None => Err(ThresholdError::Crit),
            Some(b) => Ok((a, b)),
        },
    }
}

/// Combines the outcomes of evaluating the warn and crit expressions.
pub fn combine_evaluations(w: Option<bool>, c: Option<bool>) -> (r: Result<
    (bool, bool),
    ThresholdError,
>)
    ensures
        r == threshold_outcome(w, c),
{
    match w {
        None => Err(ThresholdError::Warn),
        Some(a) => match c {
            None => Err(ThresholdError::Crit),
            Some(b) => Ok((a, b)),
        },
    }
}

/// `expr` with `$this` replaced by `result`.
pub fn substitute(expr: &str, result: &str) -> (r: String)
    ensures
        r@ == substituted(expr@, result@),
{
    proof {
        reveal_strlit("$this");
    }
    replace_all_exec(expr, "$this", result)
}

/// Evaluates `expr` with `$this` replaced by `result`.
fn evaluate(expr: &str, result: &str) -> (r: Option<bool>)
    ensures
        r == boolean_value(substituted(expr@, result@)),
{
    let text = substitute(expr, result);
    match eval_boolean(text.as_str()) {
        Ok(b) => Some(b),
        Err(_) => None,
    }
}

/// Whether the observation `result` reaches the alert's warn and crit levels.
pub fn check_threshold(alert: &Alert, result: &str) -> (r: Result<(bool, bool), ThresholdError>)
    ensures
        r == threshold_outcome(
            boolean_value(substituted(alert.warn@, result@)),
            boolean_value(substituted(alert.crit@, result@)),
        ),
{
    let w = evaluate(alert.warn.as_str(), result);
    let c = evaluate(alert.crit.as_str(), result);
    combine_evaluations(w, c)
}

} // verus!
