//! Validation checks of quality metrics against their thresholds, and the
//! line that reports a failed one.
use vstd::prelude::*;
use crate::page_text::{one_decimal, push_one_decimal};
use crate::text::{decimal, push_decimal, push_str};

verus! {

/// Whether a value exceeds its maximum.
pub fn exceeds_max_threshold(actual: i128, threshold: i128) -> (r: bool)
    ensures
        r == (actual > threshold),
{
    actual > threshold
}

/// Whether a value falls below its minimum.
pub fn below_min_threshold(actual: i128, threshold: i128) -> (r: bool)
    ensures
        r == (actual < threshold),
{
    actual < threshold
}

/// A single validation check.
pub struct ValidationCheck {
    pub metric_name: &'static str,
    pub actual: String,
    pub threshold: String,
    pub comparison: &'static str,
    pub failed: bool,
}

/// The report line of a failed check.
pub open spec fn failure_text(metric: Seq<char>, actual: Seq<char>, threshold: Seq<char>, comparison: Seq<char>) -> Seq<
    char,
> {
    "    [ERROR] "@ + metric + ": "@ + actual + " "@ + comparison + " "@ + threshold
}

/// The report line of a failed check:
/// "    [ERROR] {metric}: {actual} {comparison} {threshold}".
pub fn format_threshold_failure(metric_name: &str, actual: &str, threshold: &str, comparison: &str) -> (r: String)
    ensures
        r@ == failure_text(metric_name@, actual@, threshold@, comparison@),
{
    let mut r = String::new();
    push_str(&mut r, "    [ERROR] ");
    push_str(&mut r, metric_name);
    push_str(&mut r, ": ");
    push_str(&mut r, actual);
    push_str(&mut r, " ");
    push_str(&mut r, comparison);
    push_str(&mut r, " ");
    push_str(&mut r, threshold);
    assert(r@ =~= failure_text(metric_name@, actual@, threshold@, comparison@));
    r
}

impl ValidationCheck {
    /// Whether the check failed.
    pub fn is_failed(&self) -> (r: bool)
        ensures
            r == self.failed,
    {
        self.failed
    }

    /// The report line of this check.
    pub fn format_failure(&self) -> (r: String)
        ensures
            r@ == failure_text(self.metric_name@, self.actual@, self.threshold@, self.comparison@),
    {
        format_threshold_failure(self.metric_name, self.actual.as_str(), self.threshold.as_str(), self.comparison)
    }
}


/// Metrics of a codebase and the thresholds they are validated against.
/// Fractional figures are held in hundredths (an average complexity of 5.5
/// is `550`, a coverage of 80% is `8000`); a threshold of zero is not
/// configured.
#[derive(Debug, Clone, Copy)]
pub struct ValidationDetails {
    pub average_complexity: u64,
    pub max_average_complexity: u64,
    pub high_complexity_count: u64,
    pub max_high_complexity_count: u64,
    pub debt_items: u64,
    pub max_debt_items: u64,
    pub total_debt_score: u64,
    pub max_total_debt_score: u64,
    pub debt_density: u64,
    pub max_debt_density: u64,
    pub codebase_risk_score: u64,
    pub max_codebase_risk_score: u64,
    pub high_risk_functions: u64,
    pub max_high_risk_functions: u64,
    pub coverage_percentage: u64,
    pub min_coverage_percentage: u64,
}

/// A check as plain values: metric, actual, threshold, comparison, failed.
pub type CheckView = (Seq<char>, Seq<char>, Seq<char>, Seq<char>, bool);

/// The plain values of a check.
pub open spec fn check_view(c: ValidationCheck) -> CheckView {
    (c.metric_name@, c.actual@, c.threshold@, c.comparison@, c.failed)
}

/// Views of some checks.
pub open spec fn views(s: Seq<ValidationCheck>) -> Seq<CheckView> {
    s.map_values(|c: ValidationCheck| check_view(c))
}

/// The three primary checks: average complexity, debt density, and the
/// total debt score.
pub open spec fn primary_checks(d: ValidationDetails) -> Seq<CheckView> {
    seq![
        ("Average complexity"@, one_decimal(d.average_complexity as nat), one_decimal(d.max_average_complexity as nat), ">"@,
            d.average_complexity > d.max_average_complexity),
        ("Debt density"@, one_decimal(d.debt_density as nat) + " per 1K LOC"@, one_decimal(d.max_debt_density as nat), ">"@,
            d.debt_density > d.max_debt_density),
        ("Total debt score (safety net)"@, decimal(d.total_debt_score as nat), decimal(d.max_total_debt_score as nat), ">"@,
            d.total_debt_score > d.max_total_debt_score),
    ]
}

/// The codebase risk check, when either figure is set; it fails only
/// against a set threshold.
pub open spec fn risk_checks(d: ValidationDetails) -> Seq<CheckView> {
    if d.max_codebase_risk_score > 0 || d.codebase_risk_score > 0 {
        seq![("Codebase risk score"@, one_decimal(d.codebase_risk_score as nat), one_decimal(d.max_codebase_risk_score as nat),
            ">"@, d.max_codebase_risk_score > 0 && d.codebase_risk_score > d.max_codebase_risk_score)]
    } else {
        Seq::empty()
    }
}

/// The coverage check, when either figure is set; it fails only below a
/// set minimum.
pub open spec fn coverage_checks(d: ValidationDetails) -> Seq<CheckView> {
    if d.min_coverage_percentage > 0 || d.coverage_percentage > 0 {
        seq![("Code coverage"@, one_decimal(d.coverage_percentage as nat) + "%"@, one_decimal(d.min_coverage_percentage as nat)
            + "%"@, "<"@, d.min_coverage_percentage > 0 && d.coverage_percentage < d.min_coverage_percentage)]
    } else {
        Seq::empty()
    }
}

/// A deprecated count check, when its threshold is set.
pub open spec fn count_check(name: Seq<char>, actual: u64, max: u64) -> Seq<CheckView> {
    if max > 0 {
        seq![(name, decimal(actual as nat), decimal(max as nat), ">"@, actual > max)]
    } else {
        Seq::empty()
    }
}

/// The checks of some details, in report order: average complexity, debt
/// density and total debt score always; codebase risk and coverage when
/// either figure is set; each deprecated count when its threshold is set.
pub open spec fn validation_checks(d: ValidationDetails) -> Seq<CheckView> {
    primary_checks(d) + risk_checks(d) + coverage_checks(d) + count_check(
        "High complexity functions (deprecated)"@,
        d.high_complexity_count,
        d.max_high_complexity_count,
    ) + count_check("Technical debt items (deprecated)"@, d.debt_items, d.max_debt_items) + count_check(
        "High-risk functions (deprecated)"@,
        d.high_risk_functions,
        d.max_high_risk_functions,
    )
}

/// A value in hundredths with one decimal.
fn tenths_text(h: u64) -> (r: String)
    ensures
        r@ == one_decimal(h as nat),
{
    let mut r = String::new();
    push_one_decimal(&mut r, h as u128);
    r
}

/// `s` followed by `suffix`.
fn with_suffix(s: String, suffix: &str) -> (r: String)
    ensures
        r@ == s@ + suffix@,
{
    let mut r = s;
    push_str(&mut r, suffix);
    r
}

/// Decimal text of a count.
fn count_text(n: u64) -> (r: String)
    ensures
        r@ == decimal(n as nat),
{
    crate::text::to_decimal(n as u128)
}

/// Creates all validation checks of some details.
pub fn create_validation_checks(details: &ValidationDetails) -> (r: Vec<ValidationCheck>)
    ensures
        views(r@) == validation_checks(*details),
{
    let d = details;
    let mut checks: Vec<ValidationCheck> = Vec::new();
    checks.push(ValidationCheck {
        metric_name: "Average complexity",
        actual: tenths_text(d.average_complexity),
        threshold: tenths_text(d.max_average_complexity),
        comparison: ">",
        failed: exceeds_max_threshold(d.average_complexity as i128, d.max_average_complexity as i128),
    });
    checks.push(ValidationCheck {
        metric_name: "Debt density",
        actual: with_suffix(tenths_text(d.debt_density), " per 1K LOC"),
        threshold: tenths_text(d.max_debt_density),
        comparison: ">",
        failed: exceeds_max_threshold(d.debt_density as i128, d.max_debt_density as i128),
    });
    checks.push(ValidationCheck {
        metric_name: "Total debt score (safety net)",
        actual: count_text(d.total_debt_score),
        threshold: count_text(d.max_total_debt_score),
        comparison: ">",
        failed: exceeds_max_threshold(d.total_debt_score as i128, d.max_total_debt_score as i128),
    });
    assert(views(checks@) =~= primary_checks(*d));
    if d.max_codebase_risk_score > 0 || d.codebase_risk_score > 0 {
        checks.push(ValidationCheck {
            metric_name: "Codebase risk score",
            actual: tenths_text(d.codebase_risk_score),
            threshold: tenths_text(d.max_codebase_risk_score),
            comparison: ">",
            failed: d.max_codebase_risk_score > 0 && exceeds_max_threshold(
                d.codebase_risk_score as i128,
                d.max_codebase_risk_score as i128,
            ),
        });
    }
    assert(views(checks@) =~= primary_checks(*d) + risk_checks(*d));
    if d.min_coverage_percentage > 0 || d.coverage_percentage > 0 {
        checks.push(ValidationCheck {
            metric_name: "Code coverage",
            actual: with_suffix(tenths_text(d.coverage_percentage), "%"),
            threshold: with_suffix(tenths_text(d.min_coverage_percentage), "%"),
            comparison: "<",
            failed: d.min_coverage_percentage > 0 && below_min_threshold(
                d.coverage_percentage as i128,
                d.min_coverage_percentage as i128,
            ),
        });
    }
    let ghost before_counts = primary_checks(*d) + risk_checks(*d) + coverage_checks(*d);
    assert(views(checks@) =~= before_counts);
    if d.max_high_complexity_count > 0 {
        checks.push(ValidationCheck {
            metric_name: "High complexity functions (deprecated)",
            actual: count_text(d.high_complexity_count),
            threshold: count_text(d.max_high_complexity_count),
            comparison: ">",
            failed: exceeds_max_threshold(d.high_complexity_count as i128, d.max_high_complexity_count as i128),
        });
    }
    let ghost c1 = before_counts + count_check(
        "High complexity functions (deprecated)"@,
        d.high_complexity_count,
        d.max_high_complexity_count,
    );
    assert(views(checks@) =~= c1);
    if d.max_debt_items > 0 {
        checks.push(ValidationCheck {
            metric_name: "Technical debt items (deprecated)",
            actual: count_text(d.debt_items),
            threshold: count_text(d.max_debt_items),
            comparison: ">",
            failed: exceeds_max_threshold(d.debt_items as i128, d.max_debt_items as i128),
        });
    }
    let ghost c2 = c1 + count_check("Technical debt items (deprecated)"@, d.debt_items, d.max_debt_items);
    assert(views(checks@) =~= c2);
    if d.max_high_risk_functions > 0 {
        checks.push(ValidationCheck {
            metric_name: "High-risk functions (deprecated)",
            actual: count_text(d.high_risk_functions),
            threshold: count_text(d.max_high_risk_functions),
            comparison: ">",
            failed: exceeds_max_threshold(d.high_risk_functions as i128, d.max_high_risk_functions as i128),
        });
    }
    assert(views(checks@) =~= validation_checks(*details));
    checks
}

/// The report lines of the failed checks among some checks, in order.
pub open spec fn failure_lines(checks: Seq<CheckView>) -> Seq<Seq<char>>
    decreases checks.len(),
{
    if checks.len() == 0 {
        Seq::empty()
    } else {
        let prev = failure_lines(checks.drop_last());
        let c = checks.last();
        if c.4 {
            prev.push(failure_text(c.0, c.1, c.2, c.3))
        } else {
            prev
        }
    }
}

/// The report lines of the failed validation checks of some metrics, in the
/// order of the checks.
pub fn failed_validation_checks(details: &ValidationDetails) -> (r: Vec<String>)
    ensures
        r@.map_values(|s: String| s@) == failure_lines(validation_checks(*details)),
{
    let checks = create_validation_checks(details);
    let ghost all = views(checks@);
    let mut lines: Vec<String> = Vec::new();
    let mut i: usize = 0;
    assert(lines@.map_values(|s: String| s@) =~= failure_lines(all.take(0)));
    while i < checks.len()
        invariant
            i <= checks.len(),
            all == views(checks@),
            lines@.map_values(|s: String| s@) == failure_lines(all.take(i as int)),
        decreases checks.len() - i,
    {
        let ghost before = lines@;
        proof {
            assert(all.take(i + 1).drop_last() =~= all.take(i as int));
            assert(all.take(i + 1).last() == check_view(checks@[i as int]));
        }
        if checks[i].is_failed() {
            lines.push(checks[i].format_failure());
            assert(lines@.map_values(|s: String| s@) =~= before.map_values(|s: String| s@).push(lines@.last()@));
        }
        i = i + 1;
    }
    assert(all.take(all.len() as int) =~= all);
    lines
}

} // verus!
