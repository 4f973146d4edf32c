use speculare_alerts::alert::Alert;
use speculare_alerts::incident::severity_of;
use speculare_alerts::incident::Severity;
use speculare_alerts::threshold::check_threshold;
use speculare_alerts::threshold::combine_evaluations;
use speculare_alerts::threshold::substitute;
use speculare_alerts::threshold::ThresholdError;

fn alert(warn: &str, crit: &str) -> Alert {
    Alert {
        id: 7,
        name: String::from("cpu_high"),
        table: String::from("cpu_stats"),
        lookup: String::from("avg abs 5m of usage_user"),
        timing: 60,
        warn: String::from(warn),
        crit: String::from(crit),
        info: None,
        host_uuid: String::from("h1"),
        hostname: String::from("web-1"),
        where_clause: None,
        active: true,
    }
}

#[test]
fn thresholds_below_between_and_above() {
    let a = alert("$this > 50", "$this > 80");
    assert_eq!(check_threshold(&a, "40"), Ok((false, false)));
    assert_eq!(check_threshold(&a, "60"), Ok((true, false)));
    assert_eq!(check_threshold(&a, "90"), Ok((true, true)));
}

#[test]
fn decimals_and_negatives_are_substituted() {
    let a = alert("$this < 0", "$this < -10.5");
    assert_eq!(check_threshold(&a, "-1.5"), Ok((true, false)));
    assert_eq!(check_threshold(&a, "-12.25"), Ok((true, true)));
    assert_eq!(check_threshold(&a, "0.75"), Ok((false, false)));
}

#[test]
fn combined_conditions() {
    let a = alert("$this >= 10 && $this <= 20", "$this == 15 || $this > 100");
    assert_eq!(check_threshold(&a, "15"), Ok((true, true)));
    assert_eq!(check_threshold(&a, "12"), Ok((true, false)));
}

#[test]
fn unparsable_expression_is_an_error() {
    let a = alert("$this >", "$this > 80");
    assert_eq!(check_threshold(&a, "60"), Err(ThresholdError::Warn));
    let b = alert("$this > 50", "$this > > 80");
    assert_eq!(check_threshold(&b, "60"), Err(ThresholdError::Crit));
}

#[test]
fn substitution_replaces_every_placeholder() {
    assert_eq!(substitute("$this > 1 && $this < 9", "4.5"), "4.5 > 1 && 4.5 < 9");
    assert_eq!(substitute("1 > 0", "7"), "1 > 0");
    assert_eq!(substitute("$thi$this", "2"), "$thi2");
}

#[test]
fn combining_evaluations() {
    assert_eq!(combine_evaluations(Some(true), Some(false)), Ok((true, false)));
    assert_eq!(combine_evaluations(None, Some(false)), Err(ThresholdError::Warn));
    assert_eq!(combine_evaluations(Some(true), None), Err(ThresholdError::Crit));
}

#[test]
fn crit_dominates_warn() {
    assert_eq!(severity_of(false, false), None);
    assert_eq!(severity_of(true, false), Some(Severity::Warning));
    assert_eq!(severity_of(false, true), Some(Severity::Critical));
    assert_eq!(severity_of(true, true), Some(Severity::Critical));
}

#[test]
fn exponent_notation_is_evaluated() {
    let a = alert("$this > 0.01", "$this > 100");
    assert_eq!(check_threshold(&a, "2.5e-2"), Ok((true, false)));
    assert_eq!(check_threshold(&a, "1.5e3"), Ok((true, true)));
    assert_eq!(check_threshold(&a, "1e-5"), Ok((false, false)));
}
