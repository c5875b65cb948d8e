use loan_calc::decimal::Dec;
use loan_calc::loan_view::{CalcError, CalcResultOverview, LoanFormData, LoanType, LoanView, LoanViewData};

fn loan(amount: &str, interest: &str, clearance: &str, runtime: &str, policy: LoanType) -> LoanView {
    let mut lv = LoanView::new(String::from("test"));
    lv.data = LoanViewData {
        name: String::from("test"),
        amount: String::from(amount),
        interest_rate: String::from(interest),
        clearance_rate: String::from(clearance),
        runtime_years: String::from(runtime),
        loan_type: policy,
    };
    lv
}

fn dec(s: &str) -> Dec {
    let lv = loan(s, "0", "0", "0", LoanType::Annuity);
    let r = lv.calc_annuity().expect("parses");
    // the first row stores the parsed principal, rounded; with at most two
    // fractional digits in `s` that is the parsed value itself
    r.months[0].remaining
}

fn assert_same(a: &Dec, b: &Dec) {
    assert!(a.same_value(b), "{:?} and {:?} denote different numbers", a, b);
}

fn rows_equal(a: &CalcResultOverview, b: &CalcResultOverview) -> bool {
    if a.monthly_rate != b.monthly_rate || a.overall.month != b.overall.month
        || a.overall.remaining != b.overall.remaining
        || a.overall.paid_interest != b.overall.paid_interest
        || a.overall.cleared_amount != b.overall.cleared_amount
        || a.months.len() != b.months.len()
    {
        return false;
    }
    for i in 0..a.months.len() {
        let (x, y) = (&a.months[i], &b.months[i]);
        if x.month != y.month || x.remaining != y.remaining
            || x.paid_interest != y.paid_interest || x.cleared_amount != y.cleared_amount
        {
            return false;
        }
    }
    true
}

#[test]
fn annuity_example_first_row() {
    // principal 120000 at 3% interest and 2% clearance over one year
    let lv = loan("120000", "3", "2", "1", LoanType::Annuity);
    let r = lv.calc_annuity().expect("valid inputs");
    assert_same(&r.monthly_rate, &dec("500.00"));
    assert_eq!(r.months.len(), 13);
    assert_eq!(r.months[0].month, 1);
    assert_same(&r.months[0].paid_interest, &dec("300.00"));
    assert_same(&r.months[0].cleared_amount, &dec("200.00"));
    assert_same(&r.months[0].remaining, &dec("120000.00"));
}

#[test]
fn rows_len_is_months_plus_one() {
    for (rt, want) in [("0", 1usize), ("1", 13), ("2", 25)] {
        let a = loan("1000", "5", "1", rt, LoanType::Annuity);
        assert_eq!(a.calc_annuity().expect("valid").months.len(), want);
        let b = loan("1000", "5", "1", rt, LoanType::BuildingSavings);
        assert_eq!(b.calc_building_saving().expect("valid").months.len(), want);
    }
}

#[test]
fn negative_runtime_gives_empty_schedule() {
    let lv = loan("1000", "5", "1", "-1", LoanType::Annuity);
    let r = lv.calc_annuity().expect("negative runtime is accepted");
    assert_eq!(r.months.len(), 0);
    assert_same(&r.overall.remaining, &dec("0"));
}

#[test]
fn final_remaining_equals_last_row() {
    let a = loan("120000", "3", "2", "1", LoanType::Annuity).calc_annuity().expect("valid");
    let last = a.months.last().expect("has rows");
    assert_eq!(a.overall.remaining, last.remaining);
    let b = loan("50000", "4", "3", "2", LoanType::BuildingSavings)
        .calc_building_saving()
        .expect("valid");
    let last = b.months.last().expect("has rows");
    assert_eq!(b.overall.remaining, last.remaining);
}

#[test]
fn annuity_zero_runtime_single_row() {
    let lv = loan("120000", "3", "2", "0", LoanType::Annuity);
    let r = lv.calc_annuity().expect("valid");
    assert_eq!(r.months.len(), 1);
    assert_same(&r.monthly_rate, &dec("500.00"));
    assert_same(&r.months[0].paid_interest, &dec("300.00"));
}

#[test]
fn building_savings_interest_is_constant() {
    let lv = loan("120000", "3", "2", "2", LoanType::BuildingSavings);
    let r = lv.calc_building_saving().expect("valid");
    assert_eq!(r.months.len(), 25);
    let first = &r.months[0].paid_interest;
    for row in &r.months {
        assert_eq!(&row.paid_interest, first);
    }
    assert_same(first, &dec("300.00"));
}

#[test]
fn annuity_interest_shrinks() {
    let lv = loan("120000", "3", "2", "1", LoanType::Annuity);
    let r = lv.calc_annuity().expect("valid");
    // the balance shrinks, so later interest is strictly smaller
    assert!(!r.months[0].paid_interest.same_value(&r.months[12].paid_interest));
}

#[test]
fn rounding_ties_go_away_from_zero() {
    // 13334 * 3% / 12 = 33.335, stored as 33.34
    let lv = loan("13334", "3", "0", "0", LoanType::Annuity);
    let r = lv.calc_annuity().expect("valid");
    let interest = &r.months[0].paid_interest;
    assert_same(interest, &dec("33.34"));
    assert_eq!(interest.mantissa, 3334);
    assert_eq!(interest.scale, 2);
    // the header line rounds the raw total 33.335 the same way
    let (_, total_interest, _, _) = r.rounded_summary();
    assert_eq!(total_interest.mantissa, 3334);
    assert_eq!(total_interest.scale, 2);
    // 13338 * 3% / 12 = 33.345: half rounds up even though the kept
    // digit is already even
    let lv = loan("13338", "3", "0", "0", LoanType::Annuity);
    let r = lv.calc_annuity().expect("valid");
    let interest = &r.months[0].paid_interest;
    assert_same(interest, &dec("33.35"));
    assert_eq!(interest.mantissa, 3335);
    assert_eq!(interest.scale, 2);
}

#[test]
fn snapshot_roundtrip_recomputes_identically() {
    let saved = loan("123456.78", "3.25", "1.5", "10", LoanType::Annuity);
    let first = saved.calc_annuity().expect("valid");
    // a persistence snapshot carries the raw strings; hand them back
    // unchanged and recompute
    let restored = loan(
        saved.data.amount.as_str(),
        saved.data.interest_rate.as_str(),
        saved.data.clearance_rate.as_str(),
        saved.data.runtime_years.as_str(),
        LoanType::Annuity,
    );
    let second = restored.calc_annuity().expect("valid");
    assert!(rows_equal(&first, &second));
}

#[test]
fn invalid_amount_is_reported_first() {
    let lv = loan("x", "y", "z", "w", LoanType::Annuity);
    assert_eq!(lv.calc_annuity().unwrap_err(), CalcError::InvalidNumber(LoanFormData::Amount));
}

#[test]
fn invalid_interest_rate_is_reported() {
    let lv = loan("1000", "y", "1", "1", LoanType::Annuity);
    assert_eq!(
        lv.calc_annuity().unwrap_err(),
        CalcError::InvalidNumber(LoanFormData::InterestRate)
    );
}

#[test]
fn invalid_clearance_rate_is_reported() {
    let lv = loan("1000", "5", "z", "1", LoanType::BuildingSavings);
    assert_eq!(
        lv.calc_building_saving().unwrap_err(),
        CalcError::InvalidNumber(LoanFormData::ClearanceRate)
    );
}

#[test]
fn invalid_runtime_is_reported() {
    let lv = loan("1000", "5", "1", "1.5", LoanType::Annuity);
    assert_eq!(
        lv.calc_annuity().unwrap_err(),
        CalcError::InvalidNumber(LoanFormData::RuntimeYears)
    );
}

#[test]
fn runtime_overflow_is_reported() {
    let lv = loan("1000", "5", "1", "200000000", LoanType::Annuity);
    assert_eq!(lv.calc_annuity().unwrap_err(), CalcError::Overflow);
}

#[test]
fn calc_stores_result_only_on_success() {
    let mut lv = loan("1000", "5", "1", "0", LoanType::Annuity);
    lv.calc();
    assert!(lv.result.is_some());
    let mut bad = loan("x", "5", "1", "0", LoanType::Annuity);
    bad.calc();
    assert!(bad.result.is_none());
}

#[test]
fn same_value_ignores_trailing_zeros() {
    let a = Dec { mantissa: 500, scale: 0 };
    let b = Dec { mantissa: 50000, scale: 2 };
    let c = Dec { mantissa: 5001, scale: 1 };
    assert!(a.same_value(&b));
    assert!(!a.same_value(&c));
    assert!(!b.same_value(&c));
}

#[test]
fn decimal_parse_accepts_fractions() {
    let lv = loan("0.125", "0", "0", "0", LoanType::Annuity);
    let r = lv.calc_annuity().expect("valid");
    // stored rounded to two digits, half away from zero: 0.125 -> 0.13
    assert_eq!(r.months[0].remaining.mantissa, 13);
    assert_eq!(r.months[0].remaining.scale, 2);
}
