//! One loan: its raw inputs, its input form, and the amortization engine
//! that turns the inputs into a month-by-month schedule.
//!
//! Two policies share one loop shape. Under `Annuity` the monthly interest
//! is taken from the shrinking balance; under `BuildingSavings` it is taken
//! from the original principal every month, and the displayed balance is
//! the principal less the running cleared total. Every row stores values
//! rounded to two fractional digits while the accumulators keep full
//! precision, and the stored "final remaining balance" is the last row's
//! balance — one clearance behind the true running balance, exactly as the
//! schedule is displayed.

use vstd::prelude::*;

use crate::decimal::{
    dec_add, dec_add_of, dec_div, dec_div_of, dec_mul, dec_mul_of, dec_parse, dec_parse_of,
    dec_round2, dec_sub, dec_sub_of, lemma_round2_idempotent, round2_spec, Dec,
};
use crate::form::{form_update_spec, Form, FormInputV, FormMessage, FormTextInputMessage, FormV};
use crate::parse_int::{parse_i32, parse_i32_of};
use crate::style::ButtonStyle;

verus! {

/// The amortization policy.
#[derive(Clone, Copy, Debug, PartialEq, Eq, Structural)]
pub enum LoanType {
    Annuity,
    BuildingSavings,
}

impl Default for LoanType {
    /// The policy a fresh loan starts under.
    fn default() -> (r: Self)
        ensures
            r == LoanType::Annuity,
    {
        LoanType::Annuity
    }
}

/// Which input field of the loan form a message speaks of.
#[derive(Clone, Copy, Debug, PartialEq, Eq, Structural)]
pub enum LoanFormData {
    NoField,
    Name,
    Amount,
    InterestRate,
    ClearanceRate,
    RuntimeYears,
}

impl Default for LoanFormData {
    /// The identifier that points at no field.
    fn default() -> (r: Self)
        ensures
            r == LoanFormData::NoField,
    {
        LoanFormData::NoField
    }
}

/// The raw inputs of one loan, kept as the user's text: the source of
/// truth for the engine and for persistence, parsed only on demand.
#[derive(Debug, Clone)]
pub struct LoanViewData {
    pub name: String,
    pub amount: String,
    pub interest_rate: String,
    pub clearance_rate: String,
    pub runtime_years: String,
    pub loan_type: LoanType,
}

/// The mathematical content of a loan's raw inputs.
pub ghost struct LoanViewDataV {
    pub name: Seq<char>,
    pub amount: Seq<char>,
    pub interest_rate: Seq<char>,
    pub clearance_rate: Seq<char>,
    pub runtime_years: Seq<char>,
    pub loan_type: LoanType,
}

impl View for LoanViewData {
    type V = LoanViewDataV;

    open spec fn view(&self) -> LoanViewDataV {
        LoanViewDataV {
            name: self.name@,
            amount: self.amount@,
            interest_rate: self.interest_rate@,
            clearance_rate: self.clearance_rate@,
            runtime_years: self.runtime_years@,
            loan_type: self.loan_type,
        }
    }
}

impl Default for LoanViewData {
    /// Empty texts under the default policy.
    fn default() -> (r: Self)
        ensures
            r@.name == Seq::<char>::empty(),
            r@.amount == Seq::<char>::empty(),
            r@.interest_rate == Seq::<char>::empty(),
            r@.clearance_rate == Seq::<char>::empty(),
            r@.runtime_years == Seq::<char>::empty(),
            r@.loan_type == LoanType::Annuity,
    {
        LoanViewData {
            name: String::new(),
            amount: String::new(),
            interest_rate: String::new(),
            clearance_rate: String::new(),
            runtime_years: String::new(),
            loan_type: LoanType::Annuity,
        }
    }
}

/// Why a calculation produced no schedule: one of the four numeric texts
/// does not parse, or a value left the range that exact decimals carry
/// (reported rather than aborting, where the arithmetic has no result).
#[derive(Clone, Copy, Debug, PartialEq, Eq, Structural)]
pub enum CalcError {
    InvalidNumber(LoanFormData),
    Overflow,
}

/// One month of the schedule, as stored: the 1-based month index, the
/// balance before this month's clearance, and this month's interest and
/// clearance, each rounded to two fractional digits.
#[derive(Debug)]
pub struct CalcResult {
    pub month: i32,
    pub remaining: Dec,
    pub paid_interest: Dec,
    pub cleared_amount: Dec,
}

/// The mathematical content of one schedule row.
pub ghost struct RowV {
    pub month: int,
    pub remaining: (int, int),
    pub paid_interest: (int, int),
    pub cleared_amount: (int, int),
}

impl View for CalcResult {
    type V = RowV;

    open spec fn view(&self) -> RowV {
        RowV {
            month: self.month as int,
            remaining: self.remaining@,
            paid_interest: self.paid_interest@,
            cleared_amount: self.cleared_amount@,
        }
    }
}

impl Default for CalcResult {
    /// Month zero with zero values.
    fn default() -> (r: Self)
        ensures
            r@ == (RowV {
                month: 0,
                remaining: (0int, 0int),
                paid_interest: (0int, 0int),
                cleared_amount: (0int, 0int),
            }),
    {
        CalcResult {
            month: 0,
            remaining: Dec::zero(),
            paid_interest: Dec::zero(),
            cleared_amount: Dec::zero(),
        }
    }
}

/// A full calculation: the fixed monthly payment, the totals, and the
/// rows. In `overall`, `paid_interest` and `cleared_amount` carry the
/// full-precision running totals, and `remaining` repeats the last row's
/// rounded balance (zero while there is no row).
#[derive(Debug)]
pub struct CalcResultOverview {
    pub overall: CalcResult,
    pub monthly_rate: Dec,
    pub months: Vec<Box<CalcResult>>,
}

/// The mathematical content of a full calculation.
pub ghost struct OverviewV {
    pub overall: RowV,
    pub monthly_rate: (int, int),
    pub months: Seq<RowV>,
}

/// The rows a vector of boxed rows denotes.
pub open spec fn rows_of(months: Seq<Box<CalcResult>>) -> Seq<RowV> {
    months.map(|i: int, b: Box<CalcResult>| b@)
}

impl View for CalcResultOverview {
    type V = OverviewV;

    open spec fn view(&self) -> OverviewV {
        OverviewV {
            overall: self.overall@,
            monthly_rate: self.monthly_rate@,
            months: rows_of(self.months@),
        }
    }
}

/// Rounding to two fractional digits, over a mantissa/scale pair.
pub open spec fn round2_v(v: (int, int)) -> (int, int) {
    round2_spec(v.0, v.1)
}

/// Whether a mantissa/scale pair stays within what `rust_decimal`
/// carries: a 96-bit mantissa and a scale of at most 28.
pub open spec fn pair_wf(v: (int, int)) -> bool {
    &&& -0x1_0000_0000_0000_0000_0000_0000 < v.0 < 0x1_0000_0000_0000_0000_0000_0000
    &&& 0 <= v.1 <= 28
}

/// Whether the header figures of a calculation — the monthly payment and
/// the three totals — stay representable. Every calculation this crate
/// produces satisfies it; it is asked of values built by hand.
pub open spec fn result_wf(ov: OverviewV) -> bool {
    &&& pair_wf(ov.monthly_rate)
    &&& pair_wf(ov.overall.remaining)
    &&& pair_wf(ov.overall.paid_interest)
    &&& pair_wf(ov.overall.cleared_amount)
}

impl CalcResultOverview {
    /// The header figures as they are shown: the monthly payment, the
    /// paid-interest total, the final remaining balance and the cleared
    /// total, each rounded to two fractional digits.
    pub fn rounded_summary(&self) -> (r: (Dec, Dec, Dec, Dec))
        requires
            result_wf(self@),
        ensures
            r.0@ == round2_v(self@.monthly_rate),
            r.1@ == round2_v(self@.overall.paid_interest),
            r.2@ == round2_v(self@.overall.remaining),
            r.3@ == round2_v(self@.overall.cleared_amount),
    {
        (
            dec_round2(&self.monthly_rate),
            dec_round2(&self.overall.paid_interest),
            dec_round2(&self.overall.remaining),
            dec_round2(&self.overall.cleared_amount),
        )
    }
}

/// What the common prelude of both policies yields from the raw inputs:
/// the parsed principal, the two rates already divided by 100, the fixed
/// monthly payment, and the runtime in months.
pub ghost struct ParsedInputs {
    pub amount: (int, int),
    pub interest_rate: (int, int),
    pub clearance_rate: (int, int),
    pub monthly_rate: (int, int),
    pub months_total: int,
}

/// The prelude both policies share, in the order the texts are read: the
/// principal, the interest rate (divided by 100), the clearance rate
/// (divided by 100), the monthly payment `principal * (interest +
/// clearance) / 12`, and last the runtime in years times 12. A text that
/// does not parse names its field; arithmetic without a result reports
/// `Overflow`.
pub open spec fn parse_inputs_spec(d: LoanViewDataV) -> Result<ParsedInputs, CalcError> {
    match dec_parse_of(d.amount) {
        None => Err(CalcError::InvalidNumber(LoanFormData::Amount)),
        Some(amount) => match dec_parse_of(d.interest_rate) {
            None => Err(CalcError::InvalidNumber(LoanFormData::InterestRate)),
            Some(ir0) => match dec_div_of(ir0, (100int, 0int)) {
                None => Err(CalcError::Overflow),
                Some(interest_rate) => match dec_parse_of(d.clearance_rate) {
                    None => Err(CalcError::InvalidNumber(LoanFormData::ClearanceRate)),
                    Some(cr0) => match dec_div_of(cr0, (100int, 0int)) {
                        None => Err(CalcError::Overflow),
                        Some(clearance_rate) => match dec_add_of(interest_rate, clearance_rate) {
                            None => Err(CalcError::Overflow),
                            Some(rate_sum) => match dec_mul_of(amount, rate_sum) {
                                None => Err(CalcError::Overflow),
                                Some(prod) => match dec_div_of(prod, (12int, 0int)) {
                                    None => Err(CalcError::Overflow),
                                    Some(monthly_rate) => match parse_i32_of(d.runtime_years) {
                                        None => Err(
                                            CalcError::InvalidNumber(LoanFormData::RuntimeYears),
                                        ),
                                        Some(rt) => if rt * 12 > i32::MAX || rt * 12 < i32::MIN {
                                            Err(CalcError::Overflow)
                                        } else {
                                            Ok(
                                                ParsedInputs {
                                                    amount,
                                                    interest_rate,
                                                    clearance_rate,
                                                    monthly_rate,
                                                    months_total: rt * 12,
                                                },
                                            )
                                        },
                                    },
                                },
                            },
                        },
                    },
                },
            },
        },
    }
}

/// The loop-carried state of either policy: the running balance, the two
/// full-precision totals, and the rows appended so far.
pub ghost struct EngineState {
    pub remaining: (int, int),
    pub paid_interest: (int, int),
    pub cleared_amount: (int, int),
    pub rows: Seq<RowV>,
}

/// The state both policies start from.
pub open spec fn init_state(amount: (int, int)) -> EngineState {
    EngineState {
        remaining: amount,
        paid_interest: (0int, 0int),
        cleared_amount: (0int, 0int),
        rows: Seq::empty(),
    }
}

/// How many rows a runtime of `months_total` months produces: one per
/// month plus one, none when the runtime is negative.
pub open spec fn iterations(months_total: int) -> nat {
    if months_total >= 0 {
        (months_total + 1) as nat
    } else {
        0
    }
}

/// `k` months of the annuity policy from state `st`: each month takes
/// interest from the running balance (`remaining * interest_rate / 12`),
/// clears the rest of the payment, stores the pre-clearance balance, and
/// only then reduces the balance. `None` when any step has no result.
pub open spec fn annuity_steps(
    interest_rate: (int, int),
    monthly_rate: (int, int),
    st: EngineState,
    month: int,
    k: nat,
) -> Option<EngineState>
    decreases k,
{
    if k == 0 {
        Some(st)
    } else {
        match dec_mul_of(st.remaining, interest_rate) {
            None => None,
            Some(x) => match dec_div_of(x, (12int, 0int)) {
                None => None,
                Some(interest) => match dec_add_of(st.paid_interest, interest) {
                    None => None,
                    Some(ti) => match dec_sub_of(monthly_rate, interest) {
                        None => None,
                        Some(cleared) => match dec_add_of(st.cleared_amount, cleared) {
                            None => None,
                            Some(tc) => match dec_sub_of(st.remaining, cleared) {
                                None => None,
                                Some(rem2) => annuity_steps(
                                    interest_rate,
                                    monthly_rate,
                                    EngineState {
                                        remaining: rem2,
                                        paid_interest: ti,
                                        cleared_amount: tc,
                                        rows: st.rows.push(
                                            RowV {
                                                month: month + 1,
                                                remaining: round2_v(st.remaining),
                                                paid_interest: round2_v(interest),
                                                cleared_amount: round2_v(cleared),
                                            },
                                        ),
                                    },
                                    month + 1,
                                    (k - 1) as nat,
                                ),
                            },
                        },
                    },
                },
            },
        }
    }
}

/// `k` months of the building-savings policy from state `st`: the interest
/// is taken from the original principal every month, the cleared rest
/// accumulates, and the stored balance is the principal less the updated
/// cleared total. `None` when any step has no result.
pub open spec fn building_steps(
    amount: (int, int),
    interest_rate: (int, int),
    monthly_rate: (int, int),
    st: EngineState,
    month: int,
    k: nat,
) -> Option<EngineState>
    decreases k,
{
    if k == 0 {
        Some(st)
    } else {
        match dec_mul_of(amount, interest_rate) {
            None => None,
            Some(x) => match dec_div_of(x, (12int, 0int)) {
                None => None,
                Some(interest) => match dec_add_of(st.paid_interest, interest) {
                    None => None,
                    Some(ti) => match dec_sub_of(monthly_rate, interest) {
                        None => None,
                        Some(saved) => match dec_add_of(st.cleared_amount, saved) {
                            None => None,
                            Some(tc) => match dec_sub_of(amount, tc) {
                                None => None,
                                Some(remaining) => building_steps(
                                    amount,
                                    interest_rate,
                                    monthly_rate,
                                    EngineState {
                                        remaining,
                                        paid_interest: ti,
                                        cleared_amount: tc,
                                        rows: st.rows.push(
                                            RowV {
                                                month: month + 1,
                                                remaining: round2_v(remaining),
                                                paid_interest: round2_v(interest),
                                                cleared_amount: round2_v(saved),
                                            },
                                        ),
                                    },
                                    month + 1,
                                    (k - 1) as nat,
                                ),
                            },
                        },
                    },
                },
            },
        }
    }
}

/// The overview a finished run yields: the monthly payment, the totals at
/// full precision, and as the stored final balance the last row's already
/// rounded balance, rounded once more (zero while there is no row).
pub open spec fn finish_spec(monthly_rate: (int, int), st: EngineState) -> OverviewV {
    OverviewV {
        overall: RowV {
            month: 0,
            remaining: if st.rows.len() > 0 {
                round2_v(st.rows.last().remaining)
            } else {
                (0int, 0int)
            },
            paid_interest: st.paid_interest,
            cleared_amount: st.cleared_amount,
        },
        monthly_rate,
        months: st.rows,
    }
}

/// The whole annuity calculation over the raw inputs.
pub open spec fn annuity_spec(d: LoanViewDataV) -> Result<OverviewV, CalcError> {
    match parse_inputs_spec(d) {
        Err(e) => Err(e),
        Ok(p) => match annuity_steps(
            p.interest_rate,
            p.monthly_rate,
            init_state(p.amount),
            0,
            iterations(p.months_total),
        ) {
            None => Err(CalcError::Overflow),
            Some(st) => Ok(finish_spec(p.monthly_rate, st)),
        },
    }
}

/// The whole building-savings calculation over the raw inputs.
pub open spec fn building_spec(d: LoanViewDataV) -> Result<OverviewV, CalcError> {
    match parse_inputs_spec(d) {
        Err(e) => Err(e),
        Ok(p) => match building_steps(
            p.amount,
            p.interest_rate,
            p.monthly_rate,
            init_state(p.amount),
            0,
            iterations(p.months_total),
        ) {
            None => Err(CalcError::Overflow),
            Some(st) => Ok(finish_spec(p.monthly_rate, st)),
        },
    }
}

/// The calculation the data's own policy selects.
pub open spec fn spec_calc(d: LoanViewDataV) -> Result<OverviewV, CalcError> {
    match d.loan_type {
        LoanType::Annuity => annuity_spec(d),
        LoanType::BuildingSavings => building_spec(d),
    }
}

/// The mathematical content of a calculation's outcome.
pub open spec fn res_view(r: Result<CalcResultOverview, CalcError>) -> Result<
    OverviewV,
    CalcError,
> {
    match r {
        Ok(o) => Ok(o@),
        Err(e) => Err(e),
    }
}

/// The mathematical content of a stored calculation, if any.
pub open spec fn opt_res_view(r: Option<CalcResultOverview>) -> Option<OverviewV> {
    match r {
        Some(o) => Some(o@),
        None => None,
    }
}

/// A message addressed to one loan: switch the policy, recalculate, or
/// forward a form message.
#[derive(Debug, Clone)]
pub enum LoanViewMessage {
    ChangeTypeToAnnuity,
    ChangeTypeToBuildingSavings,
    Calc,
    LoanForm(FormMessage<LoanFormData>),
}

/// How a form message lands in the raw inputs: a text change replaces the
/// field its identifier names; anything else leaves the inputs alone.
pub open spec fn data_update_spec(
    d: LoanViewDataV,
    msg: FormMessage<LoanFormData>,
) -> LoanViewDataV {
    match msg {
        FormMessage::TextInputMessage(id, _idx, m) => match m {
            FormTextInputMessage::InputChanged(value) => match id {
                LoanFormData::Name => LoanViewDataV { name: value@, ..d },
                LoanFormData::Amount => LoanViewDataV { amount: value@, ..d },
                LoanFormData::InterestRate => LoanViewDataV { interest_rate: value@, ..d },
                LoanFormData::ClearanceRate => LoanViewDataV { clearance_rate: value@, ..d },
                LoanFormData::RuntimeYears => LoanViewDataV { runtime_years: value@, ..d },
                LoanFormData::NoField => d,
            },
            FormTextInputMessage::OnTab(_) => d,
        },
    }
}

/// One loan as the caller holds it: its raw inputs, its input form, and
/// the most recent calculation, if one succeeded.
pub struct LoanView {
    pub data: LoanViewData,
    pub form: Form<LoanFormData>,
    pub result: Option<CalcResultOverview>,
}

/// The mathematical content of one loan.
pub ghost struct LoanViewV {
    pub data: LoanViewDataV,
    pub form: FormV<LoanFormData>,
    pub result: Option<OverviewV>,
}

impl View for LoanView {
    type V = LoanViewV;

    open spec fn view(&self) -> LoanViewV {
        LoanViewV { data: self.data@, form: self.form@, result: opt_res_view(self.result) }
    }
}

/// The loan after one message: a policy switch rewrites the selector, a
/// recalculation stores the fresh schedule (or clears the stored one on
/// failure), and a form message lands in both the raw inputs and the form.
pub open spec fn loan_view_update_spec(v: LoanViewV, msg: LoanViewMessage) -> LoanViewV {
    match msg {
        LoanViewMessage::Calc => LoanViewV {
            result: match spec_calc(v.data) {
                Ok(ov) => Some(ov),
                Err(_) => None,
            },
            ..v
        },
        LoanViewMessage::ChangeTypeToAnnuity => LoanViewV {
            data: LoanViewDataV { loan_type: LoanType::Annuity, ..v.data },
            ..v
        },
        LoanViewMessage::ChangeTypeToBuildingSavings => LoanViewV {
            data: LoanViewDataV { loan_type: LoanType::BuildingSavings, ..v.data },
            ..v
        },
        LoanViewMessage::LoanForm(m) => LoanViewV {
            data: data_update_spec(v.data, m),
            form: form_update_spec(v.form, m),
            ..v
        },
    }
}

/// The loan's form keeps its focus within its field list.
pub open spec fn loan_view_wf(v: LoanViewV) -> bool {
    crate::form::form_wf(v.form)
}

/// The loan `LoanView::new` builds from a name: the given name, otherwise
/// empty inputs under the default policy, the five form fields in order,
/// and no result.
pub open spec fn new_loan_view_v(name: Seq<char>) -> LoanViewV {
    LoanViewV {
        data: LoanViewDataV {
            name,
            amount: Seq::<char>::empty(),
            interest_rate: Seq::<char>::empty(),
            clearance_rate: Seq::<char>::empty(),
            runtime_years: Seq::<char>::empty(),
            loan_type: LoanType::Annuity,
        },
        form: FormV {
            focused: None,
            inputs: seq![
                FormInputV { id: LoanFormData::Name, value: name, placeholder: "Name"@ },
                FormInputV {
                    id: LoanFormData::Amount,
                    value: Seq::<char>::empty(),
                    placeholder: "Amount"@,
                },
                FormInputV {
                    id: LoanFormData::InterestRate,
                    value: Seq::<char>::empty(),
                    placeholder: "Interest rate"@,
                },
                FormInputV {
                    id: LoanFormData::ClearanceRate,
                    value: Seq::<char>::empty(),
                    placeholder: "Clearance rate"@,
                },
                FormInputV {
                    id: LoanFormData::RuntimeYears,
                    value: Seq::<char>::empty(),
                    placeholder: "Runtime"@,
                },
            ],
        },
        result: None,
    }
}

impl LoanView {
    /// The form's focus stays within its field list.
    pub open spec fn wf(&self) -> bool {
        loan_view_wf(self@)
    }

    /// A fresh loan: the given name, otherwise empty inputs under the
    /// default policy, a form with the five fields in order, no result.
    pub fn new(name: String) -> (r: Self)
        ensures
            r@ == new_loan_view_v(name@),
            r.wf(),
    {
        let form = Form::new().push(LoanFormData::Name, "Name", Some(name.clone())).push(
            LoanFormData::Amount,
            "Amount",
            None,
        ).push(LoanFormData::InterestRate, "Interest rate", None).push(
            LoanFormData::ClearanceRate,
            "Clearance rate",
            None,
        ).push(LoanFormData::RuntimeYears, "Runtime", None);
        let r = Self {
            data: LoanViewData {
                name,
                amount: String::new(),
                interest_rate: String::new(),
                clearance_rate: String::new(),
                runtime_years: String::new(),
                loan_type: LoanType::Annuity,
            },
            form,
            result: None,
        };
        proof {
            assert(r@.form.inputs =~= new_loan_view_v(r.data.name@).form.inputs);
        }
        r
    }

    /// A loan rebuilt from stored data: the data as given, an empty form
    /// (fields are not rebuilt for loaded loans), no result yet.
    pub fn new_with_data(data: LoanViewData) -> (r: Self)
        ensures
            r@.data == data@,
            r@.result is None,
            r@.form.focused is None,
            r@.form.inputs =~= Seq::<FormInputV<LoanFormData>>::empty(),
            r.wf(),
    {
        Self { data, form: Form::new(), result: None }
    }

    /// Recalculates under the current policy and stores the schedule when
    /// it succeeds, keeping the previous one on failure.
    pub fn calc(&mut self)
        requires
            old(self).wf(),
        ensures
            final(self).data == old(self).data,
            final(self).form == old(self).form,
            final(self).wf(),
            opt_res_view(final(self).result) == (match spec_calc(old(self).data@) {
                Ok(ov) => Some(ov),
                Err(_) => opt_res_view(old(self).result),
            }),
    {
        let r = match self.data.loan_type {
            LoanType::Annuity => self.calc_annuity(),
            LoanType::BuildingSavings => self.calc_building_saving(),
        };
        if let Ok(res) = r {
            self.result = Some(res);
        }
    }

    /// Applies one message, as `loan_view_update_spec` states.
    pub fn update(&mut self, message: LoanViewMessage)
        requires
            old(self).wf(),
        ensures
            final(self)@ == loan_view_update_spec(old(self)@, message),
            final(self).wf(),
    {
        match message {
            LoanViewMessage::Calc => {
                self.result = None;
                let r = match self.data.loan_type {
                    LoanType::Annuity => self.calc_annuity(),
                    LoanType::BuildingSavings => self.calc_building_saving(),
                };
                if let Ok(res) = r {
                    self.result = Some(res);
                }
            },
            LoanViewMessage::ChangeTypeToAnnuity => {
                self.data.loan_type = LoanType::Annuity;
            },
            LoanViewMessage::ChangeTypeToBuildingSavings => {
                self.data.loan_type = LoanType::BuildingSavings;
            },
            LoanViewMessage::LoanForm(m) => {
                match &m {
                    FormMessage::TextInputMessage(i, _idx, inner) => {
                        let id = *i;
                        match inner {
                            FormTextInputMessage::InputChanged(value) => {
                                match id {
                                    LoanFormData::Name => {
                                        self.data.name = value.clone();
                                    },
                                    LoanFormData::Amount => {
                                        self.data.amount = value.clone();
                                    },
                                    LoanFormData::InterestRate => {
                                        self.data.interest_rate = value.clone();
                                    },
                                    LoanFormData::ClearanceRate => {
                                        self.data.clearance_rate = value.clone();
                                    },
                                    LoanFormData::RuntimeYears => {
                                        self.data.runtime_years = value.clone();
                                    },
                                    LoanFormData::NoField => {},
                                }
                            },
                            FormTextInputMessage::OnTab(_) => {},
                        }
                    },
                }
                self.form.update(m);
            },
        }
    }

    /// The highlight flags of the two policy buttons: exactly the button
    /// of the policy the loan currently computes under is active.
    pub fn policy_button_styles(&self) -> (r: (ButtonStyle, ButtonStyle))
        ensures
            r.0.active == (self.data.loan_type is Annuity),
            r.1.active == (self.data.loan_type is BuildingSavings),
    {
        match self.data.loan_type {
            LoanType::Annuity => (ButtonStyle { active: true }, ButtonStyle { active: false }),
            LoanType::BuildingSavings => (
                ButtonStyle { active: false },
                ButtonStyle { active: true },
            ),
        }
    }
}

/// A run of the annuity policy appends one row per iteration, keeps the
/// earlier rows as they are, and numbers the new rows consecutively
/// from the month it starts at.
proof fn lemma_annuity_steps_len(
    interest_rate: (int, int),
    monthly_rate: (int, int),
    st: EngineState,
    month: int,
    k: nat,
    st2: EngineState,
)
    requires
        annuity_steps(interest_rate, monthly_rate, st, month, k) == Some(st2),
    ensures
        st2.rows.len() == st.rows.len() + k,
        forall|j: int| 0 <= j < st.rows.len() ==> st2.rows[j] == st.rows[j],
        forall|j: int|
            st.rows.len() <= j < st2.rows.len() ==> (#[trigger] st2.rows[j]).month == month + 1 + (
            j - st.rows.len()),
    decreases k,
{
    if k > 0 {
        let r0 = dec_mul_of(st.remaining, interest_rate)->Some_0;
        let interest = dec_div_of(r0, (12int, 0int))->Some_0;
        let ti = dec_add_of(st.paid_interest, interest)->Some_0;
        let cleared = dec_sub_of(monthly_rate, interest)->Some_0;
        let tc = dec_add_of(st.cleared_amount, cleared)->Some_0;
        let rem2 = dec_sub_of(st.remaining, cleared)->Some_0;
        let next = EngineState {
            remaining: rem2,
            paid_interest: ti,
            cleared_amount: tc,
            rows: st.rows.push(
                RowV {
                    month: month + 1,
                    remaining: round2_v(st.remaining),
                    paid_interest: round2_v(interest),
                    cleared_amount: round2_v(cleared),
                },
            ),
        };
        lemma_annuity_steps_len(interest_rate, monthly_rate, next, month + 1, (k - 1) as nat, st2);
    }
}

/// A run of the building-savings policy appends one row per iteration,
/// keeps the earlier rows as they are, and numbers the new rows
/// consecutively from the month it starts at.
proof fn lemma_building_steps_len(
    amount: (int, int),
    interest_rate: (int, int),
    monthly_rate: (int, int),
    st: EngineState,
    month: int,
    k: nat,
    st2: EngineState,
)
    requires
        building_steps(amount, interest_rate, monthly_rate, st, month, k) == Some(st2),
    ensures
        st2.rows.len() == st.rows.len() + k,
        forall|j: int| 0 <= j < st.rows.len() ==> st2.rows[j] == st.rows[j],
        forall|j: int|
            st.rows.len() <= j < st2.rows.len() ==> (#[trigger] st2.rows[j]).month == month + 1 + (
            j - st.rows.len()),
    decreases k,
{
    if k > 0 {
        let r0 = dec_mul_of(amount, interest_rate)->Some_0;
        let interest = dec_div_of(r0, (12int, 0int))->Some_0;
        let ti = dec_add_of(st.paid_interest, interest)->Some_0;
        let saved = dec_sub_of(monthly_rate, interest)->Some_0;
        let tc = dec_add_of(st.cleared_amount, saved)->Some_0;
        let remaining = dec_sub_of(amount, tc)->Some_0;
        let next = EngineState {
            remaining,
            paid_interest: ti,
            cleared_amount: tc,
            rows: st.rows.push(
                RowV {
                    month: month + 1,
                    remaining: round2_v(remaining),
                    paid_interest: round2_v(interest),
                    cleared_amount: round2_v(saved),
                },
            ),
        };
        lemma_building_steps_len(
            amount,
            interest_rate,
            monthly_rate,
            next,
            month + 1,
            (k - 1) as nat,
            st2,
        );
    }
}

/// Law: the schedule holds one row per month of the runtime, plus one —
/// `runtime_years * 12 + 1` rows for a non-negative runtime, and none
/// for a negative one (the degenerate schedule a negative runtime
/// produces) — and the rows are numbered 1, 2, … in chronological order,
/// never re-sorted.
pub proof fn lemma_rows_len(d: LoanViewDataV, p: ParsedInputs, ov: OverviewV)
    requires
        parse_inputs_spec(d) == Ok::<ParsedInputs, CalcError>(p),
        spec_calc(d) == Ok::<OverviewV, CalcError>(ov),
    ensures
        ov.months.len() == iterations(p.months_total),
        p.months_total >= 0 ==> ov.months.len() == p.months_total + 1,
        forall|k: int| 0 <= k < ov.months.len() ==> (#[trigger] ov.months[k]).month == k + 1,
{
    match d.loan_type {
        LoanType::Annuity => {
            let st2 = annuity_steps(
                p.interest_rate,
                p.monthly_rate,
                init_state(p.amount),
                0,
                iterations(p.months_total),
            )->Some_0;
            lemma_annuity_steps_len(
                p.interest_rate,
                p.monthly_rate,
                init_state(p.amount),
                0,
                iterations(p.months_total),
                st2,
            );
        },
        LoanType::BuildingSavings => {
            let st2 = building_steps(
                p.amount,
                p.interest_rate,
                p.monthly_rate,
                init_state(p.amount),
                0,
                iterations(p.months_total),
            )->Some_0;
            lemma_building_steps_len(
                p.amount,
                p.interest_rate,
                p.monthly_rate,
                init_state(p.amount),
                0,
                iterations(p.months_total),
                st2,
            );
        },
    }
}

/// Whether every row's stored balance is already rounded — a fixed point
/// of rounding to two fractional digits.
pub open spec fn rows_rounded(rows: Seq<RowV>) -> bool {
    forall|j: int|
        0 <= j < rows.len() ==> round2_v((#[trigger] rows[j]).remaining) == rows[j].remaining
}

/// Both policies only append rows whose stored balance is already
/// rounded.
proof fn lemma_annuity_steps_rounded(
    interest_rate: (int, int),
    monthly_rate: (int, int),
    st: EngineState,
    month: int,
    k: nat,
    st2: EngineState,
)
    requires
        annuity_steps(interest_rate, monthly_rate, st, month, k) == Some(st2),
        rows_rounded(st.rows),
    ensures
        rows_rounded(st2.rows),
    decreases k,
{
    if k > 0 {
        let r0 = dec_mul_of(st.remaining, interest_rate)->Some_0;
        let interest = dec_div_of(r0, (12int, 0int))->Some_0;
        let ti = dec_add_of(st.paid_interest, interest)->Some_0;
        let cleared = dec_sub_of(monthly_rate, interest)->Some_0;
        let tc = dec_add_of(st.cleared_amount, cleared)->Some_0;
        let rem2 = dec_sub_of(st.remaining, cleared)->Some_0;
        let row = RowV {
            month: month + 1,
            remaining: round2_v(st.remaining),
            paid_interest: round2_v(interest),
            cleared_amount: round2_v(cleared),
        };
        lemma_round2_idempotent(st.remaining.0, st.remaining.1);
        assert(rows_rounded(st.rows.push(row)));
        let next = EngineState {
            remaining: rem2,
            paid_interest: ti,
            cleared_amount: tc,
            rows: st.rows.push(row),
        };
        lemma_annuity_steps_rounded(
            interest_rate,
            monthly_rate,
            next,
            month + 1,
            (k - 1) as nat,
            st2,
        );
    }
}

/// See `lemma_annuity_steps_rounded`.
proof fn lemma_building_steps_rounded(
    amount: (int, int),
    interest_rate: (int, int),
    monthly_rate: (int, int),
    st: EngineState,
    month: int,
    k: nat,
    st2: EngineState,
)
    requires
        building_steps(amount, interest_rate, monthly_rate, st, month, k) == Some(st2),
        rows_rounded(st.rows),
    ensures
        rows_rounded(st2.rows),
    decreases k,
{
    if k > 0 {
        let r0 = dec_mul_of(amount, interest_rate)->Some_0;
        let interest = dec_div_of(r0, (12int, 0int))->Some_0;
        let ti = dec_add_of(st.paid_interest, interest)->Some_0;
        let saved = dec_sub_of(monthly_rate, interest)->Some_0;
        let tc = dec_add_of(st.cleared_amount, saved)->Some_0;
        let remaining = dec_sub_of(amount, tc)->Some_0;
        let row = RowV {
            month: month + 1,
            remaining: round2_v(remaining),
            paid_interest: round2_v(interest),
            cleared_amount: round2_v(saved),
        };
        lemma_round2_idempotent(remaining.0, remaining.1);
        assert(rows_rounded(st.rows.push(row)));
        let next = EngineState {
            remaining,
            paid_interest: ti,
            cleared_amount: tc,
            rows: st.rows.push(row),
        };
        lemma_building_steps_rounded(
            amount,
            interest_rate,
            monthly_rate,
            next,
            month + 1,
            (k - 1) as nat,
            st2,
        );
    }
}

/// Law: whenever the schedule holds at least one row, the stored final
/// remaining balance is exactly the last row's balance.
pub proof fn lemma_final_remaining_is_last_row(d: LoanViewDataV, ov: OverviewV)
    requires
        spec_calc(d) == Ok::<OverviewV, CalcError>(ov),
        ov.months.len() > 0,
    ensures
        ov.overall.remaining == ov.months.last().remaining,
{
    let p = parse_inputs_spec(d)->Ok_0;
    match d.loan_type {
        LoanType::Annuity => {
            let st2 = annuity_steps(
                p.interest_rate,
                p.monthly_rate,
                init_state(p.amount),
                0,
                iterations(p.months_total),
            )->Some_0;
            lemma_annuity_steps_rounded(
                p.interest_rate,
                p.monthly_rate,
                init_state(p.amount),
                0,
                iterations(p.months_total),
                st2,
            );
        },
        LoanType::BuildingSavings => {
            let st2 = building_steps(
                p.amount,
                p.interest_rate,
                p.monthly_rate,
                init_state(p.amount),
                0,
                iterations(p.months_total),
            )->Some_0;
            lemma_building_steps_rounded(
                p.amount,
                p.interest_rate,
                p.monthly_rate,
                init_state(p.amount),
                0,
                iterations(p.months_total),
                st2,
            );
        },
    }
}

/// Under building savings every appended row carries the same interest:
/// the principal's monthly interest, rounded.
proof fn lemma_building_steps_interest(
    amount: (int, int),
    interest_rate: (int, int),
    monthly_rate: (int, int),
    st: EngineState,
    month: int,
    k: nat,
    st2: EngineState,
)
    requires
        building_steps(amount, interest_rate, monthly_rate, st, month, k) == Some(st2),
    ensures
        forall|j: int|
            st.rows.len() <= j < st2.rows.len() ==> (#[trigger] st2.rows[j]).paid_interest
                == round2_v(
                dec_div_of(dec_mul_of(amount, interest_rate)->Some_0, (12int, 0int))->Some_0,
            ),
        forall|j: int| 0 <= j < st.rows.len() ==> st2.rows[j] == st.rows[j],
        st.rows.len() <= st2.rows.len(),
    decreases k,
{
    if k > 0 {
        let r0 = dec_mul_of(amount, interest_rate)->Some_0;
        let interest = dec_div_of(r0, (12int, 0int))->Some_0;
        let ti = dec_add_of(st.paid_interest, interest)->Some_0;
        let saved = dec_sub_of(monthly_rate, interest)->Some_0;
        let tc = dec_add_of(st.cleared_amount, saved)->Some_0;
        let remaining = dec_sub_of(amount, tc)->Some_0;
        let row = RowV {
            month: month + 1,
            remaining: round2_v(remaining),
            paid_interest: round2_v(interest),
            cleared_amount: round2_v(saved),
        };
        let next = EngineState {
            remaining,
            paid_interest: ti,
            cleared_amount: tc,
            rows: st.rows.push(row),
        };
        lemma_building_steps_interest(
            amount,
            interest_rate,
            monthly_rate,
            next,
            month + 1,
            (k - 1) as nat,
            st2,
        );
    }
}

/// Law: under the building-savings policy every row of one schedule
/// stores the same interest — it is taken from the original principal
/// each month, not from the shrinking balance.
pub proof fn lemma_building_savings_constant_interest(d: LoanViewDataV, ov: OverviewV)
    requires
        building_spec(d) == Ok::<OverviewV, CalcError>(ov),
    ensures
        forall|i: int, j: int|
            0 <= i < ov.months.len() && 0 <= j < ov.months.len() ==> (
            #[trigger] ov.months[i]).paid_interest == (#[trigger] ov.months[j]).paid_interest,
{
    let p = parse_inputs_spec(d)->Ok_0;
    let st2 = building_steps(
        p.amount,
        p.interest_rate,
        p.monthly_rate,
        init_state(p.amount),
        0,
        iterations(p.months_total),
    )->Some_0;
    lemma_building_steps_interest(
        p.amount,
        p.interest_rate,
        p.monthly_rate,
        init_state(p.amount),
        0,
        iterations(p.months_total),
        st2,
    );
}

/// Law: under the annuity policy a runtime of zero years yields exactly
/// one row; the monthly payment is `principal * (interest_rate +
/// clearance_rate) / 12`, carried unrounded; the row is month 1 and
/// stores, each rounded, the principal's own monthly interest
/// `principal * interest_rate / 12`, the rest of the payment as the
/// cleared amount, and the principal itself as its balance.
pub proof fn lemma_annuity_zero_runtime(d: LoanViewDataV, p: ParsedInputs, ov: OverviewV)
    requires
        parse_inputs_spec(d) == Ok::<ParsedInputs, CalcError>(p),
        p.months_total == 0,
        annuity_spec(d) == Ok::<OverviewV, CalcError>(ov),
    ensures
        ov.months.len() == 1,
        ov.monthly_rate == p.monthly_rate,
        dec_div_of(
            dec_mul_of(p.amount, dec_add_of(p.interest_rate, p.clearance_rate)->Some_0)->Some_0,
            (12int, 0int),
        ) == Some(p.monthly_rate),
        ov.months[0].month == 1,
        ov.months[0].paid_interest == round2_v(
            dec_div_of(dec_mul_of(p.amount, p.interest_rate)->Some_0, (12int, 0int))->Some_0,
        ),
        ov.months[0].cleared_amount == round2_v(
            dec_sub_of(
                p.monthly_rate,
                dec_div_of(dec_mul_of(p.amount, p.interest_rate)->Some_0, (12int, 0int))->Some_0,
            )->Some_0,
        ),
        ov.months[0].remaining == round2_v(p.amount),
{
    assert(iterations(p.months_total) == 1);
    let st0 = init_state(p.amount);
    let r0 = dec_mul_of(st0.remaining, p.interest_rate)->Some_0;
    let interest = dec_div_of(r0, (12int, 0int))->Some_0;
    let ti = dec_add_of(st0.paid_interest, interest)->Some_0;
    let cleared = dec_sub_of(p.monthly_rate, interest)->Some_0;
    let tc = dec_add_of(st0.cleared_amount, cleared)->Some_0;
    let rem2 = dec_sub_of(st0.remaining, cleared)->Some_0;
    let row = RowV {
        month: 1,
        remaining: round2_v(st0.remaining),
        paid_interest: round2_v(interest),
        cleared_amount: round2_v(cleared),
    };
    let st1 = EngineState {
        remaining: rem2,
        paid_interest: ti,
        cleared_amount: tc,
        rows: st0.rows.push(row),
    };
    assert(annuity_steps(p.interest_rate, p.monthly_rate, st1, 1, 0) == Some(st1));
    assert(st1.rows.len() == 1);
    assert(st1.rows[0] == row);
}

/// Law: the computed schedule depends on the four numeric texts and the
/// policy alone, so a persistence round trip that hands the raw texts
/// back unchanged recomputes the identical result — the loan's display
/// name plays no part.
pub proof fn lemma_snapshot_roundtrip_recompute(a: LoanViewDataV, b: LoanViewDataV)
    requires
        a.amount == b.amount,
        a.interest_rate == b.interest_rate,
        a.clearance_rate == b.clearance_rate,
        a.runtime_years == b.runtime_years,
        a.loan_type == b.loan_type,
    ensures
        spec_calc(a) == spec_calc(b),
{
    assert(parse_inputs_spec(a) == parse_inputs_spec(b));
}

impl LoanView {
    /// Runs the annuity policy over the current inputs, exactly as
    /// `annuity_spec` states.
    #[verifier::loop_isolation(false)]
    pub fn calc_annuity(&self) -> (r: Result<CalcResultOverview, CalcError>)
        ensures
            res_view(r) == annuity_spec(self.data@),
            r matches Ok(o) ==> result_wf(o@),
    {
        let amount = match dec_parse(&self.data.amount) {
            Some(d) => d,
            None => {
                return Err(CalcError::InvalidNumber(LoanFormData::Amount));
            },
        };
        let ir0 = match dec_parse(&self.data.interest_rate) {
            Some(d) => d,
            None => {
                return Err(CalcError::InvalidNumber(LoanFormData::InterestRate));
            },
        };
        let hundred = Dec { mantissa: 100, scale: 0 };
        let twelve = Dec { mantissa: 12, scale: 0 };
        let interest_rate = match dec_div(&ir0, &hundred) {
            Some(d) => d,
            None => {
                return Err(CalcError::Overflow);
            },
        };
        let cr0 = match dec_parse(&self.data.clearance_rate) {
            Some(d) => d,
            None => {
                return Err(CalcError::InvalidNumber(LoanFormData::ClearanceRate));
            },
        };
        let clearance_rate = match dec_div(&cr0, &hundred) {
            Some(d) => d,
            None => {
                return Err(CalcError::Overflow);
            },
        };
        let rate_sum = match dec_add(&interest_rate, &clearance_rate) {
            Some(d) => d,
            None => {
                return Err(CalcError::Overflow);
            },
        };
        let prod = match dec_mul(&amount, &rate_sum) {
            Some(d) => d,
            None => {
                return Err(CalcError::Overflow);
            },
        };
        let monthly_rate = match dec_div(&prod, &twelve) {
            Some(d) => d,
            None => {
                return Err(CalcError::Overflow);
            },
        };
        let runtime = match parse_i32(&self.data.runtime_years) {
            Some(v) => v,
            None => {
                return Err(CalcError::InvalidNumber(LoanFormData::RuntimeYears));
            },
        };
        let months_total = match runtime.checked_mul(12) {
            Some(m) => m,
            None => {
                return Err(CalcError::Overflow);
            },
        };
        assert(runtime <= 178956970);
        assert(months_total <= 2147483640);
        let ghost p = ParsedInputs {
            amount: amount@,
            interest_rate: interest_rate@,
            clearance_rate: clearance_rate@,
            monthly_rate: monthly_rate@,
            months_total: months_total as int,
        };
        assert(parse_inputs_spec(self.data@) == Ok::<ParsedInputs, CalcError>(p));
        let ghost k_total = iterations(months_total as int);
        let mut months: Vec<Box<CalcResult>> = Vec::new();
        let mut paid_interest = Dec::zero();
        let mut cleared_amount = Dec::zero();
        let mut remaining = amount;
        let mut month: i32 = 0;
        proof {
            assert(rows_of(months@) =~= Seq::<RowV>::empty());
        }
        while month <= months_total
            invariant
                0 <= month,
                month <= if months_total >= 0 { months_total + 1 } else { 0 },
                remaining.wf(),
                paid_interest.wf(),
                cleared_amount.wf(),
                forall|j: int| 0 <= j < months@.len() ==> (#[trigger] months@[j]).remaining.wf(),
                k_total - month >= 0,
                annuity_steps(interest_rate@, monthly_rate@, init_state(amount@), 0, k_total)
                    == annuity_steps(
                    interest_rate@,
                    monthly_rate@,
                    EngineState {
                        remaining: remaining@,
                        paid_interest: paid_interest@,
                        cleared_amount: cleared_amount@,
                        rows: rows_of(months@),
                    },
                    month as int,
                    (k_total - month) as nat,
                ),
            decreases months_total + 1 - month,
        {
            let ghost pre = EngineState {
                remaining: remaining@,
                paid_interest: paid_interest@,
                cleared_amount: cleared_amount@,
                rows: rows_of(months@),
            };
            let x = match dec_mul(&remaining, &interest_rate) {
                Some(d) => d,
                None => {
                    return Err(CalcError::Overflow);
                },
            };
            let interest = match dec_div(&x, &twelve) {
                Some(d) => d,
                None => {
                    return Err(CalcError::Overflow);
                },
            };
            paid_interest = match dec_add(&paid_interest, &interest) {
                Some(d) => d,
                None => {
                    return Err(CalcError::Overflow);
                },
            };
            let cleared = match dec_sub(&monthly_rate, &interest) {
                Some(d) => d,
                None => {
                    return Err(CalcError::Overflow);
                },
            };
            cleared_amount = match dec_add(&cleared_amount, &cleared) {
                Some(d) => d,
                None => {
                    return Err(CalcError::Overflow);
                },
            };
            months.push(
                Box::new(
                    CalcResult {
                        month: month + 1,
                        remaining: dec_round2(&remaining),
                        cleared_amount: dec_round2(&cleared),
                        paid_interest: dec_round2(&interest),
                    },
                ),
            );
            remaining = match dec_sub(&remaining, &cleared) {
                Some(d) => d,
                None => {
                    return Err(CalcError::Overflow);
                },
            };
            proof {
                assert(rows_of(months@) =~= pre.rows.push(
                    RowV {
                        month: month + 1,
                        remaining: round2_v(pre.remaining),
                        paid_interest: round2_v(
                            dec_div_of(dec_mul_of(pre.remaining, interest_rate@).unwrap(), (
                                12int,
                                0int,
                            )).unwrap(),
                        ),
                        cleared_amount: round2_v(cleared@),
                    },
                ));
            }
            month = month + 1;
        }
        let overall_remaining = if months.len() > 0 {
            dec_round2(&months[months.len() - 1].remaining)
        } else {
            Dec::zero()
        };
        let r = CalcResultOverview {
            overall: CalcResult {
                month: 0,
                remaining: overall_remaining,
                paid_interest,
                cleared_amount,
            },
            monthly_rate,
            months,
        };
        Ok(r)
    }

    /// Runs the building-savings policy over the current inputs, exactly
    /// as `building_spec` states.
    #[verifier::loop_isolation(false)]
    pub fn calc_building_saving(&self) -> (r: Result<CalcResultOverview, CalcError>)
        ensures
            res_view(r) == building_spec(self.data@),
            r matches Ok(o) ==> result_wf(o@),
    {
        let amount = match dec_parse(&self.data.amount) {
            Some(d) => d,
            None => {
                return Err(CalcError::InvalidNumber(LoanFormData::Amount));
            },
        };
        let ir0 = match dec_parse(&self.data.interest_rate) {
            Some(d) => d,
            None => {
                return Err(CalcError::InvalidNumber(LoanFormData::InterestRate));
            },
        };
        let hundred = Dec { mantissa: 100, scale: 0 };
        let twelve = Dec { mantissa: 12, scale: 0 };
        let interest_rate = match dec_div(&ir0, &hundred) {
            Some(d) => d,
            None => {
                return Err(CalcError::Overflow);
            },
        };
        let cr0 = match dec_parse(&self.data.clearance_rate) {
            Some(d) => d,
            None => {
                return Err(CalcError::InvalidNumber(LoanFormData::ClearanceRate));
            },
        };
        let clearance_rate = match dec_div(&cr0, &hundred) {
            Some(d) => d,
            None => {
                return Err(CalcError::Overflow);
            },
        };
        let rate_sum = match dec_add(&interest_rate, &clearance_rate) {
            Some(d) => d,
            None => {
                return Err(CalcError::Overflow);
            },
        };
        let prod = match dec_mul(&amount, &rate_sum) {
            Some(d) => d,
            None => {
                return Err(CalcError::Overflow);
            },
        };
        let monthly_rate = match dec_div(&prod, &twelve) {
            Some(d) => d,
            None => {
                return Err(CalcError::Overflow);
            },
        };
        let runtime = match parse_i32(&self.data.runtime_years) {
            Some(v) => v,
            None => {
                return Err(CalcError::InvalidNumber(LoanFormData::RuntimeYears));
            },
        };
        let months_total = match runtime.checked_mul(12) {
            Some(m) => m,
            None => {
                return Err(CalcError::Overflow);
            },
        };
        assert(runtime <= 178956970);
        assert(months_total <= 2147483640);
        let ghost p = ParsedInputs {
            amount: amount@,
            interest_rate: interest_rate@,
            clearance_rate: clearance_rate@,
            monthly_rate: monthly_rate@,
            months_total: months_total as int,
        };
        assert(parse_inputs_spec(self.data@) == Ok::<ParsedInputs, CalcError>(p));
        let ghost k_total = iterations(months_total as int);
        let mut months: Vec<Box<CalcResult>> = Vec::new();
        let mut paid_interest = Dec::zero();
        let mut cleared_amount = Dec::zero();
        let ghost mut st_remaining: (int, int) = amount@;
        let mut month: i32 = 0;
        proof {
            assert(rows_of(months@) =~= Seq::<RowV>::empty());
        }
        while month <= months_total
            invariant
                0 <= month,
                month <= if months_total >= 0 { months_total + 1 } else { 0 },
                paid_interest.wf(),
                cleared_amount.wf(),
                forall|j: int| 0 <= j < months@.len() ==> (#[trigger] months@[j]).remaining.wf(),
                k_total - month >= 0,
                building_steps(
                    amount@,
                    interest_rate@,
                    monthly_rate@,
                    init_state(amount@),
                    0,
                    k_total,
                ) == building_steps(
                    amount@,
                    interest_rate@,
                    monthly_rate@,
                    EngineState {
                        remaining: st_remaining,
                        paid_interest: paid_interest@,
                        cleared_amount: cleared_amount@,
                        rows: rows_of(months@),
                    },
                    month as int,
                    (k_total - month) as nat,
                ),
            decreases months_total + 1 - month,
        {
            let ghost pre = EngineState {
                remaining: st_remaining,
                paid_interest: paid_interest@,
                cleared_amount: cleared_amount@,
                rows: rows_of(months@),
            };
            let x = match dec_mul(&amount, &interest_rate) {
                Some(d) => d,
                None => {
                    return Err(CalcError::Overflow);
                },
            };
            let interest = match dec_div(&x, &twelve) {
                Some(d) => d,
                None => {
                    return Err(CalcError::Overflow);
                },
            };
            paid_interest = match dec_add(&paid_interest, &interest) {
                Some(d) => d,
                None => {
                    return Err(CalcError::Overflow);
                },
            };
            let saved = match dec_sub(&monthly_rate, &interest) {
                Some(d) => d,
                None => {
                    return Err(CalcError::Overflow);
                },
            };
            cleared_amount = match dec_add(&cleared_amount, &saved) {
                Some(d) => d,
                None => {
                    return Err(CalcError::Overflow);
                },
            };
            let remaining = match dec_sub(&amount, &cleared_amount) {
                Some(d) => d,
                None => {
                    return Err(CalcError::Overflow);
                },
            };
            months.push(
                Box::new(
                    CalcResult {
                        month: month + 1,
                        remaining: dec_round2(&remaining),
                        cleared_amount: dec_round2(&saved),
                        paid_interest: dec_round2(&interest),
                    },
                ),
            );
            proof {
                st_remaining = remaining@;
                assert(rows_of(months@) =~= pre.rows.push(
                    RowV {
                        month: month + 1,
                        remaining: round2_v(remaining@),
                        paid_interest: round2_v(interest@),
                        cleared_amount: round2_v(saved@),
                    },
                ));
            }
            month = month + 1;
        }
        let overall_remaining = if months.len() > 0 {
            dec_round2(&months[months.len() - 1].remaining)
        } else {
            Dec::zero()
        };
        let r = CalcResultOverview {
            overall: CalcResult {
                month: 0,
                remaining: overall_remaining,
                paid_interest,
                cleared_amount,
            },
            monthly_rate,
            months,
        };
        Ok(r)
    }
}

} // verus!
