//! The overview across all loans: the sums of the monthly payments,
//! remaining balances, paid-interest totals and cleared totals of every
//! loan that holds a result, plus the messages the save/load dialogs
//! answer with. Opening those dialogs, and the files behind them, belong
//! to the caller.

use vstd::prelude::*;

use crate::decimal::{dec_add, dec_add_of, dec_round2, round2_spec, Dec};
use crate::loan_view::{result_wf, LoanView, LoanViewData, LoanViewV};

verus! {

/// Why a dialog produced nothing.
#[derive(Debug, Clone, Copy, PartialEq, Eq, Structural)]
pub enum DlgErr {
    Canceled,
}

/// What a successful load dialog hands back: the file that was read and
/// the snapshots it held.
#[derive(Debug)]
pub struct LoadedFile {
    pub file: String,
    pub data: Vec<LoanViewData>,
}

/// A message of the overview screen: open one of the two dialogs, or
/// carry a dialog's answer back.
#[derive(Debug)]
pub enum OverviewMessage {
    OpenSaveDlg(Vec<LoanViewData>),
    SaveDlgResult(Result<String, DlgErr>),
    OpenLoadDlg,
    LoadDlgResult(Result<LoadedFile, DlgErr>),
}

/// The four sums the overview shows.
#[derive(Debug)]
pub struct OverviewTotals {
    pub monthly_rate: Dec,
    pub remaining: Dec,
    pub paid_interest: Dec,
    pub cleared_amount: Dec,
}

/// The mathematical content of the four sums.
pub ghost struct OverviewTotalsV {
    pub monthly_rate: (int, int),
    pub remaining: (int, int),
    pub paid_interest: (int, int),
    pub cleared_amount: (int, int),
}

impl View for OverviewTotals {
    type V = OverviewTotalsV;

    open spec fn view(&self) -> OverviewTotalsV {
        OverviewTotalsV {
            monthly_rate: self.monthly_rate@,
            remaining: self.remaining@,
            paid_interest: self.paid_interest@,
            cleared_amount: self.cleared_amount@,
        }
    }
}

/// Every decimal a totals value carries stays representable.
pub open spec fn totals_wf(t: OverviewTotals) -> bool {
    &&& t.monthly_rate.wf()
    &&& t.remaining.wf()
    &&& t.paid_interest.wf()
    &&& t.cleared_amount.wf()
}

/// Every loan's stored calculation, if any, carries representable
/// decimals.
pub open spec fn loans_results_wf(loans: Seq<LoanViewV>) -> bool {
    forall|i: int|
        0 <= i < loans.len() ==> ((#[trigger] loans[i]).result matches Some(ov) ==> result_wf(ov))
}

/// The running sums after folding the loans in order: a loan without a
/// result is skipped, one with a result adds its four figures; `None`
/// when any sum leaves the representable range.
pub open spec fn totals_fold(loans: Seq<LoanViewV>, acc: OverviewTotalsV) -> Option<
    OverviewTotalsV,
>
    decreases loans.len(),
{
    if loans.len() == 0 {
        Some(acc)
    } else {
        match loans[0].result {
            None => totals_fold(loans.subrange(1, loans.len() as int), acc),
            Some(res) => match dec_add_of(acc.monthly_rate, res.monthly_rate) {
                None => None,
                Some(mr) => match dec_add_of(acc.remaining, res.overall.remaining) {
                    None => None,
                    Some(rm) => match dec_add_of(acc.paid_interest, res.overall.paid_interest) {
                        None => None,
                        Some(pi) => match dec_add_of(
                            acc.cleared_amount,
                            res.overall.cleared_amount,
                        ) {
                            None => None,
                            Some(ca) => totals_fold(
                                loans.subrange(1, loans.len() as int),
                                OverviewTotalsV {
                                    monthly_rate: mr,
                                    remaining: rm,
                                    paid_interest: pi,
                                    cleared_amount: ca,
                                },
                            ),
                        },
                    },
                },
            },
        }
    }
}

/// The sums start from zero with two fractional digits, as the overview
/// displays them.
pub open spec fn totals_zero() -> OverviewTotalsV {
    OverviewTotalsV {
        monthly_rate: (0int, 2int),
        remaining: (0int, 2int),
        paid_interest: (0int, 2int),
        cleared_amount: (0int, 2int),
    }
}

/// The four sums over a list of loans.
pub open spec fn overview_totals_spec(loans: Seq<LoanViewV>) -> Option<OverviewTotalsV> {
    totals_fold(loans, totals_zero())
}

/// The loans a vector of boxed loans denotes.
pub open spec fn loan_views(loans: Seq<Box<LoanView>>) -> Seq<LoanViewV> {
    loans.map(|i: int, b: Box<LoanView>| b@)
}

/// The mathematical content of an optional totals value.
pub open spec fn opt_totals_view(r: Option<OverviewTotals>) -> Option<OverviewTotalsV> {
    match r {
        Some(t) => Some(t@),
        None => None,
    }
}

/// Sums the four figures of every loan that holds a result, in order,
/// exactly as `overview_totals_spec` states; `None` when a sum leaves
/// the representable range.
#[verifier::loop_isolation(false)]
pub fn overview_totals(loans: &Vec<Box<LoanView>>) -> (r: Option<OverviewTotals>)
    requires
        loans_results_wf(loan_views(loans@)),
    ensures
        opt_totals_view(r) == overview_totals_spec(loan_views(loans@)),
        r matches Some(t) ==> totals_wf(t),
{
    let ghost all = loan_views(loans@);
    let mut acc = OverviewTotals {
        monthly_rate: Dec { mantissa: 0, scale: 2 },
        remaining: Dec { mantissa: 0, scale: 2 },
        paid_interest: Dec { mantissa: 0, scale: 2 },
        cleared_amount: Dec { mantissa: 0, scale: 2 },
    };
    let mut i: usize = 0;
    proof {
        assert(all.subrange(0, all.len() as int) =~= all);
        assert(acc@ == totals_zero());
    }
    while i < loans.len()
        invariant
            0 <= i <= loans.len(),
            totals_wf(acc),
            totals_fold(all, totals_zero()) == totals_fold(
                all.subrange(i as int, all.len() as int),
                acc@,
            ),
        decreases loans.len() - i,
    {
        let ghost rest = all.subrange(i as int, all.len() as int);
        proof {
            assert(rest[0] == all[i as int]);
            assert(rest.subrange(1, rest.len() as int) =~= all.subrange(
                (i + 1) as int,
                all.len() as int,
            ));
        }
        match &loans[i].result {
            None => {},
            Some(res) => {
                let mr = match dec_add(&acc.monthly_rate, &res.monthly_rate) {
                    Some(d) => d,
                    None => {
                        return None;
                    },
                };
                let rm = match dec_add(&acc.remaining, &res.overall.remaining) {
                    Some(d) => d,
                    None => {
                        return None;
                    },
                };
                let pi = match dec_add(&acc.paid_interest, &res.overall.paid_interest) {
                    Some(d) => d,
                    None => {
                        return None;
                    },
                };
                let ca = match dec_add(&acc.cleared_amount, &res.overall.cleared_amount) {
                    Some(d) => d,
                    None => {
                        return None;
                    },
                };
                acc = OverviewTotals {
                    monthly_rate: mr,
                    remaining: rm,
                    paid_interest: pi,
                    cleared_amount: ca,
                };
            },
        }
        i = i + 1;
    }
    proof {
        assert(all.subrange(all.len() as int, all.len() as int) =~= Seq::<LoanViewV>::empty());
    }
    Some(acc)
}

impl OverviewTotals {
    /// The four sums as the overview prints them: each rounded to two
    /// fractional digits.
    pub fn rounded(&self) -> (r: OverviewTotals)
        requires
            totals_wf(*self),
        ensures
            r.monthly_rate@ == round2_spec(self.monthly_rate@.0, self.monthly_rate@.1),
            r.remaining@ == round2_spec(self.remaining@.0, self.remaining@.1),
            r.paid_interest@ == round2_spec(self.paid_interest@.0, self.paid_interest@.1),
            r.cleared_amount@ == round2_spec(self.cleared_amount@.0, self.cleared_amount@.1),
            totals_wf(r),
    {
        OverviewTotals {
            monthly_rate: dec_round2(&self.monthly_rate),
            remaining: dec_round2(&self.remaining),
            paid_interest: dec_round2(&self.paid_interest),
            cleared_amount: dec_round2(&self.cleared_amount),
        }
    }
}

} // verus!
