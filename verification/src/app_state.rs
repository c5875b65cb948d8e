//! The application state: the open loans, their tabs, the selected tab,
//! and the window title. Messages either rework this state or ask the
//! caller to open one of the two file dialogs; the dialogs themselves,
//! and the files behind them, stay with the caller.

use vstd::prelude::*;
use vstd::pervasive::VecAdditionalExecFns;

use crate::form::{FormMessage, FormTextInputMessage, FormV};
use crate::loan_view::{
    loan_view_update_spec, loan_view_wf, new_loan_view_v, spec_calc, LoanFormData, LoanView,
    LoanViewData, LoanViewDataV, LoanViewMessage, LoanViewV,
};
use crate::overview::{LoadedFile, OverviewMessage};

verus! {

/// One tab of the tab row: the index it selects and the name it shows.
#[derive(Debug)]
pub struct LoanTab {
    pub idx: usize,
    pub name: String,
}

/// The mathematical content of one tab.
pub ghost struct LoanTabV {
    pub idx: int,
    pub name: Seq<char>,
}

impl View for LoanTab {
    type V = LoanTabV;

    open spec fn view(&self) -> LoanTabV {
        LoanTabV { idx: self.idx as int, name: self.name@ }
    }
}

impl LoanTab {
    /// A tab with the given name, selecting the given index.
    pub fn new(name: String, idx: usize) -> (r: Self)
        ensures
            r@ == (LoanTabV { idx: idx as int, name: name@ }),
    {
        Self { idx, name }
    }
}

/// A message addressed to the application.
#[derive(Debug)]
pub enum AppMessage {
    LoanViewMessage(usize, LoanViewMessage),
    OverviewMessage(OverviewMessage),
    ShowOverview,
    SelectLoan(usize),
    AddLoan,
    DeleteLoan,
}

/// What the caller must perform after an update: nothing, or open the
/// save dialog for the given snapshots, or open the load dialog. The
/// dialog's answer comes back as an `OverviewMessage`.
#[derive(Debug)]
pub enum AppCommand {
    Nothing,
    OpenSaveDialog(Vec<LoanViewData>),
    OpenLoadDialog,
}

/// The mathematical content of a command.
pub ghost enum AppCommandV {
    Nothing,
    Save(Seq<LoanViewDataV>),
    Load,
}

/// The snapshots a vector of loan data denotes.
pub open spec fn data_views(ds: Seq<LoanViewData>) -> Seq<LoanViewDataV> {
    ds.map(|i: int, d: LoanViewData| d@)
}

impl View for AppCommand {
    type V = AppCommandV;

    open spec fn view(&self) -> AppCommandV {
        match self {
            AppCommand::Nothing => AppCommandV::Nothing,
            AppCommand::OpenSaveDialog(l) => AppCommandV::Save(data_views(l@)),
            AppCommand::OpenLoadDialog => AppCommandV::Load,
        }
    }
}

/// The application state.
pub struct App {
    pub active: Option<usize>,
    pub loans: Vec<Box<LoanView>>,
    pub loan_tabs: Vec<Box<LoanTab>>,
    pub title: String,
}

/// The mathematical content of the application state.
pub ghost struct AppV {
    pub active: Option<int>,
    pub loans: Seq<LoanViewV>,
    pub tabs: Seq<LoanTabV>,
    pub title: Seq<char>,
}

impl View for App {
    type V = AppV;

    open spec fn view(&self) -> AppV {
        AppV {
            active: match self.active {
                Some(i) => Some(i as int),
                None => None,
            },
            loans: self.loans@.map(|i: int, b: Box<LoanView>| b@),
            tabs: self.loan_tabs@.map(|i: int, b: Box<LoanTab>| b@),
            title: self.title@,
        }
    }
}

/// The digit character of one decimal digit.
pub open spec fn spec_digit_char(d: int) -> char {
    if d == 0 {
        '0'
    } else if d == 1 {
        '1'
    } else if d == 2 {
        '2'
    } else if d == 3 {
        '3'
    } else if d == 4 {
        '4'
    } else if d == 5 {
        '5'
    } else if d == 6 {
        '6'
    } else if d == 7 {
        '7'
    } else if d == 8 {
        '8'
    } else {
        '9'
    }
}

/// The decimal digits of a non-negative number, most significant first.
pub open spec fn spec_dec_digits(n: int) -> Seq<char>
    decreases n,
{
    if n < 10 {
        seq![spec_digit_char(n)]
    } else {
        spec_dec_digits(n / 10).push(spec_digit_char(n % 10))
    }
}

/// The name a fresh loan gets from its 1-based position.
pub open spec fn loan_name_spec(n: int) -> Seq<char> {
    "Loan "@ + spec_dec_digits(n)
}

/// Relies on std's `format!` with an unsigned integer: the fixed prefix
/// followed by the number's decimal digits, nothing else.
#[verifier::external_body]
fn format_loan_name(n: u128) -> (r: String)
    ensures
        r@ == loan_name_spec(n as int),
{
    format!("Loan {}", n)
}

/// Relies on std's `format!` with a string: the fixed prefix followed by
/// the loaded file's name, nothing else.
#[verifier::external_body]
fn format_loaded_title(file: &str) -> (r: String)
    ensures
        r@ == "Loan calc - "@ + file@,
{
    format!("Loan calc - {}", file)
}

/// The state after a fresh loan is appended: one more loan named after
/// its 1-based position, one more tab, and the selection moved onto it.
pub open spec fn add_loan_v(a: AppV) -> AppV {
    let idx = a.tabs.len() as int;
    let name = loan_name_spec(idx + 1);
    AppV {
        active: Some(idx),
        loans: a.loans.push(new_loan_view_v(name)),
        tabs: a.tabs.push(LoanTabV { idx, name }),
        title: a.title,
    }
}

/// The loan a stored snapshot is rebuilt into: the snapshot's data, an
/// empty form, and the schedule recomputed at once (absent when the
/// recomputation fails).
pub open spec fn loaded_loan_v(d: LoanViewDataV) -> LoanViewV {
    LoanViewV {
        data: d,
        form: FormV { focused: None, inputs: Seq::empty() },
        result: match spec_calc(d) {
            Ok(ov) => Some(ov),
            Err(_) => None,
        },
    }
}

/// The state after one stored snapshot is appended.
pub open spec fn add_loan_with_data_v(a: AppV, d: LoanViewDataV) -> AppV {
    let idx = a.tabs.len() as int;
    AppV {
        active: Some(idx),
        loans: a.loans.push(loaded_loan_v(d)),
        tabs: a.tabs.push(LoanTabV { idx, name: d.name }),
        title: a.title,
    }
}

/// A tab as the deletion loop reworks it: tabs behind the deleted one
/// move down by one index, and an index of zero stays.
pub open spec fn shift_tab(t: LoanTabV) -> LoanTabV {
    if t.idx > 0 {
        LoanTabV { idx: t.idx - 1, name: t.name }
    } else {
        t
    }
}

/// The state after the selected loan is deleted: with nothing selected
/// nothing happens; with a selection out of range only the selection is
/// dropped; otherwise the tabs behind the selection move down, the loan
/// and its tab leave, and the selection moves to the previous tab (or
/// away, when no loan is left).
pub open spec fn delete_loan_v(a: AppV) -> AppV {
    match a.active {
        None => a,
        Some(act) => if 0 <= act < a.tabs.len() && act < a.loans.len() {
            let tabs1 = Seq::new(
                a.tabs.len(),
                |j: int|
                    if j >= act {
                        shift_tab(a.tabs[j])
                    } else {
                        a.tabs[j]
                    },
            );
            let loans2 = a.loans.remove(act);
            AppV {
                active: if loans2.len() > 0 {
                    Some(
                        if act == 0 {
                            0int
                        } else {
                            act - 1
                        },
                    )
                } else {
                    None
                },
                loans: loans2,
                tabs: tabs1.remove(act),
                title: a.title,
            }
        } else {
            AppV { active: None, loans: a.loans, tabs: a.tabs, title: a.title }
        },
    }
}

/// The new name a message carries for the addressed loan's tab, if it
/// renames the loan.
pub open spec fn name_changed(msg: LoanViewMessage) -> Option<Seq<char>> {
    match msg {
        LoanViewMessage::LoanForm(fm) => match fm {
            FormMessage::TextInputMessage(id, _idx, m) => match m {
                FormTextInputMessage::InputChanged(v) => if id is Name {
                    Some(v@)
                } else {
                    None
                },
                FormTextInputMessage::OnTab(_) => None,
            },
        },
        _ => None,
    }
}

/// The state after the stored snapshots replace the open loans: the
/// lists restart empty and every snapshot is appended in order, each
/// recomputed; with no snapshot the stale selection stays as it was.
pub open spec fn load_fold(a: AppV, ds: Seq<LoanViewDataV>) -> AppV
    decreases ds.len(),
{
    if ds.len() == 0 {
        a
    } else {
        load_fold(add_loan_with_data_v(a, ds[0]), ds.subrange(1, ds.len() as int))
    }
}

/// See `load_fold`: the whole reload, starting from cleared lists and
/// the title renamed after the loaded file.
pub open spec fn load_loans_v(a: AppV, file: Seq<char>, ds: Seq<LoanViewDataV>) -> AppV {
    load_fold(
        AppV {
            active: a.active,
            loans: Seq::empty(),
            tabs: Seq::empty(),
            title: "Loan calc - "@ + file,
        },
        ds,
    )
}

/// The state after one message: a loan message lands in the addressed
/// loan (and a rename lands in its tab as well), selection messages move
/// the selection, `AddLoan` and `DeleteLoan` rework the lists, a load
/// dialog's successful answer replaces the loans and renames the title
/// after the loaded file, and everything else leaves the state alone.
pub open spec fn app_update_v(a: AppV, msg: AppMessage) -> AppV {
    match msg {
        AppMessage::LoanViewMessage(idx, m) => {
            let tabs1 = match name_changed(m) {
                Some(nm) => if idx < a.tabs.len() {
                    a.tabs.update(idx as int, LoanTabV { idx: a.tabs[idx as int].idx, name: nm })
                } else {
                    a.tabs
                },
                None => a.tabs,
            };
            let loans1 = if idx < a.loans.len() {
                a.loans.update(idx as int, loan_view_update_spec(a.loans[idx as int], m))
            } else {
                a.loans
            };
            AppV { active: a.active, loans: loans1, tabs: tabs1, title: a.title }
        },
        AppMessage::SelectLoan(idx) => AppV {
            active: Some(idx as int),
            loans: a.loans,
            tabs: a.tabs,
            title: a.title,
        },
        AppMessage::ShowOverview => AppV {
            active: None,
            loans: a.loans,
            tabs: a.tabs,
            title: a.title,
        },
        AppMessage::AddLoan => add_loan_v(a),
        AppMessage::DeleteLoan => delete_loan_v(a),
        AppMessage::OverviewMessage(om) => match om {
            OverviewMessage::LoadDlgResult(r) => match r {
                Ok(loaded) => load_loans_v(a, loaded.file@, data_views(loaded.data@)),
                Err(_) => a,
            },
            _ => a,
        },
    }
}

/// The command one message asks of the caller: the two dialog requests
/// pass through, everything else asks nothing.
pub open spec fn app_update_cmd_v(a: AppV, msg: AppMessage) -> AppCommandV {
    match msg {
        AppMessage::OverviewMessage(om) => match om {
            OverviewMessage::OpenSaveDlg(l) => AppCommandV::Save(data_views(l@)),
            OverviewMessage::OpenLoadDlg => AppCommandV::Load,
            _ => AppCommandV::Nothing,
        },
        _ => AppCommandV::Nothing,
    }
}

impl App {
    /// Every open loan's form keeps its focus within its field list.
    pub open spec fn wf(&self) -> bool {
        forall|i: int| 0 <= i < self@.loans.len() ==> loan_view_wf(#[trigger] self@.loans[i])
    }

    /// A fresh application: the plain title and one fresh loan, selected.
    pub fn new() -> (r: Self)
        ensures
            r@ == add_loan_v(
                AppV {
                    active: None,
                    loans: Seq::empty(),
                    tabs: Seq::empty(),
                    title: "Loan calc"@,
                },
            ),
            r.wf(),
    {
        let mut app = App {
            active: None,
            loans: Vec::new(),
            loan_tabs: Vec::new(),
            title: "Loan calc".to_owned(),
        };
        proof {
            assert(app@.loans =~= Seq::<LoanViewV>::empty());
            assert(app@.tabs =~= Seq::<LoanTabV>::empty());
        }
        app.add_loan();
        app
    }

    /// The window title.
    pub fn title(&self) -> (r: String)
        ensures
            r@ == self.title@,
    {
        self.title.clone()
    }

    /// Appends a fresh loan, named after its 1-based position, and
    /// selects it.
    pub fn add_loan(&mut self)
        requires
            old(self).wf(),
        ensures
            final(self)@ == add_loan_v(old(self)@),
            final(self).wf(),
    {
        let idx = self.loan_tabs.len();
        let loan_name = format_loan_name(idx as u128 + 1);
        self.loans.push(Box::new(LoanView::new(loan_name.clone())));
        self.loan_tabs.push(Box::new(LoanTab::new(loan_name, idx)));
        self.active = Some(idx);
        proof {
            assert(self@.loans =~= add_loan_v(old(self)@).loans);
            assert(self@.tabs =~= add_loan_v(old(self)@).tabs);
        }
    }

    /// Appends a loan rebuilt from a stored snapshot, recomputes it at
    /// once, and selects it.
    pub fn add_loan_with_data(&mut self, data: LoanViewData)
        requires
            old(self).wf(),
        ensures
            final(self)@ == add_loan_with_data_v(old(self)@, data@),
            final(self).wf(),
    {
        let idx = self.loan_tabs.len();
        self.loan_tabs.push(Box::new(LoanTab::new(data.name.clone(), idx)));
        let mut loan_view = LoanView::new_with_data(data);
        loan_view.calc();
        self.loans.push(Box::new(loan_view));
        self.active = Some(idx);
        proof {
            assert(self@.loans =~= add_loan_with_data_v(old(self)@, data@).loans);
            assert(self@.tabs =~= add_loan_with_data_v(old(self)@, data@).tabs);
        }
    }

    /// Deletes the selected loan, as `delete_loan_v` states.
    #[verifier::loop_isolation(false)]
    pub fn delete_active_load(&mut self)
        requires
            old(self).wf(),
        ensures
            final(self)@ == delete_loan_v(old(self)@),
            final(self).wf(),
    {
        let active = match self.active {
            Some(a) => a,
            None => {
                return ;
            },
        };
        self.active = None;
        if active < self.loan_tabs.len() && active < self.loans.len() {
            let mut tab_idx = active;
            while tab_idx < self.loan_tabs.len()
                invariant
                    active <= tab_idx <= self.loan_tabs@.len(),
                    self.loan_tabs@.len() == old(self).loan_tabs@.len(),
                    self.loans == old(self).loans,
                    self.title == old(self).title,
                    self.active is None,
                    forall|j: int|
                        0 <= j < self.loan_tabs@.len() ==> #[trigger] self@.tabs[j] == (
                        if active <= j < tab_idx {
                            shift_tab(old(self)@.tabs[j])
                        } else {
                            old(self)@.tabs[j]
                        }),
                decreases self.loan_tabs@.len() - tab_idx,
            {
                let ghost tabs_before = self@.tabs;
                let t = &self.loan_tabs[tab_idx];
                proof {
                    assert(t@ == tabs_before[tab_idx as int]);
                    assert(tabs_before[tab_idx as int] == old(self)@.tabs[tab_idx as int]);
                }
                if t.idx > 0 {
                    let nt = Box::new(LoanTab { idx: t.idx - 1, name: t.name.clone() });
                    self.loan_tabs.set(tab_idx, nt);
                }
                proof {
                    assert forall|j: int|
                        0 <= j < self.loan_tabs@.len() implies #[trigger] self@.tabs[j] == (
                    if active <= j < tab_idx + 1 {
                        shift_tab(old(self)@.tabs[j])
                    } else {
                        old(self)@.tabs[j]
                    }) by {
                        assert(self@.tabs[j] == self.loan_tabs@[j]@);
                        assert(tabs_before[j] == (if active <= j < tab_idx {
                            shift_tab(old(self)@.tabs[j])
                        } else {
                            old(self)@.tabs[j]
                        }));
                        if j != tab_idx {
                            assert(self@.tabs[j] == tabs_before[j]);
                        } else {
                            assert(self@.tabs[j] == shift_tab(old(self)@.tabs[j]));
                        }
                    }
                }
                tab_idx = tab_idx + 1;
            }
            let ghost tabs_at_exit = self@.tabs;
            let ghost boxes_exit = self.loan_tabs@;
            self.loan_tabs.remove(active);
            self.loans.remove(active);
            if self.loans.len() > 0 {
                self.active = Some(
                    if active == 0 {
                        0
                    } else {
                        active - 1
                    },
                );
            }
            proof {
                let a = old(self)@;
                let act = active as int;
                let tabs1 = Seq::new(
                    a.tabs.len(),
                    |j: int|
                        if j >= act {
                            shift_tab(a.tabs[j])
                        } else {
                            a.tabs[j]
                        },
                );
                let shifted = tabs_at_exit;
                let boxes_at_exit = boxes_exit;
                tabs1.remove_ensures(act);
                boxes_at_exit.remove_ensures(act);
                old(self).loans@.remove_ensures(act);
                a.loans.remove_ensures(act);
                assert forall|j: int|
                    0 <= j < self.loan_tabs@.len() implies #[trigger] self@.tabs[j]
                    == tabs1.remove(act)[j] by {
                    assert(self@.tabs[j] == self.loan_tabs@[j]@);
                    assert(self.loan_tabs@[j] == boxes_at_exit.remove(act)[j]);
                    if j < act {
                        assert(boxes_at_exit.remove(act)[j] == boxes_at_exit[j]);
                        assert(shifted[j] == tabs1[j]);
                    } else {
                        assert(boxes_at_exit.remove(act)[j] == boxes_at_exit[j + 1]);
                        assert(shifted[j + 1] == tabs1[j + 1]);
                    }
                }
                assert(self@.tabs =~= tabs1.remove(act));
                assert forall|j: int|
                    0 <= j < self.loans@.len() implies #[trigger] self@.loans[j]
                    == a.loans.remove(act)[j] by {
                    assert(self@.loans[j] == self.loans@[j]@);
                    assert(self.loans@[j] == old(self).loans@.remove(act)[j]);
                    if j < act {
                        assert(old(self).loans@.remove(act)[j] == old(self).loans@[j]);
                        assert(a.loans[j] == old(self).loans@[j]@);
                    } else {
                        assert(old(self).loans@.remove(act)[j] == old(self).loans@[j + 1]);
                        assert(a.loans[j + 1] == old(self).loans@[j + 1]@);
                    }
                }
                assert(self@.loans =~= a.loans.remove(act));
            }
        }
    }

    /// Applies one message and returns what the caller must perform, as
    /// `app_update_v` and `app_update_cmd_v` state.
    #[verifier::loop_isolation(false)]
    pub fn update(&mut self, message: AppMessage) -> (cmd: AppCommand)
        requires
            old(self).wf(),
        ensures
            final(self)@ == app_update_v(old(self)@, message),
            cmd@ == app_update_cmd_v(old(self)@, message),
            final(self).wf(),
    {
        match message {
            AppMessage::LoanViewMessage(idx, msg) => {
                match &msg {
                    LoanViewMessage::LoanForm(fm) => {
                        match fm {
                            FormMessage::TextInputMessage(id, _i, m) => {
                                match m {
                                    FormTextInputMessage::InputChanged(value) => {
                                        let is_name = match id {
                                            LoanFormData::Name => true,
                                            _ => false,
                                        };
                                        if is_name && idx < self.loan_tabs.len() {
                                            let t = &self.loan_tabs[idx];
                                            let nt = Box::new(
                                                LoanTab { idx: t.idx, name: value.clone() },
                                            );
                                            self.loan_tabs.set(idx, nt);
                                            proof {
                                                assert(self@.tabs =~= app_update_v(
                                                    old(self)@,
                                                    message,
                                                ).tabs);
                                            }
                                        }
                                    },
                                    FormTextInputMessage::OnTab(_) => {},
                                }
                            },
                        }
                    },
                    _ => {},
                }
                if idx < self.loans.len() {
                    let mut lv: Box<LoanView> = self.loans.remove(idx);
                    lv.update(msg);
                    self.loans.insert(idx, lv);
                    proof {
                        assert(self@.loans =~= app_update_v(old(self)@, message).loans);
                    }
                }
                AppCommand::Nothing
            },
            AppMessage::SelectLoan(idx) => {
                self.active = Some(idx);
                AppCommand::Nothing
            },
            AppMessage::ShowOverview => {
                self.active = None;
                AppCommand::Nothing
            },
            AppMessage::AddLoan => {
                self.add_loan();
                AppCommand::Nothing
            },
            AppMessage::DeleteLoan => {
                self.delete_active_load();
                AppCommand::Nothing
            },
            AppMessage::OverviewMessage(om) => {
                match om {
                    OverviewMessage::OpenSaveDlg(l) => AppCommand::OpenSaveDialog(l),
                    OverviewMessage::OpenLoadDlg => AppCommand::OpenLoadDialog,
                    OverviewMessage::SaveDlgResult(_) => AppCommand::Nothing,
                    OverviewMessage::LoadDlgResult(r) => {
                        match r {
                            Ok(loaded) => {
                                let LoadedFile { file, data } = loaded;
                                let mut data = data;
                                self.loans.clear();
                                self.loan_tabs.clear();
                                self.title = format_loaded_title(file.as_str());
                                let ghost cleared = AppV {
                                    active: old(self)@.active,
                                    loans: Seq::empty(),
                                    tabs: Seq::empty(),
                                    title: "Loan calc - "@ + file@,
                                };
                                proof {
                                    assert(self@.loans =~= Seq::<LoanViewV>::empty());
                                    assert(self@.tabs =~= Seq::<LoanTabV>::empty());
                                    assert(self@ == cleared);
                                }
                                let ghost full = data_views(data@);
                                while data.len() > 0
                                    invariant
                                        self.wf(),
                                        load_fold(cleared, full) == load_fold(
                                            self@,
                                            data_views(data@),
                                        ),
                                    decreases data@.len(),
                                {
                                    let ghost before = data_views(data@);
                                    let d = data.remove(0);
                                    proof {
                                        assert(data_views(data@) =~= before.subrange(
                                            1,
                                            before.len() as int,
                                        ));
                                        assert(before[0] == d@);
                                    }
                                    self.add_loan_with_data(d);
                                }
                                proof {
                                    assert(data_views(data@) =~= Seq::<LoanViewDataV>::empty());
                                }
                            },
                            Err(_) => {},
                        }
                        AppCommand::Nothing
                    },
                }
            },
        }
    }
}

} // verus!
