use loan_calc::app_state::{App, AppCommand, AppMessage};
use loan_calc::decimal::Dec;
use loan_calc::form::{Form, FormMessage, FormTextInputMessage};
use loan_calc::loan_view::{LoanFormData, LoanType, LoanViewData, LoanViewMessage};
use loan_calc::overview::{overview_totals, DlgErr, LoadedFile, OverviewMessage};
use loan_calc::parse_int::parse_i32;

fn text_message(id: LoanFormData, idx: usize, text: &str) -> LoanViewMessage {
    LoanViewMessage::LoanForm(FormMessage::TextInputMessage(
        id,
        idx,
        FormTextInputMessage::InputChanged(String::from(text)),
    ))
}

fn snapshot(name: &str, amount: &str, interest: &str, clearance: &str, runtime: &str) -> LoanViewData {
    LoanViewData {
        name: String::from(name),
        amount: String::from(amount),
        interest_rate: String::from(interest),
        clearance_rate: String::from(clearance),
        runtime_years: String::from(runtime),
        loan_type: LoanType::Annuity,
    }
}

#[test]
fn focus_moves_forward_from_none_to_first() {
    let mut form: Form<u8> = Form::new().push(0, "a", None).push(1, "b", None).push(2, "c", None);
    assert_eq!(form.focused, None);
    form.select(true);
    assert_eq!(form.focused, Some(0));
}

#[test]
fn focus_backward_clamps_at_first() {
    let mut form: Form<u8> = Form::new().push(0, "a", None).push(1, "b", None);
    form.select(true);
    assert_eq!(form.focused, Some(0));
    form.select(false);
    assert_eq!(form.focused, Some(0));
}

#[test]
fn focus_forward_past_last_drops_focus() {
    let mut form: Form<u8> = Form::new().push(0, "a", None).push(1, "b", None);
    form.select(true);
    form.select(true);
    assert_eq!(form.focused, Some(1));
    form.select(true);
    assert_eq!(form.focused, None);
}

#[test]
fn focus_on_empty_form_stays_empty() {
    let mut form: Form<u8> = Form::new();
    form.select(true);
    assert_eq!(form.focused, None);
    form.select(false);
    assert_eq!(form.focused, None);
}

#[test]
fn form_update_replaces_text_and_tabs_move_focus() {
    let mut form: Form<u8> = Form::new().push(7, "a", Some(String::from("old"))).push(8, "b", None);
    form.update(FormMessage::TextInputMessage(
        7,
        0,
        FormTextInputMessage::InputChanged(String::from("new")),
    ));
    assert_eq!(form.inputs[0].value, "new");
    assert_eq!(form.inputs[0].placeholder, "a");
    form.update(FormMessage::TextInputMessage(7, 0, FormTextInputMessage::OnTab(false)));
    assert_eq!(form.focused, Some(0));
    form.update(FormMessage::TextInputMessage(7, 0, FormTextInputMessage::OnTab(true)));
    assert_eq!(form.focused, Some(0));
}

#[test]
fn new_app_holds_one_named_loan() {
    let app = App::new();
    assert_eq!(app.title(), "Loan calc");
    assert_eq!(app.loans.len(), 1);
    assert_eq!(app.loan_tabs.len(), 1);
    assert_eq!(app.loan_tabs[0].name, "Loan 1");
    assert_eq!(app.loan_tabs[0].idx, 0);
    assert_eq!(app.active, Some(0));
}

#[test]
fn added_loans_are_numbered_in_order() {
    let mut app = App::new();
    app.update(AppMessage::AddLoan);
    app.update(AppMessage::AddLoan);
    assert_eq!(app.loan_tabs[1].name, "Loan 2");
    assert_eq!(app.loan_tabs[2].name, "Loan 3");
    assert_eq!(app.active, Some(2));
}

#[test]
fn loan_messages_reach_the_addressed_loan() {
    let mut app = App::new();
    app.update(AppMessage::LoanViewMessage(0, text_message(LoanFormData::Amount, 1, "1000")));
    app.update(AppMessage::LoanViewMessage(0, text_message(LoanFormData::InterestRate, 2, "6")));
    app.update(AppMessage::LoanViewMessage(0, text_message(LoanFormData::ClearanceRate, 3, "6")));
    app.update(AppMessage::LoanViewMessage(0, text_message(LoanFormData::RuntimeYears, 4, "0")));
    app.update(AppMessage::LoanViewMessage(0, LoanViewMessage::Calc));
    let result = app.loans[0].result.as_ref().expect("calculated");
    // 1000 * (0.06 + 0.06) / 12 = 10
    assert!(result.monthly_rate.same_value(&Dec { mantissa: 10, scale: 0 }));
}

#[test]
fn renaming_a_loan_renames_its_tab() {
    let mut app = App::new();
    app.update(AppMessage::LoanViewMessage(0, text_message(LoanFormData::Name, 0, "home")));
    assert_eq!(app.loan_tabs[0].name, "home");
    assert_eq!(app.loans[0].data.name, "home");
}

#[test]
fn deleting_the_active_loan_shifts_tabs() {
    let mut app = App::new();
    app.update(AppMessage::AddLoan);
    assert_eq!(app.active, Some(1));
    app.update(AppMessage::DeleteLoan);
    assert_eq!(app.loans.len(), 1);
    assert_eq!(app.loan_tabs.len(), 1);
    assert_eq!(app.loan_tabs[0].name, "Loan 1");
    assert_eq!(app.active, Some(0));
    app.update(AppMessage::DeleteLoan);
    assert_eq!(app.loans.len(), 0);
    assert_eq!(app.active, None);
}

#[test]
fn selection_messages_move_the_selection() {
    let mut app = App::new();
    app.update(AppMessage::AddLoan);
    app.update(AppMessage::SelectLoan(0));
    assert_eq!(app.active, Some(0));
    app.update(AppMessage::ShowOverview);
    assert_eq!(app.active, None);
}

#[test]
fn save_dialog_request_passes_through() {
    let mut app = App::new();
    let data = vec![snapshot("a", "1", "2", "3", "0")];
    let cmd = app.update(AppMessage::OverviewMessage(OverviewMessage::OpenSaveDlg(data)));
    match cmd {
        AppCommand::OpenSaveDialog(l) => {
            assert_eq!(l.len(), 1);
            assert_eq!(l[0].name, "a");
        },
        _ => panic!("expected a save dialog request"),
    }
    let cmd = app.update(AppMessage::OverviewMessage(OverviewMessage::OpenLoadDlg));
    assert!(matches!(cmd, AppCommand::OpenLoadDialog));
}

#[test]
fn loading_replaces_the_loans_and_recomputes() {
    let mut app = App::new();
    app.update(AppMessage::AddLoan);
    let loaded = LoadedFile {
        file: String::from("savings.lc"),
        data: vec![
            snapshot("first", "100", "12", "0", "0"),
            snapshot("second", "bad", "12", "0", "0"),
        ],
    };
    app.update(AppMessage::OverviewMessage(OverviewMessage::LoadDlgResult(Ok(loaded))));
    assert_eq!(app.title(), "Loan calc - savings.lc");
    assert_eq!(app.loans.len(), 2);
    assert_eq!(app.loan_tabs[0].name, "first");
    assert_eq!(app.loan_tabs[1].name, "second");
    assert_eq!(app.active, Some(1));
    let first = app.loans[0].result.as_ref().expect("recomputed");
    // 100 * 0.12 / 12 = 1
    assert!(first.monthly_rate.same_value(&Dec { mantissa: 1, scale: 0 }));
    assert!(app.loans[1].result.is_none(), "a snapshot that fails to parse holds no result");
}

#[test]
fn canceled_load_changes_nothing() {
    let mut app = App::new();
    app.update(
        AppMessage::OverviewMessage(OverviewMessage::LoadDlgResult(Err(DlgErr::Canceled))),
    );
    assert_eq!(app.loans.len(), 1);
}

#[test]
fn overview_sums_the_calculated_loans() {
    let mut app = App::new();
    let loaded = LoadedFile {
        file: String::from("three.lc"),
        data: vec![
            snapshot("a", "100", "12", "0", "0"),
            snapshot("b", "200", "12", "0", "0"),
            snapshot("c", "bad", "12", "0", "0"),
        ],
    };
    app.update(AppMessage::OverviewMessage(OverviewMessage::LoadDlgResult(Ok(loaded))));
    let totals = overview_totals(&app.loans).expect("no overflow");
    // 1 + 2 from the two loans that computed; the third is skipped
    let rounded = totals.rounded();
    assert!(rounded.monthly_rate.same_value(&Dec { mantissa: 3, scale: 0 }));
}

#[test]
fn policy_buttons_highlight_the_current_policy() {
    let mut app = App::new();
    let styles = app.loans[0].policy_button_styles();
    assert!(styles.0.active);
    assert!(!styles.1.active);
    app.update(AppMessage::LoanViewMessage(
        0,
        LoanViewMessage::ChangeTypeToBuildingSavings,
    ));
    let styles = app.loans[0].policy_button_styles();
    assert!(!styles.0.active);
    assert!(styles.1.active);
}

#[test]
fn runtime_parse_accepts_signed_integers() {
    assert_eq!(parse_i32("12"), Some(12));
    assert_eq!(parse_i32("+12"), Some(12));
    assert_eq!(parse_i32("-12"), Some(-12));
    assert_eq!(parse_i32("007"), Some(7));
    assert_eq!(parse_i32("-2147483648"), Some(i32::MIN));
    assert_eq!(parse_i32("2147483647"), Some(i32::MAX));
}

#[test]
fn runtime_parse_rejects_everything_else() {
    assert_eq!(parse_i32(""), None);
    assert_eq!(parse_i32("+"), None);
    assert_eq!(parse_i32("-"), None);
    assert_eq!(parse_i32("1.5"), None);
    assert_eq!(parse_i32(" 1"), None);
    assert_eq!(parse_i32("1a"), None);
    assert_eq!(parse_i32("+-1"), None);
    assert_eq!(parse_i32("2147483648"), None);
    assert_eq!(parse_i32("-2147483649"), None);
    assert_eq!(parse_i32("99999999999999999999"), None);
}
