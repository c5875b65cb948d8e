//! A loan calculator core: a month-by-month amortization engine over exact
//! base-10 decimals, and the focus navigation of the input form that feeds it.
//!
//! The engine turns four raw text fields (principal, annual interest rate,
//! annual clearance rate, runtime in years) and a policy selector into a
//! schedule of monthly rows, each rounded to two fractional digits for
//! storage while the running accumulators keep full precision.

pub mod app_state;
pub mod decimal;
pub mod form;
pub mod loan_view;
pub mod overview;
pub mod parse_int;
pub mod style;

pub use decimal::Dec;
