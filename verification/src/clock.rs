//! The one place where the library asks for the current date.

use vstd::prelude::*;

verus! {

/// Relies on `chrono::Local::now` and `chrono::NaiveDate::to_string`: the
/// current local calendar date rendered as text.  The result depends on
/// the clock, so nothing is promised of it.
#[verifier::external_body]
pub(crate) fn today_string() -> String {
    chrono::Local::now().date_naive().to_string()
}

} // verus!
