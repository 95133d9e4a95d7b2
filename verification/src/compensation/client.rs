//! Decisions of the compensation handlers: reading uploaded pay rows into the
//! amounts to store, and naming managers in the budget overview.

use vstd::prelude::*;
use convert_case::{Case, Casing};
use crate::compensation::money::{clean_currency_text, currency_text};
use crate::text::join_text;

verus! {

/// A row of an organization's compensation file; amounts are money texts such as "$1,234.56".
#[derive(Debug, Clone)]
pub struct Row {
    pub email: String,
    pub first_name: String,
    pub last_name: String,
    pub base_pay: String,
    pub variable_pay: Option<String>,
    pub target_commissions: Option<String>,
    pub low: Option<String>,
    pub mid: Option<String>,
    pub high: Option<String>,
    pub title: Option<String>,
}

/// The number text a money amount is read from: dollar signs and thousands
/// separators dropped and surrounding white space trimmed (see
/// [`currency_text`]). The amount in cents is the number it reads as, times
/// 100, truncated; that reading is floating point and is done by the service.
pub fn convert_currency_str(currency_str: String) -> (r: String)
    ensures
        r@ == currency_text(currency_str@),
{
    clean_currency_text(currency_str.as_str())
}

/// The name a header is stored under: its snake-case form as the
/// `convert_case` crate writes it (words split at case changes, spaces,
/// hyphens and underscores, lowercased and joined by underscores).
pub uninterp spec fn snake_case(text: Seq<char>) -> Seq<char>;

/// The snake-case form of a header.
///
/// Trusted: calls `convert_case`'s `Casing::to_case` with `Case::Snake`. That
/// conversion depends on its argument alone; its result is named
/// [`snake_case`] and nothing more is claimed of it.
#[verifier::external_body]
fn to_snake_case(text: &str) -> (r: String)
    ensures
        r@ == snake_case(text@),
{
    text.to_case(Case::Snake)
}

/// The headers of an uploaded file as its rows are read: each in snake case, in order.
pub fn normalize_headers(headers: &Vec<String>) -> (r: Vec<String>)
    ensures
        r@.len() == headers@.len(),
        forall|i: int| 0 <= i < r@.len() ==> (#[trigger] r@[i])@ == snake_case(headers@[i]@),
{
    let mut r: Vec<String> = Vec::new();
    let mut i: usize = 0;
    while i < headers.len()
        invariant
            i <= headers@.len(),
            r@.len() == i,
            forall|j: int| 0 <= j < i ==> (#[trigger] r@[j])@ == snake_case(headers@[j]@),
        decreases headers.len() - i,
    {
        r.push(to_snake_case(headers[i].as_str()));
        i = i + 1;
    }
    r
}

/// The number texts of a compensation row's amounts (see [`convert_currency_str`]).
#[derive(Debug, Clone, PartialEq, Eq)]
pub struct CompensationTexts {
    pub base_pay: String,
    pub variable_pay: Option<String>,
    pub target_commissions: Option<String>,
}

/// The number texts of a pay band's amounts, with its title.
#[derive(Debug, Clone)]
pub struct PaybandTexts {
    pub title: String,
    pub high: String,
    pub mid: String,
    pub low: String,
}

/// Whether an optional number text is the cleaned form of an optional money text.
pub open spec fn cleaned(t: Option<String>, c: Option<String>) -> bool {
    match t {
        Some(s) => c matches Some(v) && v@ == currency_text(s@),
        None => c is None,
    }
}

fn convert_optional(t: &Option<String>) -> (r: Option<String>)
    ensures
        cleaned(*t, r),
{
    match t {
        None => None,
        Some(s) => Some(clean_currency_text(s.as_str())),
    }
}

/// The amounts a row records for the user's compensation: base pay, variable
/// pay and target commissions, as number texts.
pub fn row_compensation(row: &Row) -> (r: CompensationTexts)
    ensures
        r.base_pay@ == currency_text(row.base_pay@),
        cleaned(row.variable_pay, r.variable_pay),
        cleaned(row.target_commissions, r.target_commissions),
{
    CompensationTexts {
        base_pay: clean_currency_text(row.base_pay.as_str()),
        variable_pay: convert_optional(&row.variable_pay),
        target_commissions: convert_optional(&row.target_commissions),
    }
}

/// The pay band a row records: only when it gives a title and the high, mid
/// and low amounts, which come as number texts.
pub fn row_payband(row: &Row) -> (r: Option<PaybandTexts>)
    ensures
        r is Some <==> (row.high is Some && row.mid is Some && row.low is Some && row.title is Some),
        r matches Some(b) ==> {
            &&& Some(b.title) == row.title
            &&& b.high@ == currency_text(row.high->0@)
            &&& b.mid@ == currency_text(row.mid->0@)
            &&& b.low@ == currency_text(row.low->0@)
        },
{
    match (&row.high, &row.mid, &row.low, &row.title) {
        (Some(high), Some(mid), Some(low), Some(title)) => Some(PaybandTexts {
            title: title.clone(),
            high: clean_currency_text(high.as_str()),
            mid: clean_currency_text(mid.as_str()),
            low: clean_currency_text(low.as_str()),
        }),
        _ => None,
    }
}

/// The name a manager is shown under in the budget overview: first and last name, space-separated.
pub fn manager_display_name(first_name: &str, last_name: &str) -> (s: String)
    ensures
        s@ == first_name@ + " "@ + last_name@,
{
    let mut s = join_text(first_name, " ");
    s.append(last_name);
    s
}

} // verus!
