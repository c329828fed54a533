//! Filling the `{name}` fields of an HTML page template.

use vstd::prelude::*;
use crate::helper::{error_text, error_text_spec};

verus! {

#[verifier::external_type_specification]
#[verifier::external_body]
pub struct ExFmtError(strfmt::FmtError);

/// What `strfmt::strfmt` makes of a template and a table of fields
/// (`None` where it reports an error).
pub uninterp spec fn strfmt_output(template: Seq<char>, vars: Seq<(Seq<char>, Seq<char>)>) -> Option<Seq<char>>;

/// A template that could not be filled: a field without a value, or a malformed field.
#[derive(Debug, Clone, Copy, PartialEq, Eq)]
pub struct TemplateError;

/// Fills the template with `strfmt::strfmt`, the fields given as name and value pairs.
///
/// Trusted: the result is what `strfmt::strfmt` returns for the template and the table
/// made of the pairs (a later pair with the same name replaces an earlier one); its
/// rules for `{name}` fields, `{{`, `}}` and format specifications are not written out
/// here but named by `strfmt_output`.
#[verifier::external_body]
fn strfmt_fill(template: &str, vars: &Vec<(String, String)>) -> (res: Result<String, strfmt::FmtError>)
    ensures
        match res {
            Ok(s) => strfmt_output(template@, vars.deep_view()) == Some(s@),
            Err(_) => strfmt_output(template@, vars.deep_view()) is None,
        },
{
    let table: std::collections::HashMap<String, String> = vars.iter().cloned().collect();
    strfmt::strfmt(template, &table)
}

/// Fills the `{name}` fields of a template from the name and value pairs.
pub fn fill_template(template: &str, vars: &Vec<(String, String)>) -> (res: Result<String, TemplateError>)
    ensures
        match res {
            Ok(s) => strfmt_output(template@, vars.deep_view()) == Some(s@),
            Err(_) => strfmt_output(template@, vars.deep_view()) is None,
        },
{
    match strfmt_fill(template, vars) {
        Ok(s) => Ok(s),
        Err(_) => Err(TemplateError),
    }
}

/// The page text: the filled template, or the error text where it could not be filled.
pub open spec fn page_or_error_spec(filled: Option<Seq<char>>) -> Seq<char> {
    match filled {
        Some(s) => s,
        None => error_text_spec(),
    }
}

/// The filled template, or the error text in its place.
pub fn page_or_error(filled: Result<String, TemplateError>) -> (res: String)
    ensures
        res@ == page_or_error_spec(
            match filled {
                Ok(s) => Some(s@),
                Err(_) => None,
            },
        ),
{
    match filled {
        Ok(s) => s,
        Err(_) => error_text(),
    }
}

/// The page made from a template and its fields.
pub open spec fn render_spec(template: Seq<char>, vars: Seq<(Seq<char>, Seq<char>)>) -> Seq<char> {
    page_or_error_spec(strfmt_output(template, vars))
}

/// A field of a template: its name and its value.
pub(crate) fn field(name: &str, value: String) -> (res: (String, String))
    ensures
        res.0@ == name@,
        res.1@ == value@,
{
    (String::from_str(name), value)
}

/// Fills the template, or gives the error text where that fails.
pub fn render(template: &str, vars: &Vec<(String, String)>) -> (res: String)
    ensures
        res@ == render_spec(template@, vars.deep_view()),
{
    page_or_error(fill_template(template, vars))
}

} // verus!
