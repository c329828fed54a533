//! The static pages: the URL builder and the documentation.

use vstd::prelude::*;
use crate::data::HtmlResponse;

verus! {

/// The URL builder page, answered with status 200.
pub fn url_builder(page: &str) -> (res: HtmlResponse)
    ensures
        res.status == 200,
        res.body@ == page@,
{
    HtmlResponse { status: 200, body: String::from_str(page) }
}

/// The documentation page, answered with status 200.
pub fn docs(page: &str) -> (res: HtmlResponse)
    ensures
        res.status == 200,
        res.body@ == page@,
{
    HtmlResponse { status: 200, body: String::from_str(page) }
}

} // verus!
