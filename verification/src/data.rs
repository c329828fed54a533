//! The values that the pages are asked for with and answered by.

use vstd::prelude::*;
use crate::rgb::Rgb;

verus! {

/// An HTML answer: its HTTP status code and the page.
#[derive(Debug, Clone)]
pub struct HtmlResponse {
    pub status: u16,
    pub body: String,
}

/// The query of an embed page: how many entries, and the colour of the embed.
#[derive(Debug, Clone, Copy, Default)]
pub struct EmbedQuery {
    pub n: Option<u32>,
    pub colour: Option<Rgb>,
}

/// Which entry of a schedule a page shows.
#[derive(Debug, Clone, Copy, PartialEq, Eq)]
pub enum ScheduleInput {
    Now,
    Next,
}

} // verus!
