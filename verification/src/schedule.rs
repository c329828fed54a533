//! Stage schedules: where they are fetched from and the page that shows one.

use vstd::prelude::*;
use crate::data::{EmbedQuery, ScheduleInput};
use crate::helper::{escape_html, escape_seq, SITE_URL};
use crate::rgb::{Rgb, hex_colour, colour_from_bytes, lemma_hex_colour_escaped};
use vstd::utf8::encode_utf8;
use crate::template::{field, render, render_spec};
use crate::text::{join, join_spec};
use crate::time::{DateTimeParts, format_short};

verus! {

/// A battle mode whose schedule the site shows.
#[derive(Debug, Clone, Copy, PartialEq, Eq)]
pub enum Mode {
    Regular,
    Open,
}

/// Which part of a schedule the API is asked for.
#[derive(Debug, Clone, Copy, PartialEq, Eq)]
pub enum Schedule {
    Now,
    Next,
    After,
}

/// The path segment of a mode in the API.
pub open spec fn mode_path(m: Mode) -> Seq<char> {
    match m {
        Mode::Regular => "regular"@,
        Mode::Open => "bankara-open"@,
    }
}

/// The path segment of a schedule part in the API.
pub open spec fn schedule_path(s: Schedule) -> Seq<char> {
    match s {
        Schedule::Now => "now"@,
        Schedule::Next => "next"@,
        Schedule::After => "schedule"@,
    }
}

/// The address of the schedule API.
pub open spec fn api_base() -> Seq<char> {
    "https://spla3.yuu26.com/api/"@
}

/// The number that a mode is filed under in the schedule cache.
pub open spec fn mode_key(m: Mode) -> u64 {
    match m {
        Mode::Regular => 0,
        Mode::Open => 1,
    }
}

impl Mode {
    /// The number that the mode is filed under in the schedule cache.
    pub fn key(&self) -> (k: u64)
        ensures
            k == mode_key(*self),
    {
        match self {
            Mode::Regular => 0,
            Mode::Open => 1,
        }
    }

    /// The path segment of the mode.
    pub fn as_str(&self) -> (s: &'static str)
        ensures
            s@ == mode_path(*self),
    {
        match self {
            Mode::Regular => "regular",
            Mode::Open => "bankara-open",
        }
    }
}

impl Schedule {
    /// The path segment of the schedule part.
    pub fn as_str(&self) -> (s: &'static str)
        ensures
            s@ == schedule_path(*self),
    {
        match self {
            Schedule::Now => "now",
            Schedule::Next => "next",
            Schedule::After => "schedule",
        }
    }
}

/// The API address of a schedule part of a mode.
pub fn build_url(mode: Mode, sche: Schedule) -> (url: String)
    ensures
        url@ == api_base() + mode_path(mode) + "/"@ + schedule_path(sche),
{
    let mut url = String::from_str("https://spla3.yuu26.com/api/");
    url.append(mode.as_str());
    url.append("/");
    url.append(sche.as_str());
    url
}

/// A stage of a schedule entry.
#[derive(Debug, Clone)]
pub struct Stage {
    pub name: String,
    pub image_url: String,
}

/// One entry of a schedule: when it runs, its rule and its stages.
#[derive(Debug, Clone)]
pub struct ScheduleInfo {
    /// The start, in the time zone that the API gives it in.
    pub start_time: DateTimeParts,
    /// The end, in the time zone that the API gives it in.
    pub end_time: DateTimeParts,
    /// The written name of the rule.
    pub rule: String,
    /// The colour that belongs to the rule.
    pub rule_colour: Rgb,
    pub stages: Vec<Stage>,
}

/// No schedule entry for the asked position.
#[derive(Debug, Clone, Copy, PartialEq, Eq)]
pub struct ScheduleError;

impl ScheduleInfo {
    /// Both times of the entry are existing dates and times.
    pub open spec fn is_valid(&self) -> bool {
        self.start_time.is_valid() && self.end_time.is_valid()
    }
}

/// The description line of a stage.
pub open spec fn stage_line(s: Stage) -> Seq<char> {
    "- "@ + s.name@
}

/// The meta tag that offers a stage image to embeds.
pub open spec fn meta_tag(s: Stage) -> Seq<char> {
    "<meta property=\"og:image\" content=\""@ + escape_seq(s.image_url@) + "\">"@
}

/// The image tag of a stage.
pub open spec fn img_tag(s: Stage) -> Seq<char> {
    "<img src=\""@ + escape_seq(s.image_url@) + "\" alt=\"stage\" style=\"max-width:100%\">"@
}

/// The description: the time span, then one line for each stage.
pub open spec fn schedule_desc(info: ScheduleInfo) -> Seq<char> {
    escape_seq(info.start_time.short_form()) + " - "@ + escape_seq(info.end_time.short_form())
        + "\n"@ + join_spec(Seq::new(info.stages@.len(), |i: int| stage_line(info.stages@[i])), "\n"@)
}

/// The fields of the schedule page template.
pub open spec fn schedule_vars(info: ScheduleInfo, query: EmbedQuery) -> Seq<(Seq<char>, Seq<char>)> {
    let colour = match query.colour {
        Some(c) => c,
        None => info.rule_colour,
    };
    seq![
        ("SITE_URL"@, "splat.site"@),
        ("title"@, escape_seq(info.rule@)),
        ("desc"@, escape_seq(schedule_desc(info))),
        ("imgs_meta"@, join_spec(Seq::new(info.stages@.len(), |i: int| meta_tag(info.stages@[i])), "\n"@)),
        ("colour"@, escape_seq(hex_colour(colour.0@))),
        ("imgs_src"@, join_spec(Seq::new(info.stages@.len(), |i: int| img_tag(info.stages@[i])), "\n"@)),
    ]
}

/// The schedule page of an entry.
pub open spec fn schedule_page(template: Seq<char>, info: ScheduleInfo, query: EmbedQuery) -> Seq<char> {
    render_spec(template, schedule_vars(info, query))
}

/// Builds the schedule page of an entry from the page template.
pub fn build_html_sche(info: &ScheduleInfo, query: &EmbedQuery, template: &str) -> (page: String)
    requires
        info.is_valid(),
    ensures
        page@ == schedule_page(template@, *info, *query),
{
    let n = info.stages.len();
    let mut lines: Vec<String> = Vec::new();
    let mut metas: Vec<String> = Vec::new();
    let mut srcs: Vec<String> = Vec::new();
    let mut i: usize = 0;
    while i < n
        invariant
            n == info.stages@.len(),
            i <= n,
            lines@.len() == i,
            metas@.len() == i,
            srcs@.len() == i,
            forall|k: int| 0 <= k < i ==> #[trigger] lines@[k]@ == stage_line(info.stages@[k]),
            forall|k: int| 0 <= k < i ==> #[trigger] metas@[k]@ == meta_tag(info.stages@[k]),
            forall|k: int| 0 <= k < i ==> #[trigger] srcs@[k]@ == img_tag(info.stages@[k]),
        decreases n - i,
    {
        let stage = &info.stages[i];
        let mut line = String::from_str("- ");
        line.append(stage.name.as_str());
        lines.push(line);

        let url = escape_html(stage.image_url.as_str());
        let mut meta = String::from_str("<meta property=\"og:image\" content=\"");
        meta.append(url.as_str());
        meta.append("\">");
        metas.push(meta);

        let mut src = String::from_str("<img src=\"");
        src.append(url.as_str());
        src.append("\" alt=\"stage\" style=\"max-width:100%\">");
        srcs.push(src);
        i = i + 1;
    }
    assert(lines.deep_view() =~= Seq::new(info.stages@.len(), |k: int| stage_line(info.stages@[k])));
    assert(metas.deep_view() =~= Seq::new(info.stages@.len(), |k: int| meta_tag(info.stages@[k])));
    assert(srcs.deep_view() =~= Seq::new(info.stages@.len(), |k: int| img_tag(info.stages@[k])));

    let mut desc = escape_html(format_short(&info.start_time).as_str());
    desc.append(" - ");
    desc.append(escape_html(format_short(&info.end_time).as_str()).as_str());
    desc.append("\n");
    desc.append(join(&lines, "\n").as_str());

    let colour = match query.colour {
        Some(c) => c,
        None => info.rule_colour,
    };

    let mut vars: Vec<(String, String)> = Vec::new();
    vars.push(field("SITE_URL", String::from_str(SITE_URL)));
    vars.push(field("title", escape_html(info.rule.as_str())));
    vars.push(field("desc", escape_html(desc.as_str())));
    vars.push(field("imgs_meta", join(&metas, "\n")));
    vars.push(field("colour", escape_html(colour.to_hex_string().as_str())));
    vars.push(field("imgs_src", join(&srcs, "\n")));
    assert(vars.deep_view() =~= schedule_vars(*info, *query));
    render(template, &vars)
}

/// The position in a schedule of the entry that a page shows: the first
/// for `Now`, the `n`-th (counting from zero, `1` when not given) for `Next`.
pub open spec fn selected_index(len: nat, which: ScheduleInput, n: Option<u32>) -> Option<int> {
    match which {
        ScheduleInput::Now => if len > 0 { Some(0) } else { None },
        ScheduleInput::Next => {
            let k: int = match n {
                Some(k) => k as int,
                None => 1,
            };
            if k < len { Some(k) } else { None }
        },
    }
}

/// The page of the schedule entry that the query asks for.
pub fn get_info(
    infos: &Vec<ScheduleInfo>,
    schedule: ScheduleInput,
    query: &EmbedQuery,
    template: &str,
) -> (res: Result<String, ScheduleError>)
    requires
        forall|k: int| 0 <= k < infos@.len() ==> (#[trigger] infos@[k]).is_valid(),
    ensures
        match selected_index(infos@.len(), schedule, query.n) {
            None => res == Err::<String, ScheduleError>(ScheduleError),
            Some(k) => res matches Ok(page) && page@ == schedule_page(template@, infos@[k], *query),
        },
{
    let index: usize = match schedule {
        ScheduleInput::Now => 0,
        ScheduleInput::Next => match query.n {
            Some(k) => k as usize,
            None => 1,
        },
    };
    if index < infos.len() {
        Ok(build_html_sche(&infos[index], query, template))
    } else {
        Err(ScheduleError)
    }
}

/// The colour field of the schedule page is the query colour written
/// `#RRGGBB`, or the rule's colour when the query gives none; reading its
/// digits back gives that colour's red, green and blue in order.
pub proof fn lemma_schedule_colour_field(info: ScheduleInfo, query: EmbedQuery)
    ensures
        ({
            let f = schedule_vars(info, query)[4];
            let c = match query.colour {
                Some(c) => c,
                None => info.rule_colour,
            };
            &&& f.0 == "colour"@
            &&& f.1.len() == 7
            &&& f.1[0] == '#'
            &&& colour_from_bytes(encode_utf8(f.1.drop_first())) == Some((c.0[0], c.0[1], c.0[2]))
        }),
{
    let c = match query.colour {
        Some(c) => c,
        None => info.rule_colour,
    };
    lemma_hex_colour_escaped(c.0@);
}

/// The page of the current entry is the page of the first entry, whatever
/// `n` the query gives; `n` picks among the coming entries: the `n`-th
/// (counting from zero, one when not given) where there is one.
pub proof fn lemma_selected_entry(len: nat, n: Option<u32>, m: Option<u32>)
    ensures
        selected_index(len, ScheduleInput::Now, n) == selected_index(len, ScheduleInput::Now, m),
        selected_index(len, ScheduleInput::Now, n) == (if len > 0 { Some(0int) } else { None }),
        selected_index(len, ScheduleInput::Next, None) == selected_index(len, ScheduleInput::Next, Some(1)),
        forall|k: u32| #[trigger] selected_index(len, ScheduleInput::Next, Some(k)) == (if k < len {
            Some(k as int)
        } else {
            None
        }),
        selected_index(len, ScheduleInput::Now, n) is None <==> len == 0,
{
}

} // verus!
