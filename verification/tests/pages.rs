use splat_site::data::{EmbedQuery, ScheduleInput};
use splat_site::rgb::Rgb;
use splat_site::schedule::{build_html_sche, build_url, get_info, Mode, Schedule, ScheduleError, ScheduleInfo, Stage};
use splat_site::time::DateTimeParts;
use splat_site::weapon::{self, build_html_weapon, get_weapon, pick_count, WeaponInfo};

fn at(hour: u32, minute: u32) -> DateTimeParts {
    DateTimeParts { year: 2026, month: 9, day: 21, hour, minute, second: 0 }
}

fn entry(rule: &str, start: u32) -> ScheduleInfo {
    ScheduleInfo {
        start_time: at(start, 0),
        end_time: at(start + 2, 0),
        rule: rule.to_string(),
        rule_colour: Rgb([1, 2, 3]),
        stages: vec![
            Stage { name: "A&B".to_string(), image_url: "http://i/x?a=1&b=2".to_string() },
            Stage { name: "C".to_string(), image_url: "http://i/c.png".to_string() },
        ],
    }
}

const SCHE_TEMPLATE: &str = "{title}|{desc}|{colour}|{imgs_meta}|{imgs_src}|{SITE_URL}";

#[test]
fn build_url_of_each_mode() {
    assert_eq!(build_url(Mode::Regular, Schedule::After), "https://spla3.yuu26.com/api/regular/schedule");
    assert_eq!(build_url(Mode::Open, Schedule::Now), "https://spla3.yuu26.com/api/bankara-open/now");
    assert_eq!(build_url(Mode::Open, Schedule::Next), "https://spla3.yuu26.com/api/bankara-open/next");
}

#[test]
fn schedule_page_fields() {
    let page = build_html_sche(&entry("Turf <War>", 15), &EmbedQuery::default(), SCHE_TEMPLATE);
    assert_eq!(
        page,
        "Turf &lt;War&gt;|09/21 15:00 - 09/21 17:00\n- A&amp;B\n- C|#010203|\
<meta property=\"og:image\" content=\"http://i/x?a=1&amp;b=2\">\n<meta property=\"og:image\" content=\"http://i/c.png\">|\
<img src=\"http://i/x?a=1&amp;b=2\" alt=\"stage\" style=\"max-width:100%\">\n<img src=\"http://i/c.png\" alt=\"stage\" style=\"max-width:100%\">|splat.site"
    );
}

#[test]
fn schedule_page_query_colour() {
    let q = EmbedQuery { n: None, colour: Some(Rgb([0xab, 0, 0x0f])) };
    let page = build_html_sche(&entry("R", 1), &q, "{colour}");
    assert_eq!(page, "#AB000F");
}

#[test]
fn schedule_page_time_padding() {
    let mut e = entry("R", 1);
    e.start_time = DateTimeParts { year: 2025, month: 1, day: 2, hour: 3, minute: 4, second: 5 };
    e.end_time = DateTimeParts { year: 2024, month: 12, day: 31, hour: 23, minute: 59, second: 59 };
    e.stages = vec![];
    let page = build_html_sche(&e, &EmbedQuery::default(), "{desc}");
    assert_eq!(page, "01/02 03:04 - 12/31 23:59\n");
}

#[test]
fn schedule_page_bad_template_gives_error_text() {
    let page = build_html_sche(&entry("R", 1), &EmbedQuery::default(), "{missing}");
    assert_eq!(page, "Internal server error");
    let page = build_html_sche(&entry("R", 1), &EmbedQuery::default(), "{title");
    assert_eq!(page, "Internal server error");
}

#[test]
fn schedule_get_info_picks_entry() {
    let infos = vec![entry("first", 1), entry("second", 3), entry("third", 5)];
    let q = EmbedQuery::default();
    assert_eq!(get_info(&infos, ScheduleInput::Now, &q, "{title}"), Ok("first".to_string()));
    assert_eq!(get_info(&infos, ScheduleInput::Next, &q, "{title}"), Ok("second".to_string()));
    let q2 = EmbedQuery { n: Some(2), colour: None };
    assert_eq!(get_info(&infos, ScheduleInput::Next, &q2, "{title}"), Ok("third".to_string()));
    let q0 = EmbedQuery { n: Some(0), colour: None };
    assert_eq!(get_info(&infos, ScheduleInput::Next, &q0, "{title}"), Ok("first".to_string()));
    let q9 = EmbedQuery { n: Some(9), colour: None };
    assert_eq!(get_info(&infos, ScheduleInput::Next, &q9, "{title}"), Err(ScheduleError));
    assert_eq!(get_info(&vec![], ScheduleInput::Now, &q, "{title}"), Err(ScheduleError));
}

fn pool() -> Vec<WeaponInfo> {
    vec![
        WeaponInfo { name_ja_jp: "わかばシューター".to_string() },
        WeaponInfo { name_ja_jp: "スプラシューター".to_string() },
        WeaponInfo { name_ja_jp: "<N-ZAP>".to_string() },
    ]
}

#[test]
fn weapon_pick_count_is_clamped() {
    assert_eq!(pick_count(None), 1);
    assert_eq!(pick_count(Some(0)), 1);
    assert_eq!(pick_count(Some(3)), 3);
    assert_eq!(pick_count(Some(8)), 8);
    assert_eq!(pick_count(Some(100)), 8);
}

#[test]
fn weapon_page_fields() {
    let page = weapon::get_info(
        &Some(pool()),
        &EmbedQuery { n: Some(2), colour: None },
        &vec![2, 0],
        "{title}|{w_meta}|{w_body}|{colour}|{SITE_URL}",
    );
    assert_eq!(
        page,
        "武器抽選|1. &lt;N-ZAP&gt;\n2. わかばシューター|<li>&lt;N-ZAP&gt;</li> <li>わかばシューター</li>|#FFFF10|splat.site"
    );
}

#[test]
fn weapon_page_numbers_past_nine() {
    let many: Vec<WeaponInfo> = (0..12).map(|i| WeaponInfo { name_ja_jp: format!("w{i}") }).collect();
    let page = build_html_weapon(&many, Some(Rgb([0, 0, 0])), "{w_meta}");
    assert!(page.ends_with("\n10. w9\n11. w10\n12. w11"));
}

#[test]
fn weapon_page_without_list() {
    let page = weapon::get_info(&None, &EmbedQuery::default(), &vec![], "{title}");
    assert_eq!(page, "Internal server error");
    let r = get_weapon(&None, &EmbedQuery::default(), &vec![], "{title}");
    assert_eq!(r.status, 200);
    assert_eq!(r.body, "Internal server error");
}

#[test]
fn weapon_answer_is_ok() {
    let r = get_weapon(
        &Some(pool()),
        &EmbedQuery { n: None, colour: Some(Rgb([1, 1, 1])) },
        &vec![1],
        "{w_body} {colour}",
    );
    assert_eq!(r.status, 200);
    assert_eq!(r.body, "<li>スプラシューター</li> #010101");
}
