use chrono::{Datelike, NaiveDate, NaiveDateTime, NaiveTime, Timelike};
use splat_site::img::{combined_name, extension_for, file_name_for};
use splat_site::schedule::{Mode, ScheduleInfo};
use splat_site::state::{AppCache, CacheError};
use splat_site::time::DateTimeParts;
use splat_site::weapon::WeaponInfo;
use splat_site::rgb::Rgb;

fn parts(dt: NaiveDateTime) -> DateTimeParts {
    DateTimeParts {
        year: dt.year(),
        month: dt.month(),
        day: dt.day(),
        hour: dt.hour(),
        minute: dt.minute(),
        second: dt.second(),
    }
}

#[test]
#[allow(deprecated)]
fn calc_block_works() {
    let day = NaiveDate::from_ymd(2026, 9, 21);
    let hours = AppCache::UPD8_H;

    let _test = |h: u32, m: u32, exp: usize| {
        let dt = NaiveDateTime::new(day, NaiveTime::from_hms(h, m, 0));
        assert_eq!(hours[AppCache::calc_block(parts(dt)) as usize], hours[exp]);
    };

    // [0, 2, 4, 6, 8, 10, 12, 14, 16, 18, 20, 22];
    //test(0, 0, 0);
    //test(1, 59, 1);
    //test(23, 59, 11);
}

fn hour(h: u32) -> DateTimeParts {
    DateTimeParts { year: 2026, month: 9, day: 21, hour: h, minute: 30, second: 0 }
}

#[test]
fn calc_block_values() {
    assert_eq!(AppCache::UPD8_H, [22, 20, 18, 16, 14, 12, 10, 8, 6, 4, 2, 0]);
    assert_eq!(AppCache::calc_block(hour(0)), 11);
    assert_eq!(AppCache::calc_block(hour(1)), 10);
    assert_eq!(AppCache::calc_block(hour(2)), 10);
    assert_eq!(AppCache::calc_block(hour(3)), 9);
    assert_eq!(AppCache::calc_block(hour(21)), 0);
    assert_eq!(AppCache::calc_block(hour(22)), 0);
    assert_eq!(AppCache::calc_block(hour(23)), -1);
}

#[test]
fn another_block_and_staleness() {
    assert!(!AppCache::is_another_block(hour(1), hour(2)));
    assert!(AppCache::is_another_block(hour(2), hour(3)));
    assert!(!AppCache::is_stale(hour(1), hour(2)));
    let mut next_day = hour(1);
    next_day.day = 22;
    assert!(AppCache::is_stale(next_day, hour(1)));
    assert!(!AppCache::is_stale(hour(1), next_day));
}

fn schedule(rule: &str) -> Vec<ScheduleInfo> {
    vec![ScheduleInfo {
        start_time: hour(1),
        end_time: hour(3),
        rule: rule.to_string(),
        rule_colour: Rgb([0, 0, 0]),
        stages: vec![],
    }]
}

#[test]
fn cache_fetches_when_empty_and_stores() {
    let mut c = AppCache::new();
    assert!(c.needs_fetch(Mode::Regular, hour(1)));
    assert_eq!(c.fetch_schedule(Mode::Regular, hour(1), None).unwrap_err(), CacheError);
    let got = c.fetch_schedule(Mode::Regular, hour(1), Some(schedule("a"))).unwrap();
    assert_eq!(got[0].rule, "a");
    assert!(!c.needs_fetch(Mode::Regular, hour(1)));
    assert!(!c.needs_fetch(Mode::Regular, hour(2)));
    assert!(c.needs_fetch(Mode::Open, hour(1)));
}

#[test]
fn cache_keeps_fresh_schedule() {
    let mut c = AppCache::new();
    c.fetch_schedule(Mode::Open, hour(1), Some(schedule("a"))).unwrap();
    let got = c.fetch_schedule(Mode::Open, hour(2), Some(schedule("b"))).unwrap();
    assert_eq!(got[0].rule, "a");
}

#[test]
fn cache_refreshes_stale_schedule() {
    let mut c = AppCache::new();
    c.fetch_schedule(Mode::Open, hour(1), Some(schedule("a"))).unwrap();
    let got = c.fetch_schedule(Mode::Open, hour(3), Some(schedule("b"))).unwrap();
    assert_eq!(got[0].rule, "b");
    let got = c.fetch_schedule(Mode::Open, hour(5), None).unwrap();
    assert_eq!(got[0].rule, "b");
    assert!(c.needs_fetch(Mode::Open, hour(5)));
}

#[test]
fn cache_keeps_first_weapon_list() {
    let mut c = AppCache::new();
    assert!(c.weapons_missing());
    assert!(c.get_weapons(None).is_none());
    let first = vec![WeaponInfo { name_ja_jp: "a".to_string() }];
    let second = vec![WeaponInfo { name_ja_jp: "b".to_string() }];
    assert_eq!(c.get_weapons(Some(first)).as_ref().unwrap()[0].name_ja_jp, "a");
    assert!(!c.weapons_missing());
    assert_eq!(c.get_weapons(Some(second)).as_ref().unwrap()[0].name_ja_jp, "a");
}

#[test]
fn image_file_names() {
    assert_eq!(file_name_for("https://x/y/abc.png?Expires=1&Sig=2", None), "abc.png");
    assert_eq!(file_name_for("https://x/y/abc?q=1", Some("image/jpeg; charset=x")), "abc.jpeg");
    assert_eq!(file_name_for("https://x/y/abc", None), "abc.png");
    assert_eq!(file_name_for("https://x/y/abc", Some("text")), "abc.png");
    assert_eq!(file_name_for("noslash", Some("image/webp")), "noslash.webp");
    assert_eq!(extension_for(Some("a/b/c;d")), "b");
    assert_eq!(extension_for(None), "png");
    assert_eq!(combined_name("a.png", "b.webp"), "a.png_b.webp.png");
}
