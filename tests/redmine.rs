use redmine_activity::datetime::{Date, Time};
use redmine_activity::error::FeedError;
use redmine_activity::event::markup_body;
use redmine_activity::locale::LocaleInfo;
use redmine_activity::login::{activity_url, extract_auth_token, extract_user_id, login_form, login_url};
use redmine_activity::page::{read_page, ActivityPage, PageOutcome, PageSchema};
use redmine_activity::text::remove_all_of;
use redmine_activity::walk::{Walk, WalkAction, WalkEvent};
use redmine_activity::{Redmine, RedmineConfig};

const SERVER: &str = "https://redmine.example.org";

fn ymd(year: i32, month: u32, day: u32) -> Date {
    Date { year, month, day }
}

fn config() -> RedmineConfig {
    RedmineConfig {
        server_url: SERVER.to_string(),
        username: "alice".to_string(),
        password: "SECRET-REDACTED".to_string(),
    }
}

fn day_html(header: &str, entries: &[(&str, &str, &str, &str)]) -> String {
    let mut s = format!("<h3>{}</h3>\n<dl>", header);
    for (time, desc, text, href) in entries {
        s += &format!(
            "<dt class=\"issue icon\"><span class=\"time\">{}</span> <a href=\"{}\">{}</a></dt><dd><span class=\"description\">{}</span></dd>",
            time, href, text, desc
        );
    }
    s + "</dl>\n"
}

fn feed_html(lang: Option<&str>, days: &[String], previous: Option<&str>) -> String {
    let lang_attr = match lang {
        Some(l) => format!(" lang=\"{}\"", l),
        None => String::new(),
    };
    let prev = match previous {
        Some(p) => format!("<ul class=\"pages\"><li class=\"previous page\"><a href=\"{}\">Previous</a></li></ul>", p),
        None => String::new(),
    };
    format!(
        "<!DOCTYPE html><html{}><head><title>Activity</title></head><body><div id=\"content\"><div id=\"activity\">{}</div>{}</div></body></html>",
        lang_attr,
        days.concat(),
        prev
    )
}

fn parse(html: &str, day: Date) -> Result<PageOutcome, FeedError> {
    Redmine::parse_html(
        &config(),
        &Redmine::redmine_locales(),
        &PageSchema::redmine(),
        day,
        ymd(2020, 3, 26),
        html,
    )
}

#[test]
fn it_parses_us_dates_correctly() {
    let locales = Redmine::redmine_locales();
    let en_gb = locales.get("en").unwrap();
    assert_eq!(
        ymd(2020, 3, 23),
        Redmine::parse_date(en_gb, "03/23/2020", ymd(2021, 1, 1)).unwrap()
    );
}

#[test]
fn it_parses_slovenian_dates_correctly() {
    let locales = Redmine::redmine_locales();
    let sl = locales.get("sl").unwrap();
    assert_eq!(
        ymd(2020, 3, 23),
        Redmine::parse_date(sl, "23.03.2020", ymd(2021, 1, 1)).unwrap()
    );
}

#[test]
fn it_parses_iso_dates_correctly() {
    let locales = Redmine::redmine_locales();
    let en_gb = locales.get("en-GB").unwrap();
    assert_eq!(
        ymd(2020, 3, 23),
        Redmine::parse_date(en_gb, "2020-03-23", ymd(2021, 1, 1)).unwrap()
    );
}

#[test]
fn it_parses_us_times_correctly() {
    assert_eq!(
        Time { hour: 13, minute: 30, second: 0 },
        Redmine::parse_time("01:30 PM").unwrap()
    );
}

#[test]
fn it_parses_iso_times_correctly() {
    assert_eq!(
        Time { hour: 13, minute: 30, second: 0 },
        Redmine::parse_time("13:30").unwrap()
    );
}

#[test]
fn today_word_in_any_case_gives_today() {
    let locales = Redmine::redmine_locales();
    let today = ymd(2021, 7, 4);
    for (_, locale) in &locales.entries {
        let upper = locale.today_word.to_uppercase();
        assert_eq!(Ok(today), Redmine::parse_date(locale, &locale.today_word, today).map_err(|_| ()));
        assert_eq!(Ok(today), Redmine::parse_date(locale, &upper, today).map_err(|_| ()));
    }
}

#[test]
fn iso_dates_win_over_every_locale_pattern() {
    let locales = Redmine::redmine_locales();
    for (_, locale) in &locales.entries {
        assert_eq!(ymd(2020, 3, 23), Redmine::parse_date(locale, "2020-03-23", ymd(2021, 1, 1)).unwrap());
    }
}

#[test]
fn custom_locale_patterns_are_used() {
    let us = LocaleInfo::new("%m/%d/%Y", "today");
    let dotted = LocaleInfo::new("%d.%m.%Y", "heute");
    assert_eq!(ymd(2020, 3, 23), Redmine::parse_date(&us, "03/23/2020", ymd(2021, 1, 1)).unwrap());
    assert_eq!(ymd(2020, 3, 23), Redmine::parse_date(&dotted, "23.03.2020", ymd(2021, 1, 1)).unwrap());
}

#[test]
fn unreadable_date_is_a_date_error() {
    let us = LocaleInfo::new("%m/%d/%Y", "today");
    assert!(matches!(Redmine::parse_date(&us, "yesterday", ymd(2021, 1, 1)), Err(FeedError::DateParse(_))));
    assert!(matches!(Redmine::parse_date(&us, "2020-13-45", ymd(2021, 1, 1)), Err(FeedError::DateParse(_))));
}

#[test]
fn unreadable_time_is_a_time_error() {
    assert!(matches!(Redmine::parse_time("1330"), Err(FeedError::TimeParse(_))));
    assert!(matches!(Redmine::parse_time("13:30 XY"), Err(FeedError::TimeParse(_))));
}

#[test]
fn locale_table_has_every_locale() {
    let locales = Redmine::redmine_locales();
    assert_eq!(49, locales.entries.len());
    assert_eq!("%d.%m.%Y", locales.get("sl").unwrap().date_format);
    assert_eq!("danes", locales.get("sl").unwrap().today_word);
    assert!(locales.get("xx").is_none());
}

#[test]
fn earlier_header_gives_no_events() {
    let html = feed_html(
        Some("en"),
        &[day_html("03/20/2020", &[("09:00", "Old", "Bug #1", "/issues/1")])],
        Some("/activity?from=2020-03-19"),
    );
    match parse(&html, ymd(2020, 3, 23)).unwrap() {
        PageOutcome::Done(ev) => assert!(ev.is_empty()),
        PageOutcome::NeedsPreviousPage(_) => panic!("expected the scan to end"),
    }
}

#[test]
fn later_headers_point_to_previous_page() {
    let html = feed_html(
        Some("en"),
        &[
            day_html("03/25/2020", &[("10:00", "Later", "Bug #200", "/issues/200")]),
            day_html("03/24/2020", &[("11:00", "Later too", "Bug #201", "/issues/201")]),
        ],
        Some("/activity?from=2020-03-23"),
    );
    match parse(&html, ymd(2020, 3, 23)).unwrap() {
        PageOutcome::NeedsPreviousPage(Some(url)) => {
            assert_eq!(format!("{}/activity?from=2020-03-23", SERVER), url)
        }
        _ => panic!("expected a previous page"),
    }
}

#[test]
fn no_previous_link_and_no_match_ends_with_no_events() {
    let html = feed_html(
        Some("en"),
        &[day_html("03/25/2020", &[("10:00", "Later", "Bug #200", "/issues/200")])],
        None,
    );
    let outcome = parse(&html, ymd(2020, 3, 23)).unwrap();
    assert!(matches!(outcome, PageOutcome::NeedsPreviousPage(None)));
    let mut walk = Walk::new(config(), Redmine::redmine_locales(), PageSchema::redmine(), ymd(2020, 3, 23), ymd(2020, 3, 26), 365);
    match walk.next_action(Ok(outcome)) {
        WalkAction::Finish(ev) => assert!(ev.is_empty()),
        _ => panic!("expected the walk to finish"),
    }
}

#[test]
fn matching_day_gives_its_events() {
    let html = feed_html(
        Some("en"),
        &[
            day_html("03/24/2020", &[("10:00", "Later", "Bug #200", "/issues/200")]),
            day_html(
                "03/23/2020",
                &[("01:15 PM", "First", "Bug #7", "/issues/7"), ("09:05", "Second", "Bug #8", "/issues/8")],
            ),
        ],
        None,
    );
    match parse(&html, ymd(2020, 3, 23)).unwrap() {
        PageOutcome::Done(ev) => {
            assert_eq!(2, ev.len());
            assert_eq!(Time { hour: 13, minute: 15, second: 0 }, ev[0].time);
            assert_eq!("Bug #7", ev[0].title);
            assert_eq!("Bug #7", ev[0].short_title);
            assert_eq!(format!("{}/issues/7", SERVER), ev[0].link_url);
            assert_eq!("First", ev[0].description);
            assert_eq!("Redmine", ev[0].source_name);
            assert!(ev[0].word_wrap);
            assert!(ev[0].extra_data.is_none());
            assert_eq!(Time { hour: 9, minute: 5, second: 0 }, ev[1].time);
        }
        PageOutcome::NeedsPreviousPage(_) => panic!("expected the day's events"),
    }
}

#[test]
fn missing_language_is_an_error() {
    let html = feed_html(None, &[day_html("03/23/2020", &[])], None);
    assert!(matches!(parse(&html, ymd(2020, 3, 23)), Err(FeedError::MissingLocale)));
}

#[test]
fn unknown_language_is_an_error() {
    let html = feed_html(Some("tlh"), &[day_html("03/23/2020", &[])], None);
    match parse(&html, ymd(2020, 3, 23)) {
        Err(FeedError::UnknownLocale(tag)) => assert_eq!("tlh", tag),
        _ => panic!("expected an unknown locale"),
    }
}

#[test]
fn unreadable_header_is_a_date_error() {
    let html = feed_html(Some("en"), &[day_html("someday", &[])], None);
    assert!(matches!(parse(&html, ymd(2020, 3, 23)), Err(FeedError::DateParse(_))));
}

#[test]
fn entry_without_description_is_a_scrape_error() {
    let html = feed_html(
        Some("en"),
        &["<h3>03/23/2020</h3><dl><dt class=\"icon\"><span class=\"time\">09:00</span> <a href=\"/issues/1\">Bug #1</a></dt></dl>".to_string()],
        None,
    );
    match parse(&html, ymd(2020, 3, 23)) {
        Err(FeedError::Scrape(msg)) => assert_eq!("Redmine event: no description?", msg),
        _ => panic!("expected a scrape error"),
    }
}

#[test]
fn read_page_collects_the_parts() {
    let html = feed_html(
        Some("de"),
        &[day_html("23.03.2020", &[("09:00", "Fixed", "Bug #3", "/issues/3")])],
        Some("/activity?from=x"),
    );
    let page = read_page(&html, &PageSchema::redmine()).unwrap();
    assert_eq!(Some("de".to_string()), page.lang);
    assert_eq!(vec!["23.03.2020".to_string()], page.headers);
    assert_eq!(vec![vec!["09:00".to_string()]], page.times);
    assert_eq!(vec![vec!["Fixed".to_string()]], page.descriptions);
    assert_eq!(vec![vec!["Bug #3".to_string()]], page.link_texts);
    assert_eq!(vec![vec![Some("/issues/3".to_string())]], page.link_hrefs);
    assert_eq!(Some("/activity?from=x".to_string()), page.previous_href);
}

#[test]
fn login_steps_are_read_from_the_pages() {
    let root = "<html><body><form><input name=\"authenticity_token\" value=\"tok123\"/></form></body></html>";
    assert_eq!("tok123", extract_auth_token(root).unwrap());
    assert!(matches!(extract_auth_token("<html></html>"), Err(FeedError::Scrape(_))));
    let after = "<html><body><a class=\"user active\" href=\"/users/42\">alice</a></body></html>";
    assert_eq!("42", extract_user_id(after).unwrap());
    assert!(matches!(extract_user_id("<html></html>"), Err(FeedError::Scrape(_))));
    assert_eq!(format!("{}/login", SERVER), login_url(&config()));
    assert_eq!(format!("{}/activity?user_id=42", SERVER), activity_url(&config(), "42"));
    let form = login_form(&config(), "tok123");
    assert_eq!(6, form.len());
    assert_eq!(("username".to_string(), "alice".to_string()), form[0]);
    assert_eq!(("utf8".to_string(), "\u{2713}".to_string()), form[3]);
    assert_eq!(("back_url".to_string(), SERVER.to_string()), form[4]);
    assert_eq!(("authenticity_token".to_string(), "tok123".to_string()), form[5]);
}

#[test]
fn text_helpers() {
    assert_eq!("42", remove_all_of("/users/42", "/users/"));
    assert_eq!("ab", remove_all_of("a/users//users/b", "/users/"));
    assert_eq!(
        "<a href=\"https://x/issues/1\">Open in the browser</a>\nFixed &amp; done",
        markup_body("https://x/issues/1", "Fixed &amp; done")
    );
}

#[test]
fn two_page_walk_finds_the_day() {
    let page1 = feed_html(
        Some("en"),
        &[day_html("03/25/2020", &[("10:00", "Later", "Bug #200", "/issues/200")])],
        Some("/activity?from=2020-03-24"),
    );
    let page2 = feed_html(
        Some("en"),
        &[day_html("03/23/2020", &[("09:00", "Fixed bug #123", "Bug #123", "/issues/123")])],
        Some("/activity?from=2020-03-22"),
    );
    let mut walk = Walk::new(config(), Redmine::redmine_locales(), PageSchema::redmine(), ymd(2020, 3, 23), ymd(2020, 3, 26), 365);
    assert!(matches!(walk.step(WalkEvent::CacheLookup(None)), WalkAction::FetchRoot));
    let root = "<html><body><input name=\"authenticity_token\" value=\"tok\"/></body></html>".to_string();
    match walk.step(WalkEvent::RootPage(root)) {
        WalkAction::PostLogin { url, form } => {
            assert_eq!(format!("{}/login", SERVER), url);
            assert_eq!(("authenticity_token".to_string(), "tok".to_string()), form[5]);
        }
        _ => panic!("expected a login"),
    }
    let after = "<html><body><a class=\"user active\" href=\"/users/5\">alice</a></body></html>".to_string();
    match walk.step(WalkEvent::LoginResponse(after)) {
        WalkAction::FetchFeed { url, cache } => {
            assert_eq!(format!("{}/activity?user_id=5", SERVER), url);
            assert!(cache);
        }
        _ => panic!("expected the first feed page"),
    }
    match walk.step(WalkEvent::FeedPage(page1)) {
        WalkAction::FetchFeed { url, cache } => {
            assert_eq!(format!("{}/activity?from=2020-03-24", SERVER), url);
            assert!(!cache);
        }
        _ => panic!("expected the previous page"),
    }
    match walk.step(WalkEvent::FeedPage(page2)) {
        WalkAction::Finish(ev) => {
            assert_eq!(1, ev.len());
            assert_eq!(Time { hour: 9, minute: 0, second: 0 }, ev[0].time);
            assert_eq!("Bug #123", ev[0].title);
            let body = markup_body(&ev[0].link_url, &ev[0].description);
            assert!(body.contains(&format!("{}/issues/123", SERVER)));
        }
        _ => panic!("expected the day's events"),
    }
}

#[test]
fn cache_hit_skips_login() {
    let page = feed_html(
        Some("en"),
        &[day_html("03/23/2020", &[("09:00", "Fixed bug #123", "Bug #123", "/issues/123")])],
        None,
    );
    let mut walk = Walk::new(config(), Redmine::redmine_locales(), PageSchema::redmine(), ymd(2020, 3, 23), ymd(2020, 3, 26), 365);
    match walk.step(WalkEvent::CacheLookup(Some(page))) {
        WalkAction::Finish(ev) => assert_eq!(1, ev.len()),
        _ => panic!("expected the walk to finish from the cached page"),
    }
    assert!(!walk.has_session);
}

#[test]
fn cached_page_pointing_back_asks_for_login_first() {
    let page = feed_html(
        Some("en"),
        &[day_html("03/25/2020", &[("10:00", "Later", "Bug #200", "/issues/200")])],
        Some("/activity?from=2020-03-24"),
    );
    let mut walk = Walk::new(config(), Redmine::redmine_locales(), PageSchema::redmine(), ymd(2020, 3, 23), ymd(2020, 3, 26), 365);
    assert!(matches!(walk.step(WalkEvent::CacheLookup(Some(page))), WalkAction::FetchRoot));
    assert!(!walk.has_session);
    let after = "<html><body><a class=\"user active\" href=\"/users/5\">alice</a></body></html>".to_string();
    match walk.step(WalkEvent::LoginResponse(after)) {
        WalkAction::FetchFeed { url, cache } => {
            assert_eq!(format!("{}/activity?from=2020-03-24", SERVER), url);
            assert!(!cache);
        }
        _ => panic!("expected the pending page"),
    }
    assert!(walk.has_session);
}

#[test]
fn config_fields_round_trip() {
    let fields = config().field_values();
    assert_eq!(
        vec![
            ("Server URL".to_string(), SERVER.to_string()),
            ("Username".to_string(), "alice".to_string()),
            ("Password".to_string(), "SECRET-REDACTED".to_string()),
        ],
        fields
    );
    let back = RedmineConfig::from_field_values(&fields).unwrap();
    assert_eq!(SERVER, back.server_url);
    assert_eq!("alice", back.username);
    assert_eq!("SECRET-REDACTED", back.password);
    assert!(RedmineConfig::from_field_values(&fields[..2].to_vec()).is_none());
}

fn one_block_page(headers: usize, previous: Option<&str>) -> ActivityPage {
    ActivityPage {
        lang: Some("en".to_string()),
        headers: (0..headers).map(|i| format!("h{}", i)).collect(),
        times: vec![vec!["09:00".to_string()]; headers],
        descriptions: vec![vec!["Fixed".to_string()]; headers],
        link_texts: vec![vec!["Bug #1".to_string()]; headers],
        link_hrefs: vec![vec![Some("/issues/1".to_string())]; headers],
        previous_href: previous.map(|p| p.to_string()),
    }
}

#[test]
fn decide_page_follows_the_header_dates() {
    let day = ymd(2020, 3, 23);
    let page = one_block_page(3, Some("/older"));
    let later = Some(ymd(2020, 3, 25));
    let r = Redmine::decide_page(&config(), &page, day, &vec![later, Some(ymd(2020, 3, 20)), None]);
    assert!(matches!(r, Ok(PageOutcome::Done(ref ev)) if ev.is_empty()));
    let r = Redmine::decide_page(&config(), &page, day, &vec![later, None, Some(day)]);
    match r {
        Err(FeedError::DateParse(h)) => assert_eq!("h1", h),
        _ => panic!("expected a date error"),
    }
    let r = Redmine::decide_page(&config(), &page, day, &vec![later, Some(day), None]);
    assert!(matches!(r, Ok(PageOutcome::Done(ref ev)) if ev.len() == 1));
    let r = Redmine::decide_page(&config(), &page, day, &vec![later, later, later]);
    match r {
        Ok(PageOutcome::NeedsPreviousPage(Some(u))) => assert_eq!(format!("{}/older", SERVER), u),
        _ => panic!("expected the older page"),
    }
    let empty = one_block_page(0, None);
    assert!(matches!(
        Redmine::decide_page(&config(), &empty, day, &vec![]),
        Ok(PageOutcome::NeedsPreviousPage(None))
    ));
}

#[test]
fn unpaired_headers_are_ignored() {
    let html = feed_html(
        Some("en"),
        &[
            day_html("03/25/2020", &[("10:00", "Later", "Bug #200", "/issues/200")]),
            "<h3>not a date</h3>".to_string(),
        ],
        None,
    );
    assert!(matches!(parse(&html, ymd(2020, 3, 23)), Ok(PageOutcome::NeedsPreviousPage(None))));
}

#[test]
fn entry_with_bad_time_is_a_time_error() {
    let html = feed_html(Some("en"), &[day_html("03/23/2020", &[("9h", "D", "Bug #1", "/issues/1")])], None);
    assert!(matches!(parse(&html, ymd(2020, 3, 23)), Err(FeedError::TimeParse(_))));
}

#[test]
fn walk_stops_at_the_page_limit() {
    let page = feed_html(
        Some("en"),
        &[day_html("03/25/2020", &[("10:00", "Later", "Bug #200", "/issues/200")])],
        Some("/activity?from=2020-03-24"),
    );
    let mut walk = Walk::new(config(), Redmine::redmine_locales(), PageSchema::redmine(), ymd(2020, 3, 23), ymd(2020, 3, 26), 1);
    walk.has_session = true;
    assert!(matches!(walk.step(WalkEvent::FeedPage(page.clone())), WalkAction::FetchFeed { .. }));
    assert_eq!(0, walk.pages_left);
    assert!(matches!(walk.step(WalkEvent::FeedPage(page)), WalkAction::Fail(FeedError::TooManyPages)));
}

#[test]
fn login_response_without_user_link_fails() {
    let mut walk = Walk::new(config(), Redmine::redmine_locales(), PageSchema::redmine(), ymd(2020, 3, 23), ymd(2020, 3, 26), 365);
    assert!(matches!(
        walk.step(WalkEvent::LoginResponse("<html><body>Invalid user or password</body></html>".to_string())),
        WalkAction::Fail(FeedError::Scrape(_))
    ));
    assert!(!walk.has_session);
    assert!(matches!(
        walk.step(WalkEvent::RootPage("<html></html>".to_string())),
        WalkAction::Fail(FeedError::Scrape(_))
    ));
}
