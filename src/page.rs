use crate::datetime::{chrono_time, date_triple, header_date, time_format_for, Date};
use crate::error::FeedError;
use crate::event::{source_label, Event};
use crate::locale::{LocaleInfo, LocaleTable};
use crate::text::{join2, lower_of};
use crate::{Redmine, RedmineConfig};
use vstd::prelude::*;

verus! {

/// What scraper gives for the inner HTML of each element that `selector`
/// matches in `html`, in document order.
pub uninterp spec fn selected_inner(html: Seq<char>, selector: Seq<char>) -> Seq<Seq<char>>;

/// What scraper gives for the attribute `attr` of each element that `selector`
/// matches in `html`, in document order.
pub uninterp spec fn selected_attr(html: Seq<char>, selector: Seq<char>, attr: Seq<char>) -> Seq<
    Option<Seq<char>>,
>;

/// For each element that `outer` matches in `html`, what scraper gives for the
/// inner HTML of each element below it that `inner` matches.
pub uninterp spec fn nested_inner(html: Seq<char>, outer: Seq<char>, inner: Seq<char>) -> Seq<
    Seq<Seq<char>>,
>;

/// For each element that `outer` matches in `html`, what scraper gives for the
/// attribute `attr` of each element below it that `inner` matches.
pub uninterp spec fn nested_attr(
    html: Seq<char>,
    outer: Seq<char>,
    inner: Seq<char>,
    attr: Seq<char>,
) -> Seq<Seq<Option<Seq<char>>>>;

/// Whether scraper's `Selector::parse` accepts `selector`.
pub uninterp spec fn selector_parses(selector: Seq<char>) -> bool;

/// What scraper gives for the attribute `attr` of the document's root element.
pub uninterp spec fn root_attr_of(html: Seq<char>, attr: Seq<char>) -> Option<Seq<char>>;

pub open spec fn strs_view(v: Seq<String>) -> Seq<Seq<char>> {
    v.map_values(|s: String| s@)
}

pub open spec fn opt_view(o: Option<String>) -> Option<Seq<char>> {
    match o {
        Some(s) => Some(s@),
        None => None,
    }
}

pub open spec fn opts_view(v: Seq<Option<String>>) -> Seq<Option<Seq<char>>> {
    v.map_values(|o: Option<String>| opt_view(o))
}

pub open spec fn nested_view(v: Seq<Vec<String>>) -> Seq<Seq<Seq<char>>> {
    v.map_values(|w: Vec<String>| strs_view(w@))
}

pub open spec fn nested_opts_view(v: Seq<Vec<Option<String>>>) -> Seq<Seq<Option<Seq<char>>>> {
    v.map_values(|w: Vec<Option<String>>| opts_view(w@))
}

/// Relies on scraper's `Html::parse_document`, `Selector::parse`, `Html::select`
/// and `ElementRef::inner_html`: `None` where the selector does not parse.
#[verifier::external_body]
fn select_inner(html: &str, selector: &str) -> (r: Option<Vec<String>>)
    ensures
        r is Some <==> selector_parses(selector@),
        r matches Some(v) ==> strs_view(v@) == selected_inner(html@, selector@),
{
    let doc = scraper::Html::parse_document(html);
    let sel = scraper::Selector::parse(selector).ok()?;
    Some(doc.select(&sel).map(|e| e.inner_html()).collect())
}

/// Relies on scraper's `Html::parse_document`, `Selector::parse`, `Html::select`
/// and `ElementRef::attr`: `None` where the selector does not parse.
#[verifier::external_body]
pub(crate) fn select_attr(html: &str, selector: &str, attr: &str) -> (r: Option<Vec<Option<String>>>)
    ensures
        r is Some <==> selector_parses(selector@),
        r matches Some(v) ==> opts_view(v@) == selected_attr(html@, selector@, attr@),
{
    let doc = scraper::Html::parse_document(html);
    let sel = scraper::Selector::parse(selector).ok()?;
    Some(doc.select(&sel).map(|e| e.attr(attr).map(|a| a.to_string())).collect())
}

/// Relies on scraper's `Html::parse_document`, `Selector::parse`, `Html::select`,
/// `ElementRef::select` and `ElementRef::inner_html`: `None` where a selector
/// does not parse.
#[verifier::external_body]
fn select_nested_inner(html: &str, outer: &str, inner: &str) -> (r: Option<Vec<Vec<String>>>)
    ensures
        (r is Some) == (selector_parses(outer@) && selector_parses(inner@)),
        r matches Some(v) ==> nested_view(v@) == nested_inner(html@, outer@, inner@),
{
    let doc = scraper::Html::parse_document(html);
    let o = scraper::Selector::parse(outer).ok()?;
    let i = scraper::Selector::parse(inner).ok()?;
    Some(doc.select(&o).map(|b| b.select(&i).map(|e| e.inner_html()).collect()).collect())
}

/// Relies on scraper's `Html::parse_document`, `Selector::parse`, `Html::select`,
/// `ElementRef::select` and `ElementRef::attr`: `None` where a selector does
/// not parse.
#[verifier::external_body]
fn select_nested_attr(html: &str, outer: &str, inner: &str, attr: &str) -> (r: Option<
    Vec<Vec<Option<String>>>,
>)
    ensures
        (r is Some) == (selector_parses(outer@) && selector_parses(inner@)),
        r matches Some(v) ==> nested_opts_view(v@) == nested_attr(html@, outer@, inner@, attr@),
{
    let doc = scraper::Html::parse_document(html);
    let o = scraper::Selector::parse(outer).ok()?;
    let i = scraper::Selector::parse(inner).ok()?;
    Some(
        doc.select(&o).map(
            |b| b.select(&i).map(|e| e.attr(attr).map(|a| a.to_string())).collect(),
        ).collect(),
    )
}

/// Relies on scraper's `Html::parse_document`, `Html::root_element` and
/// `ElementRef::attr`.
#[verifier::external_body]
fn root_attr(html: &str, attr: &str) -> (r: Option<String>)
    ensures
        opt_view(r) == root_attr_of(html@, attr@),
{
    let doc = scraper::Html::parse_document(html);
    doc.root_element().attr(attr).map(|a| a.to_string())
}

/// The CSS selectors that locate the parts of an activity page. Keeping them
/// together leaves the reading logic untouched when the server's markup changes.
#[derive(Clone, Debug)]
pub struct PageSchema {
    /// One element per day, whose text is the day's date.
    pub day_header: String,
    /// One element per day, holding that day's events.
    pub day_block: String,
    /// Within a day block: the time of each event.
    pub time: String,
    /// Within a day block: the description of each event.
    pub description: String,
    /// Within a day block: the link to each event's item.
    pub link: String,
    /// The link to the page of older activity.
    pub previous_link: String,
}

impl PageSchema {
    /// The markup of Redmine's activity page.
    pub fn redmine() -> (r: PageSchema)
        ensures
            r.day_header@ == "div#content div#activity h3"@,
            r.day_block@ == "div#content div#activity h3 + dl"@,
            r.time@ == "span.time"@,
            r.description@ == "span.description"@,
            r.link@ == "dt.icon a"@,
            r.previous_link@ == "li.previous.page a"@,
    {
        PageSchema {
            day_header: String::from_str("div#content div#activity h3"),
            day_block: String::from_str("div#content div#activity h3 + dl"),
            time: String::from_str("span.time"),
            description: String::from_str("span.description"),
            link: String::from_str("dt.icon a"),
            previous_link: String::from_str("li.previous.page a"),
        }
    }
}

/// What the logic reads of one activity page, as plain values.
#[derive(Clone, Debug)]
pub struct ActivityPage {
    /// The `lang` attribute of the root element.
    pub lang: Option<String>,
    /// The text of each day header, most recent day first.
    pub headers: Vec<String>,
    /// For each day block, the text of each event time.
    pub times: Vec<Vec<String>>,
    /// For each day block, the text of each event description.
    pub descriptions: Vec<Vec<String>>,
    /// For each day block, the text of each event link.
    pub link_texts: Vec<Vec<String>>,
    /// For each day block, the target of each event link.
    pub link_hrefs: Vec<Vec<Option<String>>>,
    /// The target of the first link to older activity.
    pub previous_href: Option<String>,
}

impl ActivityPage {
    /// The per-block lists run in step: one entry per day block in each, and one
    /// target per link.
    pub open spec fn wf(&self) -> bool {
        &&& self.descriptions@.len() == self.times@.len()
        &&& self.link_texts@.len() == self.times@.len()
        &&& self.link_hrefs@.len() == self.times@.len()
        &&& forall|k: int|
            0 <= k < self.times@.len() ==> #[trigger] self.link_hrefs@[k]@.len()
                == self.link_texts@[k]@.len()
    }

    /// How many (header, block) pairs the page holds.
    pub open spec fn pairs(&self) -> int {
        if self.headers@.len() < self.times@.len() {
            self.headers@.len() as int
        } else {
            self.times@.len() as int
        }
    }
}

pub open spec fn first_or_none(v: Seq<Option<Seq<char>>>) -> Option<Seq<char>> {
    if v.len() > 0 {
        v[0]
    } else {
        None
    }
}

/// What `html` holds, as read through `schema`.
pub open spec fn page_of(html: Seq<char>, schema: PageSchema, p: ActivityPage) -> bool {
    &&& opt_view(p.lang) == root_attr_of(html, "lang"@)
    &&& strs_view(p.headers@) == selected_inner(html, schema.day_header@)
    &&& nested_view(p.times@) == nested_inner(html, schema.day_block@, schema.time@)
    &&& nested_view(p.descriptions@) == nested_inner(html, schema.day_block@, schema.description@)
    &&& nested_view(p.link_texts@) == nested_inner(html, schema.day_block@, schema.link@)
    &&& nested_opts_view(p.link_hrefs@) == nested_attr(
        html,
        schema.day_block@,
        schema.link@,
        "href"@,
    )
    &&& opt_view(p.previous_href) == first_or_none(
        selected_attr(html, schema.previous_link@, "href"@),
    )
}

/// Every selector of `schema` parses.
pub open spec fn schema_parses(schema: PageSchema) -> bool {
    &&& selector_parses(schema.day_header@)
    &&& selector_parses(schema.day_block@)
    &&& selector_parses(schema.time@)
    &&& selector_parses(schema.description@)
    &&& selector_parses(schema.link@)
    &&& selector_parses(schema.previous_link@)
}

/// The per-block lists that `schema` finds in `html` run in step.
pub open spec fn lists_in_step(html: Seq<char>, schema: PageSchema) -> bool {
    let times = nested_inner(html, schema.day_block@, schema.time@);
    let links = nested_inner(html, schema.day_block@, schema.link@);
    let hrefs = nested_attr(html, schema.day_block@, schema.link@, "href"@);
    &&& nested_inner(html, schema.day_block@, schema.description@).len() == times.len()
    &&& links.len() == times.len()
    &&& hrefs.len() == times.len()
    &&& forall|k: int| 0 <= k < times.len() ==> #[trigger] hrefs[k].len() == links[k].len()
}

/// Reads the parts of an activity page that `schema` locates. It fails only
/// where a selector does not parse or the per-block lists are out of step.
pub fn read_page(html: &str, schema: &PageSchema) -> (r: Result<ActivityPage, FeedError>)
    ensures
        r is Ok <==> schema_parses(*schema) && lists_in_step(html@, *schema),
        r matches Ok(p) ==> p.wf() && page_of(html@, *schema, p),
        r matches Err(e) ==> e is Scrape,
{
    let bad = "invalid selector in the page schema";
    let lang = root_attr(html, "lang");
    let headers = match select_inner(html, schema.day_header.as_str()) {
        Some(v) => v,
        None => { return Err(FeedError::Scrape(String::from_str(bad))); },
    };
    let block = schema.day_block.as_str();
    let times = match select_nested_inner(html, block, schema.time.as_str()) {
        Some(v) => v,
        None => { return Err(FeedError::Scrape(String::from_str(bad))); },
    };
    let descriptions = match select_nested_inner(html, block, schema.description.as_str()) {
        Some(v) => v,
        None => { return Err(FeedError::Scrape(String::from_str(bad))); },
    };
    let link_texts = match select_nested_inner(html, block, schema.link.as_str()) {
        Some(v) => v,
        None => { return Err(FeedError::Scrape(String::from_str(bad))); },
    };
    let link_hrefs = match select_nested_attr(html, block, schema.link.as_str(), "href") {
        Some(v) => v,
        None => { return Err(FeedError::Scrape(String::from_str(bad))); },
    };
    let previous = match select_attr(html, schema.previous_link.as_str(), "href") {
        Some(v) => v,
        None => { return Err(FeedError::Scrape(String::from_str(bad))); },
    };
    let previous_href = if previous.len() > 0 {
        match &previous[0] {
            Some(h) => Some(h.clone()),
            None => None,
        }
    } else {
        None
    };
    let n = times.len();
    let ghost hv = nested_attr(html@, schema.day_block@, schema.link@, "href"@);
    let ghost lv = nested_inner(html@, schema.day_block@, schema.link@);
    assert(nested_view(times@).len() == times@.len());
    assert(nested_view(descriptions@).len() == descriptions@.len());
    assert(nested_view(link_texts@).len() == link_texts@.len());
    assert(nested_opts_view(link_hrefs@).len() == link_hrefs@.len());
    if descriptions.len() != n || link_texts.len() != n || link_hrefs.len() != n {
        return Err(FeedError::Scrape(String::from_str("day blocks out of step")));
    }
    let mut k: usize = 0;
    while k < n
        invariant
            n == times@.len(),
            link_texts@.len() == n,
            link_hrefs@.len() == n,
            k <= n,
            hv == nested_opts_view(link_hrefs@),
            hv == nested_attr(html@, schema.day_block@, schema.link@, "href"@),
            nested_view(times@) == nested_inner(html@, schema.day_block@, schema.time@),
            lv == nested_view(link_texts@),
            lv == nested_inner(html@, schema.day_block@, schema.link@),
            forall|j: int| 0 <= j < k ==> #[trigger] link_hrefs@[j]@.len() == link_texts@[j]@.len(),
        decreases n - k,
    {
        assert(hv[k as int] == opts_view(link_hrefs@[k as int]@));
        assert(lv[k as int] == strs_view(link_texts@[k as int]@));
        if link_hrefs[k].len() != link_texts[k].len() {
            assert(hv[k as int].len() != lv[k as int].len());
            assert(nested_inner(html@, schema.day_block@, schema.time@).len() == n);
            assert(!lists_in_step(html@, *schema)) by {
                let hrefs = nested_attr(html@, schema.day_block@, schema.link@, "href"@);
                let links = nested_inner(html@, schema.day_block@, schema.link@);
                assert(hrefs[k as int].len() != links[k as int].len());
            }
            return Err(FeedError::Scrape(String::from_str("links out of step")));
        }
        k = k + 1;
    }
    assert forall|j: int| 0 <= j < hv.len() implies #[trigger] hv[j].len() == lv[j].len() by {
        assert(hv[j] == opts_view(link_hrefs@[j]@));
        assert(lv[j] == strs_view(link_texts@[j]@));
    }
    Ok(ActivityPage { lang, headers, times, descriptions, link_texts, link_hrefs, previous_href })
}

/// What a page tells of the target day.
#[derive(Clone, Debug)]
pub enum PageOutcome {
    /// The day's events were found, or the feed has passed the day.
    Done(Vec<Event>),
    /// The day was not reached on this page: the address of the page of older
    /// activity, or `None` where there is none.
    NeedsPreviousPage(Option<String>),
}

pub open spec fn href_or_empty(h: Option<Seq<char>>) -> Seq<char> {
    match h {
        Some(s) => s,
        None => Seq::empty(),
    }
}

/// `e` is the event that the `i`-th entry of day block `k` describes.
pub open spec fn event_from(config: RedmineConfig, page: ActivityPage, k: int, i: int, e: Event) -> bool {
    &&& e.source_name@ == source_label()
    &&& chrono_time(page.times@[k]@[i]@, time_format_for(page.times@[k]@[i]@)) == Some(
        (e.time.hour as int, e.time.minute as int, e.time.second as int),
    )
    &&& e.time.wf()
    &&& e.title@ == page.link_texts@[k]@[i]@
    &&& e.short_title@ == page.link_texts@[k]@[i]@
    &&& e.link_url@ == config.server_url@ + href_or_empty(opt_view(page.link_hrefs@[k]@[i]))
    &&& e.description@ == page.descriptions@[k]@[i]@
    &&& e.word_wrap
    &&& e.extra_data is None
}

/// Entry `i` of day block `k` can be read: its time parses, and it has a
/// description and a link.
pub open spec fn entry_readable(page: ActivityPage, k: int, i: int) -> bool {
    &&& chrono_time(page.times@[k]@[i]@, time_format_for(page.times@[k]@[i]@)) is Some
    &&& i < page.descriptions@[k]@.len()
    &&& i < page.link_texts@[k]@.len()
}

/// The events of day block `k`, one per entry of its time list.
pub open spec fn block_events(config: RedmineConfig, page: ActivityPage, k: int, ev: Seq<Event>) -> bool {
    &&& ev.len() == page.times@[k]@.len()
    &&& forall|i: int| 0 <= i < ev.len() ==> #[trigger] event_from(config, page, k, i, ev[i])
}

/// Entry `i` of day block `k` is the first that cannot be read, and `e` is the
/// error that reports it: a time error where its time does not parse, else a
/// markup error for the missing description or link.
pub open spec fn first_unreadable(page: ActivityPage, k: int, i: int, e: FeedError) -> bool {
    &&& 0 <= i < page.times@[k]@.len()
    &&& !entry_readable(page, k, i)
    &&& forall|j: int| 0 <= j < i ==> #[trigger] entry_readable(page, k, j)
    &&& if chrono_time(page.times@[k]@[i]@, time_format_for(page.times@[k]@[i]@)) is None {
        e is TimeParse
    } else {
        e is Scrape
    }
}

/// The address of the page of older activity, if the page links to one.
pub open spec fn previous_url(config: RedmineConfig, page: ActivityPage) -> Option<Seq<char>> {
    match page.previous_href {
        Some(h) => Some(config.server_url@ + h@),
        None => None,
    }
}

/// `o` is what `parse_date` may give for a header `text`: `today` for the
/// locale's word for "today"; else the date that the text names, or `None`
/// where it names none or the date fails the time-zone check.
pub open spec fn date_fits(locale: LocaleInfo, text: Seq<char>, today: Date, o: Option<Date>) -> bool {
    if lower_of(text) == locale.today_word@ {
        o == Some(today)
    } else {
        match o {
            Some(d) => d.wf() && header_date(locale.date_format@, text) == Some(date_triple(d)),
            None => true,
        }
    }
}

/// `dates` holds, for each (header, block) pair of the page, what reading its
/// header gave.
pub open spec fn dates_fit(locale: LocaleInfo, page: ActivityPage, today: Date, dates: Seq<Option<Date>>) -> bool {
    &&& dates.len() == page.pairs()
    &&& forall|j: int| 0 <= j < dates.len() ==> #[trigger] date_fits(locale, page.headers@[j]@, today, dates[j])
}

/// Where the scan of the header dates, from position `k` on, stops: at the
/// first date that is unreadable or not after `day`, or at the end.
pub open spec fn first_stop(day: Date, dates: Seq<Option<Date>>, k: int) -> int
    decreases dates.len() - k,
{
    if k < 0 || k >= dates.len() {
        dates.len() as int
    } else {
        match dates[k] {
            Some(d) => if d.key() > day.key() {
                first_stop(day, dates, k + 1)
            } else {
                k
            },
            None => k,
        }
    }
}

/// `r` is the answer for day block `k`: its events where every entry can be
/// read, else the error for the first entry that cannot.
pub open spec fn block_answer(config: RedmineConfig, page: ActivityPage, k: int, r: Result<PageOutcome, FeedError>) -> bool {
    if forall|i: int| 0 <= i < page.times@[k]@.len() ==> #[trigger] entry_readable(page, k, i) {
        r matches Ok(PageOutcome::Done(ev)) && block_events(config, page, k, ev@)
    } else {
        r matches Err(e) && exists|i: int| #[trigger] first_unreadable(page, k, i, e)
    }
}

/// `r` is what the page tells of `day`, given the date of each header. The
/// scan stops at the first header that is unreadable (a date error), names an
/// earlier day (done, no events) or names `day` (that block's answer). Where
/// it runs out, the answer is the page of older activity.
pub open spec fn page_result(
    config: RedmineConfig,
    page: ActivityPage,
    day: Date,
    dates: Seq<Option<Date>>,
    r: Result<PageOutcome, FeedError>,
) -> bool {
    let s = first_stop(day, dates, 0);
    if s >= dates.len() {
        r matches Ok(PageOutcome::NeedsPreviousPage(u)) && opt_view(u) == previous_url(config, page)
    } else {
        match dates[s] {
            None => r matches Err(FeedError::DateParse(_)),
            Some(d) => if d.key() < day.key() {
                r matches Ok(PageOutcome::Done(ev)) && ev@.len() == 0
            } else {
                block_answer(config, page, s, r)
            },
        }
    }
}

/// `i` is the first entry of the table for `tag`.
pub open spec fn locale_index(locales: LocaleTable, tag: Seq<char>, i: int) -> bool {
    &&& 0 <= i < locales.entries@.len()
    &&& locales.entries@[i].0@ == tag
    &&& forall|j: int| 0 <= j < i ==> locales.entries@[j].0@ != tag
}

/// Two dates of the calendar with equal keys are equal.
pub proof fn lemma_key_injective(a: Date, b: Date)
    requires
        a.wf(),
        b.wf(),
        a.key() == b.key(),
    ensures
        a == b,
{
    assert(a.year == b.year && a.month == b.month && a.day == b.day) by (nonlinear_arith)
        requires
            1 <= a.month <= 12,
            1 <= a.day <= 31,
            1 <= b.month <= 12,
            1 <= b.day <= 31,
            (a.year as int) * 512 + (a.month as int) * 32 + (a.day as int) == (b.year as int) * 512
                + (b.month as int) * 32 + (b.day as int),
    ;
}

/// The scan stops where `first_stop` says: from any position `j` up to a
/// stop `k` whose dates before are all later than `day`.
pub proof fn lemma_first_stop_skips(day: Date, dates: Seq<Option<Date>>, j: int, k: int)
    requires
        0 <= j <= k <= dates.len(),
        forall|t: int| j <= t < k ==> (#[trigger] dates[t] matches Some(d) && d.key() > day.key()),
    ensures
        first_stop(day, dates, j) == first_stop(day, dates, k),
    decreases k - j,
{
    if j < k {
        lemma_first_stop_skips(day, dates, j + 1, k);
    }
}

impl Redmine {
    /// Where a selector of `schema` does not parse or the page's lists are out
    /// of step, `r` is a markup error; else `r` is what the page that `html`
    /// holds tells of `day`, as `page_decides` states it.
    pub open spec fn html_decides(
        config: RedmineConfig,
        locales: LocaleTable,
        schema: PageSchema,
        day: Date,
        today: Date,
        html: Seq<char>,
        r: Result<PageOutcome, FeedError>,
    ) -> bool {
        if schema_parses(schema) && lists_in_step(html, schema) {
            exists|p: ActivityPage|
                p.wf() && page_of(html, schema, p) && #[trigger] Self::page_decides(config, locales, day, today, p, r)
        } else {
            r matches Err(FeedError::Scrape(_))
        }
    }

    /// A page without a language fails; one in a language that the table does
    /// not know fails; else `r` is what the headers, read in that language, tell
    /// of `day`, for what reading each header gave.
    pub open spec fn page_decides(
        config: RedmineConfig,
        locales: LocaleTable,
        day: Date,
        today: Date,
        page: ActivityPage,
        r: Result<PageOutcome, FeedError>,
    ) -> bool {
        match page.lang {
            None => r matches Err(FeedError::MissingLocale),
            Some(tag) => if exists|i: int| locale_index(locales, tag@, i) {
                exists|i: int, dates: Seq<Option<Date>>|
                    #![trigger locale_index(locales, tag@, i), page_result(config, page, day, dates, r)]
                    locale_index(locales, tag@, i) && dates_fit(locales.entries@[i].1, page, today, dates)
                        && page_result(config, page, day, dates, r)
            } else {
                r matches Err(FeedError::UnknownLocale(_))
            },
        }
    }

    /// The events of day block `k`: one per time entry, with the description and
    /// link found at the same position.
    pub fn parse_events(config: &RedmineConfig, page: &ActivityPage, k: usize) -> (r: Result<Vec<Event>, FeedError>)
        requires
            page.wf(),
            k < page.times@.len(),
        ensures
            r matches Ok(ev) ==> block_events(*config, *page, k as int, ev@),
            r is Ok <==> forall|i: int| 0 <= i < page.times@[k as int]@.len() ==> #[trigger] entry_readable(*page, k as int, i),
            r matches Err(e) ==> exists|i: int| #[trigger] first_unreadable(*page, k as int, i, e),
    {
        let times = &page.times[k];
        let descriptions = &page.descriptions[k];
        let links = &page.link_texts[k];
        let hrefs = &page.link_hrefs[k];
        let mut result: Vec<Event> = Vec::new();
        let mut i: usize = 0;
        while i < times.len()
            invariant
                page.wf(),
                k < page.times@.len(),
                times == &page.times@[k as int],
                descriptions == &page.descriptions@[k as int],
                links == &page.link_texts@[k as int],
                hrefs == &page.link_hrefs@[k as int],
                i <= times@.len(),
                result@.len() == i,
                forall|j: int| 0 <= j < i ==> #[trigger] event_from(*config, *page, k as int, j, result@[j]),
                forall|j: int| 0 <= j < i ==> #[trigger] entry_readable(*page, k as int, j),
            decreases times.len() - i,
        {
            let time = match Self::parse_time(times[i].as_str()) {
                Ok(t) => t,
                Err(e) => {
                    assert(first_unreadable(*page, k as int, i as int, e));
                    return Err(e);
                },
            };
            if i >= descriptions.len() {
                let e = FeedError::Scrape(String::from_str("Redmine event: no description?"));
                assert(first_unreadable(*page, k as int, i as int, e));
                return Err(e);
            }
            if i >= links.len() {
                let e = FeedError::Scrape(String::from_str("Redmine event: no link?"));
                assert(first_unreadable(*page, k as int, i as int, e));
                return Err(e);
            }
            assert(page.link_hrefs@[k as int]@.len() == page.link_texts@[k as int]@.len());
            let link_url = match &hrefs[i] {
                Some(h) => join2(config.server_url.as_str(), h.as_str()),
                None => join2(config.server_url.as_str(), ""),
            };
            proof {
                reveal_strlit("");
            }
            let e = Event {
                source_name: String::from_str("Redmine"),
                time,
                title: links[i].clone(),
                short_title: links[i].clone(),
                link_url,
                description: descriptions[i].clone(),
                word_wrap: true,
                extra_data: None,
            };
            result.push(e);
            assert(event_from(*config, *page, k as int, i as int, result@[i as int]));
            assert(entry_readable(*page, k as int, i as int));
            i = i + 1;
        }
        Ok(result)
    }

    /// Decides what a page tells of `day` from the date of each of its
    /// headers (`None` for one that could not be read). Day headers run from the
    /// most recent day back: the first header that names `day` gives that day's
    /// events; the first that names an earlier day shows that the day had none.
    /// Where no header decides, the page of older activity is to be read.
    pub fn decide_page(config: &RedmineConfig, page: &ActivityPage, day: Date, dates: &Vec<Option<Date>>) -> (r: Result<PageOutcome, FeedError>)
        requires
            page.wf(),
            day.wf(),
            dates@.len() == page.pairs(),
            forall|j: int| 0 <= j < dates@.len() ==> (#[trigger] dates@[j] matches Some(d) ==> d.wf()),
        ensures
            page_result(*config, *page, day, dates@, r),
    {
        let n = dates.len();
        let mut k: usize = 0;
        while k < n
            invariant
                n == dates@.len(),
                n == page.pairs(),
                k <= n,
                page.wf(),
                day.wf(),
                forall|j: int| 0 <= j < dates@.len() ==> (#[trigger] dates@[j] matches Some(d) ==> d.wf()),
                first_stop(day, dates@, 0) == first_stop(day, dates@, k as int),
            decreases n - k,
        {
            match dates[k] {
                None => {
                    return Err(FeedError::DateParse(page.headers[k].clone()));
                },
                Some(d) => {
                    assert(dates@[k as int] == Some(d));
                    if d.is_before(&day) {
                        return Ok(PageOutcome::Done(Vec::new()));
                    }
                    if d == day {
                        let r = match Self::parse_events(config, page, k) {
                            Ok(ev) => Ok(PageOutcome::Done(ev)),
                            Err(e) => Err(e),
                        };
                        return r;
                    }
                    proof {
                        if d.key() == day.key() {
                            lemma_key_injective(d, day);
                        }
                    }
                    assert(first_stop(day, dates@, k as int) == first_stop(day, dates@, k + 1));
                },
            }
            k = k + 1;
        }
        match &page.previous_href {
            Some(h) => Ok(PageOutcome::NeedsPreviousPage(Some(join2(config.server_url.as_str(), h.as_str())))),
            None => Ok(PageOutcome::NeedsPreviousPage(None)),
        }
    }

    /// Decides what one activity page tells of `day`: the page's language picks
    /// the locale that its headers are read in.
    pub fn parse_page(
        config: &RedmineConfig,
        locales: &LocaleTable,
        day: Date,
        today: Date,
        page: &ActivityPage,
    ) -> (r: Result<PageOutcome, FeedError>)
        requires
            page.wf(),
            day.wf(),
            today.wf(),
        ensures
            page.lang is None ==> r matches Err(FeedError::MissingLocale),
            page.lang is Some ==> !(r matches Err(FeedError::MissingLocale)),
            page.lang matches Some(tag) ==> (r matches Err(FeedError::UnknownLocale(_))
                <==> forall|i: int| 0 <= i < locales.entries@.len() ==> locales.entries@[i].0@ != tag@),
            Self::page_decides(*config, *locales, day, today, *page, r),
    {
        let tag = match &page.lang {
            Some(t) => t,
            None => { return Err(FeedError::MissingLocale); },
        };
        let locale = match locales.get(tag.as_str()) {
            Some(l) => l,
            None => {
                assert(forall|i: int| !locale_index(*locales, tag@, i));
                return Err(FeedError::UnknownLocale(tag.clone()));
            },
        };
        let ghost li = choose|i: int|
            0 <= i < locales.entries@.len() && locales.entries@[i].0@ == tag@ && *locale
                == locales.entries@[i].1 && forall|j: int| 0 <= j < i ==> locales.entries@[j].0@ != tag@;
        assert(locale_index(*locales, tag@, li));
        let n: usize = if page.headers.len() < page.times.len() {
            page.headers.len()
        } else {
            page.times.len()
        };
        let mut dates: Vec<Option<Date>> = Vec::new();
        let mut k: usize = 0;
        while k < n
            invariant
                n == page.pairs(),
                k <= n,
                today.wf(),
                dates@.len() == k,
                forall|j: int| 0 <= j < k ==> (#[trigger] dates@[j] matches Some(d) ==> d.wf()),
                forall|j: int| 0 <= j < k ==> #[trigger] date_fits(*locale, page.headers@[j]@, today, dates@[j]),
            decreases n - k,
        {
            let o = match Self::parse_date(locale, page.headers[k].as_str(), today) {
                Ok(d) => Some(d),
                Err(_) => None,
            };
            dates.push(o);
            assert(date_fits(*locale, page.headers@[k as int]@, today, dates@[k as int]));
            k = k + 1;
        }
        let r = Self::decide_page(config, page, day, &dates);
        assert(dates_fit(*locale, *page, today, dates@));
        assert(page_result(*config, *page, day, dates@, r));
        assert(locale_index(*locales, tag@, li) && dates_fit(locales.entries@[li].1, *page, today, dates@)
            && page_result(*config, *page, day, dates@, r));
        r
    }

    /// Reads an activity page through `schema` and decides what it tells of `day`.
    pub fn parse_html(
        config: &RedmineConfig,
        locales: &LocaleTable,
        schema: &PageSchema,
        day: Date,
        today: Date,
        html: &str,
    ) -> (r: Result<PageOutcome, FeedError>)
        requires
            day.wf(),
            today.wf(),
        ensures
            Self::html_decides(*config, *locales, *schema, day, today, html@, r),
    {
        let page = read_page(html, schema)?;
        let r = Self::parse_page(config, locales, day, today, &page);
        assert(Self::page_decides(*config, *locales, day, today, page, r));
        r
    }
}

/// Once the scan reaches a header that names a day before the target, with every
/// header above it naming a later day, the page's answer is "done, with no
/// events".
pub proof fn lemma_earlier_header_gives_no_events(
    config: RedmineConfig,
    page: ActivityPage,
    day: Date,
    dates: Seq<Option<Date>>,
    k: int,
    r: Result<PageOutcome, FeedError>,
)
    requires
        0 <= k < dates.len(),
        forall|t: int| 0 <= t < k ==> (#[trigger] dates[t] matches Some(d) && d.key() > day.key()),
        dates[k] matches Some(d) && d.key() < day.key(),
        page_result(config, page, day, dates, r),
    ensures
        r matches Ok(PageOutcome::Done(ev)) && ev@.len() == 0,
{
    lemma_first_stop_skips(day, dates, 0, k);
}

/// A page whose headers all name days after the target answers with its link
/// to older activity: the server address followed by the link's target, or
/// `None` where the page has no such link.
pub proof fn lemma_later_headers_give_previous_page(
    config: RedmineConfig,
    page: ActivityPage,
    day: Date,
    dates: Seq<Option<Date>>,
    r: Result<PageOutcome, FeedError>,
)
    requires
        forall|t: int| 0 <= t < dates.len() ==> (#[trigger] dates[t] matches Some(d) && d.key() > day.key()),
        page_result(config, page, day, dates, r),
    ensures
        r matches Ok(PageOutcome::NeedsPreviousPage(u)) && opt_view(u) == previous_url(config, page),
{
    lemma_first_stop_skips(day, dates, 0, dates.len() as int);
}

/// The header that names the target day, with every header above it naming a
/// later day, gives that day block's answer.
pub proof fn lemma_matching_header_gives_its_block(
    config: RedmineConfig,
    page: ActivityPage,
    day: Date,
    dates: Seq<Option<Date>>,
    k: int,
    r: Result<PageOutcome, FeedError>,
)
    requires
        0 <= k < dates.len(),
        forall|t: int| 0 <= t < k ==> (#[trigger] dates[t] matches Some(d) && d.key() > day.key()),
        dates[k] == Some(day),
        page_result(config, page, day, dates, r),
    ensures
        block_answer(config, page, k, r),
{
    lemma_first_stop_skips(day, dates, 0, k);
}

} // verus!
