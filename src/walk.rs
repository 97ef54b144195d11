use crate::datetime::Date;
use crate::error::FeedError;
use crate::event::Event;
use crate::locale::LocaleTable;
use crate::login::{
    activity_url, extract_auth_token, extract_user_id, login_fields, login_form, login_url, pair_view,
    token_selector, user_selector,
};
use crate::page::{first_or_none, selected_attr, selector_parses, PageOutcome, PageSchema};
use crate::text::remove_all;
use crate::{Redmine, RedmineConfig};
use vstd::prelude::*;

verus! {

/// What the caller learned by carrying out the last action of a walk.
#[derive(Clone, Debug)]
pub enum WalkEvent {
    /// What the cache holds for the end of the target day.
    CacheLookup(Option<String>),
    /// The server's root page, which holds the login form.
    RootPage(String),
    /// The page that the server returned for the login form.
    LoginResponse(String),
    /// An activity feed page.
    FeedPage(String),
}

/// What the caller is to do next.
#[derive(Clone, Debug)]
pub enum WalkAction {
    /// Open a new session and fetch the server's root page with it.
    FetchRoot,
    /// Post `form` to `url` with the session.
    PostLogin { url: String, form: Vec<(String, String)> },
    /// Fetch `url` with the session; where `cache` holds, write the page to the
    /// cache too.
    FetchFeed { url: String, cache: bool },
    /// The walk is over: these are the day's events.
    Finish(Vec<Event>),
    /// The walk is over: it failed.
    Fail(FeedError),
}

/// A walk back through the activity feed, page by page, until the target day
/// is found or the feed has no older page. The caller performs each action
/// that `step` asks for and hands back what came of it.
pub struct Walk {
    pub config: RedmineConfig,
    pub locales: LocaleTable,
    pub schema: PageSchema,
    /// The target day.
    pub day: Date,
    /// The current date, which the locale's word for "today" stands for.
    pub today: Date,
    /// Whether the caller holds a logged-in session.
    pub has_session: bool,
    /// How many more older pages the walk may follow, so that a cycle of
    /// "previous" links cannot keep it going forever.
    pub pages_left: u64,
    /// The page to fetch once logged in; `None` for the first feed page.
    pub pending: Option<String>,
}

pub open spec fn form_view(f: Vec<(String, String)>) -> Seq<(Seq<char>, Seq<char>)> {
    f@.map_values(|p: (String, String)| pair_view(p))
}

/// The action that a walk takes on what a feed page told of the day, given
/// whether a session is open and how many older pages it may still follow.
pub open spec fn action_for(
    outcome: Result<PageOutcome, FeedError>,
    has_session: bool,
    pages_left: u64,
    a: WalkAction,
) -> bool {
    match outcome {
        Err(e) => a == WalkAction::Fail(e),
        Ok(PageOutcome::Done(ev)) => a == WalkAction::Finish(ev),
        Ok(PageOutcome::NeedsPreviousPage(None)) => a matches WalkAction::Finish(ev) && ev@.len() == 0,
        Ok(PageOutcome::NeedsPreviousPage(Some(u))) => if pages_left == 0 {
            a matches WalkAction::Fail(e) && e is TooManyPages
        } else if has_session {
            a matches WalkAction::FetchFeed { url, cache } && url@ == u@ && !cache
        } else {
            a is FetchRoot
        },
    }
}

/// The root page `h` holds an anti-forgery token.
pub open spec fn has_token(h: Seq<char>) -> bool {
    selector_parses(token_selector()) && first_or_none(selected_attr(h, token_selector(), "value"@)) is Some
}

/// The login response `h` holds the active-user link.
pub open spec fn has_user_link(h: Seq<char>) -> bool {
    selector_parses(user_selector()) && first_or_none(selected_attr(h, user_selector(), "href"@)) is Some
}

/// What follows the root page `h`: the login form, with the page's
/// anti-forgery token, posted to the login address; or a failure where the
/// page has no token.
pub open spec fn login_post_for(config: RedmineConfig, h: Seq<char>, r: WalkAction) -> bool {
    match r {
        WalkAction::Fail(e) => e is Scrape && !has_token(h),
        WalkAction::PostLogin { url, form } => url@ == config.server_url@ + "/login"@ && match first_or_none(
            selected_attr(h, token_selector(), "value"@),
        ) {
            Some(t) => form_view(form) == login_fields(config, t),
            None => false,
        },
        _ => false,
    }
}

/// What follows a login whose response is `h`: the page that was waiting for
/// it, or else the first page of the user's feed, which is to be cached.
pub open spec fn feed_after_login(config: RedmineConfig, pending: Option<String>, h: Seq<char>, r: WalkAction) -> bool {
    match r {
        WalkAction::FetchFeed { url, cache } => match pending {
            Some(u) => url == u && !cache,
            None => cache && match first_or_none(selected_attr(h, user_selector(), "href"@)) {
                Some(l) => url@ == config.server_url@ + "/activity?user_id="@ + remove_all(l, "/users/"@),
                None => false,
            },
        },
        _ => false,
    }
}

impl Walk {
    pub open spec fn wf(&self) -> bool {
        self.day.wf() && self.today.wf()
    }

    /// A walk towards `day`, with no session open yet, that follows at most
    /// `max_pages` older pages.
    pub fn new(
        config: RedmineConfig,
        locales: LocaleTable,
        schema: PageSchema,
        day: Date,
        today: Date,
        max_pages: u64,
    ) -> (r: Walk)
        requires
            day.wf(),
            today.wf(),
        ensures
            r.wf(),
            r.config == config,
            r.locales == locales,
            r.schema == schema,
            r.day == day,
            r.today == today,
            !r.has_session,
            r.pending is None,
            r.pages_left == max_pages,
    {
        Walk { config, locales, schema, day, today, has_session: false, pages_left: max_pages, pending: None }
    }

    /// The action on what a feed page told of the day: its events end the walk,
    /// as does a page with no older page, which gives no events; an older page
    /// is fetched, after a login where no session is open.
    pub fn next_action(&mut self, outcome: Result<PageOutcome, FeedError>) -> (r: WalkAction)
        ensures
            action_for(outcome, old(self).has_session, old(self).pages_left, r),
            final(self).pages_left == if outcome matches Ok(PageOutcome::NeedsPreviousPage(Some(_)))
                && old(self).pages_left > 0 {
                (old(self).pages_left - 1) as u64
            } else {
                old(self).pages_left
            },
            final(self).has_session == old(self).has_session,
            final(self).config == old(self).config,
            final(self).locales == old(self).locales,
            final(self).schema == old(self).schema,
            final(self).day == old(self).day,
            final(self).today == old(self).today,
            r is FetchRoot ==> (outcome matches Ok(PageOutcome::NeedsPreviousPage(Some(u)))
                && final(self).pending == Some(u)),
    {
        match outcome {
            Err(e) => WalkAction::Fail(e),
            Ok(PageOutcome::Done(ev)) => WalkAction::Finish(ev),
            Ok(PageOutcome::NeedsPreviousPage(None)) => WalkAction::Finish(Vec::new()),
            Ok(PageOutcome::NeedsPreviousPage(Some(u))) => {
                if self.pages_left == 0 {
                    return WalkAction::Fail(FeedError::TooManyPages);
                }
                self.pages_left = self.pages_left - 1;
                if self.has_session {
                    WalkAction::FetchFeed { url: u, cache: false }
                } else {
                    self.pending = Some(u);
                    WalkAction::FetchRoot
                }
            },
        }
    }

    /// Takes the walk one step on from what the caller learned.
    pub fn step(&mut self, event: WalkEvent) -> (r: WalkAction)
        requires
            old(self).wf(),
        ensures
            final(self).wf(),
            final(self).config == old(self).config,
            final(self).locales == old(self).locales,
            final(self).schema == old(self).schema,
            final(self).day == old(self).day,
            final(self).today == old(self).today,
            event is CacheLookup || event is FeedPage ==> final(self).has_session == old(self).has_session,
            final(self).pages_left <= old(self).pages_left,
            (event is FeedPage || event is CacheLookup) && (r is FetchFeed || r is FetchRoot) && !(
            event matches WalkEvent::CacheLookup(None)) ==> final(self).pages_left < old(self).pages_left,
            (event is FeedPage || (event matches WalkEvent::CacheLookup(c) && c is Some)) && r is FetchRoot
                ==> final(self).pending is Some,
            event matches WalkEvent::CacheLookup(None) ==> r is FetchRoot && final(self).pending is None,
            event matches WalkEvent::CacheLookup(Some(h)) ==> exists|o: Result<PageOutcome, FeedError>|
                Redmine::html_decides(old(self).config, old(self).locales, old(self).schema, old(self).day, old(self).today, h@, o)
                && #[trigger] action_for(o, old(self).has_session, old(self).pages_left, r),
            event matches WalkEvent::FeedPage(h) ==> exists|o: Result<PageOutcome, FeedError>|
                Redmine::html_decides(old(self).config, old(self).locales, old(self).schema, old(self).day, old(self).today, h@, o)
                && #[trigger] action_for(o, old(self).has_session, old(self).pages_left, r),
            event matches WalkEvent::RootPage(h) ==> login_post_for(old(self).config, h@, r),
            event matches WalkEvent::LoginResponse(h) ==> (r matches WalkAction::Fail(e) && e is Scrape
                && !has_user_link(h@)) || (has_user_link(h@) && 
                final(self).has_session && final(self).pending is None && feed_after_login(
                old(self).config,
                old(self).pending,
                h@,
                r,
            )),
    {
        match event {
            WalkEvent::CacheLookup(None) => {
                self.pending = None;
                WalkAction::FetchRoot
            },
            WalkEvent::CacheLookup(Some(h)) | WalkEvent::FeedPage(h) => {
                let o = Redmine::parse_html(&self.config, &self.locales, &self.schema, self.day, self.today, h.as_str());
                let ghost og = o;
                let r = self.next_action(o);
                assert(action_for(og, old(self).has_session, old(self).pages_left, r));
                r
            },
            WalkEvent::RootPage(h) => {
                match extract_auth_token(h.as_str()) {
                    Ok(t) => WalkAction::PostLogin { url: login_url(&self.config), form: login_form(&self.config, t.as_str()) },
                    Err(e) => WalkAction::Fail(e),
                }
            },
            WalkEvent::LoginResponse(h) => {
                let id = match extract_user_id(h.as_str()) {
                    Ok(id) => id,
                    Err(e) => { return WalkAction::Fail(e); },
                };
                self.has_session = true;
                match self.pending.take() {
                    Some(u) => WalkAction::FetchFeed { url: u, cache: false },
                    None => WalkAction::FetchFeed { url: activity_url(&self.config, id.as_str()), cache: true },
                }
            },
        }
    }
}

/// Without an open session, as after a page was found in the cache, a page is
/// read without logging in: the walk asks for a login only where the page
/// points to an older page, and never fetches a page without one.
pub proof fn lemma_cached_page_needs_no_login(
    outcome: Result<PageOutcome, FeedError>,
    pages_left: u64,
    r: WalkAction,
)
    requires
        action_for(outcome, false, pages_left, r),
    ensures
        !(r is PostLogin),
        !(r is FetchFeed),
        r is FetchRoot ==> outcome matches Ok(PageOutcome::NeedsPreviousPage(Some(_))),
{
}

/// A page with no match and no older page ends the walk with no events.
pub proof fn lemma_last_page_without_match_is_empty(has_session: bool, pages_left: u64, r: WalkAction)
    requires
        action_for(Ok(PageOutcome::NeedsPreviousPage(None)), has_session, pages_left, r),
    ensures
        r matches WalkAction::Finish(ev) && ev@.len() == 0,
{
}

} // verus!
