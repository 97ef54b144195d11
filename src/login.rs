use crate::error::FeedError;
use crate::page::{first_or_none, select_attr, selected_attr, selector_parses};
use crate::text::{join2, remove_all, remove_all_of};
use crate::RedmineConfig;
use vstd::prelude::*;

verus! {

pub open spec fn token_selector() -> Seq<char> {
    "input[name=authenticity_token]"@
}

pub open spec fn user_selector() -> Seq<char> {
    "a.user.active"@
}

/// The anti-forgery token of the login form: the `value` of the first
/// `authenticity_token` input of the server's root page.
pub fn extract_auth_token(html: &str) -> (r: Result<String, FeedError>)
    ensures
        r is Ok <==> selector_parses(token_selector()) && first_or_none(
            selected_attr(html@, token_selector(), "value"@),
        ) is Some,
        r matches Ok(t) ==> first_or_none(selected_attr(html@, token_selector(), "value"@)) == Some(t@),
        r matches Err(e) ==> e is Scrape,
{
    let found = match select_attr(html, "input[name=authenticity_token]", "value") {
        Some(v) => v,
        None => { return Err(FeedError::Scrape(String::from_str("invalid token selector"))); },
    };
    if found.len() > 0 {
        match &found[0] {
            Some(t) => { return Ok(t.clone()); },
            None => {},
        }
    }
    Err(FeedError::Scrape(String::from_str("missing auth token")))
}

/// The user id on the page that the login returns: the target of the first
/// active-user link, with every `/users/` taken out.
pub fn extract_user_id(html: &str) -> (r: Result<String, FeedError>)
    ensures
        r is Ok <==> selector_parses(user_selector()) && first_or_none(
            selected_attr(html@, user_selector(), "href"@),
        ) is Some,
        r matches Ok(id) ==> first_or_none(selected_attr(html@, user_selector(), "href"@)) matches Some(h)
            && id@ == remove_all(h, "/users/"@),
        r matches Err(e) ==> e is Scrape,
{
    let found = match select_attr(html, "a.user.active", "href") {
        Some(v) => v,
        None => { return Err(FeedError::Scrape(String::from_str("invalid user selector"))); },
    };
    if found.len() == 0 {
        return Err(FeedError::Scrape(String::from_str("Failed getting the user id#1")));
    }
    match &found[0] {
        Some(h) => {
            proof {
                reveal_strlit("/users/");
            }
            Ok(remove_all_of(h.as_str(), "/users/"))
        },
        None => Err(FeedError::Scrape(String::from_str("Failed getting the user id#2"))),
    }
}

/// The address that the login form is posted to.
pub fn login_url(config: &RedmineConfig) -> (r: String)
    ensures
        r@ == config.server_url@ + "/login"@,
{
    join2(config.server_url.as_str(), "/login")
}

/// The address of the activity feed of user `user_id`.
pub fn activity_url(config: &RedmineConfig, user_id: &str) -> (r: String)
    ensures
        r@ == config.server_url@ + "/activity?user_id="@ + user_id@,
{
    let a = join2(config.server_url.as_str(), "/activity?user_id=");
    join2(a.as_str(), user_id)
}

pub open spec fn pair_view(p: (String, String)) -> (Seq<char>, Seq<char>) {
    (p.0@, p.1@)
}

/// The fields of the login form for `config`, with anti-forgery token `token`.
pub open spec fn login_fields(config: RedmineConfig, token: Seq<char>) -> Seq<(Seq<char>, Seq<char>)> {
    seq![
        ("username"@, config.username@),
        ("password"@, config.password@),
        ("login"@, "Login"@),
        ("utf8"@, "\u{2713}"@),
        ("back_url"@, config.server_url@),
        ("authenticity_token"@, token),
    ]
}

/// The fields of the login form, in the order the server's form lists them.
pub fn login_form(config: &RedmineConfig, token: &str) -> (r: Vec<(String, String)>)
    ensures
        r@.map_values(|p: (String, String)| pair_view(p)) == login_fields(*config, token@),
        r@.map_values(|p: (String, String)| pair_view(p)) == seq![
            ("username"@, config.username@),
            ("password"@, config.password@),
            ("login"@, "Login"@),
            ("utf8"@, "\u{2713}"@),
            ("back_url"@, config.server_url@),
            ("authenticity_token"@, token@),
        ],
{
    let mut v: Vec<(String, String)> = Vec::new();
    v.push((String::from_str("username"), config.username.clone()));
    v.push((String::from_str("password"), config.password.clone()));
    v.push((String::from_str("login"), String::from_str("Login")));
    v.push((String::from_str("utf8"), String::from_str("\u{2713}")));
    v.push((String::from_str("back_url"), config.server_url.clone()));
    v.push((String::from_str("authenticity_token"), String::from_str(token)));
    assert(v@.map_values(|p: (String, String)| pair_view(p)) =~= seq![
        ("username"@, config.username@),
        ("password"@, config.password@),
        ("login"@, "Login"@),
        ("utf8"@, "\u{2713}"@),
        ("back_url"@, config.server_url@),
        ("authenticity_token"@, token@),
    ]);
    v
}

} // verus!
