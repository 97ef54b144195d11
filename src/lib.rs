use vstd::prelude::*;

pub mod datetime;
pub mod error;
pub mod event;
pub mod locale;
pub mod login;
pub mod page;
pub mod text;
pub mod walk;

verus! {

/// Where a Redmine server is and whom to log in as.
#[derive(Clone, Debug)]
pub struct RedmineConfig {
    pub server_url: String,
    pub username: String,
    pub password: String,
}

/// The event source that reads a user's activity from a Redmine server.
pub struct Redmine;

pub open spec fn server_url_key() -> Seq<char> {
    "Server URL"@
}

pub open spec fn username_key() -> Seq<char> {
    "Username"@
}

pub open spec fn password_key() -> Seq<char> {
    "Password"@
}

/// The first value that `values` gives for `key`.
pub open spec fn value_of(values: Seq<(Seq<char>, Seq<char>)>, key: Seq<char>) -> Option<Seq<char>>
    decreases values.len(),
{
    if values.len() == 0 {
        None
    } else if values[0].0 == key {
        Some(values[0].1)
    } else {
        value_of(values.subrange(1, values.len() as int), key)
    }
}

pub open spec fn pairs_view(v: Seq<(String, String)>) -> Seq<(Seq<char>, Seq<char>)> {
    v.map_values(|p: (String, String)| (p.0@, p.1@))
}

/// The first value that `values` holds for `key`.
fn find_value(values: &Vec<(String, String)>, key: &str) -> (r: Option<String>)
    ensures
        match r {
            Some(s) => value_of(pairs_view(values@), key@) == Some(s@),
            None => value_of(pairs_view(values@), key@) is None,
        },
{
    let k = String::from_str(key);
    let mut i: usize = 0;
    assert(pairs_view(values@).subrange(0, values@.len() as int) =~= pairs_view(values@));
    while i < values.len()
        invariant
            k@ == key@,
            i <= values@.len(),
            value_of(pairs_view(values@), key@) == value_of(pairs_view(values@).subrange(i as int, values@.len() as int), key@),
        decreases values.len() - i,
    {
        let ghost rest = pairs_view(values@).subrange(i as int, values@.len() as int);
        assert(rest.subrange(1, rest.len() as int) =~= pairs_view(values@).subrange(i + 1, values@.len() as int));
        if values[i].0 == k {
            return Some(values[i].1.clone());
        }
        i = i + 1;
    }
    None
}

impl RedmineConfig {
    /// The named fields of the configuration, as a settings form shows them.
    pub fn field_values(&self) -> (r: Vec<(String, String)>)
        ensures
            pairs_view(r@) == seq![
                (server_url_key(), self.server_url@),
                (username_key(), self.username@),
                (password_key(), self.password@),
            ],
    {
        let mut v: Vec<(String, String)> = Vec::new();
        v.push((String::from_str("Server URL"), self.server_url.clone()));
        v.push((String::from_str("Username"), self.username.clone()));
        v.push((String::from_str("Password"), self.password.clone()));
        assert(pairs_view(v@) =~= seq![
            (server_url_key(), self.server_url@),
            (username_key(), self.username@),
            (password_key(), self.password@),
        ]);
        v
    }

    /// The configuration that a settings form filled in; `None` where one of
    /// the three fields is missing.
    pub fn from_field_values(values: &Vec<(String, String)>) -> (r: Option<RedmineConfig>)
        ensures
            r is Some <==> value_of(pairs_view(values@), server_url_key()) is Some && value_of(
                pairs_view(values@),
                username_key(),
            ) is Some && value_of(pairs_view(values@), password_key()) is Some,
            r matches Some(c) ==> value_of(pairs_view(values@), server_url_key()) == Some(c.server_url@)
                && value_of(pairs_view(values@), username_key()) == Some(c.username@) && value_of(
                pairs_view(values@),
                password_key(),
            ) == Some(c.password@),
    {
        let server_url = match find_value(values, "Server URL") {
            Some(s) => s,
            None => { return None; },
        };
        let username = match find_value(values, "Username") {
            Some(s) => s,
            None => { return None; },
        };
        let password = match find_value(values, "Password") {
            Some(s) => s,
            None => { return None; },
        };
        Some(RedmineConfig { server_url, username, password })
    }
}

} // verus!
