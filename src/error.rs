use vstd::prelude::*;

verus! {

/// The ways in which retrieving a day's activity can fail.
#[derive(Clone, Debug)]
pub enum FeedError {
    /// A transport failure or a status outside 2xx.
    Network(String),
    /// The login page was malformed or the login was refused.
    Auth(String),
    /// An element or attribute that the page layout promises is missing.
    Scrape(String),
    /// A day header matched none of the known date patterns.
    DateParse(String),
    /// An event time was neither `hh:mm AM/PM` nor `HH:MM`.
    TimeParse(String),
    /// The page declares a language that the locale table does not know.
    UnknownLocale(String),
    /// The page declares no language at all.
    MissingLocale,
    /// The walk followed as many older pages as it was allowed to.
    TooManyPages,
}

} // verus!
