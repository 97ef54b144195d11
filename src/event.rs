use crate::datetime::Time;
use crate::text::join2;
use vstd::prelude::*;

verus! {

/// One entry of a day's activity.
#[derive(Clone, Debug)]
pub struct Event {
    /// The integration that produced the event.
    pub source_name: String,
    pub time: Time,
    pub title: String,
    pub short_title: String,
    /// Where the item can be opened in a browser.
    pub link_url: String,
    /// The item's description, as the page gives it, not yet escaped.
    pub description: String,
    /// Whether the body is to be word-wrapped when shown.
    pub word_wrap: bool,
    /// A payload for the consumer; this source leaves it empty.
    pub extra_data: Option<String>,
}

pub open spec fn source_label() -> Seq<char> {
    "Redmine"@
}

pub open spec fn markup_head() -> Seq<char> {
    "<a href=\""@
}

pub open spec fn markup_middle() -> Seq<char> {
    "\">Open in the browser</a>\n"@
}

/// The markup body of an event: a link to the item, then its description.
/// The caller has already escaped both the link address and the description
/// for markup.
pub fn markup_body(escaped_link: &str, escaped_description: &str) -> (r: String)
    ensures
        r@ == markup_head() + escaped_link@ + markup_middle() + escaped_description@,
{
    let a = join2("<a href=\"", escaped_link);
    let b = join2(a.as_str(), "\">Open in the browser</a>\n");
    join2(b.as_str(), escaped_description)
}

} // verus!
