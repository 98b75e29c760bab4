//! What a probe of a member site says about the site's health.
//!
//! A member is expected to link back into the ring: its page has to hold
//! the ring's address for the previous member and the one for the next
//! member, each ending in the member's own name.

use vstd::prelude::*;
use vstd::string::StringExecFns;
use crate::status::WebsiteStatus;

verus! {

/// What the ring's address for "the member before `name`" starts with.
pub const PREV_LINK_PREFIX: &'static str = "nixwebr.ing/prev/";

/// What the ring's address for "the member after `name`" starts with.
pub const NEXT_LINK_PREFIX: &'static str = "nixwebr.ing/next/";

/// How a probe of a member site ended.
#[derive(Clone, Debug, PartialEq, Eq)]
pub enum ProbeOutcome {
    /// The request failed: no answer came.
    Unreachable,
    /// An answer came, but its body could not be read as text.
    Unreadable,
    /// An answer came with this text as its body.
    Body(String),
}

/// The outcome of a probe as contracts speak of it.
pub enum ProbeOutcomeView {
    Unreachable,
    Unreadable,
    Body(Seq<char>),
}

impl View for ProbeOutcome {
    type V = ProbeOutcomeView;

    open spec fn view(&self) -> ProbeOutcomeView {
        match self {
            ProbeOutcome::Unreachable => ProbeOutcomeView::Unreachable,
            ProbeOutcome::Unreadable => ProbeOutcomeView::Unreadable,
            ProbeOutcome::Body(text) => ProbeOutcomeView::Body(text@),
        }
    }
}

/// Whether `needle` stands in `text` from place `at` on.
pub open spec fn occurs_at(needle: Seq<char>, text: Seq<char>, at: int) -> bool {
    &&& 0 <= at
    &&& at + needle.len() <= text.len()
    &&& text.subrange(at, at + needle.len()) == needle
}

/// Whether `needle` stands somewhere in `text`.
pub open spec fn occurs_in(needle: Seq<char>, text: Seq<char>) -> bool {
    exists|at: int| occurs_at(needle, text, at)
}

/// The ring's address for the member before the one named `name`.
pub open spec fn prev_link(name: Seq<char>) -> Seq<char> {
    PREV_LINK_PREFIX@ + name
}

/// The ring's address for the member after the one named `name`.
pub open spec fn next_link(name: Seq<char>) -> Seq<char> {
    NEXT_LINK_PREFIX@ + name
}

/// Whether a page links back into the ring on behalf of the member named
/// `name`: it holds both of the member's addresses.
pub open spec fn links_back(text: Seq<char>, name: Seq<char>) -> bool {
    occurs_in(prev_link(name), text) && occurs_in(next_link(name), text)
}

/// The state that a probe's outcome puts the member named `name` in.
pub open spec fn verdict(outcome: ProbeOutcomeView, name: Seq<char>) -> WebsiteStatus {
    match outcome {
        ProbeOutcomeView::Unreachable => WebsiteStatus::Unreachable,
        ProbeOutcomeView::Unreadable => WebsiteStatus::Unknown,
        ProbeOutcomeView::Body(text) => if links_back(text, name) {
            WebsiteStatus::Healthy
        } else {
            WebsiteStatus::BrokenLinks
        },
    }
}

/// Whether the page `text` holds both addresses of the member named
/// `name`.
pub fn has_links(text: &String, name: &String) -> (r: bool)
    ensures
        r == links_back(text@, name@),
{
    let mut prev = PREV_LINK_PREFIX.to_owned();
    prev.append(name.as_str());
    let mut next = NEXT_LINK_PREFIX.to_owned();
    next.append(name.as_str());
    holds_text(text.as_str(), prev.as_str()) && holds_text(text.as_str(), next.as_str())
}

/// The state that a probe's outcome puts the member named `name` in: no
/// answer makes it `Unreachable`, an answer that cannot be read `Unknown`,
/// a page with both links `Healthy` and any other page `BrokenLinks`.
pub fn classify(outcome: &ProbeOutcome, name: &String) -> (status: WebsiteStatus)
    ensures
        status == verdict(outcome@, name@),
{
    match outcome {
        ProbeOutcome::Unreachable => WebsiteStatus::Unreachable,
        ProbeOutcome::Unreadable => WebsiteStatus::Unknown,
        ProbeOutcome::Body(text) => if has_links(text, name) {
            WebsiteStatus::Healthy
        } else {
            WebsiteStatus::BrokenLinks
        },
    }
}

/// Searches a string slice with `str::contains`.
///
/// Trusted: the search succeeds exactly when some stretch of `text` is
/// `needle`, character for character.
#[verifier::external_body]
fn holds_text(text: &str, needle: &str) -> (r: bool)
    ensures
        r == occurs_in(needle@, text@),
{
    text.contains(needle)
}

} // verus!
