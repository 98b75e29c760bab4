//! The health of a member site, as the last check found it.

use vstd::prelude::*;

verus! {

/// What the most recent health check found out about a member site.
#[derive(Clone, Copy, Debug, PartialEq, Eq, Structural)]
pub enum WebsiteStatus {
    /// The site answered and links to both of its neighbours. Reported
    /// under the label `Ok`.
    Healthy,
    /// The site answered, but at least one of the two links is missing.
    BrokenLinks,
    /// The site could not be reached at all.
    Unreachable,
    /// Nothing is known: never checked, or the answer could not be read.
    Unknown,
}

impl WebsiteStatus {
    /// Whether visitors may be sent to a site in this state. A site with
    /// broken links still answers, so it counts.
    pub open spec fn reachable(self) -> bool {
        self == WebsiteStatus::Healthy || self == WebsiteStatus::BrokenLinks
    }

    /// The variant's name as text, the form in which a status is reported.
    pub open spec fn label(self) -> Seq<char> {
        match self {
            WebsiteStatus::Healthy => "Ok"@,
            WebsiteStatus::BrokenLinks => "BrokenLinks"@,
            WebsiteStatus::Unreachable => "Unreachable"@,
            WebsiteStatus::Unknown => "Unknown"@,
        }
    }

    /// Whether visitors may be sent to a site in this state.
    pub fn is_reachable(&self) -> (r: bool)
        ensures
            r == self.reachable(),
    {
        match self {
            WebsiteStatus::Healthy => true,
            WebsiteStatus::BrokenLinks => true,
            WebsiteStatus::Unreachable => false,
            WebsiteStatus::Unknown => false,
        }
    }

    /// The variant's name as text.
    pub fn as_str(&self) -> (r: &'static str)
        ensures
            r@ == self.label(),
    {
        match self {
            WebsiteStatus::Healthy => "Ok",
            WebsiteStatus::BrokenLinks => "BrokenLinks",
            WebsiteStatus::Unreachable => "Unreachable",
            WebsiteStatus::Unknown => "Unknown",
        }
    }
}

impl Default for WebsiteStatus {
    /// A member that was never checked is `Unknown`.
    fn default() -> (r: WebsiteStatus)
        ensures
            r == WebsiteStatus::Unknown,
    {
        WebsiteStatus::Unknown
    }
}

/// The four labels are pairwise different, so a reported label names
/// exactly one status.
pub proof fn lemma_label_injective(a: WebsiteStatus, b: WebsiteStatus)
    requires
        a.label() == b.label(),
    ensures
        a == b,
{
    reveal_strlit("Ok");
    reveal_strlit("BrokenLinks");
    reveal_strlit("Unreachable");
    reveal_strlit("Unknown");
    assert("Ok"@.len() == 2 && "Unknown"@.len() == 7);
    assert("BrokenLinks"@.len() == 11 && "BrokenLinks"@[0] == 'B');
    assert("Unreachable"@.len() == 11 && "Unreachable"@[0] == 'U');
}

} // verus!
