//! What the ring tells about one member's health on request.

use vstd::prelude::*;
use crate::clock::{rfc3339_text, Timestamp};
use crate::ring::{
    checked_ring, lemma_checked_ring_keeps_members, lemma_position_of_member, position, ring_wf,
    MemberView, Ring,
};
use crate::status::WebsiteStatus;

verus! {

/// The answer to a question about a member's health: its state by name,
/// and the time of its last check as RFC 3339 text.
#[derive(Clone, Debug, PartialEq, Eq)]
pub struct StatusReport {
    pub status: String,
    pub last_checked: String,
}

/// A status report as contracts speak of it.
pub struct StatusReportView {
    pub status: Seq<char>,
    pub last_checked: Seq<char>,
}

impl View for StatusReport {
    type V = StatusReportView;

    open spec fn view(&self) -> StatusReportView {
        StatusReportView { status: self.status@, last_checked: self.last_checked@ }
    }
}

/// The report on a member: the label of its state, and the time of its
/// last check as text.
pub open spec fn report_of(member: MemberView) -> StatusReportView {
    StatusReportView {
        status: member.status.label(),
        last_checked: rfc3339_text(
            member.last_checked.secs(),
            member.last_checked.nanos(),
            member.last_checked.offset(),
        ),
    }
}

/// The report on the member that goes by `name`, if there is one.
pub open spec fn status_of(ring: Seq<MemberView>, name: Seq<char>) -> Option<StatusReportView> {
    match position(ring, name) {
        Some(i) => Some(report_of(ring[i])),
        None => None,
    }
}

/// A report shows the latest check: once a check of the member at place
/// `i` has been written down, the report on that member carries the new
/// state and the new time, and the report on every other member is what it
/// was.
pub proof fn lemma_report_follows_check(
    ring: Seq<MemberView>,
    i: int,
    status: WebsiteStatus,
    checked: Timestamp,
)
    requires
        ring_wf(ring),
        0 <= i < ring.len(),
    ensures
        status_of(checked_ring(ring, i, status, checked), ring[i].name) == Some(
            StatusReportView {
                status: status.label(),
                last_checked: rfc3339_text(checked.secs(), checked.nanos(), checked.offset()),
            },
        ),
        forall|k: int|
            0 <= k < ring.len() && k != i ==> status_of(
                checked_ring(ring, i, status, checked),
                (#[trigger] ring[k]).name,
            ) == status_of(ring, ring[k].name),
{
    let after = checked_ring(ring, i, status, checked);
    lemma_checked_ring_keeps_members(ring, i, status, checked);
    lemma_position_of_member(after, i);
    assert forall|k: int| 0 <= k < ring.len() && k != i implies status_of(
        after,
        (#[trigger] ring[k]).name,
    ) == status_of(ring, ring[k].name) by {
        lemma_position_of_member(after, k);
        lemma_position_of_member(ring, k);
    }
}

impl StatusReport {
    /// Makes the report of a state and of a time that is already written
    /// out as text.
    pub fn new(status: WebsiteStatus, last_checked: String) -> (r: StatusReport)
        ensures
            r@ == (StatusReportView { status: status.label(), last_checked: last_checked@ }),
    {
        StatusReport { status: status.as_str().to_owned(), last_checked }
    }
}

impl Ring {
    /// The report on the member that goes by `name`: its state and the
    /// time of its last check, as the ring holds them now. `None` where no
    /// member goes by that name.
    pub fn status(&self, name: &String) -> (r: Option<StatusReport>)
        ensures
            match status_of(self@, name@) {
                Some(report) => r is Some && r->Some_0@ == report,
                None => r is None,
            },
    {
        match self.find(name) {
            Some(i) => {
                let status = self.status_at(i).unwrap();
                let checked: Timestamp = self.last_checked_at(i).unwrap();
                Some(StatusReport::new(status, checked.to_rfc3339()))
            },
            None => None,
        }
    }
}

} // verus!
