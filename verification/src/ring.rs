//! The ring: a fixed, ordered cycle of member sites.

use vstd::prelude::*;
use crate::clock::Timestamp;
use crate::status::WebsiteStatus;

verus! {

/// One line of the member list: a site and the name it goes by.
pub struct Member {
    pub name: String,
    pub site: String,
}

/// A member as the ring keeps it: the line of the member list, and what the
/// health check last found.
pub struct WebringMember {
    pub name: String,
    pub site: String,
    pub site_status: WebsiteStatus,
    pub last_checked: Timestamp,
}

/// A ring member as contracts speak of it.
pub struct MemberView {
    pub name: Seq<char>,
    pub site: Seq<char>,
    pub status: WebsiteStatus,
    pub last_checked: Timestamp,
}

impl View for WebringMember {
    type V = MemberView;

    open spec fn view(&self) -> MemberView {
        MemberView {
            name: self.name@,
            site: self.site@,
            status: self.site_status,
            last_checked: self.last_checked,
        }
    }
}

/// What a ring must satisfy: it has a member, and no two members share a
/// name.
pub open spec fn ring_wf(ring: Seq<MemberView>) -> bool {
    &&& ring.len() > 0
    &&& forall|i: int, j: int|
        0 <= i < j < ring.len() ==> (#[trigger] ring[i]).name != (#[trigger] ring[j]).name
}

/// Whether `i` is the first place in `ring` that goes by `name`.
pub open spec fn first_named(ring: Seq<MemberView>, name: Seq<char>, i: int) -> bool {
    &&& 0 <= i < ring.len()
    &&& ring[i].name == name
    &&& forall|j: int| 0 <= j < i ==> (#[trigger] ring[j]).name != name
}

/// The place of the member that goes by `name`, if there is one.
pub open spec fn position(ring: Seq<MemberView>, name: Seq<char>) -> Option<int> {
    if exists|i: int| first_named(ring, name, i) {
        Some(choose|i: int| first_named(ring, name, i))
    } else {
        None
    }
}

/// At most one place is the first that goes by a name.
pub proof fn lemma_first_named_unique(ring: Seq<MemberView>, name: Seq<char>, i: int, j: int)
    requires
        first_named(ring, name, i),
        first_named(ring, name, j),
    ensures
        i == j,
{
    if i < j {
        assert(ring[i].name != name);
    } else if j < i {
        assert(ring[j].name != name);
    }
}

/// `position` finds the first place that goes by the name.
pub proof fn lemma_position_first(ring: Seq<MemberView>, name: Seq<char>, i: int)
    requires
        first_named(ring, name, i),
    ensures
        position(ring, name) == Some(i),
{
    let k = choose|k: int| first_named(ring, name, k);
    lemma_first_named_unique(ring, name, i, k);
}

/// `position` finds nothing exactly when no member goes by the name.
pub proof fn lemma_position_none(ring: Seq<MemberView>, name: Seq<char>)
    requires
        forall|i: int| 0 <= i < ring.len() ==> (#[trigger] ring[i]).name != name,
    ensures
        position(ring, name) is None,
{
}

/// In a ring, every member is found under its own name at its own place.
pub proof fn lemma_position_of_member(ring: Seq<MemberView>, i: int)
    requires
        ring_wf(ring),
        0 <= i < ring.len(),
    ensures
        position(ring, ring[i].name) == Some(i),
{
    assert(first_named(ring, ring[i].name, i));
    lemma_position_first(ring, ring[i].name, i);
}

/// The ring after a health check of the member at place `i` found `status`
/// at the time `checked`: that member's state and time are replaced, and
/// nothing else changes. Where `i` is no place of the ring, nothing changes
/// at all.
pub open spec fn checked_ring(
    ring: Seq<MemberView>,
    i: int,
    status: WebsiteStatus,
    checked: Timestamp,
) -> Seq<MemberView> {
    if 0 <= i < ring.len() {
        ring.update(
            i,
            MemberView { name: ring[i].name, site: ring[i].site, status, last_checked: checked },
        )
    } else {
        ring
    }
}

/// A health check changes no member's name or site, nor the order of the
/// members, so what was a ring stays one.
pub proof fn lemma_checked_ring_keeps_members(
    ring: Seq<MemberView>,
    i: int,
    status: WebsiteStatus,
    checked: Timestamp,
)
    ensures
        checked_ring(ring, i, status, checked).len() == ring.len(),
        forall|k: int|
            0 <= k < ring.len() ==> (#[trigger] checked_ring(ring, i, status, checked)[k]).name
                == ring[k].name && checked_ring(ring, i, status, checked)[k].site == ring[k].site,
        forall|k: int|
            0 <= k < ring.len() && k != i ==> #[trigger] checked_ring(ring, i, status, checked)[k]
                == ring[k],
        ring_wf(ring) ==> ring_wf(checked_ring(ring, i, status, checked)),
{
    let after = checked_ring(ring, i, status, checked);
    if ring_wf(ring) {
        assert forall|a: int, b: int| 0 <= a < b < after.len() implies (#[trigger] after[a]).name != (
        #[trigger] after[b]).name by {
            assert(after[a].name == ring[a].name);
            assert(after[b].name == ring[b].name);
        }
    }
}

/// Why a member list makes no ring.
#[derive(Clone, Copy, Debug, PartialEq, Eq, Structural)]
pub enum RingError {
    /// The list has no member.
    Empty,
    /// Two members of the list share a name.
    DuplicateName,
}

/// What the health check last found out about one member.
#[derive(Clone, Copy)]
struct Health {
    status: WebsiteStatus,
    checked: Timestamp,
}

/// The ring of member sites, in the order of the member list. The order
/// and the members' names and sites never change; only what the health
/// check found does, so the two are kept apart.
pub struct Ring {
    lines: Vec<Member>,
    health: Vec<Health>,
}

impl View for Ring {
    type V = Seq<MemberView>;

    closed spec fn view(&self) -> Seq<MemberView> {
        Seq::new(
            self.lines@.len(),
            |i: int|
                MemberView {
                    name: self.lines@[i].name@,
                    site: self.lines@[i].site@,
                    status: self.health@[i].status,
                    last_checked: self.health@[i].checked,
                },
        )
    }
}

/// Whether no two lines of a member list share a name.
pub open spec fn distinct_names(list: Seq<Member>) -> bool {
    forall|i: int, j: int|
        0 <= i < j < list.len() ==> (#[trigger] list[i]).name@ != (#[trigger] list[j]).name@
}

/// The ring that a member list makes at the time `now`: every line in its
/// place, nothing known of any site yet.
pub open spec fn fresh_ring(list: Seq<Member>, now: Timestamp) -> Seq<MemberView> {
    Seq::new(
        list.len(),
        |i: int|
            MemberView {
                name: list[i].name@,
                site: list[i].site@,
                status: WebsiteStatus::Unknown,
                last_checked: now,
            },
    )
}

/// Whether the name of line `j` of the list occurs among the lines before.
fn name_taken(list: &Vec<Member>, j: usize) -> (r: bool)
    requires
        j < list.len(),
    ensures
        r == exists|i: int| 0 <= i < j && (#[trigger] list@[i]).name@ == list@[j as int].name@,
{
    let mut i: usize = 0;
    while i < j
        invariant
            i <= j < list.len(),
            forall|k: int| 0 <= k < i ==> (#[trigger] list@[k]).name@ != list@[j as int].name@,
        decreases j - i,
    {
        if list[i].name == list[j].name {
            return true;
        }
        i += 1;
    }
    false
}

impl Ring {
    #[verifier::type_invariant]
    spec fn inv(self) -> bool {
        &&& self.lines@.len() > 0
        &&& self.health@.len() == self.lines@.len()
        &&& distinct_names(self.lines@)
    }

    /// What the type keeps of its two lists makes the ring a ring.
    proof fn lemma_inv_is_ring(self)
        requires
            self.inv(),
        ensures
            ring_wf(self@),
            self@.len() == self.lines@.len(),
    {
        assert forall|i: int, j: int| 0 <= i < j < self@.len() implies (#[trigger] self@[i]).name != (
        #[trigger] self@[j]).name by {
            assert(self.lines@[i].name@ != self.lines@[j].name@);
        }
    }

    /// Makes the ring of a member list, every member `Unknown` and marked
    /// as checked at `now`. A list without members, or with a name that
    /// occurs twice, makes no ring.
    pub fn new_at(list: Vec<Member>, now: Timestamp) -> (r: Result<Ring, RingError>)
        ensures
            list@.len() == 0 ==> r == Err::<Ring, RingError>(RingError::Empty),
            list@.len() > 0 && !distinct_names(list@) ==> r == Err::<Ring, RingError>(
                RingError::DuplicateName,
            ),
            list@.len() > 0 && distinct_names(list@) ==> r is Ok && r->Ok_0@ == fresh_ring(
                list@,
                now,
            ),
            r matches Ok(ring) ==> ring_wf(ring@),
    {
        if list.len() == 0 {
            return Err(RingError::Empty);
        }
        let mut j: usize = 0;
        while j < list.len()
            invariant
                j <= list.len(),
                forall|a: int, b: int|
                    0 <= a < b < j ==> (#[trigger] list@[a]).name@ != (#[trigger] list@[b]).name@,
            decreases list.len() - j,
        {
            if name_taken(&list, j) {
                return Err(RingError::DuplicateName);
            }
            j += 1;
        }
        let mut health: Vec<Health> = Vec::new();
        let mut k: usize = 0;
        while k < list.len()
            invariant
                k <= list.len(),
                health@.len() == k,
                forall|i: int|
                    0 <= i < k ==> (#[trigger] health@[i]).status == WebsiteStatus::Unknown
                        && health@[i].checked == now,
            decreases list.len() - k,
        {
            health.push(Health { status: WebsiteStatus::Unknown, checked: now });
            k += 1;
        }
        let ring = Ring { lines: list, health };
        proof {
            ring.lemma_inv_is_ring();
            assert(ring@ =~= fresh_ring(list@, now));
        }
        Ok(ring)
    }

    /// Makes the ring of a member list, every member `Unknown` and marked
    /// as checked at the time of the call.
    pub fn new(list: Vec<Member>) -> (r: Result<Ring, RingError>)
        ensures
            list@.len() == 0 ==> r == Err::<Ring, RingError>(RingError::Empty),
            list@.len() > 0 && !distinct_names(list@) ==> r == Err::<Ring, RingError>(
                RingError::DuplicateName,
            ),
            list@.len() > 0 && distinct_names(list@) ==> r is Ok && exists|now: Timestamp|
                now.wf() && r->Ok_0@ == #[trigger] fresh_ring(list@, now),
            r matches Ok(ring) ==> ring_wf(ring@),
    {
        let now = Timestamp::now();
        Ring::new_at(list, now)
    }

    /// How many members the ring has: at least one, and no two of them
    /// share a name.
    pub fn len(&self) -> (n: usize)
        ensures
            n == self@.len(),
            n > 0,
            ring_wf(self@),
    {
        proof {
            use_type_invariant(self);
            self.lemma_inv_is_ring();
        }
        self.lines.len()
    }

    /// The name of the member at place `i`, if the ring has that many.
    pub fn name_at(&self, i: usize) -> (r: Option<&String>)
        ensures
            i < self@.len() ==> r is Some && r->Some_0@ == self@[i as int].name,
            i >= self@.len() ==> r is None,
    {
        if i < self.lines.len() {
            Some(&self.lines[i].name)
        } else {
            None
        }
    }

    /// The site of the member at place `i`, if the ring has that many.
    pub fn site_at(&self, i: usize) -> (r: Option<&String>)
        ensures
            i < self@.len() ==> r is Some && r->Some_0@ == self@[i as int].site,
            i >= self@.len() ==> r is None,
    {
        if i < self.lines.len() {
            Some(&self.lines[i].site)
        } else {
            None
        }
    }

    /// What the health check last found of the member at place `i`, if the
    /// ring has that many.
    pub fn status_at(&self, i: usize) -> (r: Option<WebsiteStatus>)
        ensures
            i < self@.len() ==> r == Some(self@[i as int].status),
            i >= self@.len() ==> r is None,
    {
        proof {
            use_type_invariant(self);
        }
        if i < self.health.len() {
            Some(self.health[i].status)
        } else {
            None
        }
    }

    /// When the member at place `i` was last checked, if the ring has that
    /// many.
    pub fn last_checked_at(&self, i: usize) -> (r: Option<Timestamp>)
        ensures
            i < self@.len() ==> r == Some(self@[i as int].last_checked),
            i >= self@.len() ==> r is None,
    {
        proof {
            use_type_invariant(self);
        }
        if i < self.health.len() {
            Some(self.health[i].checked)
        } else {
            None
        }
    }

    /// The member at place `i` as it stands now, if the ring has that many.
    pub fn member(&self, i: usize) -> (r: Option<WebringMember>)
        ensures
            i < self@.len() ==> r is Some && r->Some_0@ == self@[i as int],
            i >= self@.len() ==> r is None,
    {
        proof {
            use_type_invariant(self);
        }
        if i < self.lines.len() {
            Some(
                WebringMember {
                    name: self.lines[i].name.clone(),
                    site: self.lines[i].site.clone(),
                    site_status: self.health[i].status,
                    last_checked: self.health[i].checked,
                },
            )
        } else {
            None
        }
    }

    /// Writes down what a health check of the member at place `i` found:
    /// its state, and the time the check was done. Where `i` is no place of
    /// the ring, nothing changes.
    pub fn record(&mut self, i: usize, status: WebsiteStatus, checked: Timestamp)
        ensures
            final(self)@ == checked_ring(old(self)@, i as int, status, checked),
            ring_wf(final(self)@),
    {
        proof {
            use_type_invariant(&*self);
            self.lemma_inv_is_ring();
            lemma_checked_ring_keeps_members(self@, i as int, status, checked);
        }
        if i < self.health.len() {
            self.health[i] = Health { status, checked };
        }
        assert(self@ =~= checked_ring(old(self)@, i as int, status, checked));
    }

    /// The place of the member that goes by `name`, if there is one.
    pub fn find(&self, name: &String) -> (r: Option<usize>)
        ensures
            match r {
                Some(i) => position(self@, name@) == Some(i as int) && i < self@.len(),
                None => position(self@, name@) is None,
            },
    {
        let mut i: usize = 0;
        while i < self.lines.len()
            invariant
                i <= self.lines.len(),
                forall|j: int| 0 <= j < i ==> (#[trigger] self@[j]).name != name@,
            decreases self.lines.len() - i,
        {
            if self.lines[i].name == *name {
                proof {
                    assert(first_named(self@, name@, i as int));
                    lemma_position_first(self@, name@, i as int);
                }
                return Some(i);
            }
            i += 1;
        }
        proof {
            lemma_position_none(self@, name@);
        }
        None
    }
}

} // verus!
