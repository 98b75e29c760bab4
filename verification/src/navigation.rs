//! Where the ring sends a visitor: to the neighbour of the site they come
//! from, passing over the sites that cannot be reached, or to a member
//! drawn by lot.

use rand::Rng;
use vstd::prelude::*;
use crate::ring::{lemma_position_of_member, position, ring_wf, MemberView, Ring};
use crate::status::WebsiteStatus;

verus! {

/// The ring's own home page, where a visitor goes when no neighbour can be
/// reached.
pub const HOME_URL: &'static str = "https://nixwebr.ing/";

/// The page that tells a visitor that the site they come from is no
/// member.
pub const INVALID_MEMBER_URL: &'static str = "https://nixwebr.ing/invalid-member.html";

/// The cache directive that goes with every redirect: none is to be
/// stored, since a destination holds only until the next health check.
pub const CACHE_DIRECTIVE: &'static str = "no-store";

/// The way round the ring.
#[derive(Clone, Copy, Debug, PartialEq, Eq, Structural)]
pub enum Direction {
    /// Towards the members that follow in the member list.
    Next,
    /// Towards the members that come before in the member list.
    Prev,
}

/// The answer to a visitor: where to go, and whether to remember it.
#[derive(Clone, Debug, PartialEq, Eq)]
pub enum Redirect {
    /// A permanent redirect (308) to a site.
    Permanent(String),
    /// A temporary redirect (307) to a page.
    Temporary(String),
}

/// A redirect as contracts speak of it.
pub enum RedirectView {
    Permanent(Seq<char>),
    Temporary(Seq<char>),
}

impl View for Redirect {
    type V = RedirectView;

    open spec fn view(&self) -> RedirectView {
        match self {
            Redirect::Permanent(site) => RedirectView::Permanent(site@),
            Redirect::Temporary(page) => RedirectView::Temporary(page@),
        }
    }
}

impl Redirect {
    /// The address the visitor is sent to.
    pub fn location(&self) -> (r: &String)
        ensures
            self@ == RedirectView::Permanent(r@) || self@ == RedirectView::Temporary(r@),
    {
        match self {
            Redirect::Permanent(site) => site,
            Redirect::Temporary(page) => page,
        }
    }

    /// The HTTP status that carries the redirect: 308 for a permanent one,
    /// 307 for a temporary one.
    pub fn status_code(&self) -> (code: u16)
        ensures
            self@ is Permanent ==> code == 308,
            self@ is Temporary ==> code == 307,
    {
        match self {
            Redirect::Permanent(_) => 308,
            Redirect::Temporary(_) => 307,
        }
    }
}

/// The place that lies `k` steps from place `i` in a ring of `n` members,
/// going round in the direction `dir`. Meant for `0 <= i < n` and
/// `0 <= k <= n`.
pub open spec fn neighbour(n: int, i: int, dir: Direction, k: int) -> int {
    match dir {
        Direction::Next => if i + k < n {
            i + k
        } else {
            i + k - n
        },
        Direction::Prev => if k <= i {
            i - k
        } else {
            i + n - k
        },
    }
}

/// Whether the member `k` steps from place `i` can be reached while none of
/// those nearer can. The steps run from 1 to one less than the size of the
/// ring, so the member at `i` itself is never counted.
pub open spec fn first_hit(ring: Seq<MemberView>, i: int, dir: Direction, k: int) -> bool {
    &&& 1 <= k < ring.len()
    &&& ring[neighbour(ring.len() as int, i, dir, k)].status.reachable()
    &&& forall|m: int|
        1 <= m < k ==> !ring[#[trigger] neighbour(ring.len() as int, i, dir, m)].status.reachable()
}

/// The place of the nearest member, other than the one at `i`, that can be
/// reached going from `i` in the direction `dir`; `None` where there is no
/// such member.
pub open spec fn hop(ring: Seq<MemberView>, i: int, dir: Direction) -> Option<int> {
    if exists|k: int| first_hit(ring, i, dir, k) {
        Some(neighbour(ring.len() as int, i, dir, choose|k: int| first_hit(ring, i, dir, k)))
    } else {
        None
    }
}

/// The address a visitor from the member at `i` is sent to: the site of
/// the nearest neighbour that can be reached, or the ring's home page.
pub open spec fn destination(ring: Seq<MemberView>, i: int, dir: Direction) -> Seq<char> {
    match hop(ring, i, dir) {
        Some(j) => ring[j].site,
        None => HOME_URL@,
    }
}

/// The answer to a visitor who comes from the site named `name`.
pub open spec fn resolve(ring: Seq<MemberView>, name: Seq<char>, dir: Direction) -> RedirectView {
    match position(ring, name) {
        Some(i) => RedirectView::Permanent(destination(ring, i, dir)),
        None => RedirectView::Temporary(INVALID_MEMBER_URL@),
    }
}

/// At most one number of steps is the first hit.
pub proof fn lemma_first_hit_unique(ring: Seq<MemberView>, i: int, dir: Direction, a: int, b: int)
    requires
        first_hit(ring, i, dir, a),
        first_hit(ring, i, dir, b),
    ensures
        a == b,
{
    let n = ring.len() as int;
    if a < b {
        assert(!ring[neighbour(n, i, dir, a)].status.reachable());
    } else if b < a {
        assert(!ring[neighbour(n, i, dir, b)].status.reachable());
    }
}

/// A first hit decides the hop.
pub proof fn lemma_hop_some(ring: Seq<MemberView>, i: int, dir: Direction, k: int)
    requires
        first_hit(ring, i, dir, k),
    ensures
        hop(ring, i, dir) == Some(neighbour(ring.len() as int, i, dir, k)),
{
    let c = choose|c: int| first_hit(ring, i, dir, c);
    lemma_first_hit_unique(ring, i, dir, k, c);
}

/// Where no other member can be reached, there is no hop.
pub proof fn lemma_hop_none(ring: Seq<MemberView>, i: int, dir: Direction)
    requires
        forall|m: int|
            1 <= m < ring.len() ==> !ring[#[trigger] neighbour(
                ring.len() as int,
                i,
                dir,
                m,
            )].status.reachable(),
    ensures
        hop(ring, i, dir) is None,
{
    assert forall|k: int| !first_hit(ring, i, dir, k) by {
        if 1 <= k < ring.len() {
            assert(!ring[neighbour(ring.len() as int, i, dir, k)].status.reachable());
        }
    }
}

impl Ring {
    /// The place of the nearest member that can be reached from place `i`
    /// in the direction `dir`, the member at `i` itself left out. `None`
    /// where there is none, or where `i` is no place of the ring.
    pub fn neighbour_of(&self, i: usize, dir: Direction) -> (r: Option<usize>)
        ensures
            i < self@.len() ==> match r {
                Some(j) => hop(self@, i as int, dir) == Some(j as int) && j < self@.len() && j != i,
                None => hop(self@, i as int, dir) is None,
            },
            i >= self@.len() ==> r is None,
    {
        let n = self.len();
        if i >= n {
            return None;
        }
        let mut k: usize = 1;
        while k < n
            invariant
                1 <= k <= n,
                i < n,
                n == self@.len(),
                forall|m: int|
                    1 <= m < k ==> !self@[#[trigger] neighbour(
                        n as int,
                        i as int,
                        dir,
                        m,
                    )].status.reachable(),
            decreases n - k,
        {
            let j = match dir {
                Direction::Next => if k < n - i {
                    i + k
                } else {
                    k - (n - i)
                },
                Direction::Prev => if k <= i {
                    i - k
                } else {
                    n - (k - i)
                },
            };
            assert(j == neighbour(n as int, i as int, dir, k as int));
            if self.status_at(j).unwrap().is_reachable() {
                proof {
                    assert(first_hit(self@, i as int, dir, k as int));
                    lemma_hop_some(self@, i as int, dir, k as int);
                }
                return Some(j);
            }
            k += 1;
        }
        proof {
            lemma_hop_none(self@, i as int, dir);
        }
        None
    }

    /// The answer to a visitor who comes from the site named `name` and
    /// goes round in the direction `dir`.
    pub fn go(&self, name: &String, dir: Direction) -> (r: Redirect)
        ensures
            r@ == resolve(self@, name@, dir),
    {
        match self.find(name) {
            Some(i) => match self.neighbour_of(i, dir) {
                Some(j) => Redirect::Permanent(self.site_at(j).unwrap().clone()),
                None => Redirect::Permanent(HOME_URL.to_owned()),
            },
            None => Redirect::Temporary(INVALID_MEMBER_URL.to_owned()),
        }
    }

    /// Sends a visitor from the site named `name` on to the next member
    /// that can be reached.
    pub fn next(&self, name: &String) -> (r: Redirect)
        ensures
            r@ == resolve(self@, name@, Direction::Next),
    {
        self.go(name, Direction::Next)
    }

    /// Sends a visitor from the site named `name` back to the previous
    /// member that can be reached.
    pub fn prev(&self, name: &String) -> (r: Redirect)
        ensures
            r@ == resolve(self@, name@, Direction::Prev),
    {
        self.go(name, Direction::Prev)
    }

    /// Sends a visitor to the member at place `i`, whatever its state:
    /// the draw passes over no member. `None` where `i` is no place of the
    /// ring.
    pub fn pick(&self, i: usize) -> (r: Option<Redirect>)
        ensures
            i < self@.len() ==> r is Some && r->Some_0@ == RedirectView::Permanent(
                self@[i as int].site,
            ),
            i >= self@.len() ==> r is None,
    {
        match self.site_at(i) {
            Some(site) => Some(Redirect::Permanent(site.clone())),
            None => None,
        }
    }

    /// Sends a visitor to a member drawn by lot from the whole ring,
    /// whatever the members' states.
    pub fn rand(&self) -> (r: Redirect)
        ensures
            exists|i: int| 0 <= i < self@.len() && r@ == RedirectView::Permanent(self@[i].site),
    {
        let i = random_below(self.len());
        self.pick(i).unwrap()
    }
}

/// Whether every member of the ring is `Healthy`.
pub open spec fn all_healthy(ring: Seq<MemberView>) -> bool {
    forall|k: int| 0 <= k < ring.len() ==> (#[trigger] ring[k]).status == WebsiteStatus::Healthy
}

/// Whether no member of the ring can be reached.
pub open spec fn none_reachable(ring: Seq<MemberView>) -> bool {
    forall|k: int| 0 <= k < ring.len() ==> !(#[trigger] ring[k]).status.reachable()
}

/// In a ring of two or more members that are all `Healthy`, going on and
/// going back undo each other: the member after `i` has `i` before it, and
/// the member before `i` has `i` after it. A visitor from `i` is sent to
/// that neighbour's site, and one from the neighbour is sent back to the
/// site of `i`.
pub proof fn lemma_next_prev_inverse(ring: Seq<MemberView>, i: int)
    requires
        ring_wf(ring),
        ring.len() >= 2,
        0 <= i < ring.len(),
        all_healthy(ring),
    ensures
        hop(ring, i, Direction::Next) matches Some(j) && 0 <= j < ring.len() && hop(
            ring,
            j,
            Direction::Prev,
        ) == Some(i) && resolve(ring, ring[i].name, Direction::Next) == RedirectView::Permanent(
            ring[j].site,
        ) && resolve(ring, ring[j].name, Direction::Prev) == RedirectView::Permanent(ring[i].site),
        hop(ring, i, Direction::Prev) matches Some(j) && 0 <= j < ring.len() && hop(
            ring,
            j,
            Direction::Next,
        ) == Some(i) && resolve(ring, ring[i].name, Direction::Prev) == RedirectView::Permanent(
            ring[j].site,
        ) && resolve(ring, ring[j].name, Direction::Next) == RedirectView::Permanent(ring[i].site),
{
    let n = ring.len() as int;
    let after = neighbour(n, i, Direction::Next, 1);
    let before = neighbour(n, i, Direction::Prev, 1);
    assert(first_hit(ring, i, Direction::Next, 1));
    assert(first_hit(ring, i, Direction::Prev, 1));
    assert(first_hit(ring, after, Direction::Prev, 1));
    assert(first_hit(ring, before, Direction::Next, 1));
    lemma_hop_some(ring, i, Direction::Next, 1);
    lemma_hop_some(ring, i, Direction::Prev, 1);
    lemma_hop_some(ring, after, Direction::Prev, 1);
    lemma_hop_some(ring, before, Direction::Next, 1);
    lemma_position_of_member(ring, i);
    lemma_position_of_member(ring, after);
    lemma_position_of_member(ring, before);
}

/// Where no member of the ring can be reached, a visitor from any member
/// is sent to the ring's home page, whichever way they go.
pub proof fn lemma_none_reachable_goes_home(ring: Seq<MemberView>, i: int, dir: Direction)
    requires
        ring_wf(ring),
        0 <= i < ring.len(),
        none_reachable(ring),
    ensures
        hop(ring, i, dir) is None,
        resolve(ring, ring[i].name, dir) == RedirectView::Permanent(HOME_URL@),
{
    lemma_hop_none(ring, i, dir);
    lemma_position_of_member(ring, i);
}

/// Every place but `i` lies some steps from `i`, more than none and fewer
/// than the ring has members.
pub proof fn lemma_steps_to(n: int, i: int, dir: Direction, j: int) -> (k: int)
    requires
        0 <= i < n,
        0 <= j < n,
        i != j,
    ensures
        1 <= k < n,
        neighbour(n, i, dir, k) == j,
{
    match dir {
        Direction::Next => if j > i {
            j - i
        } else {
            j + n - i
        },
        Direction::Prev => if j < i {
            i - j
        } else {
            i + n - j
        },
    }
}

/// Where the member at `j` is `Healthy`, is not the one the visitor comes
/// from, and no third member is `Healthy`, a visitor from `i` is sent to
/// the site of `j`, whichever way they go and however large the ring is.
///
/// A third member with broken links can still be reached and would be met
/// first on one of the two ways, so the law asks that such a member, if
/// there is one, has the same site as `j`.
pub proof fn lemma_single_healthy_neighbour(
    ring: Seq<MemberView>,
    i: int,
    j: int,
    dir: Direction,
)
    requires
        ring_wf(ring),
        0 <= i < ring.len(),
        0 <= j < ring.len(),
        i != j,
        ring[j].status == WebsiteStatus::Healthy,
        forall|k: int|
            0 <= k < ring.len() && k != i && k != j ==> (#[trigger] ring[k]).status
                != WebsiteStatus::Healthy,
        forall|k: int|
            0 <= k < ring.len() && k != i && k != j && (#[trigger] ring[k]).status
                == WebsiteStatus::BrokenLinks ==> ring[k].site == ring[j].site,
    ensures
        destination(ring, i, dir) == ring[j].site,
        resolve(ring, ring[i].name, dir) == RedirectView::Permanent(ring[j].site),
{
    let n = ring.len() as int;
    lemma_position_of_member(ring, i);
    let far = lemma_steps_to(n, i, dir, j);
    let k = lemma_least_hit(ring, i, dir, far);
    lemma_hop_some(ring, i, dir, k);
    let at = neighbour(n, i, dir, k);
    assert(0 <= at < n && at != i);
}

/// Where some member within `far` steps of `i` can be reached, one of them
/// is the first hit.
pub proof fn lemma_least_hit(ring: Seq<MemberView>, i: int, dir: Direction, far: int) -> (k: int)
    requires
        1 <= far < ring.len(),
        ring[neighbour(ring.len() as int, i, dir, far)].status.reachable(),
    ensures
        1 <= k <= far,
        first_hit(ring, i, dir, k),
    decreases far,
{
    let n = ring.len() as int;
    if exists|m: int| 1 <= m < far && ring[#[trigger] neighbour(n, i, dir, m)].status.reachable() {
        let m = choose|m: int|
            1 <= m < far && ring[#[trigger] neighbour(n, i, dir, m)].status.reachable();
        lemma_least_hit(ring, i, dir, m)
    } else {
        far
    }
}

/// Draws a number with `rand::Rng::random_range` from the thread's
/// generator, `rand::rng`.
///
/// Trusted: a draw from the range `0..n` is below `n`. The generator
/// refuses an empty range, so `n` must not be zero. Nothing is claimed
/// about which number is drawn.
#[verifier::external_body]
fn random_below(n: usize) -> (i: usize)
    requires
        n > 0,
    ensures
        i < n,
{
    rand::rng().random_range(0..n)
}

} // verus!
