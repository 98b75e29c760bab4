use webring::clock::Timestamp;
use webring::navigation::{Direction, Redirect, HOME_URL, INVALID_MEMBER_URL};
use webring::ring::{Member, Ring};
use webring::status::WebsiteStatus;

const H: WebsiteStatus = WebsiteStatus::Healthy;
const B: WebsiteStatus = WebsiteStatus::BrokenLinks;
const U: WebsiteStatus = WebsiteStatus::Unreachable;
const N: WebsiteStatus = WebsiteStatus::Unknown;

fn site(name: &str) -> String {
    format!("https://{name}.example/")
}

fn ring_of(members: &[(&str, WebsiteStatus)]) -> Ring {
    let list = members
        .iter()
        .map(|(name, _)| Member { name: name.to_string(), site: site(name) })
        .collect();
    let mut ring = Ring::new_at(list, Timestamp::epoch()).unwrap();
    for (i, (_, status)) in members.iter().enumerate() {
        ring.record(i, *status, Timestamp::epoch());
    }
    ring
}

fn to(name: &str) -> Redirect {
    Redirect::Permanent(site(name))
}

fn home() -> Redirect {
    Redirect::Permanent(HOME_URL.to_string())
}

fn next(ring: &Ring, name: &str) -> Redirect {
    ring.next(&name.to_string())
}

fn prev(ring: &Ring, name: &str) -> Redirect {
    ring.prev(&name.to_string())
}

#[test]
fn the_fallback_pages_are_the_rings_own() {
    assert_eq!(HOME_URL, "https://nixwebr.ing/");
    assert_eq!(INVALID_MEMBER_URL, "https://nixwebr.ing/invalid-member.html");
}

#[test]
fn next_goes_to_the_member_after() {
    let ring = ring_of(&[("a", H), ("b", H), ("c", H)]);
    assert_eq!(next(&ring, "a"), to("b"));
    assert_eq!(next(&ring, "b"), to("c"));
}

#[test]
fn next_goes_round_from_the_last_member_to_the_first() {
    let ring = ring_of(&[("a", H), ("b", H), ("c", H)]);
    assert_eq!(next(&ring, "c"), to("a"));
}

#[test]
fn prev_goes_to_the_member_before() {
    let ring = ring_of(&[("a", H), ("b", H), ("c", H)]);
    assert_eq!(prev(&ring, "c"), to("b"));
    assert_eq!(prev(&ring, "b"), to("a"));
}

#[test]
fn prev_goes_round_from_the_first_member_to_the_last() {
    let ring = ring_of(&[("a", H), ("b", H), ("c", H)]);
    assert_eq!(prev(&ring, "a"), to("c"));
}

#[test]
fn next_passes_over_members_that_are_down_or_unknown() {
    let ring = ring_of(&[("a", H), ("b", U), ("c", N), ("d", B), ("e", H)]);
    assert_eq!(next(&ring, "a"), to("d"));
    assert_eq!(next(&ring, "b"), to("d"));
    assert_eq!(next(&ring, "d"), to("e"));
    assert_eq!(next(&ring, "e"), to("a"));
}

#[test]
fn prev_passes_over_members_that_are_down_or_unknown() {
    let ring = ring_of(&[("a", H), ("b", U), ("c", N), ("d", B), ("e", H)]);
    assert_eq!(prev(&ring, "d"), to("a"));
    assert_eq!(prev(&ring, "c"), to("a"));
    assert_eq!(prev(&ring, "a"), to("e"));
    assert_eq!(prev(&ring, "e"), to("d"));
}

#[test]
fn a_member_with_broken_links_is_a_destination() {
    let ring = ring_of(&[("a", H), ("b", B), ("c", H)]);
    assert_eq!(next(&ring, "a"), to("b"));
    assert_eq!(prev(&ring, "c"), to("b"));
}

#[test]
fn a_name_that_is_no_member_gets_the_invalid_member_page() {
    let ring = ring_of(&[("a", H), ("b", H)]);
    let invalid = Redirect::Temporary(INVALID_MEMBER_URL.to_string());
    assert_eq!(next(&ring, "z"), invalid);
    assert_eq!(prev(&ring, "z"), invalid);
    assert_eq!(next(&ring, ""), invalid);
    assert_eq!(ring.go(&"z".to_string(), Direction::Next), invalid);
}

#[test]
fn a_sole_member_is_never_its_own_destination() {
    for status in [H, B, U, N] {
        let ring = ring_of(&[("only", status)]);
        assert_eq!(next(&ring, "only"), home());
        assert_eq!(prev(&ring, "only"), home());
    }
}

#[test]
fn a_member_that_alone_can_be_reached_is_sent_home() {
    let ring = ring_of(&[("a", U), ("b", H), ("c", N)]);
    assert_eq!(next(&ring, "b"), home());
    assert_eq!(prev(&ring, "b"), home());
}

#[test]
fn where_no_member_can_be_reached_everyone_is_sent_home() {
    let ring = ring_of(&[("a", U), ("b", N), ("c", U), ("d", N)]);
    for name in ["a", "b", "c", "d"] {
        assert_eq!(next(&ring, name), home());
        assert_eq!(prev(&ring, name), home());
    }
}

#[test]
fn a_fresh_ring_sends_everyone_home() {
    let list = vec![
        Member { name: "a".to_string(), site: site("a") },
        Member { name: "b".to_string(), site: site("b") },
    ];
    let ring = Ring::new_at(list, Timestamp::epoch()).unwrap();
    assert_eq!(next(&ring, "a"), home());
    assert_eq!(prev(&ring, "b"), home());
}

#[test]
fn next_and_prev_undo_each_other_where_all_are_healthy() {
    let names = ["a", "b", "c", "d", "e"];
    for size in 2..=names.len() {
        let members: Vec<(&str, WebsiteStatus)> = names[..size].iter().map(|n| (*n, H)).collect();
        let ring = ring_of(&members);
        for (i, name) in names[..size].iter().enumerate() {
            let after = names[(i + 1) % size];
            let before = names[(i + size - 1) % size];
            assert_eq!(next(&ring, name), to(after));
            assert_eq!(prev(&ring, after), to(name));
            assert_eq!(prev(&ring, name), to(before));
            assert_eq!(next(&ring, before), to(name));
        }
    }
}

#[test]
fn next_then_prev_need_not_come_back_where_a_member_is_down() {
    let ring = ring_of(&[("a", U), ("b", H), ("c", H)]);
    assert_eq!(next(&ring, "a"), to("b"));
    assert_eq!(prev(&ring, "b"), to("c"));
}

#[test]
fn a_single_healthy_neighbour_is_met_both_ways() {
    let names = ["a", "b", "c", "d", "e", "f"];
    for size in 2..=names.len() {
        for from in 0..size {
            for target in 0..size {
                if target == from {
                    continue;
                }
                for own in [H, B, U, N] {
                    let members: Vec<(&str, WebsiteStatus)> = (0..size)
                        .map(|k| {
                            let status = if k == target {
                                H
                            } else if k == from {
                                own
                            } else if k % 2 == 0 {
                                U
                            } else {
                                N
                            };
                            (names[k], status)
                        })
                        .collect();
                    let ring = ring_of(&members);
                    assert_eq!(next(&ring, names[from]), to(names[target]));
                    assert_eq!(prev(&ring, names[from]), to(names[target]));
                }
            }
        }
    }
}

#[test]
fn a_third_member_with_broken_links_is_met_first_on_one_way() {
    let ring = ring_of(&[("a", H), ("b", B), ("c", H)]);
    assert_eq!(next(&ring, "a"), to("b"));
    assert_eq!(prev(&ring, "a"), to("c"));
}

#[test]
fn neighbour_of_gives_the_place_of_the_destination() {
    let ring = ring_of(&[("a", H), ("b", U), ("c", H), ("d", N)]);
    assert_eq!(ring.neighbour_of(0, Direction::Next), Some(2));
    assert_eq!(ring.neighbour_of(0, Direction::Prev), Some(2));
    assert_eq!(ring.neighbour_of(2, Direction::Next), Some(0));
    assert_eq!(ring.neighbour_of(3, Direction::Prev), Some(2));
    assert_eq!(ring.neighbour_of(3, Direction::Next), Some(0));
    assert_eq!(ring.neighbour_of(4, Direction::Next), None);
    assert_eq!(ring.neighbour_of(usize::MAX, Direction::Prev), None);
    let lonely = ring_of(&[("a", H), ("b", U)]);
    assert_eq!(lonely.neighbour_of(0, Direction::Next), None);
    assert_eq!(lonely.neighbour_of(0, Direction::Prev), None);
    assert_eq!(lonely.neighbour_of(1, Direction::Next), Some(0));
}

#[test]
fn pick_takes_any_member_whatever_its_state() {
    let ring = ring_of(&[("a", H), ("b", U), ("c", N), ("d", B)]);
    assert_eq!(ring.pick(0), Some(to("a")));
    assert_eq!(ring.pick(1), Some(to("b")));
    assert_eq!(ring.pick(2), Some(to("c")));
    assert_eq!(ring.pick(3), Some(to("d")));
    assert_eq!(ring.pick(4), None);
}

#[test]
fn rand_draws_only_members_and_in_time_all_of_them() {
    let names = ["a", "b", "c", "d"];
    let ring = ring_of(&[("a", H), ("b", U), ("c", N), ("d", B)]);
    let mut drawn = [0usize; 4];
    for _ in 0..8000 {
        match ring.rand() {
            Redirect::Permanent(location) => {
                let place = names.iter().position(|n| site(n) == location);
                drawn[place.expect("a site of the ring")] += 1;
            }
            Redirect::Temporary(_) => panic!("a draw is a permanent redirect"),
        }
    }
    for count in drawn {
        assert!((1600..=2400).contains(&count), "{drawn:?}");
    }
}

#[test]
fn rand_of_a_sole_member_is_that_member() {
    let ring = ring_of(&[("only", U)]);
    for _ in 0..20 {
        assert_eq!(ring.rand(), to("only"));
    }
}

#[test]
fn a_redirect_carries_its_code_and_location() {
    let permanent = Redirect::Permanent("https://a.example/".to_string());
    let temporary = Redirect::Temporary("https://b.example/".to_string());
    assert_eq!(permanent.status_code(), 308);
    assert_eq!(temporary.status_code(), 307);
    assert_eq!(permanent.location(), "https://a.example/");
    assert_eq!(temporary.location(), "https://b.example/");
}
