use webring::clock::Timestamp;
use webring::report::StatusReport;
use webring::ring::{Member, Ring};
use webring::status::WebsiteStatus;

fn ring_of(names: &[&str]) -> Ring {
    let list = names
        .iter()
        .map(|n| Member { name: n.to_string(), site: format!("https://{n}.example/") })
        .collect();
    Ring::new_at(list, Timestamp::epoch()).unwrap()
}

#[test]
fn there_is_no_report_on_a_name_that_is_no_member() {
    let ring = ring_of(&["a", "b"]);
    assert_eq!(ring.status(&"c".to_string()), None);
    assert_eq!(ring.status(&String::new()), None);
}

#[test]
fn a_fresh_member_is_reported_unknown_at_the_time_the_ring_was_made() {
    let ring = ring_of(&["a", "b"]);
    let report = ring.status(&"b".to_string()).unwrap();
    assert_eq!(report.status, "Unknown");
    assert_eq!(report.last_checked, "1970-01-01T00:00:00+00:00");
}

#[test]
fn a_report_shows_what_the_ring_holds_now() {
    let mut ring = ring_of(&["a", "b", "c"]);
    let checked = Timestamp::new(851_042_397, 0, -8 * 3600).unwrap();
    ring.record(1, WebsiteStatus::Healthy, checked);
    assert_eq!(
        ring.status(&"b".to_string()),
        Some(StatusReport {
            status: "Ok".to_string(),
            last_checked: "1996-12-19T16:39:57-08:00".to_string(),
        })
    );
    let later = Timestamp::new(851_042_398, 500_000_000, 3600).unwrap();
    ring.record(1, WebsiteStatus::BrokenLinks, later);
    assert_eq!(
        ring.status(&"b".to_string()),
        Some(StatusReport {
            status: "BrokenLinks".to_string(),
            last_checked: "1996-12-20T01:39:58.500+01:00".to_string(),
        })
    );
    assert_eq!(ring.status(&"a".to_string()).unwrap().status, "Unknown");
    ring.record(2, WebsiteStatus::Unreachable, later);
    assert_eq!(ring.status(&"c".to_string()).unwrap().status, "Unreachable");
}

#[test]
fn a_report_is_made_of_a_state_and_a_time_as_text() {
    let report = StatusReport::new(WebsiteStatus::Healthy, "2024-01-01T00:00:00+00:00".to_string());
    assert_eq!(report.status, "Ok");
    assert_eq!(report.last_checked, "2024-01-01T00:00:00+00:00");
    let report = StatusReport::new(WebsiteStatus::Unknown, String::new());
    assert_eq!(report.status, "Unknown");
    assert_eq!(report.last_checked, "");
}
