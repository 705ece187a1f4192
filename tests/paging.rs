use rawslogs::paging::{Action, Paginator, Reply};
use rawslogs::records::names_of;

fn page(items: &[&str], next: Option<&str>) -> Reply<String> {
    Reply::Page {
        items: items.iter().map(|s| s.to_string()).collect(),
        next_token: next.map(|s| s.to_string()),
    }
}

#[test]
fn chained_pages_concatenate_on_plain_rule() {
    let mut p: Paginator<String> = Paginator::new();
    assert_eq!(p.next_token(), None);
    assert_eq!(p.step(page(&["a", "b"], Some("t3"))), Action::Fetch);
    assert_eq!(p.next_token(), Some("t3".to_string()));
    assert_eq!(p.step(page(&["c"], Some("t2"))), Action::Fetch);
    assert_eq!(p.next_token(), Some("t2".to_string()));
    assert_eq!(p.step(page(&["d"], None)), Action::Finish);
    assert!(p.is_done());
    assert_eq!(p.into_items(), vec!["a", "b", "c", "d"]);
}

#[test]
fn chained_pages_concatenate_on_forward_rule() {
    let mut p: Paginator<String> = Paginator::new_forward();
    assert_eq!(p.step(page(&["a"], Some("t3"))), Action::Fetch);
    assert_eq!(p.step(page(&["b"], Some("t2"))), Action::Fetch);
    assert_eq!(p.step(page(&["c"], Some("t1"))), Action::Fetch);
    assert_eq!(p.step(page(&["d"], None)), Action::Finish);
    assert_eq!(p.into_items(), vec!["a", "b", "c", "d"]);
}

#[test]
fn empty_page_still_follows_token() {
    let mut p: Paginator<String> = Paginator::new();
    assert_eq!(p.step(page(&[], Some("t1"))), Action::Fetch);
    assert_eq!(p.next_token(), Some("t1".to_string()));
    assert_eq!(p.step(page(&["x"], None)), Action::Finish);
    assert_eq!(p.into_items(), vec!["x"]);
}

#[test]
fn rate_limited_keeps_token_and_items() {
    let mut p: Paginator<String> = Paginator::new();
    assert_eq!(p.step(page(&["a"], Some("t1"))), Action::Fetch);
    assert_eq!(p.step(Reply::RateLimited), Action::WaitThenFetch);
    assert_eq!(p.next_token(), Some("t1".to_string()));
    assert_eq!(p.step(Reply::RateLimited), Action::WaitThenFetch);
    assert_eq!(p.next_token(), Some("t1".to_string()));
    assert!(!p.is_done());
    assert_eq!(p.step(page(&["b"], None)), Action::Finish);
    assert_eq!(p.into_items(), vec!["a", "b"]);
}

#[test]
fn rate_limited_first_request_is_retried() {
    let mut p: Paginator<String> = Paginator::new();
    assert_eq!(p.step(Reply::RateLimited), Action::WaitThenFetch);
    assert_eq!(p.next_token(), None);
    assert_eq!(p.step(page(&["a"], None)), Action::Finish);
    assert_eq!(p.into_items(), vec!["a"]);
}

#[test]
fn failure_stops_and_keeps_partial_items() {
    let mut p: Paginator<String> = Paginator::new();
    assert_eq!(p.step(page(&["a", "b"], Some("t1"))), Action::Fetch);
    assert_eq!(p.step(Reply::Failed), Action::Finish);
    assert!(p.is_done());
    assert_eq!(p.into_items(), vec!["a", "b"]);
}

#[test]
fn repeated_token_without_throttle_stalls() {
    let mut p: Paginator<String> = Paginator::new_forward();
    assert_eq!(p.step(page(&["a"], Some("f1"))), Action::Fetch);
    assert_eq!(p.step(page(&["a"], Some("f1"))), Action::Finish);
    assert!(p.is_done());
    assert_eq!(p.into_items(), vec!["a", "a"]);
}

#[test]
fn repeated_token_on_plain_rule_is_followed() {
    let mut p: Paginator<String> = Paginator::new();
    assert_eq!(p.step(page(&["a"], Some("t1"))), Action::Fetch);
    assert_eq!(p.step(page(&["b"], Some("t1"))), Action::Fetch);
    assert_eq!(p.next_token(), Some("t1".to_string()));
}

#[test]
fn throttle_forgives_one_repeated_token() {
    let mut p: Paginator<String> = Paginator::new_forward();
    assert_eq!(p.step(page(&["a"], Some("f1"))), Action::Fetch);
    assert_eq!(p.step(Reply::RateLimited), Action::WaitThenFetch);
    assert_eq!(p.step(page(&["b"], Some("f1"))), Action::Fetch);
    assert_eq!(p.next_token(), Some("f1".to_string()));
    assert_eq!(p.step(page(&["c"], Some("f1"))), Action::Finish);
    assert_eq!(p.into_items(), vec!["a", "b", "c"]);
}

#[test]
fn groups_after_one_throttle() {
    let mut p: Paginator<Option<String>> = Paginator::new();
    let mut waits = 0;
    let mut action = p.step(Reply::RateLimited);
    if action == Action::WaitThenFetch {
        waits += 1;
    }
    assert_eq!(p.next_token(), None);
    action = p.step(Reply::Page {
        items: vec![Some("alpha".to_string()), Some("beta".to_string())],
        next_token: None,
    });
    assert_eq!(action, Action::Finish);
    assert_eq!(waits, 1);
    let names = names_of(&p.into_items()).unwrap();
    assert_eq!(names, vec!["alpha", "beta"]);
}

#[test]
fn throttle_two_steps_back_does_not_excuse_repeat() {
    let mut p: Paginator<String> = Paginator::new_forward();
    assert_eq!(p.step(page(&["a"], Some("t1"))), Action::Fetch);
    assert_eq!(p.step(Reply::RateLimited), Action::WaitThenFetch);
    assert_eq!(p.step(page(&["b"], Some("t2"))), Action::Fetch);
    assert_eq!(p.next_token(), Some("t2".to_string()));
    assert_eq!(p.step(page(&["c"], Some("t2"))), Action::Finish);
    assert_eq!(p.into_items(), vec!["a", "b", "c"]);
}

#[test]
fn throttle_before_first_page_does_not_excuse_later_repeat() {
    let mut p: Paginator<String> = Paginator::new_forward();
    assert_eq!(p.step(Reply::RateLimited), Action::WaitThenFetch);
    assert_eq!(p.step(page(&["a"], Some("f1"))), Action::Fetch);
    assert_eq!(p.step(page(&["b"], Some("f1"))), Action::Finish);
    assert_eq!(p.into_items(), vec!["a", "b"]);
}

#[test]
fn repeated_token_after_throttle_then_stall() {
    let mut p: Paginator<String> = Paginator::new_forward();
    assert_eq!(p.step(page(&["a"], Some("t"))), Action::Fetch);
    assert_eq!(p.step(Reply::RateLimited), Action::WaitThenFetch);
    assert_eq!(p.next_token(), Some("t".to_string()));
    assert_eq!(p.step(page(&["b"], Some("t"))), Action::Fetch);
    assert_eq!(p.next_token(), Some("t".to_string()));
    assert_eq!(p.step(page(&["c"], Some("t"))), Action::Finish);
    assert_eq!(p.into_items(), vec!["a", "b", "c"]);
}
