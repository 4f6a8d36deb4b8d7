use askpass_watch::{Context, PendingRequests, Resolution};

fn push(branch_id: Option<&str>) -> Context {
    Context::Push { branch_id: branch_id.map(|b| b.to_string()) }
}

fn fetch(action: &str) -> Context {
    Context::Fetch { action: action.to_string() }
}

#[test]
fn submit_issues_fresh_ids_and_builds_the_event() {
    let mut table = PendingRequests::new();
    let (first, _rx1) = table.submit("password?".to_string(), push(Some("b-1"))).unwrap();
    let (second, _rx2) = table.submit("token?".to_string(), fetch("fetch-origin")).unwrap();
    assert_ne!(first.id, second.id);
    assert_eq!(first.prompt, "password?");
    assert_eq!(first.context, push(Some("b-1")));
    assert_eq!(second.prompt, "token?");
    assert_eq!(second.context, fetch("fetch-origin"));
    assert!(table.is_pending(first.id));
    assert!(table.is_pending(second.id));
}

#[test]
fn response_reaches_its_own_submitter() {
    let mut table = PendingRequests::new();
    let (a, mut rx_a) = table.submit("a".to_string(), push(None)).unwrap();
    let (b, mut rx_b) = table.submit("b".to_string(), push(None)).unwrap();
    assert_eq!(table.handle_response(b.id, Some("for-b".to_string())), Resolution::Delivered);
    assert_eq!(table.handle_response(a.id, Some("for-a".to_string())), Resolution::Delivered);
    assert_eq!(rx_a.try_recv().unwrap(), Some("for-a".to_string()));
    assert_eq!(rx_b.try_recv().unwrap(), Some("for-b".to_string()));
}

#[test]
fn second_response_for_an_id_is_a_no_op() {
    let mut table = PendingRequests::new();
    let (event, mut rx) = table.submit("p".to_string(), push(None)).unwrap();
    assert_eq!(table.handle_response(event.id, Some("one".to_string())), Resolution::Delivered);
    assert!(!table.is_pending(event.id));
    assert_eq!(table.handle_response(event.id, Some("two".to_string())), Resolution::Unknown);
    assert_eq!(rx.try_recv().unwrap(), Some("one".to_string()));
    let (later, _rx) = table.submit("q".to_string(), push(None)).unwrap();
    assert_ne!(later.id, event.id);
}

#[test]
fn unknown_id_changes_nothing() {
    let mut table = PendingRequests::new();
    let (event, mut rx) = table.submit("p".to_string(), push(None)).unwrap();
    let unknown = event.id + 1000;
    assert_eq!(table.handle_response(unknown, Some("x".to_string())), Resolution::Unknown);
    assert!(table.is_pending(event.id));
    assert!(rx.try_recv().is_err());
    assert_eq!(table.handle_response(event.id, Some("y".to_string())), Resolution::Delivered);
    assert_eq!(rx.try_recv().unwrap(), Some("y".to_string()));
}

#[test]
fn response_to_a_submitter_that_left_comes_back() {
    let mut table = PendingRequests::new();
    let (event, rx) = table.submit("p".to_string(), push(None)).unwrap();
    drop(rx);
    assert_eq!(
        table.handle_response(event.id, Some("late".to_string())),
        Resolution::Abandoned(Some("late".to_string()))
    );
    assert!(!table.is_pending(event.id));
}

#[test]
fn unanswered_prompt_stays_pending() {
    let mut table = PendingRequests::new();
    let (event, mut rx) = table.submit("p".to_string(), push(None)).unwrap();
    let (other, _rx) = table.submit("q".to_string(), push(None)).unwrap();
    assert_eq!(table.handle_response(other.id, None), Resolution::Delivered);
    assert!(table.is_pending(event.id));
    assert!(rx.try_recv().is_err());
}

#[test]
fn anonymous_push_then_declined_fetch() {
    let mut table = PendingRequests::new();
    let (push_event, mut push_rx) = table
        .submit("checking out anonymous branch".to_string(), push(None))
        .unwrap();
    assert_eq!(push_event.context, Context::Push { branch_id: None });
    assert_eq!(
        table.handle_response(push_event.id, Some("s3cret".to_string())),
        Resolution::Delivered
    );
    assert_eq!(push_rx.try_recv().unwrap(), Some("s3cret".to_string()));

    let (fetch_event, mut fetch_rx) = table.submit("fetch".to_string(), fetch("fetch origin")).unwrap();
    assert_eq!(table.handle_response(fetch_event.id, None), Resolution::Delivered);
    assert_eq!(fetch_rx.try_recv().unwrap(), None);
}
