use kcshot::history::{fetch_start, Screenshot, FETCH_COUNT};

#[test]
fn the_first_items_fetch_from_the_start() {
    assert_eq!(fetch_start(0, 0), Some(0));
    assert_eq!(fetch_start(1, 0), Some(0));
    assert_eq!(FETCH_COUNT, 15);
}

#[test]
fn fetched_items_are_not_fetched_again() {
    assert_eq!(fetch_start(15, 3), None);
    assert_eq!(fetch_start(15, 14), None);
    assert_eq!(fetch_start(15, 15), Some(14));
    assert_eq!(fetch_start(30, 40), Some(29));
}

#[test]
fn screenshots_hold_their_record() {
    let shot = Screenshot {
        id: 3,
        path: Some("/tmp/a.png".to_string()),
        time: "now".to_string(),
        url: None,
    };
    let copy = shot.clone();
    assert_eq!(copy.id, 3);
    assert_eq!(copy.path.as_deref(), Some("/tmp/a.png"));
}
