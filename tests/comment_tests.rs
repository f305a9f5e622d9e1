use interniverse::comment::{add_comment, add_comment_at, get_comments, Comment, CommentError};
use std::time::{SystemTime, UNIX_EPOCH};

fn now_ms() -> i64 {
    SystemTime::now().duration_since(UNIX_EPOCH).unwrap().as_millis() as i64
}

#[test]
fn added_comment_is_listed_with_a_later_timestamp() {
    let mut rows = vec![Comment::new("Ann".to_string(), "Old".to_string(), 5, 4000, 7)];
    let before = now_ms();
    let r = add_comment(&mut rows, "Bob".to_string(), "Great team".to_string(), 6500, 7);
    assert_eq!(r, Ok(()));
    let listed = get_comments(&rows, 7);
    assert_eq!(listed.len(), 2);
    assert_eq!(listed[0].get_content(), "Old");
    let added = &listed[1];
    assert_eq!(added.get_author(), "Bob");
    assert_eq!(added.get_content(), "Great team");
    assert_eq!(added.get_rating(), 6500);
    assert_eq!(added.get_listing_id(), 7);
    assert!(added.get_timestamp() >= before);
}

#[test]
fn add_comment_at_stamps_the_given_time() {
    let mut rows = Vec::new();
    assert_eq!(
        add_comment_at(&mut rows, "Jane".to_string(), "Meh".to_string(), 2000, 3, 1234),
        Ok(())
    );
    assert_eq!(rows.len(), 1);
    assert_eq!(rows[0].get_timestamp(), 1234);
}

#[test]
fn out_of_range_rating_is_refused() {
    let mut rows = Vec::new();
    let r = add_comment(&mut rows, "Eve".to_string(), "Spam".to_string(), 10001, 1);
    assert_eq!(r, Err(CommentError::RatingOutOfRange));
    assert!(rows.is_empty());
    let r = add_comment_at(&mut rows, "Eve".to_string(), "Max".to_string(), 10000, 1, 9);
    assert_eq!(r, Ok(()));
    assert_eq!(rows.len(), 1);
}

#[test]
fn comments_are_fetched_by_listing_in_order() {
    let rows = vec![
        Comment::new("A".to_string(), "1".to_string(), 1, 1000, 1),
        Comment::new("B".to_string(), "2".to_string(), 2, 2000, 2),
        Comment::new("C".to_string(), "3".to_string(), 3, 3000, 1),
    ];
    let listed = get_comments(&rows, 1);
    assert_eq!(listed.len(), 2);
    assert_eq!(listed[0].get_author(), "A");
    assert_eq!(listed[1].get_author(), "C");
    assert!(get_comments(&rows, 9).is_empty());
}

#[test]
fn comment_time_label() {
    let c = Comment::new("A".to_string(), "x".to_string(), 1431648000000, 0, 1);
    assert_eq!(c.timestamp_label(), Some("May 15 2015 12:00 AM".to_string()));
    let c = Comment::new("A".to_string(), "x".to_string(), 1431691500999, 0, 1);
    assert_eq!(c.timestamp_label(), Some("May 15 2015 12:05 PM".to_string()));
    let c = Comment::new("A".to_string(), "x".to_string(), -1500, 0, 1);
    assert_eq!(c.timestamp_label(), Some("Dec 31 1969 11:59 PM".to_string()));
}

#[test]
fn far_times_have_labels() {
    let limit = 8_000_000_000_000_000i64;
    for ts in [limit, -limit, 0] {
        let c = Comment::new("A".to_string(), "x".to_string(), ts, 0, 1);
        assert!(c.timestamp_label().is_some());
    }
    let c = Comment::new("A".to_string(), "x".to_string(), 0, 0, 1);
    assert_eq!(c.timestamp_label(), Some("Jan 01 1970 12:00 AM".to_string()));
}
