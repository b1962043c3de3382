use telegram_relay::ascii::normalize_target;
use telegram_relay::resolver::{scan_updates, Update};

fn up(id: Option<i64>, sender: Option<&str>, chat: Option<i64>) -> Update {
    Update { update_id: id, sender: sender.map(|s| s.to_string()), chat }
}

#[test]
fn cursor_advances_past_all_and_finds_match() {
    let ups = vec![
        up(Some(5), Some("someone"), Some(1)),
        up(Some(6), Some("other"), Some(2)),
        up(Some(7), Some("alice"), Some(42)),
    ];
    let target = normalize_target("@alice");
    let r = scan_updates(None, &ups, target.as_str());
    assert_eq!(r.chat, Some(42));
    assert_eq!(r.next_offset, Some(8));
    // A later cycle polling from offset 8 with nothing new keeps the cursor.
    let r2 = scan_updates(Some(8), &Vec::new(), target.as_str());
    assert_eq!(r2.chat, None);
    assert_eq!(r2.next_offset, Some(8));
}

#[test]
fn unmatched_batch_still_advances_cursor() {
    let ups = vec![
        up(Some(5), Some("bob"), Some(1)),
        up(Some(6), Some("carol"), Some(2)),
    ];
    let target = normalize_target("alice");
    let r = scan_updates(None, &ups, target.as_str());
    assert_eq!(r.chat, None);
    assert_eq!(r.next_offset, Some(7));
}

#[test]
fn match_is_case_insensitive_and_tolerates_at() {
    let ups = vec![up(Some(1), Some("AlIcE"), Some(9))];
    let target = normalize_target("@ALICE");
    assert_eq!(target, "ALICE");
    let r = scan_updates(None, &ups, target.as_str());
    assert_eq!(r.chat, Some(9));
    assert_eq!(r.next_offset, Some(2));
}

#[test]
fn match_without_chat_id_is_skipped() {
    let ups = vec![up(Some(3), Some("alice"), None)];
    let r = scan_updates(None, &ups, "alice");
    assert_eq!(r.chat, None);
    assert_eq!(r.next_offset, Some(4));
}

#[test]
fn malformed_entries_are_skipped_silently() {
    let ups = vec![
        up(Some(9), None, None),
        up(None, None, None),
        up(Some(10), None, Some(5)),
    ];
    let r = scan_updates(None, &ups, "alice");
    assert_eq!(r.chat, None);
    assert_eq!(r.next_offset, Some(11));
}

#[test]
fn empty_batch_keeps_cursor() {
    let r = scan_updates(Some(3), &Vec::new(), "alice");
    assert_eq!(r.chat, None);
    assert_eq!(r.next_offset, Some(3));
    let r2 = scan_updates(None, &Vec::new(), "alice");
    assert_eq!(r2.chat, None);
    assert_eq!(r2.next_offset, None);
}

#[test]
fn match_stops_the_scan_where_it_stands() {
    // The match in the middle returns at once: later ids are not processed.
    let ups = vec![
        up(Some(5), Some("alice"), Some(7)),
        up(Some(6), Some("alice"), Some(8)),
    ];
    let r = scan_updates(None, &ups, "alice");
    assert_eq!(r.chat, Some(7));
    assert_eq!(r.next_offset, Some(6));
}

#[test]
fn normalize_strips_one_leading_at() {
    assert_eq!(normalize_target("@alice"), "alice");
    assert_eq!(normalize_target("alice"), "alice");
    assert_eq!(normalize_target("@@alice"), "@alice");
    assert_eq!(normalize_target(""), "");
}

#[test]
fn scan_offset_updates_even_at_extreme_id() {
    let ups = vec![up(Some(i64::MAX), None, None)];
    let r = scan_updates(None, &ups, "alice");
    assert_eq!(r.next_offset, Some(i64::MAX));
    assert_eq!(r.chat, None);
}
