use ecampus_sync::errors::SyncError;
use ecampus_sync::feed::parse_feed;

fn bytes(text: &str) -> Vec<u8> {
    text.as_bytes().to_vec()
}

#[test]
fn parses_feed_with_one_event() {
    let body = bytes(
        "BEGIN:VCALENDAR\r\nBEGIN:VEVENT\r\nSUMMARY:Midterm Exam\r\nDTSTART:20240315T090000Z\r\nEND:VEVENT\r\nEND:VCALENDAR\r\n",
    );
    let cal = parse_feed(&body).expect("the document holds one calendar object");
    assert_eq!(cal.events.len(), 1);
    let names: Vec<&str> = cal.events[0].properties.iter().map(|p| p.name.as_str()).collect();
    assert_eq!(names, vec!["SUMMARY", "DTSTART"]);
    assert_eq!(cal.events[0].properties[0].value.as_deref(), Some("Midterm Exam"));
    assert_eq!(cal.events[0].properties[1].value.as_deref(), Some("20240315T090000Z"));
}

#[test]
fn empty_document_is_an_empty_feed() {
    let r = parse_feed(&bytes(""));
    assert!(matches!(r, Err(SyncError::EmptyFeed)));
}

#[test]
fn unparseable_document_is_a_parse_failure() {
    let r = parse_feed(&bytes("this is not an icalendar document\r\n"));
    assert!(matches!(r, Err(SyncError::Parse(_))));
}

#[test]
fn calendar_with_zero_events_parses() {
    let cal = parse_feed(&bytes("BEGIN:VCALENDAR\r\nEND:VCALENDAR\r\n"))
        .expect("one calendar object, zero events");
    assert_eq!(cal.events.len(), 0);
}

#[test]
fn first_calendar_object_is_taken() {
    let body = bytes(
        "BEGIN:VCALENDAR\r\nBEGIN:VEVENT\r\nSUMMARY:First\r\nEND:VEVENT\r\nEND:VCALENDAR\r\nBEGIN:VCALENDAR\r\nBEGIN:VEVENT\r\nSUMMARY:Second\r\nEND:VEVENT\r\nEND:VCALENDAR\r\n",
    );
    let cal = parse_feed(&body).expect("the first calendar object");
    assert_eq!(cal.events.len(), 1);
    assert_eq!(cal.events[0].properties[0].value.as_deref(), Some("First"));
}

#[test]
fn value_after_bare_colon_is_absent() {
    let body = bytes(
        "BEGIN:VCALENDAR\r\nBEGIN:VEVENT\r\nDESCRIPTION:\r\nEND:VEVENT\r\nEND:VCALENDAR\r\n",
    );
    let cal = parse_feed(&body).expect("one calendar object");
    assert_eq!(cal.events[0].properties[0].name, "DESCRIPTION");
    assert!(cal.events[0].properties[0].value.is_none());
}
