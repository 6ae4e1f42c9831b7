use ecampus_sync::mapper::{map_event, map_properties};
use ecampus_sync::model::{Calendar, SourceEvent, SourceProperty};

fn prop(name: &str, value: Option<&str>) -> SourceProperty {
    SourceProperty { name: name.to_string(), value: value.map(|v| v.to_string()) }
}

fn school() -> Calendar {
    Calendar { name: "School".to_string(), url: "/calendars/school/".to_string() }
}

#[test]
fn map_preserves_order_and_names() {
    let props = vec![
        prop("SUMMARY", Some("Midterm Exam")),
        prop("DTSTART", Some("20240315T090000Z")),
        prop("DTEND", Some("20240315T110000Z")),
        prop("DESCRIPTION", Some("Room 12")),
    ];
    let mapped = map_properties(&props);
    assert_eq!(mapped.len(), 4);
    let names: Vec<&str> = mapped.iter().map(|p| p.name.as_str()).collect();
    assert_eq!(names, vec!["SUMMARY", "DTSTART", "DTEND", "DESCRIPTION"]);
    assert_eq!(mapped[0].value, "Midterm Exam");
    assert_eq!(mapped[1].value, "20240315T090000Z");
}

#[test]
fn map_normalizes_absent_values() {
    let props = vec![prop("DESCRIPTION", None), prop("LOCATION", Some("Hall A"))];
    let mapped = map_properties(&props);
    assert_eq!(mapped.len(), 2);
    assert_eq!(mapped[0].name, "DESCRIPTION");
    assert_eq!(mapped[0].value, "");
    assert_eq!(mapped[1].value, "Hall A");
}

#[test]
fn map_empty_event_gives_empty_properties() {
    let props: Vec<SourceProperty> = Vec::new();
    let mapped = map_properties(&props);
    assert_eq!(mapped.len(), 0);
}

#[test]
fn mapped_event_is_a_creation_with_placeholder_title() {
    let event = SourceEvent { properties: vec![prop("SUMMARY", Some("Midterm Exam"))] };
    let dest = map_event(&event, &school());
    assert!(dest.identity.is_none());
    assert_eq!(dest.calendar_url, "/calendars/school/");
    assert_eq!(dest.title, "Test??");
    assert!(!dest.title.is_empty());
    assert_eq!(dest.properties.len(), 1);
    assert_eq!(dest.properties[0].name, "SUMMARY");
    assert_eq!(dest.properties[0].value, "Midterm Exam");
    assert_eq!(dest.children.len(), 0);
}

#[test]
fn reserved_name_passes_through_unchanged() {
    let props = vec![prop("UID", Some("abc-123")), prop("SUMMARY", Some("x"))];
    let mapped = map_properties(&props);
    assert_eq!(mapped[0].name, "UID");
    assert_eq!(mapped[0].value, "abc-123");
}
