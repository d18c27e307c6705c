use rsp10::event::extract_event;
use rsp10::form::FormData;

fn form(pairs: &[(&str, &str)]) -> FormData {
    let mut f = FormData::new();
    for (k, v) in pairs {
        f.insert(k.to_string(), v.to_string());
    }
    f
}

#[test]
fn submit_button_gives_submit_with_its_target() {
    let ev = extract_event(&form(&[("submitSave", "1")]));
    assert_eq!(ev.event, "submit");
    assert_eq!(ev.target, "Save");
}

#[test]
fn explicit_event_wins_over_buttons() {
    let ev = extract_event(&form(&[("submitSave", "1"), ("event", "custom"), ("event_target", "x")]));
    assert_eq!(ev.event, "custom");
    assert_eq!(ev.target, "x");
}

#[test]
fn explicit_event_alone() {
    let ev = extract_event(&form(&[("event", "custom"), ("event_target", "x")]));
    assert_eq!(ev.event, "custom");
    assert_eq!(ev.target, "x");
}

#[test]
fn btn_field_gives_submit_with_full_name() {
    let ev = extract_event(&form(&[("txtName", "a"), ("btnGo", "")]));
    assert_eq!(ev.event, "submit");
    assert_eq!(ev.target, "btnGo");
}

#[test]
fn submit_field_comes_before_btn_field() {
    let ev = extract_event(&form(&[("btnGo", ""), ("submit_lt", "")]));
    assert_eq!(ev.event, "submit");
    assert_eq!(ev.target, "_lt");
}

#[test]
fn first_submit_field_in_form_order() {
    let ev = extract_event(&form(&[("submitA", ""), ("submitB", "")]));
    assert_eq!(ev.target, "A");
}

#[test]
fn no_event_gives_unknown() {
    let ev = extract_event(&form(&[("txtName", "a")]));
    assert_eq!(ev.event, "unknown");
    assert_eq!(ev.target, "");
}

#[test]
fn empty_form_gives_unknown() {
    let ev = extract_event(&FormData::new());
    assert_eq!(ev.event, "unknown");
    assert_eq!(ev.target, "");
}

#[test]
fn explicit_unknown_still_scans_buttons() {
    let ev = extract_event(&form(&[("event", "unknown"), ("submitX", "")]));
    assert_eq!(ev.event, "submit");
    assert_eq!(ev.target, "X");
}

#[test]
fn target_without_event() {
    let ev = extract_event(&form(&[("event_target", "t"), ("submitX", "")]));
    assert_eq!(ev.event, "unknown");
    assert_eq!(ev.target, "t");
}

#[test]
fn form_keeps_values_in_order() {
    let f = form(&[("a", "1"), ("b", "2"), ("a", "3")]);
    assert_eq!(f.len(), 2);
    assert_eq!(f.first("a"), Some("1".to_string()));
    assert_eq!(f.get("a").unwrap().clone(), vec!["1".to_string(), "3".to_string()]);
    assert_eq!(f.name_at(1), "b");
    assert!(f.contains_key("b"));
    assert!(!f.contains_key("c"));
    assert_eq!(f.index_of("b"), Some(1));
}
