use rsp10::data::{FooMapBuilder, FooVecBuilder, TemplateData};
use rsp10::html::{
    button_label, control_kind, rsp10_button, rsp10_check, rsp10_select, rsp10_text, ControlKind, HtmlSelect,
};

fn options() -> HtmlSelect<i32> {
    let mut dd = HtmlSelect::new(0);
    dd.item("A", 1);
    dd.item("B", 2);
    dd
}

#[test]
fn select_falls_back_to_first_option() {
    let mut dd = options();
    let mut bound = 99;
    dd.set_selected_value(&mut bound);
    assert_eq!(bound, 1);
    assert_eq!(dd.selected_value, 1);
    assert!(dd.items[0].selected);
    assert!(!dd.items[1].selected);
}

#[test]
fn select_marks_the_matching_option() {
    let mut dd = options();
    let mut bound = 2;
    dd.set_selected_value(&mut bound);
    assert_eq!(bound, 2);
    assert_eq!(dd.selected_value, 2);
    assert!(!dd.items[0].selected);
    assert!(dd.items[1].selected);
}

#[test]
fn select_without_options_changes_nothing() {
    let mut dd: HtmlSelect<i32> = HtmlSelect::new(5);
    let mut bound = 99;
    dd.set_selected_value(&mut bound);
    assert_eq!(bound, 99);
    assert_eq!(dd.selected_value, 5);
}

#[test]
fn items_are_numbered_in_order() {
    let dd = options();
    assert_eq!(dd.items[0].i, 0);
    assert_eq!(dd.items[1].i, 1);
    assert_eq!(dd.items[1].user_label, "B");
    let mut s: HtmlSelect<String> = HtmlSelect::new(String::new());
    s.item1("red");
    assert_eq!(s.items[0].value, "red");
    assert_eq!(s.items[0].user_label, "red");
}

#[test]
fn text_field_highlights_changes() {
    let mut gd = FooMapBuilder::new();
    let mut modified = false;
    let t = rsp10_text(&mut gd, "txtName", &"a".to_string(), &"a".to_string(), &mut modified);
    assert!(!t.highlight);
    assert!(!modified);
    let t = rsp10_text(&mut gd, "txtOther", &"b".to_string(), &"a".to_string(), &mut modified);
    assert!(t.highlight);
    assert_eq!(t.value, "b");
    assert_eq!(t.id, "txtOther");
    assert!(modified);
}

#[test]
fn number_text_field_shows_decimal() {
    let mut gd = FooMapBuilder::new();
    let mut modified = false;
    let t = rsp10_text(&mut gd, "txtCount", &-42i32, &-42i32, &mut modified);
    assert_eq!(t.value, "-42");
    assert!(!t.highlight);
}

#[test]
fn check_field_highlights_changes() {
    let mut gd = FooMapBuilder::new();
    let mut modified = false;
    let c = rsp10_check(&mut gd, "cbOk", true, false, &mut modified);
    assert!(c.checked);
    assert!(c.highlight);
    assert!(modified);
}

#[test]
fn modified_stays_set() {
    let mut gd = FooMapBuilder::new();
    let mut modified = true;
    let c = rsp10_check(&mut gd, "cbOk", true, true, &mut modified);
    assert!(!c.highlight);
    assert!(modified);
}

#[test]
fn select_field_corrects_and_highlights() {
    let mut gd = FooMapBuilder::new();
    let mut modified = false;
    let mut current = 99;
    let dd = rsp10_select(&mut gd, "ddPick", options(), &mut current, &1, &mut modified);
    assert_eq!(current, 1);
    assert!(!dd.highlight);
    assert!(!modified);
    assert_eq!(dd.id, "ddPick");
}

#[test]
fn button_is_never_highlighted() {
    let mut gd = FooMapBuilder::new();
    let b = rsp10_button(&mut gd, "btnSave", "Save");
    assert!(!b.highlight);
    assert_eq!(b.value, "Save");
    match gd.build() {
        TemplateData::Fields(f) => {
            assert_eq!(f.len(), 1);
            assert_eq!(f[0].0, "btnSave");
        }
        other => panic!("unexpected {:?}", other),
    }
}

#[test]
fn control_kinds_by_prefix() {
    assert_eq!(control_kind("txtName"), ControlKind::Text);
    assert_eq!(control_kind("ddPick"), ControlKind::Dropdown);
    assert_eq!(control_kind("cbOk"), ControlKind::Checkbox);
    assert_eq!(control_kind("rbWhich"), ControlKind::Radio);
    assert_eq!(control_kind("btnGo"), ControlKind::Button);
    assert_eq!(control_kind("message"), ControlKind::Plain);
    assert_eq!(button_label("btnGo"), "Go");
    assert_eq!(button_label("go"), "go");
}

#[test]
fn builder_replaces_and_refuses_kind_changes() {
    let mut gd = FooMapBuilder::new();
    assert!(gd.insert("a", TemplateData::Int(1)));
    assert!(gd.insert("a", TemplateData::Int(2)));
    assert!(!gd.vector("a", FooVecBuilder::new("a")));
    let mut rows = FooVecBuilder::new("rows");
    rows.add_field("x", TemplateData::Int(1));
    assert!(gd.vector("rows", rows));
    assert!(!gd.insert("rows", TemplateData::Null));
    let built = gd.build();
    let expected = TemplateData::Fields(vec![
        ("a".to_string(), TemplateData::Int(2)),
        (
            "rows".to_string(),
            TemplateData::List(vec![TemplateData::Fields(vec![("x".to_string(), TemplateData::Int(1))])]),
        ),
    ]);
    assert_eq!(built, expected);
}

#[test]
fn vector_parts_by_position() {
    let mut v = FooVecBuilder::new("rows");
    v.add_field_at(0, "a", TemplateData::Int(1));
    v.add_field_at(0, "b", TemplateData::Int(2));
    v.add_field_at(3, "c", TemplateData::Int(3));
    let expected = TemplateData::List(vec![
        TemplateData::Fields(vec![("a".to_string(), TemplateData::Int(1)), ("b".to_string(), TemplateData::Int(2))]),
        TemplateData::Fields(vec![]),
        TemplateData::Fields(vec![("c".to_string(), TemplateData::Int(3))]),
    ]);
    assert_eq!(v.build(), expected);
}

#[test]
fn helpers_store_their_descriptors() {
    let mut gd = FooMapBuilder::new();
    let mut modified = false;
    let t = rsp10_text(&mut gd, "txtName", &"b".to_string(), &"a".to_string(), &mut modified);
    let c = rsp10_check(&mut gd, "cbOk", false, false, &mut modified);
    assert!(rsp10::html::rsp10_modified(&mut gd, modified));
    match gd.build() {
        TemplateData::Fields(f) => {
            assert_eq!(f.len(), 3);
            assert_eq!(f[0], ("txtName".to_string(), t.to_data()));
            assert_eq!(f[1], ("cbOk".to_string(), c.to_data()));
            assert_eq!(f[2], ("modified".to_string(), TemplateData::Bool(true)));
        }
        other => panic!("unexpected {:?}", other),
    }
}

#[test]
fn helper_leaves_a_list_alone() {
    let mut gd = FooMapBuilder::new();
    assert!(gd.vector("txtName", FooVecBuilder::new("txtName")));
    let mut modified = false;
    rsp10_text(&mut gd, "txtName", &"b".to_string(), &"b".to_string(), &mut modified);
    match gd.build() {
        TemplateData::Fields(f) => assert_eq!(f[0], ("txtName".to_string(), TemplateData::List(vec![]))),
        other => panic!("unexpected {:?}", other),
    }
}

#[test]
fn vector_appends_to_an_existing_list() {
    let mut gd = FooMapBuilder::new();
    let mut a = FooVecBuilder::new("rows");
    a.add_field("x", TemplateData::Int(1));
    let mut b = FooVecBuilder::new("rows");
    b.add_field("x", TemplateData::Int(2));
    assert!(gd.vector("rows", a));
    assert!(gd.vector("rows", b));
    let expected = TemplateData::Fields(vec![(
        "rows".to_string(),
        TemplateData::List(vec![
            TemplateData::Fields(vec![("x".to_string(), TemplateData::Int(1))]),
            TemplateData::Fields(vec![("x".to_string(), TemplateData::Int(2))]),
        ]),
    )]);
    assert_eq!(gd.build(), expected);
}

#[test]
fn selecting_twice_changes_nothing() {
    let mut dd = options();
    let mut bound = 99;
    dd.set_selected_value(&mut bound);
    let first: Vec<bool> = dd.items.iter().map(|i| i.selected).collect();
    dd.set_selected_value(&mut bound);
    let second: Vec<bool> = dd.items.iter().map(|i| i.selected).collect();
    assert_eq!(first, second);
    assert_eq!(bound, 1);
}
