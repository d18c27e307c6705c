use rsp10::ids::{get_sid, match_nested_target};
use rsp10::text::split_components;

#[test]
fn nested_target_parts() {
    assert_eq!(match_nested_target("rows", "rows__12__qty"), Some(("qty".to_string(), 12)));
    assert_eq!(match_nested_target("rows", "rows__3__qty__more"), Some(("qty".to_string(), 3)));
}

#[test]
fn nested_target_refusals() {
    assert_eq!(match_nested_target("cols", "rows__1__qty"), None);
    assert_eq!(match_nested_target("rows", "rows__x__qty"), None);
    assert_eq!(match_nested_target("rows", "rows__1__"), None);
    assert_eq!(match_nested_target("rows", "rows_1__qty"), None);
    assert_eq!(match_nested_target("", "__1__qty"), None);
    assert_eq!(match_nested_target("rows", "rows__99999999999999999999999__qty"), None);
}

#[test]
fn short_ids() {
    assert_eq!(get_sid("txtName"), Some("txtName".to_string()));
    assert_eq!(get_sid("rows__0__qty"), Some("qty".to_string()));
    assert_eq!(get_sid("rows__0"), None);
}

#[test]
fn components_of_paths() {
    assert_eq!(split_components("a::b::c", ':', ':'), vec!["a", "b", "c"]);
    assert_eq!(split_components("", ':', ':'), vec![""]);
    assert_eq!(split_components("a:::b", ':', ':'), vec!["a", ":b"]);
}
