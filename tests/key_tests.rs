use rsp10::form::FormData;
use rsp10::key::{arg_bool, arg_i32, arg_i64, arg_opt_i32, arg_opt_i64, arg_opt_string, arg_opt_u64, arg_string, arg_u32, arg_u64, RspKey};

#[derive(Debug, Default, PartialEq)]
struct RecordKey {
    id: Option<i32>,
    name: String,
    count: i64,
    archived: bool,
}

impl RspKey for RecordKey {
    fn from_query_args(args: &FormData) -> Option<Self> {
        Some(RecordKey {
            id: arg_opt_i32(args, "id"),
            name: arg_string(args, "name"),
            count: arg_i64(args, "count"),
            archived: arg_bool(args, "archived"),
        })
    }
}

fn args(pairs: &[(&str, &str)]) -> FormData {
    let mut f = FormData::new();
    for (k, v) in pairs {
        f.insert(k.to_string(), v.to_string());
    }
    f
}

#[test]
fn empty_query_gives_default_key() {
    let key = RecordKey::from_query_args(&FormData::new()).unwrap();
    assert_eq!(key, RecordKey::default());
}

#[test]
fn fields_read_by_name() {
    let key = RecordKey::from_query_args(&args(&[("id", "7"), ("name", "x"), ("count", "-3"), ("archived", "1")])).unwrap();
    assert_eq!(key, RecordKey { id: Some(7), name: "x".to_string(), count: -3, archived: true });
}

#[test]
fn malformed_fields_fall_back() {
    let key = RecordKey::from_query_args(&args(&[("id", "seven"), ("count", "1.5"), ("archived", "yes")])).unwrap();
    assert_eq!(key, RecordKey::default());
}

#[test]
fn integer_edges() {
    assert_eq!(arg_i64(&args(&[("n", "9223372036854775807")]), "n"), i64::MAX);
    assert_eq!(arg_i64(&args(&[("n", "-9223372036854775808")]), "n"), i64::MIN);
    assert_eq!(arg_i64(&args(&[("n", "9223372036854775808")]), "n"), 0);
    assert_eq!(arg_i64(&args(&[("n", "+12")]), "n"), 12);
    assert_eq!(arg_i64(&args(&[("n", "-")]), "n"), 0);
    assert_eq!(arg_i64(&args(&[("n", "")]), "n"), 0);
    assert_eq!(arg_i64(&args(&[("n", " 1")]), "n"), 0);
    assert_eq!(arg_opt_i64(&args(&[("n", "12a")]), "n"), None);
    assert_eq!(arg_opt_i32(&args(&[("n", "2147483648")]), "n"), None);
    assert_eq!(arg_i32(&args(&[("n", "-2147483648")]), "n"), i32::MIN);
}

#[test]
fn bool_words() {
    assert!(arg_bool(&args(&[("b", "true")]), "b"));
    assert!(arg_bool(&args(&[("b", "1")]), "b"));
    assert!(!arg_bool(&args(&[("b", "on")]), "b"));
    assert!(!arg_bool(&FormData::new(), "b"));
}

#[test]
fn unsigned_and_text_fields() {
    assert_eq!(arg_u64(&args(&[("n", "18446744073709551615")]), "n"), u64::MAX);
    assert_eq!(arg_u64(&args(&[("n", "18446744073709551616")]), "n"), 0);
    assert_eq!(arg_u64(&args(&[("n", "+7")]), "n"), 7);
    assert_eq!(arg_opt_u64(&args(&[("n", "-1")]), "n"), None);
    assert_eq!(arg_u32(&args(&[("n", "4294967296")]), "n"), 0);
    assert_eq!(arg_u32(&args(&[("n", "4294967295")]), "n"), u32::MAX);
    assert_eq!(arg_opt_string(&args(&[("s", "")]), "s"), Some(String::new()));
    assert_eq!(arg_opt_string(&FormData::new(), "s"), None);
}
