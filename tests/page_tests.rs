use rsp10::auth::NoPageAuth;
use rsp10::data::TemplateData;
use rsp10::form::FormData;
use rsp10::html::rsp10_text;
use rsp10::json::JsonValue;
use rsp10::key::{arg_i64, RspKey};
use rsp10::page::{
    choose_template_name, derive_key, finish_page, apply_action, resolve_states, run_page, template_name_from_path, ActionOutcome, PageOutcome, RspAction,
    RspDataBuilder, RspEventHandlerResult, RspFillDataResult, RspInfo, RspState,
};

#[derive(Debug, Default, Clone, PartialEq)]
struct CounterKey {
    id: i64,
}

impl RspKey for CounterKey {
    fn from_query_args(args: &FormData) -> Option<Self> {
        Some(CounterKey { id: arg_i64(args, "id") })
    }
}

#[derive(Debug, Clone, PartialEq)]
struct CounterPage {
    txt_label: String,
    count: i64,
}

fn field<'a>(fields: &'a [(String, JsonValue)], name: &str) -> Option<&'a JsonValue> {
    fields.iter().find(|(k, _)| k == name).map(|(_, v)| v)
}

impl RspState<CounterKey, NoPageAuth> for CounterPage {
    fn initial_for(auth: NoPageAuth, key: CounterKey) -> CounterPage {
        Self::get_state(&auth, &key)
    }

    fn get_state(_auth: &NoPageAuth, key: &CounterKey) -> CounterPage {
        CounterPage { txt_label: format!("item {}", key.id), count: key.id * 10 }
    }

    fn duplicate(&self) -> CounterPage {
        self.clone()
    }

    fn from_json(tree: &JsonValue) -> Option<CounterPage> {
        match tree {
            JsonValue::Object(fields) => {
                let txt_label = match field(fields, "txt_label")? {
                    JsonValue::String(s) => s.clone(),
                    _ => return None,
                };
                let count = match field(fields, "count")? {
                    JsonValue::Number(n) => n.parse().ok()?,
                    _ => return None,
                };
                Some(CounterPage { txt_label, count })
            }
            _ => None,
        }
    }

    fn event_handler(ri: RspInfo<Self, CounterKey, NoPageAuth>) -> RspEventHandlerResult<Self, CounterKey> {
        let mut state = ri.state;
        let mut action = RspAction::Render;
        if ri.event.event == "submit" {
            match ri.event.target.as_str() {
                "Inc" => state.count += 1,
                "Reload" => {
                    state.count = -1;
                    action = RspAction::ReloadState;
                }
                "Next" => action = RspAction::SetKey(CounterKey { id: ri.key.id + 1 }),
                "Away" => action = RspAction::RedirectTo("/elsewhere".to_string()),
                _ => {}
            }
        }
        RspEventHandlerResult { state, initial_state: ri.initial_state, action, new_auth: None }
    }

    fn fill_data(ri: RspInfo<Self, CounterKey, NoPageAuth>) -> RspFillDataResult<Self> {
        let mut gd = RspDataBuilder::new();
        let mut modified = false;
        rsp10_text(&mut gd, "txt_label", &ri.state.txt_label, &ri.initial_state.txt_label, &mut modified);
        gd.insert("modified", TemplateData::Bool(modified));
        Self::fill_data_result(ri, gd)
    }
}

fn form(pairs: &[(&str, &str)]) -> FormData {
    let mut f = FormData::new();
    for (k, v) in pairs {
        f.insert(k.to_string(), v.to_string());
    }
    f
}

const PATH: &str = "app::pages::counter::CounterPage";

fn render(query: &FormData, posted: &FormData) -> rsp10::page::RenderPlan<CounterPage, CounterKey> {
    match run_page::<CounterPage, CounterKey, NoPageAuth>(&NoPageAuth {}, query, posted, PATH) {
        PageOutcome::Render(p) => p,
        PageOutcome::Redirect { to, .. } => panic!("redirected to {}", to),
    }
}

#[test]
fn fresh_load_uses_the_key_and_is_clean() {
    let p = render(&form(&[("id", "3")]), &FormData::new());
    assert_eq!(p.key, CounterKey { id: 3 });
    assert_eq!(p.state, CounterPage { txt_label: "item 3".to_string(), count: 30 });
    assert_eq!(p.state, p.initial_state);
    assert_eq!(p.curr_initial_state, p.state);
    assert_eq!(p.template_name, "counter");
    assert_eq!(p.event.event, "unknown");
    match p.data {
        TemplateData::Fields(f) => {
            assert_eq!(f[1], ("modified".to_string(), TemplateData::Bool(false)));
        }
        other => panic!("unexpected {:?}", other),
    }
}

#[test]
fn page_without_query_uses_default_key() {
    let p = render(&FormData::new(), &FormData::new());
    assert_eq!(p.key, CounterKey::default());
    assert_eq!(p.state.count, 0);
}

#[test]
fn posted_state_is_overlaid_and_handled() {
    let posted = form(&[
        ("state_json", r#"{"txt_label": "item 3", "count": 30}"#),
        ("initial_state_json", r#"{"txt_label": "item 3", "count": 30}"#),
        ("txt_label", "renamed"),
        ("submitInc", ""),
    ]);
    let p = render(&form(&[("id", "3")]), &posted);
    assert_eq!(p.state, CounterPage { txt_label: "renamed".to_string(), count: 31 });
    assert_eq!(p.initial_state.count, 30);
    match p.data {
        TemplateData::Fields(f) => {
            assert_eq!(f[1], ("modified".to_string(), TemplateData::Bool(true)));
        }
        other => panic!("unexpected {:?}", other),
    }
}

#[test]
fn reload_discards_the_handlers_edits() {
    let posted = form(&[("state_json", r#"{"txt_label": "x", "count": 5}"#), ("submitReload", "")]);
    let p = render(&form(&[("id", "2")]), &posted);
    assert_eq!(p.state, CounterPage { txt_label: "item 2".to_string(), count: 20 });
    assert_eq!(p.initial_state, p.state);
}

#[test]
fn set_key_loads_the_new_key() {
    let p = render(&form(&[("id", "2")]), &form(&[("submitNext", "")]));
    assert_eq!(p.key, CounterKey { id: 3 });
    assert_eq!(p.state.count, 30);
}

#[test]
fn redirect_skips_rendering() {
    let r = run_page::<CounterPage, CounterKey, NoPageAuth>(&NoPageAuth {}, &FormData::new(), &form(&[("submitAway", "")]), PATH);
    match r {
        PageOutcome::Redirect { to, new_auth } => {
            assert_eq!(to, "/elsewhere");
            assert!(new_auth.is_none());
        }
        PageOutcome::Render(_) => panic!("rendered"),
    }
}

#[test]
fn reload_twice_equals_once() {
    let auth = NoPageAuth {};
    let key = CounterKey { id: 4 };
    let s = CounterPage { txt_label: "edited".to_string(), count: 1 };
    let once = apply_action::<CounterPage, CounterKey, NoPageAuth>(&auth, RspAction::ReloadState, key.clone(), s.clone(), s.clone(), s.clone());
    let (k1, s1, i1, c1) = match once {
        ActionOutcome::Proceed { key, state, initial_state, curr_initial_state } => (key, state, initial_state, curr_initial_state),
        ActionOutcome::Redirect(_) => panic!("redirect"),
    };
    let twice = apply_action::<CounterPage, CounterKey, NoPageAuth>(&auth, RspAction::ReloadState, k1.clone(), s1.clone(), i1.clone(), c1.clone());
    match twice {
        ActionOutcome::Proceed { key, state, initial_state, curr_initial_state } => {
            assert_eq!(key, k1);
            assert_eq!(state, s1);
            assert_eq!(initial_state, i1);
            assert_eq!(curr_initial_state, c1);
            assert_eq!(state, CounterPage::get_state(&auth, &key));
        }
        ActionOutcome::Redirect(_) => panic!("redirect"),
    }
}

#[test]
fn resolve_prefers_what_the_client_sent() {
    let auth = NoPageAuth {};
    let key = CounterKey { id: 1 };
    let sent = CounterPage { txt_label: "s".to_string(), count: 0 };
    let r = resolve_states::<CounterPage, CounterKey, NoPageAuth>(&auth, &key, Some(sent.clone()), None);
    assert_eq!(r.state, sent);
    assert_eq!(r.initial_state, CounterPage::get_state(&auth, &key));
    assert!(!r.state_none);
    assert!(r.initial_state_none);
    let r = resolve_states::<CounterPage, CounterKey, NoPageAuth>(&auth, &key, None, Some(sent.clone()));
    assert_eq!(r.state, sent);
    assert_eq!(r.initial_state, sent);
}

#[test]
fn template_names_from_paths() {
    assert_eq!(template_name_from_path("simple::teststate::PageState"), "teststate");
    assert_eq!(template_name_from_path("PageState"), "PageState");
    assert_eq!(template_name_from_path("a::B"), "a");
}

#[test]
fn key_order_and_template_choice() {
    assert_eq!(derive_key(Some(1), Some(2), 0), 1);
    assert_eq!(derive_key(None, Some(2), 0), 2);
    assert_eq!(derive_key::<i32>(None, None, 0), 0);
    assert_eq!(choose_template_name("mine".to_string(), PATH), "mine");
    assert_eq!(choose_template_name(String::new(), PATH), "counter");
}

#[test]
fn finish_keeps_the_redirect() {
    let r = finish_page::<CounterPage, CounterKey, NoPageAuth>(
        &NoPageAuth {},
        rsp10::event::extract_event(&FormData::new()),
        ActionOutcome::Redirect("/x".to_string()),
        None,
        String::new(),
        PATH,
    );
    match r {
        PageOutcome::Redirect { to, new_auth } => {
            assert_eq!(to, "/x");
            assert!(new_auth.is_none());
        }
        PageOutcome::Render(_) => panic!("rendered"),
    }
}
