use rsp10::auth::{CookiePageAuth, NoPageAuth, RspUserAuth};
use rsp10::form::FormData;
use rsp10::http::{form_field_of, AxumResponseBuilder, HttpError, HttpRequest, HttpResponse, IronResponseBuilder, SessionData};
use rsp10::text::{decimal_text, parse_i64, second_last_component, signed_text};

struct FakeRequest {
    form: FormData,
}

impl HttpRequest for FakeRequest {
    fn query_params(&mut self) -> Result<FormData, String> {
        Ok(FormData::new())
    }
    fn form_data(&mut self) -> Result<FormData, String> {
        let mut f = FormData::new();
        for i in 0..self.form.len() {
            let name = self.form.name_at(i).clone();
            for v in self.form.get(&name).unwrap() {
                f.insert(name.clone(), v.clone());
            }
        }
        Ok(f)
    }
}

#[test]
fn iron_error_codes() {
    assert_eq!(IronResponseBuilder::error(404, "x".to_string()).status_code(), 404);
    assert_eq!(IronResponseBuilder::error(418, "x".to_string()).status_code(), 500);
    assert_eq!(IronResponseBuilder::error(401, "x".to_string()).status_code(), 401);
    let r = IronResponseBuilder::redirect("/login");
    assert_eq!(r.status_code(), 302);
    assert_eq!(r.headers()[1], ("Location".to_string(), "/login".to_string()));
    let h = IronResponseBuilder::html("<p>".to_string());
    assert_eq!(h.status_code(), 200);
    assert_eq!(h.content(), "<p>");
    assert_eq!(h.headers().len(), 2);
}

#[test]
fn axum_responses() {
    let mut r = AxumResponseBuilder::redirect("/next");
    assert_eq!(r.status_code(), 302);
    assert_eq!(r.content(), "/next");
    r.set_header("X-A", "1");
    assert_eq!(r.headers()[1], ("X-A".to_string(), "1".to_string()));
    let e = AxumResponseBuilder::error(500, "bad".to_string());
    assert_eq!(e.status_code(), 500);
    assert_eq!(e.headers()[0].1, "text/plain");
}

#[test]
fn error_messages() {
    assert_eq!(HttpError::BadRequest("q".to_string()).message(), "Bad Request: q");
    assert_eq!(HttpError::Unauthorized("u".to_string()).message(), "Unauthorized: u");
    assert_eq!(HttpError::InternalError("i".to_string()).message(), "Internal Error: i");
}

#[test]
fn auth_providers() {
    let mut req = FakeRequest { form: FormData::new() };
    assert!(NoPageAuth::from_request(&mut req).is_ok());
    assert_eq!(CookiePageAuth::from_request(&mut req).unwrap_err(), "/login");
    let admin = CookiePageAuth::new("ann", Some(vec![("administrators".to_string(), true)]));
    assert!(admin.is_admin());
    assert!(!admin.is_super_admin());
    assert!(!CookiePageAuth::new("bob", None).is_admin());
    let s = SessionData { auth_data: None };
    assert!(s.auth_data.is_none());
}

#[test]
fn form_field_reading() {
    let mut f = FormData::new();
    f.insert("a".to_string(), "1".to_string());
    let mut req = FakeRequest { form: f };
    assert_eq!(req.get_form_field("a"), Some("1".to_string()));
    assert_eq!(req.get_form_field("b"), None);
    assert_eq!(form_field_of(&Err("no body".to_string()), "a"), None);
}

#[test]
fn text_helpers() {
    assert_eq!(decimal_text(0), "0");
    assert_eq!(decimal_text(1207), "1207");
    assert_eq!(signed_text(-5), "-5");
    assert_eq!(signed_text(i64::MIN), "-9223372036854775808");
    assert_eq!(parse_i64("-0"), Some(0));
    assert_eq!(second_last_component("a::b::c", ':', ':'), Some("b".to_string()));
    assert_eq!(second_last_component("abc", ':', ':'), None);
    assert_eq!(second_last_component("a__1__b", '_', '_'), Some("1".to_string()));
}

#[test]
fn post_arguments_and_event_of_unreadable_form() {
    let mut f = FormData::new();
    f.insert("state".to_string(), "s".to_string());
    f.insert("submitGo".to_string(), "".to_string());
    let ok: Result<FormData, String> = Ok(f);
    assert_eq!(rsp10::http::req_get_state_string(&ok), "s");
    assert_eq!(rsp10::http::req_get_initial_state_string(&ok), "");
    assert_eq!(rsp10::http::req_get_post_argument(&ok, "state"), "s");
    let ev = rsp10::http::req_get_event(&ok);
    assert_eq!((ev.event.as_str(), ev.target.as_str()), ("submit", "Go"));
    let bad: Result<FormData, String> = Err("no body".to_string());
    assert_eq!(rsp10::http::req_get_post_argument(&bad, "state"), "");
    let ev = rsp10::http::req_get_event(&bad);
    assert_eq!((ev.event.as_str(), ev.target.as_str()), ("unknown", ""));
}
