//! The narrow interface between the page logic and an HTTP transport: what
//! a request offers, and the responses a page produces.
use vstd::prelude::*;

use crate::event::{event_of, extract_event, RspEvent};
use crate::form::{first_value, FormData};
use crate::text::owned;

verus! {

broadcast use vstd::string::group_string_axioms;

/// What the page logic reads from a request, whatever the transport.
pub trait HttpRequest {
    /// The query parameters.
    fn query_params(&mut self) -> Result<FormData, String>;

    /// The posted form fields.
    fn form_data(&mut self) -> Result<FormData, String>;

    /// The first value of the posted field `name`.
    fn get_form_field(&mut self, name: &str) -> Option<String> {
        match self.form_data() {
            Ok(map) => map.first(name),
            Err(_) => None,
        }
    }
}

/// The first value of the field `name` of a form that was read, or `None`
/// where the form could not be read.
pub fn form_field_of(form: &Result<FormData, String>, name: &str) -> (r: Option<String>)
    ensures
        form matches Ok(map) ==> crate::form::opt_text(r) == first_value(map@, name@),
        form is Err ==> r is None,
{
    match form {
        Ok(map) => map.first(name),
        Err(_) => None,
    }
}

/// The first value of the posted field `argname`; empty where the field is
/// missing or the form could not be read.
pub fn req_get_post_argument(form: &Result<FormData, String>, argname: &str) -> (r: String)
    ensures
        form matches Ok(map) ==> r@ == (match first_value(map@, argname@) {
            Some(v) => v,
            None => Seq::<char>::empty(),
        }),
        form is Err ==> r@.len() == 0,
{
    match form_field_of(form, argname) {
        Some(v) => v,
        None => String::new(),
    }
}

/// The posted field `state`, in the form that carries the state as text.
pub fn req_get_state_string(form: &Result<FormData, String>) -> (r: String)
    ensures
        form matches Ok(map) ==> r@ == (match first_value(map@, "state"@) {
            Some(v) => v,
            None => Seq::<char>::empty(),
        }),
        form is Err ==> r@.len() == 0,
{
    req_get_post_argument(form, "state")
}

/// The posted field `initial_state`, in the form that carries the baseline
/// as text.
pub fn req_get_initial_state_string(form: &Result<FormData, String>) -> (r: String)
    ensures
        form matches Ok(map) ==> r@ == (match first_value(map@, "initial_state"@) {
            Some(v) => v,
            None => Seq::<char>::empty(),
        }),
        form is Err ==> r@.len() == 0,
{
    req_get_post_argument(form, "initial_state")
}

/// The event of a request whose form may not have been readable: with no
/// form, the event is `unknown` with an empty target.
pub fn req_get_event(form: &Result<FormData, String>) -> (r: RspEvent)
    ensures
        form matches Ok(map) ==> r.pair() == event_of(map@),
        form is Err ==> r.event@ == crate::event::word_unknown() && r.target@.len() == 0,
{
    match form {
        Ok(map) => extract_event(map),
        Err(_) => {
            proof {
                reveal_strlit("unknown");
                assert("unknown"@ =~= crate::event::word_unknown());
            }
            RspEvent { event: owned("unknown"), target: String::new() }
        },
    }
}

/// The responses a page produces, built by each transport in its own form.
pub trait HttpResponse: Sized {
    /// A page of HTML.
    fn html(content: String) -> Self;

    /// A redirect to `location`.
    fn redirect(location: &str) -> Self;

    /// An error with an HTTP status code and a message.
    fn error(status: u16, message: String) -> Self;

    /// Adds a header.
    fn set_header(&mut self, name: &str, value: &str);
}

/// An error that ends the handling of a request.
#[derive(Debug)]
pub enum HttpError {
    BadRequest(String),
    Unauthorized(String),
    InternalError(String),
}

impl HttpError {
    /// The error as one line of text.
    pub fn message(&self) -> (r: String)
        ensures
            r@ == (match self {
                HttpError::BadRequest(m) => seq!['B', 'a', 'd', ' ', 'R', 'e', 'q', 'u', 'e', 's', 't', ':', ' '] + m@,
                HttpError::Unauthorized(m) => seq!['U', 'n', 'a', 'u', 't', 'h', 'o', 'r', 'i', 'z', 'e', 'd', ':', ' '] + m@,
                HttpError::InternalError(m) => seq!['I', 'n', 't', 'e', 'r', 'n', 'a', 'l', ' ', 'E', 'r', 'r', 'o', 'r', ':', ' '] + m@,
            }),
    {
        proof {
            reveal_strlit("Bad Request: ");
            reveal_strlit("Unauthorized: ");
            reveal_strlit("Internal Error: ");
        }
        let (mut s, m) = match self {
            HttpError::BadRequest(m) => (owned("Bad Request: "), m),
            HttpError::Unauthorized(m) => (owned("Unauthorized: "), m),
            HttpError::InternalError(m) => (owned("Internal Error: "), m),
        };
        s.append(m.as_str());
        proof {
            match self {
                HttpError::BadRequest(m) => {
                    assert(s@ =~= seq!['B', 'a', 'd', ' ', 'R', 'e', 'q', 'u', 'e', 's', 't', ':', ' '] + m@);
                },
                HttpError::Unauthorized(m) => {
                    assert(s@ =~= seq!['U', 'n', 'a', 'u', 't', 'h', 'o', 'r', 'i', 'z', 'e', 'd', ':', ' '] + m@);
                },
                HttpError::InternalError(m) => {
                    assert(s@ =~= seq!['I', 'n', 't', 'e', 'r', 'n', 'a', 'l', ' ', 'E', 'r', 'r', 'o', 'r', ':', ' '] + m@);
                },
            }
        }
        s
    }
}

/// The session data of one client: the serialized identity, if any.
#[derive(Debug, Clone)]
pub struct SessionData {
    pub auth_data: Option<String>,
}

fn header(name: &str, value: &str) -> (r: (String, String))
    ensures
        r.0@ == name@,
        r.1@ == value@,
{
    (owned(name), owned(value))
}

/// A response as the axum transport sends it: body, status and headers.
#[derive(Debug)]
pub struct AxumResponseBuilder {
    content: String,
    status_code: u16,
    headers: Vec<(String, String)>,
}

impl AxumResponseBuilder {
    pub closed spec fn spec_content(&self) -> Seq<char> {
        self.content@
    }

    pub closed spec fn spec_status(&self) -> u16 {
        self.status_code
    }

    /// The headers as (name, value) texts, in order.
    pub closed spec fn spec_headers(&self) -> Seq<(Seq<char>, Seq<char>)> {
        self.headers@.map_values(|h: (String, String)| (h.0@, h.1@))
    }

    /// A page of HTML, with status 200.
    pub fn html_page(content: String) -> (r: AxumResponseBuilder)
        ensures
            r.spec_content() == content@,
            r.spec_status() == 200,
            r.spec_headers().len() == 1,
            r.spec_headers()[0].0 == "Content-Type"@,
            r.spec_headers()[0].1 == "text/html; charset=utf-8"@,
    {
        let mut headers = Vec::new();
        headers.push(header("Content-Type", "text/html; charset=utf-8"));
        AxumResponseBuilder { content, status_code: 200, headers }
    }

    /// A redirect to `location`, with status 302.
    pub fn redirect_to(location: &str) -> (r: AxumResponseBuilder)
        ensures
            r.spec_content() == location@,
            r.spec_status() == 302,
            r.spec_headers().len() == 1,
            r.spec_headers()[0].0 == "Location"@,
            r.spec_headers()[0].1 == location@,
    {
        let mut headers = Vec::new();
        headers.push(header("Location", location));
        AxumResponseBuilder { content: owned(location), status_code: 302, headers }
    }

    /// A plain-text error with the status `status_code`.
    pub fn error_page(status_code: u16, message: String) -> (r: AxumResponseBuilder)
        ensures
            r.spec_content() == message@,
            r.spec_status() == status_code,
            r.spec_headers().len() == 1,
            r.spec_headers()[0].0 == "Content-Type"@,
            r.spec_headers()[0].1 == "text/plain"@,
    {
        let mut headers = Vec::new();
        headers.push(header("Content-Type", "text/plain"));
        AxumResponseBuilder { content: message, status_code, headers }
    }

    /// Appends a header.
    pub fn add_header(&mut self, name: &str, value: &str)
        ensures
            final(self).spec_content() == old(self).spec_content(),
            final(self).spec_status() == old(self).spec_status(),
            final(self).spec_headers() == old(self).spec_headers().push((name@, value@)),
    {
        let ghost before = self.headers@;
        let h = header(name, value);
        let ghost hv = h;
        self.headers.push(h);
        assert(self.headers@ =~= before.push(hv));
        assert(self.spec_headers() =~= before.map_values(|h: (String, String)| (h.0@, h.1@)).push((name@, value@)));
    }

    pub fn content(&self) -> (r: &String)
        ensures
            r@ == self.spec_content(),
    {
        &self.content
    }

    pub fn status_code(&self) -> (r: u16)
        ensures
            r == self.spec_status(),
    {
        self.status_code
    }

    pub fn headers(&self) -> (r: &Vec<(String, String)>)
        ensures
            r@.map_values(|h: (String, String)| (h.0@, h.1@)) == self.spec_headers(),
    {
        &self.headers
    }
}

impl HttpResponse for AxumResponseBuilder {
    fn html(content: String) -> AxumResponseBuilder {
        AxumResponseBuilder::html_page(content)
    }

    fn redirect(location: &str) -> AxumResponseBuilder {
        AxumResponseBuilder::redirect_to(location)
    }

    fn error(status: u16, message: String) -> AxumResponseBuilder {
        AxumResponseBuilder::error_page(status, message)
    }

    fn set_header(&mut self, name: &str, value: &str) {
        self.add_header(name, value)
    }
}

/// The status an iron response carries for an error code: the codes it
/// names (400, 401, 404, 500) stand; any other becomes 500.
pub open spec fn iron_error_status(code: u16) -> u16 {
    if code == 400 || code == 401 || code == 404 || code == 500 {
        code
    } else {
        500
    }
}

/// A response as the iron transport sends it: body, status and headers.
#[derive(Debug)]
pub struct IronResponseBuilder {
    content: String,
    status: u16,
    headers: Vec<(String, String)>,
}

impl IronResponseBuilder {
    pub closed spec fn spec_content(&self) -> Seq<char> {
        self.content@
    }

    pub closed spec fn spec_status(&self) -> u16 {
        self.status
    }

    /// The headers as (name, value) texts, in order.
    pub closed spec fn spec_headers(&self) -> Seq<(Seq<char>, Seq<char>)> {
        self.headers@.map_values(|h: (String, String)| (h.0@, h.1@))
    }

    /// A page of HTML, with status 200, on a connection that closes.
    pub fn html_page(content: String) -> (r: IronResponseBuilder)
        ensures
            r.spec_content() == content@,
            r.spec_status() == 200,
            r.spec_headers().len() == 2,
            r.spec_headers()[0] == ("Content-Type"@, "text/html; charset=utf-8"@),
            r.spec_headers()[1] == ("Connection"@, "close"@),
    {
        let mut headers = Vec::new();
        headers.push(header("Content-Type", "text/html; charset=utf-8"));
        headers.push(header("Connection", "close"));
        IronResponseBuilder { content, status: 200, headers }
    }

    /// A redirect to `location`, with status 302.
    pub fn redirect_to(location: &str) -> (r: IronResponseBuilder)
        ensures
            r.spec_content() == location@,
            r.spec_status() == 302,
            r.spec_headers().len() == 2,
            r.spec_headers()[0] == ("Content-Type"@, "text/html; charset=utf-8"@),
            r.spec_headers()[1] == ("Location"@, location@),
    {
        let mut headers = Vec::new();
        headers.push(header("Content-Type", "text/html; charset=utf-8"));
        headers.push(header("Location", location));
        IronResponseBuilder { content: owned(location), status: 302, headers }
    }

    /// A plain-text error; the status is `iron_error_status(status_code)`.
    pub fn error_page(status_code: u16, message: String) -> (r: IronResponseBuilder)
        ensures
            r.spec_content() == message@,
            r.spec_status() == iron_error_status(status_code),
            r.spec_headers().len() == 1,
            r.spec_headers()[0] == ("Content-Type"@, "text/plain"@),
    {
        let status: u16 = if status_code == 400 || status_code == 401 || status_code == 404 || status_code == 500 {
            status_code
        } else {
            500
        };
        let mut headers = Vec::new();
        headers.push(header("Content-Type", "text/plain"));
        IronResponseBuilder { content: message, status, headers }
    }

    /// Appends a header.
    pub fn add_header(&mut self, name: &str, value: &str)
        ensures
            final(self).spec_content() == old(self).spec_content(),
            final(self).spec_status() == old(self).spec_status(),
            final(self).spec_headers() == old(self).spec_headers().push((name@, value@)),
    {
        let ghost before = self.headers@;
        let h = header(name, value);
        let ghost hv = h;
        self.headers.push(h);
        assert(self.headers@ =~= before.push(hv));
        assert(self.spec_headers() =~= before.map_values(|h: (String, String)| (h.0@, h.1@)).push((name@, value@)));
    }

    pub fn content(&self) -> (r: &String)
        ensures
            r@ == self.spec_content(),
    {
        &self.content
    }

    pub fn status_code(&self) -> (r: u16)
        ensures
            r == self.spec_status(),
    {
        self.status
    }

    pub fn headers(&self) -> (r: &Vec<(String, String)>)
        ensures
            r@.map_values(|h: (String, String)| (h.0@, h.1@)) == self.spec_headers(),
    {
        &self.headers
    }
}

impl HttpResponse for IronResponseBuilder {
    fn html(content: String) -> IronResponseBuilder {
        IronResponseBuilder::html_page(content)
    }

    fn redirect(location: &str) -> IronResponseBuilder {
        IronResponseBuilder::redirect_to(location)
    }

    fn error(status: u16, message: String) -> IronResponseBuilder {
        IronResponseBuilder::error_page(status, message)
    }

    fn set_header(&mut self, name: &str, value: &str) {
        self.add_header(name, value)
    }
}

} // verus!
