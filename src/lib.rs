//! Stateful server pages: the state of a page travels with the client as
//! JSON, form fields amend it, and a page's event handler decides the next
//! state and action.

pub mod auth;
pub mod data;
pub mod event;
pub mod form;
pub mod html;
pub mod http;
pub mod ids;
pub mod json;
pub mod key;
pub mod laws;
pub mod page;
pub mod text;

pub use auth::{CookiePageAuth, NoPageAuth, RspUserAuth};
pub use data::{FooMapBuilder, FooVecBuilder, TemplateData};
pub use event::{extract_event, RspEvent};
pub use form::FormData;
pub use html::{HtmlButton, HtmlCheck, HtmlSelect, HtmlSelectItem, HtmlText};
pub use http::{AxumResponseBuilder, HttpError, HttpRequest, HttpResponse, IronResponseBuilder, SessionData};
pub use json::{amend_json_value, JsonValue};
pub use key::RspKey;
pub use page::{
    run_page, RspAction, RspDataBuilder, RspEventHandlerResult, RspFillDataResult, RspInfo, RspState,
};
