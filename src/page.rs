//! A stateful page: how its state is rebuilt from a request, how its event
//! handler's decision is carried out, and what is handed to its template.
use vstd::prelude::*;

use crate::auth::CookiePageAuth;
use crate::data::{FooMapBuilder, TemplateData};
use crate::event::{event_of, extract_event, RspEvent};
use crate::form::{first_value, FormData};
use crate::json::{amend_json_value, amended, parse_json, parsed_json, JsonTree, JsonValue};
use crate::key::RspKey;
use crate::text::{owned, second_last_component, split_pair};

verus! {

broadcast use vstd::string::group_string_axioms;

/// What an event handler asks for next.
#[derive(Debug)]
pub enum RspAction<T> {
    /// Render with the state the handler returned.
    Render,
    /// Switch to another key and load its state.
    SetKey(T),
    /// Load the state of the current key afresh.
    ReloadState,
    /// Send the client elsewhere, without rendering.
    RedirectTo(String),
}

/// What a page's handlers are given about the current request.
pub struct RspInfo<'a, R, T, TA> {
    pub auth: &'a TA,
    pub event: &'a RspEvent,
    pub key: &'a T,
    pub state_none: bool,
    pub state: R,
    pub initial_state: R,
    pub initial_state_none: bool,
    pub curr_initial_state: &'a R,
}

/// An event handler's decision: the next state and baseline, the action,
/// and an identity to keep in the session, if any.
pub struct RspEventHandlerResult<R, T> {
    pub state: R,
    pub initial_state: R,
    pub action: RspAction<T>,
    pub new_auth: Option<CookiePageAuth>,
}

/// What a page's data fill returns: the state and baseline, and the fields
/// for its template.
pub struct RspFillDataResult<R> {
    pub state: R,
    pub initial_state: R,
    pub data: FooMapBuilder,
}

/// The builder of a page's template fields.
pub type RspDataBuilder = FooMapBuilder;

/// The component before the last `::` of `path`; the whole path where it
/// has no `::`.
pub open spec fn path_template_name(path: Seq<char>) -> Seq<char> {
    let parts = split_pair(path, ':', ':');
    if parts.len() >= 2 {
        parts[parts.len() - 2]
    } else {
        path
    }
}

/// The template name a page renders with: the one the page names, where it
/// names one, else the one derived from the path of its state type.
pub fn choose_template_name(explicit: String, state_type_path: &str) -> (r: String)
    ensures
        explicit@.len() > 0 ==> r@ == explicit@,
        explicit@.len() == 0 ==> r@ == path_template_name(state_type_path@),
{
    if explicit.as_str().unicode_len() > 0 {
        explicit
    } else {
        template_name_from_path(state_type_path)
    }
}

/// The key of a request: the page's own, else the one read from the query,
/// else the default.
pub open spec fn key_of<T>(page_key: Option<T>, args_key: Option<T>, default_key: T) -> T {
    match page_key {
        Some(k) => k,
        None => match args_key {
            Some(k) => k,
            None => default_key,
        },
    }
}

/// Picks the key of a request: the page's own, else the one read from the
/// query, else the default.
pub fn derive_key<T>(page_key: Option<T>, args_key: Option<T>, default_key: T) -> (r: T)
    ensures
        r == key_of(page_key, args_key, default_key),
{
    match page_key {
        Some(k) => k,
        None => match args_key {
            Some(k) => k,
            None => default_key,
        },
    }
}

/// The template name derived from a type's path: the component before the
/// last `::` (the module that holds the type); the whole path where it has
/// no `::`.
pub fn template_name_from_path(path: &str) -> (r: String)
    ensures
        r@ == path_template_name(path@),
{
    match second_last_component(path, ':', ':') {
        Some(c) => c,
        None => owned(path),
    }
}

/// A page: its state type with the key type `T` and identity type `TA`.
pub trait RspState<T: RspKey, TA>: Sized {
    /// The state a clean load of `key` gives.
    spec fn initial_for(auth: TA, key: T) -> Self;

    /// Loads the state of `key`.
    fn get_state(auth: &TA, key: &T) -> (r: Self)
        ensures
            r == Self::initial_for(*auth, *key);

    /// A copy of the state.
    fn duplicate(&self) -> (r: Self)
        ensures
            r == *self;

    /// Reads the state from its JSON tree; `None` where the tree does not
    /// describe one.
    fn from_json(tree: &JsonValue) -> Option<Self>;

    /// The key the page derives itself, if it does.
    fn get_key(auth: &TA, args: &FormData, maybe_state: &Option<Self>) -> (r: Option<T>)
        default_ensures
            r is None,
    {
        None
    }

    /// The key read from the query parameters by field name.
    fn get_key_from_args(auth: &TA, args: &FormData) -> Option<T> {
        T::from_query_args(args)
    }

    /// The page's business logic; by default it changes nothing and renders.
    fn event_handler(ri: RspInfo<Self, T, TA>) -> (r: RspEventHandlerResult<Self, T>)
        default_ensures
            r.state == ri.state,
            r.initial_state == ri.initial_state,
            r.action is Render,
            r.new_auth is None,
    {
        RspEventHandlerResult {
            state: ri.state,
            initial_state: ri.initial_state,
            action: RspAction::Render,
            new_auth: None,
        }
    }

    /// The result of a data fill with the fields collected in `gd`.
    fn fill_data_result(ri: RspInfo<Self, T, TA>, gd: FooMapBuilder) -> (r: RspFillDataResult<Self>)
        default_ensures
            r.state == ri.state,
            r.initial_state == ri.initial_state,
            r.data == gd,
    {
        RspFillDataResult { state: ri.state, initial_state: ri.initial_state, data: gd }
    }

    /// The fields for the template; by default none.
    fn fill_data(ri: RspInfo<Self, T, TA>) -> (r: RspFillDataResult<Self>)
        default_ensures
            r.state == ri.state,
            r.initial_state == ri.initial_state,
            r.data.entries().len() == 0,
    {
        RspFillDataResult { state: ri.state, initial_state: ri.initial_state, data: FooMapBuilder::new() }
    }

    /// The template's name where the page names it; empty otherwise.
    fn get_template_name() -> String {
        String::new()
    }
}

pub open spec fn word_state_json() -> Seq<char> {
    seq!['s', 't', 'a', 't', 'e', '_', 'j', 's', 'o', 'n']
}

pub open spec fn word_initial_state_json() -> Seq<char> {
    seq!['i', 'n', 'i', 't', 'i', 'a', 'l', '_', 's', 't', 'a', 't', 'e', '_', 'j', 's', 'o', 'n']
}

/// The state tree a form carries: the JSON of its `state_json` field with
/// the form's fields overlaid; `None` where the field is missing or is not
/// JSON.
pub open spec fn state_tree_of(f: crate::form::FieldSeq) -> Option<JsonTree> {
    match first_value(f, word_state_json()) {
        Some(text) => match parsed_json(text) {
            Some(t) => Some(amended(t, Seq::empty(), f)),
            None => None,
        },
        None => None,
    }
}

/// The baseline tree a form carries: the JSON of its `initial_state_json`
/// field, as it stands.
pub open spec fn initial_tree_of(f: crate::form::FieldSeq) -> Option<JsonTree> {
    match first_value(f, word_initial_state_json()) {
        Some(text) => parsed_json(text),
        None => None,
    }
}

/// Reads the state tree of a form and overlays the form's fields on it.
pub fn amended_state_tree(form_data: &FormData) -> (r: Option<JsonValue>)
    ensures
        crate::json::opt_tree(r) == state_tree_of(form_data@),
{
    proof {
        reveal_strlit("state_json");
        assert("state_json"@ =~= word_state_json());
    }
    match form_data.first("state_json") {
        Some(text) => match parse_json(text.as_str()) {
            Some(v) => {
                let mut v = v;
                amend_json_value(&mut v, form_data);
                Some(v)
            },
            None => None,
        },
        None => None,
    }
}

/// Reads the baseline tree of a form.
pub fn initial_state_tree(form_data: &FormData) -> (r: Option<JsonValue>)
    ensures
        crate::json::opt_tree(r) == initial_tree_of(form_data@),
{
    proof {
        reveal_strlit("initial_state_json");
        assert("initial_state_json"@ =~= word_initial_state_json());
    }
    match form_data.first("initial_state_json") {
        Some(text) => parse_json(text.as_str()),
        None => None,
    }
}

/// The current state, the baseline and the fresh state of a request.
pub struct ResolvedStates<S> {
    pub state: S,
    pub initial_state: S,
    pub curr_initial_state: S,
    pub state_none: bool,
    pub initial_state_none: bool,
}

/// The baseline of a request: the one the client sent, else the fresh
/// state of the key.
pub open spec fn resolved_initial<S: RspState<T, TA>, T: RspKey, TA>(auth: TA, key: T, maybe_initial_state: Option<S>) -> S {
    match maybe_initial_state {
        Some(i) => i,
        None => S::initial_for(auth, key),
    }
}

/// The current state of a request: the one the client sent, else the
/// baseline.
pub open spec fn resolved_state<S: RspState<T, TA>, T: RspKey, TA>(
    auth: TA,
    key: T,
    maybe_state: Option<S>,
    maybe_initial_state: Option<S>,
) -> S {
    match maybe_state {
        Some(s) => s,
        None => resolved_initial(auth, key, maybe_initial_state),
    }
}

/// The states of a request: the fresh state of the key is always loaded;
/// the baseline is the one the client sent, else the fresh one; the state
/// is the one the client sent, else the baseline.
pub fn resolve_states<S: RspState<T, TA>, T: RspKey, TA>(
    auth: &TA,
    key: &T,
    maybe_state: Option<S>,
    maybe_initial_state: Option<S>,
) -> (r: ResolvedStates<S>)
    ensures
        r.curr_initial_state == S::initial_for(*auth, *key),
        r.state_none == maybe_state is None,
        r.initial_state_none == maybe_initial_state is None,
        r.initial_state == resolved_initial(*auth, *key, maybe_initial_state),
        r.state == resolved_state(*auth, *key, maybe_state, maybe_initial_state),
{
    let curr_initial_state = S::get_state(auth, key);
    let state_none = maybe_state.is_none();
    let initial_state_none = maybe_initial_state.is_none();
    let initial_state = match maybe_initial_state {
        Some(i) => i,
        None => S::get_state(auth, key),
    };
    let state = match maybe_state {
        Some(s) => s,
        None => initial_state.duplicate(),
    };
    ResolvedStates { state, initial_state, curr_initial_state, state_none, initial_state_none }
}

/// Where a request goes after its event handler.
pub enum ActionOutcome<S, T> {
    /// Render with this key, state, baseline and fresh state.
    Proceed { key: T, state: S, initial_state: S, curr_initial_state: S },
    /// Redirect, without rendering.
    Redirect(String),
}

/// The outcome of an action: `Render` keeps what the handler returned;
/// `ReloadState` replaces state and baseline with the fresh state of the
/// key, discarding the handler's edits; `SetKey` does so for the new key;
/// `RedirectTo` leaves for its URL.
pub open spec fn outcome_of<S: RspState<T, TA>, T: RspKey, TA>(
    auth: TA,
    action: RspAction<T>,
    key: T,
    state: S,
    initial_state: S,
    curr_initial_state: S,
) -> ActionOutcome<S, T> {
    match action {
        RspAction::Render => ActionOutcome::Proceed { key, state, initial_state, curr_initial_state },
        RspAction::ReloadState => ActionOutcome::Proceed {
            key,
            state: S::initial_for(auth, key),
            initial_state: S::initial_for(auth, key),
            curr_initial_state: S::initial_for(auth, key),
        },
        RspAction::SetKey(k) => ActionOutcome::Proceed {
            key: k,
            state: S::initial_for(auth, k),
            initial_state: S::initial_for(auth, k),
            curr_initial_state: S::initial_for(auth, k),
        },
        RspAction::RedirectTo(url) => ActionOutcome::Redirect(url),
    }
}

/// Carries out an event handler's action.
pub fn apply_action<S: RspState<T, TA>, T: RspKey, TA>(
    auth: &TA,
    action: RspAction<T>,
    key: T,
    state: S,
    initial_state: S,
    curr_initial_state: S,
) -> (r: ActionOutcome<S, T>)
    ensures
        r == outcome_of(*auth, action, key, state, initial_state, curr_initial_state),
{
    match action {
        RspAction::Render => ActionOutcome::Proceed { key, state, initial_state, curr_initial_state },
        RspAction::ReloadState => {
            let curr_initial_state = S::get_state(auth, &key);
            let initial_state = S::get_state(auth, &key);
            let state = S::get_state(auth, &key);
            ActionOutcome::Proceed { key, state, initial_state, curr_initial_state }
        },
        RspAction::SetKey(k) => {
            let curr_initial_state = S::get_state(auth, &k);
            let initial_state = S::get_state(auth, &k);
            let state = S::get_state(auth, &k);
            ActionOutcome::Proceed { key: k, state, initial_state, curr_initial_state }
        },
        RspAction::RedirectTo(target) => ActionOutcome::Redirect(target),
    }
}

/// What a request comes to: a redirect, or a page to render.
pub enum PageOutcome<S, T> {
    Redirect { to: String, new_auth: Option<CookiePageAuth> },
    Render(RenderPlan<S, T>),
}

/// Everything a transport needs to render a page: the event, the key, the
/// three states, the template's name and the fields the page filled.
pub struct RenderPlan<S, T> {
    pub event: RspEvent,
    pub key: T,
    pub state: S,
    pub initial_state: S,
    pub curr_initial_state: S,
    pub template_name: String,
    pub data: TemplateData,
    pub new_auth: Option<CookiePageAuth>,
}

/// The redirect a `Redirect` outcome becomes: to its URL, keeping the
/// identity the handler gave.
pub open spec fn redirect_outcome<S, T>(outcome: ActionOutcome<S, T>, new_auth: Option<CookiePageAuth>) -> PageOutcome<S, T> {
    PageOutcome::Redirect { to: outcome->Redirect_0, new_auth }
}

/// Whether `p` renders the `Proceed` outcome `outcome`: its key and fresh
/// state, the event, the identity to keep, and the template the page names
/// (`explicit`, where not empty) or the one of the state type's path.
pub open spec fn renders<S, T>(
    p: RenderPlan<S, T>,
    outcome: ActionOutcome<S, T>,
    event: RspEvent,
    new_auth: Option<CookiePageAuth>,
    explicit: Seq<char>,
    path: Seq<char>,
) -> bool {
    match outcome {
        ActionOutcome::Proceed { key, curr_initial_state, .. } => {
            &&& p.key == key
            &&& p.curr_initial_state == curr_initial_state
            &&& p.event == event
            &&& p.new_auth == new_auth
            &&& p.data is Fields
            &&& explicit.len() > 0 ==> p.template_name@ == explicit
            &&& explicit.len() == 0 ==> p.template_name@ == path_template_name(path)
        },
        _ => false,
    }
}

/// Ends a request after its event handler's action: a redirect keeps its
/// URL and the identity to keep; otherwise the page fills its template
/// fields from the key and states of the outcome, and renders with the
/// template it names (`explicit_template`, where not empty) or the one of
/// its state type's path.
pub fn finish_page<S: RspState<T, TA>, T: RspKey, TA>(
    auth: &TA,
    event: RspEvent,
    outcome: ActionOutcome<S, T>,
    new_auth: Option<CookiePageAuth>,
    explicit_template: String,
    state_type_path: &str,
) -> (r: PageOutcome<S, T>)
    ensures
        outcome is Redirect ==> r == redirect_outcome::<S, T>(outcome, new_auth),
        outcome is Proceed ==> (r matches PageOutcome::Render(p) && renders(p, outcome, event, new_auth, explicit_template@, state_type_path@)),
{
    match outcome {
        ActionOutcome::Redirect(to) => PageOutcome::Redirect { to, new_auth },
        ActionOutcome::Proceed { key, state, initial_state, curr_initial_state } => {
            let template_name = choose_template_name(explicit_template, state_type_path);
            let filled = {
                let ri = RspInfo {
                    auth,
                    event: &event,
                    key: &key,
                    state_none: false,
                    state,
                    initial_state,
                    initial_state_none: false,
                    curr_initial_state: &curr_initial_state,
                };
                S::fill_data(ri)
            };
            let RspFillDataResult { state, initial_state, data } = filled;
            PageOutcome::Render(RenderPlan {
                event,
                key,
                state,
                initial_state,
                curr_initial_state,
                template_name,
                data: data.build(),
                new_auth,
            })
        },
    }
}

/// Runs a page on a request: derives the event and the key, rebuilds the
/// state from the form, lets the page's handler decide, carries out its
/// action and, unless it redirects, fills the template's fields. Where the
/// page names no template, the name comes from `state_type_path`, the path
/// of the page's state type.
pub fn run_page<S: RspState<T, TA>, T: RspKey + Default, TA>(
    auth: &TA,
    query: &FormData,
    form_data: &FormData,
    state_type_path: &str,
) -> (r: PageOutcome<S, T>)
    ensures
        r matches PageOutcome::Render(p) ==> {
            &&& p.event.pair() == event_of(form_data@)
            &&& p.curr_initial_state == S::initial_for(*auth, p.key)
            &&& p.data is Fields
            &&& p.template_name@.len() > 0 || p.template_name@ == path_template_name(state_type_path@)
        },
{
    let event = extract_event(form_data);
    let maybe_state: Option<S> = match amended_state_tree(form_data) {
        Some(tree) => S::from_json(&tree),
        None => None,
    };
    let maybe_initial_state: Option<S> = match initial_state_tree(form_data) {
        Some(tree) => S::from_json(&tree),
        None => None,
    };
    let page_key = S::get_key(auth, query, &maybe_state);
    // the query is read only where the page gives no key of its own
    let args_key = if page_key.is_none() { S::get_key_from_args(auth, query) } else { None };
    let key = derive_key(page_key, args_key, T::default());
    let resolved = resolve_states::<S, T, TA>(auth, &key, maybe_state, maybe_initial_state);
    let ResolvedStates { state, initial_state, curr_initial_state, state_none, initial_state_none } = resolved;
    let handled = {
        let ri = RspInfo {
            auth,
            event: &event,
            key: &key,
            state_none,
            state,
            initial_state,
            initial_state_none,
            curr_initial_state: &curr_initial_state,
        };
        S::event_handler(ri)
    };
    let RspEventHandlerResult { state, initial_state, action, new_auth } = handled;
    let outcome = apply_action::<S, T, TA>(auth, action, key, state, initial_state, curr_initial_state);
    let explicit_template = S::get_template_name();
    finish_page::<S, T, TA>(auth, event, outcome, new_auth, explicit_template, state_type_path)
}

} // verus!
