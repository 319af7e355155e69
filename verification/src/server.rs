//! Request decisions of the JSON/HTTP surface: which answer a request gets,
//! and whether a caller-supplied `?workspace=` override is usable.
//!
//! `GET /family-status` and `GET /family-sync` answer with the same checks
//! the command line runs; `GET /stats` names the default workspace; any
//! other path, and any method but `GET`, is `404`. A `?workspace=` override
//! is resolved before the path is looked at, and an unusable one is `400`.

use vstd::prelude::*;

use crate::text::{
    chars_eq,
    chars_of,
    find_char,
    first_index_of,
    slice_chars,
    split_all,
    split_chars,
    split_once,
    split_once_chars,
    str_eq,
    string_of_chars,
};

verus! {

/// The value of the first `key=value` pair of `pairs` whose key is `key`.
/// A pair without `=` met before that ends the search with `None`.
pub open spec fn lookup_pair(pairs: Seq<Seq<char>>, key: Seq<char>) -> Option<Seq<char>>
    decreases pairs.len(),
{
    if pairs.len() == 0 {
        None
    } else {
        match split_once(pairs[0], '=') {
            None => None,
            Some((k, v)) => if k == key {
                Some(v)
            } else {
                lookup_pair(pairs.drop_first(), key)
            },
        }
    }
}

/// The value of query parameter `key` in `url`: the query is what follows
/// the first `?`, its pairs are separated by `&`.
pub open spec fn query_value(url: Seq<char>, key: Seq<char>) -> Option<Seq<char>> {
    match split_once(url, '?') {
        None => None,
        Some((_, query)) => lookup_pair(split_all(query, '&'), key),
    }
}

/// The value of query parameter `key` in `url`, if the query names it.
pub fn query_param(url: &str, key: &str) -> (r: Option<String>)
    ensures
        match r {
            Some(v) => query_value(url@, key@) == Some(v@),
            None => query_value(url@, key@) is None,
        },
{
    let chars = chars_of(url);
    let key_chars = chars_of(key);
    let query = match split_once_chars(&chars, '?') {
        Some((_, q)) => q,
        None => return None,
    };
    let pairs = split_chars(&query, '&');
    let ghost views = pairs@.map_values(|p: Vec<char>| p@);
    assert(views.skip(0) =~= views);
    let n = pairs.len();
    let mut i: usize = 0;
    while i < n
        invariant
            n == pairs.len(),
            views == pairs@.map_values(|p: Vec<char>| p@),
            views.len() == n,
            i <= n,
            key_chars@ == key@,
            query_value(url@, key@) == lookup_pair(views.skip(i as int), key@),
        decreases n - i,
    {
        proof {
            assert(views.skip(i as int)[0] == pairs@[i as int]@);
            assert(views.skip(i as int).drop_first() =~= views.skip(i + 1));
        }
        match split_once_chars(&pairs[i], '=') {
            None => {
                return None;
            },
            Some((k, v)) => {
                if chars_eq(&k, &key_chars) {
                    return Some(string_of_chars(&v));
                }
            },
        }
        i = i + 1;
    }
    assert(views.skip(n as int).len() == 0);
    None
}

/// The path of a request: its URL up to the first `?`.
pub open spec fn path_of(url: Seq<char>) -> Seq<char> {
    url.take(first_index_of(url, '?') as int)
}

/// The path of a request URL.
pub fn request_path(url: &str) -> (r: String)
    ensures
        r@ == path_of(url@),
{
    let chars = chars_of(url);
    let end = find_char(&chars, '?');
    let path = slice_chars(&chars, 0, end);
    assert(path@ =~= chars@.take(end as int));
    string_of_chars(&path)
}

/// What a request asks for.
#[derive(Debug, Clone, Copy, PartialEq, Eq)]
pub enum Route {
    FamilyStatus,
    FamilySync,
    Stats,
    NotFound,
}

/// The route a path names.
pub open spec fn route_of(path: Seq<char>) -> Route {
    if path == "/family-status"@ {
        Route::FamilyStatus
    } else if path == "/family-sync"@ {
        Route::FamilySync
    } else if path == "/stats"@ {
        Route::Stats
    } else {
        Route::NotFound
    }
}

/// HTTP status of a successful answer.
pub const STATUS_OK: u16 = 200;

/// HTTP status of an unusable `?workspace=` override.
pub const STATUS_BAD_REQUEST: u16 = 400;

/// HTTP status of an unknown path or method.
pub const STATUS_NOT_FOUND: u16 = 404;

impl Route {
    /// The route for a request path.
    pub fn for_path(path: &str) -> (r: Route)
        ensures
            r == route_of(path@),
    {
        if str_eq(path, "/family-status") {
            Route::FamilyStatus
        } else if str_eq(path, "/family-sync") {
            Route::FamilySync
        } else if str_eq(path, "/stats") {
            Route::Stats
        } else {
            Route::NotFound
        }
    }

    /// The HTTP status this route answers with.
    pub fn status_code(&self) -> (r: u16)
        ensures
            r == (if *self == Route::NotFound {
                STATUS_NOT_FOUND
            } else {
                STATUS_OK
            }),
    {
        match self {
            Route::NotFound => STATUS_NOT_FOUND,
            _ => STATUS_OK,
        }
    }
}

/// How to handle a request.
#[derive(Debug, Clone, PartialEq, Eq)]
pub enum RequestPlan {
    /// Answer `404` at once (any method but `GET`).
    Reject,
    /// Resolve the override, if any, then answer for `route`.
    Handle { route: Route, workspace_override: Option<String> },
}

/// Plans the answer to a request with the given method and URL.
pub fn plan_request(is_get: bool, url: &str) -> (r: RequestPlan)
    ensures
        !is_get ==> r == RequestPlan::Reject,
        is_get ==> (r matches RequestPlan::Handle { route, workspace_override } && route == route_of(
            path_of(url@),
        ) && match workspace_override {
            Some(w) => query_value(url@, "workspace"@) == Some(w@),
            None => query_value(url@, "workspace"@) is None,
        }),
{
    if !is_get {
        return RequestPlan::Reject;
    }
    let path = request_path(url);
    let route = Route::for_path(path.as_str());
    let workspace_override = query_param(url, "workspace");
    RequestPlan::Handle { route, workspace_override }
}

/// What looking the override path up on disk found.
#[derive(Debug, Clone, PartialEq, Eq)]
pub enum WorkspaceProbe {
    /// The path does not exist or cannot be accessed.
    Inaccessible,
    /// The path resolves, but not to a directory.
    NotDirectory,
    /// The path resolves to this directory (canonical form).
    Directory(String),
}

/// Message for an override that does not resolve.
pub open spec fn inaccessible_message(raw: Seq<char>) -> Seq<char> {
    "workspace override does not exist or is not accessible: "@ + raw
}

/// Message for an override that is not a directory.
pub open spec fn not_directory_message(raw: Seq<char>) -> Seq<char> {
    "workspace override is not a directory: "@ + raw
}

/// The workspace to use for an override `raw`, given what the lookup found:
/// the canonical directory, or the message explaining why it is refused.
pub fn resolve_workspace_override(raw: &str, probe: WorkspaceProbe) -> (r: Result<String, String>)
    ensures
        match probe {
            WorkspaceProbe::Inaccessible => r matches Err(m) && m@ == inaccessible_message(raw@),
            WorkspaceProbe::NotDirectory => r matches Err(m) && m@ == not_directory_message(raw@),
            WorkspaceProbe::Directory(d) => r == Ok::<String, String>(d),
        },
{
    match probe {
        WorkspaceProbe::Inaccessible => {
            let mut m = String::from_str("workspace override does not exist or is not accessible: ");
            m.append(raw);
            Err(m)
        },
        WorkspaceProbe::NotDirectory => {
            let mut m = String::from_str("workspace override is not a directory: ");
            m.append(raw);
            Err(m)
        },
        WorkspaceProbe::Directory(d) => Ok(d),
    }
}

/// Which workspace a family answer is about.
#[derive(Debug, Clone, PartialEq, Eq)]
pub enum WorkspaceChoice {
    /// The workspace the server was started with.
    Default,
    /// The accepted override, in canonical form.
    Override(String),
}

/// The answer a request gets.
#[derive(Debug, Clone, PartialEq, Eq)]
pub enum Answer {
    /// `404` with `{"error": "not found"}`.
    NotFound,
    /// `400` with `{"error": message}`: the override is unusable.
    BadOverride { message: String },
    /// `200` with the family status of `workspace`.
    FamilyStatus { workspace: WorkspaceChoice },
    /// `200` with the family sync outcomes of `workspace`.
    FamilySync { workspace: WorkspaceChoice },
    /// `200` naming the default workspace, whatever override was given.
    Stats,
}

/// A workspace choice with its text as a character sequence.
pub enum ChoiceView {
    Default,
    Override(Seq<char>),
}

/// An answer with its texts as character sequences.
pub enum AnswerView {
    NotFound,
    BadOverride(Seq<char>),
    FamilyStatus(ChoiceView),
    FamilySync(ChoiceView),
    Stats,
}

impl View for WorkspaceChoice {
    type V = ChoiceView;

    open spec fn view(&self) -> ChoiceView {
        match self {
            WorkspaceChoice::Default => ChoiceView::Default,
            WorkspaceChoice::Override(d) => ChoiceView::Override(d@),
        }
    }
}

impl View for Answer {
    type V = AnswerView;

    open spec fn view(&self) -> AnswerView {
        match self {
            Answer::NotFound => AnswerView::NotFound,
            Answer::BadOverride { message } => AnswerView::BadOverride(message@),
            Answer::FamilyStatus { workspace } => AnswerView::FamilyStatus(workspace@),
            Answer::FamilySync { workspace } => AnswerView::FamilySync(workspace@),
            Answer::Stats => AnswerView::Stats,
        }
    }
}

/// The lookup result is given exactly when the plan carries an override to look up.
pub open spec fn probe_fits(plan: RequestPlan, probe: Option<WorkspaceProbe>) -> bool {
    (plan matches RequestPlan::Handle { workspace_override: Some(_), .. }) ==> probe is Some
}

/// The workspace an override resolves to, or the message refusing it.
pub open spec fn override_choice(
    workspace_override: Option<String>,
    probe: Option<WorkspaceProbe>,
) -> Result<ChoiceView, Seq<char>> {
    match workspace_override {
        None => Ok(ChoiceView::Default),
        Some(raw) => match probe {
            Some(WorkspaceProbe::Inaccessible) => Err(inaccessible_message(raw@)),
            Some(WorkspaceProbe::NotDirectory) => Err(not_directory_message(raw@)),
            Some(WorkspaceProbe::Directory(d)) => Ok(ChoiceView::Override(d@)),
            None => Ok(ChoiceView::Default),
        },
    }
}

/// The answer to a planned request: a refused method is `404`; otherwise an
/// unusable override is `400` whatever the path, and only then is the route
/// answered, `/stats` always about the default workspace.
pub open spec fn spec_answer(plan: RequestPlan, probe: Option<WorkspaceProbe>) -> AnswerView {
    match plan {
        RequestPlan::Reject => AnswerView::NotFound,
        RequestPlan::Handle { route, workspace_override } => match override_choice(
            workspace_override,
            probe,
        ) {
            Err(message) => AnswerView::BadOverride(message),
            Ok(choice) => match route {
                Route::FamilyStatus => AnswerView::FamilyStatus(choice),
                Route::FamilySync => AnswerView::FamilySync(choice),
                Route::Stats => AnswerView::Stats,
                Route::NotFound => AnswerView::NotFound,
            },
        },
    }
}

/// The HTTP status of an answer.
pub open spec fn answer_status(a: AnswerView) -> u16 {
    match a {
        AnswerView::NotFound => STATUS_NOT_FOUND,
        AnswerView::BadOverride(_) => STATUS_BAD_REQUEST,
        _ => STATUS_OK,
    }
}

impl Answer {
    /// The HTTP status this answer is sent with.
    pub fn status_code(&self) -> (r: u16)
        ensures
            r == answer_status(self@),
    {
        match self {
            Answer::NotFound => STATUS_NOT_FOUND,
            Answer::BadOverride { .. } => STATUS_BAD_REQUEST,
            _ => STATUS_OK,
        }
    }
}

/// Decides the answer to a planned request, given what looking up its
/// override on disk found (`None` when there is no override to look up).
pub fn answer(plan: RequestPlan, probe: Option<WorkspaceProbe>) -> (r: Answer)
    requires
        probe_fits(plan, probe),
    ensures
        r@ == spec_answer(plan, probe),
{
    match plan {
        RequestPlan::Reject => Answer::NotFound,
        RequestPlan::Handle { route, workspace_override } => {
            let choice = match workspace_override {
                None => WorkspaceChoice::Default,
                Some(raw) => match probe {
                    None => WorkspaceChoice::Default,
                    Some(found) => match resolve_workspace_override(raw.as_str(), found) {
                        Ok(dir) => WorkspaceChoice::Override(dir),
                        Err(message) => {
                            return Answer::BadOverride { message };
                        },
                    },
                },
            };
            match route {
                Route::FamilyStatus => Answer::FamilyStatus { workspace: choice },
                Route::FamilySync => Answer::FamilySync { workspace: choice },
                Route::Stats => Answer::Stats,
                Route::NotFound => Answer::NotFound,
            }
        },
    }
}

// ---------------------------------------------------------------------------
// Laws
// ---------------------------------------------------------------------------

/// Any method but `GET` is answered `404`, whatever the URL and its override.
pub proof fn law_non_get_is_not_found(probe: Option<WorkspaceProbe>)
    ensures
        spec_answer(RequestPlan::Reject, probe) == AnswerView::NotFound,
        answer_status(spec_answer(RequestPlan::Reject, probe)) == STATUS_NOT_FOUND,
{
}

/// An unusable override is answered `400` with its message before the path
/// is routed: the same answer for every route, unknown paths included.
pub proof fn law_bad_override_precedes_routing(
    route: Route,
    other: Route,
    raw: String,
    probe: WorkspaceProbe,
)
    requires
        probe is Inaccessible || probe is NotDirectory,
    ensures
        spec_answer(
            RequestPlan::Handle { route, workspace_override: Some(raw) },
            Some(probe),
        ) is BadOverride,
        spec_answer(RequestPlan::Handle { route, workspace_override: Some(raw) }, Some(probe))
            == spec_answer(
            RequestPlan::Handle { route: other, workspace_override: Some(raw) },
            Some(probe),
        ),
        answer_status(
            spec_answer(RequestPlan::Handle { route, workspace_override: Some(raw) }, Some(probe)),
        ) == STATUS_BAD_REQUEST,
{
}

/// Without an override the family answers are about the default workspace.
pub proof fn law_no_override_uses_default(route: Route)
    ensures
        route == Route::FamilyStatus ==> spec_answer(
            RequestPlan::Handle { route, workspace_override: None },
            None,
        ) == AnswerView::FamilyStatus(ChoiceView::Default),
        route == Route::FamilySync ==> spec_answer(
            RequestPlan::Handle { route, workspace_override: None },
            None,
        ) == AnswerView::FamilySync(ChoiceView::Default),
{
}

/// `/stats` is answered `200` about the default workspace whether or not an
/// accepted override was given; an accepted override is what the family
/// answers are about.
pub proof fn law_stats_ignores_override(workspace_override: Option<String>, dir: String)
    ensures
        spec_answer(
            RequestPlan::Handle { route: Route::Stats, workspace_override },
            Some(WorkspaceProbe::Directory(dir)),
        ) == AnswerView::Stats,
        workspace_override is Some ==> spec_answer(
            RequestPlan::Handle { route: Route::FamilyStatus, workspace_override },
            Some(WorkspaceProbe::Directory(dir)),
        ) == AnswerView::FamilyStatus(ChoiceView::Override(dir@)),
{
}

/// Both family answers are about the accepted override: a `GET` whose
/// override resolves to directory `d` is answered about `Override(d)` for
/// `/family-status` and for `/family-sync` alike, whatever the raw text was.
pub proof fn law_family_answers_use_accepted_override(raw: String, dir: String)
    ensures
        spec_answer(
            RequestPlan::Handle { route: Route::FamilyStatus, workspace_override: Some(raw) },
            Some(WorkspaceProbe::Directory(dir)),
        ) == AnswerView::FamilyStatus(ChoiceView::Override(dir@)),
        spec_answer(
            RequestPlan::Handle { route: Route::FamilySync, workspace_override: Some(raw) },
            Some(WorkspaceProbe::Directory(dir)),
        ) == AnswerView::FamilySync(ChoiceView::Override(dir@)),
{
}

} // verus!
