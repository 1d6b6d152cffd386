//! Requests to send to a web server.
//!
//! The method, the address, the value of each header and the body are
//! templates of the `handlebars` crate, rendered with the environment. A
//! body is given as form fields, which are sent URL-encoded, or as JSON
//! text.
//!
//! Partials are not for these templates. A template that includes one
//! (`{{> name}}` or `{{#> name}}`) is refused before it reaches the
//! engine: nothing keeps a partial that is defined in the template itself
//! from including itself without end.

use vstd::prelude::*;
use vstd::string::StringExecFns;
use crate::actions::{title_line, ActionPlan, HttpRequest, IAction, Plan, Request};
use crate::envs::{Envs, Scope};
use crate::error::{Failure, RunError};
use crate::helper::{duration_text, format_duration};
use crate::repo::optional_text;
use crate::text::{chars_of, decimal, pair_views, push_decimal};
use crate::vars::{map_of, Pairs, Variables};

verus! {

/// What the default `handlebars` registry renders the template to with
/// the variables `vars` as its data, or `None` where it refuses the
/// template: the result of `Handlebars::render_template`.
pub uninterp spec fn handlebars_text(template: Seq<char>, vars: Map<Seq<char>, Seq<char>>) -> Option<
    Seq<char>,
>;

/// The fields `pairs`, in order, in the encoding
/// `application/x-www-form-urlencoded`, or `None` where they cannot be
/// encoded: the result of `serde_urlencoded::to_string`.
pub uninterp spec fn form_urlencoded(pairs: Seq<(Seq<char>, Seq<char>)>) -> Option<Seq<char>>;

/// The text in upper case: the result of `str::to_uppercase`.
pub uninterp spec fn uppercased(text: Seq<char>) -> Seq<char>;

/// `str::to_uppercase` gives the text in upper case.
pub assume_specification[ str::to_uppercase ](text: &str) -> (upper: String)
    ensures
        upper@ == uppercased(text@),
;

/// Whether `c` may stand between the braces that open a tag and the
/// sign that says what kind of tag it is: white space as the template
/// grammar knows it, the `~` that trims white space, and the `#` that
/// opens a block.
pub open spec fn is_tag_filler(c: char) -> bool {
    c == ' ' || c == '\t' || c == '\n' || c == '\r' || c == '~' || c == '#'
}

/// Whether a tag that includes a partial opens at position `i` of `t`
/// and shows its `>` at position `j`: two opening braces, then nothing
/// but filler, then the `>`.
pub open spec fn partial_tag_at(t: Seq<char>, i: int, j: int) -> bool {
    &&& 0 <= i
    &&& i + 2 <= j < t.len()
    &&& t[i] == '{'
    &&& t[i + 1] == '{'
    &&& t[j] == '>'
    &&& forall|k: int| i + 2 <= k < j ==> is_tag_filler(#[trigger] t[k])
}

/// Whether `t` holds a tag that includes a partial, plain (`{{> name}}`)
/// or as a block (`{{#> name}}`). Braces that the template escapes or
/// quotes count as well.
pub open spec fn has_partial_tag(t: Seq<char>) -> bool {
    exists|i: int, j: int| partial_tag_at(t, i, j)
}

/// Renders `template` with `Handlebars::render_template` of a new
/// registry, with the variables `vars` as the data. Of two variables with
/// one name the later counts. The template must not include a partial:
/// the engine does not return from one that includes itself.
#[verifier::external_body]
fn render_template(template: &str, vars: &Vec<(String, String)>) -> (text: Option<String>)
    requires
        !has_partial_tag(template@),
    ensures
        optional_text(text) == handlebars_text(template@, map_of(pair_views(vars@))),
{
    let data: std::collections::BTreeMap<String, String> = vars.iter().cloned().collect();
    handlebars::Handlebars::new().render_template(template, &data).ok()
}

/// Encodes the fields `pairs` with `serde_urlencoded::to_string`.
#[verifier::external_body]
fn urlencode(pairs: &Vec<(String, String)>) -> (text: Option<String>)
    ensures
        optional_text(text) == form_urlencoded(pair_views(pairs@)),
{
    serde_urlencoded::to_string(pairs).ok()
}

/// The body of a request.
#[derive(Debug)]
pub enum BodyData {
    /// Form fields, sent URL-encoded.
    FormData(Vec<(String, String)>),
    /// JSON text.
    JsonData(String),
}

/// A body as contracts see it.
pub ghost enum BodyView {
    Form(Pairs),
    Json(Seq<char>),
}

impl View for BodyData {
    type V = BodyView;

    open spec fn view(&self) -> BodyView {
        match *self {
            BodyData::FormData(fields) => BodyView::Form(pair_views(fields@)),
            BodyData::JsonData(text) => BodyView::Json(text@),
        }
    }
}

/// The view of an optional body.
pub open spec fn optional_body(body: Option<BodyData>) -> Option<BodyView> {
    match body {
        Some(body) => Some(body@),
        None => None,
    }
}

/// The request of a webhook, before it is rendered.
#[derive(Debug)]
pub struct HookSpec {
    pub method: String,
    pub url: String,
    pub headers: Vec<(String, String)>,
    /// How long to wait for the answer, in milliseconds.
    pub timeout_millis: Option<u64>,
    pub body: Option<BodyData>,
}

/// A webhook request as contracts see it.
pub ghost struct HookView {
    pub method: Seq<char>,
    pub url: Seq<char>,
    pub headers: Pairs,
    pub timeout_millis: Option<u64>,
    pub body: Option<BodyView>,
}

impl View for HookSpec {
    type V = HookView;

    open spec fn view(&self) -> HookView {
        HookView {
            method: self.method@,
            url: self.url@,
            headers: pair_views(self.headers@),
            timeout_millis: self.timeout_millis,
            body: optional_body(self.body),
        }
    }
}

/// The request of a webhook with every template rendered.
#[derive(Debug)]
pub struct RenderedHook {
    pub method: String,
    pub url: String,
    pub headers: Vec<(String, String)>,
    pub body: Option<String>,
}

/// A rendered request as contracts see it.
pub ghost struct RenderedView {
    pub method: Seq<char>,
    pub url: Seq<char>,
    pub headers: Pairs,
    pub body: Option<Seq<char>>,
}

impl View for RenderedHook {
    type V = RenderedView;

    open spec fn view(&self) -> RenderedView {
        RenderedView {
            method: self.method@,
            url: self.url@,
            headers: pair_views(self.headers@),
            body: optional_text(self.body),
        }
    }
}

/// A request that an action sends.
#[derive(Debug)]
pub struct WebHookAction {
    name: String,
    http: HookSpec,
    envs: Envs,
}

/// A webhook action as contracts see it.
pub ghost struct WebHookView {
    pub name: Seq<char>,
    pub http: HookView,
    pub scope: Scope,
}

impl View for WebHookAction {
    type V = WebHookView;

    closed spec fn view(&self) -> WebHookView {
        WebHookView { name: self.name@, http: self.http@, scope: self.envs@ }
    }
}

/// The method of a request that names none.
pub open spec fn default_method_text() -> Seq<char> {
    "POST"@
}

/// The name under which requests are sent.
pub open spec fn user_agent() -> Seq<char> {
    "git-arrow/0.1.0"@
}

/// How long a request that sets no time limit waits for its answer, in
/// milliseconds.
pub open spec fn default_timeout_millis() -> u64 {
    10000
}

/// `template` rendered with the variables `env`, or the failure that
/// names the template: a template that includes a partial fails, and so
/// does one that the engine refuses.
pub open spec fn rendered_text(template: Seq<char>, env: Map<Seq<char>, Seq<char>>) -> Result<
    Seq<char>,
    Failure,
> {
    if has_partial_tag(template) {
        Err(Failure::Template { template })
    } else {
        match handlebars_text(template, env) {
            Some(text) => Ok(text),
            None => Err(Failure::Template { template }),
        }
    }
}

/// `pairs` with each value rendered, in order. The first value that
/// cannot be rendered fails the whole.
pub open spec fn rendered_pairs(pairs: Pairs, env: Map<Seq<char>, Seq<char>>) -> Result<
    Pairs,
    Failure,
>
    decreases pairs.len(),
{
    if pairs.len() == 0 {
        Ok(Pairs::empty())
    } else {
        match rendered_pairs(pairs.drop_last(), env) {
            Err(e) => Err(e),
            Ok(done) => match rendered_text(pairs.last().1, env) {
                Err(e) => Err(e),
                Ok(text) => Ok(done.push((pairs.last().0, text))),
            },
        }
    }
}

/// The text of a body before it is rendered: form fields URL-encoded,
/// JSON text as it stands.
pub open spec fn body_text(body: BodyView) -> Result<Seq<char>, Failure> {
    match body {
        BodyView::Form(fields) => match form_urlencoded(fields) {
            Some(text) => Ok(text),
            None => Err(Failure::DefinitionParse { detail: "formData"@ }),
        },
        BodyView::Json(text) => Ok(text),
    }
}

/// The content type that goes with a body.
pub open spec fn content_type(body: BodyView) -> Seq<char> {
    match body {
        BodyView::Form(_) => "application/x-www-form-urlencoded"@,
        BodyView::Json(_) => "application/json"@,
    }
}

/// The body of `hook` rendered with `env`, where it has one.
pub open spec fn rendered_body(body: Option<BodyView>, env: Map<Seq<char>, Seq<char>>) -> Result<
    Option<Seq<char>>,
    Failure,
> {
    match body {
        None => Ok(None),
        Some(body) => match body_text(body) {
            Err(e) => Err(e),
            Ok(raw) => match rendered_text(raw, env) {
                Err(e) => Err(e),
                Ok(text) => Ok(Some(text)),
            },
        },
    }
}

/// `hook` with the method, the address, the header values and the body
/// rendered with `env`, in this order. The first that fails decides.
pub open spec fn rendered_hook(hook: HookView, env: Map<Seq<char>, Seq<char>>) -> Result<
    RenderedView,
    Failure,
> {
    match rendered_text(hook.method, env) {
        Err(e) => Err(e),
        Ok(method) => match rendered_text(hook.url, env) {
            Err(e) => Err(e),
            Ok(url) => match rendered_pairs(hook.headers, env) {
                Err(e) => Err(e),
                Ok(headers) => match rendered_body(hook.body, env) {
                    Err(e) => Err(e),
                    Ok(body) => Ok(RenderedView { method, url, headers, body }),
                },
            },
        },
    }
}

/// The headers of the request: the user agent first, then the headers of
/// the hook, then the content type of the body, if there is a body.
pub open spec fn request_headers(headers: Pairs, body: Option<BodyView>) -> Pairs {
    let kind = match body {
        Some(body) => seq![("Content-Type"@, content_type(body))],
        None => Pairs::empty(),
    };
    seq![("User-Agent"@, user_agent())] + headers + kind
}

/// The request that `hook` sends in the environment `env`: the rendered
/// hook with its method in upper case, and ten seconds to wait where the
/// hook sets no limit.
pub open spec fn request_of(hook: HookView, env: Map<Seq<char>, Seq<char>>) -> Result<
    Request,
    Failure,
> {
    match rendered_hook(hook, env) {
        Err(e) => Err(e),
        Ok(done) => Ok(
            Request {
                method: uppercased(done.method),
                url: done.url,
                headers: request_headers(done.headers, hook.body),
                timeout_millis: match hook.timeout_millis {
                    Some(limit) => limit,
                    None => default_timeout_millis(),
                },
                body: done.body,
            },
        ),
    }
}

/// The plan of a webhook action: its one request.
pub open spec fn webhook_plan(action: WebHookView, env: Pairs) -> Result<Plan, Failure> {
    match request_of(action.http, map_of(env)) {
        Err(e) => Err(e),
        Ok(request) => Ok(Plan::Http(request)),
    }
}

/// The line that reports an answer: the status, the time it took, and
/// the body.
pub open spec fn response_text(status: u16, elapsed_millis: nat, body: Seq<char>) -> Seq<char> {
    "  "@ + decimal(status as nat) + " ("@ + duration_text(elapsed_millis) + "): "@ + body
}

/// The method of a request that names none.
pub fn default_method() -> (method: String)
    ensures
        method@ == default_method_text(),
{
    "POST".to_owned()
}

/// Whether `c` may stand between the braces that open a tag and the
/// sign that says what kind of tag it is.
fn tag_filler(c: char) -> (filler: bool)
    ensures
        filler == is_tag_filler(c),
{
    c == ' ' || c == '\t' || c == '\n' || c == '\r' || c == '~' || c == '#'
}

/// Whether `template` holds a tag that includes a partial.
pub fn includes_partial(template: &str) -> (found: bool)
    ensures
        found == has_partial_tag(template@),
{
    let t = chars_of(template);
    let mut i: usize = 0;
    while i < t.len()
        invariant
            t@ == template@,
            forall|a: int, b: int| 0 <= a < i ==> !partial_tag_at(t@, a, b),
        decreases t.len() - i,
    {
        if t[i] == '{' && i + 1 < t.len() && t[i + 1] == '{' {
            let mut j: usize = i + 2;
            while j < t.len() && tag_filler(t[j])
                invariant
                    i + 2 <= j <= t.len(),
                    forall|k: int| i + 2 <= k < j ==> is_tag_filler(#[trigger] t@[k]),
                decreases t.len() - j,
            {
                j += 1;
            }
            if j < t.len() && t[j] == '>' {
                assert(partial_tag_at(t@, i as int, j as int));
                return true;
            }
            assert forall|b: int| !partial_tag_at(t@, i as int, b) by {
                if partial_tag_at(t@, i as int, b) {
                    if b < j {
                        assert(is_tag_filler(t@[b]));
                    } else if b > j {
                        assert(is_tag_filler(t@[j as int]));
                    }
                }
            }
        }
        i += 1;
    }
    false
}

/// Renders `template` with the variables `vars`.
fn render_text(template: &str, vars: &Vec<(String, String)>) -> (text: Result<String, RunError>)
    ensures
        match text {
            Ok(text) => rendered_text(template@, map_of(pair_views(vars@))) == Ok::<
                Seq<char>,
                Failure,
            >(text@),
            Err(e) => rendered_text(template@, map_of(pair_views(vars@))) == Err::<
                Seq<char>,
                Failure,
            >(e@),
        },
{
    if includes_partial(template) {
        return Err(RunError::Template { template: template.to_owned() });
    }
    match render_template(template, vars) {
        Some(text) => Ok(text),
        None => Err(RunError::Template { template: template.to_owned() }),
    }
}

impl HookSpec {
    /// Renders the method, the address, the header values and the body
    /// with the environment `env`.
    pub fn render_env(&self, env: &Variables) -> (done: Result<RenderedHook, RunError>)
        ensures
            match done {
                Ok(done) => rendered_hook(self@, env.map()) == Ok::<RenderedView, Failure>(done@),
                Err(e) => rendered_hook(self@, env.map()) == Err::<RenderedView, Failure>(e@),
            },
    {
        let vars = env.to_pairs();
        let ghost data = map_of(env@);
        let method = match render_text(self.method.as_str(), &vars) {
            Ok(text) => text,
            Err(e) => {
                return Err(e);
            },
        };
        let url = match render_text(self.url.as_str(), &vars) {
            Ok(text) => text,
            Err(e) => {
                return Err(e);
            },
        };
        let mut headers: Vec<(String, String)> = Vec::new();
        let mut i: usize = 0;
        let ghost all = pair_views(self.headers@);
        assert(all.take(0) =~= Pairs::empty());
        assert(pair_views(headers@) =~= Pairs::empty());
        while i < self.headers.len()
            invariant
                i <= self.headers.len(),
                all == pair_views(self.headers@),
                data == map_of(pair_views(vars@)),
                data == env.map(),
                rendered_text(self@.method, data) is Ok,
                rendered_text(self@.url, data) is Ok,
                rendered_pairs(all.take(i as int), data) == Ok::<Pairs, Failure>(
                    pair_views(headers@),
                ),
            decreases self.headers.len() - i,
        {
            assert(all.take(i + 1).drop_last() =~= all.take(i as int));
            assert(all.take(i + 1).last() == all[i as int]);
            let ghost before = pair_views(headers@);
            match render_text(self.headers[i].1.as_str(), &vars) {
                Ok(text) => {
                    headers.push((self.headers[i].0.clone(), text));
                    assert(pair_views(headers@) =~= before.push((all[i as int].0, text@)));
                },
                Err(e) => {
                    proof {
                        lemma_rendered_pairs_fails(all, data, i as int);
                    }
                    return Err(e);
                },
            }
            i += 1;
        }
        assert(all.take(i as int) =~= all);
        let body = match &self.body {
            None => None,
            Some(body) => {
                let raw = match body {
                    BodyData::FormData(fields) => match urlencode(fields) {
                        Some(text) => text,
                        None => {
                            return Err(RunError::DefinitionParse { detail: "formData".to_owned() });
                        },
                    },
                    BodyData::JsonData(text) => text.clone(),
                };
                match render_text(raw.as_str(), &vars) {
                    Ok(text) => Some(text),
                    Err(e) => {
                        return Err(e);
                    },
                }
            },
        };
        Ok(RenderedHook { method, url, headers, body })
    }

    /// The request that the hook sends in the environment `env`.
    pub fn request(&self, env: &Variables) -> (request: Result<HttpRequest, RunError>)
        ensures
            match request {
                Ok(request) => request_of(self@, env.map()) == Ok::<Request, Failure>(request@),
                Err(e) => request_of(self@, env.map()) == Err::<Request, Failure>(e@),
            },
    {
        let done = match self.render_env(env) {
            Ok(done) => done,
            Err(e) => {
                return Err(e);
            },
        };
        let method = done.method.as_str().to_uppercase();
        let mut headers: Vec<(String, String)> = Vec::new();
        headers.push(("User-Agent".to_owned(), "git-arrow/0.1.0".to_owned()));
        let ghost first = pair_views(headers@);
        assert(first =~= seq![("User-Agent"@, user_agent())]);
        let mut i: usize = 0;
        assert(pair_views(done.headers@).take(0) =~= Pairs::empty());
        assert(first + Pairs::empty() =~= first);
        while i < done.headers.len()
            invariant
                i <= done.headers.len(),
                pair_views(headers@) == first + pair_views(done.headers@).take(i as int),
            decreases done.headers.len() - i,
        {
            let ghost before = pair_views(headers@);
            let ghost all = pair_views(done.headers@);
            headers.push((done.headers[i].0.clone(), done.headers[i].1.clone()));
            assert(pair_views(headers@) =~= before.push(all[i as int]));
            assert(all.take(i + 1) =~= all.take(i as int).push(all[i as int]));
            assert(pair_views(headers@) =~= first + all.take(i + 1));
            i += 1;
        }
        assert(pair_views(done.headers@).take(i as int) =~= pair_views(done.headers@));
        let ghost before = pair_views(headers@);
        match &self.body {
            Some(BodyData::FormData(_)) => {
                headers.push(
                    ("Content-Type".to_owned(), "application/x-www-form-urlencoded".to_owned()),
                );
                assert(pair_views(headers@) =~= before + seq![
                    ("Content-Type"@, content_type(self@.body->0)),
                ]);
            },
            Some(BodyData::JsonData(_)) => {
                headers.push(("Content-Type".to_owned(), "application/json".to_owned()));
                assert(pair_views(headers@) =~= before + seq![
                    ("Content-Type"@, content_type(self@.body->0)),
                ]);
            },
            None => {
                assert(before + Pairs::empty() =~= before);
            },
        }
        let timeout_millis = match self.timeout_millis {
            Some(limit) => limit,
            None => 10000,
        };
        Ok(HttpRequest { method, url: done.url, headers, timeout_millis, body: done.body })
    }
}

/// Where the value at `at` is the first that cannot be rendered, the
/// whole fails with the failure that names it.
pub proof fn lemma_rendered_pairs_fails(pairs: Pairs, env: Map<Seq<char>, Seq<char>>, at: int)
    requires
        0 <= at < pairs.len(),
        rendered_pairs(pairs.take(at), env) is Ok,
        rendered_text(pairs[at].1, env) is Err,
    ensures
        rendered_pairs(pairs, env) == Err::<Pairs, Failure>(
            Failure::Template { template: pairs[at].1 },
        ),
    decreases pairs.len() - at,
{
    assert(pairs.take(at + 1).drop_last() =~= pairs.take(at));
    assert(pairs.take(at + 1).last() == pairs[at]);
    lemma_rendered_pairs_stays_failed(pairs, env, at + 1);
    assert(pairs.take(pairs.len() as int) =~= pairs);
}

/// A failure among the first `n` values is the failure of the whole.
pub proof fn lemma_rendered_pairs_stays_failed(
    pairs: Pairs,
    env: Map<Seq<char>, Seq<char>>,
    n: int,
)
    requires
        0 <= n <= pairs.len(),
        rendered_pairs(pairs.take(n), env) is Err,
    ensures
        rendered_pairs(pairs.take(pairs.len() as int), env) == rendered_pairs(pairs.take(n), env),
    decreases pairs.len() - n,
{
    if n < pairs.len() {
        assert(pairs.take(n + 1).drop_last() =~= pairs.take(n));
        lemma_rendered_pairs_stays_failed(pairs, env, n + 1);
    }
}

/// How a request that was answered went: a status below 400 is success,
/// any other a failure that carries the status and the body.
pub fn http_outcome(status: u16, body: String) -> (outcome: Result<(), RunError>)
    ensures
        match outcome {
            Ok(_) => status < 400,
            Err(e) => status >= 400 && e@ == (Failure::Http { status: Some(status), body: body@ }),
        },
{
    if status >= 400 {
        Err(RunError::Http { status: Some(status), body })
    } else {
        Ok(())
    }
}

/// The line that reports an answer.
pub fn response_line(status: u16, elapsed_millis: u128, body: &str) -> (line: String)
    ensures
        line@ == response_text(status, elapsed_millis as nat, body@),
{
    let mut line = "  ".to_owned();
    push_decimal(&mut line, status as u128);
    line.append(" (");
    line.append(format_duration(elapsed_millis).as_str());
    line.append("): ");
    line.append(body);
    line
}

impl WebHookAction {
    /// The action called `name` that sends `http`, with the environment
    /// fragment `envs`.
    pub fn new(name: String, http: HookSpec, envs: Envs) -> (action: WebHookAction)
        ensures
            action@ == (WebHookView { name: name@, http: http@, scope: envs@ }),
    {
        WebHookAction { name, http, envs }
    }
}

impl IAction for WebHookAction {
    open spec fn label(&self) -> Seq<char> {
        self@.name
    }

    open spec fn fragment(&self) -> Scope {
        self@.scope
    }

    open spec fn planned(&self, workdir: Seq<char>, env: Pairs) -> Result<Plan, Failure> {
        webhook_plan(self@, env)
    }

    fn title(&self) -> (line: String) {
        title_line(self.name.as_str())
    }

    fn scope(&self, parent: &Envs) -> (envs: Envs) {
        self.envs.inherit(parent)
    }

    fn run(&self, workdir: &str, env: &Variables) -> (plan: Result<ActionPlan, RunError>) {
        match self.http.request(env) {
            Ok(request) => Ok(ActionPlan::Http(request)),
            Err(e) => Err(e),
        }
    }
}

} // verus!
