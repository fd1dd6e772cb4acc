//! The local proxy's rules: which headers it forwards, where it sends a
//! request, when it sends a body, when an upstream answer is a Umbrel login
//! redirect, which login URL that redirect leads to, and what it answers when
//! something fails.

use vstd::prelude::*;
use vstd::string::*;

use crate::text::{
    contains_seq, contains_str, encode_component, occurs_at, encode_uri_component, lemma_trim_end_char, str_eq, trailing_count, trim_end_char, trim_end_matching,
};

verus! {

/// The hop-by-hop header names, which apply to one connection only.
pub open spec fn is_hop_by_hop_name(name: Seq<char>) -> bool {
    ||| name == "host"@
    ||| name == "connection"@
    ||| name == "keep-alive"@
    ||| name == "proxy-authenticate"@
    ||| name == "proxy-authorization"@
    ||| name == "te"@
    ||| name == "trailers"@
    ||| name == "transfer-encoding"@
    ||| name == "upgrade"@
}

/// Only a `302`/`303` whose `Location` names port 2000, with a password set,
/// leads anywhere but back to the client: every other answer of the target,
/// whatever its status (`404`, `500`, ...), is passed back as it is.
pub proof fn law_other_answers_passed_back(status: u16, location: Option<Seq<char>>, password: Seq<char>)
    requires
        !((status == 302 || status == 303) && password.len() > 0 && location is Some && exists|i: int|
            0 <= i && i + 5 <= location.unwrap().len() && #[trigger] location.unwrap().subrange(i, i + 5) == ":2000"@),
    ensures
        proxy_step_spec(ProxyPhase::FirstSend, password, ProxyEventView::Answered { status, location })
            == (ProxyPhase::Finished, ProxyActionView::PassBack),
{
    if is_umbrel_redirect(status, location, password) {
        let l = location.unwrap();
        reveal_strlit(":2000");
        let i = choose|i: int| occurs_at(l, ":2000"@, i);
        assert(0 <= i && i + 5 <= l.len() && l.subrange(i, i + 5) == ":2000"@);
    }
}

/// A login redirect is never passed back: it leads to logging in, or to a
/// `502` when its `Location` is not a URL.
pub proof fn law_redirect_leads_to_login(status: u16, location: Seq<char>, password: Seq<char>)
    requires
        status == 302 || status == 303,
        password.len() > 0,
        exists|i: int| 0 <= i && i + 5 <= location.len() && #[trigger] location.subrange(i, i + 5) == ":2000"@,
    ensures
        match proxy_step_spec(
            ProxyPhase::FirstSend,
            password,
            ProxyEventView::Answered { status, location: Some(location) },
        ) {
            (ProxyPhase::LoggingIn, ProxyActionView::LogIn { .. }) => url_parts(location) is Some,
            (ProxyPhase::Finished, ProxyActionView::Reply { status: s, message: m }) => s == 502
                && m == "Umbrel authentication failed"@ && url_parts(location) is None,
            _ => false,
        },
{
    reveal_strlit(":2000");
    let i = choose|i: int| 0 <= i && i + 5 <= location.len() && #[trigger] location.subrange(i, i + 5) == ":2000"@;
    assert(occurs_at(location, ":2000"@, i));
}

/// Exactly the nine hop-by-hop names are dropped; every other header name,
/// `authorization` and `cookie` among them, is passed on.
pub proof fn law_hop_by_hop_names_exactly(name: Seq<char>)
    ensures
        is_hop_by_hop_name(name) <==> (name == "host"@ || name == "connection"@ || name == "keep-alive"@
            || name == "proxy-authenticate"@ || name == "proxy-authorization"@ || name == "te"@
            || name == "trailers"@ || name == "transfer-encoding"@ || name == "upgrade"@),
{
}

/// After a send fails, a login fails or the resend fails, the client gets a
/// `502 Bad Gateway` naming the failure and nothing more happens; a successful
/// login sends the request once more, and the resent answer is passed back.
pub proof fn law_proxy_after_login(password: Seq<char>, error: Seq<char>)
    ensures
        proxy_step_spec(ProxyPhase::FirstSend, password, ProxyEventView::SendFailed { error }) == (
            ProxyPhase::Finished,
            ProxyActionView::Reply { status: 502, message: "Proxy error: "@ + error },
        ),
        proxy_step_spec(ProxyPhase::LoggingIn, password, ProxyEventView::LoggedIn { ok: false }) == (
            ProxyPhase::Finished,
            ProxyActionView::Reply { status: 502, message: "Umbrel authentication failed"@ },
        ),
        proxy_step_spec(ProxyPhase::LoggingIn, password, ProxyEventView::LoggedIn { ok: true }) == (
            ProxyPhase::Resending,
            ProxyActionView::Resend,
        ),
        proxy_step_spec(ProxyPhase::Resending, password, ProxyEventView::Resent) == (
            ProxyPhase::Finished,
            ProxyActionView::PassBack,
        ),
        proxy_step_spec(ProxyPhase::Resending, password, ProxyEventView::ResendFailed { error }) == (
            ProxyPhase::Finished,
            ProxyActionView::Reply { status: 502, message: "Retry failed: "@ + error },
        ),
{
}

/// A request carries its body when the body is not empty, and an empty body
/// is sent for `POST`, `PUT` and `PATCH` only.
pub proof fn law_body_sent(body_is_empty: bool, method: Seq<char>)
    ensures
        !body_is_empty ==> sends_body(body_is_empty, method),
        body_is_empty ==> (sends_body(body_is_empty, method) <==> (method == "POST"@ || method == "PUT"@
            || method == "PATCH"@)),
{
}

/// Whether `name` (already in lower case) is a hop-by-hop header name.
pub fn is_hop_by_hop(name: &str) -> (r: bool)
    ensures
        r == is_hop_by_hop_name(name@),
{
    str_eq(name, "host") || str_eq(name, "connection") || str_eq(name, "keep-alive")
        || str_eq(name, "proxy-authenticate") || str_eq(name, "proxy-authorization")
        || str_eq(name, "te") || str_eq(name, "trailers") || str_eq(name, "transfer-encoding")
        || str_eq(name, "upgrade")
}

/// What `str::to_lowercase` returns for a text (Unicode lower case).
pub uninterp spec fn lowercase(s: Seq<char>) -> Seq<char>;

/// Calls `str::to_lowercase`; its result is named by [`lowercase`].
#[verifier::external_body]
fn to_lowercase(s: &str) -> (r: String)
    ensures
        r@ == lowercase(s@),
{
    s.to_lowercase()
}

/// Whether a header is passed on: its lower-cased name is not hop-by-hop.
pub open spec fn forwards_header(name: Seq<char>) -> bool {
    !is_hop_by_hop_name(lowercase(name))
}

/// Whether the header called `name` is passed on, to the target or back to the client.
pub fn should_forward_header(name: &str) -> (r: bool)
    ensures
        r == forwards_header(name@),
{
    let lower = to_lowercase(name);
    !is_hop_by_hop(lower.as_str())
}

/// The positions, in increasing order, of the headers that are passed on.
pub fn forwarded_header_indices(names: &Vec<String>) -> (r: Vec<usize>)
    ensures
        forall|j: int, k: int| 0 <= j < k < r@.len() ==> r@[j] < r@[k],
        forall|j: int| 0 <= j < r@.len() ==> r@[j] < names@.len() && forwards_header(names@[r@[j] as int]@),
        forall|i: int| 0 <= i < names@.len() && forwards_header(#[trigger] names@[i]@) ==> r@.contains(i as usize),
{
    let n = names.len();
    let mut r: Vec<usize> = Vec::new();
    let mut i: usize = 0;
    while i < n
        invariant
            n == names@.len(),
            i <= n,
            forall|j: int, k: int| 0 <= j < k < r@.len() ==> r@[j] < r@[k],
            forall|j: int| 0 <= j < r@.len() ==> r@[j] < i && forwards_header(names@[r@[j] as int]@),
            forall|t: int| 0 <= t < i && forwards_header(#[trigger] names@[t]@) ==> r@.contains(t as usize),
        decreases n - i,
    {
        if should_forward_header(names[i].as_str()) {
            let ghost r0 = r@;
            r.push(i);
            assert forall|t: int| 0 <= t < i + 1 && forwards_header(#[trigger] names@[t]@) implies r@.contains(t as usize) by {
                if t < i {
                    let w = choose|w: int| 0 <= w < r0.len() && r0[w] == t as usize;
                    assert(r@[w] == t as usize);
                } else {
                    assert(r@[r0.len() as int] == i);
                }
            }
        }
        i += 1;
    }
    r
}

/// Whether a request is sent with its body: when the body is not empty, or
/// when the method is `POST`, `PUT` or `PATCH`.
pub open spec fn sends_body(body_is_empty: bool, method: Seq<char>) -> bool {
    !body_is_empty || method == "POST"@ || method == "PUT"@ || method == "PATCH"@
}

/// Decides whether the forwarded request carries the buffered body.
pub fn should_send_body(body_is_empty: bool, method: &str) -> (r: bool)
    ensures
        r == sends_body(body_is_empty, method@),
{
    !body_is_empty || str_eq(method, "POST") || str_eq(method, "PUT") || str_eq(method, "PATCH")
}

/// An answer that the proxy gives itself, in place of the target's.
pub struct ProxyReply {
    pub status: u16,
    pub message: String,
}

/// The URL a request is forwarded to: the target without its trailing
/// slashes, followed by the request's path and query (`/` when it has none).
pub open spec fn forward_url(target: Seq<char>, path_and_query: Option<Seq<char>>) -> Seq<char> {
    trim_end_char(target, '/') + match path_and_query {
        Some(p) => p,
        None => "/"@,
    }
}

/// Where to forward a request, or the `502 Bad Gateway` answer when no target
/// is configured.
pub fn resolve_target(target_url: &str, path_and_query: Option<&str>) -> (r: Result<String, ProxyReply>)
    ensures
        match r {
            Ok(url) => target_url@.len() > 0 && url@ == forward_url(
                target_url@,
                match path_and_query {
                    Some(p) => Some(p@),
                    None => None,
                },
            ),
            Err(reply) => target_url@.len() == 0 && reply.status == 502 && reply.message@
                == "Proxy target not configured"@,
        },
{
    if target_url.is_empty() {
        return Err(ProxyReply { status: 502, message: "Proxy target not configured".to_owned() });
    }
    let mut url = trim_end_matching(target_url, '/');
    match path_and_query {
        Some(p) => url.append(p),
        None => url.append("/"),
    }
    Ok(url)
}

/// A request goes to the configured target with all its trailing slashes
/// removed, followed by the request's own path: the target is that base
/// followed by the removed slashes, and the base does not end in a slash.
pub proof fn law_forward_url_joins_base_and_path(target: Seq<char>, path_and_query: Seq<char>)
    ensures
        ({
            let base = trim_end_char(target, '/');
            &&& base.len() == 0 || base.last() != '/'
            &&& target == base + Seq::new(trailing_count(target, '/'), |i: int| '/')
            &&& forward_url(target, Some(path_and_query)) == base + path_and_query
        }),
{
    lemma_trim_end_char(target, '/');
}

/// The `400 Bad Request` answer when the request body cannot be read.
pub fn body_unreadable() -> (reply: ProxyReply)
    ensures
        reply.status == 400,
        reply.message@ == "Failed to read request body"@,
{
    ProxyReply { status: 400, message: "Failed to read request body".to_owned() }
}

/// The `502 Bad Gateway` answer when the target cannot be reached.
pub fn send_failed(error: &str) -> (reply: ProxyReply)
    ensures
        reply.status == 502,
        reply.message@ == "Proxy error: "@ + error@,
{
    let mut message = "Proxy error: ".to_owned();
    message.append(error);
    ProxyReply { status: 502, message }
}

/// The `502 Bad Gateway` answer when logging in at Umbrel fails.
pub fn login_failed() -> (reply: ProxyReply)
    ensures
        reply.status == 502,
        reply.message@ == "Umbrel authentication failed"@,
{
    ProxyReply { status: 502, message: "Umbrel authentication failed".to_owned() }
}

/// The `502 Bad Gateway` answer when the request sent again after logging in fails.
pub fn retry_failed(error: &str) -> (reply: ProxyReply)
    ensures
        reply.status == 502,
        reply.message@ == "Retry failed: "@ + error@,
{
    let mut message = "Retry failed: ".to_owned();
    message.append(error);
    ProxyReply { status: 502, message }
}

/// An upstream answer is a Umbrel login redirect when it is a `302 Found` or
/// `303 See Other` whose `Location` names port 2000, and a password is set.
pub open spec fn is_umbrel_redirect(status: u16, location: Option<Seq<char>>, password: Seq<char>) -> bool {
    &&& (status == 302 || status == 303)
    &&& password.len() > 0
    &&& location matches Some(l) && contains_seq(l, ":2000"@)
}

/// Decides whether an upstream answer calls for logging in at Umbrel and
/// sending the request again (otherwise it is passed back as it is).
pub fn needs_umbrel_login(status: u16, location: Option<&str>, password: &str) -> (r: bool)
    ensures
        r == is_umbrel_redirect(
            status,
            match location {
                Some(l) => Some(l@),
                None => None,
            },
            password@,
        ),
{
    if (status == 302 || status == 303) && !password.is_empty() {
        match location {
            Some(l) => contains_str(l, ":2000"),
            None => false,
        }
    } else {
        false
    }
}

/// Whether a login answer's status means success (`2xx`).
pub fn login_succeeded(status: u16) -> (r: bool)
    ensures
        r == (200 <= status && status < 300),
{
    200 <= status && status < 300
}

/// The parts of a redirect `Location` URL that the login reads: its host, if
/// any, and its query as decoded key/value pairs in order.
pub struct RedirectLocation {
    pub host: Option<String>,
    pub query: Vec<(String, String)>,
}

/// A query's pairs as text.
pub open spec fn pairs_view(q: Seq<(String, String)>) -> Seq<(Seq<char>, Seq<char>)> {
    q.map_values(|p: (String, String)| (p.0@, p.1@))
}

impl View for RedirectLocation {
    type V = (Option<Seq<char>>, Seq<(Seq<char>, Seq<char>)>);

    open spec fn view(&self) -> (Option<Seq<char>>, Seq<(Seq<char>, Seq<char>)>) {
        (
            match self.host {
                Some(h) => Some(h@),
                None => None,
            },
            pairs_view(self.query@),
        )
    }
}

/// What `url::Url::parse` makes of a text, read back as its host
/// (`Url::host_str`) and its decoded query pairs (`Url::query_pairs`); `None`
/// when the text is not an absolute URL.
pub uninterp spec fn url_parts(location: Seq<char>) -> Option<(Option<Seq<char>>, Seq<(Seq<char>, Seq<char>)>)>;

/// Parses `location` with `url::Url::parse` and reads its host and query pairs.
#[verifier::external_body]
fn parse_location(location: &str) -> (r: Option<RedirectLocation>)
    ensures
        match r {
            Some(p) => url_parts(location@) == Some(p@),
            None => url_parts(location@) is None,
        },
{
    match url::Url::parse(location) {
        Ok(u) => Some(RedirectLocation {
            host: u.host_str().map(|h| h.to_string()),
            query: u.query_pairs().map(|(k, v)| (k.into_owned(), v.into_owned())).collect(),
        }),
        Err(_) => None,
    }
}

/// The value of the first query pair whose key is `key`.
pub open spec fn query_value(q: Seq<(Seq<char>, Seq<char>)>, key: Seq<char>) -> Option<Seq<char>>
    decreases q.len(),
{
    if q.len() == 0 {
        None
    } else if q[0].0 == key {
        Some(q[0].1)
    } else {
        query_value(q.drop_first(), key)
    }
}

fn first_query_value(query: &Vec<(String, String)>, key: &str) -> (r: Option<String>)
    ensures
        match r {
            Some(v) => query_value(pairs_view(query@), key@) == Some(v@),
            None => query_value(pairs_view(query@), key@) is None,
        },
{
    let ghost pv = pairs_view(query@);
    let n = query.len();
    let mut i: usize = 0;
    assert(pv.skip(0) =~= pv);
    while i < n
        invariant
            n == query@.len(),
            pv == pairs_view(query@),
            pv.len() == n,
            i <= n,
            query_value(pv, key@) == query_value(pv.skip(i as int), key@),
        decreases n - i,
    {
        assert(pv.skip(i as int)[0] == pv[i as int]);
        if str_eq(query[i].0.as_str(), key) {
            return Some(query[i].1.clone());
        }
        assert(pv.skip(i as int).drop_first() =~= pv.skip(i + 1));
        i += 1;
    }
    None
}

/// The text of an optional value, or `default`.
pub open spec fn or_default(v: Option<Seq<char>>, default: Seq<char>) -> Seq<char> {
    match v {
        Some(x) => x,
        None => default,
    }
}

/// The Umbrel login URL for a redirect: on port 2000 of the redirect's host
/// (`100.122.110.56` when it has none), carrying the redirect's `origin`,
/// `app` and `path` query values (`host`, `spacebot` and `/` when absent),
/// each percent-encoded as `encodeURIComponent` does.
pub open spec fn login_url_spec(parts: (Option<Seq<char>>, Seq<(Seq<char>, Seq<char>)>)) -> Seq<char> {
    "http://"@ + or_default(parts.0, "100.122.110.56"@) + ":2000/v1/account/login?origin="@
        + encode_uri_component(or_default(query_value(parts.1, "origin"@), "host"@)) + "&app="@
        + encode_uri_component(or_default(query_value(parts.1, "app"@), "spacebot"@)) + "&path="@
        + encode_uri_component(or_default(query_value(parts.1, "path"@), "/"@))
}

/// Builds the Umbrel login URL from the parts of a redirect location.
pub fn login_url_for(parts: &RedirectLocation) -> (r: String)
    ensures
        r@ == login_url_spec(parts@),
{
    let host = match &parts.host {
        Some(h) => h.clone(),
        None => "100.122.110.56".to_owned(),
    };
    let origin = match first_query_value(&parts.query, "origin") {
        Some(v) => v,
        None => "host".to_owned(),
    };
    let app = match first_query_value(&parts.query, "app") {
        Some(v) => v,
        None => "spacebot".to_owned(),
    };
    let path = match first_query_value(&parts.query, "path") {
        Some(v) => v,
        None => "/".to_owned(),
    };
    let mut url = "http://".to_owned();
    url.append(host.as_str());
    url.append(":2000/v1/account/login?origin=");
    url.append(encode_component(origin.as_str()).as_str());
    url.append("&app=");
    url.append(encode_component(app.as_str()).as_str());
    url.append("&path=");
    url.append(encode_component(path.as_str()).as_str());
    url
}

/// The Umbrel login URL that a redirect `location` leads to, or `None` when
/// `location` is not a URL.
pub fn umbrel_login_url(location: &str) -> (r: Option<String>)
    ensures
        match r {
            Some(u) => url_parts(location@) matches Some(p) && u@ == login_url_spec(p),
            None => url_parts(location@) is None,
        },
{
    match parse_location(location) {
        Some(parts) => Some(login_url_for(&parts)),
        None => None,
    }
}

/// Where a forwarded request stands once it has been sent to the target.
#[derive(Clone, Copy, Debug, PartialEq, Eq, Structural)]
pub enum ProxyPhase {
    /// Sent once; waiting for the target's answer.
    FirstSend,
    /// Logging in at Umbrel after a login redirect.
    LoggingIn,
    /// Sent again after logging in; waiting for the answer.
    Resending,
    /// Answered; nothing more happens.
    Finished,
}

/// What the network work reports back to the proxy.
pub enum ProxyEvent {
    /// The target answered with `status` and, if it had one, a readable `Location`.
    Answered { status: u16, location: Option<String> },
    /// The request could not be sent.
    SendFailed { error: String },
    /// The login call returned; `ok` when it succeeded.
    LoggedIn { ok: bool },
    /// The request sent again was answered.
    Resent,
    /// The request could not be sent again.
    ResendFailed { error: String },
}

/// The mathematical value of a [`ProxyEvent`].
pub enum ProxyEventView {
    Answered { status: u16, location: Option<Seq<char>> },
    SendFailed { error: Seq<char> },
    LoggedIn { ok: bool },
    Resent,
    ResendFailed { error: Seq<char> },
}

impl View for ProxyEvent {
    type V = ProxyEventView;

    open spec fn view(&self) -> ProxyEventView {
        match self {
            ProxyEvent::Answered { status, location } => ProxyEventView::Answered {
                status: *status,
                location: match location {
                    Some(l) => Some(l@),
                    None => None,
                },
            },
            ProxyEvent::SendFailed { error } => ProxyEventView::SendFailed { error: error@ },
            ProxyEvent::LoggedIn { ok } => ProxyEventView::LoggedIn { ok: *ok },
            ProxyEvent::Resent => ProxyEventView::Resent,
            ProxyEvent::ResendFailed { error } => ProxyEventView::ResendFailed { error: error@ },
        }
    }
}

/// What the proxy does next.
pub enum ProxyAction {
    /// Pass the last answer of the target back to the client.
    PassBack,
    /// Log in at Umbrel by posting the password to `url`.
    LogIn { url: String },
    /// Send the request again (with the session cookie now held).
    Resend,
    /// Answer the client with the proxy's own reply.
    Reply(ProxyReply),
}

/// The mathematical value of a [`ProxyAction`].
pub enum ProxyActionView {
    PassBack,
    LogIn { url: Seq<char> },
    Resend,
    Reply { status: u16, message: Seq<char> },
}

impl View for ProxyAction {
    type V = ProxyActionView;

    open spec fn view(&self) -> ProxyActionView {
        match self {
            ProxyAction::PassBack => ProxyActionView::PassBack,
            ProxyAction::LogIn { url } => ProxyActionView::LogIn { url: url@ },
            ProxyAction::Resend => ProxyActionView::Resend,
            ProxyAction::Reply(r) => ProxyActionView::Reply { status: r.status, message: r.message@ },
        }
    }
}

/// The events that can arrive in each phase: the target's answer or a send
/// failure after the first send, the login's outcome while logging in, the
/// second answer or failure while resending, nothing once finished.
pub open spec fn event_fits(phase: ProxyPhase, e: ProxyEventView) -> bool {
    match phase {
        ProxyPhase::FirstSend => e is Answered || e is SendFailed,
        ProxyPhase::LoggingIn => e is LoggedIn,
        ProxyPhase::Resending => e is Resent || e is ResendFailed,
        ProxyPhase::Finished => false,
    }
}

/// The proxy's decision on an event. An answer that is a Umbrel login redirect
/// leads to logging in at the login URL that the redirect's `Location` gives
/// (a `Location` that is not a URL fails the login); any other answer is passed
/// back. A successful login sends the request once more; a failed one, or a
/// failed send, is answered with `502 Bad Gateway`.
pub open spec fn proxy_step_spec(
    phase: ProxyPhase,
    password: Seq<char>,
    e: ProxyEventView,
) -> (ProxyPhase, ProxyActionView) {
    match e {
        ProxyEventView::Answered { status, location } => if is_umbrel_redirect(status, location, password) {
            match url_parts(location.unwrap()) {
                Some(p) => (ProxyPhase::LoggingIn, ProxyActionView::LogIn { url: login_url_spec(p) }),
                None => (
                    ProxyPhase::Finished,
                    ProxyActionView::Reply { status: 502, message: "Umbrel authentication failed"@ },
                ),
            }
        } else {
            (ProxyPhase::Finished, ProxyActionView::PassBack)
        },
        ProxyEventView::SendFailed { error } => (
            ProxyPhase::Finished,
            ProxyActionView::Reply { status: 502, message: "Proxy error: "@ + error },
        ),
        ProxyEventView::LoggedIn { ok } => if ok {
            (ProxyPhase::Resending, ProxyActionView::Resend)
        } else {
            (ProxyPhase::Finished, ProxyActionView::Reply { status: 502, message: "Umbrel authentication failed"@ })
        },
        ProxyEventView::Resent => (ProxyPhase::Finished, ProxyActionView::PassBack),
        ProxyEventView::ResendFailed { error } => (
            ProxyPhase::Finished,
            ProxyActionView::Reply { status: 502, message: "Retry failed: "@ + error },
        ),
    }
}

/// Decides what the proxy does on `event`, given the Umbrel password.
pub fn proxy_step(phase: ProxyPhase, password: &str, event: ProxyEvent) -> (r: (ProxyPhase, ProxyAction))
    requires
        event_fits(phase, event@),
    ensures
        (r.0, r.1@) == proxy_step_spec(phase, password@, event@),
{
    match event {
        ProxyEvent::Answered { status, location } => {
            let loc: Option<&str> = match &location {
                Some(l) => Some(l.as_str()),
                None => None,
            };
            if needs_umbrel_login(status, loc, password) {
                let l = location.unwrap();
                match umbrel_login_url(l.as_str()) {
                    Some(url) => (ProxyPhase::LoggingIn, ProxyAction::LogIn { url }),
                    None => (ProxyPhase::Finished, ProxyAction::Reply(login_failed())),
                }
            } else {
                (ProxyPhase::Finished, ProxyAction::PassBack)
            }
        },
        ProxyEvent::SendFailed { error } => (ProxyPhase::Finished, ProxyAction::Reply(send_failed(error.as_str()))),
        ProxyEvent::LoggedIn { ok } => if ok {
            (ProxyPhase::Resending, ProxyAction::Resend)
        } else {
            (ProxyPhase::Finished, ProxyAction::Reply(login_failed()))
        },
        ProxyEvent::Resent => (ProxyPhase::Finished, ProxyAction::PassBack),
        ProxyEvent::ResendFailed { error } => (ProxyPhase::Finished, ProxyAction::Reply(retry_failed(error.as_str()))),
    }
}

/// Whether every event of `evs` arrives in a phase that expects it.
pub open spec fn run_fits(phase: ProxyPhase, password: Seq<char>, evs: Seq<ProxyEventView>) -> bool
    decreases evs.len(),
{
    evs.len() == 0 || (event_fits(phase, evs[0]) && run_fits(
        proxy_step_spec(phase, password, evs[0]).0,
        password,
        evs.drop_first(),
    ))
}

/// How many logins the proxy performs over the events `evs`.
pub open spec fn run_logins(phase: ProxyPhase, password: Seq<char>, evs: Seq<ProxyEventView>) -> nat
    decreases evs.len(),
{
    if evs.len() == 0 {
        0
    } else {
        let (next, a) = proxy_step_spec(phase, password, evs[0]);
        (if a is LogIn { 1nat } else { 0nat }) + run_logins(next, password, evs.drop_first())
    }
}

/// How many times the proxy sends the request again over the events `evs`.
pub open spec fn run_resends(phase: ProxyPhase, password: Seq<char>, evs: Seq<ProxyEventView>) -> nat
    decreases evs.len(),
{
    if evs.len() == 0 {
        0
    } else {
        let (next, a) = proxy_step_spec(phase, password, evs[0]);
        (if a is Resend { 1nat } else { 0nat }) + run_resends(next, password, evs.drop_first())
    }
}

/// How many more events a phase can take at most.
pub open spec fn phase_budget(phase: ProxyPhase) -> nat {
    match phase {
        ProxyPhase::FirstSend => 3,
        ProxyPhase::LoggingIn => 2,
        ProxyPhase::Resending => 1,
        ProxyPhase::Finished => 0,
    }
}

proof fn lemma_run_bounds(phase: ProxyPhase, password: Seq<char>, evs: Seq<ProxyEventView>)
    requires
        run_fits(phase, password, evs),
    ensures
        evs.len() <= phase_budget(phase),
        run_logins(phase, password, evs) <= (if phase == ProxyPhase::FirstSend { 1nat } else { 0nat }),
        run_resends(phase, password, evs) <= (if phase == ProxyPhase::FirstSend || phase == ProxyPhase::LoggingIn {
            1nat
        } else {
            0nat
        }),
    decreases evs.len(),
{
    if evs.len() > 0 {
        let next = proxy_step_spec(phase, password, evs[0]).0;
        lemma_run_bounds(next, password, evs.drop_first());
    }
}

/// One request logs in at most once and is sent again at most once: whatever
/// the target and the login answer, a request's run from its first send has
/// at most three events, one login and one resend.
pub proof fn law_login_and_resend_at_most_once(password: Seq<char>, evs: Seq<ProxyEventView>)
    requires
        run_fits(ProxyPhase::FirstSend, password, evs),
    ensures
        evs.len() <= 3,
        run_logins(ProxyPhase::FirstSend, password, evs) <= 1,
        run_resends(ProxyPhase::FirstSend, password, evs) <= 1,
{
    lemma_run_bounds(ProxyPhase::FirstSend, password, evs);
}

} // verus!
