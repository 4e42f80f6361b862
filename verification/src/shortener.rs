//! The URL shortener: making a short link, and the lookup behind a short
//! link, which asks the cache first and the database second.
use crate::ids::{is_url_safe_char, is_v4_uuid, new_v4_uuid, random_code};
use crate::reply::{is_message, message, Body, Field, Reply, Status};
use vstd::prelude::*;

verus! {

/// The body of a request to shorten a URL.
#[derive(Clone, Debug, PartialEq, Eq)]
pub struct ShortenURLRequest {
    pub url: String,
}

/// A row of the table of short links.
#[derive(Clone, Debug, PartialEq, Eq)]
pub struct URLS {
    pub id: String,
    pub short_code: String,
    pub full_url: String,
}

/// Where short links point to: the service's own address.
pub open spec fn short_url_base() -> Seq<char> {
    "http://localhost:8000/"@
}

/// The number of characters of a short code.
pub open spec fn code_len() -> nat {
    7
}

/// A short link to be stored: a random row id, a random code, the short URL
/// made from the code, and the full URL that it stands for.
#[derive(Clone, Debug, PartialEq, Eq)]
pub struct ShortLink {
    pub id: u128,
    pub code: String,
    pub short_url: String,
    pub full_url: String,
}

/// A value to be written to the cache under a key.
#[derive(Clone, Debug, PartialEq, Eq)]
pub struct CacheWrite {
    pub key: String,
    pub value: String,
}

/// The short URL of a code.
pub fn short_url_for(code: &str) -> (r: String)
    ensures
        r@ == short_url_base() + code@,
{
    String::from_str("http://localhost:8000/").concat(code)
}

/// `link` is a fresh short link for `url`.
pub open spec fn is_short_link_for(link: ShortLink, url: String) -> bool {
    &&& is_v4_uuid(link.id)
    &&& link.code@.len() == code_len()
    &&& forall|i: int| 0 <= i < link.code@.len() ==> is_url_safe_char(#[trigger] link.code@[i])
    &&& link.short_url@ == short_url_base() + link.code@
    &&& link.full_url == url
}

/// Makes a short link for the URL of a request: a random 7-character code
/// and a random row id.
pub fn short_the_url(payload: ShortenURLRequest) -> (link: ShortLink)
    ensures
        is_short_link_for(link, payload.url),
{
    let code = random_code(7);
    let id = new_v4_uuid();
    let short_url = short_url_for(code.as_str());
    ShortLink { id, code, short_url, full_url: payload.url }
}

/// The answer to a shortening, and what to cache, once the row was inserted
/// (`Ok`) or not (`Err` with the database error's text).
pub open spec fn shortened_spec(
    link: ShortLink,
    insert: Result<(), String>,
    r: Reply,
    cache: Option<CacheWrite>,
) -> bool {
    match insert {
        Err(e) => is_message(r, Status::InternalServerError, Field::Error, e@) && cache is None,
        Ok(_) => {
            &&& is_message(r, Status::Success, Field::ShortUrl, link.short_url@)
            &&& cache matches Some(w)
            &&& w.key@ == link.code@
            &&& w.value@ == link.full_url@
        },
    }
}

/// Finishes a shortening: on a failed insert, 500 with the error and
/// nothing cached; else the code is cached with its URL and the answer is
/// 200 with `{"short_url": ...}`.
pub fn shortened(link: &ShortLink, insert: Result<(), String>) -> (r: (Reply, Option<CacheWrite>))
    ensures
        shortened_spec(*link, insert, r.0, r.1),
{
    match insert {
        Err(e) => (message(Status::InternalServerError, Field::Error, e.as_str()), None),
        Ok(_) => {
            let w = CacheWrite { key: link.code.clone(), value: link.full_url.clone() };
            (message(Status::Success, Field::ShortUrl, link.short_url.as_str()), Some(w))
        },
    }
}

/// Where the lookup behind a short link stands.
#[derive(Clone, Copy, Debug, PartialEq, Eq, Structural)]
pub enum RedirectState {
    /// Waiting for a connection to the cache.
    AwaitConnection,
    /// Waiting for the cache's value for the code.
    AwaitCache,
    /// Waiting for the database's row for the code.
    AwaitDatabase,
    /// Answered.
    Done,
}

/// What the outside work reported.
#[derive(Debug, PartialEq, Eq)]
pub enum RedirectEvent {
    /// Whether a connection to the cache was made.
    Connected(bool),
    /// The cache's value for the code, if it gave one.
    CacheRead(Option<String>),
    /// The database's full URL for the code, or the database error's text.
    DatabaseRead(Result<Option<String>, String>),
}

/// What to do next.
#[derive(Clone, Debug, PartialEq, Eq)]
pub enum RedirectAction {
    /// Read the code from the cache.
    ReadCache,
    /// Read the code from the database.
    ReadDatabase,
    /// Send this answer.
    Respond(Reply),
    /// Write to the cache, ignoring whether that works, then send the answer.
    StoreAndRespond(CacheWrite, Reply),
}

/// The order in which the states are passed through.
pub open spec fn stage(s: RedirectState) -> int {
    match s {
        RedirectState::AwaitConnection => 0,
        RedirectState::AwaitCache => 1,
        RedirectState::AwaitDatabase => 2,
        RedirectState::Done => 3,
    }
}

/// `event` is what the work asked for in `state` reports.
pub open spec fn expects(state: RedirectState, event: RedirectEvent) -> bool {
    match state {
        RedirectState::AwaitConnection => event is Connected,
        RedirectState::AwaitCache => event is CacheRead,
        RedirectState::AwaitDatabase => event is DatabaseRead,
        RedirectState::Done => false,
    }
}

/// `r` is a temporary redirect to `url`.
pub open spec fn is_redirect(r: Reply, url: Seq<char>) -> bool {
    r.status == Status::TemporaryRedirect && (r.body matches Body::Location(l) && l@ == url)
}

/// The rule of the lookup behind the short link `code`: in `state`, on
/// `event`, it moves to `next` and does `action`.
pub open spec fn redirect_rule(
    code: Seq<char>,
    state: RedirectState,
    event: RedirectEvent,
    next: RedirectState,
    action: RedirectAction,
) -> bool {
    match event {
        RedirectEvent::Connected(false) => next == RedirectState::Done && (action matches RedirectAction::Respond(r)
            && is_message(r, Status::InternalServerError, Field::Error, "redis connection failed"@)),
        RedirectEvent::Connected(true) => next == RedirectState::AwaitCache && action
            is ReadCache,
        RedirectEvent::CacheRead(Some(url)) => next == RedirectState::Done && (action matches RedirectAction::Respond(r)
            && is_redirect(r, url@)),
        RedirectEvent::CacheRead(None) => next == RedirectState::AwaitDatabase && action
            is ReadDatabase,
        RedirectEvent::DatabaseRead(Ok(Some(url))) => next == RedirectState::Done && (action matches RedirectAction::StoreAndRespond(w, r)
            && w.key@ == code && w.value@ == url@ && is_redirect(r, url@)),
        RedirectEvent::DatabaseRead(Ok(None)) => next == RedirectState::Done && (action matches RedirectAction::Respond(r)
            && is_message(r, Status::NotFound, Field::Error, "url not found"@)),
        RedirectEvent::DatabaseRead(Err(e)) => next == RedirectState::Done && (action matches RedirectAction::Respond(r)
            && is_message(r, Status::InternalServerError, Field::Error, e@)),
    }
}

/// A temporary redirect to `url`.
pub fn redirect_to(url: String) -> (r: Reply)
    ensures
        is_redirect(r, url@),
{
    Reply { status: Status::TemporaryRedirect, body: Body::Location(url) }
}

/// One step of the lookup behind the short link `code`. It starts in
/// `AwaitConnection`; the caller does the action and reports its outcome,
/// until an action answers.
pub fn redirect(code: &str, state: RedirectState, event: RedirectEvent) -> (r: (
    RedirectState,
    RedirectAction,
))
    requires
        expects(state, event),
    ensures
        redirect_rule(code@, state, event, r.0, r.1),
        stage(r.0) > stage(state),
{
    match event {
        RedirectEvent::Connected(false) => (
            RedirectState::Done,
            RedirectAction::Respond(
                message(Status::InternalServerError, Field::Error, "redis connection failed"),
            ),
        ),
        RedirectEvent::Connected(true) => (RedirectState::AwaitCache, RedirectAction::ReadCache),
        RedirectEvent::CacheRead(Some(url)) => (
            RedirectState::Done,
            RedirectAction::Respond(redirect_to(url)),
        ),
        RedirectEvent::CacheRead(None) => (RedirectState::AwaitDatabase, RedirectAction::ReadDatabase),
        RedirectEvent::DatabaseRead(Ok(Some(url))) => {
            let w = CacheWrite { key: String::from_str(code), value: url.clone() };
            (RedirectState::Done, RedirectAction::StoreAndRespond(w, redirect_to(url)))
        },
        RedirectEvent::DatabaseRead(Ok(None)) => (
            RedirectState::Done,
            RedirectAction::Respond(message(Status::NotFound, Field::Error, "url not found")),
        ),
        RedirectEvent::DatabaseRead(Err(e)) => (
            RedirectState::Done,
            RedirectAction::Respond(message(Status::InternalServerError, Field::Error, e.as_str())),
        ),
    }
}

/// Every short URL is the same 22-character address followed by its own
/// code: two codes give URLs that agree on the address and differ exactly
/// where the codes do.
pub proof fn short_urls_share_the_address_and_end_in_the_code(c1: Seq<char>, c2: Seq<char>)
    ensures
        (short_url_base() + c1).len() == 22 + c1.len(),
        (short_url_base() + c1).subrange(0, 22) == (short_url_base() + c2).subrange(0, 22),
        (short_url_base() + c1).subrange(22, 22 + c1.len() as int) == c1,
        (short_url_base() + c1 == short_url_base() + c2) <==> c1 == c2,
{
    reveal_strlit("http://localhost:8000/");
    let a = short_url_base() + c1;
    let b = short_url_base() + c2;
    assert(a.subrange(0, 22) =~= b.subrange(0, 22));
    assert(a.subrange(22, 22 + c1.len() as int) =~= c1);
    if a == b {
        assert(b.subrange(22, 22 + c2.len() as int) =~= c2);
    }
}

/// For every code, a lookup that finds nothing in the cache asks the
/// database next, and nothing else: it neither answers nor writes.
pub proof fn cache_miss_asks_the_database(
    code: Seq<char>,
    next: RedirectState,
    action: RedirectAction,
)
    requires
        redirect_rule(code, RedirectState::AwaitCache, RedirectEvent::CacheRead(None), next, action),
    ensures
        next == RedirectState::AwaitDatabase,
        action is ReadDatabase,
{
}

/// Whatever the code and step, the answer "404 url not found" comes only
/// from the database having no row for the code, and a database row for
/// the code is always answered with a redirect to its URL.
pub proof fn not_found_only_when_the_database_has_no_row(
    code: Seq<char>,
    state: RedirectState,
    event: RedirectEvent,
    next: RedirectState,
    action: RedirectAction,
)
    requires
        redirect_rule(code, state, event, next, action),
    ensures
        (action matches RedirectAction::Respond(r) && r.status == Status::NotFound) ==> (
        event matches RedirectEvent::DatabaseRead(Ok(None))),
        event matches RedirectEvent::DatabaseRead(Ok(Some(url))) ==> (action matches RedirectAction::StoreAndRespond(_, r)
            && r.status == Status::TemporaryRedirect && (r.body matches Body::Location(l) && l@ == url@)),
        event matches RedirectEvent::CacheRead(Some(url)) ==> (action matches RedirectAction::Respond(r)
            && r.status == Status::TemporaryRedirect && (r.body matches Body::Location(l) && l@ == url@)),
{
}

/// A whole lookup of a code that the cache lacks and the database holds:
/// connected, missed, found. For every code it passes through the
/// database and ends in a redirect to the URL found, caching that URL under
/// the code.
pub proof fn cache_miss_then_database_hit_redirects(
    code: Seq<char>,
    url: String,
    s1: RedirectState,
    a1: RedirectAction,
    s2: RedirectState,
    a2: RedirectAction,
    s3: RedirectState,
    a3: RedirectAction,
)
    requires
        redirect_rule(code, RedirectState::AwaitConnection, RedirectEvent::Connected(true), s1, a1),
        redirect_rule(code, s1, RedirectEvent::CacheRead(None), s2, a2),
        redirect_rule(code, s2, RedirectEvent::DatabaseRead(Ok(Some(url))), s3, a3),
    ensures
        s1 == RedirectState::AwaitCache && a1 is ReadCache,
        s2 == RedirectState::AwaitDatabase && a2 is ReadDatabase,
        s3 == RedirectState::Done,
        a3 matches RedirectAction::StoreAndRespond(w, r) && w.key@ == code && w.value@ == url@
            && r.status == Status::TemporaryRedirect && (r.body matches Body::Location(l) && l@
            == url@),
{
}

/// The lookup behind a short link writes nothing but the cache entry of its
/// own code, and only after the database found the code, with the URL found.
pub proof fn redirect_writes_only_its_code(
    code: Seq<char>,
    state: RedirectState,
    event: RedirectEvent,
    next: RedirectState,
    action: RedirectAction,
)
    requires
        redirect_rule(code, state, event, next, action),
    ensures
        action matches RedirectAction::StoreAndRespond(w, _) ==> (w.key@ == code && (
        event matches RedirectEvent::DatabaseRead(Ok(Some(url))) && w.value@ == url@)),
        action is StoreAndRespond <==> (event matches RedirectEvent::DatabaseRead(Ok(Some(_)))),
{
}

/// Once the database has given the URL of a code, the cache is given that
/// URL under that code; a later lookup of the code that finds the cached
/// value is sent to the same URL as the first.
pub proof fn database_answer_is_cached(
    code: Seq<char>,
    url: String,
    next: RedirectState,
    action: RedirectAction,
    cached: String,
    later_next: RedirectState,
    later_action: RedirectAction,
)
    requires
        redirect_rule(
            code,
            RedirectState::AwaitDatabase,
            RedirectEvent::DatabaseRead(Ok(Some(url))),
            next,
            action,
        ),
        action matches RedirectAction::StoreAndRespond(w, _) ==> cached@ == w.value@,
        redirect_rule(
            code,
            RedirectState::AwaitCache,
            RedirectEvent::CacheRead(Some(cached)),
            later_next,
            later_action,
        ),
    ensures
        action matches RedirectAction::StoreAndRespond(w, first) && w.key@ == code && is_redirect(
            first,
            url@,
        ),
        later_action matches RedirectAction::Respond(second) && is_redirect(second, url@),
{
}

/// A link that was shortened and cached leads back to its URL: the lookup
/// of its code that finds the cached value redirects to the full URL.
pub proof fn shortened_link_leads_back(
    link: ShortLink,
    url: String,
    reply: Reply,
    cache: Option<CacheWrite>,
    cached: String,
    next: RedirectState,
    action: RedirectAction,
)
    requires
        is_short_link_for(link, url),
        shortened_spec(link, Ok(()), reply, cache),
        cache matches Some(w) ==> cached@ == w.value@,
        redirect_rule(
            link.code@,
            RedirectState::AwaitCache,
            RedirectEvent::CacheRead(Some(cached)),
            next,
            action,
        ),
    ensures
        is_message(reply, Status::Success, Field::ShortUrl, short_url_base() + link.code@),
        cache matches Some(w) && w.key@ == link.code@,
        action matches RedirectAction::Respond(r) && is_redirect(r, url@),
{
}

} // verus!
