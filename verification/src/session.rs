//! One session with the portal: the two tokens that the login page
//! carries, the requests of the session, and its states.

use vstd::prelude::*;
use vstd::string::*;
use crate::error::{AspenError, ProjError};
use crate::pattern::{capture_first, first_capture, text_of};
use crate::text::{chars_of, contains, occurs_at, occurs_in};

verus! {

/// The address of the login page, and of the login itself.
pub const LOGIN_URL: &'static str = "https://aspen.cpsd.us/aspen/logon.do";

/// The address of the class list.
pub const CLASSES_URL: &'static str =
    "https://aspen.cpsd.us/aspen/portalClassList.do?navkey=academics.classes.list";

/// The address that ends a session.
pub const LOGOUT_URL: &'static str = "https://aspen.cpsd.us/aspen/logout.do";

/// How the login page writes the session identifier: a single-quoted
/// assignment. The value ends at the first quote and stays on one line.
pub const SESSION_PATTERN: &'static str = "sessionId='([^'\\n]+)';";

/// What stands before the session identifier in the login page.
pub const SESSION_OPEN: &'static str = "sessionId='";

/// What stands after the session identifier in the login page.
pub const SESSION_CLOSE: &'static str = "';";

/// How the login page writes the anti-forgery token: the value of a named
/// form field. The value ends at the first double quote and stays on one
/// line.
pub const TOKEN_PATTERN: &'static str =
    "name=\"org\\.apache\\.struts\\.taglib\\.html\\.TOKEN\" value=\"([^\"\\n]+)\"";

/// What stands before the anti-forgery token in the login page.
pub const TOKEN_OPEN: &'static str = "name=\"org.apache.struts.taglib.html.TOKEN\" value=\"";

/// What stands after the anti-forgery token in the login page.
pub const TOKEN_CLOSE: &'static str = "\"";

/// The form field that carries the anti-forgery token back.
pub const TOKEN_FIELD: &'static str = "org.apache.struts.taglib.html.TOKEN";

/// What the portal writes into the page when it turns a login down.
pub const INVALID_LOGIN_MARKER: &'static str = "Invalid login.";

/// How the client names itself to the portal.
pub const USER_AGENT: &'static str =
    "Mozilla/5.0 (Macintosh; Intel Mac OS X 10_15_7) AppleWebKit/537.36 (KHTML, like Gecko) Chrome/96.0.4664.45 Safari/537.36";

/// The two tokens of one visit, captured together from one login page.
#[derive(Clone, Debug, PartialEq, Eq)]
pub struct AspenInfo {
    pub session_id: String,
    pub apache_token: String,
}

impl AspenInfo {
    pub fn new(session_id: String, apache_token: String) -> (info: AspenInfo)
        ensures
            info.session_id == session_id,
            info.apache_token == apache_token,
    {
        AspenInfo { session_id, apache_token }
    }
}

/// The token pair that two searches of one page amount to: both values, or
/// neither.
pub open spec fn paired(session: Option<Seq<char>>, token: Option<Seq<char>>) -> Option<
    (Seq<char>, Seq<char>),
> {
    match (session, token) {
        (Some(s), Some(t)) => Some((s, t)),
        _ => None,
    }
}

/// Pairs what the two searches of the login page found. A page that lacks
/// either value yields no pair at all.
pub fn pair_tokens(session: Option<String>, token: Option<String>) -> (r: Result<
    AspenInfo,
    AspenError,
>)
    ensures
        match paired(text_of(session), text_of(token)) {
            Some((s, t)) => r matches Ok(info) && info.session_id@ == s && info.apache_token@ == t,
            None => r == Err::<AspenInfo, AspenError>(AspenError::SessionNotFound),
        },
{
    match (session, token) {
        (Some(s), Some(t)) => Ok(AspenInfo::new(s, t)),
        _ => Err(AspenError::SessionNotFound),
    }
}

/// No character of `s` is `c`.
pub open spec fn free_of(s: Seq<char>, c: char) -> bool {
    forall|i: int| 0 <= i < s.len() ==> s[i] != c
}

/// `value` stands in `page` between `open` and `close`, is not empty, and
/// holds neither the quote that ends it nor a line break: it is the whole
/// embedded value and nothing of what follows it.
pub open spec fn embedded(
    page: Seq<char>,
    open: Seq<char>,
    value: Seq<char>,
    close: Seq<char>,
    quote: char,
) -> bool {
    &&& value.len() > 0
    &&& free_of(value, quote)
    &&& free_of(value, '\n')
    &&& occurs_in(page, open + value + close)
}

/// `id` is a session identifier that `page` holds.
pub open spec fn session_id_in(page: Seq<char>, id: Seq<char>) -> bool {
    embedded(page, SESSION_OPEN@, id, SESSION_CLOSE@, '\'')
}

/// `token` is an anti-forgery token that `page` holds.
pub open spec fn token_in(page: Seq<char>, token: Seq<char>) -> bool {
    embedded(page, TOKEN_OPEN@, token, TOKEN_CLOSE@, '"')
}

/// The token pair that two searches of `page` amount to: both values, each
/// one embedded in the page as it should be, or neither.
pub open spec fn accepted(
    page: Seq<char>,
    session: Option<Seq<char>>,
    token: Option<Seq<char>>,
) -> Option<(Seq<char>, Seq<char>)> {
    match paired(session, token) {
        Some((s, t)) => if session_id_in(page, s) && token_in(page, t) {
            Some((s, t))
        } else {
            None
        },
        None => None,
    }
}

/// The token pair that the login page `page` gives.
pub open spec fn tokens_in(page: Seq<char>) -> Option<(Seq<char>, Seq<char>)> {
    accepted(
        page,
        first_capture(SESSION_PATTERN@, page, 1),
        first_capture(TOKEN_PATTERN@, page, 1),
    )
}

/// Where `open + value + close` stands in `page` at `at`, each of the
/// three parts stands there character by character.
pub proof fn lemma_framed_at(
    page: Seq<char>,
    open: Seq<char>,
    value: Seq<char>,
    close: Seq<char>,
    at: int,
)
    requires
        occurs_at(page, open + value + close, at),
    ensures
        occurs_at(page, open, at),
        forall|k: int| 0 <= k < value.len() ==> page[at + open.len() + k] == value[k],
        forall|k: int| 0 <= k < close.len() ==> page[at + open.len() + value.len() + k] == close[k],
{
    let framed = open + value + close;
    let part = page.subrange(at, at + framed.len());
    assert forall|k: int| 0 <= k < framed.len() implies page[at + k] == framed[k] by {
        assert(part[k] == page[at + k]);
    }
    assert forall|k: int| 0 <= k < open.len() implies page[at + k] == open[k] by {
        assert(framed[k] == open[k]);
    }
    assert(page.subrange(at, at + open.len()) =~= open);
    assert forall|k: int| 0 <= k < value.len() implies page[at + open.len() + k] == value[k] by {
        assert(framed[open.len() + k] == value[k]);
    }
    assert forall|k: int| 0 <= k < close.len() implies page[at + open.len() + value.len() + k]
        == close[k] by {
        assert(framed[open.len() + value.len() + k] == close[k]);
    }
}

/// A page whose opening text stands at one place only embeds one value:
/// whatever else the page holds, before or after, any two values that are
/// embedded in it are the same. The value found is therefore the one that
/// the page holds, whole and alone.
pub proof fn lemma_embedded_value_is_unique(
    page: Seq<char>,
    open: Seq<char>,
    first: Seq<char>,
    second: Seq<char>,
    close: Seq<char>,
    quote: char,
)
    requires
        embedded(page, open, first, close, quote),
        embedded(page, open, second, close, quote),
        close.len() > 0,
        close[0] == quote,
        forall|i: int, j: int| occurs_at(page, open, i) && occurs_at(page, open, j) ==> i == j,
    ensures
        first == second,
{
    let i = choose|i: int| occurs_at(page, open + first + close, i);
    let j = choose|j: int| occurs_at(page, open + second + close, j);
    lemma_framed_at(page, open, first, close, i);
    lemma_framed_at(page, open, second, close, j);
    assert(i == j);
    let start = i + open.len();
    if first.len() < second.len() {
        assert(page[start + first.len() + 0] == close[0]);
        assert(second[first.len() as int] == quote);
    } else if second.len() < first.len() {
        assert(page[start + second.len() + 0] == close[0]);
        assert(first[second.len() as int] == quote);
    }
    assert(first =~= second);
}

/// Whether `value` stands in `page` between `open` and `close` and holds
/// neither `quote` nor a line break.
pub fn is_embedded(page: &str, open: &str, value: &str, close: &str, quote: char) -> (b: bool)
    ensures
        b == embedded(page@, open@, value@, close@, quote),
{
    let v = chars_of(value);
    if v.len() == 0 {
        return false;
    }
    let mut i: usize = 0;
    while i < v.len()
        invariant
            i <= v.len(),
            v@ == value@,
            forall|j: int| 0 <= j < i ==> v@[j] != quote && v@[j] != '\n',
        decreases v.len() - i,
    {
        if v[i] == quote || v[i] == '\n' {
            return false;
        }
        i += 1;
    }
    let mut framed = String::from_str(open);
    framed.append(value);
    framed.append(close);
    contains(page, framed.as_str())
}

/// Takes what the two searches of the login page found and keeps the pair
/// only if each value is embedded in the page as it should be.
pub fn tokens_from(html: &str, session: Option<String>, token: Option<String>) -> (r: Result<
    AspenInfo,
    AspenError,
>)
    ensures
        match accepted(html@, text_of(session), text_of(token)) {
            Some((s, t)) => r matches Ok(info) && info.session_id@ == s && info.apache_token@ == t,
            None => r == Err::<AspenInfo, AspenError>(AspenError::SessionNotFound),
        },
{
    match pair_tokens(session, token) {
        Ok(info) => {
            if is_embedded(html, SESSION_OPEN, info.session_id.as_str(), SESSION_CLOSE, '\'')
                && is_embedded(html, TOKEN_OPEN, info.apache_token.as_str(), TOKEN_CLOSE, '"') {
                Ok(info)
            } else {
                Err(AspenError::SessionNotFound)
            }
        },
        Err(e) => Err(e),
    }
}

/// Finds the session identifier and the anti-forgery token in the login
/// page. Each is searched for on its own. A value comes back exactly as
/// the page holds it between its opening text and its closing quote,
/// whatever else the page holds before or after, on the same line or on
/// others.
pub fn get_session(html: &str) -> (r: Result<AspenInfo, AspenError>)
    ensures
        match tokens_in(html@) {
            Some((s, t)) => r matches Ok(info) && info.session_id@ == s && info.apache_token@ == t,
            None => r == Err::<AspenInfo, AspenError>(AspenError::SessionNotFound),
        },
        r matches Ok(info) ==> session_id_in(html@, info.session_id@) && token_in(
            html@,
            info.apache_token@,
        ),
{
    let session = capture_first(SESSION_PATTERN, html, 1);
    let token = capture_first(TOKEN_PATTERN, html, 1);
    tokens_from(html, session, token)
}

/// The two kinds of request that a session makes.
#[derive(Clone, Copy, Debug, PartialEq, Eq, Structural)]
pub enum Method {
    Get,
    Post,
}

/// One request, described in full. Whoever holds the connection sends it.
#[derive(Clone, Debug, PartialEq, Eq)]
pub struct Request {
    pub method: Method,
    pub url: String,
    /// Header names and values, in the order in which they are set.
    pub headers: Vec<(String, String)>,
    /// Query parameters, in the order in which they are appended.
    pub query: Vec<(String, String)>,
}

/// What a request says, as plain text.
pub struct RequestView {
    pub method: Method,
    pub url: Seq<char>,
    pub headers: Seq<(Seq<char>, Seq<char>)>,
    pub query: Seq<(Seq<char>, Seq<char>)>,
}

/// A list of name-value pairs, as characters.
pub open spec fn pairs_of(pairs: Seq<(String, String)>) -> Seq<(Seq<char>, Seq<char>)> {
    Seq::new(pairs.len(), |i: int| (pairs[i].0@, pairs[i].1@))
}

impl View for Request {
    type V = RequestView;

    open spec fn view(&self) -> RequestView {
        RequestView {
            method: self.method,
            url: self.url@,
            headers: pairs_of(self.headers@),
            query: pairs_of(self.query@),
        }
    }
}

/// The cookie that names the session to the login and logout addresses.
pub open spec fn routed_cookie(session_id: Seq<char>) -> Seq<char> {
    "JSESSIONID="@ + session_id + ".aspen-app2"@
}

/// The cookie that names the session to the class list.
pub open spec fn plain_cookie(session_id: Seq<char>) -> Seq<char> {
    "JSESSIONID="@ + session_id
}

/// The anonymous request for the login page.
pub open spec fn login_page_request() -> RequestView {
    RequestView { method: Method::Get, url: LOGIN_URL@, headers: seq![], query: seq![] }
}

/// The login: the session cookie, the client's name, the anti-forgery
/// token, the two fixed parameters and the credentials.
pub open spec fn login_request_for(
    session_id: Seq<char>,
    apache_token: Seq<char>,
    username: Seq<char>,
    password: Seq<char>,
) -> RequestView {
    RequestView {
        method: Method::Post,
        url: LOGIN_URL@,
        headers: seq![("cookie"@, routed_cookie(session_id)), ("user-agent"@, USER_AGENT@)],
        query: seq![
            (TOKEN_FIELD@, apache_token),
            ("userEvent"@, "930"@),
            ("deploymentId"@, "x2sis"@),
            ("username"@, username),
            ("password"@, password),
        ],
    }
}

/// The request for the class list.
pub open spec fn classes_request_for(session_id: Seq<char>) -> RequestView {
    RequestView {
        method: Method::Get,
        url: CLASSES_URL@,
        headers: seq![("cookie"@, plain_cookie(session_id))],
        query: seq![],
    }
}

/// The request that ends the session.
pub open spec fn logout_request_for(session_id: Seq<char>) -> RequestView {
    RequestView {
        method: Method::Post,
        url: LOGOUT_URL@,
        headers: seq![("cookie"@, routed_cookie(session_id))],
        query: seq![],
    }
}

fn pair(name: &str, value: &str) -> (p: (String, String))
    ensures
        p.0@ == name@,
        p.1@ == value@,
{
    (String::from_str(name), String::from_str(value))
}

fn cookie(session_id: &str, routed: bool) -> (c: String)
    ensures
        c@ == if routed {
            routed_cookie(session_id@)
        } else {
            plain_cookie(session_id@)
        },
{
    let mut c = String::from_str("JSESSIONID=");
    c.append(session_id);
    if routed {
        c.append(".aspen-app2");
    }
    c
}

/// Describes the anonymous request for the login page.
pub fn get_login_page() -> (r: Request)
    ensures
        r@ == login_page_request(),
{
    let r = Request {
        method: Method::Get,
        url: String::from_str(LOGIN_URL),
        headers: Vec::new(),
        query: Vec::new(),
    };
    assert(r@.headers =~= seq![]);
    assert(r@.query =~= seq![]);
    r
}

/// Whether the portal turned the login down: its answer then holds the
/// marker text, wherever in the page.
pub fn login_rejected(body: &str) -> (b: bool)
    ensures
        b == occurs_in(body@, INVALID_LOGIN_MARKER@),
{
    contains(body, INVALID_LOGIN_MARKER)
}

/// The user name and the password, as far as they were supplied.
#[derive(Debug)]
pub struct Credentials {
    pub username: Option<String>,
    pub password: Option<String>,
}

/// Where a session stands.
#[derive(Clone, Copy, Debug, PartialEq, Eq, Structural)]
pub enum SessionState {
    /// The tokens are known; nobody is logged in.
    Anonymous,
    /// The portal took the credentials.
    Authenticated,
    /// Logged out, or turned down: nothing more can be asked.
    Closed,
}

/// A session with the portal, from the login page to the logout.
#[derive(Debug)]
pub struct AspenSession {
    session_id: String,
    apache_token: String,
    state: SessionState,
}

impl AspenSession {
    /// Where the session stands.
    pub closed spec fn phase(&self) -> SessionState {
        self.state
    }

    /// The session identifier, as the login page gave it.
    pub closed spec fn id(&self) -> Seq<char> {
        self.session_id@
    }

    /// The anti-forgery token, as the login page gave it.
    pub closed spec fn token(&self) -> Seq<char> {
        self.apache_token@
    }

    /// The session identifier.
    pub fn session_id(&self) -> (r: &str)
        ensures
            r@ == self.id(),
    {
        self.session_id.as_str()
    }

    /// The anti-forgery token.
    pub fn apache_token(&self) -> (r: &str)
        ensures
            r@ == self.token(),
    {
        self.apache_token.as_str()
    }

    /// Where the session stands.
    pub fn state(&self) -> (s: SessionState)
        ensures
            s == self.phase(),
    {
        self.state
    }

    /// Opens a session from the login page that an anonymous request
    /// brought. The page must hold both tokens.
    pub fn new(html: &str) -> (r: Result<AspenSession, ProjError>)
        ensures
            match tokens_in(html@) {
                Some((s, t)) => r matches Ok(session) && session.id() == s
                    && session.token() == t && session.phase() == SessionState::Anonymous,
                None => r == Err::<AspenSession, ProjError>(
                    ProjError::Aspen(AspenError::SessionNotFound),
                ),
            },
            r matches Ok(session) ==> session_id_in(html@, session.id()) && token_in(
                html@,
                session.token(),
            ),
    {
        match get_session(html) {
            Ok(info) => Ok(
                AspenSession {
                    session_id: info.session_id,
                    apache_token: info.apache_token,
                    state: SessionState::Anonymous,
                },
            ),
            Err(e) => Err(ProjError::Aspen(e)),
        }
    }

    /// Describes the login with the given credentials. Where the user name
    /// or the password is missing there is nothing to send.
    pub fn login_request(&self, credentials: &Credentials) -> (r: Result<Request, ProjError>)
        requires
            self.phase() == SessionState::Anonymous,
        ensures
            match (credentials.username, credentials.password) {
                (Some(u), Some(p)) => r matches Ok(request) && request@ == login_request_for(
                    self.id(),
                    self.token(),
                    u@,
                    p@,
                ),
                _ => r == Err::<Request, ProjError>(
                    ProjError::Aspen(AspenError::MissingCredential),
                ),
            },
    {
        let username = match &credentials.username {
            Some(u) => u.as_str(),
            None => {
                return Err(ProjError::Aspen(AspenError::MissingCredential));
            },
        };
        let password = match &credentials.password {
            Some(p) => p.as_str(),
            None => {
                return Err(ProjError::Aspen(AspenError::MissingCredential));
            },
        };
        let mut headers: Vec<(String, String)> = Vec::new();
        headers.push((String::from_str("cookie"), cookie(self.session_id.as_str(), true)));
        headers.push(pair("user-agent", USER_AGENT));
        let mut query: Vec<(String, String)> = Vec::new();
        query.push(pair(TOKEN_FIELD, self.apache_token.as_str()));
        query.push(pair("userEvent", "930"));
        query.push(pair("deploymentId", "x2sis"));
        query.push(pair("username", username));
        query.push(pair("password", password));
        let r = Request { method: Method::Post, url: String::from_str(LOGIN_URL), headers, query };
        let ghost want = login_request_for(self.id(), self.token(), username@, password@);
        assert(r@.headers =~= want.headers);
        assert(r@.query =~= want.query);
        Ok(r)
    }

    /// Takes the portal's answer to the login. An answer that holds the
    /// marker text ends the session for good; any other opens it.
    pub fn login(&mut self, body: &str) -> (r: Result<(), ProjError>)
        requires
            old(self).phase() == SessionState::Anonymous,
        ensures
            final(self).id() == old(self).id(),
            final(self).token() == old(self).token(),
            occurs_in(body@, INVALID_LOGIN_MARKER@) ==> r == Err::<(), ProjError>(
                ProjError::Aspen(AspenError::InvalidLogin),
            ) && final(self).phase() == SessionState::Closed,
            !occurs_in(body@, INVALID_LOGIN_MARKER@) ==> r == Ok::<(), ProjError>(())
                && final(self).phase() == SessionState::Authenticated,
    {
        if login_rejected(body) {
            self.state = SessionState::Closed;
            Err(ProjError::Aspen(AspenError::InvalidLogin))
        } else {
            self.state = SessionState::Authenticated;
            Ok(())
        }
    }

    /// Describes the request for the class list. Its answer is the page,
    /// to be handed on as it came.
    pub fn get_aspen(&self) -> (r: Request)
        requires
            self.phase() == SessionState::Authenticated,
        ensures
            r@ == classes_request_for(self.id()),
    {
        let mut headers: Vec<(String, String)> = Vec::new();
        headers.push((String::from_str("cookie"), cookie(self.session_id.as_str(), false)));
        let r = Request {
            method: Method::Get,
            url: String::from_str(CLASSES_URL),
            headers,
            query: Vec::new(),
        };
        assert(r@.headers =~= classes_request_for(self.id()).headers);
        assert(r@.query =~= classes_request_for(self.id()).query);
        r
    }

    /// Ends the session and describes the request that tells the portal
    /// so. The session is used up. A session that was turned down, or
    /// whose login never got an answer, is released in the same way.
    pub fn logout(self) -> (r: Request)
        ensures
            r@ == logout_request_for(self.id()),
    {
        let mut headers: Vec<(String, String)> = Vec::new();
        headers.push((String::from_str("cookie"), cookie(self.session_id.as_str(), true)));
        let r = Request {
            method: Method::Post,
            url: String::from_str(LOGOUT_URL),
            headers,
            query: Vec::new(),
        };
        assert(r@.headers =~= logout_request_for(self.id()).headers);
        assert(r@.query =~= logout_request_for(self.id()).query);
        r
    }
}

} // verus!
