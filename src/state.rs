//! The authentication state machine, the persisted credentials, and the
//! checks of the login form.
//!
//! Each step is a function from the current state (and, where the step
//! follows a request, the server's answer) to the next state. The caller
//! sends the requests these steps hand out and copies the [`Storage`] to the
//! browser's persistent store.

use vstd::prelude::*;
use vstd::string::*;

use crate::api::{header_view, opt_view, request_headers, url_for, ApiError, HttpRequest, Method};
use crate::api::error_text;
use crate::auth::{password_login_json, AuthApi, LoginRequest, LoginResponse};
use crate::text::{contains, contains_seq, decimal, int_text, lowercase, lowercase_of, trim_end_slashes};

verus! {

/// Where a session stands.
#[derive(Debug, Clone, PartialEq)]
pub enum AuthState {
    /// No credentials are held.
    Unauthenticated,
    /// Credentials are held.
    Authenticated { token: String, user_id: String },
    /// A login request is in flight.
    Loading,
    /// The last login failed, for the reason given.
    Error(String),
}

/// Whether a state holds usable credentials: both fields non-empty.
pub open spec fn holds_credentials(s: AuthState) -> bool {
    s matches AuthState::Authenticated { token, user_id } && token@.len() > 0 && user_id@.len() > 0
}

impl AuthState {
    /// Whether usable credentials are held.
    pub fn is_authenticated(&self) -> (r: bool)
        ensures
            r == holds_credentials(*self),
    {
        match self {
            AuthState::Authenticated { token, user_id } =>
                token.as_str().unicode_len() > 0 && user_id.as_str().unicode_len() > 0,
            _ => false,
        }
    }

    /// The token, in the authenticated state only.
    pub fn token(&self) -> (r: Option<&str>)
        ensures
            r matches Some(t) ==> (self matches AuthState::Authenticated { token, .. } && token@ == t@),
            r is None ==> !(self is Authenticated),
    {
        match self {
            AuthState::Authenticated { token, .. } => Some(token.as_str()),
            _ => None,
        }
    }

    /// The user id, in the authenticated state only.
    pub fn user_id(&self) -> (r: Option<&str>)
        ensures
            r matches Some(u) ==> (self matches AuthState::Authenticated { user_id, .. } && user_id@ == u@),
            r is None ==> !(self is Authenticated),
    {
        match self {
            AuthState::Authenticated { user_id, .. } => Some(user_id.as_str()),
            _ => None,
        }
    }
}

/// The keys of the persistent store.
#[derive(Debug, Clone, Copy, PartialEq, Eq, Structural)]
pub enum StorageKey {
    /// The bearer access token.
    Token,
    /// The fully-qualified id of the logged-in user.
    UserId,
    /// The base URL of the server.
    ServerUrl,
}

impl StorageKey {
    /// The key's name in the browser's store.
    pub fn name(&self) -> (r: &'static str)
        ensures
            r@ == key_name(*self),
    {
        match self {
            StorageKey::Token => "palpo_admin_token",
            StorageKey::UserId => "palpo_admin_user_id",
            StorageKey::ServerUrl => "palpo_admin_server_url",
        }
    }
}

/// The name of a key in the browser's store.
pub open spec fn key_name(k: StorageKey) -> Seq<char> {
    match k {
        StorageKey::Token => "palpo_admin_token"@,
        StorageKey::UserId => "palpo_admin_user_id"@,
        StorageKey::ServerUrl => "palpo_admin_server_url"@,
    }
}

/// The persisted strings, one slot per key. Writes and removals always
/// succeed here; copying the slots to the browser is best effort.
#[derive(Debug, Clone)]
pub struct Storage {
    token: Option<String>,
    user_id: Option<String>,
    server_url: Option<String>,
}

impl View for Storage {
    type V = Map<StorageKey, Seq<char>>;

    closed spec fn view(&self) -> Map<StorageKey, Seq<char>> {
        Map::new(|k: StorageKey| self.slot(k) is Some, |k: StorageKey| self.slot(k).unwrap())
    }
}

impl Storage {
    spec fn slot(&self, k: StorageKey) -> Option<Seq<char>> {
        match k {
            StorageKey::Token => opt_view(self.token),
            StorageKey::UserId => opt_view(self.user_id),
            StorageKey::ServerUrl => opt_view(self.server_url),
        }
    }

    /// A store holding nothing.
    pub fn new() -> (r: Self)
        ensures
            r@ == Map::<StorageKey, Seq<char>>::empty(),
    {
        let r = Storage { token: None, user_id: None, server_url: None };
        assert(r@ =~= Map::<StorageKey, Seq<char>>::empty());
        r
    }

    /// The value stored under `key`.
    pub fn get(&self, key: StorageKey) -> (r: Option<String>)
        ensures
            opt_view(r) == (if self@.contains_key(key) { Some(self@[key]) } else { None }),
    {
        let slot = match key {
            StorageKey::Token => &self.token,
            StorageKey::UserId => &self.user_id,
            StorageKey::ServerUrl => &self.server_url,
        };
        match slot {
            Some(v) => Some(v.clone()),
            None => None,
        }
    }

    /// Stores `value` under `key`.
    pub fn set(&mut self, key: StorageKey, value: String)
        ensures
            final(self)@ == old(self)@.insert(key, value@),
    {
        match key {
            StorageKey::Token => self.token = Some(value),
            StorageKey::UserId => self.user_id = Some(value),
            StorageKey::ServerUrl => self.server_url = Some(value),
        }
        assert(self@ =~= old(self)@.insert(key, value@));
    }

    /// Removes whatever is stored under `key`.
    pub fn delete(&mut self, key: StorageKey)
        ensures
            final(self)@ == old(self)@.remove(key),
    {
        match key {
            StorageKey::Token => self.token = None,
            StorageKey::UserId => self.user_id = None,
            StorageKey::ServerUrl => self.server_url = None,
        }
        assert(self@ =~= old(self)@.remove(key));
    }
}

/// The session of the console: where it stands, and the server it talks to.
#[derive(Debug, Clone)]
pub struct AuthContext {
    pub state: AuthState,
    pub server_url: String,
}

/// The server URL used when the store holds none and the page has no origin.
pub open spec fn fallback_server_url() -> Seq<char> {
    "http://localhost:8008"@
}

/// Whether the store holds a complete pair of credentials.
pub open spec fn stored_credentials(m: Map<StorageKey, Seq<char>>) -> bool {
    &&& m.contains_key(StorageKey::Token)
    &&& m.contains_key(StorageKey::UserId)
    &&& m[StorageKey::Token].len() > 0
    &&& m[StorageKey::UserId].len() > 0
}

/// The server URL a session starts with: the stored one, else the page's
/// origin, else the fallback.
pub open spec fn initial_server_url(m: Map<StorageKey, Seq<char>>, origin: Option<Seq<char>>) -> Seq<char> {
    if m.contains_key(StorageKey::ServerUrl) {
        m[StorageKey::ServerUrl]
    } else {
        match origin {
            Some(o) => o,
            None => fallback_server_url(),
        }
    }
}

/// The message shown when the server refuses a login with 401, given the
/// server's message and its lowercase form: a message that mentions
/// `invalid` means wrong credentials.
pub open spec fn unauthorized_text(lowered: Seq<char>, msg: Seq<char>) -> Seq<char> {
    if contains_seq(lowered, "invalid"@) {
        "用户名或密码错误"@
    } else {
        "认证失败: "@ + msg
    }
}

/// Chooses the message for a 401 login answer from the server's message
/// and its lowercase form.
pub fn unauthorized_message(lowered: &str, msg: &str) -> (r: String)
    ensures
        r@ == unauthorized_text(lowered@, msg@),
{
    if contains(lowered, "invalid") {
        String::from_str("用户名或密码错误")
    } else {
        String::from_str("认证失败: ").concat(msg)
    }
}

/// The message shown for a failed login.
pub open spec fn login_error_text(e: ApiError) -> Seq<char> {
    match e {
        ApiError::Status(401, msg) => unauthorized_text(lowercase_of(msg@), msg@),
        ApiError::Status(code, msg) => "服务器错误 ("@ + int_text(code as int) + "): "@ + msg@,
        _ => "登录失败: "@ + error_text(e),
    }
}

/// Logging out: the state becomes `Unauthenticated`, the token and user id
/// leave the store, and everything else stays.
pub open spec fn logged_out(
    before: AuthContext,
    after: AuthContext,
    before_store: Map<StorageKey, Seq<char>>,
    after_store: Map<StorageKey, Seq<char>>,
) -> bool {
    &&& after.state is Unauthenticated
    &&& after.server_url == before.server_url
    &&& after_store == before_store.remove(StorageKey::Token).remove(StorageKey::UserId)
}

/// Whether `r` is the login request for `user` against `server_url`.
pub open spec fn is_login_request(r: HttpRequest, server_url: Seq<char>, user: Seq<char>, password: Seq<char>) -> bool {
    &&& r.method == Method::Post
    &&& r.url@ == url_for(trim_end_slashes(server_url), "/_matrix/client/v3/login"@)
    &&& header_view(r.headers@) == request_headers(None, true)
    &&& opt_view(r.body) == Some(password_login_json(user, password))
}

/// The message that stops a login form from being sent, if any.
pub open spec fn form_error(server_url: Seq<char>, username: Seq<char>, password: Seq<char>) -> Option<Seq<char>> {
    if username.len() == 0 || password.len() == 0 {
        Some("请输入用户名和密码"@)
    } else if server_url.len() == 0 {
        Some("请输入服务器地址"@)
    } else {
        None
    }
}

/// Checks a login form before it is sent: user name and password must be
/// given, then the server URL.
pub fn check_login_form(server_url: &str, username: &str, password: &str) -> (r: Result<(), String>)
    ensures
        form_error(server_url@, username@, password@) matches Some(m) ==> (r matches Err(e) && e@ == m),
        form_error(server_url@, username@, password@) is None ==> r is Ok,
{
    if username.unicode_len() == 0 || password.unicode_len() == 0 {
        Err(String::from_str("请输入用户名和密码"))
    } else if server_url.unicode_len() == 0 {
        Err(String::from_str("请输入服务器地址"))
    } else {
        Ok(())
    }
}

impl AuthContext {
    /// The session that a page starts with, read from the store; `origin`
    /// is the page's own origin, if it has one.
    pub fn new(store: &Storage, origin: Option<String>) -> (r: Self)
        ensures
            r.server_url@ == initial_server_url(store@, opt_view(origin)),
            stored_credentials(store@) ==> (r.state matches AuthState::Authenticated { token, user_id }
                && token@ == store@[StorageKey::Token] && user_id@ == store@[StorageKey::UserId]),
            !stored_credentials(store@) ==> r.state is Unauthenticated,
    {
        let (state, server_url) = Self::load_from_storage(store, origin);
        AuthContext { state, server_url }
    }

    fn load_from_storage(store: &Storage, origin: Option<String>) -> (r: (AuthState, String))
        ensures
            r.1@ == initial_server_url(store@, opt_view(origin)),
            stored_credentials(store@) ==> (r.0 matches AuthState::Authenticated { token, user_id }
                && token@ == store@[StorageKey::Token] && user_id@ == store@[StorageKey::UserId]),
            !stored_credentials(store@) ==> r.0 is Unauthenticated,
    {
        let server_url = match store.get(StorageKey::ServerUrl) {
            Some(url) => url,
            None => match origin {
                Some(o) => o,
                None => String::from_str("http://localhost:8008"),
            },
        };
        let token = store.get(StorageKey::Token);
        let user_id = store.get(StorageKey::UserId);
        match (token, user_id) {
            (Some(token), Some(user_id)) => {
                if token.as_str().unicode_len() > 0 && user_id.as_str().unicode_len() > 0 {
                    (AuthState::Authenticated { token, user_id }, server_url)
                } else {
                    (AuthState::Unauthenticated, server_url)
                }
            },
            _ => (AuthState::Unauthenticated, server_url),
        }
    }

    /// Starts a login: the state becomes `Loading`, and the login request
    /// for the current server is handed out to be sent.
    pub fn begin_login(&mut self, username: String, password: String) -> (r: HttpRequest)
        ensures
            final(self).state is Loading,
            final(self).server_url == old(self).server_url,
            is_login_request(r, old(self).server_url@, username@, password@),
    {
        let api = AuthApi::new(self.server_url.clone());
        let request = LoginRequest::password(username, password);
        let r = api.login(&request);
        self.state = AuthState::Loading;
        r
    }

    /// Completes a login with the server's answer. On success the
    /// credentials and the server URL are stored and the state becomes
    /// `Authenticated`; on failure the state records the message, which is
    /// also returned, and the store is left alone.
    pub fn login(&mut self, store: &mut Storage, outcome: Result<LoginResponse, ApiError>) -> (r: Result<(), String>)
        ensures
            final(self).server_url == old(self).server_url,
            outcome matches Ok(resp) ==> {
                &&& r is Ok
                &&& final(store)@ == old(store)@.insert(StorageKey::Token, resp.access_token@)
                        .insert(StorageKey::UserId, resp.user_id@)
                        .insert(StorageKey::ServerUrl, old(self).server_url@)
                &&& final(self).state matches AuthState::Authenticated { token, user_id }
                &&& final(self).state->token@ == resp.access_token@
                &&& final(self).state->user_id@ == resp.user_id@
            },
            outcome matches Err(e) ==> {
                &&& r matches Err(m)
                &&& r->Err_0@ == login_error_text(e)
                &&& final(self).state matches AuthState::Error(m)
                &&& final(self).state->Error_0@ == login_error_text(e)
                &&& final(store)@ == old(store)@
            },
    {
        match outcome {
            Ok(response) => {
                store.set(StorageKey::Token, response.access_token.clone());
                store.set(StorageKey::UserId, response.user_id.clone());
                store.set(StorageKey::ServerUrl, self.server_url.clone());
                self.state = AuthState::Authenticated { token: response.access_token, user_id: response.user_id };
                Ok(())
            },
            Err(e) => {
                let message = Self::login_error(&e);
                self.state = AuthState::Error(message.clone());
                Err(message)
            },
        }
    }

    /// The message shown for a failed login.
    pub fn login_error(e: &ApiError) -> (r: String)
        ensures
            r@ == login_error_text(*e),
    {
        match e {
            ApiError::Status(code, msg) => {
                if *code == 401 {
                    let lower = lowercase(msg.as_str());
                    unauthorized_message(lower.as_str(), msg.as_str())
                } else {
                    let mut m = String::from_str("服务器错误 (");
                    m.append(decimal(*code as i64).as_str());
                    m.append("): ");
                    m.append(msg.as_str());
                    m
                }
            },
            _ => String::from_str("登录失败: ").concat(e.to_string().as_str()),
        }
    }

    /// Logs out: the token and user id leave the store, the server URL
    /// stays, and the state becomes `Unauthenticated`.
    pub fn logout(&mut self, store: &mut Storage)
        ensures
            logged_out(*old(self), *final(self), old(store)@, final(store)@),
            !final(store)@.contains_key(StorageKey::Token),
            !final(store)@.contains_key(StorageKey::UserId),
            final(store)@.contains_key(StorageKey::ServerUrl) == old(store)@.contains_key(StorageKey::ServerUrl),
            final(store)@[StorageKey::ServerUrl] == old(store)@[StorageKey::ServerUrl],
    {
        store.delete(StorageKey::Token);
        store.delete(StorageKey::UserId);
        self.state = AuthState::Unauthenticated;
    }

    /// The request that checks the held token, when a token is held.
    pub fn token_check(&self) -> (r: Option<HttpRequest>)
        ensures
            r is Some <==> self.state is Authenticated,
            r matches Some(q) ==> {
                &&& q.method == Method::Get
                &&& q.url@ == url_for(trim_end_slashes(self.server_url@), "/_synapse/admin/v1/server_version"@)
                &&& header_view(q.headers@) == request_headers(Some(self.state->token@), false)
                &&& q.body is None
            },
    {
        match self.state.token() {
            Some(token) => {
                let api = AuthApi::new(self.server_url.clone());
                Some(api.validate_token(token))
            },
            None => None,
        }
    }

    /// Acts on the answer to the token check: a valid token keeps the
    /// session; an invalid token, or a check that failed, logs out. Without
    /// a held token nothing changes and the answer is `false`.
    pub fn validate_current_token(&mut self, store: &mut Storage, outcome: Result<bool, ApiError>) -> (r: bool)
        ensures
            !(old(self).state is Authenticated) ==> (!r && *final(self) == *old(self) && final(store)@ == old(store)@),
            old(self).state is Authenticated ==> (r <==> outcome == Ok::<bool, ApiError>(true)),
            r ==> (*final(self) == *old(self) && final(store)@ == old(store)@),
            old(self).state is Authenticated && !r ==> logged_out(*old(self), *final(self), old(store)@, final(store)@),
    {
        if self.state.token().is_none() {
            return false;
        }
        match outcome {
            Ok(true) => true,
            _ => {
                self.logout(store);
                false
            },
        }
    }

    /// Sends a login form: checks it, stores the server URL and makes it
    /// current, then starts the login. A form that fails the check changes
    /// nothing.
    pub fn submit_login(
        &mut self,
        store: &mut Storage,
        server_url: String,
        username: String,
        password: String,
    ) -> (r: Result<HttpRequest, String>)
        ensures
            form_error(server_url@, username@, password@) matches Some(m) ==> {
                &&& r matches Err(e)
                &&& r->Err_0@ == m
                &&& *final(self) == *old(self)
                &&& final(store)@ == old(store)@
            },
            form_error(server_url@, username@, password@) is None ==> {
                &&& r matches Ok(q)
                &&& is_login_request(r->Ok_0, server_url@, username@, password@)
                &&& final(store)@ == old(store)@.insert(StorageKey::ServerUrl, server_url@)
                &&& final(self).server_url@ == server_url@
                &&& final(self).state is Loading
            },
    {
        match check_login_form(server_url.as_str(), username.as_str(), password.as_str()) {
            Err(e) => Err(e),
            Ok(()) => {
                store.set(StorageKey::ServerUrl, server_url.clone());
                self.server_url = server_url;
                Ok(self.begin_login(username, password))
            },
        }
    }
}

/// Logging out twice ends where logging out once does.
pub proof fn lemma_logout_idempotent(
    c0: AuthContext,
    c1: AuthContext,
    c2: AuthContext,
    m0: Map<StorageKey, Seq<char>>,
    m1: Map<StorageKey, Seq<char>>,
    m2: Map<StorageKey, Seq<char>>,
)
    requires
        logged_out(c0, c1, m0, m1),
        logged_out(c1, c2, m1, m2),
    ensures
        c2 == c1,
        m2 == m1,
{
    assert(m2 =~= m1);
}

} // verus!
