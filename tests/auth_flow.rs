use palpo_admin::{
    check_login_form, ApiClient, ApiError, AuthApi, AuthContext, AuthState, LoginRequest, LoginResponse, Storage,
    StorageKey,
};

fn response_from(body: &str) -> LoginResponse {
    let value: serde_json::Value = serde_json::from_str(body).unwrap();
    LoginResponse {
        user_id: value["user_id"].as_str().unwrap().to_string(),
        access_token: value["access_token"].as_str().unwrap().to_string(),
        device_id: None,
        well_known: None,
    }
}

fn answer(status: u16, body: &str) -> Result<String, ApiError> {
    ApiClient::new("http://h".to_string()).handle_response(status, body.to_string())
}

fn fresh() -> (AuthContext, Storage) {
    let store = Storage::new();
    (AuthContext::new(&store, None), store)
}

#[test]
fn test_login_request_creation() {
    let req = LoginRequest::password("@user:server.com".to_string(), "password123".to_string());
    assert_eq!(req.login_type, "m.login.password");
    assert_eq!(req.identifier.user, "@user:server.com");
    assert_eq!(req.password, "password123");
}

#[test]
fn login_request_round_trips_through_json() {
    let req = LoginRequest::password("@u:h \"q\"".to_string(), "p\\w\n".to_string());
    let text = req.to_json();
    let value: serde_json::Value = serde_json::from_str(&text).unwrap();
    assert_eq!(value["type"], "m.login.password");
    assert_eq!(value["identifier"]["type"], "m.id.user");
    assert_eq!(value["identifier"]["user"], "@u:h \"q\"");
    assert_eq!(value["password"], "p\\w\n");
    assert!(value.get("device_id").is_none());
    assert!(text.contains("\\\"q\\\""));
}

#[test]
fn device_id_is_written_when_present() {
    let mut req = LoginRequest::password("u".to_string(), "p".to_string());
    req.device_id = Some("DEV".to_string());
    assert_eq!(
        req.to_json(),
        "{\"type\":\"m.login.password\",\"identifier\":{\"type\":\"m.id.user\",\"user\":\"u\"},\"password\":\"p\",\"device_id\":\"DEV\"}"
    );
}

#[test]
fn auth_api_login_posts_to_login_endpoint() {
    let api = AuthApi::new("https://h.example/".to_string());
    let req = api.login(&LoginRequest::password("a".to_string(), "b".to_string()));
    assert_eq!(req.method.as_str(), "POST");
    assert_eq!(req.url, "https://h.example/_matrix/client/v3/login");
    assert!(req.headers.iter().all(|h| h.0 != "Authorization"));
}

#[test]
fn validate_token_request_carries_token() {
    let api = AuthApi::new("https://h".to_string());
    let req = api.validate_token("TOK");
    assert_eq!(req.url, "https://h/_synapse/admin/v1/server_version");
    assert_eq!(req.headers, vec![("Authorization".to_string(), "Bearer TOK".to_string())]);
}

#[test]
fn token_validity_maps_401_to_false() {
    assert!(matches!(AuthApi::token_validity(Ok(())), Ok(true)));
    assert!(matches!(AuthApi::token_validity(Err(ApiError::Status(401, "x".to_string()))), Ok(false)));
    assert!(matches!(
        AuthApi::token_validity(Err(ApiError::Status(403, "x".to_string()))),
        Err(ApiError::Status(403, _))
    ));
    assert!(matches!(AuthApi::token_validity(Err(ApiError::Network("n".to_string()))), Err(ApiError::Network(_))));
}

#[test]
fn successful_login_persists_credentials() {
    let (mut ctx, mut store) = fresh();
    let req = ctx.begin_login("@admin:h.example".to_string(), "pw".to_string());
    assert_eq!(ctx.state, AuthState::Loading);
    assert_eq!(req.url, "http://localhost:8008/_matrix/client/v3/login");
    let body = answer(200, "{\"user_id\":\"@admin:h.example\",\"access_token\":\"T1\"}").unwrap();
    let result = ctx.login(&mut store, Ok(response_from(&body)));
    assert_eq!(result, Ok(()));
    assert_eq!(
        ctx.state,
        AuthState::Authenticated { token: "T1".to_string(), user_id: "@admin:h.example".to_string() }
    );
    assert_eq!(store.get(StorageKey::Token).as_deref(), Some("T1"));
    assert_eq!(store.get(StorageKey::UserId).as_deref(), Some("@admin:h.example"));
    assert_eq!(store.get(StorageKey::ServerUrl).as_deref(), Some("http://localhost:8008"));
    assert!(ctx.state.is_authenticated());
    assert_eq!(ctx.state.token(), Some("T1"));
    assert_eq!(ctx.state.user_id(), Some("@admin:h.example"));
}

#[test]
fn unauthorized_invalid_reports_bad_credentials() {
    let (mut ctx, mut store) = fresh();
    ctx.begin_login("u".to_string(), "p".to_string());
    let err = answer(401, "{\"error\":\"Invalid password\"}").unwrap_err();
    let result = ctx.login(&mut store, Err(err));
    assert_eq!(result, Err("用户名或密码错误".to_string()));
    assert_eq!(ctx.state, AuthState::Error("用户名或密码错误".to_string()));
    assert!(store.get(StorageKey::Token).is_none());
    assert!(store.get(StorageKey::ServerUrl).is_none());
}

#[test]
fn unauthorized_other_reports_message() {
    let (mut ctx, mut store) = fresh();
    let err = answer(401, "{\"error\":\"Account locked\"}").unwrap_err();
    let result = ctx.login(&mut store, Err(err));
    assert_eq!(result, Err("认证失败: Account locked".to_string()));
    assert_eq!(ctx.state, AuthState::Error("认证失败: Account locked".to_string()));
}

#[test]
fn server_error_with_plain_body() {
    let (mut ctx, mut store) = fresh();
    let err = answer(500, "upstream down").unwrap_err();
    let result = ctx.login(&mut store, Err(err));
    assert_eq!(result, Err("服务器错误 (500): upstream down".to_string()));
    assert_eq!(ctx.state, AuthState::Error("服务器错误 (500): upstream down".to_string()));
}

#[test]
fn other_failures_are_prefixed() {
    let (mut ctx, mut store) = fresh();
    let result = ctx.login(&mut store, Err(ApiError::Network("offline".to_string())));
    assert_eq!(result, Err("登录失败: Network error: offline".to_string()));
    let message = AuthContext::login_error(&ApiError::Json("bad".to_string()));
    assert_eq!(message, "登录失败: JSON error: bad");
    let message = AuthContext::login_error(&ApiError::Status(401, "INVALID token".to_string()));
    assert_eq!(message, "用户名或密码错误");
}

#[test]
fn stale_token_is_dropped_on_validation() {
    let mut store = Storage::new();
    store.set(StorageKey::Token, "Tstale".to_string());
    store.set(StorageKey::UserId, "@u:h".to_string());
    store.set(StorageKey::ServerUrl, "https://srv".to_string());
    let mut ctx = AuthContext::new(&store, Some("https://origin".to_string()));
    assert_eq!(ctx.state, AuthState::Authenticated { token: "Tstale".to_string(), user_id: "@u:h".to_string() });
    assert_eq!(ctx.server_url, "https://srv");

    let req = ctx.token_check().unwrap();
    assert_eq!(req.url, "https://srv/_synapse/admin/v1/server_version");
    assert_eq!(req.headers, vec![("Authorization".to_string(), "Bearer Tstale".to_string())]);

    let outcome = AuthApi::token_validity(answer(401, "{\"error\":\"expired\"}").map(|_| ()));
    assert!(!ctx.validate_current_token(&mut store, outcome));
    assert_eq!(ctx.state, AuthState::Unauthenticated);
    assert!(store.get(StorageKey::Token).is_none());
    assert!(store.get(StorageKey::UserId).is_none());
    assert_eq!(store.get(StorageKey::ServerUrl).as_deref(), Some("https://srv"));
}

#[test]
fn valid_token_keeps_session_and_errors_log_out() {
    let mut store = Storage::new();
    store.set(StorageKey::Token, "T".to_string());
    store.set(StorageKey::UserId, "@u:h".to_string());
    let mut ctx = AuthContext::new(&store, None);
    assert!(ctx.validate_current_token(&mut store, Ok(true)));
    assert!(ctx.state.is_authenticated());
    assert!(!ctx.validate_current_token(&mut store, Err(ApiError::Network("x".to_string()))));
    assert_eq!(ctx.state, AuthState::Unauthenticated);
    assert!(ctx.token_check().is_none());
    assert!(!ctx.validate_current_token(&mut store, Ok(true)));
}

#[test]
fn logout_twice_matches_logout_once() {
    let mut store = Storage::new();
    store.set(StorageKey::Token, "T".to_string());
    store.set(StorageKey::UserId, "@u:h".to_string());
    store.set(StorageKey::ServerUrl, "https://srv".to_string());
    let mut ctx = AuthContext::new(&store, None);
    ctx.logout(&mut store);
    let once = (ctx.state.clone(), store.get(StorageKey::Token), store.get(StorageKey::UserId), store.get(StorageKey::ServerUrl));
    ctx.logout(&mut store);
    let twice = (ctx.state.clone(), store.get(StorageKey::Token), store.get(StorageKey::UserId), store.get(StorageKey::ServerUrl));
    assert_eq!(once, twice);
    assert_eq!(twice, (AuthState::Unauthenticated, None, None, Some("https://srv".to_string())));
}

#[test]
fn initial_state_needs_both_credentials() {
    let mut store = Storage::new();
    store.set(StorageKey::Token, "T".to_string());
    let ctx = AuthContext::new(&store, Some("https://origin".to_string()));
    assert_eq!(ctx.state, AuthState::Unauthenticated);
    assert_eq!(ctx.server_url, "https://origin");
    store.set(StorageKey::UserId, String::new());
    assert_eq!(AuthContext::new(&store, None).state, AuthState::Unauthenticated);
    assert_eq!(AuthContext::new(&store, None).server_url, "http://localhost:8008");
}

#[test]
fn is_authenticated_requires_non_empty_fields() {
    let s = AuthState::Authenticated { token: String::new(), user_id: "@u:h".to_string() };
    assert!(!s.is_authenticated());
    assert_eq!(s.token(), Some(""));
    assert!(!AuthState::Loading.is_authenticated());
    assert!(AuthState::Error("e".to_string()).token().is_none());
    assert!(AuthState::Unauthenticated.user_id().is_none());
}

#[test]
fn login_form_checks() {
    assert_eq!(check_login_form("http://h", "", "p"), Err("请输入用户名和密码".to_string()));
    assert_eq!(check_login_form("http://h", "u", ""), Err("请输入用户名和密码".to_string()));
    assert_eq!(check_login_form("", "u", "p"), Err("请输入服务器地址".to_string()));
    assert_eq!(check_login_form("http://h", "u", "p"), Ok(()));
}

#[test]
fn submitting_form_stores_server_and_starts_login() {
    let (mut ctx, mut store) = fresh();
    assert!(ctx.submit_login(&mut store, String::new(), "u".to_string(), "p".to_string()).is_err());
    assert!(store.get(StorageKey::ServerUrl).is_none());
    assert_eq!(ctx.state, AuthState::Unauthenticated);

    let req = ctx.submit_login(&mut store, "https://new/".to_string(), "u".to_string(), "p".to_string()).unwrap();
    assert_eq!(req.url, "https://new/_matrix/client/v3/login");
    assert_eq!(store.get(StorageKey::ServerUrl).as_deref(), Some("https://new/"));
    assert_eq!(ctx.server_url, "https://new/");
    assert_eq!(ctx.state, AuthState::Loading);
}

#[test]
fn storage_keys_have_browser_names() {
    assert_eq!(StorageKey::Token.name(), "palpo_admin_token");
    assert_eq!(StorageKey::UserId.name(), "palpo_admin_user_id");
    assert_eq!(StorageKey::ServerUrl.name(), "palpo_admin_server_url");
    let mut store = Storage::new();
    store.set(StorageKey::UserId, "a".to_string());
    store.set(StorageKey::UserId, "b".to_string());
    assert_eq!(store.get(StorageKey::UserId).as_deref(), Some("b"));
    store.delete(StorageKey::UserId);
    assert!(store.get(StorageKey::UserId).is_none());
}

#[test]
fn control_characters_are_escaped_as_stated() {
    let req = LoginRequest::password("a\u{1}\u{8}\t/é".to_string(), "\u{1f}".to_string());
    assert_eq!(
        req.to_json(),
        "{\"type\":\"m.login.password\",\"identifier\":{\"type\":\"m.id.user\",\"user\":\"a\\u0001\\b\\t/é\"},\"password\":\"\\u001f\"}"
    );
}

#[test]
fn unauthorized_message_classifies_lowered_text() {
    assert_eq!(palpo_admin::unauthorized_message("invalid password", "Invalid password"), "用户名或密码错误");
    assert_eq!(palpo_admin::unauthorized_message("bad invalidity", "x"), "用户名或密码错误");
    assert_eq!(palpo_admin::unauthorized_message("account locked", "Account locked"), "认证失败: Account locked");
    assert_eq!(palpo_admin::unauthorized_message("INVALID", "INVALID"), "认证失败: INVALID");
}
