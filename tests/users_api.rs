use palpo_admin::{
    ApiClient, CreateUserRequest, ExternalId, RateLimitOverride, ResetPasswordRequest, ThreePid, UserListParams,
    UsersApi,
};

fn api() -> UsersApi {
    UsersApi::new(ApiClient::new("https://h".to_string()).with_token("ADMIN".to_string()))
}

fn bare_params(limit: i64) -> UserListParams {
    UserListParams {
        from: None,
        limit,
        user_id: None,
        name: None,
        guests: None,
        deactivated: None,
        admins: None,
        order_by: None,
        dir: None,
    }
}

#[test]
fn list_users_query_assembly() {
    let mut params = bare_params(50);
    params.from = Some(100);
    params.deactivated = Some(true);
    params.order_by = Some("name".to_string());
    let req = api().list_users(&params);
    assert_eq!(req.url, "https://h/_synapse/admin/v2/users?limit=50&from=100&deactivated=true&order_by=name");
    assert_eq!(req.method.as_str(), "GET");
    assert_eq!(req.headers, vec![("Authorization".to_string(), "Bearer ADMIN".to_string())]);
}

#[test]
fn list_users_all_parameters_in_order() {
    let params = UserListParams {
        from: Some(-1),
        limit: 0,
        user_id: Some("@a:b".to_string()),
        name: Some("al".to_string()),
        guests: Some(false),
        deactivated: Some(false),
        admins: Some(true),
        order_by: Some("creation_ts".to_string()),
        dir: Some("b".to_string()),
    };
    assert_eq!(
        api().list_users(&params).url,
        "https://h/_synapse/admin/v2/users?limit=0&from=-1&user_id=@a:b&name=al&guests=false&deactivated=false&admins=true&order_by=creation_ts&dir=b"
    );
}

#[test]
fn default_list_params() {
    let params = UserListParams::default();
    assert_eq!(params.limit, 100);
    assert_eq!(params.guests, Some(true));
    assert_eq!(params.deactivated, Some(false));
    assert!(params.from.is_none() && params.admins.is_none() && params.dir.is_none());
    assert_eq!(
        api().list_users(&params).url,
        "https://h/_synapse/admin/v2/users?limit=100&guests=true&deactivated=false"
    );
}

#[test]
fn user_id_is_percent_encoded() {
    let req = api().get_user("@user:example.com");
    assert!(req.url.contains("@user%3Aexample.com"));
    assert_eq!(req.url, "https://h/_synapse/admin/v2/users/@user%3Aexample.com");
}

#[test]
fn endpoint_paths_and_methods() {
    let a = api();
    let cases = vec![
        (a.get_whois("u"), "GET", "https://h/_synapse/admin/v1/whois/u"),
        (a.get_joined_rooms("u"), "GET", "https://h/_synapse/admin/v1/users/u/joined_rooms"),
        (a.get_pushers("u"), "GET", "https://h/_synapse/admin/v1/users/u/pushers"),
        (a.get_account_data("u"), "GET", "https://h/_synapse/admin/v1/users/u/accountdata"),
        (a.get_rate_limit("u"), "GET", "https://h/_synapse/admin/v1/users/u/override_ratelimit"),
        (a.delete_rate_limit("u"), "DELETE", "https://h/_synapse/admin/v1/users/u/override_ratelimit"),
        (a.unshadow_ban("u"), "DELETE", "https://h/_synapse/admin/v1/users/u/shadow_ban"),
    ];
    for (req, method, url) in cases {
        assert_eq!(req.method.as_str(), method);
        assert_eq!(req.url, url);
        assert!(req.body.is_none());
    }
}

#[test]
fn endpoint_bodies() {
    let a = api();
    let req = a.deactivate_user("u", true);
    assert_eq!((req.method.as_str(), req.url.as_str()), ("POST", "https://h/_synapse/admin/v1/deactivate/u"));
    assert_eq!(req.body.as_deref(), Some("{\"erase\":true}"));

    let req = a.set_admin("u", false);
    assert_eq!((req.method.as_str(), req.url.as_str()), ("PUT", "https://h/_synapse/admin/v1/users/u/admin"));
    assert_eq!(req.body.as_deref(), Some("{\"admin\":false}"));

    let req = a.suspend_user("u", true);
    assert_eq!((req.method.as_str(), req.url.as_str()), ("PUT", "https://h/_synapse/admin/v1/suspend/u"));
    assert_eq!(req.body.as_deref(), Some("{\"suspend\":true}"));

    let req = a.shadow_ban("u");
    assert_eq!((req.method.as_str(), req.url.as_str()), ("POST", "https://h/_synapse/admin/v1/users/u/shadow_ban"));
    assert_eq!(req.body.as_deref(), Some("null"));

    let req = a.reset_password("u", "s\"ecret".to_string(), true);
    assert_eq!(req.url, "https://h/_synapse/admin/v1/reset_password/u");
    assert_eq!(req.body.as_deref(), Some("{\"new_password\":\"s\\\"ecret\",\"logout_devices\":true}"));

    let req = a.set_rate_limit("u", RateLimitOverride { messages_per_second: 0, burst_count: -5 });
    assert_eq!(req.method.as_str(), "POST");
    assert_eq!(req.body.as_deref(), Some("{\"messages_per_second\":0,\"burst_count\":-5}"));
    assert_eq!(
        req.headers,
        vec![
            ("Content-Type".to_string(), "application/json".to_string()),
            ("Authorization".to_string(), "Bearer ADMIN".to_string())
        ]
    );
}

#[test]
fn create_user_body_writes_every_field() {
    let empty = CreateUserRequest::default();
    assert_eq!(
        empty.to_json(),
        "{\"password\":null,\"logout_devices\":null,\"displayname\":null,\"avatar_url\":null,\"threepids\":null,\"external_ids\":null,\"admin\":null,\"deactivated\":null,\"locked\":null,\"user_type\":null}"
    );
    let mut req = CreateUserRequest::default();
    req.password = Some("pw".to_string());
    req.admin = Some(true);
    req.threepids = Some(vec![
        ThreePid { medium: "email".to_string(), address: "a@b".to_string(), added_at: 1, validated_at: None },
        ThreePid { medium: "msisdn".to_string(), address: "123".to_string(), added_at: 2, validated_at: Some(3) },
    ]);
    req.external_ids = Some(vec![]);
    let text = api().create_or_update_user("@a:b", &req).body.unwrap();
    let value: serde_json::Value = serde_json::from_str(&text).unwrap();
    assert_eq!(value["password"], "pw");
    assert_eq!(value["admin"], true);
    assert_eq!(value["threepids"][1]["validated_at"], 3);
    assert_eq!(value["threepids"][0]["medium"], "email");
    assert!(value["threepids"][0]["validated_at"].is_null());
    assert_eq!(value["external_ids"], serde_json::Value::Array(vec![]));
    assert!(value["displayname"].is_null());
}

#[test]
fn record_bodies() {
    let e = ExternalId { auth_provider: "oidc".to_string(), external_id: "x1".to_string() };
    assert_eq!(e.to_json(), "{\"auth_provider\":\"oidc\",\"external_id\":\"x1\"}");
    let r = ResetPasswordRequest { new_password: "p".to_string(), logout_devices: None };
    assert_eq!(r.to_json(), "{\"new_password\":\"p\",\"logout_devices\":null}");
    let mut c = CreateUserRequest::default();
    c.external_ids = Some(vec![e.clone(), e]);
    assert!(c.to_json().contains("\"external_ids\":[{\"auth_provider\":\"oidc\",\"external_id\":\"x1\"},{\"auth_provider\":\"oidc\",\"external_id\":\"x1\"}]"));
}

#[test]
fn non_ascii_user_id_is_encoded_bytewise() {
    let req = api().get_user("é-_.~ z");
    assert_eq!(req.url, "https://h/_synapse/admin/v2/users/%C3%A9-_.~%20z");
}

#[test]
fn reserved_characters_in_user_id_are_encoded() {
    let req = api().set_admin("@a/b?c#d%e:f", true);
    assert_eq!(req.url, "https://h/_synapse/admin/v1/users/@a%2Fb%3Fc%23d%25e%3Af/admin");
    assert_eq!(palpo_admin::users::url_encode("@x:y.z"), "@x%3Ay.z");
    assert_eq!(palpo_admin::users::url_encode(""), "");
}
