//! The login endpoint: request and response shapes, and token validation.

use vstd::prelude::*;
use vstd::string::*;

use crate::api::{opt_view, ApiClient, ApiError, HttpRequest, Method};
use crate::json::{json_string, json_string_of, lemma_read_string, read_string};
use crate::text::has_prefix;

verus! {

/// A password login: `{"type":"m.login.password","identifier":{...},"password":...}`.
#[derive(Debug, Clone)]
pub struct LoginRequest {
    pub login_type: String,
    pub identifier: Identifier,
    pub password: String,
    pub device_id: Option<String>,
}

/// Who logs in: `{"type":"m.id.user","user":...}`.
#[derive(Debug, Clone)]
pub struct Identifier {
    pub id_type: String,
    pub user: String,
}

/// The JSON text of a login request, fields in declaration order; the
/// device id is left out when absent.
pub open spec fn login_request_json(r: LoginRequest) -> Seq<char> {
    "{\"type\":"@ + json_string_of(r.login_type@)
        + ",\"identifier\":{\"type\":"@ + json_string_of(r.identifier.id_type@)
        + ",\"user\":"@ + json_string_of(r.identifier.user@)
        + "},\"password\":"@ + json_string_of(r.password@)
        + match r.device_id {
            Some(d) => ",\"device_id\":"@ + json_string_of(d@),
            None => Seq::empty(),
        }
        + "}"@
}

/// The JSON text of a password login for `user`, without a device id.
pub open spec fn password_login_json(user: Seq<char>, password: Seq<char>) -> Seq<char> {
    "{\"type\":"@ + json_string_of("m.login.password"@)
        + ",\"identifier\":{\"type\":"@ + json_string_of("m.id.user"@)
        + ",\"user\":"@ + json_string_of(user)
        + "},\"password\":"@ + json_string_of(password)
        + "}"@
}

/// The text after `lit` when `t` begins with it.
pub open spec fn after_prefix(t: Seq<char>, lit: Seq<char>) -> Option<Seq<char>> {
    if has_prefix(t, lit) {
        Some(t.subrange(lit.len() as int, t.len() as int))
    } else {
        None
    }
}

/// The fields read back from the JSON text of a login request, laid out as
/// this library writes it: the login type, the identifier type, the user,
/// the password, and the device id when one is present.
pub open spec fn read_login_request(t: Seq<char>) -> Option<(Seq<char>, Seq<char>, Seq<char>, Seq<char>, Option<Seq<char>>)> {
    match after_prefix(t, "{\"type\":"@) {
        None => None,
        Some(t1) => match read_string(t1) {
            None => None,
            Some((login_type, t2)) => match after_prefix(t2, ",\"identifier\":{\"type\":"@) {
                None => None,
                Some(t3) => match read_string(t3) {
                    None => None,
                    Some((id_type, t4)) => match after_prefix(t4, ",\"user\":"@) {
                        None => None,
                        Some(t5) => match read_string(t5) {
                            None => None,
                            Some((user, t6)) => match after_prefix(t6, "},\"password\":"@) {
                                None => None,
                                Some(t7) => match read_string(t7) {
                                    None => None,
                                    Some((password, t8)) => if t8 == "}"@ {
                                        Some((login_type, id_type, user, password, None))
                                    } else {
                                        match after_prefix(t8, ",\"device_id\":"@) {
                                            None => None,
                                            Some(t9) => match read_string(t9) {
                                                Some((device, t10)) => if t10 == "}"@ {
                                                    Some((login_type, id_type, user, password, Some(device)))
                                                } else {
                                                    None
                                                },
                                                None => None,
                                            },
                                        }
                                    },
                                },
                            },
                        },
                    },
                },
            },
        },
    }
}

proof fn lemma_after_prefix(lit: Seq<char>, x: Seq<char>)
    ensures
        after_prefix(lit + x, lit) == Some(x),
{
    assert((lit + x).subrange(0, lit.len() as int) =~= lit);
    assert((lit + x).subrange(lit.len() as int, (lit + x).len() as int) =~= x);
}

/// The JSON text of a password login reads back as the user and password
/// it was made from, with the login type `m.login.password`, the
/// identifier type `m.id.user`, and no device id.
pub proof fn lemma_password_login_round_trip(user: Seq<char>, password: Seq<char>)
    ensures
        read_login_request(password_login_json(user, password))
            == Some(("m.login.password"@, "m.id.user"@, user, password, None::<Seq<char>>)),
{
    let l1 = "{\"type\":"@;
    let l2 = ",\"identifier\":{\"type\":"@;
    let l3 = ",\"user\":"@;
    let l4 = "},\"password\":"@;
    let end = "}"@;
    let qt = json_string_of("m.login.password"@);
    let qi = json_string_of("m.id.user"@);
    let qu = json_string_of(user);
    let qp = json_string_of(password);
    let t = password_login_json(user, password);
    let x8 = end;
    let x7 = qp + x8;
    let x6 = l4 + x7;
    let x5 = qu + x6;
    let x4 = l3 + x5;
    let x3 = qi + x4;
    let x2 = l2 + x3;
    let x1 = qt + x2;
    assert(t =~= l1 + x1);
    lemma_after_prefix(l1, x1);
    lemma_read_string("m.login.password"@, x2);
    lemma_after_prefix(l2, x3);
    lemma_read_string("m.id.user"@, x4);
    lemma_after_prefix(l3, x5);
    lemma_read_string(user, x6);
    lemma_after_prefix(l4, x7);
    lemma_read_string(password, x8);
}

impl LoginRequest {
    /// A password login for `user`.
    pub fn password(user: String, password: String) -> (r: Self)
        ensures
            r.login_type@ == "m.login.password"@,
            r.identifier.id_type@ == "m.id.user"@,
            r.identifier.user == user,
            r.password == password,
            r.device_id is None,
            login_request_json(r) == password_login_json(user@, password@),
    {
        let r = LoginRequest {
            login_type: String::from_str("m.login.password"),
            identifier: Identifier { id_type: String::from_str("m.id.user"), user },
            password,
            device_id: None,
        };
        assert(login_request_json(r) =~= password_login_json(r.identifier.user@, r.password@));
        r
    }

    /// The request as JSON text.
    pub fn to_json(&self) -> (r: String)
        ensures
            r@ == login_request_json(*self),
    {
        let mut out = String::from_str("{\"type\":");
        out.append(json_string(self.login_type.as_str()).as_str());
        out.append(",\"identifier\":{\"type\":");
        out.append(json_string(self.identifier.id_type.as_str()).as_str());
        out.append(",\"user\":");
        out.append(json_string(self.identifier.user.as_str()).as_str());
        out.append("},\"password\":");
        out.append(json_string(self.password.as_str()).as_str());
        match &self.device_id {
            Some(d) => {
                out.append(",\"device_id\":");
                out.append(json_string(d.as_str()).as_str());
            },
            None => {},
        }
        out.append("}");
        assert(out@ =~= login_request_json(*self));
        out
    }
}

/// What a successful login returns.
#[derive(Debug, Clone)]
pub struct LoginResponse {
    pub user_id: String,
    pub access_token: String,
    pub device_id: Option<String>,
    pub well_known: Option<WellKnown>,
}

/// Discovery information sent with a login response.
#[derive(Debug, Clone)]
pub struct WellKnown {
    pub homeserver: HomeserverInfo,
}

/// The canonical base URL of the homeserver.
#[derive(Debug, Clone)]
pub struct HomeserverInfo {
    pub base_url: String,
}

/// What the answer to a token check means.
pub open spec fn validity_of(outcome: Result<(), ApiError>) -> Result<bool, ApiError> {
    match outcome {
        Ok(_) => Ok(true),
        Err(ApiError::Status(401, _)) => Ok(false),
        Err(e) => Err(e),
    }
}

/// Login and token checks against one server, with a client that holds no token.
pub struct AuthApi {
    client: ApiClient,
}

impl AuthApi {
    /// The client that requests go through.
    pub closed spec fn client_spec(&self) -> ApiClient {
        self.client
    }

    /// Login and token checks against `base_url`.
    pub fn new(base_url: String) -> (r: Self)
        ensures
            r.client_spec().base_spec() == crate::text::trim_end_slashes(base_url@),
            r.client_spec().token_spec() is None,
    {
        AuthApi { client: ApiClient::new(base_url) }
    }

    /// The login request: a POST of `request` to the login endpoint.
    pub fn login(&self, request: &LoginRequest) -> (r: HttpRequest)
        ensures
            self.client_spec().request_spec(r, Method::Post, "/_matrix/client/v3/login"@, Some(login_request_json(*request))),
    {
        self.client.post("/_matrix/client/v3/login", request.to_json())
    }

    /// The request that checks `token`: a GET of the server version that
    /// carries the token, from a copy of this client.
    pub fn validate_token(&self, token: &str) -> (r: HttpRequest)
        ensures
            r.method == Method::Get,
            r.url@ == crate::api::url_for(self.client_spec().base_spec(), "/_synapse/admin/v1/server_version"@),
            crate::api::header_view(r.headers@) == crate::api::request_headers(Some(token@), false),
            r.body is None,
    {
        let mut client = self.client.clone();
        client.set_token(Some(String::from_str(token)));
        client.get("/_synapse/admin/v1/server_version")
    }

    /// What the answer to the token check means: a success says the token is
    /// valid, a 401 says it is not, any other error is passed on.
    pub fn token_validity(outcome: Result<(), ApiError>) -> (r: Result<bool, ApiError>)
        ensures
            r == validity_of(outcome),
    {
        match outcome {
            Ok(_) => Ok(true),
            Err(ApiError::Status(401, _)) => Ok(false),
            Err(e) => Err(e),
        }
    }
}

} // verus!
