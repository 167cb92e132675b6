//! User administration: record shapes, the query string of the user list,
//! request paths and request bodies.

use std::collections::HashMap;

use vstd::prelude::*;
use vstd::string::*;

use crate::api::{ApiClient, HttpRequest, Method};
use crate::json::{bool_literal, bool_text, json_string, json_string_of};
use crate::text::{decimal, int_text};
use vstd::utf8::encode_utf8;

verus! {

/// An opaque JSON value, carried through as the server sent it.
#[verifier::external_type_specification]
#[verifier::external_body]
pub struct ExJsonValue(serde_json::Value);

/// The uppercase hexadecimal digits.
pub open spec fn upper_hex_digits() -> Seq<char> {
    seq!['0', '1', '2', '3', '4', '5', '6', '7', '8', '9', 'A', 'B', 'C', 'D', 'E', 'F']
}

/// Whether a character of a user id is written as it is in a path: an
/// ASCII letter or digit, `-`, `.`, `_`, `~`, or the `@` that opens every
/// Matrix user id.
pub open spec fn unreserved(c: char) -> bool {
    ('0' <= c && c <= '9') || ('A' <= c && c <= 'Z') || ('a' <= c && c <= 'z')
        || c == '-' || c == '.' || c == '_' || c == '~' || c == '@'
}

/// `%` and two uppercase hexadecimal digits for each byte.
pub open spec fn percent_bytes(bytes: Seq<u8>) -> Seq<char>
    decreases bytes.len(),
{
    if bytes.len() == 0 {
        Seq::empty()
    } else {
        percent_bytes(bytes.drop_last()) + seq![
            '%',
            upper_hex_digits()[(bytes.last() / 16) as int],
            upper_hex_digits()[(bytes.last() % 16) as int],
        ]
    }
}

/// How one character of a user id is written in a path: itself when
/// unreserved, else its UTF-8 bytes percent-encoded.
pub open spec fn encode_path_char(c: char) -> Seq<char> {
    if unreserved(c) {
        seq![c]
    } else {
        percent_bytes(encode_utf8(seq![c]))
    }
}

/// A user id as it is written in a path segment.
pub open spec fn url_encoded_of(s: Seq<char>) -> Seq<char>
    decreases s.len(),
{
    if s.len() == 0 {
        Seq::empty()
    } else {
        url_encoded_of(s.drop_last()) + encode_path_char(s.last())
    }
}

fn is_unreserved(c: char) -> (r: bool)
    ensures
        r == unreserved(c),
{
    ('0' <= c && c <= '9') || ('A' <= c && c <= 'Z') || ('a' <= c && c <= 'z')
        || c == '-' || c == '.' || c == '_' || c == '~' || c == '@'
}

fn push_percent_bytes(out: &mut String, bytes: &[u8])
    ensures
        final(out)@ == old(out)@ + percent_bytes(bytes@),
{
    let digits = "0123456789ABCDEF";
    proof {
        reveal_strlit("0123456789ABCDEF");
    }
    assert(digits@ =~= upper_hex_digits());
    let mut j: usize = 0;
    assert(bytes@.subrange(0, 0) =~= Seq::<u8>::empty());
    assert(out@ =~= old(out)@ + percent_bytes(bytes@.subrange(0, 0)));
    while j < bytes.len()
        invariant
            j <= bytes@.len(),
            digits@ == upper_hex_digits(),
            out@ == old(out)@ + percent_bytes(bytes@.subrange(0, j as int)),
        decreases bytes.len() - j,
    {
        let b = bytes[j];
        let ghost before = out@;
        let hi = (b / 16) as usize;
        let lo = (b % 16) as usize;
        out.append("%");
        out.append(digits.substring_char(hi, hi + 1));
        out.append(digits.substring_char(lo, lo + 1));
        let ghost taken = bytes@.subrange(0, j + 1);
        assert(taken.drop_last() =~= bytes@.subrange(0, j as int));
        assert(taken.last() == b);
        assert(digits@.subrange(hi as int, hi + 1) =~= seq![upper_hex_digits()[hi as int]]);
        assert(digits@.subrange(lo as int, lo + 1) =~= seq![upper_hex_digits()[lo as int]]);
        proof {
            reveal_strlit("%");
        }
        assert("%"@ =~= seq!['%']);
        assert(out@ =~= before + seq!['%', upper_hex_digits()[hi as int], upper_hex_digits()[lo as int]]);
        assert(percent_bytes(taken) == percent_bytes(bytes@.subrange(0, j as int))
            + seq!['%', upper_hex_digits()[hi as int], upper_hex_digits()[lo as int]]);
        assert(out@ =~= old(out)@ + percent_bytes(taken));
        j = j + 1;
    }
    assert(bytes@.subrange(0, bytes@.len() as int) =~= bytes@);
}

/// Writes a user id as a path segment.
pub fn url_encode(s: &str) -> (r: String)
    ensures
        r@ == url_encoded_of(s@),
{
    let n = s.unicode_len();
    let mut out = String::new();
    let mut i: usize = 0;
    assert(s@.subrange(0, 0) =~= Seq::<char>::empty());
    while i < n
        invariant
            n == s@.len(),
            i <= n,
            out@ == url_encoded_of(s@.subrange(0, i as int)),
        decreases n - i,
    {
        let c = s.get_char(i);
        let piece = s.substring_char(i, i + 1);
        assert(piece@ =~= seq![c]);
        if is_unreserved(c) {
            out.append(piece);
        } else {
            push_percent_bytes(&mut out, piece.as_bytes());
        }
        let ghost taken = s@.subrange(0, i + 1);
        assert(taken.drop_last() =~= s@.subrange(0, i as int));
        assert(taken.last() == c);
        assert(out@ =~= url_encoded_of(taken));
        i = i + 1;
    }
    assert(s@.subrange(0, n as int) =~= s@);
    out
}

/// A user as the user list reports it.
#[derive(Debug, Clone)]
pub struct UserInfo {
    pub name: String,
    pub displayname: Option<String>,
    pub avatar_url: Option<String>,
    pub is_guest: bool,
    pub admin: bool,
    pub deactivated: bool,
    pub shadow_banned: bool,
    pub locked: bool,
    pub creation_ts: i64,
    pub appservice_id: Option<String>,
    pub consent_version: Option<String>,
    pub consent_ts: Option<i64>,
    pub consent_server_notice_sent: Option<i64>,
    pub user_type: Option<String>,
    pub external_ids: Option<Vec<ExternalId>>,
}

/// An identity of the user at an outside provider.
#[derive(Debug, Clone)]
pub struct ExternalId {
    pub auth_provider: String,
    pub external_id: String,
}

/// One page of the user list; `next_token` is present when more follow.
#[derive(Debug, Clone)]
pub struct UserListResponse {
    pub users: Vec<UserInfo>,
    pub total: i64,
    pub next_token: Option<String>,
}

/// A user with everything the server reports of it.
#[derive(Debug, Clone)]
pub struct UserDetail {
    pub name: String,
    pub displayname: Option<String>,
    pub avatar_url: Option<String>,
    pub threepids: Option<Vec<ThreePid>>,
    pub is_guest: bool,
    pub admin: bool,
    pub deactivated: bool,
    pub shadow_banned: bool,
    pub locked: bool,
    pub creation_ts: i64,
    pub appservice_id: Option<String>,
    pub consent_version: Option<String>,
    pub consent_ts: Option<i64>,
    pub consent_server_notice_sent: Option<i64>,
    pub user_type: Option<String>,
    pub external_ids: Option<Vec<ExternalId>>,
}

/// A third-party identifier (`email` or `msisdn`) bound to a user.
#[derive(Debug, Clone)]
pub struct ThreePid {
    pub medium: String,
    pub address: String,
    pub added_at: i64,
    pub validated_at: Option<i64>,
}

/// The fields to set when creating or updating a user; absent ones are sent
/// as `null`.
#[derive(Debug, Clone)]
pub struct CreateUserRequest {
    pub password: Option<String>,
    pub logout_devices: Option<bool>,
    pub displayname: Option<String>,
    pub avatar_url: Option<String>,
    pub threepids: Option<Vec<ThreePid>>,
    pub external_ids: Option<Vec<ExternalId>>,
    pub admin: Option<bool>,
    pub deactivated: Option<bool>,
    pub locked: Option<bool>,
    pub user_type: Option<String>,
}

/// A new password, and whether the user's devices are logged out.
#[derive(Debug, Clone)]
pub struct ResetPasswordRequest {
    pub new_password: String,
    pub logout_devices: Option<bool>,
}

/// A per-user override of the message rate limit.
#[derive(Debug, Clone, Copy)]
pub struct RateLimitOverride {
    pub messages_per_second: i32,
    pub burst_count: i32,
}

/// The rooms a user has joined.
#[derive(Debug, Clone)]
pub struct JoinedRoomsResponse {
    pub joined_rooms: Vec<String>,
    pub total: i32,
}

/// A push-notification subscription of one of the user's devices.
#[derive(Debug, Clone)]
pub struct Pusher {
    pub app_display_name: String,
    pub app_id: String,
    pub data: Option<serde_json::Value>,
    pub device_display_name: Option<String>,
    pub device_id: Option<String>,
    pub kind: String,
    pub lang: Option<String>,
    pub profile_tag: Option<String>,
    pub pushkey: String,
}

/// The pushers of a user.
#[derive(Debug, Clone)]
pub struct PushersResponse {
    pub pushers: Vec<Pusher>,
    pub total: i32,
}

/// The account data of a user, global and per room.
#[derive(Debug, Clone)]
pub struct AccountData {
    pub global: Option<serde_json::Value>,
    pub rooms: Option<HashMap<String, serde_json::Value>>,
}

/// The sessions of a user, by device id.
#[derive(Debug, Clone)]
pub struct WhoisResponse {
    pub user_id: String,
    pub devices: HashMap<String, DeviceSessions>,
}

/// The sessions of one device.
#[derive(Debug, Clone)]
pub struct DeviceSessions {
    pub sessions: Vec<SessionInfo>,
}

/// The connections of one session.
#[derive(Debug, Clone)]
pub struct SessionInfo {
    pub connections: Vec<ConnectionInfo>,
}

/// One connection: address, last activity and client.
#[derive(Debug, Clone)]
pub struct ConnectionInfo {
    pub ip: String,
    pub last_seen: i64,
    pub user_agent: String,
}

/// The filters and paging of the user list.
#[derive(Debug, Clone)]
pub struct UserListParams {
    pub from: Option<i64>,
    pub limit: i64,
    pub user_id: Option<String>,
    pub name: Option<String>,
    pub guests: Option<bool>,
    pub deactivated: Option<bool>,
    pub admins: Option<bool>,
    pub order_by: Option<String>,
    pub dir: Option<String>,
}

impl Default for UserListParams {
    /// A hundred users per page, guests included, deactivated users left out.
    fn default() -> (r: Self)
        ensures
            r.from is None,
            r.limit == 100,
            r.user_id is None,
            r.name is None,
            r.guests == Some(true),
            r.deactivated == Some(false),
            r.admins is None,
            r.order_by is None,
            r.dir is None,
    {
        UserListParams {
            from: None,
            limit: 100,
            user_id: None,
            name: None,
            guests: Some(true),
            deactivated: Some(false),
            admins: None,
            order_by: None,
            dir: None,
        }
    }
}

/// `&name=value` when a value is set, nothing otherwise.
pub open spec fn query_param(name: Seq<char>, value: Option<Seq<char>>) -> Seq<char> {
    match value {
        Some(v) => "&"@ + name + "="@ + v,
        None => Seq::empty(),
    }
}

/// The text of an optional integer parameter.
pub open spec fn int_param(o: Option<i64>) -> Option<Seq<char>> {
    match o {
        Some(n) => Some(int_text(n as int)),
        None => None,
    }
}

/// The text of an optional boolean parameter.
pub open spec fn bool_param(o: Option<bool>) -> Option<Seq<char>> {
    match o {
        Some(b) => Some(bool_text(b)),
        None => None,
    }
}

/// The path and query of a user-list request: `limit` always, then each
/// other parameter that is set, in a fixed order.
pub open spec fn list_users_path(p: UserListParams) -> Seq<char> {
    "/_synapse/admin/v2/users?limit="@ + int_text(p.limit as int)
        + query_param("from"@, int_param(p.from))
        + query_param("user_id"@, crate::api::opt_view(p.user_id))
        + query_param("name"@, crate::api::opt_view(p.name))
        + query_param("guests"@, bool_param(p.guests))
        + query_param("deactivated"@, bool_param(p.deactivated))
        + query_param("admins"@, bool_param(p.admins))
        + query_param("order_by"@, crate::api::opt_view(p.order_by))
        + query_param("dir"@, crate::api::opt_view(p.dir))
}

fn push_param(path: &mut String, name: &str, value: &str)
    ensures
        final(path)@ == old(path)@ + query_param(name@, Some(value@)),
{
    path.append("&");
    path.append(name);
    path.append("=");
    path.append(value);
    assert(path@ =~= old(path)@ + query_param(name@, Some(value@)));
}

fn push_string_param(path: &mut String, name: &str, value: &Option<String>)
    ensures
        final(path)@ == old(path)@ + query_param(name@, crate::api::opt_view(*value)),
{
    match value {
        Some(v) => push_param(path, name, v.as_str()),
        None => assert(path@ =~= old(path)@ + query_param(name@, None)),
    }
}

fn push_bool_param(path: &mut String, name: &str, value: Option<bool>)
    ensures
        final(path)@ == old(path)@ + query_param(name@, bool_param(value)),
{
    match value {
        Some(b) => push_param(path, name, bool_literal(b)),
        None => assert(path@ =~= old(path)@ + query_param(name@, None)),
    }
}

/// The path of a request about one user: `prefix`, the user id
/// percent-encoded, then `suffix`.
pub open spec fn user_path_of(prefix: Seq<char>, user_id: Seq<char>, suffix: Seq<char>) -> Seq<char> {
    prefix + url_encoded_of(user_id) + suffix
}

fn user_path(prefix: &str, user_id: &str, suffix: &str) -> (r: String)
    ensures
        r@ == user_path_of(prefix@, user_id@, suffix@),
{
    let mut path = String::from_str(prefix);
    path.append(url_encode(user_id).as_str());
    path.append(suffix);
    path
}

/// An optional string as JSON: the quoted string, or `null`.
pub open spec fn opt_string_json(o: Option<String>) -> Seq<char> {
    match o {
        Some(v) => json_string_of(v@),
        None => "null"@,
    }
}

/// An optional boolean as JSON.
pub open spec fn opt_bool_json(o: Option<bool>) -> Seq<char> {
    match o {
        Some(b) => bool_text(b),
        None => "null"@,
    }
}

/// An optional integer as JSON.
pub open spec fn opt_int_json(o: Option<i64>) -> Seq<char> {
    match o {
        Some(n) => int_text(n as int),
        None => "null"@,
    }
}

fn opt_string_text(o: &Option<String>) -> (r: String)
    ensures
        r@ == opt_string_json(*o),
{
    match o {
        Some(v) => json_string(v.as_str()),
        None => String::from_str("null"),
    }
}

fn opt_bool_text(o: Option<bool>) -> (r: String)
    ensures
        r@ == opt_bool_json(o),
{
    match o {
        Some(b) => String::from_str(bool_literal(b)),
        None => String::from_str("null"),
    }
}

fn opt_int_text(o: Option<i64>) -> (r: String)
    ensures
        r@ == opt_int_json(o),
{
    match o {
        Some(n) => decimal(n),
        None => String::from_str("null"),
    }
}

/// A third-party identifier as JSON.
pub open spec fn threepid_json(t: ThreePid) -> Seq<char> {
    "{\"medium\":"@ + json_string_of(t.medium@)
        + ",\"address\":"@ + json_string_of(t.address@)
        + ",\"added_at\":"@ + int_text(t.added_at as int)
        + ",\"validated_at\":"@ + opt_int_json(t.validated_at)
        + "}"@
}

/// An outside identity as JSON.
pub open spec fn external_id_json(e: ExternalId) -> Seq<char> {
    "{\"auth_provider\":"@ + json_string_of(e.auth_provider@)
        + ",\"external_id\":"@ + json_string_of(e.external_id@)
        + "}"@
}

/// The elements of a list of third-party identifiers, comma separated.
pub open spec fn threepid_items(s: Seq<ThreePid>) -> Seq<char>
    decreases s.len(),
{
    if s.len() == 0 {
        Seq::empty()
    } else if s.len() == 1 {
        threepid_json(s[0])
    } else {
        threepid_items(s.drop_last()) + ","@ + threepid_json(s.last())
    }
}

/// The elements of a list of outside identities, comma separated.
pub open spec fn external_id_items(s: Seq<ExternalId>) -> Seq<char>
    decreases s.len(),
{
    if s.len() == 0 {
        Seq::empty()
    } else if s.len() == 1 {
        external_id_json(s[0])
    } else {
        external_id_items(s.drop_last()) + ","@ + external_id_json(s.last())
    }
}

/// An optional list of third-party identifiers as JSON.
pub open spec fn opt_threepids_json(o: Option<Vec<ThreePid>>) -> Seq<char> {
    match o {
        Some(v) => "["@ + threepid_items(v@) + "]"@,
        None => "null"@,
    }
}

/// An optional list of outside identities as JSON.
pub open spec fn opt_external_ids_json(o: Option<Vec<ExternalId>>) -> Seq<char> {
    match o {
        Some(v) => "["@ + external_id_items(v@) + "]"@,
        None => "null"@,
    }
}

impl ThreePid {
    /// The identifier as JSON text.
    pub fn to_json(&self) -> (r: String)
        ensures
            r@ == threepid_json(*self),
    {
        let mut out = String::from_str("{\"medium\":");
        out.append(json_string(self.medium.as_str()).as_str());
        out.append(",\"address\":");
        out.append(json_string(self.address.as_str()).as_str());
        out.append(",\"added_at\":");
        out.append(decimal(self.added_at).as_str());
        out.append(",\"validated_at\":");
        out.append(opt_int_text(self.validated_at).as_str());
        out.append("}");
        assert(out@ =~= threepid_json(*self));
        out
    }
}

impl ExternalId {
    /// The identity as JSON text.
    pub fn to_json(&self) -> (r: String)
        ensures
            r@ == external_id_json(*self),
    {
        let mut out = String::from_str("{\"auth_provider\":");
        out.append(json_string(self.auth_provider.as_str()).as_str());
        out.append(",\"external_id\":");
        out.append(json_string(self.external_id.as_str()).as_str());
        out.append("}");
        assert(out@ =~= external_id_json(*self));
        out
    }
}

fn threepids_text(o: &Option<Vec<ThreePid>>) -> (r: String)
    ensures
        r@ == opt_threepids_json(*o),
{
    match o {
        None => String::from_str("null"),
        Some(v) => {
            let mut out = String::from_str("[");
            let mut i: usize = 0;
            assert(v@.subrange(0, 0) =~= Seq::<ThreePid>::empty());
            assert(out@ =~= "["@ + threepid_items(v@.subrange(0, 0)));
            while i < v.len()
                invariant
                    i <= v.len(),
                    out@ == "["@ + threepid_items(v@.subrange(0, i as int)),
                decreases v.len() - i,
            {
                let item = v[i].to_json();
                if i > 0 {
                    out.append(",");
                }
                out.append(item.as_str());
                let ghost s = v@.subrange(0, i + 1);
                assert(s.drop_last() =~= v@.subrange(0, i as int));
                assert(s.last() == v@[i as int]);
                if i == 0 {
                    assert(s[0] == v@[0]);
                }
                assert(out@ =~= "["@ + threepid_items(s));
                i = i + 1;
            }
            assert(v@.subrange(0, v.len() as int) =~= v@);
            out.append("]");
            out
        },
    }
}

fn external_ids_text(o: &Option<Vec<ExternalId>>) -> (r: String)
    ensures
        r@ == opt_external_ids_json(*o),
{
    match o {
        None => String::from_str("null"),
        Some(v) => {
            let mut out = String::from_str("[");
            let mut i: usize = 0;
            assert(v@.subrange(0, 0) =~= Seq::<ExternalId>::empty());
            assert(out@ =~= "["@ + external_id_items(v@.subrange(0, 0)));
            while i < v.len()
                invariant
                    i <= v.len(),
                    out@ == "["@ + external_id_items(v@.subrange(0, i as int)),
                decreases v.len() - i,
            {
                let item = v[i].to_json();
                if i > 0 {
                    out.append(",");
                }
                out.append(item.as_str());
                let ghost s = v@.subrange(0, i + 1);
                assert(s.drop_last() =~= v@.subrange(0, i as int));
                assert(s.last() == v@[i as int]);
                if i == 0 {
                    assert(s[0] == v@[0]);
                }
                assert(out@ =~= "["@ + external_id_items(s));
                i = i + 1;
            }
            assert(v@.subrange(0, v.len() as int) =~= v@);
            out.append("]");
            out
        },
    }
}

/// A create-or-update request as JSON, every field present.
pub open spec fn create_user_json(r: CreateUserRequest) -> Seq<char> {
    "{\"password\":"@ + opt_string_json(r.password)
        + ",\"logout_devices\":"@ + opt_bool_json(r.logout_devices)
        + ",\"displayname\":"@ + opt_string_json(r.displayname)
        + ",\"avatar_url\":"@ + opt_string_json(r.avatar_url)
        + ",\"threepids\":"@ + opt_threepids_json(r.threepids)
        + ",\"external_ids\":"@ + opt_external_ids_json(r.external_ids)
        + ",\"admin\":"@ + opt_bool_json(r.admin)
        + ",\"deactivated\":"@ + opt_bool_json(r.deactivated)
        + ",\"locked\":"@ + opt_bool_json(r.locked)
        + ",\"user_type\":"@ + opt_string_json(r.user_type)
        + "}"@
}

/// A password reset as JSON.
pub open spec fn reset_password_json(r: ResetPasswordRequest) -> Seq<char> {
    "{\"new_password\":"@ + json_string_of(r.new_password@)
        + ",\"logout_devices\":"@ + opt_bool_json(r.logout_devices)
        + "}"@
}

/// A rate-limit override as JSON.
pub open spec fn rate_limit_json(r: RateLimitOverride) -> Seq<char> {
    "{\"messages_per_second\":"@ + int_text(r.messages_per_second as int)
        + ",\"burst_count\":"@ + int_text(r.burst_count as int)
        + "}"@
}

/// An object with one boolean field, `{"<key>":<b>}`, given its opening `{"<key>":`.
pub open spec fn flag_json(opening: Seq<char>, b: bool) -> Seq<char> {
    opening + bool_text(b) + "}"@
}

fn flag_text(opening: &str, b: bool) -> (r: String)
    ensures
        r@ == flag_json(opening@, b),
{
    let mut out = String::from_str(opening);
    out.append(bool_literal(b));
    out.append("}");
    out
}

impl Default for CreateUserRequest {
    /// A request that changes nothing.
    fn default() -> (r: Self)
        ensures
            r.password is None && r.logout_devices is None && r.displayname is None
                && r.avatar_url is None && r.threepids is None && r.external_ids is None
                && r.admin is None && r.deactivated is None && r.locked is None
                && r.user_type is None,
    {
        CreateUserRequest {
            password: None,
            logout_devices: None,
            displayname: None,
            avatar_url: None,
            threepids: None,
            external_ids: None,
            admin: None,
            deactivated: None,
            locked: None,
            user_type: None,
        }
    }
}

impl CreateUserRequest {
    /// The request as JSON text.
    pub fn to_json(&self) -> (r: String)
        ensures
            r@ == create_user_json(*self),
    {
        let mut out = String::from_str("{\"password\":");
        out.append(opt_string_text(&self.password).as_str());
        out.append(",\"logout_devices\":");
        out.append(opt_bool_text(self.logout_devices).as_str());
        out.append(",\"displayname\":");
        out.append(opt_string_text(&self.displayname).as_str());
        out.append(",\"avatar_url\":");
        out.append(opt_string_text(&self.avatar_url).as_str());
        out.append(",\"threepids\":");
        out.append(threepids_text(&self.threepids).as_str());
        out.append(",\"external_ids\":");
        out.append(external_ids_text(&self.external_ids).as_str());
        out.append(",\"admin\":");
        out.append(opt_bool_text(self.admin).as_str());
        out.append(",\"deactivated\":");
        out.append(opt_bool_text(self.deactivated).as_str());
        out.append(",\"locked\":");
        out.append(opt_bool_text(self.locked).as_str());
        out.append(",\"user_type\":");
        out.append(opt_string_text(&self.user_type).as_str());
        out.append("}");
        assert(out@ =~= create_user_json(*self));
        out
    }
}

impl ResetPasswordRequest {
    /// The request as JSON text.
    pub fn to_json(&self) -> (r: String)
        ensures
            r@ == reset_password_json(*self),
    {
        let mut out = String::from_str("{\"new_password\":");
        out.append(json_string(self.new_password.as_str()).as_str());
        out.append(",\"logout_devices\":");
        out.append(opt_bool_text(self.logout_devices).as_str());
        out.append("}");
        assert(out@ =~= reset_password_json(*self));
        out
    }
}

impl RateLimitOverride {
    /// The override as JSON text.
    pub fn to_json(&self) -> (r: String)
        ensures
            r@ == rate_limit_json(*self),
    {
        let mut out = String::from_str("{\"messages_per_second\":");
        out.append(decimal(self.messages_per_second as i64).as_str());
        out.append(",\"burst_count\":");
        out.append(decimal(self.burst_count as i64).as_str());
        out.append("}");
        assert(out@ =~= rate_limit_json(*self));
        out
    }
}

/// User administration through a client that holds the admin token.
pub struct UsersApi {
    client: ApiClient,
}

impl UsersApi {
    /// The client that requests go through.
    pub closed spec fn client_spec(&self) -> ApiClient {
        self.client
    }

    /// User administration through `client`.
    pub fn new(client: ApiClient) -> (r: Self)
        ensures
            r.client_spec() == client,
    {
        UsersApi { client }
    }

    /// A page of the user list.
    pub fn list_users(&self, params: &UserListParams) -> (r: HttpRequest)
        ensures
            self.client_spec().request_spec(r, Method::Get, list_users_path(*params), None),
    {
        let mut path = String::from_str("/_synapse/admin/v2/users?limit=");
        path.append(decimal(params.limit).as_str());
        match params.from {
            Some(from) => push_param(&mut path, "from", decimal(from).as_str()),
            None => {},
        }
        push_string_param(&mut path, "user_id", &params.user_id);
        push_string_param(&mut path, "name", &params.name);
        push_bool_param(&mut path, "guests", params.guests);
        push_bool_param(&mut path, "deactivated", params.deactivated);
        push_bool_param(&mut path, "admins", params.admins);
        push_string_param(&mut path, "order_by", &params.order_by);
        push_string_param(&mut path, "dir", &params.dir);
        assert(path@ =~= list_users_path(*params));
        self.client.get(path.as_str())
    }

    /// One user, in full.
    pub fn get_user(&self, user_id: &str) -> (r: HttpRequest)
        ensures
            self.client_spec().request_spec(r, Method::Get,
                user_path_of("/_synapse/admin/v2/users/"@, user_id@, ""@), None),
    {
        let path = user_path("/_synapse/admin/v2/users/", user_id, "");
        self.client.get(path.as_str())
    }

    /// Creates the user or updates its fields.
    pub fn create_or_update_user(&self, user_id: &str, request: &CreateUserRequest) -> (r: HttpRequest)
        ensures
            self.client_spec().request_spec(r, Method::Put,
                user_path_of("/_synapse/admin/v2/users/"@, user_id@, ""@), Some(create_user_json(*request))),
    {
        let path = user_path("/_synapse/admin/v2/users/", user_id, "");
        self.client.put(path.as_str(), request.to_json())
    }

    /// Deactivates the user, erasing its data when `erase` is set.
    pub fn deactivate_user(&self, user_id: &str, erase: bool) -> (r: HttpRequest)
        ensures
            self.client_spec().request_spec(r, Method::Post,
                user_path_of("/_synapse/admin/v1/deactivate/"@, user_id@, ""@),
                Some(flag_json("{\"erase\":"@, erase))),
    {
        let path = user_path("/_synapse/admin/v1/deactivate/", user_id, "");
        self.client.post(path.as_str(), flag_text("{\"erase\":", erase))
    }

    /// Sets a new password, logging the user's devices out when asked.
    pub fn reset_password(&self, user_id: &str, new_password: String, logout_devices: bool) -> (r: HttpRequest)
        ensures
            self.client_spec().request_spec(r, Method::Post,
                user_path_of("/_synapse/admin/v1/reset_password/"@, user_id@, ""@),
                Some(reset_password_json(ResetPasswordRequest { new_password, logout_devices: Some(logout_devices) }))),
    {
        let path = user_path("/_synapse/admin/v1/reset_password/", user_id, "");
        let request = ResetPasswordRequest { new_password, logout_devices: Some(logout_devices) };
        self.client.post(path.as_str(), request.to_json())
    }

    /// Grants or revokes server administration.
    pub fn set_admin(&self, user_id: &str, admin: bool) -> (r: HttpRequest)
        ensures
            self.client_spec().request_spec(r, Method::Put,
                user_path_of("/_synapse/admin/v1/users/"@, user_id@, "/admin"@),
                Some(flag_json("{\"admin\":"@, admin))),
    {
        let path = user_path("/_synapse/admin/v1/users/", user_id, "/admin");
        self.client.put(path.as_str(), flag_text("{\"admin\":", admin))
    }

    /// Shadow-bans the user.
    pub fn shadow_ban(&self, user_id: &str) -> (r: HttpRequest)
        ensures
            self.client_spec().request_spec(r, Method::Post,
                user_path_of("/_synapse/admin/v1/users/"@, user_id@, "/shadow_ban"@), Some("null"@)),
    {
        let path = user_path("/_synapse/admin/v1/users/", user_id, "/shadow_ban");
        self.client.post(path.as_str(), String::from_str("null"))
    }

    /// Lifts a shadow ban.
    pub fn unshadow_ban(&self, user_id: &str) -> (r: HttpRequest)
        ensures
            self.client_spec().request_spec(r, Method::Delete,
                user_path_of("/_synapse/admin/v1/users/"@, user_id@, "/shadow_ban"@), None),
    {
        let path = user_path("/_synapse/admin/v1/users/", user_id, "/shadow_ban");
        self.client.delete(path.as_str())
    }

    /// Suspends the user, or lifts the suspension.
    pub fn suspend_user(&self, user_id: &str, suspend: bool) -> (r: HttpRequest)
        ensures
            self.client_spec().request_spec(r, Method::Put,
                user_path_of("/_synapse/admin/v1/suspend/"@, user_id@, ""@),
                Some(flag_json("{\"suspend\":"@, suspend))),
    {
        let path = user_path("/_synapse/admin/v1/suspend/", user_id, "");
        self.client.put(path.as_str(), flag_text("{\"suspend\":", suspend))
    }

    /// The user's sessions.
    pub fn get_whois(&self, user_id: &str) -> (r: HttpRequest)
        ensures
            self.client_spec().request_spec(r, Method::Get,
                user_path_of("/_synapse/admin/v1/whois/"@, user_id@, ""@), None),
    {
        let path = user_path("/_synapse/admin/v1/whois/", user_id, "");
        self.client.get(path.as_str())
    }

    /// The rooms the user has joined.
    pub fn get_joined_rooms(&self, user_id: &str) -> (r: HttpRequest)
        ensures
            self.client_spec().request_spec(r, Method::Get,
                user_path_of("/_synapse/admin/v1/users/"@, user_id@, "/joined_rooms"@), None),
    {
        let path = user_path("/_synapse/admin/v1/users/", user_id, "/joined_rooms");
        self.client.get(path.as_str())
    }

    /// The user's pushers.
    pub fn get_pushers(&self, user_id: &str) -> (r: HttpRequest)
        ensures
            self.client_spec().request_spec(r, Method::Get,
                user_path_of("/_synapse/admin/v1/users/"@, user_id@, "/pushers"@), None),
    {
        let path = user_path("/_synapse/admin/v1/users/", user_id, "/pushers");
        self.client.get(path.as_str())
    }

    /// The user's account data.
    pub fn get_account_data(&self, user_id: &str) -> (r: HttpRequest)
        ensures
            self.client_spec().request_spec(r, Method::Get,
                user_path_of("/_synapse/admin/v1/users/"@, user_id@, "/accountdata"@), None),
    {
        let path = user_path("/_synapse/admin/v1/users/", user_id, "/accountdata");
        self.client.get(path.as_str())
    }

    /// The user's rate-limit override.
    pub fn get_rate_limit(&self, user_id: &str) -> (r: HttpRequest)
        ensures
            self.client_spec().request_spec(r, Method::Get,
                user_path_of("/_synapse/admin/v1/users/"@, user_id@, "/override_ratelimit"@), None),
    {
        let path = user_path("/_synapse/admin/v1/users/", user_id, "/override_ratelimit");
        self.client.get(path.as_str())
    }

    /// Sets the user's rate-limit override.
    pub fn set_rate_limit(&self, user_id: &str, config: RateLimitOverride) -> (r: HttpRequest)
        ensures
            self.client_spec().request_spec(r, Method::Post,
                user_path_of("/_synapse/admin/v1/users/"@, user_id@, "/override_ratelimit"@),
                Some(rate_limit_json(config))),
    {
        let path = user_path("/_synapse/admin/v1/users/", user_id, "/override_ratelimit");
        self.client.post(path.as_str(), config.to_json())
    }

    /// Removes the user's rate-limit override.
    pub fn delete_rate_limit(&self, user_id: &str) -> (r: HttpRequest)
        ensures
            self.client_spec().request_spec(r, Method::Delete,
                user_path_of("/_synapse/admin/v1/users/"@, user_id@, "/override_ratelimit"@), None),
    {
        let path = user_path("/_synapse/admin/v1/users/", user_id, "/override_ratelimit");
        self.client.delete(path.as_str())
    }
}

} // verus!
