//! Authentication state, request assembly and endpoint bindings for the
//! administrative console of a Matrix homeserver.
//!
//! Everything that decides something lives here and is verified: URL
//! composition, bearer-token injection, response classification, query
//! strings, request bodies, the authentication state machine and the
//! persisted credentials. Sending requests, decoding response bodies into
//! the record types and touching browser storage are left to the caller.

pub mod api;
pub mod auth;
pub mod json;
pub mod state;
pub mod text;
pub mod users;

pub use api::{ApiClient, ApiError, ApiResponse, HttpRequest, Method};
pub use auth::{AuthApi, HomeserverInfo, Identifier, LoginRequest, LoginResponse, WellKnown};
pub use state::{check_login_form, unauthorized_message, AuthContext, AuthState, Storage, StorageKey};
pub use text::{contains, decimal, starts_with, trim_end_slash, trim_start_slash};
pub use users::{
    AccountData, ConnectionInfo, CreateUserRequest, DeviceSessions, ExternalId, JoinedRoomsResponse,
    Pusher, PushersResponse, RateLimitOverride, ResetPasswordRequest, SessionInfo, ThreePid,
    UserDetail, UserInfo, UserListParams, UserListResponse, UsersApi, WhoisResponse,
};
