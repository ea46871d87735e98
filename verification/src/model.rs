//! The data model: registered nodes, users, auth payloads, and the
//! request/response shapes of the HTTP surface. Timestamps are plain
//! epoch seconds; ids are UUID text (see `crate::ident`).

use crate::ident::is_uuid_text;
use vstd::prelude::*;

verus! {

#[derive(Clone, Copy, PartialEq, Eq, Structural, Debug)]
pub enum NodeType {
    Proxmox,
    Incus,
}

#[derive(Clone, Copy, PartialEq, Eq, Structural, Debug)]
pub enum NodeStatus {
    Online,
    Offline,
    Error,
}

#[derive(Clone, Copy, PartialEq, Eq, Structural, Debug)]
pub enum UserRole {
    Admin,
    User,
}

/// The gateway's error taxonomy; every failure surfaced to a caller
/// is one of these.
#[derive(Clone, Copy, PartialEq, Eq, Structural, Debug)]
pub enum GatewayError {
    /// Missing, invalid or expired token; unknown user.
    Unauthenticated,
    /// Insufficient role for the resource.
    Forbidden,
    /// Unknown node, VM or endpoint.
    NotFound,
    /// Malformed identifier or missing field.
    BadRequest,
    /// Duplicate username on register.
    Conflict,
    /// HTTP failure, TLS error or undecodable reply from a hypervisor.
    Upstream,
    /// A bounded wait ran out.
    Timeout,
}

impl GatewayError {
    /// The HTTP status the gateway answers with.
    pub fn status_code(&self) -> (r: u16)
        ensures
            r == self.spec_status_code(),
    {
        match self {
            GatewayError::Unauthenticated => 401,
            GatewayError::Forbidden => 403,
            GatewayError::NotFound => 404,
            GatewayError::BadRequest => 400,
            GatewayError::Conflict => 409,
            GatewayError::Upstream => 500,
            GatewayError::Timeout => 500,
        }
    }

    pub open spec fn spec_status_code(&self) -> u16 {
        match self {
            GatewayError::Unauthenticated => 401,
            GatewayError::Forbidden => 403,
            GatewayError::NotFound => 404,
            GatewayError::BadRequest => 400,
            GatewayError::Conflict => 409,
            GatewayError::Upstream => 500,
            GatewayError::Timeout => 500,
        }
    }
}

/// A registered hypervisor endpoint.
pub struct Node {
    pub id: String,
    pub name: String,
    pub node_type: NodeType,
    pub api_url: String,
    pub api_key: String,
    pub api_secret: Option<String>,
    pub status: NodeStatus,
    pub last_check: u64,
    pub created_at: u64,
}

impl Node {
    /// A well-formed record carries a UUID text id.
    pub open spec fn wf(&self) -> bool {
        is_uuid_text(self.id@)
    }

    /// This record with a partial update applied: each given field
    /// replaces its counterpart, absent fields keep theirs, and a
    /// given secret replaces the old one even when none was set.
    /// Identity, kind, liveness and timestamps never change here.
    pub fn merged_with(self, patch: UpdateNodeRequest) -> (r: Node)
        ensures
            r.name == (match patch.name {
                Some(n) => n,
                None => self.name,
            }),
            r.api_url == (match patch.api_url {
                Some(u) => u,
                None => self.api_url,
            }),
            r.api_key == (match patch.api_key {
                Some(k) => k,
                None => self.api_key,
            }),
            r.api_secret == (match patch.api_secret {
                Some(s) => Some(s),
                None => self.api_secret,
            }),
            r.id == self.id,
            r.node_type == self.node_type,
            r.status == self.status,
            r.last_check == self.last_check,
            r.created_at == self.created_at,
    {
        Node {
            name: match patch.name {
                Some(n) => n,
                None => self.name,
            },
            api_url: match patch.api_url {
                Some(u) => u,
                None => self.api_url,
            },
            api_key: match patch.api_key {
                Some(k) => k,
                None => self.api_key,
            },
            api_secret: match patch.api_secret {
                Some(s) => Some(s),
                None => self.api_secret,
            },
            id: self.id,
            node_type: self.node_type,
            status: self.status,
            last_check: self.last_check,
            created_at: self.created_at,
        }
    }
}

pub struct CreateNodeRequest {
    pub name: String,
    pub node_type: NodeType,
    pub api_url: String,
    pub api_key: String,
    pub api_secret: Option<String>,
}

pub struct UpdateNodeRequest {
    pub name: Option<String>,
    pub api_url: Option<String>,
    pub api_key: Option<String>,
    pub api_secret: Option<String>,
}

pub struct User {
    pub id: String,
    pub username: String,
    pub email: String,
    pub password_hash: String,
    pub role: UserRole,
    pub created_at: u64,
}

/// JWT claims: subject, expiry and issue time in epoch seconds.
pub struct Claims {
    pub sub: String,
    pub exp: u64,
    pub iat: u64,
}

pub struct LoginRequest {
    pub username: String,
    pub password: String,
}

pub struct RegisterRequest {
    pub username: String,
    pub email: String,
    pub password: String,
}

pub struct RefreshRequest {
    pub refresh_token: String,
}

pub struct UserInfo {
    pub id: String,
    pub username: String,
    pub email: String,
    pub role: UserRole,
}

pub struct AuthResponse {
    pub access_token: String,
    pub refresh_token: String,
    pub user: UserInfo,
}

pub struct AdminExistsResponse {
    pub exists: bool,
}

/// The resolved identity a passing auth check attaches to a request.
pub struct AuthUser {
    pub id: String,
    pub username: String,
    pub email: String,
    pub role: UserRole,
}

pub struct AuthUserExtension(pub AuthUser);

/// Marker for a rejected request; the gateway answers it with 401.
pub struct AuthError;

impl AuthError {
    pub fn status_code(&self) -> (r: u16)
        ensures
            r == 401,
    {
        401
    }
}

/// Live connection info for one console session, obtained just in
/// time from the hypervisor and valid for a single use.
pub struct VncInfo {
    pub url: String,
    pub ticket: String,
    pub port: u64,
}

pub struct VncTicketResponse {
    pub ticket: String,
    pub port: u64,
}

pub struct VncQuery {
    pub ticket: Option<String>,
    pub port: Option<u64>,
    pub token: Option<String>,
}

pub struct MetricsQuery {
    pub token: Option<String>,
    pub node_id: Option<String>,
}

pub struct PowerActionRequest {
    pub node_id: String,
    pub vm_id: String,
    pub action: String,
}

/// A configuration patch; `config` carries the caller's JSON text
/// unmodified.
pub struct UpdateConfigRequest {
    pub node_id: String,
    pub vm_id: String,
    pub config: String,
}

pub struct MediaRequest {
    pub node_id: String,
    pub vm_id: String,
    pub iso_path: String,
}

pub struct SupportMessageRequest {
    pub subject: String,
    pub message: String,
    pub priority: String,
}

pub struct SupportTicket {
    pub id: String,
    pub subject: String,
    pub message: String,
    pub priority: String,
    pub status: String,
    pub created_at: u64,
}

} // verus!
