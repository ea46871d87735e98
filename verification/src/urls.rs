//! Upstream request planning: for every operation of the node-client
//! interface, the exact method, URL, body and authorization header
//! that must go to the hypervisor, for both REST dialects.
//!
//! Proxmox routes through `/api2/json/...` and authenticates with a
//! `PVEAPIToken` header; Incus routes through `/1.0/...`. The planned
//! request is returned as plain values; the transport that sends it
//! lives outside the library.

use crate::ident::parse_vm_path;
use crate::ident::vm_path_node;
use crate::ident::vm_path_type;
use crate::ident::vm_path_vmid;
use crate::model::Node;
use crate::model::NodeType;
use crate::pct::hex_digit;
use vstd::prelude::*;
use vstd::string::StrSliceExecFns;
use vstd::string::StringExecFns;

verus! {

#[derive(Clone, Copy, PartialEq, Eq, Structural, Debug)]
pub enum HttpMethod {
    Get,
    Post,
    Put,
    Patch,
}

/// One fully planned upstream call.
pub struct UpstreamRequest {
    pub method: HttpMethod,
    pub url: String,
    /// JSON text to send, if the operation carries a body.
    pub body: Option<String>,
    /// Value for the `Authorization` header, if one is required.
    pub auth_header: Option<String>,
}

/// The `Authorization` value Proxmox expects on every call.
pub open spec fn proxmox_auth_value(key: Seq<char>, secret: Seq<char>) -> Seq<char> {
    "PVEAPIToken="@ + key + "="@ + secret
}

/// The token value of a node: its secret, or empty when none is set.
pub open spec fn node_secret(node: &Node) -> Seq<char> {
    match node.api_secret {
        Some(s) => s@,
        None => Seq::empty(),
    }
}

pub fn proxmox_auth_header(key: &str, secret: &str) -> (r: String)
    ensures
        r@ == proxmox_auth_value(key@, secret@),
{
    let mut out = String::from_str("PVEAPIToken=");
    out.append(key);
    out.append("=");
    out.append(secret);
    proof {
        assert(out@ =~= proxmox_auth_value(key@, secret@));
    }
    out
}

fn node_auth_header(node: &Node) -> (r: Option<String>)
    ensures
        node.node_type == NodeType::Proxmox ==> (r matches Some(h) && h@ == proxmox_auth_value(
            node.api_key@,
            node_secret(node),
        )),
        node.node_type == NodeType::Incus ==> r is None,
{
    match node.node_type {
        NodeType::Proxmox => {
            let secret: &str = match &node.api_secret {
                Some(s) => s.as_str(),
                None => "",
            };
            proof {
                reveal_strlit("");
                assert(secret@ =~= node_secret(node));
            }
            Some(proxmox_auth_header(node.api_key.as_str(), secret))
        },
        NodeType::Incus => None,
    }
}

// --- JSON string escaping ---
/// The escape of one character inside a JSON string literal.
pub open spec fn json_escape_char(c: char) -> Seq<char> {
    if c == '"' {
        seq!['\\', '"']
    } else if c == '\\' {
        seq!['\\', '\\']
    } else if c == '\n' {
        seq!['\\', 'n']
    } else if c == '\r' {
        seq!['\\', 'r']
    } else if c == '\t' {
        seq!['\\', 't']
    } else if (c as u32) < 0x20 {
        seq!['\\', 'u', '0', '0', hex_digit((c as u32 / 16) as nat), hex_digit((c as u32 % 16) as nat)]
    } else {
        seq![c]
    }
}

/// `s` escaped for use inside a JSON string literal.
pub open spec fn json_escape(s: Seq<char>) -> Seq<char>
    decreases s.len(),
{
    if s.len() == 0 {
        Seq::empty()
    } else {
        json_escape_char(s[0]) + json_escape(s.skip(1))
    }
}

/// `s` as a JSON string literal, quotes included.
pub open spec fn json_quoted(s: Seq<char>) -> Seq<char> {
    seq!['"'] + json_escape(s) + seq!['"']
}

pub fn json_escape_str(s: &str) -> (r: String)
    ensures
        r@ == json_escape(s@),
{
    let len = s.unicode_len();
    let mut out = String::new();
    let mut i: usize = 0;
    proof {
        assert(s@.skip(0) =~= s@);
    }
    while i < len
        invariant
            len == s@.len(),
            i <= len,
            out@ + json_escape(s@.skip(i as int)) == json_escape(s@),
        decreases len - i,
    {
        let ghost rem = s@.skip(i as int);
        proof {
            assert(rem[0] == s@[i as int]);
            assert(rem.skip(1) =~= s@.skip(i + 1));
        }
        let c = s.get_char(i);
        let u = c as u32;
        if c == '"' {
            out.push('\\');
            out.push('"');
        } else if c == '\\' {
            out.push('\\');
            out.push('\\');
        } else if c == '\n' {
            out.push('\\');
            out.push('n');
        } else if c == '\r' {
            out.push('\\');
            out.push('r');
        } else if c == '\t' {
            out.push('\\');
            out.push('t');
        } else if u < 0x20 {
            let table = "0123456789ABCDEF";
            proof {
                reveal_strlit("0123456789ABCDEF");
            }
            out.push('\\');
            out.push('u');
            out.push('0');
            out.push('0');
            let hi = (u / 16) as usize;
            let lo = (u % 16) as usize;
            out.append(table.substring_char(hi, hi + 1));
            out.append(table.substring_char(lo, lo + 1));
        } else {
            out.push(c);
        }
        proof {
            assert(out@ + json_escape(s@.skip(i + 1)) =~= json_escape(s@));
        }
        i = i + 1;
    }
    proof {
        assert(s@.skip(len as int) =~= Seq::<char>::empty());
        assert(out@ =~= json_escape(s@));
    }
    out
}

fn append_json_quoted(out: &mut String, s: &str)
    ensures
        final(out)@ == old(out)@ + json_quoted(s@),
{
    out.push('"');
    let esc = json_escape_str(s);
    out.append(esc.as_str());
    out.push('"');
    proof {
        assert(out@ =~= old(out)@ + json_quoted(s@));
    }
}

// --- URL shapes ---
/// `{api}/api2/json/nodes/{node}/{type}/{vmid}` — the base path of one
/// Proxmox guest.
pub open spec fn proxmox_guest_path(
    api: Seq<char>,
    node: Seq<char>,
    ty: Seq<char>,
    vmid: Seq<char>,
) -> Seq<char> {
    api + "/api2/json/nodes/"@ + node + "/"@ + ty + "/"@ + vmid
}

fn build_proxmox_guest_path(api: &str, node: &str, ty: &str, vmid: &str) -> (r: String)
    ensures
        r@ == proxmox_guest_path(api@, node@, ty@, vmid@),
{
    let mut out = String::from_str(api);
    out.append("/api2/json/nodes/");
    out.append(node);
    out.append("/");
    out.append(ty);
    out.append("/");
    out.append(vmid);
    proof {
        assert(out@ =~= proxmox_guest_path(api@, node@, ty@, vmid@));
    }
    out
}

/// The guest base path of the vm the wire identifier `vm_id` routes to.
pub open spec fn proxmox_guest_path_of(api: Seq<char>, vm_id: Seq<char>) -> Seq<char> {
    proxmox_guest_path(api, vm_path_node(vm_id), vm_path_type(vm_id), vm_path_vmid(vm_id))
}

fn build_proxmox_guest_path_of(api: &str, vm_id: &str) -> (r: String)
    ensures
        r@ == proxmox_guest_path_of(api@, vm_id@),
{
    let path = parse_vm_path(vm_id);
    build_proxmox_guest_path(api, path.node.as_str(), path.vm_type.as_str(), path.vmid.as_str())
}

/// An internal id the aggregator built from a slash-free node name
/// and a `{type}/{vmid}` resource id routes every per-VM operation to
/// that same guest: the planned path equals the guest's own path.
pub proof fn lemma_internal_id_targets_guest(
    api: Seq<char>,
    node: Seq<char>,
    ty: Seq<char>,
    vmid: Seq<char>,
)
    requires
        !node.contains('/'),
        !ty.contains('/'),
        !vmid.contains('/'),
    ensures
        proxmox_guest_path_of(api, node + seq!['/'] + (ty + seq!['/'] + vmid))
            == proxmox_guest_path(api, node, ty, vmid),
{
    let id = node + seq!['/'] + (ty + seq!['/'] + vmid);
    assert(id =~= node + seq!['/'] + ty + seq!['/'] + vmid);
    crate::ident::lemma_internal_id_routes(node, ty, vmid);
}

// --- bodies ---
/// `{"action":"{action}","timeout":30,"force":true}`
pub open spec fn incus_power_body(action: Seq<char>) -> Seq<char> {
    "{\"action\":"@ + json_quoted(action) + ",\"timeout\":30,\"force\":true}"@
}

/// `{"ide2":"{iso},media=cdrom"}`
pub open spec fn proxmox_media_body(iso: Seq<char>) -> Seq<char> {
    "{\"ide2\":"@ + json_quoted(iso + ",media=cdrom"@) + "}"@
}

/// `{"devices":{"cdrom":{"type":"disk","source":"{iso}","path":"/dev/cdrom"}}}`
pub open spec fn incus_media_body(iso: Seq<char>) -> Seq<char> {
    "{\"devices\":{\"cdrom\":{\"type\":\"disk\",\"source\":"@ + json_quoted(iso)
        + ",\"path\":\"/dev/cdrom\"}}}"@
}

// --- operation plans ---
/// Health probe: 2xx from this endpoint means the node is up.
pub fn plan_check_health(node: &Node) -> (r: UpstreamRequest)
    ensures
        r.method == HttpMethod::Get,
        r.body is None,
        node.node_type == NodeType::Proxmox ==> r.url@ == node.api_url@ + "/api2/json/version"@,
        node.node_type == NodeType::Incus ==> r.url@ == node.api_url@ + "/1.0"@,
        auth_matches_node(node, &r),
{
    let mut url = String::from_str(node.api_url.as_str());
    match node.node_type {
        NodeType::Proxmox => url.append("/api2/json/version"),
        NodeType::Incus => url.append("/1.0"),
    }
    UpstreamRequest { method: HttpMethod::Get, url, body: None, auth_header: node_auth_header(node) }
}

/// The planned header authenticates as the node requires: the
/// `PVEAPIToken` pair for Proxmox, nothing for Incus.
pub open spec fn auth_matches_node(node: &Node, r: &UpstreamRequest) -> bool {
    &&& node.node_type == NodeType::Proxmox ==> (r.auth_header matches Some(h) && h@
        == proxmox_auth_value(node.api_key@, node_secret(node)))
    &&& node.node_type == NodeType::Incus ==> r.auth_header is None
}

/// Inventory listing: Proxmox lists cluster resources, Incus lists
/// instances with full detail.
pub fn plan_list_vms(node: &Node) -> (r: UpstreamRequest)
    ensures
        r.method == HttpMethod::Get,
        r.body is None,
        node.node_type == NodeType::Proxmox ==> r.url@ == node.api_url@
            + "/api2/json/cluster/resources"@,
        node.node_type == NodeType::Incus ==> r.url@ == node.api_url@
            + "/1.0/instances?recursion=1"@,
        auth_matches_node(node, &r),
{
    let mut url = String::from_str(node.api_url.as_str());
    match node.node_type {
        NodeType::Proxmox => url.append("/api2/json/cluster/resources"),
        NodeType::Incus => url.append("/1.0/instances?recursion=1"),
    }
    UpstreamRequest { method: HttpMethod::Get, url, body: None, auth_header: node_auth_header(node) }
}

/// Power transition for one guest: `start`, `stop`, `shutdown`,
/// `reset` or `reboot`.
pub fn plan_power_action(node: &Node, vm_id: &str, action: &str) -> (r: UpstreamRequest)
    ensures
        node.node_type == NodeType::Proxmox ==> {
            &&& r.method == HttpMethod::Post
            &&& r.url@ == proxmox_guest_path_of(node.api_url@, vm_id@) + "/status/"@ + action@
            &&& r.body is None
        },
        node.node_type == NodeType::Incus ==> {
            &&& r.method == HttpMethod::Put
            &&& r.url@ == node.api_url@ + "/1.0/instances/"@ + vm_id@ + "/state"@
            &&& r.body matches Some(b) && b@ == incus_power_body(action@)
        },
        auth_matches_node(node, &r),
{
    match node.node_type {
        NodeType::Proxmox => {
            let mut url = build_proxmox_guest_path_of(node.api_url.as_str(), vm_id);
            url.append("/status/");
            url.append(action);
            proof {
                assert(url@ =~= proxmox_guest_path_of(node.api_url@, vm_id@) + "/status/"@
                    + action@);
            }
            UpstreamRequest {
                method: HttpMethod::Post,
                url,
                body: None,
                auth_header: node_auth_header(node),
            }
        },
        NodeType::Incus => {
            let mut url = String::from_str(node.api_url.as_str());
            url.append("/1.0/instances/");
            url.append(vm_id);
            url.append("/state");
            let mut body = String::from_str("{\"action\":");
            append_json_quoted(&mut body, action);
            body.append(",\"timeout\":30,\"force\":true}");
            proof {
                assert(url@ =~= node.api_url@ + "/1.0/instances/"@ + vm_id@ + "/state"@);
                assert(body@ =~= incus_power_body(action@));
            }
            UpstreamRequest {
                method: HttpMethod::Put,
                url,
                body: Some(body),
                auth_header: node_auth_header(node),
            }
        },
    }
}

/// Configuration patch; `config_json` is the caller's JSON text and is
/// forwarded unchanged.
pub fn plan_update_config(node: &Node, vm_id: &str, config_json: &str) -> (r: UpstreamRequest)
    ensures
        node.node_type == NodeType::Proxmox ==> {
            &&& r.method == HttpMethod::Post
            &&& r.url@ == proxmox_guest_path_of(node.api_url@, vm_id@) + "/config"@
        },
        node.node_type == NodeType::Incus ==> {
            &&& r.method == HttpMethod::Patch
            &&& r.url@ == node.api_url@ + "/1.0/instances/"@ + vm_id@
        },
        r.body matches Some(b) && b@ == config_json@,
        auth_matches_node(node, &r),
{
    match node.node_type {
        NodeType::Proxmox => {
            let mut url = build_proxmox_guest_path_of(node.api_url.as_str(), vm_id);
            url.append("/config");
            UpstreamRequest {
                method: HttpMethod::Post,
                url,
                body: Some(String::from_str(config_json)),
                auth_header: node_auth_header(node),
            }
        },
        NodeType::Incus => {
            let mut url = String::from_str(node.api_url.as_str());
            url.append("/1.0/instances/");
            url.append(vm_id);
            proof {
                assert(url@ =~= node.api_url@ + "/1.0/instances/"@ + vm_id@);
            }
            UpstreamRequest {
                method: HttpMethod::Patch,
                url,
                body: Some(String::from_str(config_json)),
                auth_header: node_auth_header(node),
            }
        },
    }
}

/// Read-only configuration fetch.
pub fn plan_get_details(node: &Node, vm_id: &str) -> (r: UpstreamRequest)
    ensures
        r.method == HttpMethod::Get,
        r.body is None,
        node.node_type == NodeType::Proxmox ==> r.url@ == proxmox_guest_path_of(
            node.api_url@,
            vm_id@,
        ) + "/config"@,
        node.node_type == NodeType::Incus ==> r.url@ == node.api_url@ + "/1.0/instances/"@
            + vm_id@,
        auth_matches_node(node, &r),
{
    match node.node_type {
        NodeType::Proxmox => {
            let mut url = build_proxmox_guest_path_of(node.api_url.as_str(), vm_id);
            url.append("/config");
            UpstreamRequest {
                method: HttpMethod::Get,
                url,
                body: None,
                auth_header: node_auth_header(node),
            }
        },
        NodeType::Incus => {
            let mut url = String::from_str(node.api_url.as_str());
            url.append("/1.0/instances/");
            url.append(vm_id);
            proof {
                assert(url@ =~= node.api_url@ + "/1.0/instances/"@ + vm_id@);
            }
            UpstreamRequest {
                method: HttpMethod::Get,
                url,
                body: None,
                auth_header: node_auth_header(node),
            }
        },
    }
}

/// Attach an ISO: a Proxmox config patch on `ide2`, an Incus `cdrom`
/// disk device rooted at `/dev/cdrom`.
pub fn plan_mount_media(node: &Node, vm_id: &str, iso_path: &str) -> (r: UpstreamRequest)
    ensures
        node.node_type == NodeType::Proxmox ==> {
            &&& r.method == HttpMethod::Post
            &&& r.url@ == proxmox_guest_path_of(node.api_url@, vm_id@) + "/config"@
            &&& r.body matches Some(b) && b@ == proxmox_media_body(iso_path@)
        },
        node.node_type == NodeType::Incus ==> {
            &&& r.method == HttpMethod::Patch
            &&& r.url@ == node.api_url@ + "/1.0/instances/"@ + vm_id@
            &&& r.body matches Some(b) && b@ == incus_media_body(iso_path@)
        },
        auth_matches_node(node, &r),
{
    match node.node_type {
        NodeType::Proxmox => {
            let mut url = build_proxmox_guest_path_of(node.api_url.as_str(), vm_id);
            url.append("/config");
            let mut value = String::from_str(iso_path);
            value.append(",media=cdrom");
            let mut body = String::from_str("{\"ide2\":");
            append_json_quoted(&mut body, value.as_str());
            body.append("}");
            proof {
                assert(body@ =~= proxmox_media_body(iso_path@));
            }
            UpstreamRequest {
                method: HttpMethod::Post,
                url,
                body: Some(body),
                auth_header: node_auth_header(node),
            }
        },
        NodeType::Incus => {
            let mut url = String::from_str(node.api_url.as_str());
            url.append("/1.0/instances/");
            url.append(vm_id);
            let mut body = String::from_str("{\"devices\":{\"cdrom\":{\"type\":\"disk\",\"source\":");
            append_json_quoted(&mut body, iso_path);
            body.append(",\"path\":\"/dev/cdrom\"}}}");
            proof {
                assert(url@ =~= node.api_url@ + "/1.0/instances/"@ + vm_id@);
                assert(body@ =~= incus_media_body(iso_path@));
            }
            UpstreamRequest {
                method: HttpMethod::Patch,
                url,
                body: Some(body),
                auth_header: node_auth_header(node),
            }
        },
    }
}

/// VNC ticket request for one guest: a Proxmox `vncproxy` call asking
/// for a websocket-capable ticket. Incus has no ticket endpoint.
pub fn plan_vnc_ticket(node: &Node, vm_id: &str) -> (r: Option<UpstreamRequest>)
    ensures
        node.node_type == NodeType::Proxmox ==> (r matches Some(q) && {
            &&& q.method == HttpMethod::Post
            &&& q.url@ == proxmox_guest_path_of(node.api_url@, vm_id@) + "/vncproxy"@
            &&& q.body matches Some(b) && b@ == "{\"websocket\":1}"@
            &&& auth_matches_node(node, &q)
        }),
        node.node_type == NodeType::Incus ==> r is None,
{
    match node.node_type {
        NodeType::Proxmox => {
            let mut url = build_proxmox_guest_path_of(node.api_url.as_str(), vm_id);
            url.append("/vncproxy");
            Some(
                UpstreamRequest {
                    method: HttpMethod::Post,
                    url,
                    body: Some(String::from_str("{\"websocket\":1}")),
                    auth_header: node_auth_header(node),
                },
            )
        },
        NodeType::Incus => None,
    }
}

/// The cluster-nodes listing a Proxmox endpoint is labelled from:
/// the first entry's name becomes the registered node's name.
pub fn plan_cluster_nodes(node: &Node) -> (r: UpstreamRequest)
    ensures
        r.method == HttpMethod::Get,
        r.body is None,
        r.url@ == node.api_url@ + "/api2/json/nodes"@,
        auth_matches_node(node, &r),
{
    let mut url = String::from_str(node.api_url.as_str());
    url.append("/api2/json/nodes");
    UpstreamRequest { method: HttpMethod::Get, url, body: None, auth_header: node_auth_header(node) }
}

/// The node status endpoint sampled by the metrics loop.
pub fn plan_node_status(node: &Node) -> (r: UpstreamRequest)
    ensures
        r.method == HttpMethod::Get,
        r.body is None,
        r.url@ == node.api_url@ + "/api2/json/nodes/"@ + node.name@ + "/status"@,
        auth_matches_node(node, &r),
{
    let mut url = String::from_str(node.api_url.as_str());
    url.append("/api2/json/nodes/");
    url.append(node.name.as_str());
    url.append("/status");
    proof {
        assert(url@ =~= node.api_url@ + "/api2/json/nodes/"@ + node.name@ + "/status"@);
    }
    UpstreamRequest { method: HttpMethod::Get, url, body: None, auth_header: node_auth_header(node) }
}

} // verus!
