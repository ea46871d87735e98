//! The aggregator: interpreting inventory replies, normalizing each
//! VM into the gateway's stable shape, and folding per-node outcomes
//! into status updates plus one combined list.
//!
//! A failing node is absorbed — its record transitions to `Error` and
//! its VMs are left out — and never fails the aggregate. Every record
//! that leaves the aggregator carries a non-empty `internal_id` that
//! routes back to the resource it came from.

use crate::jsonval::extract_first_node_name;
use crate::jsonval::extract_inventory;
use crate::jsonval::extract_member_text;
use crate::jsonval::first_cluster_node_of;
use crate::jsonval::inventory_entries;
use crate::jsonval::json_parses;
use crate::jsonval::member_text;
use crate::model::GatewayError;
use crate::model::Node;
use crate::model::NodeStatus;
use crate::model::NodeType;
use crate::strutil::string_eq;
use vstd::prelude::*;
use vstd::string::StringExecFns;

verus! {

/// Whether an upstream HTTP status code reports success.
pub open spec fn is_success_status(status: u16) -> bool {
    200 <= status < 300
}

/// The fields of one upstream inventory entry that normalization
/// reads; `raw` carries the whole entry as JSON text for fields the
/// gateway passes through untouched.
pub struct RawVm {
    /// The `type` member: `qemu` or `lxc` on Proxmox resources.
    pub vm_type: Option<String>,
    /// The cluster node's name (Proxmox).
    pub node: Option<String>,
    /// The resource id, `{type}/{vmid}` (Proxmox).
    pub id: Option<String>,
    /// The instance name (Incus).
    pub name: Option<String>,
    pub has_cpus: bool,
    /// JSON text of `maxcpu`, when present.
    pub maxcpu: Option<String>,
    /// JSON text of `cpu`, when present.
    pub cpu: Option<String>,
    pub has_memory: bool,
    /// JSON text of `maxmem`, when present.
    pub maxmem: Option<String>,
    /// The whole entry, JSON text.
    pub raw: String,
}

/// One normalized VM record as the aggregate returns it.
pub struct VmRecord {
    pub node_id: String,
    pub node_name: String,
    pub internal_id: String,
    /// JSON text to inject as `cpus`, when the entry lacked one.
    pub cpus: Option<String>,
    /// JSON text to inject as `memory`, when the entry lacked one.
    pub memory: Option<String>,
    /// The upstream entry as received, JSON text, unmodified.
    pub raw: String,
}

/// The reply member that carries the inventory: `data` for Proxmox,
/// `metadata` for Incus.
pub open spec fn list_key(node_type: NodeType) -> Seq<char> {
    match node_type {
        NodeType::Proxmox => "data"@,
        NodeType::Incus => "metadata"@,
    }
}

/// An inventory reply, interpreted: on a success status whose body
/// parses, exactly the entries of the reply's list member, each
/// reduced to its `RawVm` fields (a missing list member is an empty
/// inventory). A non-success status or an undecodable body is an
/// upstream error.
pub fn interpret_list_response(node_type: NodeType, status: u16, body: &[u8]) -> (r: Result<
    Vec<RawVm>,
    GatewayError,
>)
    ensures
        r is Ok <==> (is_success_status(status) && json_parses(body@)),
        r matches Ok(v) ==> v@ == inventory_entries(list_key(node_type), body@),
        r is Err ==> r == Err::<Vec<RawVm>, GatewayError>(GatewayError::Upstream),
{
    if !(200 <= status && status < 300) {
        return Err(GatewayError::Upstream);
    }
    let key: &str = match node_type {
        NodeType::Proxmox => "data",
        NodeType::Incus => "metadata",
    };
    match extract_inventory(key, body) {
        Some(v) => Ok(v),
        None => Err(GatewayError::Upstream),
    }
}

/// A health probe, interpreted: a success status means `Online`, any
/// other HTTP outcome means `Error`. (A transport failure never gets
/// here; the caller surfaces it separately.)
pub fn interpret_health(status: u16) -> (r: NodeStatus)
    ensures
        r == (if is_success_status(status) {
            NodeStatus::Online
        } else {
            NodeStatus::Error
        }),
{
    if 200 <= status && status < 300 {
        NodeStatus::Online
    } else {
        NodeStatus::Error
    }
}

/// A write operation's reply, interpreted: success statuses succeed, everything
/// else is an upstream error.
pub fn interpret_unit_response(status: u16) -> (r: Result<(), GatewayError>)
    ensures
        r is Ok <==> is_success_status(status),
        r is Err ==> r == Err::<(), GatewayError>(GatewayError::Upstream),
{
    if 200 <= status && status < 300 {
        Ok(())
    } else {
        Err(GatewayError::Upstream)
    }
}

/// A details reply, interpreted: on a success status whose body
/// parses, the configuration object under the reply's wrapper member
/// as JSON text — `null` when the wrapper is absent, matching the
/// upstream's own notion of a missing member. Anything else is an
/// upstream error.
pub fn interpret_details_response(node_type: NodeType, status: u16, body: &[u8]) -> (r: Result<
    String,
    GatewayError,
>)
    ensures
        r is Ok <==> (is_success_status(status) && json_parses(body@)),
        r matches Ok(t) ==> t@ == (match member_text(list_key(node_type), body@) {
            Some(x) => x,
            None => "null"@,
        }),
        r is Err ==> r == Err::<String, GatewayError>(GatewayError::Upstream),
{
    if !(200 <= status && status < 300) {
        return Err(GatewayError::Upstream);
    }
    let key: &str = match node_type {
        NodeType::Proxmox => "data",
        NodeType::Incus => "metadata",
    };
    match extract_member_text(key, body) {
        Some(Some(t)) => Ok(t),
        Some(None) => Ok(String::from_str("null")),
        None => Err(GatewayError::Upstream),
    }
}

/// A Proxmox cluster-nodes reply, interpreted: on a success status
/// whose body parses and lists at least one cluster node, that first
/// node's name, which labels the registered endpoint. Anything else
/// is an upstream error.
pub fn interpret_node_name_response(status: u16, body: &[u8]) -> (r: Result<String, GatewayError>)
    ensures
        r is Ok <==> (is_success_status(status) && json_parses(body@) && first_cluster_node_of(
            body@,
        ) is Some),
        r matches Ok(n) ==> Some(n@) == first_cluster_node_of(body@),
        r is Err ==> r == Err::<String, GatewayError>(GatewayError::Upstream),
{
    if !(200 <= status && status < 300) {
        return Err(GatewayError::Upstream);
    }
    match extract_first_node_name(body) {
        Some(Some(name)) => Ok(name),
        Some(None) => Err(GatewayError::Upstream),
        None => Err(GatewayError::Upstream),
    }
}

/// Which entries the aggregate includes: on Proxmox, guests
/// (`qemu`/`lxc` resources) whose node name and resource id are
/// present and non-empty; on Incus, instances with a non-empty name.
pub open spec fn spec_included(node_type: NodeType, raw: RawVm) -> bool {
    match node_type {
        NodeType::Proxmox => {
            &&& raw.vm_type matches Some(t) && (t@ == "qemu"@ || t@ == "lxc"@)
            &&& raw.node matches Some(n) && n@.len() > 0
            &&& raw.id matches Some(i) && i@.len() > 0
        },
        NodeType::Incus => raw.name matches Some(n) && n@.len() > 0,
    }
}

/// The entries of `raws` that the aggregate includes, in order.
pub open spec fn kept_entries(node_type: NodeType, raws: Seq<RawVm>) -> Seq<RawVm>
    decreases raws.len(),
{
    if raws.len() == 0 {
        Seq::empty()
    } else {
        let rest = kept_entries(node_type, raws.drop_last());
        if spec_included(node_type, raws.last()) {
            rest.push(raws.last())
        } else {
            rest
        }
    }
}

/// The stable identifier of an included entry.
pub open spec fn spec_internal_id(node_type: NodeType, raw: RawVm) -> Seq<char> {
    match node_type {
        NodeType::Proxmox => raw.node->0@ + seq!['/'] + raw.id->0@,
        NodeType::Incus => raw.name->0@,
    }
}

/// The `cpus` value normalization injects: nothing when the entry
/// already has one, else the first of `maxcpu` and `cpu` present.
pub open spec fn spec_cpus_fill(raw: RawVm) -> Option<String> {
    if raw.has_cpus {
        None
    } else if raw.maxcpu is Some {
        raw.maxcpu
    } else {
        raw.cpu
    }
}

/// The `memory` value normalization injects: `maxmem`, but only when
/// the entry lacks a `memory` member.
pub open spec fn spec_memory_fill(raw: RawVm) -> Option<String> {
    if raw.has_memory {
        None
    } else {
        raw.maxmem
    }
}

/// The normalized record of one included entry under a given node.
pub open spec fn record_matches(node: &Node, raw: RawVm, v: VmRecord) -> bool {
    &&& v.node_id@ == node.id@
    &&& v.node_name@ == node.name@
    &&& v.internal_id@ == spec_internal_id(node.node_type, raw)
    &&& v.internal_id@.len() > 0
    &&& v.cpus == spec_cpus_fill(raw)
    &&& v.memory == spec_memory_fill(raw)
    &&& v.raw@ == raw.raw@
}

/// Normalize one entry: `None` exactly when the aggregate leaves the
/// entry out.
pub fn normalize_vm(node: &Node, raw: RawVm) -> (r: Option<VmRecord>)
    ensures
        r is Some <==> spec_included(node.node_type, raw),
        r matches Some(v) ==> record_matches(node, raw, v),
{
    match node.node_type {
        NodeType::Proxmox => {
            let type_ok = match &raw.vm_type {
                Some(t) => string_eq(t, "qemu") || string_eq(t, "lxc"),
                None => false,
            };
            if !type_ok {
                return None;
            }
            let node_name = match &raw.node {
                Some(n) => {
                    if n.as_str().is_empty() {
                        return None;
                    }
                    n.clone()
                },
                None => {
                    return None;
                },
            };
            let resource_id = match &raw.id {
                Some(i) => {
                    if i.as_str().is_empty() {
                        return None;
                    }
                    i.clone()
                },
                None => {
                    return None;
                },
            };
            let internal_id = crate::ident::proxmox_internal_id(
                node_name.as_str(),
                resource_id.as_str(),
            );
            Some(
                VmRecord {
                    node_id: node.id.clone(),
                    node_name: node.name.clone(),
                    internal_id,
                    cpus: if raw.has_cpus {
                        None
                    } else if raw.maxcpu.is_some() {
                        raw.maxcpu
                    } else {
                        raw.cpu
                    },
                    memory: if raw.has_memory {
                        None
                    } else {
                        raw.maxmem
                    },
                    raw: raw.raw,
                },
            )
        },
        NodeType::Incus => {
            let name = match &raw.name {
                Some(n) => {
                    if n.as_str().is_empty() {
                        return None;
                    }
                    n.clone()
                },
                None => {
                    return None;
                },
            };
            Some(
                VmRecord {
                    node_id: node.id.clone(),
                    node_name: node.name.clone(),
                    internal_id: name,
                    cpus: if raw.has_cpus {
                        None
                    } else if raw.maxcpu.is_some() {
                        raw.maxcpu
                    } else {
                        raw.cpu
                    },
                    memory: if raw.has_memory {
                        None
                    } else {
                        raw.maxmem
                    },
                    raw: raw.raw,
                },
            )
        },
    }
}

/// Every record the aggregator hands out routes back to its own
/// guest: for a Proxmox entry whose cluster node name is slash-free
/// and whose resource id is `{type}/{vmid}` with slash-free parts,
/// planning any per-VM operation on the record's `internal_id`
/// targets exactly the guest path the entry came from.
pub proof fn lemma_record_routes_back(
    node: &Node,
    raw: RawVm,
    v: VmRecord,
    api: Seq<char>,
    ty: Seq<char>,
    vmid: Seq<char>,
)
    requires
        node.node_type == NodeType::Proxmox,
        spec_included(NodeType::Proxmox, raw),
        record_matches(node, raw, v),
        !raw.node->0@.contains('/'),
        raw.id->0@ == ty + seq!['/'] + vmid,
        !ty.contains('/'),
        !vmid.contains('/'),
    ensures
        crate::urls::proxmox_guest_path_of(api, v.internal_id@) == crate::urls::proxmox_guest_path(
            api,
            raw.node->0@,
            ty,
            vmid,
        ),
{
    assert(v.internal_id@ == raw.node->0@ + seq!['/'] + (ty + seq!['/'] + vmid));
    crate::urls::lemma_internal_id_targets_guest(api, raw.node->0@, ty, vmid);
}

/// The liveness transition one node record takes after a fetch.
pub struct StatusUpdate {
    pub node_id: String,
    pub status: NodeStatus,
}

/// Fold one node's inventory outcome: a successful fetch marks the
/// node `Online` and contributes its normalized records in order; a
/// failed fetch marks it `Error` and contributes nothing. The failure
/// itself is absorbed, never propagated.
pub fn aggregate_node(node: &Node, outcome: Result<Vec<RawVm>, GatewayError>) -> (r: (
    StatusUpdate,
    Vec<VmRecord>,
))
    ensures
        r.0.node_id@ == node.id@,
        outcome is Err ==> r.0.status == NodeStatus::Error && r.1@.len() == 0,
        outcome is Ok ==> r.0.status == NodeStatus::Online,
        outcome matches Ok(raws) ==> {
            let kept = kept_entries(node.node_type, raws@);
            &&& r.1@.len() == kept.len()
            &&& forall|k: int|
                0 <= k < kept.len() ==> record_matches(node, kept[k], #[trigger] r.1@[k])
        },
{
    match outcome {
        Err(_) => (
            StatusUpdate { node_id: node.id.clone(), status: NodeStatus::Error },
            Vec::new(),
        ),
        Ok(raws) => {
            let ghost all = raws@;
            let mut out: Vec<VmRecord> = Vec::new();
            let mut rest = raws;
            let ghost mut consumed: int = 0;
            proof {
                assert(all.take(0) =~= Seq::<RawVm>::empty());
                assert(all.skip(0) =~= all);
            }
            while rest.len() > 0
                invariant
                    0 <= consumed <= all.len(),
                    consumed + rest@.len() == all.len(),
                    rest@ == all.skip(consumed),
                    out@.len() == kept_entries(node.node_type, all.take(consumed)).len(),
                    forall|k: int|
                        0 <= k < out@.len() ==> record_matches(
                            node,
                            kept_entries(node.node_type, all.take(consumed))[k],
                            #[trigger] out@[k],
                        ),
                decreases rest@.len(),
            {
                let raw = rest.remove(0);
                proof {
                    assert(raw == all[consumed]);
                    assert(rest@ =~= all.skip(consumed + 1));
                    assert(all.take(consumed + 1).drop_last() =~= all.take(consumed));
                    assert(all.take(consumed + 1).last() == all[consumed]);
                }
                match normalize_vm(node, raw) {
                    Some(v) => {
                        out.push(v);
                        proof {
                            assert(spec_included(node.node_type, all[consumed]));
                            assert(kept_entries(node.node_type, all.take(consumed + 1))
                                =~= kept_entries(node.node_type, all.take(consumed)).push(
                                all[consumed],
                            ));
                        }
                    },
                    None => {
                        proof {
                            assert(!spec_included(node.node_type, all[consumed]));
                            assert(kept_entries(node.node_type, all.take(consumed + 1))
                                =~= kept_entries(node.node_type, all.take(consumed)));
                        }
                    },
                }
                proof {
                    consumed = consumed + 1;
                }
            }
            proof {
                assert(all.take(consumed) =~= all);
            }
            (StatusUpdate { node_id: node.id.clone(), status: NodeStatus::Online }, out)
        },
    }
}

} // verus!
