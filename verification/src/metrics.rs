//! The metrics loop's decisions: which nodes one subscription
//! samples, how a Proxmox node-status reply turns into one sample
//! frame, and the fixed-point percentage arithmetic behind it.
//!
//! The frame carries percentages in basis points (one hundredth of a
//! percent); presentation scales them. Incus sampling is a
//! placeholder and its frames say so explicitly, so a reader can tell
//! "no data" from "idle".

use crate::ident::is_uuid_text;
use crate::ident::uuid_text_ok;
use crate::jsonval::extract_status_fields;
use crate::jsonval::node_status_of;
use crate::model::Node;
use crate::model::NodeType;
use vstd::prelude::*;

verus! {

/// `used` of `total`, in basis points: zero on an empty total, capped
/// at ten thousand when `used` exceeds `total`.
pub open spec fn spec_ratio_bp(used: u64, total: u64) -> u64 {
    if total == 0 {
        0
    } else if used >= total {
        10000
    } else {
        ((used * 10000) / (total as int)) as u64
    }
}

pub fn ratio_bp(used: u64, total: u64) -> (r: u64)
    ensures
        r == spec_ratio_bp(used, total),
        r <= 10000,
{
    if total == 0 {
        0
    } else if used >= total {
        10000
    } else {
        let wide = (used as u128) * 10000;
        let q = wide / (total as u128);
        proof {
            assert(used * 10000 < total * 10000) by (nonlinear_arith)
                requires
                    used < total,
            ;
            assert(used * 10000 / (total as int) < 10000) by (nonlinear_arith)
                requires
                    0 < total,
                    used * 10000 < total * 10000,
            ;
        }
        q as u64
    }
}

/// The fields the metrics loop reads from one Proxmox
/// `nodes/{name}/status` reply.
pub struct NodeStatusFields {
    /// Whether the reply carried a `cpu` member (a load fraction the
    /// presentation layer scales itself).
    pub has_cpu: bool,
    pub mem_used: Option<u64>,
    pub mem_total: Option<u64>,
    pub rootfs_used: Option<u64>,
    pub rootfs_total: Option<u64>,
    pub uptime: Option<u64>,
}

/// Read the memory, root filesystem and uptime members out of a
/// status reply: exactly the named members of the reply's `data`
/// wrapper; `None` when the reply is not JSON or lacks the wrapper.
pub fn extract_node_status(body: &[u8]) -> (r: Option<NodeStatusFields>)
    ensures
        r == node_status_of(body@),
{
    extract_status_fields(body)
}

/// One sample frame pushed to a subscriber, one per node per tick.
pub struct MetricsFrame {
    /// Memory in use, basis points of total; zero when the reply
    /// lacked the fields.
    pub ram_bp: u64,
    /// Root filesystem in use, basis points; absent when the reply
    /// lacked the fields or reported an empty filesystem.
    pub disk_bp: Option<u64>,
    /// Seconds of uptime, passed through.
    pub uptime: Option<u64>,
    pub node_id: String,
    pub node_name: String,
    /// True when the backend's sampling is not implemented and the
    /// zeros are fillers, not measurements.
    pub placeholder: bool,
}

/// The memory rule: both fields present with a non-zero total give
/// the ratio; anything else reads as zero.
pub open spec fn spec_ram_bp(f: NodeStatusFields) -> u64 {
    if f.mem_used is Some && f.mem_total is Some {
        spec_ratio_bp(f.mem_used->0, f.mem_total->0)
    } else {
        0
    }
}

/// The disk rule: both fields present with a non-zero total give the
/// ratio; anything else gives no value at all.
pub open spec fn spec_disk_bp(f: NodeStatusFields) -> Option<u64> {
    if f.rootfs_used is Some && f.rootfs_total is Some && f.rootfs_total->0 > 0 {
        Some(spec_ratio_bp(f.rootfs_used->0, f.rootfs_total->0))
    } else {
        None
    }
}

/// Fold one Proxmox status reply into a sample frame for `node`.
pub fn proxmox_metrics_frame(node: &Node, f: &NodeStatusFields) -> (r: MetricsFrame)
    ensures
        r.ram_bp == spec_ram_bp(*f),
        r.disk_bp == spec_disk_bp(*f),
        r.uptime == f.uptime,
        r.node_id@ == node.id@,
        r.node_name@ == node.name@,
        !r.placeholder,
{
    let ram_bp = match (&f.mem_used, &f.mem_total) {
        (Some(u), Some(t)) => ratio_bp(*u, *t),
        _ => 0,
    };
    let disk_bp = match (&f.rootfs_used, &f.rootfs_total) {
        (Some(u), Some(t)) => {
            if *t > 0 {
                Some(ratio_bp(*u, *t))
            } else {
                None
            }
        },
        _ => None,
    };
    MetricsFrame {
        ram_bp,
        disk_bp,
        uptime: f.uptime,
        node_id: node.id.clone(),
        node_name: node.name.clone(),
        placeholder: false,
    }
}

/// The Incus placeholder frame: all zeros, and marked as such.
pub fn incus_metrics_frame(node: &Node) -> (r: MetricsFrame)
    ensures
        r.ram_bp == 0,
        r.disk_bp is None,
        r.uptime is None,
        r.node_id@ == node.id@,
        r.node_name@ == node.name@,
        r.placeholder,
{
    MetricsFrame {
        ram_bp: 0,
        disk_bp: None,
        uptime: None,
        node_id: node.id.clone(),
        node_name: node.name.clone(),
        placeholder: true,
    }
}

/// Which backend's sampler a node gets.
pub fn node_uses_placeholder_metrics(node: &Node) -> (r: bool)
    ensures
        r == (node.node_type == NodeType::Incus),
{
    match node.node_type {
        NodeType::Proxmox => false,
        NodeType::Incus => true,
    }
}

/// What one subscription samples each tick.
pub enum MetricsScope {
    /// No filter: every registered node.
    AllNodes,
    /// A `node_id` filter naming one node.
    OneNode(String),
    /// A filter that is not a UUID: the subscription ends.
    Invalid,
}

/// Resolve the optional `node_id` query filter.
pub fn metrics_scope(filter: &Option<String>) -> (r: MetricsScope)
    ensures
        filter is None ==> r is AllNodes,
        (filter matches Some(f) && is_uuid_text(f@)) ==> (r matches MetricsScope::OneNode(id) && id@
            == filter->0@),
        (filter matches Some(f) && !is_uuid_text(f@)) ==> r is Invalid,
{
    match filter {
        None => MetricsScope::AllNodes,
        Some(f) => {
            if uuid_text_ok(f.as_str()) {
                MetricsScope::OneNode(f.clone())
            } else {
                MetricsScope::Invalid
            }
        },
    }
}

} // verus!
