//! The trusted boundary to `serde_json`: upstream replies arrive as
//! bytes, and each extraction wrapper here reduces one reply shape
//! to plain values. Parsing and member lookup are functions of the
//! bytes alone, so each extraction's result carries a name (an
//! uninterpreted spec function of the body bytes) that the verified
//! interpreters state their results against.
//!
//! The small per-member accessors below them feed the inventory
//! extraction, whose entries are named as one sequence.

use crate::metrics::NodeStatusFields;
use crate::vms::RawVm;
use vstd::prelude::*;

verus! {

#[verifier::external_type_specification]
#[verifier::external_body]
pub struct ExValue(serde_json::Value);

/// Whether `serde_json::from_slice` accepts `body` as one JSON
/// document — a function of the bytes alone.
pub uninterp spec fn json_parses(body: Seq<u8>) -> bool;

/// The entries of the array member `key` of the parsed body, each
/// reduced to its `RawVm` fields; empty when the member is absent or
/// not an array.
pub uninterp spec fn inventory_entries(key: Seq<char>, body: Seq<u8>) -> Seq<RawVm>;

/// The JSON text of the member `key` of the parsed body, when
/// present.
pub uninterp spec fn member_text(key: Seq<char>, body: Seq<u8>) -> Option<Seq<char>>;

/// The `data.ticket` member of the parsed body, when it is a string.
pub uninterp spec fn vnc_ticket_of(body: Seq<u8>) -> Option<Seq<char>>;

/// The `data.port` member of the parsed body, when it is a number
/// representable as `u64`.
pub uninterp spec fn vnc_port_num_of(body: Seq<u8>) -> Option<u64>;

/// The `data.port` member of the parsed body, when it is a string.
pub uninterp spec fn vnc_port_text_of(body: Seq<u8>) -> Option<Seq<char>>;

/// The `node` string of the first entry of the `data` array of the
/// parsed body; `None` when the array is absent, empty, or its first
/// entry has no `node` string.
pub uninterp spec fn first_cluster_node_of(body: Seq<u8>) -> Option<Seq<char>>;

/// The memory, root filesystem and uptime members under `data` of
/// the parsed body; `None` when the body is not JSON or has no
/// `data` member.
pub uninterp spec fn node_status_of(body: Seq<u8>) -> Option<NodeStatusFields>;

/// Relies on `Value::get` and `Value::as_str`: the member under
/// `key` when it is a JSON string.
#[verifier::external_body]
fn member_str(v: &serde_json::Value, key: &str) -> (r: Option<String>) {
    v.get(key).and_then(|x| x.as_str()).map(|s| s.to_string())
}

/// Relies on `Value::get` and `serde_json::to_string`: the member
/// under `key`, re-rendered as JSON text.
#[verifier::external_body]
fn member_json(v: &serde_json::Value, key: &str) -> (r: Option<String>) {
    v.get(key).map(|m| serde_json::to_string(m).unwrap_or_default())
}

/// Relies on `Value::get`: whether the member under `key` exists.
#[verifier::external_body]
fn member_present(v: &serde_json::Value, key: &str) -> (r: bool) {
    v.get(key).is_some()
}

/// Relies on `serde_json::to_string`: the JSON text of a value,
/// which for a `Value` cannot fail.
#[verifier::external_body]
fn value_text(v: &serde_json::Value) -> (r: String) {
    serde_json::to_string(v).unwrap_or_default()
}

/// One inventory entry's members, moved into the library's field
/// record: string members copied, numeric members re-rendered as
/// JSON text.
pub(crate) fn raw_vm_of_value(v: &serde_json::Value) -> RawVm {
    RawVm {
        vm_type: member_str(v, "type"),
        node: member_str(v, "node"),
        id: member_str(v, "id"),
        name: member_str(v, "name"),
        has_cpus: member_present(v, "cpus"),
        maxcpu: member_json(v, "maxcpu"),
        cpu: member_json(v, "cpu"),
        has_memory: member_present(v, "memory"),
        maxmem: member_json(v, "maxmem"),
        raw: value_text(v),
    }
}

/// Relies on `serde_json::from_slice`, `Value::get` and
/// `Value::as_array`: the entries of the array member `key`, each
/// reduced to its fields. `None` exactly when the body is not JSON.
#[verifier::external_body]
pub(crate) fn extract_inventory(key: &str, body: &[u8]) -> (r: Option<Vec<RawVm>>)
    ensures
        r is Some <==> json_parses(body@),
        r matches Some(v) ==> v@ == inventory_entries(key@, body@),
{
    let parsed: serde_json::Value = serde_json::from_slice(body).ok()?;
    Some(match parsed.get(key).and_then(|m| m.as_array()) {
        Some(a) => a.iter().map(raw_vm_of_value).collect(),
        None => Vec::new(),
    })
}

/// Relies on `serde_json::from_slice`, `Value::get` and
/// `serde_json::to_string`: the JSON text of the member `key`.
/// `None` exactly when the body is not JSON; `Some(None)` when the
/// member is absent.
#[verifier::external_body]
pub(crate) fn extract_member_text(key: &str, body: &[u8]) -> (r: Option<Option<String>>)
    ensures
        r is Some <==> json_parses(body@),
        r matches Some(m) ==> crate::strutil::opt_str_view(m) == member_text(key@, body@),
{
    let parsed: serde_json::Value = serde_json::from_slice(body).ok()?;
    Some(parsed.get(key).map(|m| serde_json::to_string(m).unwrap_or_default()))
}

/// Relies on `serde_json::from_slice`, `Value::get`, `Value::as_str`
/// and `Value::as_u64`: the `data.ticket` string and the `data.port`
/// member in both of its admissible forms.
#[verifier::external_body]
pub(crate) fn extract_vnc_fields(body: &[u8]) -> (r: Option<
    (Option<String>, Option<u64>, Option<String>),
>)
    ensures
        r is Some <==> json_parses(body@),
        r matches Some(f) ==> {
            &&& crate::strutil::opt_str_view(f.0) == vnc_ticket_of(body@)
            &&& f.1 == vnc_port_num_of(body@)
            &&& crate::strutil::opt_str_view(f.2) == vnc_port_text_of(body@)
        },
{
    let parsed: serde_json::Value = serde_json::from_slice(body).ok()?;
    let data = parsed.get("data");
    let ticket = data.and_then(|d| d.get("ticket")).and_then(|t| t.as_str()).map(|s| s.to_string());
    let port = data.and_then(|d| d.get("port"));
    Some((
        ticket,
        port.and_then(|p| p.as_u64()),
        port.and_then(|p| p.as_str()).map(|s| s.to_string()),
    ))
}

/// Relies on `serde_json::from_slice`, `Value::get`, `Value::as_array`
/// and `Value::as_str`: the first cluster entry's `node` string.
#[verifier::external_body]
pub(crate) fn extract_first_node_name(body: &[u8]) -> (r: Option<Option<String>>)
    ensures
        r is Some <==> json_parses(body@),
        r matches Some(m) ==> crate::strutil::opt_str_view(m) == first_cluster_node_of(body@),
{
    let parsed: serde_json::Value = serde_json::from_slice(body).ok()?;
    Some(
        parsed
            .get("data")
            .and_then(|d| d.as_array())
            .and_then(|a| a.first())
            .and_then(|e| e.get("node"))
            .and_then(|n| n.as_str())
            .map(|s| s.to_string()),
    )
}

/// Relies on `serde_json::from_slice`, `Value::get` and
/// `Value::as_u64`: the status members the metrics loop reads.
#[verifier::external_body]
pub(crate) fn extract_status_fields(body: &[u8]) -> (r: Option<NodeStatusFields>)
    ensures
        r == node_status_of(body@),
{
    let parsed: serde_json::Value = serde_json::from_slice(body).ok()?;
    let data = parsed.get("data")?;
    let mem = data.get("memory");
    let fs = data.get("rootfs");
    Some(NodeStatusFields {
        has_cpu: data.get("cpu").is_some(),
        mem_used: mem.and_then(|m| m.get("used")).and_then(|u| u.as_u64()),
        mem_total: mem.and_then(|m| m.get("total")).and_then(|u| u.as_u64()),
        rootfs_used: fs.and_then(|m| m.get("used")).and_then(|u| u.as_u64()),
        rootfs_total: fs.and_then(|m| m.get("total")).and_then(|u| u.as_u64()),
        uptime: data.get("uptime").and_then(|u| u.as_u64()),
    })
}

} // verus!
