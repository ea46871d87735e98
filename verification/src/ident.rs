//! Identifiers: node UUIDs and the gateway's stable per-VM identifier.
//!
//! A VM's `internal_id` is `{node}/{type}/{vmid}` for Proxmox (the
//! resource's cluster node, its kind `qemu` or `lxc`, and its numeric
//! id) and the bare instance name for Incus. Splitting an `internal_id`
//! back into its routing components is proved to invert its
//! construction, so an id handed out by the aggregator always routes
//! to the resource it came from.

use crate::model::NodeType;
use crate::pct::is_hex_char;
use crate::strutil::find_char;
use crate::strutil::lemma_split_joined;
use crate::strutil::lemma_split_sep_free;
use crate::strutil::split_chars;
use crate::strutil::split_str;
use vstd::prelude::*;
use vstd::string::StrSliceExecFns;
use vstd::string::StringExecFns;

verus! {

/// A well-formed node id: the hyphenated UUID text form,
/// 8-4-4-4-12 hex digits.
pub open spec fn is_uuid_text(s: Seq<char>) -> bool {
    &&& s.len() == 36
    &&& s[8] == '-'
    &&& s[13] == '-'
    &&& s[18] == '-'
    &&& s[23] == '-'
    &&& forall|i: int|
        0 <= i < 36 && i != 8 && i != 13 && i != 18 && i != 23 ==> is_hex_char(#[trigger] s[i])
}

pub fn uuid_text_ok(s: &str) -> (r: bool)
    ensures
        r == is_uuid_text(s@),
{
    let len = s.unicode_len();
    if len != 36 {
        return false;
    }
    let mut i: usize = 0;
    while i < 36
        invariant
            len == s@.len(),
            len == 36,
            i <= 36,
            forall|k: int| 0 <= k < i && (k == 8 || k == 13 || k == 18 || k == 23) ==> s@[k] == '-',
            forall|k: int|
                0 <= k < i && k != 8 && k != 13 && k != 18 && k != 23 ==> is_hex_char(
                    #[trigger] s@[k],
                ),
        decreases 36 - i,
    {
        let c = s.get_char(i);
        let u = c as u32;
        if i == 8 || i == 13 || i == 18 || i == 23 {
            if c != '-' {
                return false;
            }
        } else {
            if !((48 <= u && u <= 57) || (65 <= u && u <= 70) || (97 <= u && u <= 102)) {
                return false;
            }
        }
        i = i + 1;
    }
    true
}

/// One fully resolved Proxmox routing triple.
pub struct VmPath {
    pub node: String,
    pub vm_type: String,
    pub vmid: String,
}

/// How a wire identifier resolves to a routing triple: exactly three
/// slash-separated parts are taken as given; anything else falls back
/// to the default node and type, a known compatibility hazard kept
/// for parity with existing clients.
pub open spec fn vm_path_node(s: Seq<char>) -> Seq<char> {
    let parts = split_chars(s, '/');
    if parts.len() == 3 {
        parts[0]
    } else {
        "pve"@
    }
}

pub open spec fn vm_path_type(s: Seq<char>) -> Seq<char> {
    let parts = split_chars(s, '/');
    if parts.len() == 3 {
        parts[1]
    } else {
        "qemu"@
    }
}

pub open spec fn vm_path_vmid(s: Seq<char>) -> Seq<char> {
    let parts = split_chars(s, '/');
    if parts.len() == 3 {
        parts[2]
    } else {
        s
    }
}

pub fn parse_vm_path(s: &str) -> (r: VmPath)
    ensures
        r.node@ == vm_path_node(s@),
        r.vm_type@ == vm_path_type(s@),
        r.vmid@ == vm_path_vmid(s@),
{
    let mut parts = split_str(s, '/');
    if parts.len() == 3 {
        let vmid = parts.remove(2);
        let vm_type = parts.remove(1);
        let node = parts.remove(0);
        VmPath { node, vm_type, vmid }
    } else {
        VmPath {
            node: String::from_str("pve"),
            vm_type: String::from_str("qemu"),
            vmid: String::from_str(s),
        }
    }
}

/// The aggregator's identifier for a Proxmox resource: the cluster
/// node's name and the resource id (`{type}/{vmid}`), joined by `/`.
pub fn proxmox_internal_id(node: &str, resource_id: &str) -> (r: String)
    ensures
        r@ == node@ + seq!['/'] + resource_id@,
{
    proof {
        reveal_strlit("/");
    }
    let mut out = String::from_str(node);
    out.append("/");
    out.append(resource_id);
    proof {
        assert(out@ =~= node@ + seq!['/'] + resource_id@);
    }
    out
}

/// An internal id built from slash-free components resolves back to
/// exactly those components.
pub proof fn lemma_internal_id_routes(node: Seq<char>, ty: Seq<char>, vmid: Seq<char>)
    requires
        !node.contains('/'),
        !ty.contains('/'),
        !vmid.contains('/'),
    ensures
        vm_path_node(node + seq!['/'] + ty + seq!['/'] + vmid) == node,
        vm_path_type(node + seq!['/'] + ty + seq!['/'] + vmid) == ty,
        vm_path_vmid(node + seq!['/'] + ty + seq!['/'] + vmid) == vmid,
{
    let s = node + seq!['/'] + ty + seq!['/'] + vmid;
    let t = ty + seq!['/'] + vmid;
    assert(s =~= node + seq!['/'] + t);
    lemma_split_joined(node, t, '/');
    lemma_split_joined(ty, vmid, '/');
    lemma_split_sep_free(vmid, '/');
    assert(split_chars(s, '/') =~= seq![node, ty, vmid]);
}

/// `s` with every hyphen replaced by a slash: the legacy wire form of
/// an internal id, used where a path segment cannot hold `/`.
pub open spec fn hyphens_to_slashes(s: Seq<char>) -> Seq<char> {
    s.map_values(
        |c: char|
            if c == '-' {
                '/'
            } else {
                c
            },
    )
}

pub fn legacy_vm_id(s: &str) -> (r: String)
    ensures
        r@ == hyphens_to_slashes(s@),
{
    let len = s.unicode_len();
    let mut out = String::new();
    let mut i: usize = 0;
    while i < len
        invariant
            len == s@.len(),
            i <= len,
            out@ == hyphens_to_slashes(s@.take(i as int)),
        decreases len - i,
    {
        let c = s.get_char(i);
        if c == '-' {
            out.push('/');
        } else {
            out.push(c);
        }
        proof {
            assert(out@ =~= hyphens_to_slashes(s@.take(i + 1)));
        }
        i = i + 1;
    }
    proof {
        assert(s@.take(len as int) =~= s@);
    }
    out
}

/// The identifier a ticket request carries in its URL path segment:
/// percent-decoded when that succeeds, else read in the legacy
/// hyphen-substituted form.
pub fn wire_vm_id_for_ticket(s: &str) -> (r: String)
    ensures
        crate::pct::pct_decode_spec(s@) matches Some(d) ==> r@ == d,
        crate::pct::pct_decode_spec(s@) is None ==> r@ == hyphens_to_slashes(s@),
{
    match crate::pct::pct_decode(s) {
        Some(d) => d,
        None => legacy_vm_id(s),
    }
}

/// The legacy hyphen wire form, normalized for its target: a Proxmox
/// identifier that carries no slash but does carry hyphens reads its
/// hyphens as the path separators they stand for (`px-lxc-100` names
/// `px/lxc/100`). Incus instance names keep their hyphens.
pub open spec fn legacy_normalized(s: Seq<char>, node_type: NodeType) -> Seq<char> {
    if node_type == NodeType::Proxmox && !s.contains('/') && s.contains('-') {
        hyphens_to_slashes(s)
    } else {
        s
    }
}

pub fn normalize_wire_vm_id(s: String, node_type: NodeType) -> (r: String)
    ensures
        r@ == legacy_normalized(s@, node_type),
{
    let slash = crate::strutil::find_char_exec(s.as_str(), '/');
    let hyphen = crate::strutil::find_char_exec(s.as_str(), '-');
    proof {
        crate::strutil::lemma_find_char_props(s@, '/');
        crate::strutil::lemma_find_char_props(s@, '-');
        match slash {
            Some(i) => {
                assert(s@.contains('/')) by {
                    assert(s@[i as int] == '/');
                }
            },
            None => {
                assert(!s@.contains('/'));
            },
        }
        match hyphen {
            Some(i) => {
                assert(s@.contains('-')) by {
                    assert(s@[i as int] == '-');
                }
            },
            None => {
                assert(!s@.contains('-'));
            },
        }
    }
    let is_proxmox = matches!(node_type, NodeType::Proxmox);
    if is_proxmox && slash.is_none() && hyphen.is_some() {
        legacy_vm_id(s.as_str())
    } else {
        s
    }
}

/// The identifier a console websocket request carries:
/// percent-decoded when that succeeds, else taken as it stands.
pub fn wire_vm_id_for_console(s: &str) -> (r: String)
    ensures
        crate::pct::pct_decode_spec(s@) matches Some(d) ==> r@ == d,
        crate::pct::pct_decode_spec(s@) is None ==> r@ == s@,
{
    match crate::pct::pct_decode(s) {
        Some(d) => d,
        None => String::from_str(s),
    }
}

} // verus!
