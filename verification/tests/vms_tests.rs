use vmgate::model::{GatewayError, Node, NodeStatus, NodeType};
use vmgate::vms::{
    aggregate_node, interpret_details_response, interpret_health, interpret_list_response,
    interpret_node_name_response, interpret_unit_response, normalize_vm,
};

fn proxmox_node() -> Node {
    Node {
        id: String::from("8f14e45f-ceea-467f-a348-57b3e5bd6ee1"),
        name: String::from("px"),
        node_type: NodeType::Proxmox,
        api_url: String::from("https://px:8006"),
        api_key: String::from("root@pam!gw"),
        api_secret: Some(String::from("s3cret")),
        status: NodeStatus::Online,
        last_check: 0,
        created_at: 0,
    }
}

fn incus_node() -> Node {
    Node {
        id: String::from("1b4e28ba-2fa1-11d2-883f-0016d3cca427"),
        name: String::from("incus1"),
        node_type: NodeType::Incus,
        api_url: String::from("https://incus1:8443"),
        api_key: String::from("unused"),
        api_secret: None,
        status: NodeStatus::Online,
        last_check: 0,
        created_at: 0,
    }
}

const PROXMOX_LIST: &[u8] = br#"{"data":[
  {"type":"qemu","node":"px","id":"qemu/100","name":"web","maxcpu":4,"maxmem":2147483648},
  {"type":"lxc","node":"px","id":"lxc/105","name":"ct","cpu":0.5,"maxmem":1073741824},
  {"type":"storage","node":"px","id":"storage/local"},
  {"type":"node","node":"px","id":"node/px"}
]}"#;

#[test]
fn list_interpretation_keeps_every_entry_and_reads_fields() {
    let raws = interpret_list_response(NodeType::Proxmox, 200, PROXMOX_LIST).unwrap();
    assert_eq!(raws.len(), 4);
    assert_eq!(raws[0].vm_type.as_deref(), Some("qemu"));
    assert_eq!(raws[0].node.as_deref(), Some("px"));
    assert_eq!(raws[0].id.as_deref(), Some("qemu/100"));
    assert_eq!(raws[0].maxcpu.as_deref(), Some("4"));
    assert_eq!(raws[0].maxmem.as_deref(), Some("2147483648"));
    assert!(!raws[0].has_cpus);
    assert!(!raws[0].has_memory);
}

#[test]
fn list_interpretation_fails_on_error_status_or_bad_body() {
    assert!(matches!(
        interpret_list_response(NodeType::Proxmox, 500, PROXMOX_LIST),
        Err(GatewayError::Upstream)
    ));
    assert!(matches!(
        interpret_list_response(NodeType::Proxmox, 200, b"not json"),
        Err(GatewayError::Upstream)
    ));
    // a reply without the list member is an empty inventory
    assert_eq!(
        interpret_list_response(NodeType::Proxmox, 200, b"{}").unwrap().len(),
        0
    );
}

#[test]
fn incus_list_reads_metadata() {
    let body = br#"{"metadata":[{"name":"nd1","type":"container"},{"name":"nd2"}]}"#;
    let raws = interpret_list_response(NodeType::Incus, 200, body).unwrap();
    assert_eq!(raws.len(), 2);
    assert_eq!(raws[0].name.as_deref(), Some("nd1"));
}

#[test]
fn normalization_builds_internal_ids_and_fills_fields() {
    let node = proxmox_node();
    let raws = interpret_list_response(NodeType::Proxmox, 200, PROXMOX_LIST).unwrap();
    let mut raws = raws.into_iter();

    let vm = normalize_vm(&node, raws.next().unwrap()).unwrap();
    assert_eq!(vm.internal_id, "px/qemu/100");
    assert_eq!(vm.node_id, "8f14e45f-ceea-467f-a348-57b3e5bd6ee1");
    assert_eq!(vm.node_name, "px");
    assert_eq!(vm.cpus.as_deref(), Some("4"));
    assert_eq!(vm.memory.as_deref(), Some("2147483648"));

    let ct = normalize_vm(&node, raws.next().unwrap()).unwrap();
    assert_eq!(ct.internal_id, "px/lxc/105");
    // no maxcpu: the cpu member fills in
    assert_eq!(ct.cpus.as_deref(), Some("0.5"));

    // storage and node resources are not guests
    assert!(normalize_vm(&node, raws.next().unwrap()).is_none());
    assert!(normalize_vm(&node, raws.next().unwrap()).is_none());
}

#[test]
fn normalization_uses_the_incus_name() {
    let node = incus_node();
    let body = br#"{"metadata":[{"name":"nd1"},{"type":"container"}]}"#;
    let raws = interpret_list_response(NodeType::Incus, 200, body).unwrap();
    let mut raws = raws.into_iter();
    let vm = normalize_vm(&node, raws.next().unwrap()).unwrap();
    assert_eq!(vm.internal_id, "nd1");
    // an instance without a name cannot be routed to and is dropped
    assert!(normalize_vm(&node, raws.next().unwrap()).is_none());
}

#[test]
fn aggregate_marks_online_and_collects_records() {
    let node = proxmox_node();
    let raws = interpret_list_response(NodeType::Proxmox, 200, PROXMOX_LIST).unwrap();
    let (update, records) = aggregate_node(&node, Ok(raws));
    assert_eq!(update.status, NodeStatus::Online);
    assert_eq!(update.node_id, node.id);
    assert_eq!(records.len(), 2);
    assert_eq!(records[0].internal_id, "px/qemu/100");
    assert_eq!(records[1].internal_id, "px/lxc/105");
    assert!(records.iter().all(|r| !r.internal_id.is_empty()));
}

#[test]
fn aggregate_absorbs_failure_as_error_status() {
    let node = incus_node();
    let (update, records) = aggregate_node(&node, Err(GatewayError::Upstream));
    assert_eq!(update.status, NodeStatus::Error);
    assert_eq!(update.node_id, node.id);
    assert!(records.is_empty());
}

#[test]
fn health_statuses() {
    assert_eq!(interpret_health(200), NodeStatus::Online);
    assert_eq!(interpret_health(204), NodeStatus::Online);
    assert_eq!(interpret_health(401), NodeStatus::Error);
    assert_eq!(interpret_health(500), NodeStatus::Error);
}

#[test]
fn unit_responses() {
    assert_eq!(interpret_unit_response(200), Ok(()));
    assert_eq!(interpret_unit_response(403), Err(GatewayError::Upstream));
}

#[test]
fn details_unwrap_per_backend() {
    let px = br#"{"data":{"cores":2,"ide2":"none"}}"#;
    assert_eq!(
        interpret_details_response(NodeType::Proxmox, 200, px).unwrap(),
        r#"{"cores":2,"ide2":"none"}"#
    );
    let ix = br#"{"metadata":{"name":"nd1"}}"#;
    assert_eq!(
        interpret_details_response(NodeType::Incus, 200, ix).unwrap(),
        r#"{"name":"nd1"}"#
    );
    assert_eq!(
        interpret_details_response(NodeType::Proxmox, 200, b"{}").unwrap(),
        "null"
    );
    assert_eq!(
        interpret_details_response(NodeType::Proxmox, 404, px),
        Err(GatewayError::Upstream)
    );
}

#[test]
fn first_cluster_node_names_the_endpoint() {
    let body = br#"{"data":[{"node":"px","status":"online"},{"node":"px2"}]}"#;
    assert_eq!(interpret_node_name_response(200, body).unwrap(), "px");
    assert_eq!(
        interpret_node_name_response(200, br#"{"data":[]}"#),
        Err(GatewayError::Upstream)
    );
    assert_eq!(
        interpret_node_name_response(200, br#"{"data":[{"status":"online"}]}"#),
        Err(GatewayError::Upstream)
    );
}
