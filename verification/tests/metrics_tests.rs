use vmgate::metrics::{
    extract_node_status, incus_metrics_frame, metrics_scope, node_uses_placeholder_metrics,
    proxmox_metrics_frame, ratio_bp, MetricsScope,
};
use vmgate::model::{Node, NodeStatus, NodeType};

fn proxmox_node() -> Node {
    Node {
        id: String::from("8f14e45f-ceea-467f-a348-57b3e5bd6ee1"),
        name: String::from("px"),
        node_type: NodeType::Proxmox,
        api_url: String::from("https://px:8006"),
        api_key: String::from("root@pam!gw"),
        api_secret: Some(String::from("s3cret")),
        status: NodeStatus::Online,
        last_check: 0,
        created_at: 0,
    }
}

#[test]
fn ratio_in_basis_points() {
    assert_eq!(ratio_bp(1, 2), 5000);
    assert_eq!(ratio_bp(1, 3), 3333);
    assert_eq!(ratio_bp(0, 100), 0);
    assert_eq!(ratio_bp(100, 100), 10000);
    assert_eq!(ratio_bp(200, 100), 10000);
    assert_eq!(ratio_bp(5, 0), 0);
    assert_eq!(ratio_bp(u64::MAX - 1, u64::MAX), 9999);
}

const STATUS_BODY: &[u8] = br#"{"data":{
  "cpu": 0.25,
  "memory": {"used": 100, "total": 400},
  "rootfs": {"used": 30, "total": 120},
  "uptime": 7777
}}"#;

#[test]
fn status_fields_extract_from_the_reply() {
    let f = extract_node_status(STATUS_BODY).unwrap();
    assert!(f.has_cpu);
    assert_eq!(f.mem_used, Some(100));
    assert_eq!(f.mem_total, Some(400));
    assert_eq!(f.rootfs_used, Some(30));
    assert_eq!(f.rootfs_total, Some(120));
    assert_eq!(f.uptime, Some(7777));
    assert!(extract_node_status(b"not json").is_none());
    assert!(extract_node_status(b"{}").is_none());
}

#[test]
fn proxmox_frame_computes_percentages() {
    let node = proxmox_node();
    let f = extract_node_status(STATUS_BODY).unwrap();
    let frame = proxmox_metrics_frame(&node, &f);
    assert_eq!(frame.ram_bp, 2500);
    assert_eq!(frame.disk_bp, Some(2500));
    assert_eq!(frame.uptime, Some(7777));
    assert_eq!(frame.node_id, node.id);
    assert_eq!(frame.node_name, "px");
    assert!(!frame.placeholder);
}

#[test]
fn missing_members_zero_ram_and_drop_disk() {
    let node = proxmox_node();
    let f = extract_node_status(br#"{"data":{"uptime":5}}"#).unwrap();
    let frame = proxmox_metrics_frame(&node, &f);
    assert_eq!(frame.ram_bp, 0);
    assert_eq!(frame.disk_bp, None);
    assert_eq!(frame.uptime, Some(5));

    let empty_fs = extract_node_status(
        br#"{"data":{"memory":{"used":1,"total":2},"rootfs":{"used":0,"total":0}}}"#,
    )
    .unwrap();
    let frame = proxmox_metrics_frame(&node, &empty_fs);
    assert_eq!(frame.ram_bp, 5000);
    assert_eq!(frame.disk_bp, None);
}

#[test]
fn incus_frames_are_marked_placeholders() {
    let mut node = proxmox_node();
    node.node_type = NodeType::Incus;
    assert!(node_uses_placeholder_metrics(&node));
    let frame = incus_metrics_frame(&node);
    assert_eq!(frame.ram_bp, 0);
    assert_eq!(frame.disk_bp, None);
    assert_eq!(frame.uptime, None);
    assert!(frame.placeholder);

    node.node_type = NodeType::Proxmox;
    assert!(!node_uses_placeholder_metrics(&node));
}

#[test]
fn subscription_scope_follows_the_filter() {
    assert!(matches!(metrics_scope(&None), MetricsScope::AllNodes));
    let good = Some(String::from("8f14e45f-ceea-467f-a348-57b3e5bd6ee1"));
    match metrics_scope(&good) {
        MetricsScope::OneNode(id) => assert_eq!(id, "8f14e45f-ceea-467f-a348-57b3e5bd6ee1"),
        _ => panic!("a UUID filter must select one node"),
    }
    let bad = Some(String::from("not-a-uuid"));
    assert!(matches!(metrics_scope(&bad), MetricsScope::Invalid));
}
