use vmgate::model::{Node, NodeStatus, NodeType, UpdateNodeRequest};
use vmgate::urls::{
    plan_check_health, plan_cluster_nodes, plan_get_details, plan_list_vms, plan_mount_media,
    plan_node_status, plan_power_action, plan_update_config, plan_vnc_ticket, proxmox_auth_header,
    HttpMethod,
};

fn proxmox_node() -> Node {
    Node {
        id: String::from("8f14e45f-ceea-467f-a348-57b3e5bd6ee1"),
        name: String::from("px"),
        node_type: NodeType::Proxmox,
        api_url: String::from("https://px:8006"),
        api_key: String::from("root@pam!gw"),
        api_secret: Some(String::from("s3cret")),
        status: NodeStatus::Offline,
        last_check: 0,
        created_at: 0,
    }
}

fn incus_node() -> Node {
    Node {
        id: String::from("1b4e28ba-2fa1-11d2-883f-0016d3cca427"),
        name: String::from("incus1"),
        node_type: NodeType::Incus,
        api_url: String::from("https://incus1:8443"),
        api_key: String::from("unused"),
        api_secret: None,
        status: NodeStatus::Offline,
        last_check: 0,
        created_at: 0,
    }
}

#[test]
fn proxmox_auth_header_value() {
    assert_eq!(
        proxmox_auth_header("root@pam!gw", "s3cret"),
        "PVEAPIToken=root@pam!gw=s3cret"
    );
}

#[test]
fn health_and_list_urls() {
    let px = proxmox_node();
    let h = plan_check_health(&px);
    assert_eq!(h.url, "https://px:8006/api2/json/version");
    assert_eq!(h.method, HttpMethod::Get);
    assert_eq!(h.auth_header.as_deref(), Some("PVEAPIToken=root@pam!gw=s3cret"));
    let l = plan_list_vms(&px);
    assert_eq!(l.url, "https://px:8006/api2/json/cluster/resources");

    let ix = incus_node();
    let h2 = plan_check_health(&ix);
    assert_eq!(h2.url, "https://incus1:8443/1.0");
    assert!(h2.auth_header.is_none());
    let l2 = plan_list_vms(&ix);
    assert_eq!(l2.url, "https://incus1:8443/1.0/instances?recursion=1");
}

#[test]
fn power_action_routes_to_the_named_guest() {
    let px = proxmox_node();
    let r = plan_power_action(&px, "px/qemu/100", "start");
    assert_eq!(r.method, HttpMethod::Post);
    assert_eq!(r.url, "https://px:8006/api2/json/nodes/px/qemu/100/status/start");
    assert!(r.body.is_none());
}

#[test]
fn power_action_on_incus_carries_forced_timeout_body() {
    let ix = incus_node();
    let r = plan_power_action(&ix, "nd1", "stop");
    assert_eq!(r.method, HttpMethod::Put);
    assert_eq!(r.url, "https://incus1:8443/1.0/instances/nd1/state");
    assert_eq!(
        r.body.as_deref(),
        Some(r#"{"action":"stop","timeout":30,"force":true}"#)
    );
}

#[test]
fn config_patch_routes_per_backend() {
    let px = proxmox_node();
    let r = plan_update_config(&px, "px/lxc/105", r#"{"cores":4}"#);
    assert_eq!(r.method, HttpMethod::Post);
    assert_eq!(r.url, "https://px:8006/api2/json/nodes/px/lxc/105/config");
    assert_eq!(r.body.as_deref(), Some(r#"{"cores":4}"#));

    let ix = incus_node();
    let r2 = plan_update_config(&ix, "nd1", r#"{"config":{}}"#);
    assert_eq!(r2.method, HttpMethod::Patch);
    assert_eq!(r2.url, "https://incus1:8443/1.0/instances/nd1");
}

#[test]
fn details_urls() {
    let px = proxmox_node();
    assert_eq!(
        plan_get_details(&px, "px/qemu/100").url,
        "https://px:8006/api2/json/nodes/px/qemu/100/config"
    );
    let ix = incus_node();
    assert_eq!(
        plan_get_details(&ix, "nd1").url,
        "https://incus1:8443/1.0/instances/nd1"
    );
}

#[test]
fn media_mount_bodies_are_exact() {
    let px = proxmox_node();
    let r = plan_mount_media(&px, "px/qemu/100", "local:iso/debian.iso");
    assert_eq!(r.url, "https://px:8006/api2/json/nodes/px/qemu/100/config");
    assert_eq!(
        r.body.as_deref(),
        Some(r#"{"ide2":"local:iso/debian.iso,media=cdrom"}"#)
    );

    let ix = incus_node();
    let r2 = plan_mount_media(&ix, "nd1", "/isos/debian.iso");
    assert_eq!(r2.method, HttpMethod::Patch);
    assert_eq!(
        r2.body.as_deref(),
        Some(
            r#"{"devices":{"cdrom":{"type":"disk","source":"/isos/debian.iso","path":"/dev/cdrom"}}}"#
        )
    );
}

#[test]
fn media_body_escapes_the_iso_path() {
    let px = proxmox_node();
    let r = plan_mount_media(&px, "px/qemu/100", "odd\"name.iso");
    assert_eq!(
        r.body.as_deref(),
        Some(r#"{"ide2":"odd\"name.iso,media=cdrom"}"#)
    );
}

#[test]
fn vnc_ticket_plan_is_proxmox_only() {
    let px = proxmox_node();
    let r = plan_vnc_ticket(&px, "px/qemu/100").unwrap();
    assert_eq!(r.method, HttpMethod::Post);
    assert_eq!(r.url, "https://px:8006/api2/json/nodes/px/qemu/100/vncproxy");
    assert_eq!(r.body.as_deref(), Some(r#"{"websocket":1}"#));

    let ix = incus_node();
    assert!(plan_vnc_ticket(&ix, "nd1").is_none());
}

#[test]
fn status_and_cluster_node_urls() {
    let px = proxmox_node();
    assert_eq!(
        plan_node_status(&px).url,
        "https://px:8006/api2/json/nodes/px/status"
    );
    assert_eq!(plan_cluster_nodes(&px).url, "https://px:8006/api2/json/nodes");
}

#[test]
fn node_update_merges_partially() {
    let px = proxmox_node();
    let merged = px.merged_with(UpdateNodeRequest {
        name: Some(String::from("px2")),
        api_url: None,
        api_key: None,
        api_secret: Some(String::from("new")),
    });
    assert_eq!(merged.name, "px2");
    assert_eq!(merged.api_url, "https://px:8006");
    assert_eq!(merged.api_key, "root@pam!gw");
    assert_eq!(merged.api_secret.as_deref(), Some("new"));
    assert_eq!(merged.id, "8f14e45f-ceea-467f-a348-57b3e5bd6ee1");
    assert_eq!(merged.status, NodeStatus::Offline);
}
