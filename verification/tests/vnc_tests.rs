use vmgate::model::{GatewayError, Node, NodeStatus, NodeType};
use vmgate::vnc::{
    build_vnc_info, classify_handshake_error, compose_vnc_url, console_upstream_auth,
    interpret_vncproxy_response, plan_ws_handshake, pump_session, pump_step, pve_auth_cookie,
    vnc_fields_decision, vnc_timeout_message, ws_base, ConsoleTicket, HandshakeFailure, WsFrame,
};

fn proxmox_node() -> Node {
    Node {
        id: String::from("8f14e45f-ceea-467f-a348-57b3e5bd6ee1"),
        name: String::from("px"),
        node_type: NodeType::Proxmox,
        api_url: String::from("https://px:8006"),
        api_key: String::from("root@pam!gw"),
        api_secret: Some(String::from("s3cret")),
        status: NodeStatus::Online,
        last_check: 0,
        created_at: 0,
    }
}

#[test]
fn vncproxy_reply_with_numeric_port() {
    let body = br#"{"data":{"ticket":"PVE:T/1","port":5900}}"#;
    let (ticket, port) = interpret_vncproxy_response(200, body).unwrap();
    assert_eq!(ticket, "PVE:T/1");
    assert_eq!(port, 5900);
}

#[test]
fn vncproxy_reply_with_textual_port() {
    let body = br#"{"data":{"ticket":"PVE:T/1","port":"5901"}}"#;
    let (_, port) = interpret_vncproxy_response(200, body).unwrap();
    assert_eq!(port, 5901);
}

#[test]
fn vncproxy_reply_missing_fields_is_fatal() {
    assert!(matches!(
        interpret_vncproxy_response(200, br#"{"data":{"port":5900}}"#),
        Err(GatewayError::Upstream)
    ));
    assert!(matches!(
        interpret_vncproxy_response(200, br#"{"data":{"ticket":"T"}}"#),
        Err(GatewayError::Upstream)
    ));
    assert!(matches!(
        interpret_vncproxy_response(200, br#"{"data":{"ticket":"T","port":"nan"}}"#),
        Err(GatewayError::Upstream)
    ));
    assert!(matches!(
        interpret_vncproxy_response(401, br#"{"data":{"ticket":"T","port":1}}"#),
        Err(GatewayError::Upstream)
    ));
}

#[test]
fn fields_decision_prefers_the_numeric_port() {
    let r = vnc_fields_decision(Some(String::from("T")), Some(7), Some(String::from("9")));
    assert_eq!(r.unwrap(), (String::from("T"), 7));
    assert!(vnc_fields_decision(None, Some(7), None).is_err());
}

#[test]
fn ws_base_swaps_the_scheme_prefix() {
    assert_eq!(ws_base("https://px:8006"), "wss://px:8006");
    assert_eq!(ws_base("http://px:8006"), "ws://px:8006");
    assert_eq!(ws_base("ftp://px"), "ftp://px");
}

#[test]
fn console_url_is_composed_exactly() {
    let url = compose_vnc_url("https://px:8006", "px/qemu/100", 5900, "PVE:T/a+b");
    assert_eq!(
        url,
        "wss://px:8006/api2/json/nodes/px/qemu/100/vncwebsocket?port=5900&vncticket=PVE%3AT%2Fa%2Bb"
    );
    let info = build_vnc_info("https://px:8006", "px/qemu/100", String::from("PVE:T/a+b"), 5900);
    assert_eq!(info.url, url);
    assert_eq!(info.ticket, "PVE:T/a+b");
    assert_eq!(info.port, 5900);
}

#[test]
fn console_auth_uses_ticket_cookie_for_proxmox_only() {
    let px = proxmox_node();
    assert_eq!(
        console_upstream_auth(&px, "PVE:T").as_deref(),
        Some("PVEAuthCookie=PVE:T")
    );
    assert_eq!(pve_auth_cookie("x"), "PVEAuthCookie=x");
    let mut ix = proxmox_node();
    ix.node_type = NodeType::Incus;
    assert!(console_upstream_auth(&ix, "PVE:T").is_none());
}

#[test]
fn handshake_plan_with_explicit_port() {
    let h = plan_ws_handshake(
        "wss://px:8006/api2/json/nodes/px/qemu/100/vncwebsocket?port=5900&vncticket=T",
    )
    .unwrap();
    assert!(h.tls);
    assert_eq!(h.host, "px");
    assert_eq!(h.port, Some(8006));
    assert_eq!(h.host_header, "px:8006");
    assert_eq!(h.origin, "https://px:8006");
    assert_eq!(h.timeout_secs, 15);
}

#[test]
fn handshake_plan_omits_default_ports() {
    let h = plan_ws_handshake("wss://px:443/path?vncticket=T").unwrap();
    assert_eq!(h.host_header, "px");
    assert_eq!(h.origin, "https://px");
    let h2 = plan_ws_handshake("ws://px/path?vncticket=T").unwrap();
    assert!(!h2.tls);
    assert_eq!(h2.port, None);
    assert_eq!(h2.origin, "http://px");
}

#[test]
fn handshake_requires_a_ticket_in_the_url() {
    assert!(matches!(
        plan_ws_handshake("wss://px:8006/path?port=5900"),
        Err(GatewayError::BadRequest)
    ));
}

#[test]
fn handshake_rejects_unusable_urls() {
    assert!(matches!(
        plan_ws_handshake("https://px/path?vncticket=T"),
        Err(GatewayError::Upstream)
    ));
    assert!(matches!(
        plan_ws_handshake("wss://:8006/path?vncticket=T"),
        Err(GatewayError::Upstream)
    ));
    assert!(matches!(
        plan_ws_handshake("wss://px:notaport/path?vncticket=T"),
        Err(GatewayError::Upstream)
    ));
    assert!(matches!(
        plan_ws_handshake("wss://px:99999/path?vncticket=T"),
        Err(GatewayError::Upstream)
    ));
}

#[test]
fn handshake_errors_classify_by_status_text() {
    assert_eq!(
        classify_handshake_error("HTTP error: 401 Unauthorized"),
        HandshakeFailure::TokenUnauthorized
    );
    assert_eq!(
        classify_handshake_error("401").operator_message(),
        "VNC authentication failed. Ensure API token has VM.Console permission"
    );
    assert_eq!(
        classify_handshake_error("403 Forbidden").operator_message(),
        "VNC access forbidden. Check VM permissions"
    );
    assert_eq!(
        classify_handshake_error("404 Not Found").operator_message(),
        "VM or VNC endpoint not found"
    );
    assert_eq!(
        classify_handshake_error("connection reset").operator_message(),
        "Failed to establish VNC connection"
    );
    assert_eq!(
        vnc_timeout_message(),
        "VNC connection timeout - check network and Proxmox availability"
    );
}

#[test]
fn pump_forwards_data_frames_unchanged() {
    let step = pump_step(WsFrame::Binary(vec![1, 2, 3]));
    assert!(!step.stop);
    match step.forward {
        Some(WsFrame::Binary(b)) => assert_eq!(b, vec![1, 2, 3]),
        _ => panic!("binary frame must pass through as binary"),
    }
    let step = pump_step(WsFrame::Close);
    assert!(step.stop);
    assert!(matches!(step.forward, Some(WsFrame::Close)));
}

#[test]
fn pump_session_is_transparent_up_to_the_close() {
    let incoming = vec![
        WsFrame::Binary(vec![0x52, 0x46, 0x42]),
        WsFrame::Text(String::from("hello")),
        WsFrame::Ping(vec![9]),
        WsFrame::Pong(vec![8]),
        WsFrame::Close,
        WsFrame::Binary(vec![0xFF]),
    ];
    let out = pump_session(incoming);
    assert_eq!(out.len(), 5);
    match &out[0] {
        WsFrame::Binary(b) => assert_eq!(b, &vec![0x52, 0x46, 0x42]),
        _ => panic!("payload changed"),
    }
    match &out[1] {
        WsFrame::Text(t) => assert_eq!(t, "hello"),
        _ => panic!("payload changed"),
    }
    assert!(matches!(out[2], WsFrame::Ping(_)));
    assert!(matches!(out[3], WsFrame::Pong(_)));
    assert!(matches!(out[4], WsFrame::Close));
}

#[test]
fn pump_without_close_forwards_everything_in_order() {
    let incoming = vec![
        WsFrame::Binary(vec![1]),
        WsFrame::Text(String::from("x")),
        WsFrame::Binary(vec![2, 3]),
    ];
    let out = pump_session(incoming);
    assert_eq!(out.len(), 3);
    match (&out[0], &out[2]) {
        (WsFrame::Binary(a), WsFrame::Binary(b)) => {
            assert_eq!(a, &vec![1]);
            assert_eq!(b, &vec![2, 3]);
        },
        _ => panic!("payloads changed"),
    }
    assert!(matches!(&out[1], WsFrame::Text(t) if t == "x"));
}

#[test]
fn composed_console_urls_always_yield_a_handshake_plan() {
    let url = compose_vnc_url("https://px:8006", "px/qemu/100", 5900, "PVE:T/a+b");
    let h = plan_ws_handshake(&url).unwrap();
    assert!(h.tls);
    assert_eq!(h.host_header, "px:8006");
    assert_eq!(h.origin, "https://px:8006");
}

#[test]
fn tickets_are_single_use() {
    let mut t = ConsoleTicket::fresh(String::from("PVE:T"), 5900);
    let first = t.take();
    assert_eq!(first, Some((String::from("PVE:T"), 5900)));
    let second = t.take();
    assert_eq!(second, None);
}
