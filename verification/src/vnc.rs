//! The console path: interpreting a `vncproxy` reply, composing the
//! upstream websocket URL, planning the outbound handshake, and the
//! bidirectional pump's forwarding rules.
//!
//! The pump is payload-transparent: frames pass through unmodified,
//! a close on one side propagates as a close to the other, and a
//! ticket drives at most one session.

use crate::ident::vm_path_node;
use crate::ident::vm_path_type;
use crate::ident::vm_path_vmid;
use crate::jsonval::extract_vnc_fields;
use crate::jsonval::json_parses;
use crate::jsonval::vnc_port_num_of;
use crate::jsonval::vnc_port_text_of;
use crate::jsonval::vnc_ticket_of;
use crate::model::GatewayError;
use crate::model::Node;
use crate::model::NodeType;
use crate::model::VncInfo;
use crate::pct::pct_encode;
use crate::pct::pct_encode_spec;
use crate::strutil::all_dec_digits;
use crate::strutil::opt_str_view;
use crate::strutil::dec_rep;
use crate::strutil::dec_value;
use crate::strutil::find_char;
use crate::strutil::find_char_exec;
use crate::strutil::has_substring;
use crate::strutil::parse_u64;
use crate::strutil::str_contains;
use crate::strutil::str_strip_prefix;
use crate::strutil::u64_to_string;
use crate::vms::is_success_status;
use vstd::prelude::*;
use vstd::string::StrSliceExecFns;
use vstd::string::StringExecFns;

verus! {

// --- ticket acquisition ---
/// Whether a `vncproxy` reply's fields yield a usable ticket: the
/// ticket must be a string, and the port either a number or numeric
/// text.
pub open spec fn vnc_fields_ok(
    ticket: Option<Seq<char>>,
    port_num: Option<u64>,
    port_text: Option<Seq<char>>,
) -> bool {
    &&& ticket is Some
    &&& (port_num is Some || (port_text matches Some(pt) && pt.len() > 0 && all_dec_digits(pt)
        && dec_value(pt) <= u64::MAX))
}

/// The port those fields denote.
pub open spec fn vnc_port_of(port_num: Option<u64>, port_text: Option<Seq<char>>) -> nat {
    match port_num {
        Some(p) => p as nat,
        None => dec_value(port_text->0),
    }
}

/// Decide on the extracted fields of a `vncproxy` reply. Failure to
/// obtain either field is fatal for the operation.
pub fn vnc_fields_decision(
    ticket: Option<String>,
    port_num: Option<u64>,
    port_text: Option<String>,
) -> (r: Result<(String, u64), GatewayError>)
    ensures
        r is Ok <==> vnc_fields_ok(opt_str_view(ticket), port_num, opt_str_view(port_text)),
        r matches Ok(x) ==> Some(x.0@) == opt_str_view(ticket) && x.1 == vnc_port_of(
            port_num,
            opt_str_view(port_text),
        ),
        r is Err ==> r == Err::<(String, u64), GatewayError>(GatewayError::Upstream),
{
    let t = match ticket {
        Some(t) => t,
        None => {
            return Err(GatewayError::Upstream);
        },
    };
    match port_num {
        Some(p) => Ok((t, p)),
        None => {
            match port_text {
                Some(pt) => {
                    match parse_u64(pt.as_str()) {
                        Some(p) => Ok((t, p)),
                        None => Err(GatewayError::Upstream),
                    }
                },
                None => Err(GatewayError::Upstream),
            }
        },
    }
}

/// One `vncproxy` reply, interpreted: on a success status whose body
/// parses, the result is fixed by the body's `data.ticket` and
/// `data.port` members — the ticket string with the port read as a
/// number or as numeric text. Failure to obtain either field, a
/// non-success status or an undecodable body is an upstream error.
pub fn interpret_vncproxy_response(status: u16, body: &[u8]) -> (r: Result<
    (String, u64),
    GatewayError,
>)
    ensures
        r is Ok <==> (is_success_status(status) && json_parses(body@) && vnc_fields_ok(
            vnc_ticket_of(body@),
            vnc_port_num_of(body@),
            vnc_port_text_of(body@),
        )),
        r matches Ok(x) ==> Some(x.0@) == vnc_ticket_of(body@) && x.1 == vnc_port_of(
            vnc_port_num_of(body@),
            vnc_port_text_of(body@),
        ),
        r is Err ==> r == Err::<(String, u64), GatewayError>(GatewayError::Upstream),
{
    if !(200 <= status && status < 300) {
        return Err(GatewayError::Upstream);
    }
    let fields = match extract_vnc_fields(body) {
        Some(f) => f,
        None => {
            return Err(GatewayError::Upstream);
        },
    };
    let (ticket, port_num, port_text) = fields;
    vnc_fields_decision(ticket, port_num, port_text)
}

// --- console URL ---
/// `api_url` with its scheme turned into the websocket one:
/// `https` becomes `wss`, `http` becomes `ws`.
pub open spec fn ws_base_spec(api: Seq<char>) -> Seq<char> {
    if "https://"@.is_prefix_of(api) {
        "wss://"@ + api.skip("https://"@.len() as int)
    } else if "http://"@.is_prefix_of(api) {
        "ws://"@ + api.skip("http://"@.len() as int)
    } else {
        api
    }
}

pub fn ws_base(api: &str) -> (r: String)
    ensures
        r@ == ws_base_spec(api@),
{
    match str_strip_prefix(api, "https://") {
        Some(rest) => {
            let mut out = String::from_str("wss://");
            out.append(rest);
            proof {
                assert(rest@ =~= api@.skip("https://"@.len() as int));
            }
            out
        },
        None => {
            match str_strip_prefix(api, "http://") {
                Some(rest) => {
                    let mut out = String::from_str("ws://");
                    out.append(rest);
                    proof {
                        assert(rest@ =~= api@.skip("http://"@.len() as int));
                    }
                    out
                },
                None => String::from_str(api),
            }
        },
    }
}

/// The upstream console URL: the guest's `vncwebsocket` endpoint with
/// the port and the percent-encoded single-use ticket.
pub open spec fn vnc_ws_url_spec(
    api: Seq<char>,
    vm_id: Seq<char>,
    port: u64,
    ticket: Seq<char>,
) -> Seq<char> {
    ws_base_spec(api) + "/api2/json/nodes/"@ + vm_path_node(vm_id) + "/"@ + vm_path_type(vm_id)
        + "/"@ + vm_path_vmid(vm_id) + "/vncwebsocket?port="@ + dec_rep(port as nat)
        + "&vncticket="@ + pct_encode_spec(ticket)
}

pub fn compose_vnc_url(api: &str, vm_id: &str, port: u64, ticket: &str) -> (r: String)
    ensures
        r@ == vnc_ws_url_spec(api@, vm_id@, port, ticket@),
{
    let path = crate::ident::parse_vm_path(vm_id);
    let mut out = ws_base(api);
    out.append("/api2/json/nodes/");
    out.append(path.node.as_str());
    out.append("/");
    out.append(path.vm_type.as_str());
    out.append("/");
    out.append(path.vmid.as_str());
    out.append("/vncwebsocket?port=");
    let port_text = u64_to_string(port);
    out.append(port_text.as_str());
    out.append("&vncticket=");
    let enc = pct_encode(ticket);
    out.append(enc.as_str());
    proof {
        assert(out@ =~= vnc_ws_url_spec(api@, vm_id@, port, ticket@));
    }
    out
}

/// The full single-use connection info for one console session.
pub fn build_vnc_info(api: &str, vm_id: &str, ticket: String, port: u64) -> (r: VncInfo)
    ensures
        r.url@ == vnc_ws_url_spec(api@, vm_id@, port, ticket@),
        r.ticket == ticket,
        r.port == port,
{
    let url = compose_vnc_url(api, vm_id, port, ticket.as_str());
    VncInfo { url, ticket, port }
}

/// The cookie value Proxmox demands on the websocket handshake; the
/// query parameter alone is not accepted.
pub fn pve_auth_cookie(ticket: &str) -> (r: String)
    ensures
        r@ == "PVEAuthCookie="@ + ticket@,
{
    let mut out = String::from_str("PVEAuthCookie=");
    out.append(ticket);
    out
}

/// What authenticates the outbound console socket: the ticket cookie
/// for Proxmox; nothing for Incus, whose driver carries no token.
pub fn console_upstream_auth(node: &Node, ticket: &str) -> (r: Option<String>)
    ensures
        node.node_type == NodeType::Proxmox ==> (r matches Some(h) && h@ == "PVEAuthCookie="@
            + ticket@),
        node.node_type == NodeType::Incus ==> r is None,
{
    match node.node_type {
        NodeType::Proxmox => Some(pve_auth_cookie(ticket)),
        NodeType::Incus => None,
    }
}

// --- outbound handshake ---
/// Scheme of a websocket URL: `Some(true)` for `wss://`,
/// `Some(false)` for `ws://`, `None` for anything else.
pub open spec fn ws_scheme_tls(u: Seq<char>) -> Option<bool> {
    if "wss://"@.is_prefix_of(u) {
        Some(true)
    } else if "ws://"@.is_prefix_of(u) {
        Some(false)
    } else {
        None
    }
}

/// The URL after its scheme.
pub open spec fn ws_after_scheme(u: Seq<char>) -> Seq<char> {
    if "wss://"@.is_prefix_of(u) {
        u.skip("wss://"@.len() as int)
    } else {
        u.skip("ws://"@.len() as int)
    }
}

/// The authority part: everything up to the first `/`.
pub open spec fn authority_of(rest: Seq<char>) -> Seq<char> {
    if find_char(rest, '/') >= 0 {
        rest.take(find_char(rest, '/'))
    } else {
        rest
    }
}

pub open spec fn host_of(auth: Seq<char>) -> Seq<char> {
    if find_char(auth, ':') >= 0 {
        auth.take(find_char(auth, ':'))
    } else {
        auth
    }
}

pub open spec fn port_text_of(auth: Seq<char>) -> Seq<char> {
    if find_char(auth, ':') >= 0 {
        auth.skip(find_char(auth, ':') + 1)
    } else {
        Seq::empty()
    }
}

/// Whether the authority's port part is usable: either absent, or
/// non-empty decimal text no larger than a port can be.
pub open spec fn port_part_ok(auth: Seq<char>) -> bool {
    find_char(auth, ':') < 0 || {
        let pt = port_text_of(auth);
        pt.len() > 0 && all_dec_digits(pt) && dec_value(pt) <= 0xFFFF
    }
}

/// A connect plan for the outbound console websocket.
pub struct WsHandshake {
    /// Negotiate TLS (accepting self-signed certificates is the
    /// transport's configuration).
    pub tls: bool,
    pub host: String,
    /// Explicit port, when the URL names one.
    pub port: Option<u16>,
    /// `Host` header: host, with `:port` unless it is the scheme
    /// default.
    pub host_header: String,
    /// `Origin` header: the matching http(s) origin.
    pub origin: String,
    /// Hard cap on connect time, in seconds.
    pub timeout_secs: u64,
}

/// Everything the handshake plan promises about its URL.
pub open spec fn handshake_plannable(u: Seq<char>) -> bool {
    &&& ws_scheme_tls(u) is Some
    &&& host_of(authority_of(ws_after_scheme(u))).len() > 0
    &&& port_part_ok(authority_of(ws_after_scheme(u)))
    &&& has_substring(u, "vncticket="@)
}

/// Whether `Host` and `Origin` carry an explicit port: only when one
/// is named and it is not the scheme's default.
pub open spec fn nondefault_port(tls: bool, port: Option<u16>) -> bool {
    match port {
        Some(p) => !((tls && p == 443) || (!tls && p == 80)),
        None => false,
    }
}

pub open spec fn host_suffix(tls: bool, port: Option<u16>) -> Seq<char> {
    if nondefault_port(tls, port) {
        seq![':'] + dec_rep(port->0 as nat)
    } else {
        Seq::empty()
    }
}

pub open spec fn origin_scheme(tls: bool) -> Seq<char> {
    if tls {
        "https://"@
    } else {
        "http://"@
    }
}

/// Plan the outbound handshake for a console URL: scheme, host and
/// port taken apart, `Host` and `Origin` composed, the connect
/// timeout fixed at fifteen seconds. A URL without a `vncticket`
/// parameter is refused before any connection is attempted.
#[verifier::rlimit(80)]
pub fn plan_ws_handshake(target_url: &str) -> (r: Result<WsHandshake, GatewayError>)
    ensures
        r is Ok <==> handshake_plannable(target_url@),
        r matches Ok(h) ==> {
            let u = target_url@;
            let auth = authority_of(ws_after_scheme(u));
            &&& Some(h.tls) == ws_scheme_tls(u)
            &&& h.host@ == host_of(auth)
            &&& (match h.port {
                Some(p) => find_char(auth, ':') >= 0 && p == dec_value(port_text_of(auth)),
                None => find_char(auth, ':') < 0,
            })
            &&& h.host_header@ == host_of(auth) + host_suffix(h.tls, h.port)
            &&& h.origin@ == origin_scheme(h.tls) + host_of(auth) + host_suffix(h.tls, h.port)
            &&& h.timeout_secs == 15
        },
        r matches Err(e) ==> (e == GatewayError::BadRequest <==> (ws_scheme_tls(target_url@)
            is Some && host_of(authority_of(ws_after_scheme(target_url@))).len() > 0
            && port_part_ok(authority_of(ws_after_scheme(target_url@))) && !has_substring(
            target_url@,
            "vncticket="@,
        ))),
        r matches Err(e) ==> (e == GatewayError::BadRequest || e == GatewayError::Upstream),
{
    let (tls, rest) = match str_strip_prefix(target_url, "wss://") {
        Some(rest) => (true, rest),
        None => {
            match str_strip_prefix(target_url, "ws://") {
                Some(rest) => (false, rest),
                None => {
                    return Err(GatewayError::Upstream);
                },
            }
        },
    };
    proof {
        assert(rest@ =~= ws_after_scheme(target_url@));
    }
    let auth: &str = match find_char_exec(rest, '/') {
        Some(i) => {
            proof {
                crate::strutil::lemma_find_char_props(rest@, '/');
            }
            rest.substring_char(0, i)
        },
        None => rest,
    };
    proof {
        assert(auth@ =~= authority_of(rest@));
    }
    let alen = auth.unicode_len();
    let (host, port): (&str, Option<u16>) = match find_char_exec(auth, ':') {
        Some(i) => {
            proof {
                crate::strutil::lemma_find_char_props(auth@, ':');
            }
            let h = auth.substring_char(0, i);
            let pt = auth.substring_char(i + 1, alen);
            proof {
                assert(pt@ =~= port_text_of(auth@));
                assert(h@ =~= host_of(auth@));
            }
            match parse_u64(pt) {
                Some(p) => {
                    if p <= 0xFFFF {
                        (h, Some(p as u16))
                    } else {
                        return Err(GatewayError::Upstream);
                    }
                },
                None => {
                    return Err(GatewayError::Upstream);
                },
            }
        },
        None => {
            proof {
                assert(auth@ =~= host_of(auth@));
            }
            (auth, None)
        },
    };
    if host.unicode_len() == 0 {
        return Err(GatewayError::Upstream);
    }
    if !str_contains(target_url, "vncticket=") {
        return Err(GatewayError::BadRequest);
    }
    let explicit = match port {
        Some(p) => !((tls && p == 443) || (!tls && p == 80)),
        None => false,
    };
    proof {
        reveal_strlit(":");
    }
    let mut host_header = String::from_str(host);
    if explicit {
        host_header.append(":");
        let pt = u64_to_string(port.unwrap() as u64);
        host_header.append(pt.as_str());
    }
    let mut origin = if tls {
        String::from_str("https://")
    } else {
        String::from_str("http://")
    };
    origin.append(host_header.as_str());
    proof {
        assert(host_header@ =~= host_of(auth@) + host_suffix(tls, port));
        assert(origin@ =~= origin_scheme(tls) + host_of(auth@) + host_suffix(tls, port));
    }
    Ok(
        WsHandshake {
            tls,
            host: String::from_str(host),
            port,
            host_header,
            origin,
            timeout_secs: 15,
        },
    )
}

// --- handshake failure classification ---
#[derive(Clone, Copy, PartialEq, Eq, Structural, Debug)]
pub enum HandshakeFailure {
    /// The upstream answered 401: the API token lacks console rights.
    TokenUnauthorized,
    /// The upstream answered 403.
    Forbidden,
    /// The upstream answered 404: no such VM or endpoint.
    NotFound,
    /// Anything else.
    Other,
}

pub open spec fn spec_classify_handshake(msg: Seq<char>) -> HandshakeFailure {
    if has_substring(msg, "401"@) {
        HandshakeFailure::TokenUnauthorized
    } else if has_substring(msg, "403"@) {
        HandshakeFailure::Forbidden
    } else if has_substring(msg, "404"@) {
        HandshakeFailure::NotFound
    } else {
        HandshakeFailure::Other
    }
}

/// Classify a failed handshake by the status code its error text
/// names, for the specific operator-facing messages.
pub fn classify_handshake_error(msg: &str) -> (r: HandshakeFailure)
    ensures
        r == spec_classify_handshake(msg@),
{
    if str_contains(msg, "401") {
        HandshakeFailure::TokenUnauthorized
    } else if str_contains(msg, "403") {
        HandshakeFailure::Forbidden
    } else if str_contains(msg, "404") {
        HandshakeFailure::NotFound
    } else {
        HandshakeFailure::Other
    }
}

impl HandshakeFailure {
    /// The operator-facing explanation for this failure.
    pub fn operator_message(&self) -> (r: &'static str)
        ensures
            self is TokenUnauthorized ==> r@
                == "VNC authentication failed. Ensure API token has VM.Console permission"@,
            self is Forbidden ==> r@ == "VNC access forbidden. Check VM permissions"@,
            self is NotFound ==> r@ == "VM or VNC endpoint not found"@,
            self is Other ==> r@ == "Failed to establish VNC connection"@,
    {
        match self {
            HandshakeFailure::TokenUnauthorized => "VNC authentication failed. Ensure API token has VM.Console permission",
            HandshakeFailure::Forbidden => "VNC access forbidden. Check VM permissions",
            HandshakeFailure::NotFound => "VM or VNC endpoint not found",
            HandshakeFailure::Other => "Failed to establish VNC connection",
        }
    }
}

/// The operator-facing message when the connect timeout runs out.
pub fn vnc_timeout_message() -> (r: &'static str)
    ensures
        r@ == "VNC connection timeout - check network and Proxmox availability"@,
{
    "VNC connection timeout - check network and Proxmox availability"
}

// --- the pump ---
/// One websocket frame, as the pump sees it.
pub enum WsFrame {
    Binary(Vec<u8>),
    Text(String),
    Ping(Vec<u8>),
    Pong(Vec<u8>),
    Close,
}

/// What one pump half does with one received frame.
pub struct PumpStep {
    /// The frame to send to the other side, if any.
    pub forward: Option<WsFrame>,
    /// Whether this half terminates after sending.
    pub stop: bool,
}

/// The forwarding rule: every data, ping and pong frame passes
/// through unchanged; a close is answered by forwarding a close and
/// stopping.
pub open spec fn spec_pump_forward(f: WsFrame) -> Option<WsFrame> {
    if f is Close {
        Some(WsFrame::Close)
    } else {
        Some(f)
    }
}

pub open spec fn spec_pump_stops(f: WsFrame) -> bool {
    f is Close
}

pub fn pump_step(f: WsFrame) -> (r: PumpStep)
    ensures
        r.forward == spec_pump_forward(f),
        r.stop == spec_pump_stops(f),
{
    match f {
        WsFrame::Close => PumpStep { forward: Some(WsFrame::Close), stop: true },
        other => PumpStep { forward: Some(other), stop: false },
    }
}

/// What one pump direction emits for a given incoming sequence:
/// every frame ahead of the first close, unchanged and in order,
/// then a close if one arrived.
pub open spec fn relayed_frames(frames: Seq<WsFrame>) -> Seq<WsFrame>
    decreases frames.len(),
{
    if frames.len() == 0 {
        Seq::empty()
    } else if frames[0] is Close {
        seq![WsFrame::Close]
    } else {
        seq![frames[0]] + relayed_frames(frames.skip(1))
    }
}

/// Run one pump direction over a whole incoming sequence.
pub fn pump_session(incoming: Vec<WsFrame>) -> (out: Vec<WsFrame>)
    ensures
        out@ == relayed_frames(incoming@),
{
    let ghost all = incoming@;
    let mut out: Vec<WsFrame> = Vec::new();
    let mut rest = incoming;
    let ghost mut consumed: int = 0;
    let mut stopped = false;
    proof {
        assert(all.skip(0) =~= all);
    }
    while !stopped && rest.len() > 0
        invariant
            0 <= consumed <= all.len(),
            consumed + rest@.len() == all.len(),
            rest@ == all.skip(consumed),
            stopped ==> relayed_frames(all) == out@,
            !stopped ==> relayed_frames(all) == out@ + relayed_frames(all.skip(consumed)),
        decreases rest@.len(),
    {
        let frame = rest.remove(0);
        proof {
            assert(frame == all[consumed]);
            assert(rest@ =~= all.skip(consumed + 1));
            assert(all.skip(consumed).skip(1) =~= all.skip(consumed + 1));
        }
        let step = pump_step(frame);
        stopped = step.stop;
        match step.forward {
            Some(f) => {
                out.push(f);
            },
            None => {
            },
        }
        proof {
            consumed = consumed + 1;
            if stopped {
                assert(all[consumed - 1] is Close);
                assert(relayed_frames(all.skip(consumed - 1)) =~= seq![WsFrame::Close]);
            }
        }
    }
    proof {
        if !stopped {
            assert(all.skip(consumed) =~= Seq::<WsFrame>::empty());
            assert(relayed_frames(all.skip(consumed)) =~= Seq::<WsFrame>::empty());
        }
    }
    out
}

/// Payload transparency: every frame ahead of the first close is
/// relayed exactly as it arrived, at its own position.
pub proof fn lemma_pump_payload_transparent(frames: Seq<WsFrame>, i: int)
    requires
        0 <= i < frames.len(),
        forall|k: int| 0 <= k <= i ==> !(#[trigger] frames[k] is Close),
    ensures
        relayed_frames(frames).len() > i,
        relayed_frames(frames)[i] == frames[i],
    decreases i,
{
    if i == 0 {
    } else {
        let rest = frames.skip(1);
        assert(forall|k: int| 0 <= k <= i - 1 ==> #[trigger] rest[k] == frames[k + 1]);
        lemma_pump_payload_transparent(rest, i - 1);
    }
}

// --- single-use tickets ---
/// A ticket with its one permitted use tracked. Tickets are acquired
/// just in time and never cached across sessions; the upstream
/// refuses a replay, and so does this type.
pub struct ConsoleTicket {
    pub ticket: String,
    pub port: u64,
    pub used: bool,
}

impl ConsoleTicket {
    /// A freshly acquired, not yet spent ticket.
    pub fn fresh(ticket: String, port: u64) -> (r: ConsoleTicket)
        ensures
            r.ticket == ticket,
            r.port == port,
            !r.used,
    {
        ConsoleTicket { ticket, port, used: false }
    }

    /// How one `take` call changes a ticket: it is spent afterwards,
    /// and yields its credentials only if it was not spent before.
    pub open spec fn take_transition(
        pre: ConsoleTicket,
        post: ConsoleTicket,
        r: Option<(String, u64)>,
    ) -> bool {
        &&& post.ticket == pre.ticket
        &&& post.port == pre.port
        &&& post.used
        &&& (r is Some <==> !pre.used)
        &&& (r matches Some(t) ==> t.0 == pre.ticket && t.1 == pre.port)
    }

    /// Spend the ticket for one session.
    pub fn take(&mut self) -> (r: Option<(String, u64)>)
        ensures
            ConsoleTicket::take_transition(*old(self), *final(self), r),
    {
        if self.used {
            None
        } else {
            self.used = true;
            Some((self.ticket.clone(), self.port))
        }
    }
}

/// A ticket is single-use: of two consecutive sessions taking the
/// same ticket, the first gets the credentials and the second gets
/// nothing.
pub proof fn lemma_ticket_single_use(
    s0: ConsoleTicket,
    s1: ConsoleTicket,
    s2: ConsoleTicket,
    r1: Option<(String, u64)>,
    r2: Option<(String, u64)>,
)
    requires
        !s0.used,
        ConsoleTicket::take_transition(s0, s1, r1),
        ConsoleTicket::take_transition(s1, s2, r2),
    ensures
        r1 is Some,
        r2 is None,
{
}

} // verus!
