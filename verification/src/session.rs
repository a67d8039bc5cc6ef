//! The decisions a client session takes while a Bedrock client logs in and
//! plays: which packet it expects next, when compression starts, whether a
//! client's protocol is compatible, and the inventory window state.
//!
//! The session performs no I/O: the connection code calls these transitions
//! as packets arrive and carries out the actions they return.
use vstd::prelude::*;

verus! {

/// Packet ID of `RequestNetworkSettings`.
pub const REQUEST_NETWORK_SETTINGS_ID: u32 = 0xc1;
/// Packet ID of `Login`.
pub const LOGIN_ID: u32 = 0x01;
/// Packet ID of `ClientToServerHandshake`.
pub const CLIENT_TO_SERVER_HANDSHAKE_ID: u32 = 0x04;
/// Packet ID of `ClientCacheStatus`.
pub const CACHE_STATUS_ID: u32 = 0x81;
/// Packet ID of `ResourcePackClientResponse`.
pub const RESOURCE_PACK_CLIENT_RESPONSE_ID: u32 = 0x08;
/// The window ID of the player inventory.
pub const INVENTORY_WINDOW_ID: u8 = 0;

/// The value of the expected packet once the client is fully initialized
/// and no longer follows a strict packet order.
pub const ANY_PACKET: u32 = u32::MAX;

/// How a client's protocol version compares with the server's.
#[derive(Debug, Copy, Clone, PartialEq, Eq, Structural)]
pub enum ProtocolCheck {
    /// Both use the same protocol.
    Compatible,
    /// The client uses a newer protocol: the server is outdated
    /// (the client is told `FailedServer`).
    ServerOutdated,
    /// The client uses an older protocol (the client is told `FailedClient`).
    ClientOutdated,
}

/// Compares a client's protocol version with the server's.
pub fn check_protocol(client: u32, server: u32) -> (c: ProtocolCheck)
    ensures
        client == server ==> c == ProtocolCheck::Compatible,
        client > server ==> c == ProtocolCheck::ServerOutdated,
        client < server ==> c == ProtocolCheck::ClientOutdated,
{
    if client != server {
        if client > server {
            ProtocolCheck::ServerOutdated
        } else {
            ProtocolCheck::ClientOutdated
        }
    } else {
        ProtocolCheck::Compatible
    }
}

/// The render distance granted for a request: the requested radius, capped
/// to the configured maximum (taken as an `i32`).
pub fn allowed_radius(max_render_distance: usize, requested: i32) -> (r: i32)
    ensures
        r == (if (max_render_distance as i32) <= requested { max_render_distance as i32 } else { requested }),
{
    let max = max_render_distance as i32;
    if max <= requested {
        max
    } else {
        requested
    }
}

/// What a session does on a login attempt.
#[derive(Debug, Copy, Clone, PartialEq, Eq, Structural)]
pub enum LoginOutcome {
    /// The identity is recorded and encryption is enabled.
    Accepted,
    /// The login packet could not be read: the client is kicked and the
    /// login fails.
    LoginFailed,
    /// Encryption could not be set up: the client is kicked and the login fails.
    EncryptionFailed,
    /// The client already logged in: it is kicked.
    UnexpectedLogin,
}

/// The login and play state of a client session.
#[derive(Debug, Copy, Clone, PartialEq, Eq, Structural)]
pub struct SessionState {
    /// Next packet that the server is expecting to receive
    /// (`ANY_PACKET` once the client is fully initialized).
    pub expected: u32,
    /// Whether compression has been configured.
    pub should_decompress: bool,
    /// Whether the client supports the blob cache.
    pub supports_cache: bool,
    /// Whether the client's identity is known (it has logged in).
    pub logged_in: bool,
    /// Whether the player's inventory is currently open.
    pub inventory_open: bool,
}

/// The state after a `RequestNetworkSettings` packet: the server expects a
/// login next, and compression starts when the protocols match.
pub open spec fn after_network_settings(s: SessionState, check: ProtocolCheck) -> SessionState {
    SessionState {
        expected: LOGIN_ID,
        should_decompress: if check == ProtocolCheck::Compatible { true } else { s.should_decompress },
        ..s
    }
}

/// The state after a `Login` packet.
pub open spec fn after_login(s: SessionState, decoded: bool, encryption_ok: bool) -> SessionState {
    SessionState {
        expected: CLIENT_TO_SERVER_HANDSHAKE_ID,
        logged_in: s.logged_in || (decoded && encryption_ok),
        ..s
    }
}

/// The outcome of a `Login` packet.
pub open spec fn login_outcome(s: SessionState, decoded: bool, encryption_ok: bool) -> LoginOutcome {
    if !decoded {
        LoginOutcome::LoginFailed
    } else if !encryption_ok {
        LoginOutcome::EncryptionFailed
    } else if s.logged_in {
        LoginOutcome::UnexpectedLogin
    } else {
        LoginOutcome::Accepted
    }
}

impl SessionState {
    /// A new session expects the client to request the network settings.
    pub fn new() -> (s: SessionState)
        ensures
            s.expected == REQUEST_NETWORK_SETTINGS_ID,
            !s.should_decompress,
            !s.supports_cache,
            !s.logged_in,
            !s.inventory_open,
    {
        SessionState {
            expected: REQUEST_NETWORK_SETTINGS_ID,
            should_decompress: false,
            supports_cache: false,
            logged_in: false,
            inventory_open: false,
        }
    }

    /// Whether the client is fully initialized.
    pub open spec fn spec_initialized(&self) -> bool {
        self.expected == ANY_PACKET
    }

    /// Whether a received packet is out of order: the client is still
    /// logging in and the packet is not the one expected. Such a client is
    /// kicked.
    pub open spec fn spec_unexpected(&self, id: u32) -> bool {
        self.expected != ANY_PACKET && id != self.expected
    }

    /// Returns whether the user is fully initialized.
    pub fn initialized(&self) -> (b: bool)
        ensures
            b == self.spec_initialized(),
    {
        self.expected == ANY_PACKET
    }

    /// Returns whether the packet with header ID `id` arrives out of order.
    pub fn is_unexpected(&self, id: u32) -> (b: bool)
        ensures
            b == self.spec_unexpected(id),
    {
        self.expected != ANY_PACKET && id != self.expected
    }

    /// Handles a `RequestNetworkSettings` packet carrying the client's
    /// protocol version: compression is enabled only when it matches the
    /// server's.
    pub fn on_network_settings(&mut self, client_protocol: u32, server_protocol: u32) -> (c: ProtocolCheck)
        ensures
            c == (if client_protocol == server_protocol {
                ProtocolCheck::Compatible
            } else if client_protocol > server_protocol {
                ProtocolCheck::ServerOutdated
            } else {
                ProtocolCheck::ClientOutdated
            }),
            *final(self) == after_network_settings(*old(self), c),
    {
        self.expected = LOGIN_ID;
        let c = check_protocol(client_protocol, server_protocol);
        if c == ProtocolCheck::Compatible {
            self.should_decompress = true;
        }
        c
    }

    /// Handles a `Login` packet: `decoded` tells whether it could be read and
    /// `encryption_ok` whether encryption could be set up from it.
    pub fn on_login(&mut self, decoded: bool, encryption_ok: bool) -> (o: LoginOutcome)
        ensures
            o == login_outcome(*old(self), decoded, encryption_ok),
            *final(self) == after_login(*old(self), decoded, encryption_ok),
    {
        self.expected = CLIENT_TO_SERVER_HANDSHAKE_ID;
        if !decoded {
            return LoginOutcome::LoginFailed;
        }
        if !encryption_ok {
            return LoginOutcome::EncryptionFailed;
        }
        if self.logged_in {
            return LoginOutcome::UnexpectedLogin;
        }
        self.logged_in = true;
        LoginOutcome::Accepted
    }

    /// Handles a `ClientToServerHandshake` packet: the cache status comes next.
    pub fn on_client_to_server_handshake(&mut self)
        ensures
            *final(self) == (SessionState { expected: CACHE_STATUS_ID, ..*old(self) }),
    {
        self.expected = CACHE_STATUS_ID;
    }

    /// Handles a `ClientCacheStatus` packet: records blob cache support; the
    /// resource pack response comes next.
    pub fn on_cache_status(&mut self, supports_cache: bool)
        ensures
            *final(self) == (SessionState {
                expected: RESOURCE_PACK_CLIENT_RESPONSE_ID,
                supports_cache,
                ..*old(self)
            }),
    {
        self.expected = RESOURCE_PACK_CLIENT_RESPONSE_ID;
        self.supports_cache = supports_cache;
    }

    /// Handles a `ResourcePackClientResponse` packet: the client is now
    /// initialized.
    pub fn on_resource_pack_response(&mut self)
        ensures
            *final(self) == (SessionState { expected: ANY_PACKET, ..*old(self) }),
    {
        self.expected = ANY_PACKET;
    }

    /// Handles a `SetLocalPlayerAsInitialized` packet: the client is
    /// initialized.
    pub fn on_local_initialized(&mut self)
        ensures
            *final(self) == (SessionState { expected: ANY_PACKET, ..*old(self) }),
    {
        self.expected = ANY_PACKET;
    }

    /// Handles a request to open the inventory. Returns whether the server
    /// opens the inventory window (it was closed).
    pub fn on_open_inventory(&mut self) -> (open: bool)
        ensures
            open == !old(self).inventory_open,
            *final(self) == (SessionState { inventory_open: true, ..*old(self) }),
    {
        let was_open = self.inventory_open;
        self.inventory_open = true;
        !was_open
    }

    /// Handles a `ContainerClose` packet. Returns whether it closes the
    /// inventory (and the server answers with its own close).
    pub fn on_container_close(&mut self, window_id: u8) -> (closed: bool)
        ensures
            closed == (window_id == INVENTORY_WINDOW_ID),
            closed ==> *final(self) == (SessionState { inventory_open: false, ..*old(self) }),
            !closed ==> *final(self) == *old(self),
    {
        if window_id == INVENTORY_WINDOW_ID {
            self.inventory_open = false;
            true
        } else {
            false
        }
    }
}

/// Law: a client that sends the login packets in order, with a matching
/// protocol and a valid login, is never refused along the way, ends up
/// initialized with compression enabled, and keeps its cache support choice.
pub proof fn lemma_login_sequence(protocol: u32, supports_cache: bool)
    ensures
        ({
            let s0 = SessionState {
                expected: REQUEST_NETWORK_SETTINGS_ID,
                should_decompress: false,
                supports_cache: false,
                logged_in: false,
                inventory_open: false,
            };
            let s1 = after_network_settings(s0, ProtocolCheck::Compatible);
            let s2 = after_login(s1, true, true);
            let s3 = SessionState { expected: CACHE_STATUS_ID, ..s2 };
            let s4 = SessionState { expected: RESOURCE_PACK_CLIENT_RESPONSE_ID, supports_cache, ..s3 };
            let s5 = SessionState { expected: ANY_PACKET, ..s4 };
            &&& !s0.spec_unexpected(REQUEST_NETWORK_SETTINGS_ID)
            &&& !s1.spec_unexpected(LOGIN_ID)
            &&& login_outcome(s1, true, true) == LoginOutcome::Accepted
            &&& !s2.spec_unexpected(CLIENT_TO_SERVER_HANDSHAKE_ID)
            &&& !s3.spec_unexpected(CACHE_STATUS_ID)
            &&& !s4.spec_unexpected(RESOURCE_PACK_CLIENT_RESPONSE_ID)
            &&& s5.spec_initialized()
            &&& s5.should_decompress
            &&& s5.supports_cache == supports_cache
            &&& s5.logged_in
        }),
{
}

/// Law: an initialized session accepts every packet, and a session still
/// logging in refuses every packet but the expected one.
pub proof fn lemma_packet_order(s: SessionState, id: u32)
    ensures
        s.spec_initialized() ==> !s.spec_unexpected(id),
        !s.spec_initialized() ==> (s.spec_unexpected(id) <==> id != s.expected),
{
}

/// Law: a second login on a session that has logged in is refused, and does
/// not log the session out.
pub proof fn lemma_second_login_refused(s: SessionState)
    requires
        s.logged_in,
    ensures
        login_outcome(s, true, true) == LoginOutcome::UnexpectedLogin,
        after_login(s, true, true).logged_in,
{
}

/// What the server does with a text message sent by a client.
#[derive(Debug, Clone, Copy, PartialEq, Eq, Structural)]
pub enum TextVerdict {
    /// The chat message is broadcast to every client, its sender included
    /// (otherwise it would not show in the sender's own chat).
    Broadcast,
    /// The message claims another source than the client's own name: the
    /// client is kicked for illegal packet modifications.
    KickForgedSource,
    /// Only the server may create text packets that are not chat messages:
    /// the client is kicked.
    KickIllegalType,
}

/// Judges a text message from a client named `client_name`.
/// `chat_source` holds the source of a chat message, and is `None` for any
/// other type of text message.
pub fn judge_text_message(client_name: &str, chat_source: Option<&str>) -> (v: TextVerdict)
    ensures
        chat_source is None ==> v == TextVerdict::KickIllegalType,
        chat_source is Some ==> (v == TextVerdict::Broadcast <==> chat_source->0@ == client_name@),
        chat_source is Some && chat_source->0@ != client_name@ ==> v == TextVerdict::KickForgedSource,
{
    match chat_source {
        None => TextVerdict::KickIllegalType,
        Some(source) => {
            let name = String::from_str(client_name);
            let source = String::from_str(source);
            if name == source {
                TextVerdict::Broadcast
            } else {
                TextVerdict::KickForgedSource
            }
        },
    }
}

/// What reaches a client's receiving task.
#[derive(Debug, Clone, Copy, PartialEq, Eq, Structural)]
pub enum ClientEvent {
    /// The transport layer delivered a frame.
    Received,
    /// The client used up its request budget.
    BudgetExhausted,
    /// The transport layer reports that the client disconnected.
    Disconnected,
    /// The channel from the transport layer was closed.
    ChannelClosed,
    /// A packet was broadcast to every client.
    Broadcast,
    /// The broadcast channel reported an error (such as lagging behind).
    BroadcastFailed,
    /// The connection was cancelled (the server or client is shutting down).
    Cancelled,
}

/// What a client's receiving task does with an event.
#[derive(Debug, Clone, Copy, PartialEq, Eq, Structural)]
pub enum ClientAction {
    /// Decrypt, decompress and handle the frame.
    HandleFrame,
    /// Kick the client for exhausting its budget, and force a disconnect
    /// when the kick fails.
    KickForBudget,
    /// Send the broadcast packet to the client.
    HandleBroadcast,
    /// Nothing to do.
    Ignore,
}

/// The step of a client's receiving task: whether it keeps running after
/// the event, and what it does with it. It stops when the transport layer
/// reports a disconnect, when its channel closes, and once the connection
/// is cancelled.
pub fn on_client_event(event: ClientEvent) -> (r: (bool, ClientAction))
    ensures
        r.0 == !(event == ClientEvent::Disconnected || event == ClientEvent::ChannelClosed || event
            == ClientEvent::Cancelled),
        r.1 == (match event {
            ClientEvent::Received => ClientAction::HandleFrame,
            ClientEvent::BudgetExhausted => ClientAction::KickForBudget,
            ClientEvent::Broadcast => ClientAction::HandleBroadcast,
            _ => ClientAction::Ignore,
        }),
{
    match event {
        ClientEvent::Received => (true, ClientAction::HandleFrame),
        ClientEvent::BudgetExhausted => (true, ClientAction::KickForBudget),
        ClientEvent::Disconnected => (false, ClientAction::Ignore),
        ClientEvent::ChannelClosed => (false, ClientAction::Ignore),
        ClientEvent::Broadcast => (true, ClientAction::HandleBroadcast),
        ClientEvent::BroadcastFailed => (true, ClientAction::Ignore),
        ClientEvent::Cancelled => (false, ClientAction::Ignore),
    }
}

} // verus!
