//! The topic/gossip manager.
//!
//! `P2PNode` owns the node identity, the set of joined topics (one dispatch
//! channel per topic), the names registry, and a status snapshot. Everything
//! the node decides — joining, leaving, signing outbound messages, routing
//! inbound ones — is computed here; the surrounding runtime performs the
//! network sends it is handed (dial these peers, broadcast these bytes) and
//! feeds received bytes back in.

use vstd::prelude::*;
use vstd::string::StringExecFns;

use crate::envelope::{
    enc_envelope, payload_fits, verify_decode_spec, EnvelopeView, SignedMessage,
};
use crate::error::{NodeError, NodeResult};
use crate::identity::{hex_of, sig_of, NodeIdentity};
use crate::message::{enc_message, MessageType, MessageTypeView};
use crate::registry::{bytes_eq, clone_bytes, NamesRegistry};
use crate::ticket::{
    base32_lower_of, enc_ticket, peer_wf, ticket_from_bytes_spec, ticket_wf, PeerAddr,
    PeerAddrView, Ticket, TicketView,
};

verus! {

// ---------------------------------------------------------------------------
// Wall-clock time (trusted boundary to the `chrono` crate)
// ---------------------------------------------------------------------------

/// Relies on `chrono::Utc::now`: the current wall-clock time in milliseconds
/// since the Unix epoch. Nothing is promised of its value.
#[verifier::external_body]
pub(crate) fn now_millis() -> (r: i64) {
    chrono::Utc::now().timestamp_millis()
}

/// The current time clamped to an unsigned millisecond count.
pub(crate) fn current_time() -> (r: u64) {
    let t = now_millis();
    if t < 0 {
        0
    } else {
        t as u64
    }
}

// ---------------------------------------------------------------------------
// Configuration
// ---------------------------------------------------------------------------

/// Node startup parameters.
pub struct NodeConfig {
    /// A fixed 32-byte secret seed; a fresh identity is generated when absent.
    pub secret_key: Option<Vec<u8>>,
    /// A custom relay server URL.
    pub relay: Option<String>,
    /// Disable relaying entirely; exclusive with `relay`.
    pub no_relay: bool,
    /// The node's display name.
    pub name: Option<String>,
    /// The transport port to bind; zero picks a free one.
    pub bind_port: u16,
}

impl NodeConfig {
    pub fn new() -> (r: NodeConfig)
        ensures
            r.secret_key is None,
            r.relay is None,
            !r.no_relay,
            r.name is None,
            r.bind_port == 0,
    {
        NodeConfig { secret_key: None, relay: None, no_relay: false, name: None, bind_port: 0 }
    }

    pub fn with_secret_key(self, secret_key: Option<Vec<u8>>) -> (r: NodeConfig)
        ensures
            r == (NodeConfig { secret_key, ..self }),
    {
        NodeConfig { secret_key, ..self }
    }

    pub fn with_relay(self, relay: Option<String>) -> (r: NodeConfig)
        ensures
            r == (NodeConfig { relay, ..self }),
    {
        NodeConfig { relay, ..self }
    }

    pub fn with_no_relay(self, no_relay: bool) -> (r: NodeConfig)
        ensures
            r == (NodeConfig { no_relay, ..self }),
    {
        NodeConfig { no_relay, ..self }
    }

    pub fn with_name(self, name: Option<String>) -> (r: NodeConfig)
        ensures
            r == (NodeConfig { name, ..self }),
    {
        NodeConfig { name, ..self }
    }

    pub fn with_bind_port(self, bind_port: u16) -> (r: NodeConfig)
        ensures
            r == (NodeConfig { bind_port, ..self }),
    {
        NodeConfig { bind_port, ..self }
    }
}

impl Default for NodeConfig {
    fn default() -> (r: NodeConfig)
        ensures
            r.secret_key is None,
            r.relay is None,
            !r.no_relay,
            r.name is None,
            r.bind_port == 0,
    {
        NodeConfig::new()
    }
}

/// How the node reaches peers behind NATs.
pub enum RelayMode {
    /// The default production relay servers.
    Default,
    /// The default staging relay servers.
    Staging,
    /// No relay at all.
    Disabled,
    /// A custom relay URL.
    Custom(String),
}

#[verifier::ext_equal]
pub ghost enum RelayModeView {
    Default,
    Staging,
    Disabled,
    Custom(Seq<char>),
}

impl View for RelayMode {
    type V = RelayModeView;

    open spec fn view(&self) -> RelayModeView {
        match *self {
            RelayMode::Default => RelayModeView::Default,
            RelayMode::Staging => RelayModeView::Staging,
            RelayMode::Disabled => RelayModeView::Disabled,
            RelayMode::Custom(ref u) => RelayModeView::Custom(u@),
        }
    }
}

pub open spec fn relay_label_spec(m: RelayModeView) -> Seq<char> {
    match m {
        RelayModeView::Default => "default relay servers"@,
        RelayModeView::Staging => "staging relay servers"@,
        RelayModeView::Disabled => "no relay"@,
        RelayModeView::Custom(u) => u,
    }
}

/// A short description of the relay mode for status displays.
pub fn fmt_relay_mode(m: &RelayMode) -> (r: String)
    ensures
        r@ == relay_label_spec(m@),
{
    match m {
        RelayMode::Default => String::from_str("default relay servers"),
        RelayMode::Staging => String::from_str("staging relay servers"),
        RelayMode::Disabled => String::from_str("no relay"),
        RelayMode::Custom(u) => u.clone(),
    }
}

// ---------------------------------------------------------------------------
// Status
// ---------------------------------------------------------------------------

/// A snapshot of the node's state.
pub struct NodeStatus {
    /// The node's textual identifier (its public key in hex).
    pub node_id: String,
    /// The node's own transport address, once bound.
    pub node_addr: Option<PeerAddr>,
    /// How many peers are currently connected.
    pub connected_peers: usize,
    /// How many topics are active.
    pub active_topics: usize,
    /// When the node was created, in milliseconds since the epoch.
    pub started_at: u64,
    /// When the node last joined a topic or sent a message.
    pub last_activity: u64,
    /// A description of the relay mode.
    pub relay_mode: String,
}

#[verifier::ext_equal]
pub ghost struct NodeStatusView {
    pub node_id: Seq<char>,
    pub node_addr: Option<PeerAddrView>,
    pub connected_peers: usize,
    pub active_topics: usize,
    pub started_at: u64,
    pub last_activity: u64,
    pub relay_mode: Seq<char>,
}

impl View for NodeStatus {
    type V = NodeStatusView;

    open spec fn view(&self) -> NodeStatusView {
        NodeStatusView {
            node_id: self.node_id@,
            node_addr: match self.node_addr {
                Some(ref a) => Some(a@),
                None => None,
            },
            connected_peers: self.connected_peers,
            active_topics: self.active_topics,
            started_at: self.started_at,
            last_activity: self.last_activity,
            relay_mode: self.relay_mode@,
        }
    }
}

impl NodeStatus {
    /// Copy the snapshot.
    pub fn duplicate(&self) -> (r: NodeStatus)
        ensures
            r@ == self@,
    {
        let r = NodeStatus {
            node_id: self.node_id.clone(),
            node_addr: match &self.node_addr {
                Some(a) => Some(a.duplicate()),
                None => None,
            },
            connected_peers: self.connected_peers,
            active_topics: self.active_topics,
            started_at: self.started_at,
            last_activity: self.last_activity,
            relay_mode: self.relay_mode.clone(),
        };
        assert(r@ =~= self@);
        r
    }
}

// ---------------------------------------------------------------------------
// Outcomes handed to the runtime
// ---------------------------------------------------------------------------

/// What a join produced: the topic, its invitation ticket, whether a new
/// receive/dispatch pair must be started, and the peers to dial first.
pub struct JoinOutcome {
    pub topic: Vec<u8>,
    pub ticket: String,
    pub newly_joined: bool,
    pub peers_to_dial: Vec<PeerAddr>,
}

/// How one verified inbound message was routed.
pub enum Dispatch {
    /// The envelope failed verification or decoding; it was dropped, never
    /// dispatched.
    Dropped { error: NodeError },
    /// A chat line, attributed to the sender's registered name or, when none
    /// is known, a short form of the public key.
    ChatLine { sender_name: String, text: String },
    /// A name announcement was recorded in the names registry.
    NameUpdated { key: Vec<u8>, name: String },
    /// The sender asked the external agent; the runtime must perform the call
    /// on a task of its own and hand the outcome to [`P2PNode::make_agent_reply`].
    AgentCall { prompt: String, agent_id: String },
    /// Forwarded to subscribers as-is.
    Forwarded { from: Vec<u8>, message: MessageType },
    /// Nothing to do.
    Ignored,
}

/// A short display form of a public key: its first four bytes in hex.
pub open spec fn short_key_text(pk: Seq<u8>) -> Seq<char> {
    hex_of(pk.take(4))
}

/// The canonical ticket text this node hands out for a topic: the topic
/// together with the node's own address as the only peer.
pub open spec fn ticket_text_for(addr: PeerAddrView, topic: Seq<u8>) -> Seq<char> {
    base32_lower_of(enc_ticket(TicketView { topic, peers: seq![addr] }))
}

// ---------------------------------------------------------------------------
// The node
// ---------------------------------------------------------------------------

/// The P2P node: identity, joined topics, names registry, status.
pub struct P2PNode {
    pub config: NodeConfig,
    pub identity: NodeIdentity,
    pub name: Option<String>,
    pub relay_mode: RelayMode,
    pub status: NodeStatus,
    /// The joined topic identifiers; exactly one receive loop and one
    /// dispatch channel exist per entry.
    pub topics: Vec<Vec<u8>>,
    pub names: NamesRegistry,
    pub running: bool,
}

impl P2PNode {
    /// The joined topic identifiers.
    pub open spec fn topic_ids(&self) -> Seq<Seq<u8>> {
        self.topics@.map_values(|t: Vec<u8>| t@)
    }

    pub open spec fn joined_spec(&self, t: Seq<u8>) -> bool {
        self.topic_ids().contains(t)
    }

    pub open spec fn pk(&self) -> Seq<u8> {
        self.identity.public_view()
    }

    pub open spec fn seed(&self) -> Seq<u8> {
        self.identity.seed()
    }

    /// The node's own address, once started.
    pub open spec fn addr_spec(&self) -> Option<PeerAddrView> {
        match self.status.node_addr {
            Some(ref a) => Some(a@),
            None => None,
        }
    }

    pub open spec fn wf(&self) -> bool {
        &&& self.identity.wf()
        &&& self.status.node_id@ == hex_of(self.pk())
        &&& self.names.wf()
        &&& self.status.active_topics == self.topics@.len()
        &&& forall|i: int|
            0 <= i < self.topics@.len() ==> (#[trigger] self.topics@[i])@.len() == crate::ID_LEN
        &&& forall|i: int, j: int|
            0 <= i < j < self.topics@.len() ==> self.topics@[i]@ != self.topics@[j]@
        &&& (self.running ==> self.addr_spec() is Some)
        &&& (self.addr_spec() is Some ==> peer_wf(self.addr_spec()->0))
    }

    /// Everything except the topic list, the topic count, and the activity
    /// time is the same in both nodes.
    pub open spec fn same_but_topics_and_activity(&self, other: &P2PNode) -> bool {
        &&& other.config == self.config
        &&& other.identity == self.identity
        &&& other.name == self.name
        &&& other.relay_mode == self.relay_mode
        &&& other.names == self.names
        &&& other.running == self.running
        &&& other.status.node_id == self.status.node_id
        &&& other.status.node_addr == self.status.node_addr
        &&& other.status.connected_peers == self.status.connected_peers
        &&& other.status.started_at == self.status.started_at
        &&& other.status.relay_mode == self.status.relay_mode
    }

    /// Build a node from its configuration. Fails with `ConfigError` exactly
    /// when relaying is both disabled and customized, or the supplied secret
    /// key does not have the key length.
    pub fn new(config: NodeConfig) -> (r: NodeResult<P2PNode>)
        ensures
            match r {
                Ok(n) => {
                    &&& n.wf()
                    &&& !n.running
                    &&& n.topics@.len() == 0
                    &&& n.name is None
                    &&& n.addr_spec() is None
                    &&& n.status.connected_peers == 0
                    &&& n.status.active_topics == 0
                    &&& forall|k: Seq<u8>| n.names.lookup(k) is None
                    &&& !(config.no_relay && config.relay is Some)
                    &&& (config.secret_key matches Some(k) ==> k@.len() == crate::ID_LEN
                        && n.seed() == k@)
                },
                Err(e) => {
                    &&& e is ConfigError
                    &&& ((config.no_relay && config.relay is Some) || (
                    config.secret_key matches Some(k) && k@.len() != crate::ID_LEN))
                },
            },
    {
        let relay_mode = if config.no_relay {
            if config.relay.is_some() {
                return Err(
                    NodeError::ConfigError(
                        String::from_str("cannot disable relaying and set a relay URL at once"),
                    ),
                );
            }
            RelayMode::Disabled
        } else {
            match &config.relay {
                Some(u) => RelayMode::Custom(u.clone()),
                None => RelayMode::Default,
            }
        };
        let identity = match &config.secret_key {
            Some(k) => {
                if k.len() != crate::ID_LEN {
                    return Err(
                        NodeError::ConfigError(
                            String::from_str("the secret key must be exactly 32 bytes"),
                        ),
                    );
                }
                NodeIdentity::from_seed(clone_bytes(k))
            },
            None => NodeIdentity::generate(),
        };
        let node_id = identity.node_id_text();
        let now = current_time();
        let status = NodeStatus {
            node_id,
            node_addr: None,
            connected_peers: 0,
            active_topics: 0,
            started_at: now,
            last_activity: now,
            relay_mode: fmt_relay_mode(&relay_mode),
        };
        Ok(
            P2PNode {
                config,
                identity,
                name: None,
                relay_mode,
                status,
                topics: Vec::new(),
                names: NamesRegistry::new(),
                running: false,
            },
        )
    }

    /// Mark the node running, recording the address the transport bound.
    /// Starting an already-running node changes nothing. When a display name
    /// is set, returns one name announcement per active topic for the runtime
    /// to broadcast.
    pub fn start(&mut self, addr: PeerAddr) -> (r: NodeResult<Vec<(Vec<u8>, Vec<u8>)>>)
        requires
            old(self).wf(),
            peer_wf(addr@),
        ensures
            final(self).wf(),
            match r {
                Ok(broadcasts) => {
                    &&& final(self).running
                    &&& (old(self).running ==> *final(self) == *old(self) && broadcasts@.len() == 0)
                    &&& (!old(self).running ==> *final(self) == (P2PNode {
                        running: true,
                        status: (NodeStatus {
                            node_addr: Some(addr),
                            ..old(self).status
                        }),
                        ..*old(self)
                    }) && final(self).addr_spec() == Some(addr@))
                    &&& (old(self).name is None && !old(self).running ==> broadcasts@.len() == 0)
                    &&& (old(self).name matches Some(nm) ==> !old(self).running ==> {
                        &&& broadcasts@.len() == old(self).topic_ids().len()
                        &&& forall|i: int|
                            0 <= i < broadcasts@.len() ==> (#[trigger] broadcasts@[i]).0@ == old(
                                self,
                            ).topic_ids()[i] && broadcasts@[i].1@ == enc_envelope(
                                EnvelopeView {
                                    from: old(self).pk(),
                                    data: enc_message(
                                        MessageTypeView::NodeInfo { name: Some(nm@) },
                                    ),
                                    sig: sig_of(
                                        old(self).seed(),
                                        enc_message(MessageTypeView::NodeInfo { name: Some(nm@) }),
                                    ),
                                },
                            )
                    })
                },
                Err(e) => {
                    &&& e is EncodeError
                    &&& *final(self) == *old(self)
                    &&& !old(self).running
                    &&& (old(self).name matches Some(nm) && !payload_fits(
                        MessageTypeView::NodeInfo { name: Some(nm@) },
                    ))
                },
            },
    {
        if self.running {
            return Ok(Vec::new());
        }
        let mut broadcasts: Vec<(Vec<u8>, Vec<u8>)> = Vec::new();
        match &self.name {
            None => {},
            Some(nm) => {
                let message = MessageType::NodeInfo { name: Some(nm.clone()) };
                let bytes = match SignedMessage::sign_and_encode(&self.identity, &message) {
                    Ok(b) => b,
                    Err(e) => {
                        return Err(e);
                    },
                };
                let ghost ids = self.topic_ids();
                let mut i: usize = 0;
                while i < self.topics.len()
                    invariant
                        i <= self.topics@.len(),
                        ids == self.topic_ids(),
                        broadcasts@.len() == i,
                        forall|j: int|
                            0 <= j < i ==> (#[trigger] broadcasts@[j]).0@ == ids[j]
                                && broadcasts@[j].1@ == bytes@,
                    decreases self.topics@.len() - i,
                {
                    broadcasts.push((clone_bytes(&self.topics[i]), clone_bytes(&bytes)));
                    i += 1;
                }
            },
        }
        self.status.node_addr = Some(addr);
        self.running = true;
        Ok(broadcasts)
    }

    /// Set the node's display name.
    pub fn set_name(&mut self, name: String)
        ensures
            *final(self) == (P2PNode { name: Some(name), ..*old(self) }),
    {
        self.name = Some(name);
    }

    /// A snapshot of the node's status.
    pub fn get_status(&self) -> (r: NodeStatus)
        ensures
            r@ == self.status@,
    {
        self.status.duplicate()
    }

    /// The node's textual identifier.
    pub fn node_id(&self) -> (r: &str)
        ensures
            r@ == self.status.node_id@,
    {
        self.status.node_id.as_str()
    }

    /// Whether the node is running.
    pub fn is_running(&self) -> (r: bool)
        ensures
            r == self.running,
    {
        self.running
    }

    /// The joined topic identifiers.
    pub fn get_active_topics(&self) -> (r: Vec<Vec<u8>>)
        ensures
            r@.map_values(|t: Vec<u8>| t@) == self.topic_ids(),
    {
        let mut out: Vec<Vec<u8>> = Vec::new();
        let mut i: usize = 0;
        while i < self.topics.len()
            invariant
                i <= self.topics@.len(),
                out@.map_values(|t: Vec<u8>| t@) == self.topic_ids().take(i as int),
            decreases self.topics@.len() - i,
        {
            let ghost pre = out@;
            out.push(clone_bytes(&self.topics[i]));
            proof {
                assert(out@.map_values(|t: Vec<u8>| t@) =~= pre.map_values(|t: Vec<u8>| t@).push(
                    out@[i as int]@,
                ));
                assert(self.topic_ids().take(i as int + 1) =~= self.topic_ids().take(
                    i as int,
                ).push(self.topic_ids()[i as int]));
                assert(out@.map_values(|t: Vec<u8>| t@) =~= self.topic_ids().take(i as int + 1));
            }
            i += 1;
        }
        assert(self.topic_ids().take(self.topics@.len() as int) =~= self.topic_ids());
        out
    }

    /// The index of a joined topic.
    fn find_topic(&self, t: &Vec<u8>) -> (r: Option<usize>)
        ensures
            match r {
                Some(i) => i < self.topics@.len() && self.topics@[i as int]@ == t@
                    && self.joined_spec(t@),
                None => !self.joined_spec(t@),
            },
    {
        let mut i: usize = 0;
        while i < self.topics.len()
            invariant
                i <= self.topics@.len(),
                forall|j: int| 0 <= j < i ==> self.topic_ids()[j] != t@,
            decreases self.topics@.len() - i,
        {
            if bytes_eq(&self.topics[i], t) {
                assert(self.topic_ids()[i as int] == t@);
                return Some(i);
            }
            i += 1;
        }
        assert forall|j: int| 0 <= j < self.topic_ids().len() implies self.topic_ids()[j]
            != t@ by {}
        None
    }

    /// The invitation ticket for a topic: the topic plus this node's own
    /// address as the peer to dial.
    fn generate_ticket(&self, topic: &Vec<u8>) -> (r: String)
        requires
            self.wf(),
            self.addr_spec() is Some,
            topic@.len() == crate::ID_LEN,
        ensures
            r@ == ticket_text_for(self.addr_spec()->0, topic@),
    {
        let me = match &self.status.node_addr {
            Some(a) => a.duplicate(),
            None => {
                proof {
                    assert(false);
                }
                PeerAddr { node_id: Vec::new(), relay_url: None, direct_addresses: Vec::new() }
            },
        };
        let mut peers: Vec<PeerAddr> = Vec::new();
        peers.push(me);
        let t = Ticket { topic: clone_bytes(topic), peers };
        assert(t@.peers =~= seq![self.addr_spec()->0]);
        t.encode()
    }

    /// Create or join a topic.
    ///
    /// With an explicit topic identifier and no ticket, a fresh topic with no
    /// peers is created; with neither, a random topic identifier is used;
    /// with a ticket, the ticket is decoded and its peers are to be dialed.
    /// Joining a topic that is already active returns the existing topic's
    /// ticket and changes nothing — in particular no second receive loop or
    /// dispatch channel comes to exist (`newly_joined` is false).
    pub fn join_topic(&mut self, topic: Option<Vec<u8>>, ticket: Option<&str>) -> (r: NodeResult<
        JoinOutcome,
    >)
        requires
            old(self).wf(),
        ensures
            final(self).wf(),
            match r {
                Ok(o) => {
                    &&& old(self).running
                    &&& o.topic@.len() == crate::ID_LEN
                    &&& final(self).joined_spec(o.topic@)
                    &&& (o.newly_joined <==> !old(self).joined_spec(o.topic@))
                    &&& (old(self).joined_spec(o.topic@) ==> *final(self) == *old(self)
                        && o.peers_to_dial@.len() == 0)
                    &&& (!old(self).joined_spec(o.topic@) ==> {
                        &&& final(self).topic_ids() == old(self).topic_ids().push(o.topic@)
                        &&& old(self).same_but_topics_and_activity(final(self))
                        &&& final(self).status.active_topics == old(self).topics@.len() + 1
                    })
                    &&& o.ticket@ == ticket_text_for(old(self).addr_spec()->0, o.topic@)
                    &&& (topic matches Some(t) ==> ticket is None ==> o.topic@ == t@)
                    &&& (ticket matches Some(s) ==> forall|b: Seq<u8>|
                        crate::ticket::ascii_lower_of(s@) == base32_lower_of(b) ==> (
                        ticket_from_bytes_spec(b) matches Some(tv) && tv.topic == o.topic@ && (
                        o.newly_joined ==> tv.peers == crate::ticket::peers_view(
                            o.peers_to_dial@,
                        ))))
                },
                Err(e) => {
                    &&& *final(self) == *old(self)
                    &&& (!old(self).running ==> e is ConfigError)
                    &&& (e is DecodeError ==> old(self).running && ticket is Some)
                    &&& (ticket matches Some(s) ==> old(self).running ==> e is DecodeError
                        && forall|b: Seq<u8>|
                        crate::ticket::ascii_lower_of(s@) == base32_lower_of(b)
                            ==> ticket_from_bytes_spec(b) is None)
                    &&& (old(self).running && ticket is None ==> e is ConfigError && (
                    topic matches Some(t) && t@.len() != crate::ID_LEN))
                },
            },
    {
        if !self.running {
            return Err(NodeError::ConfigError(String::from_str("the node is not started")));
        }
        let (topic_id, peers): (Vec<u8>, Vec<PeerAddr>) = match ticket {
            Some(s) => {
                let t = match Ticket::decode(s) {
                    Ok(t) => t,
                    Err(e) => {
                        return Err(e);
                    },
                };
                (t.topic, t.peers)
            },
            None => match topic {
                Some(t) => {
                    if t.len() != crate::ID_LEN {
                        return Err(
                            NodeError::ConfigError(
                                String::from_str("a topic identifier must be exactly 32 bytes"),
                            ),
                        );
                    }
                    (t, Vec::new())
                },
                None => (crate::identity::random_bytes_32(), Vec::new()),
            },
        };
        if let Some(_i) = self.find_topic(&topic_id) {
            let text = self.generate_ticket(&topic_id);
            return Ok(
                JoinOutcome {
                    topic: topic_id,
                    ticket: text,
                    newly_joined: false,
                    peers_to_dial: Vec::new(),
                },
            );
        }
        let ghost old_ids = self.topic_ids();
        self.topics.push(clone_bytes(&topic_id));
        proof {
            assert(self.topic_ids() =~= old_ids.push(topic_id@));
            assert(self.topic_ids()[old_ids.len() as int] == topic_id@);
            assert(self.joined_spec(topic_id@));
            assert forall|a: int, b: int|
                0 <= a < b < self.topic_ids().len() implies self.topics@[a]@
                != self.topics@[b]@ by {
                if b < old_ids.len() {
                    assert(old(self).topics@[a]@ != old(self).topics@[b]@);
                } else {
                    assert(self.topic_ids()[a] == old_ids[a]);
                    if old_ids[a] == topic_id@ {
                        assert(old_ids.contains(topic_id@));
                    }
                }
            }
        }
        self.status.active_topics = self.topics.len();
        self.status.last_activity = current_time();
        let text = self.generate_ticket(&topic_id);
        Ok(JoinOutcome { topic: topic_id, ticket: text, newly_joined: true, peers_to_dial: peers })
    }

    /// Sign and encode a message for a topic; the runtime broadcasts the
    /// returned bytes. Fails with `ConfigError` when the node is not running,
    /// `TopicError` when the topic is not joined, and `EncodeError` when a
    /// message field is too long for the wire format.
    pub fn send_message(&mut self, topic_id: &Vec<u8>, message: &MessageType) -> (r: NodeResult<
        Vec<u8>,
    >)
        requires
            old(self).wf(),
        ensures
            final(self).wf(),
            match r {
                Ok(bytes) => {
                    &&& old(self).running
                    &&& old(self).joined_spec(topic_id@)
                    &&& payload_fits(message@)
                    &&& bytes@ == enc_envelope(
                        EnvelopeView {
                            from: old(self).pk(),
                            data: enc_message(message@),
                            sig: sig_of(old(self).seed(), enc_message(message@)),
                        },
                    )
                    &&& verify_decode_spec(bytes@) == Some((old(self).pk(), message@))
                    &&& old(self).same_but_topics_and_activity(final(self))
                    &&& final(self).topics == old(self).topics
                    &&& final(self).status.active_topics == old(self).status.active_topics
                },
                Err(e) => {
                    &&& *final(self) == *old(self)
                    &&& (!old(self).running || !old(self).joined_spec(topic_id@) || !payload_fits(
                        message@,
                    ))
                    &&& (e is ConfigError <==> !old(self).running)
                    &&& (e is TopicError <==> old(self).running && !old(self).joined_spec(
                        topic_id@,
                    ))
                    &&& (e is EncodeError <==> old(self).running && old(self).joined_spec(
                        topic_id@,
                    ) && !payload_fits(message@))
                },
            },
    {
        if !self.running {
            return Err(NodeError::ConfigError(String::from_str("the node is not started")));
        }
        if self.find_topic(topic_id).is_none() {
            return Err(NodeError::TopicError(String::from_str("the topic is not joined")));
        }
        let bytes = match SignedMessage::sign_and_encode(&self.identity, message) {
            Ok(b) => b,
            Err(e) => {
                return Err(e);
            },
        };
        self.status.last_activity = current_time();
        Ok(bytes)
    }

    /// Send a request to the external agent collaborator on a topic.
    pub fn send_agent_request(&mut self, topic_id: &Vec<u8>, agent_id: &str, prompt: &str) -> (r:
        NodeResult<Vec<u8>>)
        requires
            old(self).wf(),
        ensures
            final(self).wf(),
            match r {
                Ok(bytes) => {
                    &&& old(self).running
                    &&& old(self).joined_spec(topic_id@)
                    &&& verify_decode_spec(bytes@) == Some(
                        (
                            old(self).pk(),
                            MessageTypeView::AgentRequest { prompt: prompt@, agent_id: agent_id@ },
                        ),
                    )
                    &&& old(self).same_but_topics_and_activity(final(self))
                },
                Err(_) => {
                    &&& *final(self) == *old(self)
                    &&& (!old(self).running || !old(self).joined_spec(topic_id@) || !payload_fits(
                        MessageTypeView::AgentRequest { prompt: prompt@, agent_id: agent_id@ },
                    ))
                },
            },
    {
        let message = MessageType::AgentRequest {
            prompt: String::from_str(prompt),
            agent_id: String::from_str(agent_id),
        };
        self.send_message(topic_id, &message)
    }

    /// Verify, decode, and route one inbound gossip payload.
    ///
    /// A payload that fails verification or decoding is dropped without being
    /// dispatched. A name announcement updates the names registry and nothing
    /// else; every other variant leaves the node unchanged and tells the
    /// runtime what to do: display a chat line, call the agent on a separate
    /// task, or forward the message to subscribers.
    pub fn handle_incoming(&mut self, raw: &Vec<u8>) -> (r: Dispatch)
        requires
            old(self).wf(),
        ensures
            final(self).wf(),
            match verify_decode_spec(raw@) {
                None => r is Dropped && *final(self) == *old(self),
                Some((pk, m)) => match m {
                    MessageTypeView::Chat { text } => {
                        &&& *final(self) == *old(self)
                        &&& r matches Dispatch::ChatLine { sender_name, text: t } && t@ == text
                            && sender_name@ == (match old(self).names.lookup(pk) {
                            Some(n) => n,
                            None => short_key_text(pk),
                        })
                    },
                    MessageTypeView::NodeInfo { name } => match name {
                        Some(nm) => {
                            &&& r matches Dispatch::NameUpdated { key, name: n } && key@ == pk
                                && n@ == nm
                            &&& final(self).names.lookup(pk) == Some(nm)
                            &&& forall|k2: Seq<u8>|
                                k2 != pk ==> final(self).names.lookup(k2) == old(
                                    self,
                                ).names.lookup(k2)
                            &&& final(self).topics == old(self).topics
                            &&& final(self).status == old(self).status
                            &&& final(self).running == old(self).running
                            &&& final(self).identity == old(self).identity
                            &&& final(self).config == old(self).config
                            &&& final(self).name == old(self).name
                            &&& final(self).relay_mode == old(self).relay_mode
                        },
                        None => r is Ignored && *final(self) == *old(self),
                    },
                    MessageTypeView::AgentRequest { prompt, agent_id } => {
                        &&& *final(self) == *old(self)
                        &&& r matches Dispatch::AgentCall { prompt: p, agent_id: a } && p@ == prompt
                            && a@ == agent_id
                    },
                    _ => {
                        &&& *final(self) == *old(self)
                        &&& r matches Dispatch::Forwarded { from, message } && from@ == pk
                            && message@ == m
                    },
                },
            },
    {
        let (from, message) = match SignedMessage::verify_and_decode(raw) {
            Ok(p) => p,
            Err(error) => {
                return Dispatch::Dropped { error };
            },
        };
        match message {
            MessageType::Chat { text } => {
                let sender_name = match self.names.get(&from) {
                    Some(n) => n.clone(),
                    None => {
                        let mut head: Vec<u8> = Vec::new();
                        let mut i: usize = 0;
                        while i < 4
                            invariant
                                i <= 4,
                                from@.len() >= 4,
                                head@ == from@.take(4int).take(i as int),
                            decreases 4 - i,
                        {
                            head.push(from[i]);
                            assert(head@ =~= from@.take(4int).take(i as int + 1));
                            i += 1;
                        }
                        assert(from@.take(4int).take(4int) =~= from@.take(4int));
                        crate::identity::hex_string(&head)
                    },
                };
                Dispatch::ChatLine { sender_name, text }
            },
            MessageType::NodeInfo { name } => match name {
                Some(nm) => {
                    self.names.upsert(&from, nm.clone());
                    Dispatch::NameUpdated { key: from, name: nm }
                },
                None => Dispatch::Ignored,
            },
            MessageType::AgentRequest { prompt, agent_id } => Dispatch::AgentCall {
                prompt,
                agent_id,
            },
            other => Dispatch::Forwarded { from, message: other },
        }
    }

    /// Wrap the external agent's outcome as the reply to broadcast on the
    /// topic the request came from: the agent's text as an agent response, or
    /// a failure as an error message.
    pub fn make_agent_reply(&self, agent_id: &str, outcome: Result<String, String>) -> (r:
        NodeResult<Vec<u8>>)
        requires
            self.wf(),
        ensures
            ({
                let reply = match outcome {
                    Ok(content) => MessageTypeView::AgentResponse {
                        content: content@,
                        agent_id: agent_id@,
                    },
                    Err(failure) => MessageTypeView::Error {
                        message: "agent request failed: "@ + failure@,
                    },
                };
                match r {
                    Ok(bytes) => verify_decode_spec(bytes@) == Some((self.pk(), reply)),
                    Err(e) => e is EncodeError && !payload_fits(reply),
                }
            }),
    {
        let message = match outcome {
            Ok(content) => MessageType::AgentResponse {
                content,
                agent_id: String::from_str(agent_id),
            },
            Err(failure) => {
                let mut text = String::from_str("agent request failed: ");
                text.append(failure.as_str());
                MessageType::Error { message: text }
            },
        };
        SignedMessage::sign_and_encode(&self.identity, &message)
    }

    /// Leave a topic: its entry, receive loop, and dispatch channel go away.
    /// Fails with `TopicError` exactly when the topic is not joined.
    pub fn leave_topic(&mut self, topic_id: &Vec<u8>) -> (r: NodeResult<()>)
        requires
            old(self).wf(),
        ensures
            final(self).wf(),
            match r {
                Ok(_) => {
                    &&& old(self).joined_spec(topic_id@)
                    &&& !final(self).joined_spec(topic_id@)
                    &&& old(self).same_but_topics_and_activity(final(self))
                    &&& final(self).topics@.len() == old(self).topics@.len() - 1
                    &&& forall|t: Seq<u8>|
                        t != topic_id@ ==> (final(self).joined_spec(t) <==> old(self).joined_spec(
                            t,
                        ))
                },
                Err(e) => {
                    &&& e is TopicError
                    &&& !old(self).joined_spec(topic_id@)
                    &&& *final(self) == *old(self)
                },
            },
    {
        let i = match self.find_topic(topic_id) {
            Some(i) => i,
            None => {
                return Err(NodeError::TopicError(String::from_str("the topic is not joined")));
            },
        };
        let ghost old_ids = self.topic_ids();
        self.topics.remove(i);
        proof {
            assert(self.topic_ids() =~= old_ids.remove(i as int));
            lemma_remove_unique(old_ids, i as int, topic_id@);
        }
        self.status.active_topics = self.topics.len();
        self.status.last_activity = current_time();
        Ok(())
    }

    /// Stop the node: the running flag goes false and every topic is left.
    /// Receive loops check the flag and exit on their next iteration.
    pub fn stop(&mut self) -> (r: NodeResult<()>)
        requires
            old(self).wf(),
        ensures
            final(self).wf(),
            r is Ok,
            !final(self).running,
            final(self).topics@.len() == 0,
            final(self).names == old(self).names,
            final(self).identity == old(self).identity,
    {
        self.running = false;
        self.topics = Vec::new();
        self.status.active_topics = 0;
        self.status.last_activity = current_time();
        Ok(())
    }
}

/// After removing one occurrence of a value from a sequence in which it
/// occurs exactly once, it occurs no more; everything else keeps its
/// membership.
proof fn lemma_remove_unique(ids: Seq<Seq<u8>>, i: int, t: Seq<u8>)
    requires
        0 <= i < ids.len(),
        ids[i] == t,
        forall|a: int, b: int| 0 <= a < b < ids.len() ==> ids[a] != ids[b],
    ensures
        !ids.remove(i).contains(t),
        forall|x: Seq<u8>| x != t ==> (ids.remove(i).contains(x) <==> ids.contains(x)),
        forall|a: int, b: int| 0 <= a < b < ids.remove(i).len() ==> ids.remove(i)[a] != ids.remove(
            i,
        )[b],
{
    let rem = ids.remove(i);
    assert forall|j: int| 0 <= j < rem.len() implies rem[j] != t by {
        if j < i {
            assert(rem[j] == ids[j]);
        } else {
            assert(rem[j] == ids[j + 1]);
        }
    }
    assert forall|x: Seq<u8>| x != t implies (rem.contains(x) <==> ids.contains(x)) by {
        if rem.contains(x) {
            let j = choose|j: int| 0 <= j < rem.len() && rem[j] == x;
            if j < i {
                assert(ids[j] == x);
            } else {
                assert(ids[j + 1] == x);
            }
        }
        if ids.contains(x) {
            let j = choose|j: int| 0 <= j < ids.len() && ids[j] == x;
            if j < i {
                assert(rem[j] == x);
            } else if j > i {
                assert(rem[j - 1] == x);
            }
        }
    }
    assert forall|a: int, b: int| 0 <= a < b < rem.len() implies rem[a] != rem[b] by {
        let a2 = if a < i {
            a
        } else {
            a + 1
        };
        let b2 = if b < i {
            b
        } else {
            b + 1
        };
        assert(rem[a] == ids[a2] && rem[b] == ids[b2]);
    }
}

} // verus!
