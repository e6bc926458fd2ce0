//! The data that hook events, peer messages and retained messages carry.

use vstd::prelude::*;

verus! {

/// Identifies a broker node in the cluster.
pub type NodeId = u64;

/// Selects the upper-layer handler of a peer message on the receiving node.
pub type MessageType = u64;

/// Milliseconds since the Unix epoch.
pub type Millis = i64;

/// The protocol level that MQTT 5 clients announce.
pub const MQTT_LEVEL_5: u8 = 5;

/// MQTT delivery class.
#[derive(Clone, Copy, Debug, PartialEq, Eq, Structural)]
pub enum QoS {
    AtMostOnce,
    AtLeastOnce,
    ExactlyOnce,
}

impl QoS {
    /// The number of the class on the wire.
    pub open spec fn level(self) -> int {
        match self {
            QoS::AtMostOnce => 0,
            QoS::AtLeastOnce => 1,
            QoS::ExactlyOnce => 2,
        }
    }

    /// The number of the class on the wire: 0, 1 or 2.
    pub fn value(self) -> (r: u8)
        ensures
            r == self.level(),
    {
        match self {
            QoS::AtMostOnce => 0,
            QoS::AtLeastOnce => 1,
            QoS::ExactlyOnce => 2,
        }
    }
}

/// A client as the broker knows it: the node it is connected to, its address,
/// its cluster-unique client id and its user name.
#[derive(Clone, Debug, PartialEq, Eq)]
pub struct Id {
    pub node_id: NodeId,
    pub remote_addr: Option<String>,
    pub client_id: String,
    pub username: Option<String>,
}

impl Id {
    /// A copy of this client's identity.
    pub fn duplicate(&self) -> (r: Id)
        ensures
            r == *self,
    {
        Id {
            node_id: self.node_id,
            remote_addr: match &self.remote_addr {
                Some(a) => Some(a.clone()),
                None => None,
            },
            client_id: self.client_id.clone(),
            username: match &self.username {
                Some(u) => Some(u.clone()),
                None => None,
            },
        }
    }
}

/// What a client sent in its CONNECT packet, by protocol version.
#[derive(Clone, Debug, PartialEq, Eq)]
pub enum ConnectInfo {
    V3 { id: Id, keep_alive: u16, level: u8, clean_session: bool },
    V5 { id: Id, keep_alive: u16, clean_start: bool },
}

/// A published message.
#[derive(Clone, Debug, PartialEq, Eq)]
pub struct Publish {
    pub dup: bool,
    pub retain: bool,
    pub qos: QoS,
    pub topic: String,
    pub packet_id: Option<u16>,
    pub payload: Vec<u8>,
    pub create_time: Millis,
}

impl ConnectInfo {
    /// The client that connects.
    pub open spec fn id_spec(&self) -> Id {
        match self {
            ConnectInfo::V3 { id, .. } => *id,
            ConnectInfo::V5 { id, .. } => *id,
        }
    }

    /// The client that connects.
    pub fn id(&self) -> (r: &Id)
        ensures
            *r == self.id_spec(),
    {
        match self {
            ConnectInfo::V3 { id, .. } => id,
            ConnectInfo::V5 { id, .. } => id,
        }
    }

    /// The user name that the client gave, if any.
    pub open spec fn username_spec(&self) -> Option<String> {
        match self {
            ConnectInfo::V3 { id, .. } => id.username,
            ConnectInfo::V5 { id, .. } => id.username,
        }
    }

    /// The user name that the client gave, if any.
    pub fn username(&self) -> (r: &Option<String>)
        ensures
            *r == self.username_spec(),
    {
        match self {
            ConnectInfo::V3 { id, .. } => &id.username,
            ConnectInfo::V5 { id, .. } => &id.username,
        }
    }
}

/// The mathematical model of a published message.
pub struct PublishModel {
    pub dup: bool,
    pub retain: bool,
    pub qos: QoS,
    pub topic: Seq<char>,
    pub packet_id: Option<u16>,
    pub payload: Seq<u8>,
    pub create_time: int,
}

impl View for Publish {
    type V = PublishModel;

    open spec fn view(&self) -> PublishModel {
        PublishModel {
            dup: self.dup,
            retain: self.retain,
            qos: self.qos,
            topic: self.topic@,
            packet_id: self.packet_id,
            payload: self.payload@,
            create_time: self.create_time as int,
        }
    }
}

impl Publish {
    /// A copy of this message.
    pub fn duplicate(&self) -> (r: Publish)
        ensures
            r@ == self@,
    {
        Publish {
            dup: self.dup,
            retain: self.retain,
            qos: self.qos,
            topic: self.topic.clone(),
            packet_id: self.packet_id,
            payload: self.payload.clone(),
            create_time: self.create_time,
        }
    }
}

/// A retained message, stored under the concrete topic it was published to.
#[derive(Clone, Debug, PartialEq, Eq)]
pub struct Retain {
    pub from: String,
    pub payload: Vec<u8>,
    pub qos: QoS,
    pub ts: Millis,
}

/// The mathematical model of a retained message.
pub struct RetainModel {
    pub from: Seq<char>,
    pub payload: Seq<u8>,
    pub qos: QoS,
    pub ts: int,
}

impl View for Retain {
    type V = RetainModel;

    open spec fn view(&self) -> RetainModel {
        RetainModel { from: self.from@, payload: self.payload@, qos: self.qos, ts: self.ts as int }
    }
}

impl Retain {
    /// A copy of this retained message.
    pub fn duplicate(&self) -> (r: Retain)
        ensures
            r@ == self@,
    {
        Retain {
            from: self.from.clone(),
            payload: self.payload.clone(),
            qos: self.qos,
            ts: self.ts,
        }
    }
}

/// A message that could not be delivered, with the reason.
#[derive(Clone, Debug, PartialEq, Eq)]
pub struct Dropped {
    pub to: Id,
    pub from: Id,
    pub publish: Publish,
    pub reason: String,
}

/// The mathematical model of a message that could not be delivered.
pub struct DroppedModel {
    pub to: Id,
    pub from: Id,
    pub publish: PublishModel,
    pub reason: Seq<char>,
}

impl View for Dropped {
    type V = DroppedModel;

    open spec fn view(&self) -> DroppedModel {
        DroppedModel { to: self.to, from: self.from, publish: self.publish@, reason: self.reason@ }
    }
}

/// A request sent from one node to a peer.
#[derive(Clone, Debug, PartialEq, Eq)]
pub enum RpcMessage {
    /// Forward a publish to the recipients that the peer owns.
    Forwards(Id, Publish),
    /// Evict the session of a client that connected elsewhere.
    Kick(String, String),
    /// Query the peer's retained messages by topic filter.
    GetRetains(String),
    NumberOfClients,
    NumberOfSessions,
    /// Opaque passthrough.
    Data(Vec<u8>),
}

/// The mathematical model of a request to a peer.
pub enum RpcMessageModel {
    Forwards(Id, PublishModel),
    Kick(Seq<char>, Seq<char>),
    GetRetains(Seq<char>),
    NumberOfClients,
    NumberOfSessions,
    Data(Seq<u8>),
}

impl View for RpcMessage {
    type V = RpcMessageModel;

    open spec fn view(&self) -> RpcMessageModel {
        match self {
            RpcMessage::Forwards(from, publish) => RpcMessageModel::Forwards(*from, publish@),
            RpcMessage::Kick(client_id, reason) => RpcMessageModel::Kick(client_id@, reason@),
            RpcMessage::GetRetains(filter) => RpcMessageModel::GetRetains(filter@),
            RpcMessage::NumberOfClients => RpcMessageModel::NumberOfClients,
            RpcMessage::NumberOfSessions => RpcMessageModel::NumberOfSessions,
            RpcMessage::Data(bytes) => RpcMessageModel::Data(bytes@),
        }
    }
}

impl RpcMessage {
    /// A copy of this request, for one more peer.
    pub fn duplicate(&self) -> (r: RpcMessage)
        ensures
            r@ == self@,
    {
        match self {
            RpcMessage::Forwards(from, publish) => RpcMessage::Forwards(
                from.duplicate(),
                publish.duplicate(),
            ),
            RpcMessage::Kick(client_id, reason) => RpcMessage::Kick(
                client_id.clone(),
                reason.clone(),
            ),
            RpcMessage::GetRetains(filter) => RpcMessage::GetRetains(filter.clone()),
            RpcMessage::NumberOfClients => RpcMessage::NumberOfClients,
            RpcMessage::NumberOfSessions => RpcMessage::NumberOfSessions,
            RpcMessage::Data(bytes) => RpcMessage::Data(bytes.clone()),
        }
    }
}

/// The answer of a peer, variant by variant the mirror of [`RpcMessage`].
#[derive(Clone, Debug, PartialEq, Eq)]
pub enum RpcReply {
    /// The messages that the peer could not deliver.
    Forwards(Vec<Dropped>),
    /// Whether a session was found and terminated.
    Kick(bool),
    GetRetains(Vec<(String, Retain)>),
    NumberOfClients(u64),
    NumberOfSessions(u64),
    Data(Vec<u8>),
}

/// What a handler contributes to the outcome of an event.
#[derive(Clone, Debug, PartialEq, Eq)]
pub enum HookResult {
    /// Whether the client may go on.
    Allowed(bool),
    /// The answer to a peer's message.
    GrpcMessageReply(RpcReply),
    /// A peer's message could not be answered, with the reason.
    GrpcMessageFailed(String),
}

/// What a handler returns: whether the chain goes on, and the accumulated
/// result for the handlers behind it.
pub type ReturnType = (bool, Option<HookResult>);

/// The kind of a broker event.
#[derive(Clone, Copy, Debug, PartialEq, Eq, Hash, Structural)]
pub enum HookType {
    SessionCreated,
    SessionTerminated,
    SessionSubscribed,
    SessionUnsubscribed,
    ClientAuthenticate,
    ClientConnect,
    ClientConnack,
    ClientConnected,
    ClientDisconnected,
    ClientSubscribe,
    ClientUnsubscribe,
    ClientSubscribeCheckAcl,
    MessagePublishCheckAcl,
    MessagePublish,
    MessageDelivered,
    MessageAcked,
    MessageDropped,
    GrpcMessageReceived,
}

/// A broker event with what its handlers read.
#[derive(Clone, Debug, PartialEq, Eq)]
pub enum Parameter {
    ClientConnect(ConnectInfo),
    ClientAuthenticate(ConnectInfo),
    ClientConnack(ConnectInfo, String),
    ClientConnected { connect_info: ConnectInfo, connected_at: Millis, session_present: bool },
    ClientDisconnected { id: Id, disconnected_at: Millis, reason: String },
    ClientSubscribe { id: Id, topic_filters: Vec<(String, QoS)> },
    ClientUnsubscribe { id: Id, topic_filters: Vec<String> },
    ClientSubscribeCheckAcl { id: Id, topic_filter: String, qos: QoS },
    MessagePublishCheckAcl { id: Id, publish: Publish },
    SessionCreated { id: Id, created_at: Millis },
    SessionTerminated { id: Id, reason: String },
    SessionSubscribed { id: Id, topic_filter: String, qos: QoS },
    SessionUnsubscribed { id: Id, topic_filter: String },
    MessagePublish { from: Id, publish: Publish },
    MessageDelivered { to: Id, from: Id, publish: Publish },
    MessageAcked { to: Id, from: Id, publish: Publish },
    MessageDropped { to: Option<Id>, from: Id, publish: Publish, reason: String },
    GrpcMessageReceived { message_type: MessageType, message: RpcMessage },
}

impl Parameter {
    /// The kind of this event.
    pub open spec fn kind(&self) -> HookType {
        match self {
            Parameter::ClientConnect(..) => HookType::ClientConnect,
            Parameter::ClientAuthenticate(..) => HookType::ClientAuthenticate,
            Parameter::ClientConnack(..) => HookType::ClientConnack,
            Parameter::ClientConnected { .. } => HookType::ClientConnected,
            Parameter::ClientDisconnected { .. } => HookType::ClientDisconnected,
            Parameter::ClientSubscribe { .. } => HookType::ClientSubscribe,
            Parameter::ClientUnsubscribe { .. } => HookType::ClientUnsubscribe,
            Parameter::ClientSubscribeCheckAcl { .. } => HookType::ClientSubscribeCheckAcl,
            Parameter::MessagePublishCheckAcl { .. } => HookType::MessagePublishCheckAcl,
            Parameter::SessionCreated { .. } => HookType::SessionCreated,
            Parameter::SessionTerminated { .. } => HookType::SessionTerminated,
            Parameter::SessionSubscribed { .. } => HookType::SessionSubscribed,
            Parameter::SessionUnsubscribed { .. } => HookType::SessionUnsubscribed,
            Parameter::MessagePublish { .. } => HookType::MessagePublish,
            Parameter::MessageDelivered { .. } => HookType::MessageDelivered,
            Parameter::MessageAcked { .. } => HookType::MessageAcked,
            Parameter::MessageDropped { .. } => HookType::MessageDropped,
            Parameter::GrpcMessageReceived { .. } => HookType::GrpcMessageReceived,
        }
    }

    /// The kind of this event.
    pub fn get_type(&self) -> (r: HookType)
        ensures
            r == self.kind(),
    {
        match self {
            Parameter::ClientConnect(..) => HookType::ClientConnect,
            Parameter::ClientAuthenticate(..) => HookType::ClientAuthenticate,
            Parameter::ClientConnack(..) => HookType::ClientConnack,
            Parameter::ClientConnected { .. } => HookType::ClientConnected,
            Parameter::ClientDisconnected { .. } => HookType::ClientDisconnected,
            Parameter::ClientSubscribe { .. } => HookType::ClientSubscribe,
            Parameter::ClientUnsubscribe { .. } => HookType::ClientUnsubscribe,
            Parameter::ClientSubscribeCheckAcl { .. } => HookType::ClientSubscribeCheckAcl,
            Parameter::MessagePublishCheckAcl { .. } => HookType::MessagePublishCheckAcl,
            Parameter::SessionCreated { .. } => HookType::SessionCreated,
            Parameter::SessionTerminated { .. } => HookType::SessionTerminated,
            Parameter::SessionSubscribed { .. } => HookType::SessionSubscribed,
            Parameter::SessionUnsubscribed { .. } => HookType::SessionUnsubscribed,
            Parameter::MessagePublish { .. } => HookType::MessagePublish,
            Parameter::MessageDelivered { .. } => HookType::MessageDelivered,
            Parameter::MessageAcked { .. } => HookType::MessageAcked,
            Parameter::MessageDropped { .. } => HookType::MessageDropped,
            Parameter::GrpcMessageReceived { .. } => HookType::GrpcMessageReceived,
        }
    }
}

} // verus!
