//! The JSON bodies that the web-hook sends for each broker event.

use crate::json::{members_model, Json, JsonModel};
use crate::types::{ConnectInfo, Id, Millis, Parameter, Publish, QoS, MQTT_LEVEL_5};
use vstd::prelude::*;

verus! {

/// The standard base64 text (with padding) of a byte string.
pub uninterp spec fn base64_text(bytes: Seq<u8>) -> Seq<char>;

/// Calls `base64::encode`, which writes the standard alphabet with padding and
/// depends on the bytes alone. It panics only where the size of the text
/// overflows `usize`, which no byte string in memory reaches.
#[verifier::external_body]
fn encode_payload(payload: &Vec<u8>) -> (r: String)
    ensures
        r@ == base64_text(payload@),
{
    base64::encode(payload)
}

/// Reads the clock with `chrono::Local::now` and gives the time in
/// milliseconds since the epoch. Nothing is claimed of the value.
#[verifier::external_body]
pub(crate) fn now_millis() -> Millis {
    chrono::Local::now().timestamp_millis()
}

/// One body with the topic it is about, where it has one.
pub type TopicBody = (Option<String>, Json);

/// The model of a body with its topic.
pub type TopicBodyModel = (Option<Seq<char>>, JsonModel);

/// A text, or null where there is none.
pub open spec fn opt_text_model(s: Option<String>) -> JsonModel {
    match s {
        Some(t) => JsonModel::Str(t@),
        None => JsonModel::Null,
    }
}

/// The four members that describe a client.
pub open spec fn id_members(id: Id) -> Seq<(Seq<char>, JsonModel)> {
    seq![
        ("node"@, JsonModel::Num(id.node_id as int)),
        ("ipaddress"@, opt_text_model(id.remote_addr)),
        ("clientid"@, JsonModel::Str(id.client_id@)),
        ("username"@, opt_text_model(id.username)),
    ]
}

/// The members that describe a connection attempt.
pub open spec fn connect_members(info: ConnectInfo) -> Seq<(Seq<char>, JsonModel)> {
    match info {
        ConnectInfo::V3 { id, keep_alive, level, clean_session } => id_members(id) + seq![
            ("keepalive"@, JsonModel::Num(keep_alive as int)),
            ("proto_ver"@, JsonModel::Num(level as int)),
            ("clean_session"@, JsonModel::Bool(clean_session)),
        ],
        ConnectInfo::V5 { id, keep_alive, clean_start } => id_members(id) + seq![
            ("keepalive"@, JsonModel::Num(keep_alive as int)),
            ("proto_ver"@, JsonModel::Num(MQTT_LEVEL_5 as int)),
            ("clean_start"@, JsonModel::Bool(clean_start)),
        ],
    }
}

/// The subscription options of a body: the delivery class alone.
pub open spec fn opts_model(qos: QoS) -> JsonModel {
    JsonModel::Object(seq![("qos"@, JsonModel::Num(qos.level()))])
}

/// The body of a subscription to `topic`.
pub open spec fn subscribe_model(id: Id, topic: Seq<char>, qos: QoS) -> JsonModel {
    JsonModel::Object(
        id_members(id) + seq![("topic"@, JsonModel::Str(topic)), ("opts"@, opts_model(qos))],
    )
}

/// The body of the end of a subscription to `topic`.
pub open spec fn unsubscribe_model(id: Id, topic: Seq<char>) -> JsonModel {
    JsonModel::Object(id_members(id) + seq![("topic"@, JsonModel::Str(topic))])
}

/// A packet id, or null where the message has none.
pub open spec fn packet_id_model(packet_id: Option<u16>) -> JsonModel {
    match packet_id {
        Some(v) => JsonModel::Num(v as int),
        None => JsonModel::Null,
    }
}

/// The members that describe a published message, up to its payload, which
/// is given as text.
pub open spec fn publish_members(publish: Publish, payload_text: Seq<char>) -> Seq<
    (Seq<char>, JsonModel),
> {
    seq![
        ("dup"@, JsonModel::Bool(publish.dup)),
        ("retain"@, JsonModel::Bool(publish.retain)),
        ("qos"@, JsonModel::Num(publish.qos.level())),
        ("topic"@, JsonModel::Str(publish.topic@)),
        ("packet_id"@, packet_id_model(publish.packet_id)),
        ("payload"@, JsonModel::Str(payload_text)),
    ]
}

/// The bodies of the subscriptions of one SUBSCRIBE packet, one per filter.
pub open spec fn subscribe_bodies(id: Id, filters: Seq<(String, QoS)>) -> Seq<TopicBodyModel> {
    Seq::new(
        filters.len(),
        |i: int| (Some(filters[i].0@), subscribe_model(id, filters[i].0@, filters[i].1)),
    )
}

/// The bodies of one UNSUBSCRIBE packet, one per filter.
pub open spec fn unsubscribe_bodies(id: Id, filters: Seq<String>) -> Seq<TopicBodyModel> {
    Seq::new(filters.len(), |i: int| (Some(filters[i]@), unsubscribe_model(id, filters[i]@)))
}

/// The bodies that an event gives rise to, each with the topic that rules are
/// matched against. `now` is the time at which the event is handled; the
/// payload of a message stands in its body as base64 text.
pub open spec fn bodies_spec(param: Parameter, now: int) -> Seq<TopicBodyModel> {
    match param {
        Parameter::ClientConnect(info) => seq![(None, JsonModel::Object(connect_members(info)))],
        Parameter::ClientConnack(info, reason) => seq![
            (
                None,
                JsonModel::Object(
                    connect_members(info) + seq![("conn_ack"@, JsonModel::Str(reason@))],
                ),
            ),
        ],
        Parameter::ClientConnected { connect_info, connected_at, session_present } => seq![
            (
                None,
                JsonModel::Object(
                    connect_members(connect_info) + seq![
                        ("connected_at"@, JsonModel::Num(connected_at as int)),
                        ("session_present"@, JsonModel::Bool(session_present)),
                    ],
                ),
            ),
        ],
        Parameter::ClientDisconnected { id, disconnected_at, reason } => seq![
            (
                None,
                JsonModel::Object(
                    id_members(id) + seq![
                        ("disconnected_at"@, JsonModel::Num(disconnected_at as int)),
                        ("reason"@, JsonModel::Str(reason@)),
                    ],
                ),
            ),
        ],
        Parameter::ClientSubscribe { id, topic_filters } => subscribe_bodies(id, topic_filters@),
        Parameter::ClientUnsubscribe { id, topic_filters } => unsubscribe_bodies(
            id,
            topic_filters@,
        ),
        Parameter::SessionSubscribed { id, topic_filter, qos } => seq![
            (Some(topic_filter@), subscribe_model(id, topic_filter@, qos)),
        ],
        Parameter::SessionUnsubscribed { id, topic_filter } => seq![
            (Some(topic_filter@), unsubscribe_model(id, topic_filter@)),
        ],
        Parameter::SessionCreated { id, created_at } => seq![
            (
                None,
                JsonModel::Object(
                    id_members(id) + seq![("created_at"@, JsonModel::Num(created_at as int))],
                ),
            ),
        ],
        Parameter::SessionTerminated { id, reason } => seq![
            (None, JsonModel::Object(id_members(id) + seq![("reason"@, JsonModel::Str(reason@))])),
        ],
        Parameter::MessagePublish { from, publish } => seq![
            (
                Some(publish.topic@),
                JsonModel::Object(
                    seq![("from"@, JsonModel::Object(id_members(from)))] + publish_members(
                        publish,
                        base64_text(publish.payload@),
                    ) + seq![("ts"@, JsonModel::Num(publish.create_time as int))],
                ),
            ),
        ],
        Parameter::MessageDelivered { to, from, publish } => seq![
            (Some(publish.topic@), delivery_model(to, from, publish, now)),
        ],
        Parameter::MessageAcked { to, from, publish } => seq![
            (Some(publish.topic@), delivery_model(to, from, publish, now)),
        ],
        Parameter::MessageDropped { to, from, publish, reason } => seq![
            (
                None,
                JsonModel::Object(
                    seq![
                        ("to"@, receiver_model(to)),
                        ("from"@, JsonModel::Object(id_members(from))),
                    ] + publish_members(publish, base64_text(publish.payload@)) + seq![
                        ("reason"@, JsonModel::Str(reason@)),
                        ("ts"@, JsonModel::Num(now)),
                    ],
                ),
            ),
        ],
        _ => Seq::empty(),
    }
}

/// The client that a dropped message was meant for, or null where none is known.
pub open spec fn receiver_model(to: Option<Id>) -> JsonModel {
    match to {
        Some(id) => JsonModel::Object(id_members(id)),
        None => JsonModel::Null,
    }
}

/// The body of a message that reached, or was acknowledged by, the client `to`.
pub open spec fn delivery_model(to: Id, from: Id, publish: Publish, now: int) -> JsonModel {
    JsonModel::Object(
        seq![
            ("to"@, JsonModel::Object(id_members(to))),
            ("from"@, JsonModel::Object(id_members(from))),
        ] + publish_members(publish, base64_text(publish.payload@)) + seq![
            ("ts"@, JsonModel::Num(now)),
        ],
    )
}

/// The model of a list of bodies.
pub open spec fn bodies_model(bodies: Seq<TopicBody>) -> Seq<TopicBodyModel> {
    Seq::new(
        bodies.len(),
        |i: int|
            (
                match bodies[i].0 {
                    Some(t) => Some(t@),
                    None => None,
                },
                bodies[i].1@,
            ),
    )
}

/// Adds the member `key: value` at the end of the members under construction.
fn put(members: &mut Vec<(String, Json)>, key: &str, value: Json)
    ensures
        members_model(final(members)@) == members_model(old(members)@).push((key@, value@)),
{
    members.push(Json::entry(key, value));
    assert(members_model(members@) =~= members_model(old(members)@).push((key@, value@)));
}

/// The four members that describe the client `id`.
pub fn id_fields(id: &Id) -> (r: Vec<(String, Json)>)
    ensures
        members_model(r@) == id_members(*id),
{
    let mut members: Vec<(String, Json)> = Vec::new();
    assert(members_model(members@) =~= Seq::empty());
    put(&mut members, "node", Json::Num(id.node_id as i128));
    put(&mut members, "ipaddress", Json::opt_text(&id.remote_addr));
    put(&mut members, "clientid", Json::Str(id.client_id.clone()));
    put(&mut members, "username", Json::opt_text(&id.username));
    assert(members_model(members@) =~= id_members(*id));
    members
}

impl Id {
    /// This client as a JSON object: node, address, client id and user name.
    pub fn to_json(&self) -> (r: Json)
        ensures
            r@ == JsonModel::Object(id_members(*self)),
    {
        Json::from_members(id_fields(self))
    }
}

/// The members that describe the connection attempt `info`.
pub fn connect_fields(info: &ConnectInfo) -> (r: Vec<(String, Json)>)
    ensures
        members_model(r@) == connect_members(*info),
{
    match info {
        ConnectInfo::V3 { id, keep_alive, level, clean_session } => {
            let mut members = id_fields(id);
            put(&mut members, "keepalive", Json::Num(*keep_alive as i128));
            put(&mut members, "proto_ver", Json::Num(*level as i128));
            put(&mut members, "clean_session", Json::Bool(*clean_session));
            assert(members_model(members@) =~= connect_members(*info));
            members
        },
        ConnectInfo::V5 { id, keep_alive, clean_start } => {
            let mut members = id_fields(id);
            put(&mut members, "keepalive", Json::Num(*keep_alive as i128));
            put(&mut members, "proto_ver", Json::Num(MQTT_LEVEL_5 as i128));
            put(&mut members, "clean_start", Json::Bool(*clean_start));
            assert(members_model(members@) =~= connect_members(*info));
            members
        },
    }
}

impl ConnectInfo {
    /// The body of a connection attempt: the client, its keep-alive, the
    /// protocol level and the clean flag under the name its version gives it.
    pub fn to_body(&self) -> (r: Json)
        ensures
            r@ == JsonModel::Object(connect_members(*self)),
    {
        Json::from_members(connect_fields(self))
    }
}

/// The subscription options of a body.
pub fn opts_body(qos: QoS) -> (r: Json)
    ensures
        r@ == opts_model(qos),
{
    let mut members: Vec<(String, Json)> = Vec::new();
    assert(members_model(members@) =~= Seq::empty());
    put(&mut members, "qos", Json::Num(qos.value() as i128));
    assert(members_model(members@) =~= seq![("qos"@, JsonModel::Num(qos.level()))]);
    Json::from_members(members)
}

/// The body of a subscription of `id` to `topic`.
pub fn subscribe_body(id: &Id, topic: &String, qos: QoS) -> (r: Json)
    ensures
        r@ == subscribe_model(*id, topic@, qos),
{
    let mut members = id_fields(id);
    put(&mut members, "topic", Json::Str(topic.clone()));
    put(&mut members, "opts", opts_body(qos));
    assert(members_model(members@) =~= id_members(*id) + seq![
        ("topic"@, JsonModel::Str(topic@)),
        ("opts"@, opts_model(qos)),
    ]);
    Json::from_members(members)
}

/// The body of the end of a subscription of `id` to `topic`.
pub fn unsubscribe_body(id: &Id, topic: &String) -> (r: Json)
    ensures
        r@ == unsubscribe_model(*id, topic@),
{
    let mut members = id_fields(id);
    put(&mut members, "topic", Json::Str(topic.clone()));
    assert(members_model(members@) =~= id_members(*id) + seq![
        ("topic"@, JsonModel::Str(topic@)),
    ]);
    Json::from_members(members)
}

/// Adds to `members` what describes the message `publish`, whose payload is
/// given as text.
pub fn put_publish(members: &mut Vec<(String, Json)>, publish: &Publish, payload_text: String)
    ensures
        members_model(final(members)@) == members_model(old(members)@) + publish_members(
            *publish,
            payload_text@,
        ),
{
    put(members, "dup", Json::Bool(publish.dup));
    put(members, "retain", Json::Bool(publish.retain));
    put(members, "qos", Json::Num(publish.qos.value() as i128));
    put(members, "topic", Json::Str(publish.topic.clone()));
    put(members, "packet_id", Json::opt_num(publish.packet_id));
    put(members, "payload", Json::Str(payload_text));
    assert(members_model(members@) =~= members_model(old(members)@) + publish_members(
        *publish,
        payload_text@,
    ));
}

/// The body of a message that reached, or was acknowledged by, the client
/// `to`, handled at the time `now`.
pub fn delivery_body(to: &Id, from: &Id, publish: &Publish, now: Millis) -> (r: Json)
    ensures
        r@ == delivery_model(*to, *from, *publish, now as int),
{
    let mut members: Vec<(String, Json)> = Vec::new();
    assert(members_model(members@) =~= Seq::empty());
    put(&mut members, "to", to.to_json());
    put(&mut members, "from", from.to_json());
    put_publish(&mut members, publish, encode_payload(&publish.payload));
    put(&mut members, "ts", Json::Num(now as i128));
    assert(members_model(members@) =~= seq![
        ("to"@, JsonModel::Object(id_members(*to))),
        ("from"@, JsonModel::Object(id_members(*from))),
    ] + publish_members(*publish, base64_text(publish.payload@)) + seq![
        ("ts"@, JsonModel::Num(now as int)),
    ]);
    Json::from_members(members)
}

/// A list that holds the one body `body`, about `topic`.
fn single(topic: Option<String>, body: Json) -> (r: Vec<TopicBody>)
    ensures
        bodies_model(r@) == seq![
            (
                match topic {
                    Some(t) => Some(t@),
                    None => None,
                },
                body@,
            ),
        ],
{
    let mut bodies: Vec<TopicBody> = Vec::new();
    bodies.push((topic, body));
    assert(bodies_model(bodies@) =~= seq![
        (
            match topic {
                Some(t) => Some(t@),
                None => None,
            },
            body@,
        ),
    ]);
    bodies
}

/// The members of `base` followed by those of `more`, as one object.
fn extended(base: Vec<(String, Json)>, more: Vec<(String, Json)>) -> (r: Json)
    ensures
        r@ == JsonModel::Object(members_model(base@) + members_model(more@)),
{
    let mut members = base;
    let mut rest = more;
    members.append(&mut rest);
    assert(members_model(members@) =~= members_model(base@) + members_model(more@));
    Json::from_members(members)
}

/// The bodies that the event `param` gives rise to when it is handled at the
/// time `now`, each with the topic that rules are matched against. Events
/// that the web-hook does not report give none.
pub fn bodies_at(param: &Parameter, now: Millis) -> (r: Vec<TopicBody>)
    ensures
        bodies_model(r@) == bodies_spec(*param, now as int),
{
    match param {
        Parameter::ClientConnect(info) => single(None, info.to_body()),
        Parameter::ClientConnack(info, reason) => {
            let mut more: Vec<(String, Json)> = Vec::new();
            assert(members_model(more@) =~= Seq::empty());
            put(&mut more, "conn_ack", Json::Str(reason.clone()));
            assert(members_model(more@) =~= seq![("conn_ack"@, JsonModel::Str(reason@))]);
            single(None, extended(connect_fields(info), more))
        },
        Parameter::ClientConnected { connect_info, connected_at, session_present } => {
            let mut more: Vec<(String, Json)> = Vec::new();
            assert(members_model(more@) =~= Seq::empty());
            put(&mut more, "connected_at", Json::Num(*connected_at as i128));
            put(&mut more, "session_present", Json::Bool(*session_present));
            assert(members_model(more@) =~= seq![
                ("connected_at"@, JsonModel::Num(*connected_at as int)),
                ("session_present"@, JsonModel::Bool(*session_present)),
            ]);
            single(None, extended(connect_fields(connect_info), more))
        },
        Parameter::ClientDisconnected { id, disconnected_at, reason } => {
            let mut more: Vec<(String, Json)> = Vec::new();
            assert(members_model(more@) =~= Seq::empty());
            put(&mut more, "disconnected_at", Json::Num(*disconnected_at as i128));
            put(&mut more, "reason", Json::Str(reason.clone()));
            assert(members_model(more@) =~= seq![
                ("disconnected_at"@, JsonModel::Num(*disconnected_at as int)),
                ("reason"@, JsonModel::Str(reason@)),
            ]);
            single(None, extended(id_fields(id), more))
        },
        Parameter::ClientSubscribe { id, topic_filters } => {
            let mut bodies: Vec<TopicBody> = Vec::new();
            let mut i: usize = 0;
            while i < topic_filters.len()
                invariant
                    i <= topic_filters.len(),
                    bodies.len() == i,
                    forall|j: int|
                        0 <= j < i ==> (#[trigger] bodies@[j]).0 == Some(topic_filters@[j].0)
                            && bodies@[j].1@ == subscribe_model(
                            *id,
                            topic_filters@[j].0@,
                            topic_filters@[j].1,
                        ),
                decreases topic_filters.len() - i,
            {
                let body = subscribe_body(id, &topic_filters[i].0, topic_filters[i].1);
                bodies.push((Some(topic_filters[i].0.clone()), body));
                i += 1;
            }
            assert(bodies_model(bodies@) =~= subscribe_bodies(*id, topic_filters@));
            bodies
        },
        Parameter::ClientUnsubscribe { id, topic_filters } => {
            let mut bodies: Vec<TopicBody> = Vec::new();
            let mut i: usize = 0;
            while i < topic_filters.len()
                invariant
                    i <= topic_filters.len(),
                    bodies.len() == i,
                    forall|j: int|
                        0 <= j < i ==> (#[trigger] bodies@[j]).0 == Some(topic_filters@[j])
                            && bodies@[j].1@ == unsubscribe_model(*id, topic_filters@[j]@),
                decreases topic_filters.len() - i,
            {
                let body = unsubscribe_body(id, &topic_filters[i]);
                bodies.push((Some(topic_filters[i].clone()), body));
                i += 1;
            }
            assert(bodies_model(bodies@) =~= unsubscribe_bodies(*id, topic_filters@));
            bodies
        },
        Parameter::SessionSubscribed { id, topic_filter, qos } => single(
            Some(topic_filter.clone()),
            subscribe_body(id, topic_filter, *qos),
        ),
        Parameter::SessionUnsubscribed { id, topic_filter } => single(
            Some(topic_filter.clone()),
            unsubscribe_body(id, topic_filter),
        ),
        Parameter::SessionCreated { id, created_at } => {
            let mut more: Vec<(String, Json)> = Vec::new();
            assert(members_model(more@) =~= Seq::empty());
            put(&mut more, "created_at", Json::Num(*created_at as i128));
            assert(members_model(more@) =~= seq![
                ("created_at"@, JsonModel::Num(*created_at as int)),
            ]);
            single(None, extended(id_fields(id), more))
        },
        Parameter::SessionTerminated { id, reason } => {
            let mut more: Vec<(String, Json)> = Vec::new();
            assert(members_model(more@) =~= Seq::empty());
            put(&mut more, "reason", Json::Str(reason.clone()));
            assert(members_model(more@) =~= seq![("reason"@, JsonModel::Str(reason@))]);
            single(None, extended(id_fields(id), more))
        },
        Parameter::MessagePublish { from, publish } => {
            let mut members: Vec<(String, Json)> = Vec::new();
            assert(members_model(members@) =~= Seq::empty());
            put(&mut members, "from", from.to_json());
            put_publish(&mut members, publish, encode_payload(&publish.payload));
            put(&mut members, "ts", Json::Num(publish.create_time as i128));
            assert(members_model(members@) =~= seq![
                ("from"@, JsonModel::Object(id_members(*from))),
            ] + publish_members(*publish, base64_text(publish.payload@)) + seq![
                ("ts"@, JsonModel::Num(publish.create_time as int)),
            ]);
            single(Some(publish.topic.clone()), Json::from_members(members))
        },
        Parameter::MessageDelivered { to, from, publish } => single(
            Some(publish.topic.clone()),
            delivery_body(to, from, publish, now),
        ),
        Parameter::MessageAcked { to, from, publish } => single(
            Some(publish.topic.clone()),
            delivery_body(to, from, publish, now),
        ),
        Parameter::MessageDropped { to, from, publish, reason } => {
            let receiver = match to {
                Some(id) => id.to_json(),
                None => Json::Null,
            };
            let mut members: Vec<(String, Json)> = Vec::new();
            assert(members_model(members@) =~= Seq::empty());
            put(&mut members, "to", receiver);
            put(&mut members, "from", from.to_json());
            put_publish(&mut members, publish, encode_payload(&publish.payload));
            put(&mut members, "reason", Json::Str(reason.clone()));
            put(&mut members, "ts", Json::Num(now as i128));
            assert(members_model(members@) =~= seq![
                ("to"@, receiver_model(*to)),
                ("from"@, JsonModel::Object(id_members(*from))),
            ] + publish_members(*publish, base64_text(publish.payload@)) + seq![
                ("reason"@, JsonModel::Str(reason@)),
                ("ts"@, JsonModel::Num(now as int)),
            ]);
            single(None, Json::from_members(members))
        },
        _ => {
            let bodies: Vec<TopicBody> = Vec::new();
            assert(bodies_model(bodies@) =~= Seq::empty());
            bodies
        },
    }
}

/// The bodies that the event `param` gives rise to now: those of
/// [`bodies_at`] for the time that the clock shows.
pub fn bodies(param: &Parameter) -> (r: Vec<TopicBody>)
    ensures
        exists|now: Millis| bodies_model(r@) == #[trigger] bodies_spec(*param, now as int),
{
    let now = now_millis();
    bodies_at(param, now)
}

} // verus!
