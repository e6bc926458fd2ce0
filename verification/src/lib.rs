//! Cluster-aware extension layer for an MQTT broker: hook dispatch, peer
//! messaging decisions, retained-message aggregation and web-hook planning.

pub mod assoc;
pub mod body;
pub mod cluster;
pub mod counter;
pub mod hookbus;
pub mod json;
pub mod peers;
pub mod queue;
pub mod retainer;
pub mod router;
pub mod rules;
pub mod topic;
pub mod types;
pub mod webhook;
