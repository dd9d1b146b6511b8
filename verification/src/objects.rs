//! The shapes of the API's answers: pods, events, nodes and their lists.
//!
//! Each shape is a plain record. Its view is the same record with text as
//! sequences of characters, and its `decoded` says which JSON objects stand
//! for a value of it.

use crate::decode::{
    field_count, field_instant, field_list, field_optional_flag, field_optional_instant,
    field_optional_text, field_record, field_text, optional_flag, optional_instant,
    optional_text, required_count, required_instant, required_list, required_record,
    required_text, text_of, views, Resource,
};
use crate::error::DecodeError;
use crate::instant::Timestamp;
use crate::json::Json;
use vstd::prelude::*;

verus! {

/// What every object says of itself: its name, the namespace it lives in if
/// it lives in one, and when it was created if the server says so.
#[derive(Debug)]
pub struct Metadata {
    pub name: String,
    pub namespace: Option<String>,
    pub creation_timestamp: Option<Timestamp>,
}

pub struct MetadataView {
    pub name: Seq<char>,
    pub namespace: Option<Seq<char>>,
    pub creation_timestamp: Option<Timestamp>,
}

impl View for Metadata {
    type V = MetadataView;

    open spec fn view(&self) -> MetadataView {
        MetadataView {
            name: self.name@,
            namespace: text_of(self.namespace),
            creation_timestamp: self.creation_timestamp,
        }
    }
}

impl Resource for Metadata {
    /// `name` is required; `namespace` and `creationTimestamp` are optional.
    open spec fn decoded(json: Json) -> Result<MetadataView, DecodeError> {
        match required_text(json, "name") {
            Ok(name) => match optional_text(json, "namespace") {
                Ok(namespace) => match optional_instant(json, "creationTimestamp") {
                    Ok(creation_timestamp) => Ok(
                        MetadataView { name, namespace, creation_timestamp },
                    ),
                    Err(error) => Err(error),
                },
                Err(error) => Err(error),
            },
            Err(error) => Err(error),
        }
    }

    fn from_json(json: &Json) -> (read: Result<Metadata, DecodeError>) {
        let name = field_text(json, "name")?;
        let namespace = field_optional_text(json, "namespace")?;
        let creation_timestamp = field_optional_instant(json, "creationTimestamp")?;
        Ok(Metadata { name, namespace, creation_timestamp })
    }
}

/// Where a pod is in its life.
#[derive(Debug)]
pub struct PodStatus {
    pub phase: String,
}

pub struct PodStatusView {
    pub phase: Seq<char>,
}

impl View for PodStatus {
    type V = PodStatusView;

    open spec fn view(&self) -> PodStatusView {
        PodStatusView { phase: self.phase@ }
    }
}

impl Resource for PodStatus {
    /// `phase` is required.
    open spec fn decoded(json: Json) -> Result<PodStatusView, DecodeError> {
        match required_text(json, "phase") {
            Ok(phase) => Ok(PodStatusView { phase }),
            Err(error) => Err(error),
        }
    }

    fn from_json(json: &Json) -> (read: Result<PodStatus, DecodeError>) {
        let phase = field_text(json, "phase")?;
        Ok(PodStatus { phase })
    }
}

/// A pod.
#[derive(Debug)]
pub struct Pod {
    pub metadata: Metadata,
    pub status: PodStatus,
}

pub struct PodView {
    pub metadata: MetadataView,
    pub status: PodStatusView,
}

impl View for Pod {
    type V = PodView;

    open spec fn view(&self) -> PodView {
        PodView { metadata: self.metadata@, status: self.status@ }
    }
}

impl Resource for Pod {
    /// `metadata` and `status` are required.
    open spec fn decoded(json: Json) -> Result<PodView, DecodeError> {
        match required_record::<Metadata>(json, "metadata") {
            Ok(metadata) => match required_record::<PodStatus>(json, "status") {
                Ok(status) => Ok(PodView { metadata, status }),
                Err(error) => Err(error),
            },
            Err(error) => Err(error),
        }
    }

    fn from_json(json: &Json) -> (read: Result<Pod, DecodeError>) {
        let metadata = field_record::<Metadata>(json, "metadata")?;
        let status = field_record::<PodStatus>(json, "status")?;
        Ok(Pod { metadata, status })
    }
}

/// The pods that a list call returns, in the server's order.
#[derive(Debug)]
pub struct PodList {
    pub items: Vec<Pod>,
}

pub struct PodListView {
    pub items: Seq<PodView>,
}

impl View for PodList {
    type V = PodListView;

    open spec fn view(&self) -> PodListView {
        PodListView { items: views(self.items@) }
    }
}

impl Resource for PodList {
    /// `items` is required, and each of its entries is a pod.
    open spec fn decoded(json: Json) -> Result<PodListView, DecodeError> {
        match required_list::<Pod>(json, "items") {
            Ok(items) => Ok(PodListView { items }),
            Err(error) => Err(error),
        }
    }

    fn from_json(json: &Json) -> (read: Result<PodList, DecodeError>) {
        let items = field_list::<Pod>(json, "items")?;
        Ok(PodList { items })
    }
}

/// Something that happened in the cluster, and how often.
#[derive(Debug)]
pub struct Event {
    pub count: u32,
    pub message: String,
    pub reason: String,
    pub last_timestamp: Timestamp,
}

pub struct EventView {
    pub count: u32,
    pub message: Seq<char>,
    pub reason: Seq<char>,
    pub last_timestamp: Timestamp,
}

impl View for Event {
    type V = EventView;

    open spec fn view(&self) -> EventView {
        EventView {
            count: self.count,
            message: self.message@,
            reason: self.reason@,
            last_timestamp: self.last_timestamp,
        }
    }
}

impl Resource for Event {
    /// `count`, `message`, `reason` and `lastTimestamp` are all required.
    open spec fn decoded(json: Json) -> Result<EventView, DecodeError> {
        match required_count(json, "count") {
            Ok(count) => match required_text(json, "message") {
                Ok(message) => match required_text(json, "reason") {
                    Ok(reason) => match required_instant(json, "lastTimestamp") {
                        Ok(last_timestamp) => Ok(
                            EventView { count, message, reason, last_timestamp },
                        ),
                        Err(error) => Err(error),
                    },
                    Err(error) => Err(error),
                },
                Err(error) => Err(error),
            },
            Err(error) => Err(error),
        }
    }

    fn from_json(json: &Json) -> (read: Result<Event, DecodeError>) {
        let count = field_count(json, "count")?;
        let message = field_text(json, "message")?;
        let reason = field_text(json, "reason")?;
        let last_timestamp = field_instant(json, "lastTimestamp")?;
        Ok(Event { count, message, reason, last_timestamp })
    }
}

/// The events that a list call returns, in the server's order.
#[derive(Debug)]
pub struct EventList {
    pub items: Vec<Event>,
}

pub struct EventListView {
    pub items: Seq<EventView>,
}

impl View for EventList {
    type V = EventListView;

    open spec fn view(&self) -> EventListView {
        EventListView { items: views(self.items@) }
    }
}

impl Resource for EventList {
    /// `items` is required, and each of its entries is an event.
    open spec fn decoded(json: Json) -> Result<EventListView, DecodeError> {
        match required_list::<Event>(json, "items") {
            Ok(items) => Ok(EventListView { items }),
            Err(error) => Err(error),
        }
    }

    fn from_json(json: &Json) -> (read: Result<EventList, DecodeError>) {
        let items = field_list::<Event>(json, "items")?;
        Ok(EventList { items })
    }
}

/// One condition of a node: which one, and whether it holds.
#[derive(Debug)]
pub struct NodeCondition {
    pub typ: String,
    pub status: String,
}

pub struct NodeConditionView {
    pub typ: Seq<char>,
    pub status: Seq<char>,
}

impl View for NodeCondition {
    type V = NodeConditionView;

    open spec fn view(&self) -> NodeConditionView {
        NodeConditionView { typ: self.typ@, status: self.status@ }
    }
}

impl Resource for NodeCondition {
    /// `type` and `status` are required.
    open spec fn decoded(json: Json) -> Result<NodeConditionView, DecodeError> {
        match required_text(json, "type") {
            Ok(typ) => match required_text(json, "status") {
                Ok(status) => Ok(NodeConditionView { typ, status }),
                Err(error) => Err(error),
            },
            Err(error) => Err(error),
        }
    }

    fn from_json(json: &Json) -> (read: Result<NodeCondition, DecodeError>) {
        let typ = field_text(json, "type")?;
        let status = field_text(json, "status")?;
        Ok(NodeCondition { typ, status })
    }
}

/// The conditions that a node reports.
#[derive(Debug)]
pub struct NodeStatus {
    pub conditions: Vec<NodeCondition>,
}

pub struct NodeStatusView {
    pub conditions: Seq<NodeConditionView>,
}

impl View for NodeStatus {
    type V = NodeStatusView;

    open spec fn view(&self) -> NodeStatusView {
        NodeStatusView { conditions: views(self.conditions@) }
    }
}

impl Resource for NodeStatus {
    /// `conditions` is required, and each of its entries is a condition.
    open spec fn decoded(json: Json) -> Result<NodeStatusView, DecodeError> {
        match required_list::<NodeCondition>(json, "conditions") {
            Ok(conditions) => Ok(NodeStatusView { conditions }),
            Err(error) => Err(error),
        }
    }

    fn from_json(json: &Json) -> (read: Result<NodeStatus, DecodeError>) {
        let conditions = field_list::<NodeCondition>(json, "conditions")?;
        Ok(NodeStatus { conditions })
    }
}

/// What was asked of a node: here only whether it is closed to new pods.
#[derive(Debug)]
pub struct NodeSpec {
    pub unschedulable: Option<bool>,
}

pub struct NodeSpecView {
    pub unschedulable: Option<bool>,
}

impl View for NodeSpec {
    type V = NodeSpecView;

    open spec fn view(&self) -> NodeSpecView {
        NodeSpecView { unschedulable: self.unschedulable }
    }
}

impl Resource for NodeSpec {
    /// `unschedulable` is optional.
    open spec fn decoded(json: Json) -> Result<NodeSpecView, DecodeError> {
        match optional_flag(json, "unschedulable") {
            Ok(unschedulable) => Ok(NodeSpecView { unschedulable }),
            Err(error) => Err(error),
        }
    }

    fn from_json(json: &Json) -> (read: Result<NodeSpec, DecodeError>) {
        let unschedulable = field_optional_flag(json, "unschedulable")?;
        Ok(NodeSpec { unschedulable })
    }
}

/// A node.
#[derive(Debug)]
pub struct Node {
    pub metadata: Metadata,
    pub spec: NodeSpec,
    pub status: NodeStatus,
}

pub struct NodeView {
    pub metadata: MetadataView,
    pub spec: NodeSpecView,
    pub status: NodeStatusView,
}

impl View for Node {
    type V = NodeView;

    open spec fn view(&self) -> NodeView {
        NodeView { metadata: self.metadata@, spec: self.spec@, status: self.status@ }
    }
}

impl Resource for Node {
    /// `metadata`, `spec` and `status` are required.
    open spec fn decoded(json: Json) -> Result<NodeView, DecodeError> {
        match required_record::<Metadata>(json, "metadata") {
            Ok(metadata) => match required_record::<NodeSpec>(json, "spec") {
                Ok(spec) => match required_record::<NodeStatus>(json, "status") {
                    Ok(status) => Ok(NodeView { metadata, spec, status }),
                    Err(error) => Err(error),
                },
                Err(error) => Err(error),
            },
            Err(error) => Err(error),
        }
    }

    fn from_json(json: &Json) -> (read: Result<Node, DecodeError>) {
        let metadata = field_record::<Metadata>(json, "metadata")?;
        let spec = field_record::<NodeSpec>(json, "spec")?;
        let status = field_record::<NodeStatus>(json, "status")?;
        Ok(Node { metadata, spec, status })
    }
}

/// The nodes that a list call returns, in the server's order.
#[derive(Debug)]
pub struct NodeList {
    pub items: Vec<Node>,
}

pub struct NodeListView {
    pub items: Seq<NodeView>,
}

impl View for NodeList {
    type V = NodeListView;

    open spec fn view(&self) -> NodeListView {
        NodeListView { items: views(self.items@) }
    }
}

impl Resource for NodeList {
    /// `items` is required, and each of its entries is a node.
    open spec fn decoded(json: Json) -> Result<NodeListView, DecodeError> {
        match required_list::<Node>(json, "items") {
            Ok(items) => Ok(NodeListView { items }),
            Err(error) => Err(error),
        }
    }

    fn from_json(json: &Json) -> (read: Result<NodeList, DecodeError>) {
        let items = field_list::<Node>(json, "items")?;
        Ok(NodeList { items })
    }
}

} // verus!
