//! The trusted boundary towards the annotation-graph engine and the
//! shared-state primitives of the shell.
//!
//! Everything in this module that carries `#[verifier::external_body]` is a
//! thin wrapper around one operation of an outside crate; its contract is
//! what that crate's source shows, and nothing more. The rest of the
//! library is verified against these contracts.
use vstd::prelude::*;

use std::sync::Arc;

use crate::errors::AppError;
use crate::events::{events_view, EventV, UpdateEvent};

verus! {

#[verifier::external_type_specification]
#[verifier::external_body]
pub struct ExGraphUpdate(graphannis::update::GraphUpdate);

#[verifier::external_type_specification]
#[verifier::external_body]
#[verifier::reject_recursive_types(T)]
pub struct ExRwLock<T: ?Sized>(egui::mutex::RwLock<T>);

/// One loaded annotation graph behind a shared read/write lock, that is an
/// `Arc<egui::mutex::RwLock<AnnotationGraph>>`. The annotation graph type
/// itself cannot be declared to the verifier (its generic parameter is
/// bounded by an outside trait), so this struct hides the whole pair and
/// is opaque; every use of it goes through the wrappers below.
#[verifier::external_body]
pub struct SharedGraph {
    inner: Arc<egui::mutex::RwLock<graphannis::AnnotationGraph>>,
}

/// Relies on `Arc::clone`: the result shares the identical lock and graph.
#[verifier::external_body]
fn share_graph(g: &SharedGraph) -> (r: SharedGraph)
    ensures
        r == *g,
{
    SharedGraph { inner: Arc::clone(&g.inner) }
}

/// A shared handle to one loaded annotation graph.
///
/// Concurrent readers and one exclusive writer are arbitrated by the lock
/// inside [`SharedGraph`]; the ghost `id` names the load that created the
/// underlying graph, so that contracts can distinguish "the same loaded
/// instance" from "a fresh load of the same location".
pub struct GraphHandle {
    pub graph: SharedGraph,
    pub id: Ghost<int>,
}

impl GraphHandle {
    /// Another handle to the identical underlying graph instance.
    pub fn share(&self) -> (r: GraphHandle)
        ensures
            r == *self,
    {
        GraphHandle { graph: share_graph(&self.graph), id: Ghost(self.id@) }
    }
}

/// Relies on `Arc::clone`: the returned pointer shares the same slot.
#[verifier::external_body]
fn share_slot(a: &Arc<egui::mutex::RwLock<Option<String>>>) -> (r: Arc<
    egui::mutex::RwLock<Option<String>>,
>)
    ensures
        r == *a,
{
    Arc::clone(a)
}

/// The progress-message slot of one background job: writable by the worker
/// thread, readable by the shell while the job runs.
pub struct FgJob {
    msg: Arc<egui::mutex::RwLock<Option<String>>>,
}

impl FgJob {
    /// Relies on `egui::mutex::RwLock::new` (and `Arc::new`): an empty
    /// progress slot.
    #[verifier::external_body]
    pub fn new() -> (r: FgJob) {
        FgJob { msg: Arc::new(egui::mutex::RwLock::new(None)) }
    }

    /// Another handle to the identical progress slot.
    pub fn share(&self) -> (r: FgJob)
        ensures
            r == *self,
    {
        FgJob { msg: share_slot(&self.msg) }
    }

    /// Relies on `egui::mutex::RwLock::write`: stores the given progress
    /// message in the shared slot.
    #[verifier::external_body]
    pub fn update_message(&self, message: &str) {
        let mut lock = self.msg.write();
        *lock = Some(message.to_owned());
    }

    /// Relies on `egui::mutex::RwLock::read`: the progress message most
    /// recently stored, if any. The slot is shared with a concurrent
    /// writer, so nothing holds of the result.
    #[verifier::external_body]
    pub fn current_message(&self) -> Option<String> {
        let lock = self.msg.read();
        lock.clone()
    }
}

/// Relies on `AnnotationGraph::new(false)` and `Graph::import`: loads the
/// serialized graph stored at the given location on disk into a new,
/// in-memory graph behind a fresh shared lock. (The bare graph type cannot
/// stand in a signature, so creating, importing and wrapping are one
/// trusted step.)
#[verifier::external_body]
pub(crate) fn load_graph(location: &str) -> Result<SharedGraph, AppError> {
    let mut g = graphannis::AnnotationGraph::new(false).map_err(|e| AppError::Graph {
        message: format!("{e}"),
    })?;
    g.import(std::path::Path::new(location)).map_err(|e| AppError::Graph {
        message: format!("{e}"),
    })?;
    Ok(SharedGraph { inner: Arc::new(egui::mutex::RwLock::new(g)) })
}

/// Relies on `AnnotationGraph::with_default_graphstorages(false)`: a new,
/// empty, in-memory graph with the default storage components, behind a
/// fresh shared lock.
#[verifier::external_body]
pub(crate) fn new_storage_graph() -> Result<SharedGraph, AppError> {
    let g = graphannis::AnnotationGraph::with_default_graphstorages(false).map_err(|e| {
        AppError::Graph { message: format!("{e}") }
    })?;
    Ok(SharedGraph { inner: Arc::new(egui::mutex::RwLock::new(g)) })
}

/// Relies on `Graph::persist_to` (under a write lock): writes the graph's
/// content to the given location on disk.
#[verifier::external_body]
pub(crate) fn graph_persist(g: &SharedGraph, location: &str) -> Result<(), AppError> {
    let mut g = g.inner.write();
    g.persist_to(std::path::Path::new(location)).map_err(|e| AppError::Graph {
        message: format!("{e}"),
    })
}

/// Relies on `Graph::apply_update_keep_statistics` (under a write lock):
/// applies the whole update batch transactionally to the graph; progress
/// is forwarded to the job's message slot.
#[verifier::external_body]
pub(crate) fn graph_apply_update(
    g: &SharedGraph,
    u: &mut graphannis::update::GraphUpdate,
    job: &FgJob,
) -> Result<(), AppError> {
    let mut g = g.inner.write();
    g.apply_update_keep_statistics(u, |msg| job.update_message(msg)).map_err(|e| {
        AppError::Graph { message: format!("{e}") }
    })
}

/// Relies on `graphml::import`: parses a GraphML serialization from the
/// given bytes into a new, in-memory graph behind a fresh shared lock;
/// progress is forwarded to the job's message slot.
#[verifier::external_body]
pub(crate) fn import_graphml(bytes: &Vec<u8>, job: &FgJob) -> Result<SharedGraph, AppError> {
    let parsed = graphannis_core::graph::serialization::graphml::import::<
        graphannis::model::AnnotationComponentType,
        _,
        _,
    >(bytes.as_slice(), false, |msg| job.update_message(msg));
    let (g, _config) = parsed.map_err(|e| AppError::Graph { message: format!("{e}") })?;
    Ok(SharedGraph { inner: Arc::new(egui::mutex::RwLock::new(g)) })
}

/// Relies on `graphml::export_stable_order` (under a read lock):
/// serializes the graph, in stable order, into a byte buffer; progress is
/// forwarded to the job's message slot.
#[verifier::external_body]
pub(crate) fn graph_export_graphml(g: &SharedGraph, job: &FgJob) -> Result<Vec<u8>, AppError> {
    let g = g.inner.read();
    let mut out: Vec<u8> = Vec::new();
    graphannis_core::graph::serialization::graphml::export_stable_order(&g, None, &mut out, |msg| {
        job.update_message(msg)
    })
        .map_err(|e| AppError::Graph { message: format!("{e}") })?;
    Ok(out)
}

/// The ordered list of update events an engine update batch holds.
pub uninterp spec fn update_contents(u: graphannis::update::GraphUpdate) -> Seq<EventV>;

/// Relies on `GraphUpdate::default` (`GraphUpdate::new`): a new, empty
/// list of updates.
#[verifier::external_body]
pub(crate) fn update_new() -> (u: graphannis::update::GraphUpdate)
    ensures
        update_contents(u) == Seq::<EventV>::empty(),
{
    graphannis::update::GraphUpdate::default()
}

/// Relies on `GraphUpdate::add_event`: appends an add-node event.
#[verifier::external_body]
fn push_add_node(
    u: &mut graphannis::update::GraphUpdate,
    node_name: &String,
    node_type: &String,
) -> (r: Result<(), AppError>)
    ensures
        r is Ok ==> update_contents(*final(u)) == update_contents(*old(u)).push(
            EventV::AddNode { node_name: node_name@, node_type: node_type@ },
        ),
{
    u.add_event(graphannis::update::UpdateEvent::AddNode {
        node_name: node_name.clone(),
        node_type: node_type.clone(),
    }).map_err(|e| AppError::Graph { message: format!("{e}") })
}

/// Relies on `GraphUpdate::add_event`: appends a delete-node event.
#[verifier::external_body]
fn push_delete_node(u: &mut graphannis::update::GraphUpdate, node_name: &String) -> (r: Result<
    (),
    AppError,
>)
    ensures
        r is Ok ==> update_contents(*final(u)) == update_contents(*old(u)).push(
            EventV::DeleteNode { node_name: node_name@ },
        ),
{
    u.add_event(graphannis::update::UpdateEvent::DeleteNode { node_name: node_name.clone() })
        .map_err(|e| AppError::Graph { message: format!("{e}") })
}

/// Relies on `GraphUpdate::add_event`: appends an add-node-label event.
#[verifier::external_body]
fn push_add_node_label(
    u: &mut graphannis::update::GraphUpdate,
    node_name: &String,
    anno_ns: &String,
    anno_name: &String,
    anno_value: &String,
) -> (r: Result<(), AppError>)
    ensures
        r is Ok ==> update_contents(*final(u)) == update_contents(*old(u)).push(
            EventV::AddNodeLabel {
                node_name: node_name@,
                anno_ns: anno_ns@,
                anno_name: anno_name@,
                anno_value: anno_value@,
            },
        ),
{
    u.add_event(graphannis::update::UpdateEvent::AddNodeLabel {
        node_name: node_name.clone(),
        anno_ns: anno_ns.clone(),
        anno_name: anno_name.clone(),
        anno_value: anno_value.clone(),
    }).map_err(|e| AppError::Graph { message: format!("{e}") })
}

/// Relies on `GraphUpdate::add_event`: appends a delete-node-label event.
#[verifier::external_body]
fn push_delete_node_label(
    u: &mut graphannis::update::GraphUpdate,
    node_name: &String,
    anno_ns: &String,
    anno_name: &String,
) -> (r: Result<(), AppError>)
    ensures
        r is Ok ==> update_contents(*final(u)) == update_contents(*old(u)).push(
            EventV::DeleteNodeLabel {
                node_name: node_name@,
                anno_ns: anno_ns@,
                anno_name: anno_name@,
            },
        ),
{
    u.add_event(graphannis::update::UpdateEvent::DeleteNodeLabel {
        node_name: node_name.clone(),
        anno_ns: anno_ns.clone(),
        anno_name: anno_name.clone(),
    }).map_err(|e| AppError::Graph { message: format!("{e}") })
}

/// Relies on `GraphUpdate::add_event`: appends an add-edge event.
#[verifier::external_body]
fn push_add_edge(
    u: &mut graphannis::update::GraphUpdate,
    source_node: &String,
    target_node: &String,
    layer: &String,
    component_type: &String,
    component_name: &String,
) -> (r: Result<(), AppError>)
    ensures
        r is Ok ==> update_contents(*final(u)) == update_contents(*old(u)).push(
            EventV::AddEdge {
                source_node: source_node@,
                target_node: target_node@,
                layer: layer@,
                component_type: component_type@,
                component_name: component_name@,
            },
        ),
{
    u.add_event(graphannis::update::UpdateEvent::AddEdge {
        source_node: source_node.clone(),
        target_node: target_node.clone(),
        layer: layer.clone(),
        component_type: component_type.clone(),
        component_name: component_name.clone(),
    }).map_err(|e| AppError::Graph { message: format!("{e}") })
}

/// Relies on `GraphUpdate::add_event`: appends a delete-edge event.
#[verifier::external_body]
fn push_delete_edge(
    u: &mut graphannis::update::GraphUpdate,
    source_node: &String,
    target_node: &String,
    layer: &String,
    component_type: &String,
    component_name: &String,
) -> (r: Result<(), AppError>)
    ensures
        r is Ok ==> update_contents(*final(u)) == update_contents(*old(u)).push(
            EventV::DeleteEdge {
                source_node: source_node@,
                target_node: target_node@,
                layer: layer@,
                component_type: component_type@,
                component_name: component_name@,
            },
        ),
{
    u.add_event(graphannis::update::UpdateEvent::DeleteEdge {
        source_node: source_node.clone(),
        target_node: target_node.clone(),
        layer: layer.clone(),
        component_type: component_type.clone(),
        component_name: component_name.clone(),
    }).map_err(|e| AppError::Graph { message: format!("{e}") })
}

/// Relies on `GraphUpdate::add_event`: appends an add-edge-label event.
#[verifier::external_body]
fn push_add_edge_label(
    u: &mut graphannis::update::GraphUpdate,
    source_node: &String,
    target_node: &String,
    layer: &String,
    component_type: &String,
    component_name: &String,
    anno_ns: &String,
    anno_name: &String,
    anno_value: &String,
) -> (r: Result<(), AppError>)
    ensures
        r is Ok ==> update_contents(*final(u)) == update_contents(*old(u)).push(
            EventV::AddEdgeLabel {
                source_node: source_node@,
                target_node: target_node@,
                layer: layer@,
                component_type: component_type@,
                component_name: component_name@,
                anno_ns: anno_ns@,
                anno_name: anno_name@,
                anno_value: anno_value@,
            },
        ),
{
    u.add_event(graphannis::update::UpdateEvent::AddEdgeLabel {
        source_node: source_node.clone(),
        target_node: target_node.clone(),
        layer: layer.clone(),
        component_type: component_type.clone(),
        component_name: component_name.clone(),
        anno_ns: anno_ns.clone(),
        anno_name: anno_name.clone(),
        anno_value: anno_value.clone(),
    }).map_err(|e| AppError::Graph { message: format!("{e}") })
}

/// Relies on `GraphUpdate::add_event`: appends a delete-edge-label event.
#[verifier::external_body]
fn push_delete_edge_label(
    u: &mut graphannis::update::GraphUpdate,
    source_node: &String,
    target_node: &String,
    layer: &String,
    component_type: &String,
    component_name: &String,
    anno_ns: &String,
    anno_name: &String,
) -> (r: Result<(), AppError>)
    ensures
        r is Ok ==> update_contents(*final(u)) == update_contents(*old(u)).push(
            EventV::DeleteEdgeLabel {
                source_node: source_node@,
                target_node: target_node@,
                layer: layer@,
                component_type: component_type@,
                component_name: component_name@,
                anno_ns: anno_ns@,
                anno_name: anno_name@,
            },
        ),
{
    u.add_event(graphannis::update::UpdateEvent::DeleteEdgeLabel {
        source_node: source_node.clone(),
        target_node: target_node.clone(),
        layer: layer.clone(),
        component_type: component_type.clone(),
        component_name: component_name.clone(),
        anno_ns: anno_ns.clone(),
        anno_name: anno_name.clone(),
    }).map_err(|e| AppError::Graph { message: format!("{e}") })
}

/// Appends one event of the library to an engine update batch.
pub(crate) fn push_event(u: &mut graphannis::update::GraphUpdate, e: &UpdateEvent) -> (r: Result<
    (),
    AppError,
>)
    ensures
        r is Ok ==> update_contents(*final(u)) == update_contents(*old(u)).push(e@),
{
    match e {
        UpdateEvent::AddNode { node_name, node_type } => push_add_node(u, node_name, node_type),
        UpdateEvent::DeleteNode { node_name } => push_delete_node(u, node_name),
        UpdateEvent::AddNodeLabel { node_name, anno_ns, anno_name, anno_value } => {
            push_add_node_label(u, node_name, anno_ns, anno_name, anno_value)
        },
        UpdateEvent::DeleteNodeLabel { node_name, anno_ns, anno_name } => {
            push_delete_node_label(u, node_name, anno_ns, anno_name)
        },
        UpdateEvent::AddEdge { source_node, target_node, layer, component_type, component_name } => {
            push_add_edge(u, source_node, target_node, layer, component_type, component_name)
        },
        UpdateEvent::DeleteEdge {
            source_node,
            target_node,
            layer,
            component_type,
            component_name,
        } => push_delete_edge(u, source_node, target_node, layer, component_type, component_name),
        UpdateEvent::AddEdgeLabel {
            source_node,
            target_node,
            layer,
            component_type,
            component_name,
            anno_ns,
            anno_name,
            anno_value,
        } => push_add_edge_label(
            u,
            source_node,
            target_node,
            layer,
            component_type,
            component_name,
            anno_ns,
            anno_name,
            anno_value,
        ),
        UpdateEvent::DeleteEdgeLabel {
            source_node,
            target_node,
            layer,
            component_type,
            component_name,
            anno_ns,
            anno_name,
        } => push_delete_edge_label(
            u,
            source_node,
            target_node,
            layer,
            component_type,
            component_name,
            anno_ns,
            anno_name,
        ),
    }
}

/// Builds an engine update batch holding exactly the given events, in
/// order. On success the batch's contents are pinned to the events, so a
/// caller that hands the batch to the engine is known to apply exactly
/// this changeset, nothing else.
pub fn build_update(events: &Vec<UpdateEvent>) -> (r: Result<
    graphannis::update::GraphUpdate,
    AppError,
>)
    ensures
        r matches Ok(u) ==> update_contents(u) == events_view(events@),
{
    let mut u = update_new();
    let mut i: usize = 0;
    while i < events.len()
        invariant
            i <= events.len(),
            update_contents(u) == events_view(events@.take(i as int)),
        decreases events.len() - i,
    {
        let step = push_event(&mut u, &events[i]);
        if let Err(e) = step {
            return Err(e);
        }
        proof {
            assert(update_contents(u) =~= events_view(events@.take(i as int + 1)));
        }
        i += 1;
    }
    proof {
        assert(events@.take(events@.len() as int) =~= events@);
    }
    Ok(u)
}

/// Applies exactly the given events, in order, transactionally to the
/// graph behind the handle: the batch handed to the engine is the one
/// [`build_update`]'s contract fixes to the events. Failure of the engine
/// is handed back unchanged; what the batch does to the opaque graph
/// content is the engine's affair.
pub fn apply_events(h: &GraphHandle, events: &Vec<UpdateEvent>, job: &FgJob) -> Result<
    (),
    AppError,
> {
    let mut u = match build_update(events) {
        Ok(u) => u,
        Err(e) => {
            return Err(e);
        },
    };
    proof {
        assert(update_contents(u) == events_view(events@));
    }
    graph_apply_update(&h.graph, &mut u, job)
}

} // verus!
