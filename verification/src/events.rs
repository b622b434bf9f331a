use vstd::prelude::*;

verus! {

/// One atomic, ordered graph mutation, mirroring the update events of the
/// annotation-graph engine. A batch of these is a changeset; the diff log
/// of a corpus is a sequence of them.
#[derive(Debug, Clone, PartialEq, Eq)]
pub enum UpdateEvent {
    /// Add a node with a name and a type.
    AddNode { node_name: String, node_type: String },
    /// Delete the node with the given name.
    DeleteNode { node_name: String },
    /// Add a label to the node with the given name.
    AddNodeLabel { node_name: String, anno_ns: String, anno_name: String, anno_value: String },
    /// Delete a label of the node with the given name.
    DeleteNodeLabel { node_name: String, anno_ns: String, anno_name: String },
    /// Add an edge between two nodes given by their names.
    AddEdge {
        source_node: String,
        target_node: String,
        layer: String,
        component_type: String,
        component_name: String,
    },
    /// Delete an existing edge between two nodes.
    DeleteEdge {
        source_node: String,
        target_node: String,
        layer: String,
        component_type: String,
        component_name: String,
    },
    /// Add a label to an edge between two nodes.
    AddEdgeLabel {
        source_node: String,
        target_node: String,
        layer: String,
        component_type: String,
        component_name: String,
        anno_ns: String,
        anno_name: String,
        anno_value: String,
    },
    /// Delete a label from an edge between two nodes.
    DeleteEdgeLabel {
        source_node: String,
        target_node: String,
        layer: String,
        component_type: String,
        component_name: String,
        anno_ns: String,
        anno_name: String,
    },
}

/// The mathematical value of an [`UpdateEvent`]: the same constructors over
/// sequences of characters.
pub enum EventV {
    AddNode { node_name: Seq<char>, node_type: Seq<char> },
    DeleteNode { node_name: Seq<char> },
    AddNodeLabel {
        node_name: Seq<char>,
        anno_ns: Seq<char>,
        anno_name: Seq<char>,
        anno_value: Seq<char>,
    },
    DeleteNodeLabel { node_name: Seq<char>, anno_ns: Seq<char>, anno_name: Seq<char> },
    AddEdge {
        source_node: Seq<char>,
        target_node: Seq<char>,
        layer: Seq<char>,
        component_type: Seq<char>,
        component_name: Seq<char>,
    },
    DeleteEdge {
        source_node: Seq<char>,
        target_node: Seq<char>,
        layer: Seq<char>,
        component_type: Seq<char>,
        component_name: Seq<char>,
    },
    AddEdgeLabel {
        source_node: Seq<char>,
        target_node: Seq<char>,
        layer: Seq<char>,
        component_type: Seq<char>,
        component_name: Seq<char>,
        anno_ns: Seq<char>,
        anno_name: Seq<char>,
        anno_value: Seq<char>,
    },
    DeleteEdgeLabel {
        source_node: Seq<char>,
        target_node: Seq<char>,
        layer: Seq<char>,
        component_type: Seq<char>,
        component_name: Seq<char>,
        anno_ns: Seq<char>,
        anno_name: Seq<char>,
    },
}

impl View for UpdateEvent {
    type V = EventV;

    open spec fn view(&self) -> EventV {
        match self {
            UpdateEvent::AddNode { node_name, node_type } => EventV::AddNode {
                node_name: node_name@,
                node_type: node_type@,
            },
            UpdateEvent::DeleteNode { node_name } => EventV::DeleteNode { node_name: node_name@ },
            UpdateEvent::AddNodeLabel { node_name, anno_ns, anno_name, anno_value } => {
                EventV::AddNodeLabel {
                    node_name: node_name@,
                    anno_ns: anno_ns@,
                    anno_name: anno_name@,
                    anno_value: anno_value@,
                }
            },
            UpdateEvent::DeleteNodeLabel { node_name, anno_ns, anno_name } => {
                EventV::DeleteNodeLabel {
                    node_name: node_name@,
                    anno_ns: anno_ns@,
                    anno_name: anno_name@,
                }
            },
            UpdateEvent::AddEdge {
                source_node,
                target_node,
                layer,
                component_type,
                component_name,
            } => EventV::AddEdge {
                source_node: source_node@,
                target_node: target_node@,
                layer: layer@,
                component_type: component_type@,
                component_name: component_name@,
            },
            UpdateEvent::DeleteEdge {
                source_node,
                target_node,
                layer,
                component_type,
                component_name,
            } => EventV::DeleteEdge {
                source_node: source_node@,
                target_node: target_node@,
                layer: layer@,
                component_type: component_type@,
                component_name: component_name@,
            },
            UpdateEvent::AddEdgeLabel {
                source_node,
                target_node,
                layer,
                component_type,
                component_name,
                anno_ns,
                anno_name,
                anno_value,
            } => EventV::AddEdgeLabel {
                source_node: source_node@,
                target_node: target_node@,
                layer: layer@,
                component_type: component_type@,
                component_name: component_name@,
                anno_ns: anno_ns@,
                anno_name: anno_name@,
                anno_value: anno_value@,
            },
            UpdateEvent::DeleteEdgeLabel {
                source_node,
                target_node,
                layer,
                component_type,
                component_name,
                anno_ns,
                anno_name,
            } => EventV::DeleteEdgeLabel {
                source_node: source_node@,
                target_node: target_node@,
                layer: layer@,
                component_type: component_type@,
                component_name: component_name@,
                anno_ns: anno_ns@,
                anno_name: anno_name@,
            },
        }
    }
}

/// The mathematical value of an ordered batch of events.
pub open spec fn events_view(v: Seq<UpdateEvent>) -> Seq<EventV> {
    v.map_values(|e: UpdateEvent| e@)
}

impl UpdateEvent {
    /// An explicit deep copy; the result is the same event.
    pub fn duplicate(&self) -> (r: Self)
        ensures
            r == *self,
    {
        match self {
            UpdateEvent::AddNode { node_name, node_type } => UpdateEvent::AddNode {
                node_name: node_name.clone(),
                node_type: node_type.clone(),
            },
            UpdateEvent::DeleteNode { node_name } => UpdateEvent::DeleteNode {
                node_name: node_name.clone(),
            },
            UpdateEvent::AddNodeLabel { node_name, anno_ns, anno_name, anno_value } => {
                UpdateEvent::AddNodeLabel {
                    node_name: node_name.clone(),
                    anno_ns: anno_ns.clone(),
                    anno_name: anno_name.clone(),
                    anno_value: anno_value.clone(),
                }
            },
            UpdateEvent::DeleteNodeLabel { node_name, anno_ns, anno_name } => {
                UpdateEvent::DeleteNodeLabel {
                    node_name: node_name.clone(),
                    anno_ns: anno_ns.clone(),
                    anno_name: anno_name.clone(),
                }
            },
            UpdateEvent::AddEdge {
                source_node,
                target_node,
                layer,
                component_type,
                component_name,
            } => UpdateEvent::AddEdge {
                source_node: source_node.clone(),
                target_node: target_node.clone(),
                layer: layer.clone(),
                component_type: component_type.clone(),
                component_name: component_name.clone(),
            },
            UpdateEvent::DeleteEdge {
                source_node,
                target_node,
                layer,
                component_type,
                component_name,
            } => UpdateEvent::DeleteEdge {
                source_node: source_node.clone(),
                target_node: target_node.clone(),
                layer: layer.clone(),
                component_type: component_type.clone(),
                component_name: component_name.clone(),
            },
            UpdateEvent::AddEdgeLabel {
                source_node,
                target_node,
                layer,
                component_type,
                component_name,
                anno_ns,
                anno_name,
                anno_value,
            } => UpdateEvent::AddEdgeLabel {
                source_node: source_node.clone(),
                target_node: target_node.clone(),
                layer: layer.clone(),
                component_type: component_type.clone(),
                component_name: component_name.clone(),
                anno_ns: anno_ns.clone(),
                anno_name: anno_name.clone(),
                anno_value: anno_value.clone(),
            },
            UpdateEvent::DeleteEdgeLabel {
                source_node,
                target_node,
                layer,
                component_type,
                component_name,
                anno_ns,
                anno_name,
            } => UpdateEvent::DeleteEdgeLabel {
                source_node: source_node.clone(),
                target_node: target_node.clone(),
                layer: layer.clone(),
                component_type: component_type.clone(),
                component_name: component_name.clone(),
                anno_ns: anno_ns.clone(),
                anno_name: anno_name.clone(),
            },
        }
    }
}

/// An explicit deep copy of a batch; the result holds the same events in
/// the same order.
pub fn events_duplicate(v: &Vec<UpdateEvent>) -> (r: Vec<UpdateEvent>)
    ensures
        r@ == v@,
{
    let mut out: Vec<UpdateEvent> = Vec::new();
    let mut i: usize = 0;
    while i < v.len()
        invariant
            i <= v.len(),
            out@ == v@.take(i as int),
        decreases v.len() - i,
    {
        out.push(v[i].duplicate());
        proof {
            assert(out@ =~= v@.take(i as int + 1));
        }
        i += 1;
    }
    proof {
        assert(v@.take(v@.len() as int) =~= v@);
    }
    out
}

} // verus!
