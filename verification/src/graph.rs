use vstd::prelude::*;

use crate::model::{AgentGraph, AgentGraphEdge, AgentGraphNode, AgentRelationship, AgentResource};

verus! {

/// The label of a resource in the graph: its name, or its id where it has none.
pub open spec fn node_label(resource: AgentResource) -> String {
    match resource.name {
        Some(name) => name,
        None => resource.id,
    }
}

/// `node` is the graph node of `resource`.
pub open spec fn is_node_of(node: AgentGraphNode, resource: AgentResource) -> bool {
    &&& node.id == resource.uid
    &&& node.label == node_label(resource)
    &&& node.service == resource.service
    &&& node.resource_type == resource.resource_type
    &&& node.region == resource.region
    &&& node.terraform_addresses@ == resource.terraform_addresses@
    &&& node.finding_ids@ == resource.finding_ids@
    &&& node.severity == resource.severity
}

/// `edge` is the graph edge of `relationship`.
pub open spec fn is_edge_of(edge: AgentGraphEdge, relationship: AgentRelationship) -> bool {
    &&& edge.id == relationship.uid
    &&& edge.source == relationship.from
    &&& edge.target == relationship.to
    &&& edge.relationship_type == relationship.relationship_type
}

/// `graph` has one node per resource and one edge per relationship, in order.
pub open spec fn is_graph_of(
    graph: AgentGraph,
    resources: Seq<AgentResource>,
    relationships: Seq<AgentRelationship>,
) -> bool {
    &&& graph.nodes@.len() == resources.len()
    &&& forall|i: int| 0 <= i < resources.len() ==> is_node_of(#[trigger] graph.nodes@[i], resources[i])
    &&& graph.edges@.len() == relationships.len()
    &&& forall|i: int|
        0 <= i < relationships.len() ==> is_edge_of(#[trigger] graph.edges@[i], relationships[i])
}

pub fn graph_node(resource: &AgentResource) -> (node: AgentGraphNode)
    ensures
        is_node_of(node, *resource),
{
    let label = match &resource.name {
        Some(name) => name.clone(),
        None => resource.id.clone(),
    };
    AgentGraphNode {
        id: resource.uid.clone(),
        label,
        service: resource.service.clone(),
        resource_type: resource.resource_type.clone(),
        region: resource.region.clone(),
        terraform_addresses: resource.terraform_addresses.clone(),
        finding_ids: resource.finding_ids.clone(),
        severity: resource.severity.clone(),
    }
}

pub fn graph_edge(relationship: &AgentRelationship) -> (edge: AgentGraphEdge)
    ensures
        is_edge_of(edge, *relationship),
{
    AgentGraphEdge {
        id: relationship.uid.clone(),
        source: relationship.from.clone(),
        target: relationship.to.clone(),
        relationship_type: relationship.relationship_type.clone(),
    }
}

pub fn agent_graph(resources: &[AgentResource], relationships: &[AgentRelationship]) -> (graph:
    AgentGraph)
    ensures
        is_graph_of(graph, resources@, relationships@),
{
    let mut nodes: Vec<AgentGraphNode> = Vec::new();
    for i in 0..resources.len()
        invariant
            nodes@.len() == i,
            forall|j: int| 0 <= j < i ==> is_node_of(#[trigger] nodes@[j], resources@[j]),
    {
        nodes.push(graph_node(&resources[i]));
    }
    let mut edges: Vec<AgentGraphEdge> = Vec::new();
    for i in 0..relationships.len()
        invariant
            edges@.len() == i,
            forall|j: int| 0 <= j < i ==> is_edge_of(#[trigger] edges@[j], relationships@[j]),
    {
        edges.push(graph_edge(&relationships[i]));
    }
    AgentGraph { nodes, edges }
}

} // verus!
