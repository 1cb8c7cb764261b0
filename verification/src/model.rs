use vstd::prelude::*;

verus! {

/// The bundle handed to an agent: one AWS scan with its resources and
/// relationships, the Terraform state it is compared against, the findings
/// of that comparison, and a graph view of the resources.
#[derive(Debug)]
pub struct AgentExport {
    pub schema_version: String,
    pub generated_at: String,
    pub scan: AgentScan,
    pub counts: AgentCounts,
    pub resources: Vec<AgentResource>,
    pub relationships: Vec<AgentRelationship>,
    pub terraform: AgentTerraform,
    pub findings: Vec<AgentFinding>,
    pub graph: AgentGraph,
}

#[derive(Clone, Debug)]
pub struct AgentScan {
    pub id: String,
    pub schema_version: String,
    pub generator: AgentGenerator,
    pub account: AgentAccount,
    pub home_region: String,
    pub regions: Vec<String>,
    pub collected_at: String,
    pub errors: Vec<AgentScanError>,
}

#[derive(Clone, Debug)]
pub struct AgentGenerator {
    pub name: String,
    pub version: String,
}

#[derive(Clone, Debug)]
pub struct AgentAccount {
    pub id: String,
    pub partition: String,
}

#[derive(Clone, Debug)]
pub struct AgentScanError {
    pub service: String,
    pub region: String,
    pub operation: String,
    pub message: String,
}

#[derive(Debug)]
pub struct AgentCounts {
    pub resources: usize,
    pub relationships: usize,
    pub terraform_resource_instances: usize,
    pub findings: usize,
    pub scan_errors: usize,
}

#[derive(Debug)]
pub struct AgentResource {
    pub uid: String,
    pub provider: String,
    pub account_id: String,
    pub partition: String,
    pub region: String,
    pub service: String,
    pub resource_type: String,
    pub id: String,
    pub arn: Option<String>,
    pub name: Option<String>,
    pub tags: serde_json::Value,
    pub attributes: serde_json::Value,
    pub evidence: serde_json::Value,
    pub raw: Option<serde_json::Value>,
    pub terraform_addresses: Vec<String>,
    pub finding_ids: Vec<String>,
    pub severity: Option<String>,
}

#[derive(Debug)]
pub struct AgentRelationship {
    pub uid: String,
    pub from: String,
    pub to: String,
    pub relationship_type: String,
    pub attributes: serde_json::Value,
    pub evidence: serde_json::Value,
}

#[derive(Debug)]
pub struct AgentTerraform {
    pub state: Option<AgentTerraformState>,
    pub resource_instances: Vec<AgentTerraformResource>,
}

#[derive(Debug)]
pub struct AgentTerraformState {
    pub state_id: String,
    pub source_path: String,
    pub terraform_version: Option<String>,
    pub serial: Option<i64>,
    pub lineage: Option<String>,
    pub imported_at: String,
}

#[derive(Debug)]
pub struct AgentTerraformResource {
    pub address: String,
    pub module: Option<String>,
    pub mode: String,
    pub resource_type: String,
    pub name: String,
    pub provider: Option<String>,
    pub index_key: Option<serde_json::Value>,
    pub schema_version: Option<i64>,
    pub attributes: serde_json::Value,
    pub sensitive_attributes: serde_json::Value,
    pub dependencies: serde_json::Value,
    pub aws_uid: Option<String>,
}

#[derive(Debug)]
pub struct AgentFinding {
    pub id: String,
    pub finding_type: String,
    pub severity: String,
    pub aws_uid: Option<String>,
    pub terraform_address: Option<String>,
    pub reason: String,
    pub recommended_action: String,
    pub blast_radius: Vec<String>,
    pub evidence: serde_json::Value,
    pub attributes: serde_json::Value,
}

#[derive(Debug)]
pub struct AgentGraph {
    pub nodes: Vec<AgentGraphNode>,
    pub edges: Vec<AgentGraphEdge>,
}

#[derive(Debug)]
pub struct AgentGraphNode {
    pub id: String,
    pub label: String,
    pub service: String,
    pub resource_type: String,
    pub region: String,
    pub terraform_addresses: Vec<String>,
    pub finding_ids: Vec<String>,
    pub severity: Option<String>,
}

#[derive(Debug)]
pub struct AgentGraphEdge {
    pub id: String,
    pub source: String,
    pub target: String,
    pub relationship_type: String,
}

} // verus!
