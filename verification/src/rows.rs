use vstd::prelude::*;

verus! {

/// A stored scan, as the `scans` table holds it.
#[derive(Debug)]
pub struct ScanRow {
    pub schema_version: String,
    pub generator_name: String,
    pub generator_version: String,
    pub account_id: String,
    pub partition: String,
    pub home_region: String,
    pub regions_json: String,
    pub collected_at: String,
}

/// A stored resource, as the `resources` table holds it.
#[derive(Debug)]
pub struct ResourceRow {
    pub uid: String,
    pub provider: String,
    pub account_id: String,
    pub partition: String,
    pub region: String,
    pub service: String,
    pub resource_type: String,
    pub resource_id: String,
    pub arn: Option<String>,
    pub name: Option<String>,
    pub tags_json: String,
    pub attributes_json: String,
    pub evidence_json: String,
    pub raw_json: Option<String>,
}

/// A stored relationship, as the `relationships` table holds it.
#[derive(Debug)]
pub struct RelationshipRow {
    pub uid: String,
    pub from_uid: String,
    pub to_uid: String,
    pub relationship_type: String,
    pub attributes_json: String,
    pub evidence_json: String,
}

/// A stored Terraform state, as the `terraform_states` table holds it.
#[derive(Debug)]
pub struct TerraformStateRow {
    pub source_path: String,
    pub terraform_version: Option<String>,
    pub serial: Option<i64>,
    pub lineage: Option<String>,
    pub imported_at: String,
}

/// A stored Terraform resource instance, as the
/// `terraform_resource_instances` table holds it.
#[derive(Debug)]
pub struct TerraformResourceRow {
    pub address: String,
    pub module: Option<String>,
    pub mode: String,
    pub resource_type: String,
    pub name: String,
    pub provider: Option<String>,
    pub index_key_json: Option<String>,
    pub schema_version: Option<i64>,
    pub attributes_json: String,
    pub sensitive_attributes_json: String,
    pub dependencies_json: String,
    pub aws_uid: Option<String>,
}

/// A stored finding, as the `findings` table holds it.
#[derive(Debug)]
pub struct FindingRow {
    pub id: String,
    pub finding_type: String,
    pub severity: String,
    pub aws_uid: Option<String>,
    pub terraform_address: Option<String>,
    pub reason: String,
    pub recommended_action: String,
    pub blast_radius_json: String,
    pub evidence_json: String,
    pub attributes_json: String,
}

} // verus!
