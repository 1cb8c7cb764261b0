use vstd::prelude::*;

use crate::error::{spec_error_message, ExportError};
use crate::export::is_export_of;
use crate::graph::is_graph_of;
use crate::index::addresses_for;
use crate::load::{
    is_finding_read_from, is_relationship_read_from, is_resource_read_from, is_scan_from,
    is_terraform_resource_read_from, is_terraform_state_from,
};
use crate::model::{
    AgentExport, AgentFinding, AgentGraph, AgentRelationship, AgentResource, AgentScan,
    AgentTerraform, AgentTerraformResource, AgentTerraformState,
};
use crate::severity::{no_severity, spec_max_severity, spec_severity_rank};
use crate::rows::{
    FindingRow, RelationshipRow, ResourceRow, ScanRow, TerraformResourceRow, TerraformStateRow,
};

verus! {

/// The graph mirrors what it is drawn from: node `i` stands for resource `i`,
/// under its uid, labelled by its name or else its id, in its service, type
/// and region, with its Terraform addresses, finding ids and severity; edge
/// `i` joins the two ends of relationship `i` under its uid and type.
pub proof fn lemma_graph_mirrors_resources(
    graph: AgentGraph,
    resources: Seq<AgentResource>,
    relationships: Seq<AgentRelationship>,
)
    requires
        is_graph_of(graph, resources, relationships),
    ensures
        graph.nodes@.len() == resources.len(),
        graph.edges@.len() == relationships.len(),
        forall|i: int|
            0 <= i < resources.len() ==> {
                let node = #[trigger] graph.nodes@[i];
                let resource = resources[i];
                &&& node.id == resource.uid
                &&& match resource.name {
                    Some(name) => node.label == name,
                    None => node.label == resource.id,
                }
                &&& node.service == resource.service
                &&& node.resource_type == resource.resource_type
                &&& node.region == resource.region
                &&& node.terraform_addresses@ == resource.terraform_addresses@
                &&& node.finding_ids@ == resource.finding_ids@
                &&& node.severity == resource.severity
            },
        forall|i: int|
            0 <= i < relationships.len() ==> {
                let edge = #[trigger] graph.edges@[i];
                let relationship = relationships[i];
                &&& edge.id == relationship.uid
                &&& edge.source == relationship.from
                &&& edge.target == relationship.to
                &&& edge.relationship_type == relationship.relationship_type
            },
{
    assert forall|i: int| 0 <= i < resources.len() implies {
        let node = #[trigger] graph.nodes@[i];
        let resource = resources[i];
        &&& node.id == resource.uid
        &&& match resource.name {
            Some(name) => node.label == name,
            None => node.label == resource.id,
        }
        &&& node.service == resource.service
        &&& node.resource_type == resource.resource_type
        &&& node.region == resource.region
        &&& node.terraform_addresses@ == resource.terraform_addresses@
        &&& node.finding_ids@ == resource.finding_ids@
        &&& node.severity == resource.severity
    } by {}
    assert forall|i: int| 0 <= i < relationships.len() implies {
        let edge = #[trigger] graph.edges@[i];
        let relationship = relationships[i];
        &&& edge.id == relationship.uid
        &&& edge.source == relationship.from
        &&& edge.target == relationship.to
        &&& edge.relationship_type == relationship.relationship_type
    } by {}
}

/// The counts of a bundle describe the bundle itself: each count is the
/// length of the list it counts, the scan errors counted are the errors of the
/// scan it carries, and the graph has one node per counted resource and one
/// edge per counted relationship.
pub proof fn lemma_counts_describe_bundle(
    export: AgentExport,
    generated_at: String,
    scan: AgentScan,
    terraform: AgentTerraform,
    findings: Vec<AgentFinding>,
    resource_rows: Seq<ResourceRow>,
    relationship_rows: Seq<RelationshipRow>,
)
    requires
        is_export_of(export, generated_at, scan, terraform, findings, resource_rows, relationship_rows),
    ensures
        export.counts.resources == export.resources@.len(),
        export.counts.resources == resource_rows.len(),
        export.counts.relationships == export.relationships@.len(),
        export.counts.relationships == relationship_rows.len(),
        export.counts.terraform_resource_instances == export.terraform.resource_instances@.len(),
        export.counts.findings == export.findings@.len(),
        export.counts.scan_errors == export.scan.errors@.len(),
        export.counts.scan_errors == scan.errors@.len(),
        export.graph.nodes@.len() == export.counts.resources,
        export.graph.edges@.len() == export.counts.relationships,
{
}

/// Each resource of a bundle is that of its row, and its graph node carries
/// the row's uid and region and the addresses of the Terraform instances
/// mapped to that uid.
pub proof fn lemma_bundle_resources_follow_rows(
    export: AgentExport,
    generated_at: String,
    scan: AgentScan,
    terraform: AgentTerraform,
    findings: Vec<AgentFinding>,
    resource_rows: Seq<ResourceRow>,
    relationship_rows: Seq<RelationshipRow>,
)
    requires
        is_export_of(export, generated_at, scan, terraform, findings, resource_rows, relationship_rows),
    ensures
        forall|i: int|
            0 <= i < resource_rows.len() ==> {
                let node = #[trigger] export.graph.nodes@[i];
                &&& export.resources@[i].uid == resource_rows[i].uid
                &&& export.resources@[i].region == resource_rows[i].region
                &&& node.id == resource_rows[i].uid
                &&& node.region == resource_rows[i].region
                &&& node.terraform_addresses@ == addresses_for(
                    terraform.resource_instances@,
                    resource_rows[i].uid@,
                )
            },
{
    assert forall|i: int| 0 <= i < resource_rows.len() implies {
        let node = #[trigger] export.graph.nodes@[i];
        &&& export.resources@[i].uid == resource_rows[i].uid
        &&& export.resources@[i].region == resource_rows[i].region
        &&& node.id == resource_rows[i].uid
        &&& node.region == resource_rows[i].region
        &&& node.terraform_addresses@ == addresses_for(
            terraform.resource_instances@,
            resource_rows[i].uid@,
        )
    } by {
        assert(is_resource_read_from(export.resources@[i], resource_rows[i]));
    }
}

/// A resource read from a row keeps each of the row's columns in the field of
/// the same meaning: identity, provider, account, partition, region, service,
/// type, id, ARN and name.
pub proof fn lemma_resource_keeps_columns(resource: AgentResource, row: ResourceRow)
    requires
        is_resource_read_from(resource, row),
    ensures
        resource.uid == row.uid,
        resource.provider == row.provider,
        resource.account_id == row.account_id,
        resource.partition == row.partition,
        resource.region == row.region,
        resource.service == row.service,
        resource.resource_type == row.resource_type,
        resource.id == row.resource_id,
        resource.arn == row.arn,
        resource.name == row.name,
        resource.raw is Some <==> row.raw_json is Some,
{
}

/// A relationship read from a row joins the row's two ends under its uid and type.
pub proof fn lemma_relationship_keeps_columns(relationship: AgentRelationship, row: RelationshipRow)
    requires
        is_relationship_read_from(relationship, row),
    ensures
        relationship.uid == row.uid,
        relationship.from == row.from_uid,
        relationship.to == row.to_uid,
        relationship.relationship_type == row.relationship_type,
{
}

/// A Terraform resource instance read from a row keeps each of the row's
/// columns: address, module, mode, type, name, provider, schema version and
/// the AWS resource it maps to.
pub proof fn lemma_terraform_instance_keeps_columns(
    instance: AgentTerraformResource,
    row: TerraformResourceRow,
)
    requires
        is_terraform_resource_read_from(instance, row),
    ensures
        instance.address == row.address,
        instance.module == row.module,
        instance.mode == row.mode,
        instance.resource_type == row.resource_type,
        instance.name == row.name,
        instance.provider == row.provider,
        instance.schema_version == row.schema_version,
        instance.aws_uid == row.aws_uid,
        instance.index_key is Some <==> row.index_key_json is Some,
{
}

/// A Terraform state read from a row is the state asked for, with the row's
/// source, version, serial, lineage and import time.
pub proof fn lemma_terraform_state_keeps_columns(
    state: AgentTerraformState,
    state_id: Seq<char>,
    row: TerraformStateRow,
)
    requires
        is_terraform_state_from(state, state_id, row),
    ensures
        state.state_id@ == state_id,
        state.source_path == row.source_path,
        state.terraform_version == row.terraform_version,
        state.serial == row.serial,
        state.lineage == row.lineage,
        state.imported_at == row.imported_at,
{
}

/// A finding read from a row keeps each of the row's columns: id, type,
/// severity, the AWS resource and Terraform address it concerns, the reason
/// and the recommended action.
pub proof fn lemma_finding_keeps_columns(finding: AgentFinding, row: FindingRow)
    requires
        is_finding_read_from(finding, row),
    ensures
        finding.id == row.id,
        finding.finding_type == row.finding_type,
        finding.severity == row.severity,
        finding.aws_uid == row.aws_uid,
        finding.terraform_address == row.terraform_address,
        finding.reason == row.reason,
        finding.recommended_action == row.recommended_action,
{
}

/// A scan read from a row is the scan asked for, with the row's schema
/// version, generator, account, home region and collection time, and as yet
/// no errors.
pub proof fn lemma_scan_keeps_columns(
    scan: AgentScan,
    scan_id: Seq<char>,
    row: ScanRow,
    regions: Seq<Seq<char>>,
)
    requires
        is_scan_from(scan, scan_id, row, regions),
    ensures
        scan.id@ == scan_id,
        scan.schema_version == row.schema_version,
        scan.generator.name == row.generator_name,
        scan.generator.version == row.generator_version,
        scan.account.id == row.account_id,
        scan.account.partition == row.partition,
        scan.home_region == row.home_region,
        scan.regions.deep_view() == regions,
        scan.collected_at == row.collected_at,
        scan.errors@.len() == 0,
{
}

/// Severity labels are ranked `critical` above `high` above `medium` above
/// every other label, and all other labels rank alike.
pub proof fn lemma_severity_order(other: Seq<char>, another: Seq<char>)
    requires
        other != "critical"@ && other != "high"@ && other != "medium"@,
        another != "critical"@ && another != "high"@ && another != "medium"@,
    ensures
        spec_severity_rank("critical"@) > spec_severity_rank("high"@),
        spec_severity_rank("high"@) > spec_severity_rank("medium"@),
        spec_severity_rank("medium"@) > spec_severity_rank(other),
        spec_severity_rank(other) == spec_severity_rank(another),
{
    reveal_strlit("critical");
    reveal_strlit("high");
    reveal_strlit("medium");
    assert("high"@[0] != "critical"@[0]);
    assert("medium"@[0] != "critical"@[0] && "medium"@[0] != "high"@[0]);
}

/// Taking the more severe of the severity so far and a next label never
/// lowers it: the result is one of the two, is not the label `none`, ranks at
/// least as high as each of them, and keeps the severity so far on a tie.
/// There is no result only where the winning label is `none`.
pub proof fn lemma_max_severity_is_maximum(current: Option<Seq<char>>, next: Seq<char>)
    ensures
        spec_max_severity(current, next) matches Some(s) ==> {
            &&& s != no_severity()
            &&& (s == next || current == Some(s))
            &&& spec_severity_rank(s) >= spec_severity_rank(next)
            &&& (current matches Some(c) ==> spec_severity_rank(s) >= spec_severity_rank(c))
        },
        current matches Some(c) ==> (c != no_severity() && spec_severity_rank(c) == spec_severity_rank(next)
            ==> spec_max_severity(current, next) == Some(c)),
        spec_max_severity(current, next) is None ==> (next == no_severity() || current == Some(
            no_severity(),
        )),
        current is None && next != no_severity() ==> spec_max_severity(current, next) == Some(next),
{
}

/// The message for a missing scan names it: two such messages are equal only
/// for the same scan id.
pub proof fn lemma_missing_scan_messages_name_the_scan(a: String, b: String)
    requires
        spec_error_message(ExportError::ScanNotFound { scan_id: a }) == spec_error_message(
            ExportError::ScanNotFound { scan_id: b },
        ),
    ensures
        a@ == b@,
{
    let prefix = "AWS scan "@;
    let suffix = " is not present in map database"@;
    let ma = prefix + a@ + suffix;
    let mb = prefix + b@ + suffix;
    assert(ma.len() == mb.len());
    assert(a@ =~= ma.subrange(prefix.len() as int, (prefix.len() + a@.len()) as int));
    assert(b@ =~= mb.subrange(prefix.len() as int, (prefix.len() + b@.len()) as int));
}

/// The message for a missing Terraform state names it: two such messages are
/// equal only for the same state id.
pub proof fn lemma_missing_state_messages_name_the_state(a: String, b: String)
    requires
        spec_error_message(ExportError::TerraformStateNotFound { state_id: a }) == spec_error_message(
            ExportError::TerraformStateNotFound { state_id: b },
        ),
    ensures
        a@ == b@,
{
    let prefix = "Terraform state "@;
    let suffix = " is not present in map database"@;
    let ma = prefix + a@ + suffix;
    let mb = prefix + b@ + suffix;
    assert(ma.len() == mb.len());
    assert(a@ =~= ma.subrange(prefix.len() as int, (prefix.len() + a@.len()) as int));
    assert(b@ =~= mb.subrange(prefix.len() as int, (prefix.len() + b@.len()) as int));
}

/// The message for unreadable scan regions carries serde_json's account of
/// the fault: two such messages are equal only for the same account.
pub proof fn lemma_region_messages_carry_detail(a: String, b: String)
    requires
        spec_error_message(ExportError::MalformedScanRegions { detail: a }) == spec_error_message(
            ExportError::MalformedScanRegions { detail: b },
        ),
    ensures
        a@ == b@,
{
    let prefix = "Conversion error from type Text at index: 0, "@;
    let ma = prefix + a@;
    let mb = prefix + b@;
    assert(a@ =~= ma.subrange(prefix.len() as int, ma.len() as int));
    assert(b@ =~= mb.subrange(prefix.len() as int, mb.len() as int));
}

} // verus!
