use vstd::prelude::*;

use crate::error::{ExportError, JsonSource};
use crate::index::{FindingsIndex, TerraformIndex};
use crate::json::{
    parse_json_string_list, parse_json_value, serde_json_accepts, serde_json_string_list,
    serde_json_value,
};
use crate::model::{
    AgentAccount, AgentFinding, AgentGenerator, AgentRelationship, AgentResource, AgentScan,
    AgentTerraform, AgentTerraformResource, AgentTerraformState,
};
use crate::rows::{FindingRow, RelationshipRow, ResourceRow, ScanRow, TerraformResourceRow, TerraformStateRow};
use crate::severity::opt_view;

verus! {

/// Optional JSON text is readable: absent, or accepted by serde_json.
pub open spec fn accepts_optional(text: Option<String>) -> bool {
    match text {
        Some(t) => serde_json_accepts(t@),
        None => true,
    }
}

/// The document that optional JSON text stands for: none for absent text.
pub open spec fn optional_value(text: Option<String>) -> Option<serde_json::Value> {
    match text {
        Some(t) => Some(serde_json_value(t@)),
        None => None,
    }
}

/// `error` says that a JSON column read from `source` is malformed.
pub open spec fn is_json_error(error: ExportError, source: JsonSource) -> bool {
    error matches ExportError::MalformedJson { source: s } && s == source
}

/// Reads optional JSON text: absent text gives no document, present text the
/// document serde_json reads from it; `None` where serde_json refuses it.
pub fn parse_optional_json(text: &Option<String>) -> (parsed: Option<Option<serde_json::Value>>)
    ensures
        parsed is Some <==> accepts_optional(*text),
        parsed matches Some(v) ==> v == optional_value(*text),
{
    match text {
        None => Some(None),
        Some(t) => match parse_json_value(t.as_str()) {
            Ok(v) => Some(Some(v)),
            Err(_) => None,
        },
    }
}

// ---------------------------------------------------------------- scans

/// `scan` is the scan `scan_id` as stored in `row`, with `regions` read from
/// its region list and no errors yet.
pub open spec fn is_scan_from(scan: AgentScan, scan_id: Seq<char>, row: ScanRow, regions: Seq<Seq<char>>) -> bool {
    &&& scan.id@ == scan_id
    &&& scan.schema_version == row.schema_version
    &&& scan.generator.name == row.generator_name
    &&& scan.generator.version == row.generator_version
    &&& scan.account.id == row.account_id
    &&& scan.account.partition == row.partition
    &&& scan.home_region == row.home_region
    &&& scan.regions.deep_view() == regions
    &&& scan.collected_at == row.collected_at
    &&& scan.errors@.len() == 0
}

pub fn scan_from_parts(scan_id: &str, row: ScanRow, regions: Vec<String>) -> (scan: AgentScan)
    ensures
        is_scan_from(scan, scan_id@, row, regions.deep_view()),
{
    AgentScan {
        id: scan_id.to_owned(),
        schema_version: row.schema_version,
        generator: AgentGenerator { name: row.generator_name, version: row.generator_version },
        account: AgentAccount { id: row.account_id, partition: row.partition },
        home_region: row.home_region,
        regions,
        collected_at: row.collected_at,
        errors: Vec::new(),
    }
}

/// The scan `scan_id` from its stored row, which the database may lack.
pub fn load_scan(scan_id: &str, row: Option<ScanRow>) -> (loaded: Result<AgentScan, ExportError>)
    ensures
        match row {
            None => loaded matches Err(ExportError::ScanNotFound { scan_id: id }) && id@ == scan_id@,
            Some(row) => match serde_json_string_list(row.regions_json@) {
                Err(detail) => loaded matches Err(ExportError::MalformedScanRegions { detail: d })
                    && d@ == detail,
                Ok(regions) => loaded matches Ok(scan) && is_scan_from(scan, scan_id@, row, regions),
            },
        },
{
    match row {
        None => Err(ExportError::ScanNotFound { scan_id: scan_id.to_owned() }),
        Some(row) => match parse_json_string_list(row.regions_json.as_str()) {
            Ok(regions) => Ok(scan_from_parts(scan_id, row, regions)),
            Err(detail) => Err(ExportError::MalformedScanRegions { detail }),
        },
    }
}

// -------------------------------------------------------- relationships

/// The JSON columns of a relationship row are readable.
pub open spec fn relationship_row_parses(row: RelationshipRow) -> bool {
    serde_json_accepts(row.attributes_json@) && serde_json_accepts(row.evidence_json@)
}

/// `relationship` carries the plain columns of `row`.
pub open spec fn is_relationship_from(relationship: AgentRelationship, row: RelationshipRow) -> bool {
    &&& relationship.uid == row.uid
    &&& relationship.from == row.from_uid
    &&& relationship.to == row.to_uid
    &&& relationship.relationship_type == row.relationship_type
}

/// `relationship` carries `row`, its documents read from the row's JSON.
pub open spec fn is_relationship_read_from(relationship: AgentRelationship, row: RelationshipRow) -> bool {
    &&& is_relationship_from(relationship, row)
    &&& relationship.attributes == serde_json_value(row.attributes_json@)
    &&& relationship.evidence == serde_json_value(row.evidence_json@)
}

pub fn relationship_from_parts(
    row: &RelationshipRow,
    attributes: serde_json::Value,
    evidence: serde_json::Value,
) -> (relationship: AgentRelationship)
    ensures
        is_relationship_from(relationship, *row),
        relationship.attributes == attributes,
        relationship.evidence == evidence,
{
    AgentRelationship {
        uid: row.uid.clone(),
        from: row.from_uid.clone(),
        to: row.to_uid.clone(),
        relationship_type: row.relationship_type.clone(),
        attributes,
        evidence,
    }
}

pub fn relationship_from_row(row: &RelationshipRow) -> (loaded: Result<AgentRelationship, ExportError>)
    ensures
        loaded is Ok <==> relationship_row_parses(*row),
        loaded matches Ok(relationship) ==> is_relationship_read_from(relationship, *row),
        loaded matches Err(e) ==> is_json_error(e, JsonSource::Relationships),
{
    let attributes = match parse_json_value(row.attributes_json.as_str()) {
        Ok(v) => v,
        Err(_) => return Err(ExportError::MalformedJson { source: JsonSource::Relationships }),
    };
    let evidence = match parse_json_value(row.evidence_json.as_str()) {
        Ok(v) => v,
        Err(_) => return Err(ExportError::MalformedJson { source: JsonSource::Relationships }),
    };
    Ok(relationship_from_parts(row, attributes, evidence))
}

/// The relationships of a scan from their stored rows, in order.
pub fn load_relationships(rows: &[RelationshipRow]) -> (loaded: Result<Vec<AgentRelationship>, ExportError>)
    ensures
        loaded is Ok <==> forall|i: int| 0 <= i < rows@.len() ==> relationship_row_parses(#[trigger] rows@[i]),
        loaded matches Ok(relationships) ==> relationships@.len() == rows@.len() && forall|i: int|
            0 <= i < rows@.len() ==> is_relationship_read_from(#[trigger] relationships@[i], rows@[i]),
        loaded matches Err(e) ==> is_json_error(e, JsonSource::Relationships),
{
    let mut relationships: Vec<AgentRelationship> = Vec::new();
    for i in 0..rows.len()
        invariant
            relationships@.len() == i,
            forall|j: int| 0 <= j < i ==> relationship_row_parses(#[trigger] rows@[j]),
            forall|j: int| 0 <= j < i ==> is_relationship_read_from(#[trigger] relationships@[j], rows@[j]),
    {
        match relationship_from_row(&rows[i]) {
            Ok(relationship) => relationships.push(relationship),
            Err(e) => return Err(e),
        }
    }
    Ok(relationships)
}


// ----------------------------------------------------------- terraform

/// The JSON columns of a Terraform resource instance row are readable.
pub open spec fn terraform_row_parses(row: TerraformResourceRow) -> bool {
    &&& accepts_optional(row.index_key_json)
    &&& serde_json_accepts(row.attributes_json@)
    &&& serde_json_accepts(row.sensitive_attributes_json@)
    &&& serde_json_accepts(row.dependencies_json@)
}

/// `instance` carries the plain columns of `row`, and an index key exactly
/// where the row has one.
pub open spec fn is_terraform_resource_from(instance: AgentTerraformResource, row: TerraformResourceRow) -> bool {
    &&& instance.address == row.address
    &&& instance.module == row.module
    &&& instance.mode == row.mode
    &&& instance.resource_type == row.resource_type
    &&& instance.name == row.name
    &&& instance.provider == row.provider
    &&& (instance.index_key is Some <==> row.index_key_json is Some)
    &&& instance.schema_version == row.schema_version
    &&& instance.aws_uid == row.aws_uid
}

/// `instance` carries `row`, its documents read from the row's JSON.
pub open spec fn is_terraform_resource_read_from(instance: AgentTerraformResource, row: TerraformResourceRow) -> bool {
    &&& is_terraform_resource_from(instance, row)
    &&& instance.index_key == optional_value(row.index_key_json)
    &&& instance.attributes == serde_json_value(row.attributes_json@)
    &&& instance.sensitive_attributes == serde_json_value(row.sensitive_attributes_json@)
    &&& instance.dependencies == serde_json_value(row.dependencies_json@)
}

pub fn terraform_resource_from_parts(
    row: &TerraformResourceRow,
    index_key: Option<serde_json::Value>,
    attributes: serde_json::Value,
    sensitive_attributes: serde_json::Value,
    dependencies: serde_json::Value,
) -> (instance: AgentTerraformResource)
    requires
        index_key is Some <==> row.index_key_json is Some,
    ensures
        is_terraform_resource_from(instance, *row),
        instance.index_key == index_key,
        instance.attributes == attributes,
        instance.sensitive_attributes == sensitive_attributes,
        instance.dependencies == dependencies,
{
    AgentTerraformResource {
        address: row.address.clone(),
        module: row.module.clone(),
        mode: row.mode.clone(),
        resource_type: row.resource_type.clone(),
        name: row.name.clone(),
        provider: row.provider.clone(),
        index_key,
        schema_version: row.schema_version,
        attributes,
        sensitive_attributes,
        dependencies,
        aws_uid: row.aws_uid.clone(),
    }
}

pub fn terraform_resource_from_row(row: &TerraformResourceRow) -> (loaded: Result<AgentTerraformResource, ExportError>)
    ensures
        loaded is Ok <==> terraform_row_parses(*row),
        loaded matches Ok(instance) ==> is_terraform_resource_read_from(instance, *row),
        loaded matches Err(e) ==> is_json_error(e, JsonSource::TerraformResourceInstances),
{
    let index_key = match parse_optional_json(&row.index_key_json) {
        Some(v) => v,
        None => return Err(ExportError::MalformedJson { source: JsonSource::TerraformResourceInstances }),
    };
    let attributes = match parse_json_value(row.attributes_json.as_str()) {
        Ok(v) => v,
        Err(_) => return Err(ExportError::MalformedJson { source: JsonSource::TerraformResourceInstances }),
    };
    let sensitive_attributes = match parse_json_value(row.sensitive_attributes_json.as_str()) {
        Ok(v) => v,
        Err(_) => return Err(ExportError::MalformedJson { source: JsonSource::TerraformResourceInstances }),
    };
    let dependencies = match parse_json_value(row.dependencies_json.as_str()) {
        Ok(v) => v,
        Err(_) => return Err(ExportError::MalformedJson { source: JsonSource::TerraformResourceInstances }),
    };
    Ok(terraform_resource_from_parts(row, index_key, attributes, sensitive_attributes, dependencies))
}

/// `state` is the Terraform state `state_id` as stored in `row`.
pub open spec fn is_terraform_state_from(state: AgentTerraformState, state_id: Seq<char>, row: TerraformStateRow) -> bool {
    &&& state.state_id@ == state_id
    &&& state.source_path == row.source_path
    &&& state.terraform_version == row.terraform_version
    &&& state.serial == row.serial
    &&& state.lineage == row.lineage
    &&& state.imported_at == row.imported_at
}

pub fn terraform_state_from_row(state_id: &str, row: TerraformStateRow) -> (state: AgentTerraformState)
    ensures
        is_terraform_state_from(state, state_id@, row),
{
    AgentTerraformState {
        state_id: state_id.to_owned(),
        source_path: row.source_path,
        terraform_version: row.terraform_version,
        serial: row.serial,
        lineage: row.lineage,
        imported_at: row.imported_at,
    }
}

/// The Terraform side of the export: nothing where no state is asked for,
/// otherwise the state and its resource instances from their stored rows.
#[verifier::loop_isolation(false)]
pub fn load_terraform(
    state_id: Option<&str>,
    state: Option<TerraformStateRow>,
    rows: &[TerraformResourceRow],
) -> (loaded: Result<AgentTerraform, ExportError>)
    ensures
        match state_id {
            None => loaded matches Ok(terraform) && terraform.state is None
                && terraform.resource_instances@.len() == 0,
            Some(id) => match state {
                None => loaded matches Err(ExportError::TerraformStateNotFound { state_id: s }) && s@ == id@,
                Some(row) => {
                    &&& (loaded is Ok <==> forall|i: int|
                        0 <= i < rows@.len() ==> terraform_row_parses(#[trigger] rows@[i]))
                    &&& (loaded matches Ok(terraform) ==> {
                        &&& terraform.state matches Some(st) && is_terraform_state_from(st, id@, row)
                        &&& terraform.resource_instances@.len() == rows@.len()
                        &&& forall|i: int| 0 <= i < rows@.len() ==> is_terraform_resource_read_from(
                            #[trigger] terraform.resource_instances@[i],
                            rows@[i],
                        )
                    })
                    &&& (loaded matches Err(e) ==> is_json_error(e, JsonSource::TerraformResourceInstances))
                },
            },
        },
{
    let state_id = match state_id {
        None => return Ok(AgentTerraform { state: None, resource_instances: Vec::new() }),
        Some(id) => id,
    };
    let state = match state {
        None => return Err(ExportError::TerraformStateNotFound { state_id: state_id.to_owned() }),
        Some(row) => terraform_state_from_row(state_id, row),
    };
    let mut instances: Vec<AgentTerraformResource> = Vec::new();
    for i in 0..rows.len()
        invariant
            instances@.len() == i,
            forall|j: int| 0 <= j < i ==> terraform_row_parses(#[trigger] rows@[j]),
            forall|j: int| 0 <= j < i ==> is_terraform_resource_read_from(#[trigger] instances@[j], rows@[j]),
    {
        match terraform_resource_from_row(&rows[i]) {
            Ok(instance) => instances.push(instance),
            Err(e) => return Err(e),
        }
    }
    Ok(AgentTerraform { state: Some(state), resource_instances: instances })
}

// ------------------------------------------------------------ findings

/// The JSON columns of a finding row are readable, its blast radius as a
/// list of strings.
pub open spec fn finding_row_parses(row: FindingRow) -> bool {
    &&& serde_json_string_list(row.blast_radius_json@) is Ok
    &&& serde_json_accepts(row.evidence_json@)
    &&& serde_json_accepts(row.attributes_json@)
}

/// `finding` carries the plain columns of `row`.
pub open spec fn is_finding_from(finding: AgentFinding, row: FindingRow) -> bool {
    &&& finding.id == row.id
    &&& finding.finding_type == row.finding_type
    &&& finding.severity == row.severity
    &&& finding.aws_uid == row.aws_uid
    &&& finding.terraform_address == row.terraform_address
    &&& finding.reason == row.reason
    &&& finding.recommended_action == row.recommended_action
}

/// `finding` carries `row`, its blast radius and documents read from the
/// row's JSON.
pub open spec fn is_finding_read_from(finding: AgentFinding, row: FindingRow) -> bool {
    &&& is_finding_from(finding, row)
    &&& serde_json_string_list(row.blast_radius_json@) == Ok::<Seq<Seq<char>>, Seq<char>>(
        finding.blast_radius.deep_view(),
    )
    &&& finding.evidence == serde_json_value(row.evidence_json@)
    &&& finding.attributes == serde_json_value(row.attributes_json@)
}

pub fn finding_from_parts(
    row: &FindingRow,
    blast_radius: Vec<String>,
    evidence: serde_json::Value,
    attributes: serde_json::Value,
) -> (finding: AgentFinding)
    ensures
        is_finding_from(finding, *row),
        finding.blast_radius == blast_radius,
        finding.evidence == evidence,
        finding.attributes == attributes,
{
    AgentFinding {
        id: row.id.clone(),
        finding_type: row.finding_type.clone(),
        severity: row.severity.clone(),
        aws_uid: row.aws_uid.clone(),
        terraform_address: row.terraform_address.clone(),
        reason: row.reason.clone(),
        recommended_action: row.recommended_action.clone(),
        blast_radius,
        evidence,
        attributes,
    }
}

pub fn finding_from_row(row: &FindingRow) -> (loaded: Result<AgentFinding, ExportError>)
    ensures
        loaded is Ok <==> finding_row_parses(*row),
        loaded matches Ok(finding) ==> is_finding_read_from(finding, *row),
        loaded matches Err(e) ==> is_json_error(e, JsonSource::Findings),
{
    let blast_radius = match parse_json_string_list(row.blast_radius_json.as_str()) {
        Ok(v) => v,
        Err(_) => return Err(ExportError::MalformedJson { source: JsonSource::Findings }),
    };
    let evidence = match parse_json_value(row.evidence_json.as_str()) {
        Ok(v) => v,
        Err(_) => return Err(ExportError::MalformedJson { source: JsonSource::Findings }),
    };
    let attributes = match parse_json_value(row.attributes_json.as_str()) {
        Ok(v) => v,
        Err(_) => return Err(ExportError::MalformedJson { source: JsonSource::Findings }),
    };
    Ok(finding_from_parts(row, blast_radius, evidence, attributes))
}

/// The findings of a compare run from their stored rows, in order; none
/// where no run is asked for.
#[verifier::loop_isolation(false)]
pub fn load_findings(run_id: Option<&str>, rows: &[FindingRow]) -> (loaded: Result<Vec<AgentFinding>, ExportError>)
    ensures
        run_id is None ==> (loaded matches Ok(findings) && findings@.len() == 0),
        run_id is Some ==> {
            &&& (loaded is Ok <==> forall|i: int| 0 <= i < rows@.len() ==> finding_row_parses(#[trigger] rows@[i]))
            &&& (loaded matches Ok(findings) ==> findings@.len() == rows@.len() && forall|i: int|
                0 <= i < rows@.len() ==> is_finding_read_from(#[trigger] findings@[i], rows@[i]))
            &&& (loaded matches Err(e) ==> is_json_error(e, JsonSource::Findings))
        },
{
    if run_id.is_none() {
        return Ok(Vec::new());
    }
    let mut findings: Vec<AgentFinding> = Vec::new();
    for i in 0..rows.len()
        invariant
            findings@.len() == i,
            forall|j: int| 0 <= j < i ==> finding_row_parses(#[trigger] rows@[j]),
            forall|j: int| 0 <= j < i ==> is_finding_read_from(#[trigger] findings@[j], rows@[j]),
    {
        match finding_from_row(&rows[i]) {
            Ok(finding) => findings.push(finding),
            Err(e) => return Err(e),
        }
    }
    Ok(findings)
}

// ----------------------------------------------------------- resources

/// The JSON columns of a resource row are readable.
pub open spec fn resource_row_parses(row: ResourceRow) -> bool {
    &&& serde_json_accepts(row.tags_json@)
    &&& serde_json_accepts(row.attributes_json@)
    &&& serde_json_accepts(row.evidence_json@)
    &&& accepts_optional(row.raw_json)
}

/// `resource` carries the plain columns of `row`, and a raw document exactly
/// where the row has one.
pub open spec fn is_resource_from(resource: AgentResource, row: ResourceRow) -> bool {
    &&& resource.uid == row.uid
    &&& resource.provider == row.provider
    &&& resource.account_id == row.account_id
    &&& resource.partition == row.partition
    &&& resource.region == row.region
    &&& resource.service == row.service
    &&& resource.resource_type == row.resource_type
    &&& resource.id == row.resource_id
    &&& resource.arn == row.arn
    &&& resource.name == row.name
    &&& (resource.raw is Some <==> row.raw_json is Some)
}

/// `resource` carries `row`, its documents read from the row's JSON.
pub open spec fn is_resource_read_from(resource: AgentResource, row: ResourceRow) -> bool {
    &&& is_resource_from(resource, row)
    &&& resource.tags == serde_json_value(row.tags_json@)
    &&& resource.attributes == serde_json_value(row.attributes_json@)
    &&& resource.evidence == serde_json_value(row.evidence_json@)
    &&& resource.raw == optional_value(row.raw_json)
}

/// `resource` carries what the indexes record for the AWS resource `uid`:
/// its Terraform addresses, and the ids and highest severity of its findings.
pub open spec fn is_linked_by(
    resource: AgentResource,
    uid: Seq<char>,
    terraform: TerraformIndex,
    findings: FindingsIndex,
) -> bool {
    &&& resource.terraform_addresses@ == terraform.spec_addresses(uid)
    &&& if findings@.contains_key(uid) {
        resource.finding_ids@ == findings@[uid].0 && opt_view(resource.severity) == findings@[uid].1
    } else {
        resource.finding_ids@.len() == 0 && resource.severity is None
    }
}

pub fn resource_from_parts(
    row: &ResourceRow,
    tags: serde_json::Value,
    attributes: serde_json::Value,
    evidence: serde_json::Value,
    raw: Option<serde_json::Value>,
    terraform_by_uid: &TerraformIndex,
    findings_by_uid: &FindingsIndex,
) -> (resource: AgentResource)
    requires
        raw is Some <==> row.raw_json is Some,
    ensures
        is_resource_from(resource, *row),
        is_linked_by(resource, row.uid@, *terraform_by_uid, *findings_by_uid),
        resource.tags == tags,
        resource.attributes == attributes,
        resource.evidence == evidence,
        resource.raw == raw,
{
    let terraform_addresses = terraform_by_uid.addresses(&row.uid);
    let (finding_ids, severity) = match findings_by_uid.get(&row.uid) {
        Some(found) => (found.ids.clone(), found.severity.clone()),
        None => (Vec::new(), None),
    };
    AgentResource {
        uid: row.uid.clone(),
        provider: row.provider.clone(),
        account_id: row.account_id.clone(),
        partition: row.partition.clone(),
        region: row.region.clone(),
        service: row.service.clone(),
        resource_type: row.resource_type.clone(),
        id: row.resource_id.clone(),
        arn: row.arn.clone(),
        name: row.name.clone(),
        tags,
        attributes,
        evidence,
        raw,
        terraform_addresses,
        finding_ids,
        severity,
    }
}

pub fn resource_from_row(
    row: &ResourceRow,
    terraform_by_uid: &TerraformIndex,
    findings_by_uid: &FindingsIndex,
) -> (loaded: Result<AgentResource, ExportError>)
    ensures
        loaded is Ok <==> resource_row_parses(*row),
        loaded matches Ok(resource) ==> is_resource_read_from(resource, *row) && is_linked_by(
            resource,
            row.uid@,
            *terraform_by_uid,
            *findings_by_uid,
        ),
        loaded matches Err(e) ==> is_json_error(e, JsonSource::Resources),
{
    let tags = match parse_json_value(row.tags_json.as_str()) {
        Ok(v) => v,
        Err(_) => return Err(ExportError::MalformedJson { source: JsonSource::Resources }),
    };
    let attributes = match parse_json_value(row.attributes_json.as_str()) {
        Ok(v) => v,
        Err(_) => return Err(ExportError::MalformedJson { source: JsonSource::Resources }),
    };
    let evidence = match parse_json_value(row.evidence_json.as_str()) {
        Ok(v) => v,
        Err(_) => return Err(ExportError::MalformedJson { source: JsonSource::Resources }),
    };
    let raw = match parse_optional_json(&row.raw_json) {
        Some(v) => v,
        None => return Err(ExportError::MalformedJson { source: JsonSource::Resources }),
    };
    Ok(resource_from_parts(row, tags, attributes, evidence, raw, terraform_by_uid, findings_by_uid))
}

/// The resources of a scan from their stored rows, in order, each with the
/// Terraform addresses and findings that the indexes record for it.
pub fn load_resources(
    rows: &[ResourceRow],
    terraform_by_uid: &TerraformIndex,
    findings_by_uid: &FindingsIndex,
) -> (loaded: Result<Vec<AgentResource>, ExportError>)
    ensures
        loaded is Ok <==> forall|i: int| 0 <= i < rows@.len() ==> resource_row_parses(#[trigger] rows@[i]),
        loaded matches Ok(resources) ==> resources@.len() == rows@.len() && forall|i: int|
            0 <= i < rows@.len() ==> is_resource_read_from(#[trigger] resources@[i], rows@[i])
                && is_linked_by(resources@[i], rows@[i].uid@, *terraform_by_uid, *findings_by_uid),
        loaded matches Err(e) ==> is_json_error(e, JsonSource::Resources),
{
    let mut resources: Vec<AgentResource> = Vec::new();
    for i in 0..rows.len()
        invariant
            resources@.len() == i,
            forall|j: int| 0 <= j < i ==> resource_row_parses(#[trigger] rows@[j]),
            forall|j: int| 0 <= j < i ==> is_resource_read_from(#[trigger] resources@[j], rows@[j])
                && is_linked_by(resources@[j], rows@[j].uid@, *terraform_by_uid, *findings_by_uid),
    {
        match resource_from_row(&rows[i], terraform_by_uid, findings_by_uid) {
            Ok(resource) => resources.push(resource),
            Err(e) => return Err(e),
        }
    }
    Ok(resources)
}

} // verus!
