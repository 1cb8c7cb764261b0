use vstd::prelude::*;

use crate::error::{ExportError, JsonSource};
use crate::graph::{agent_graph, is_graph_of};
use crate::index::{
    addresses_for, collect_origin, expected_summary, finding_id, finding_ids_for, finding_owner,
    finding_severity, findings_by_uid, instance_address, instance_owner, lemma_collect_members,
    lemma_same_owners, owned_by, severities_for,
    terraform_by_uid,
};
use crate::load::{
    is_json_error, is_linked_by, is_relationship_read_from, is_resource_read_from, load_relationships, load_resources,
    relationship_row_parses, resource_row_parses,
};
use crate::model::{
    AgentCounts, AgentExport, AgentFinding, AgentResource, AgentScan, AgentTerraform,
    AgentTerraformResource,
};
use crate::rows::{RelationshipRow, ResourceRow};
use crate::severity::{
    fold_severity, lemma_fold_severity_is_first_most_severe, no_severity, opt_view, spec_severity_rank,
};

verus! {

/// The version of the export format.
pub const AGENT_SCHEMA_VERSION: &'static str = "cloudmapper.agent.v1";

/// The scan to export: the one asked for, else the latest one stored.
pub fn resolve_scan_id(requested: Option<&str>, latest: Option<String>) -> (scan_id: Result<String, ExportError>)
    ensures
        match requested {
            Some(id) => scan_id matches Ok(s) && s@ == id@,
            None => match latest {
                Some(l) => scan_id == Ok::<String, ExportError>(l),
                None => scan_id matches Err(ExportError::NoScan),
            },
        },
{
    match requested {
        Some(id) => Ok(id.to_owned()),
        None => match latest {
            Some(l) => Ok(l),
            None => Err(ExportError::NoScan),
        },
    }
}

/// An optional id to export: the one asked for, else the latest one stored, if any.
pub fn resolve_optional_id(requested: Option<&str>, latest: Option<String>) -> (id: Option<String>)
    ensures
        match requested {
            Some(r) => id matches Some(s) && s@ == r@,
            None => id == latest,
        },
{
    match requested {
        Some(r) => Some(r.to_owned()),
        None => latest,
    }
}

/// `resource` carries the addresses of the Terraform resource instances
/// mapped to it, and the ids and highest severity of the findings about it.
pub open spec fn is_linked(
    resource: AgentResource,
    instances: Seq<AgentTerraformResource>,
    findings: Seq<AgentFinding>,
) -> bool {
    &&& resource.terraform_addresses@ == addresses_for(instances, resource.uid@)
    &&& resource.finding_ids@ == finding_ids_for(findings, resource.uid@)
    &&& opt_view(resource.severity) == fold_severity(severities_for(findings, resource.uid@))
}

/// Some Terraform instance mapped to the AWS resource `uid` has `address`.
pub open spec fn has_instance_at(instances: Seq<AgentTerraformResource>, uid: Seq<char>, address: String) -> bool {
    exists|i: int|
        0 <= i < instances.len() && owned_by(instances[i].aws_uid, uid) && #[trigger] instances[i].address
            == address
}

/// Some finding about the AWS resource `uid` has the id `id`.
pub open spec fn has_finding_with_id(findings: Seq<AgentFinding>, uid: Seq<char>, id: String) -> bool {
    exists|i: int|
        0 <= i < findings.len() && owned_by(findings[i].aws_uid, uid) && #[trigger] findings[i].id == id
}

/// Some finding about the AWS resource `uid` is labelled `severity`.
pub open spec fn has_finding_with_severity(
    findings: Seq<AgentFinding>,
    uid: Seq<char>,
    severity: Seq<char>,
) -> bool {
    exists|i: int|
        0 <= i < findings.len() && owned_by(findings[i].aws_uid, uid) && #[trigger] findings[i].severity@
            == severity
}

/// What an exported resource says of the Terraform instances and findings
/// that it was linked with: its Terraform addresses are exactly those of the
/// instances mapped to it, its finding ids exactly those of the findings about
/// it, and its severity that of the most severe finding about it; it has no
/// severity exactly when every finding about it is labelled `none`.
pub proof fn lemma_linked_resource(
    resource: AgentResource,
    instances: Seq<AgentTerraformResource>,
    findings: Seq<AgentFinding>,
)
    requires
        is_linked(resource, instances, findings),
    ensures
        forall|i: int|
            0 <= i < instances.len() && owned_by(instances[i].aws_uid, resource.uid@)
                ==> resource.terraform_addresses@.contains(#[trigger] instances[i].address),
        forall|k: int|
            0 <= k < resource.terraform_addresses@.len() ==> has_instance_at(
                instances,
                resource.uid@,
                #[trigger] resource.terraform_addresses@[k],
            ),
        forall|i: int|
            0 <= i < findings.len() && owned_by(findings[i].aws_uid, resource.uid@)
                ==> resource.finding_ids@.contains(#[trigger] findings[i].id),
        forall|k: int|
            0 <= k < resource.finding_ids@.len() ==> has_finding_with_id(
                findings,
                resource.uid@,
                #[trigger] resource.finding_ids@[k],
            ),
        resource.severity is None <==> forall|i: int|
            0 <= i < findings.len() && owned_by(findings[i].aws_uid, resource.uid@)
                ==> #[trigger] findings[i].severity@ == no_severity(),
        resource.severity matches Some(s) ==> {
            &&& has_finding_with_severity(findings, resource.uid@, s@)
            &&& forall|i: int|
                0 <= i < findings.len() && owned_by(findings[i].aws_uid, resource.uid@)
                    ==> spec_severity_rank(#[trigger] findings[i].severity@) <= spec_severity_rank(s@)
        },
{
    let uid = resource.uid@;
    lemma_collect_members(instances, uid, instance_owner(), instance_address());
    lemma_collect_members(findings, uid, finding_owner(), finding_id());
    lemma_collect_members(findings, uid, finding_owner(), finding_severity());
    let severities = severities_for(findings, uid);
    lemma_fold_severity_is_first_most_severe(severities);
    assert forall|i: int|
        0 <= i < instances.len() && owned_by(instances[i].aws_uid, uid)
            implies resource.terraform_addresses@.contains(#[trigger] instances[i].address) by {
        assert(instance_owner()(instances[i]) == instances[i].aws_uid);
        assert(instance_address()(instances[i]) == instances[i].address);
    }
    assert forall|i: int|
        0 <= i < findings.len() && owned_by(findings[i].aws_uid, uid)
            implies resource.finding_ids@.contains(#[trigger] findings[i].id) by {
        assert(finding_owner()(findings[i]) == findings[i].aws_uid);
        assert(finding_id()(findings[i]) == findings[i].id);
    }
    assert forall|i: int|
        0 <= i < findings.len() && owned_by(findings[i].aws_uid, uid)
            implies severities.contains(#[trigger] findings[i].severity@) by {
        assert(finding_owner()(findings[i]) == findings[i].aws_uid);
        assert(finding_severity()(findings[i]) == findings[i].severity@);
    }
    assert forall|k: int| 0 <= k < resource.terraform_addresses@.len() implies has_instance_at(
        instances,
        uid,
        #[trigger] resource.terraform_addresses@[k],
    ) by {
        let i = collect_origin(instances, uid, instance_owner(), instance_address(), k);
        assert(owned_by(instances[i].aws_uid, uid));
    }
    assert forall|k: int| 0 <= k < resource.finding_ids@.len() implies has_finding_with_id(
        findings,
        uid,
        #[trigger] resource.finding_ids@[k],
    ) by {
        let i = collect_origin(findings, uid, finding_owner(), finding_id(), k);
        assert(owned_by(findings[i].aws_uid, uid));
    }
    if resource.severity is None {
        assert forall|i: int| 0 <= i < findings.len() && owned_by(findings[i].aws_uid, uid)
            implies #[trigger] findings[i].severity@ == no_severity() by {
            assert(severities.contains(findings[i].severity@));
        }
    } else {
        let s = resource.severity->0;
        assert(fold_severity(severities) == Some(s@));
        let k = choose|k: int|
            0 <= k < severities.len() && #[trigger] severities[k] == s@ && s@ != no_severity() && (
            forall|j: int|
                0 <= j < severities.len() ==> spec_severity_rank(#[trigger] severities[j])
                    <= spec_severity_rank(s@)) && (forall|j: int|
                0 <= j < k ==> #[trigger] severities[j] == no_severity() || spec_severity_rank(
                    severities[j],
                ) < spec_severity_rank(s@));
        let i = collect_origin(findings, uid, finding_owner(), finding_severity(), k);
        assert(owned_by(findings[i].aws_uid, uid) && findings[i].severity@ == s@);
        assert forall|j: int| 0 <= j < findings.len() && owned_by(findings[j].aws_uid, uid)
            implies spec_severity_rank(#[trigger] findings[j].severity@) <= spec_severity_rank(s@) by {
            assert(severities.contains(findings[j].severity@));
        }
        assert(findings[i].severity@ != no_severity());
    }
}

/// Every resource and relationship row holds readable JSON.
pub open spec fn rows_parse(resource_rows: Seq<ResourceRow>, relationship_rows: Seq<RelationshipRow>) -> bool {
    &&& forall|i: int| 0 <= i < resource_rows.len() ==> resource_row_parses(#[trigger] resource_rows[i])
    &&& forall|i: int|
        0 <= i < relationship_rows.len() ==> relationship_row_parses(#[trigger] relationship_rows[i])
}

/// The export fails exactly where a row holds unreadable JSON, naming the
/// resources where one of theirs does and the relationships otherwise.
pub open spec fn export_fails_as(
    outcome: Result<AgentExport, ExportError>,
    resource_rows: Seq<ResourceRow>,
    relationship_rows: Seq<RelationshipRow>,
) -> bool {
    &&& (outcome is Ok <==> rows_parse(resource_rows, relationship_rows))
    &&& (outcome matches Err(e) ==> if forall|i: int|
        0 <= i < resource_rows.len() ==> resource_row_parses(#[trigger] resource_rows[i]) {
        is_json_error(e, JsonSource::Relationships)
    } else {
        is_json_error(e, JsonSource::Resources)
    })
}

/// `export` is the bundle of the given parts, made at `generated_at`.
pub open spec fn is_export_of(
    export: AgentExport,
    generated_at: String,
    scan: AgentScan,
    terraform: AgentTerraform,
    findings: Vec<AgentFinding>,
    resource_rows: Seq<ResourceRow>,
    relationship_rows: Seq<RelationshipRow>,
) -> bool {
    &&& export.schema_version@ == AGENT_SCHEMA_VERSION@
    &&& export.generated_at == generated_at
    &&& export.scan == scan
    &&& export.terraform == terraform
    &&& export.findings == findings
    &&& export.resources@.len() == resource_rows.len()
    &&& forall|i: int|
        0 <= i < resource_rows.len() ==> is_resource_read_from(#[trigger] export.resources@[i], resource_rows[i])
            && is_linked(export.resources@[i], terraform.resource_instances@, findings@)
    &&& export.relationships@.len() == relationship_rows.len()
    &&& forall|i: int|
        0 <= i < relationship_rows.len() ==> is_relationship_read_from(
            #[trigger] export.relationships@[i],
            relationship_rows[i],
        )
    &&& export.counts.resources == export.resources@.len()
    &&& export.counts.relationships == export.relationships@.len()
    &&& export.counts.terraform_resource_instances == terraform.resource_instances@.len()
    &&& export.counts.findings == findings@.len()
    &&& export.counts.scan_errors == scan.errors@.len()
    &&& is_graph_of(export.graph, export.resources@, export.relationships@)
}

/// The bundle of a loaded scan, Terraform state and findings with the
/// resources and relationships read from their rows, made at `generated_at`.
pub fn assemble_export_at(
    generated_at: String,
    scan: AgentScan,
    terraform: AgentTerraform,
    findings: Vec<AgentFinding>,
    resource_rows: &[ResourceRow],
    relationship_rows: &[RelationshipRow],
) -> (outcome: Result<AgentExport, ExportError>)
    ensures
        export_fails_as(outcome, resource_rows@, relationship_rows@),
        outcome matches Ok(export) ==> is_export_of(
            export,
            generated_at,
            scan,
            terraform,
            findings,
            resource_rows@,
            relationship_rows@,
        ),
{
    let terraform_index = terraform_by_uid(terraform.resource_instances.as_slice());
    let findings_index = findings_by_uid(findings.as_slice());
    let resources = match load_resources(resource_rows, &terraform_index, &findings_index) {
        Ok(resources) => resources,
        Err(e) => return Err(e),
    };
    let relationships = match load_relationships(relationship_rows) {
        Ok(relationships) => relationships,
        Err(e) => return Err(e),
    };
    proof {
        assert forall|i: int| 0 <= i < resource_rows@.len() implies is_linked(
            #[trigger] resources@[i],
            terraform.resource_instances@,
            findings@,
        ) by {
            let uid = resources@[i].uid@;
            assert(resources@[i].uid == resource_rows@[i].uid);
            assert(is_linked_by(resources@[i], uid, terraform_index, findings_index));
            lemma_same_owners(findings@, uid);
            if terraform_index@.contains_key(uid) {
                assert(terraform_index@[uid] == addresses_for(terraform.resource_instances@, uid));
            }
            if findings_index@.contains_key(uid) {
                assert(findings_index@[uid] == expected_summary(findings@, uid));
            }
            if !terraform_index@.contains_key(uid) {
                assert(addresses_for(terraform.resource_instances@, uid) =~= Seq::<String>::empty());
            }
            if !findings_index@.contains_key(uid) {
                assert(finding_ids_for(findings@, uid) =~= Seq::<String>::empty());
                assert(severities_for(findings@, uid) =~= Seq::<Seq<char>>::empty());
            }
            assert(resources@[i].terraform_addresses@ == addresses_for(terraform.resource_instances@, uid));
            assert(resources@[i].finding_ids@ == finding_ids_for(findings@, uid));
            assert(opt_view(resources@[i].severity) == fold_severity(severities_for(findings@, uid)));
        }
    }
    let graph = agent_graph(resources.as_slice(), relationships.as_slice());
    let counts = AgentCounts {
        resources: resources.len(),
        relationships: relationships.len(),
        terraform_resource_instances: terraform.resource_instances.len(),
        findings: findings.len(),
        scan_errors: scan.errors.len(),
    };
    Ok(AgentExport {
        schema_version: AGENT_SCHEMA_VERSION.to_owned(),
        generated_at,
        scan,
        counts,
        resources,
        relationships,
        terraform,
        findings,
        graph,
    })
}

} // verus!
