use cloudmapper_agent::error::{ExportError, JsonSource};
use cloudmapper_agent::export::{assemble_export_at, resolve_optional_id, resolve_scan_id};
use cloudmapper_agent::graph::agent_graph;
use cloudmapper_agent::index::{findings_by_uid, terraform_by_uid};
use cloudmapper_agent::load::{
    load_findings, load_relationships, load_resources, load_scan, load_terraform, parse_optional_json,
};
use cloudmapper_agent::model::{
    AgentFinding, AgentScan, AgentTerraform, AgentTerraformResource,
};
use cloudmapper_agent::rows::{
    FindingRow, RelationshipRow, ResourceRow, ScanRow, TerraformResourceRow, TerraformStateRow,
};
use cloudmapper_agent::severity::{max_severity, severity_rank};
use serde_json::Value;

const NOW: &str = "2026-05-16T00:00:00+00:00";

fn json(text: &str) -> Value {
    serde_json::from_str(text).unwrap()
}

fn finding(id: &str, severity: &str, aws_uid: Option<&str>) -> AgentFinding {
    AgentFinding {
        id: id.to_string(),
        finding_type: "drift".to_string(),
        severity: severity.to_string(),
        aws_uid: aws_uid.map(|s| s.to_string()),
        terraform_address: None,
        reason: "reason".to_string(),
        recommended_action: "action".to_string(),
        blast_radius: Vec::new(),
        evidence: json("[]"),
        attributes: json("{}"),
    }
}

fn instance(address: &str, aws_uid: Option<&str>) -> AgentTerraformResource {
    AgentTerraformResource {
        address: address.to_string(),
        module: None,
        mode: "managed".to_string(),
        resource_type: "aws_instance".to_string(),
        name: "web".to_string(),
        provider: None,
        index_key: None,
        schema_version: None,
        attributes: json("{}"),
        sensitive_attributes: json("[]"),
        dependencies: json("[]"),
        aws_uid: aws_uid.map(|s| s.to_string()),
    }
}

fn resource_row(uid: &str, name: Option<&str>) -> ResourceRow {
    ResourceRow {
        uid: uid.to_string(),
        provider: "aws".to_string(),
        account_id: "123456789012".to_string(),
        partition: "aws".to_string(),
        region: "us-east-1".to_string(),
        service: "ec2".to_string(),
        resource_type: "instance".to_string(),
        resource_id: format!("id-{uid}"),
        arn: None,
        name: name.map(|s| s.to_string()),
        tags_json: "{\"env\":\"prod\"}".to_string(),
        attributes_json: "{\"state\":\"running\"}".to_string(),
        evidence_json: "[]".to_string(),
        raw_json: None,
    }
}

fn relationship_row(uid: &str, from: &str, to: &str) -> RelationshipRow {
    RelationshipRow {
        uid: uid.to_string(),
        from_uid: from.to_string(),
        to_uid: to.to_string(),
        relationship_type: "uses".to_string(),
        attributes_json: "{}".to_string(),
        evidence_json: "[]".to_string(),
    }
}

fn scan_row(regions_json: &str) -> ScanRow {
    ScanRow {
        schema_version: "v1".to_string(),
        generator_name: "cloudmapper".to_string(),
        generator_version: "1.0".to_string(),
        account_id: "123456789012".to_string(),
        partition: "aws".to_string(),
        home_region: "us-east-1".to_string(),
        regions_json: regions_json.to_string(),
        collected_at: "2026-01-01T00:00:00Z".to_string(),
    }
}

fn terraform_row(address: &str, index_key_json: Option<&str>, attributes_json: &str) -> TerraformResourceRow {
    TerraformResourceRow {
        address: address.to_string(),
        module: Some("module.app".to_string()),
        mode: "managed".to_string(),
        resource_type: "aws_instance".to_string(),
        name: "web".to_string(),
        provider: None,
        index_key_json: index_key_json.map(|s| s.to_string()),
        schema_version: Some(1),
        attributes_json: attributes_json.to_string(),
        sensitive_attributes_json: "[]".to_string(),
        dependencies_json: "[]".to_string(),
        aws_uid: Some("uid-a".to_string()),
    }
}

fn finding_row(id: &str, blast_radius_json: &str) -> FindingRow {
    FindingRow {
        id: id.to_string(),
        finding_type: "drift".to_string(),
        severity: "high".to_string(),
        aws_uid: Some("uid-a".to_string()),
        terraform_address: None,
        reason: "reason".to_string(),
        recommended_action: "action".to_string(),
        blast_radius_json: blast_radius_json.to_string(),
        evidence_json: "[]".to_string(),
        attributes_json: "{}".to_string(),
    }
}

fn empty_parts() -> (AgentScan, AgentTerraform, Vec<AgentFinding>) {
    let scan = load_scan("scan-1", Some(scan_row("[]"))).unwrap();
    let terraform = load_terraform(None, None, &[]).unwrap();
    let findings = load_findings(None, &[]).unwrap();
    (scan, terraform, findings)
}

#[test]
fn severity_rank_orders_labels() {
    assert_eq!(severity_rank("critical"), 3);
    assert_eq!(severity_rank("high"), 2);
    assert_eq!(severity_rank("medium"), 1);
    assert_eq!(severity_rank("low"), 0);
    assert_eq!(severity_rank("none"), 0);
    assert_eq!(severity_rank("Critical"), 0);
}

#[test]
fn max_severity_keeps_the_more_severe_label() {
    assert_eq!(max_severity(None, "high").as_deref(), Some("high"));
    assert_eq!(max_severity(Some("high"), "critical").as_deref(), Some("critical"));
    assert_eq!(max_severity(Some("critical"), "high").as_deref(), Some("critical"));
    assert_eq!(max_severity(Some("medium"), "medium").as_deref(), Some("medium"));
}

#[test]
fn max_severity_treats_none_as_absent_and_keeps_the_first_on_ties() {
    assert_eq!(max_severity(None, "none"), None);
    assert_eq!(max_severity(None, "low").as_deref(), Some("low"));
    assert_eq!(max_severity(Some("low"), "none").as_deref(), Some("low"));
    assert_eq!(max_severity(Some("low"), "info").as_deref(), Some("low"));
    assert_eq!(max_severity(Some("none"), "info"), None);
}

#[test]
fn findings_by_uid_groups_ids_and_keeps_the_most_severe() {
    let findings = vec![
        finding("f1", "medium", Some("uid-a")),
        finding("f2", "low", Some("uid-b")),
        finding("f3", "critical", Some("uid-a")),
        finding("f4", "high", None),
        finding("f5", "high", Some("uid-a")),
    ];
    let index = findings_by_uid(&findings);
    let a = index.get(&"uid-a".to_string()).unwrap();
    assert_eq!(a.ids, vec!["f1", "f3", "f5"]);
    assert_eq!(a.severity.as_deref(), Some("critical"));
    let b = index.get(&"uid-b".to_string()).unwrap();
    assert_eq!(b.ids, vec!["f2"]);
    assert_eq!(b.severity.as_deref(), Some("low"));
    assert!(index.get(&"uid-c".to_string()).is_none());
}

#[test]
fn findings_labelled_none_leave_no_severity() {
    let findings = vec![finding("f1", "none", Some("uid-a")), finding("f2", "none", Some("uid-a"))];
    let index = findings_by_uid(&findings);
    let a = index.get(&"uid-a".to_string()).unwrap();
    assert_eq!(a.ids, vec!["f1", "f2"]);
    assert_eq!(a.severity, None);
}

#[test]
fn terraform_by_uid_groups_addresses_in_order() {
    let instances = vec![
        instance("aws_instance.a", Some("uid-a")),
        instance("aws_instance.b", None),
        instance("aws_instance.c", Some("uid-c")),
        instance("aws_instance.a2", Some("uid-a")),
    ];
    let index = terraform_by_uid(&instances);
    assert_eq!(index.addresses(&"uid-a".to_string()), vec!["aws_instance.a", "aws_instance.a2"]);
    assert_eq!(index.addresses(&"uid-c".to_string()), vec!["aws_instance.c"]);
    assert!(index.addresses(&"uid-b".to_string()).is_empty());
}

#[test]
fn agent_graph_labels_nodes_by_name_or_id() {
    let terraform = terraform_by_uid(&[]);
    let findings = findings_by_uid(&[]);
    let resources = load_resources(
        &[resource_row("uid-a", Some("web")), resource_row("uid-b", None)],
        &terraform,
        &findings,
    )
    .unwrap();
    let relationships = load_relationships(&[relationship_row("rel-1", "uid-a", "uid-b")]).unwrap();
    let graph = agent_graph(&resources, &relationships);
    assert_eq!(graph.nodes.len(), 2);
    assert_eq!(graph.nodes[0].id, "uid-a");
    assert_eq!(graph.nodes[0].label, "web");
    assert_eq!(graph.nodes[1].label, "id-uid-b");
    assert_eq!(graph.edges.len(), 1);
    assert_eq!(graph.edges[0].id, "rel-1");
    assert_eq!(graph.edges[0].source, "uid-a");
    assert_eq!(graph.edges[0].target, "uid-b");
    assert_eq!(graph.edges[0].relationship_type, "uses");
}

#[test]
fn load_scan_reads_regions_and_reports_a_missing_scan() {
    let scan = load_scan("scan-1", Some(scan_row("[\"us-east-1\",\"eu-west-1\"]"))).unwrap();
    assert_eq!(scan.id, "scan-1");
    assert_eq!(scan.regions, vec!["us-east-1", "eu-west-1"]);
    assert_eq!(scan.generator.name, "cloudmapper");
    assert!(scan.errors.is_empty());

    let error = load_scan("scan-9", None).unwrap_err();
    assert!(matches!(&error, ExportError::ScanNotFound { scan_id } if scan_id == "scan-9"));
    assert_eq!(error.message(), "AWS scan scan-9 is not present in map database");
}

#[test]
fn load_scan_rejects_regions_that_are_not_a_string_list() {
    let error = load_scan("scan-1", Some(scan_row("{\"region\":\"us-east-1\"}"))).unwrap_err();
    assert!(matches!(error, ExportError::MalformedScanRegions { .. }));
    assert!(error.message().starts_with("Conversion error from type Text at index: 0, invalid type: map"));
    let error = load_scan("scan-1", Some(scan_row("[1, 2]"))).unwrap_err();
    assert!(matches!(error, ExportError::MalformedScanRegions { .. }));
}

#[test]
fn load_terraform_without_a_state_is_empty() {
    let terraform = load_terraform(None, None, &[terraform_row("a", None, "{}")]).unwrap();
    assert!(terraform.state.is_none());
    assert!(terraform.resource_instances.is_empty());
}

#[test]
fn load_terraform_reports_a_missing_state() {
    let error = load_terraform(Some("state-7"), None, &[]).unwrap_err();
    assert!(matches!(&error, ExportError::TerraformStateNotFound { state_id } if state_id == "state-7"));
    assert_eq!(error.message(), "Terraform state state-7 is not present in map database");
}

#[test]
fn load_terraform_reads_state_and_instances() {
    let state = TerraformStateRow {
        source_path: "main.tfstate".to_string(),
        terraform_version: Some("1.8.0".to_string()),
        serial: Some(3),
        lineage: None,
        imported_at: "2026-01-01T00:00:00Z".to_string(),
    };
    let rows = [terraform_row("aws_instance.a[0]", Some("0"), "{\"id\":\"i-1\"}")];
    let terraform = load_terraform(Some("state-1"), Some(state), &rows).unwrap();
    let state = terraform.state.unwrap();
    assert_eq!(state.state_id, "state-1");
    assert_eq!(state.serial, Some(3));
    assert_eq!(terraform.resource_instances.len(), 1);
    let instance = &terraform.resource_instances[0];
    assert_eq!(instance.address, "aws_instance.a[0]");
    assert_eq!(instance.module.as_deref(), Some("module.app"));
    assert_eq!(instance.index_key, Some(json("0")));
    assert_eq!(instance.attributes, json("{\"id\":\"i-1\"}"));
    assert_eq!(instance.aws_uid.as_deref(), Some("uid-a"));
}

#[test]
fn load_terraform_rejects_malformed_instance_json() {
    let state = TerraformStateRow {
        source_path: "main.tfstate".to_string(),
        terraform_version: None,
        serial: None,
        lineage: None,
        imported_at: "2026-01-01T00:00:00Z".to_string(),
    };
    let rows = [terraform_row("aws_instance.a", None, "{not json")];
    let error = load_terraform(Some("state-1"), Some(state), &rows).unwrap_err();
    assert!(matches!(
        error,
        ExportError::MalformedJson { source: JsonSource::TerraformResourceInstances }
    ));
    assert_eq!(error.message(), "loading Terraform resource instances");
}

#[test]
fn load_findings_without_a_run_is_empty() {
    let findings = load_findings(None, &[finding_row("f1", "{broken")]).unwrap();
    assert!(findings.is_empty());
}

#[test]
fn load_findings_reads_the_blast_radius() {
    let findings = load_findings(Some("run-1"), &[finding_row("f1", "[\"uid-b\",\"uid-c\"]")]).unwrap();
    assert_eq!(findings.len(), 1);
    assert_eq!(findings[0].id, "f1");
    assert_eq!(findings[0].blast_radius, vec!["uid-b", "uid-c"]);
}

#[test]
fn load_findings_rejects_a_blast_radius_that_is_not_a_string_list() {
    let error = load_findings(Some("run-1"), &[finding_row("f1", "[1]")]).unwrap_err();
    assert!(matches!(error, ExportError::MalformedJson { source: JsonSource::Findings }));
    assert_eq!(error.message(), "loading findings");
}

#[test]
fn load_resources_parses_json_columns_and_links_findings() {
    let terraform = terraform_by_uid(&[instance("aws_instance.a", Some("uid-a"))]);
    let findings = findings_by_uid(&[finding("f1", "medium", Some("uid-a"))]);
    let mut row = resource_row("uid-a", Some("web"));
    row.raw_json = Some("{\"InstanceId\":\"i-1\"}".to_string());
    let resources = load_resources(&[row, resource_row("uid-b", None)], &terraform, &findings).unwrap();
    assert_eq!(resources[0].tags, json("{\"env\":\"prod\"}"));
    assert_eq!(resources[0].attributes, json("{\"state\":\"running\"}"));
    assert_eq!(resources[0].raw, Some(json("{\"InstanceId\":\"i-1\"}")));
    assert_eq!(resources[0].terraform_addresses, vec!["aws_instance.a"]);
    assert_eq!(resources[0].finding_ids, vec!["f1"]);
    assert_eq!(resources[0].severity.as_deref(), Some("medium"));
    assert!(resources[1].raw.is_none());
    assert!(resources[1].terraform_addresses.is_empty());
    assert!(resources[1].finding_ids.is_empty());
    assert!(resources[1].severity.is_none());
}

#[test]
fn load_resources_rejects_malformed_json() {
    let terraform = terraform_by_uid(&[]);
    let findings = findings_by_uid(&[]);
    let mut row = resource_row("uid-a", None);
    row.raw_json = Some("nope".to_string());
    let error = load_resources(&[row], &terraform, &findings).unwrap_err();
    assert!(matches!(error, ExportError::MalformedJson { source: JsonSource::Resources }));
    assert_eq!(error.message(), "loading resources");
}

#[test]
fn load_relationships_rejects_malformed_json() {
    let mut row = relationship_row("rel-1", "uid-a", "uid-b");
    row.evidence_json = "[".to_string();
    let error = load_relationships(&[row]).unwrap_err();
    assert!(matches!(error, ExportError::MalformedJson { source: JsonSource::Relationships }));
    assert_eq!(error.message(), "loading relationships");
}

#[test]
fn assemble_export_names_resources_before_relationships() {
    let (scan, terraform, findings) = empty_parts();
    let mut resource = resource_row("uid-a", None);
    resource.tags_json = "{".to_string();
    let mut relationship = relationship_row("rel-1", "uid-a", "uid-b");
    relationship.attributes_json = "{".to_string();
    let error = assemble_export_at(NOW.to_string(), scan, terraform, findings, &[resource], &[relationship]).unwrap_err();
    assert!(matches!(error, ExportError::MalformedJson { source: JsonSource::Resources }));

    let (scan, terraform, findings) = empty_parts();
    let mut relationship = relationship_row("rel-1", "uid-a", "uid-b");
    relationship.attributes_json = "{".to_string();
    let error = assemble_export_at(NOW.to_string(), scan, terraform, findings, &[resource_row("uid-a", None)], &[relationship])
        .unwrap_err();
    assert!(matches!(error, ExportError::MalformedJson { source: JsonSource::Relationships }));
}

#[test]
fn assemble_export_at_stamps_the_given_time_and_counts() {
    let (scan, terraform, findings) = empty_parts();
    let export = assemble_export_at(
        "2026-05-16T00:00:00+00:00".to_string(),
        scan,
        terraform,
        findings,
        &[resource_row("uid-a", None), resource_row("uid-b", None)],
        &[],
    )
    .unwrap();
    assert_eq!(export.generated_at, "2026-05-16T00:00:00+00:00");
    assert_eq!(export.schema_version, "cloudmapper.agent.v1");
    assert_eq!(export.counts.resources, 2);
    assert_eq!(export.counts.relationships, 0);
    assert_eq!(export.counts.terraform_resource_instances, 0);
    assert_eq!(export.counts.findings, 0);
    assert_eq!(export.counts.scan_errors, 0);
    assert_eq!(export.graph.nodes.len(), 2);
    assert!(export.graph.edges.is_empty());
}

#[test]
fn graph_nodes_carry_the_linked_findings_of_their_resources() {
    let scan = load_scan("scan-1", Some(scan_row("[]"))).unwrap();
    let terraform = load_terraform(None, None, &[]).unwrap();
    let findings = vec![
        finding("f1", "high", Some("uid-a")),
        finding("f2", "critical", Some("uid-a")),
    ];
    let export = assemble_export_at(NOW.to_string(), scan, terraform, findings, &[resource_row("uid-a", Some("web"))], &[])
        .unwrap();
    assert_eq!(export.resources[0].finding_ids, vec!["f1", "f2"]);
    assert_eq!(export.resources[0].severity.as_deref(), Some("critical"));
    assert_eq!(export.graph.nodes[0].finding_ids, vec!["f1", "f2"]);
    assert_eq!(export.graph.nodes[0].severity.as_deref(), Some("critical"));
}

#[test]
fn resolve_ids_prefer_the_requested_one() {
    assert_eq!(resolve_scan_id(Some("scan-2"), None).unwrap(), "scan-2");
    assert_eq!(resolve_scan_id(None, Some("scan-3".to_string())).unwrap(), "scan-3");
    assert_eq!(resolve_optional_id(Some("state-1"), Some("state-2".to_string())).as_deref(), Some("state-1"));
    assert_eq!(resolve_optional_id(None, Some("state-2".to_string())).as_deref(), Some("state-2"));
    assert_eq!(resolve_optional_id(None, None), None);
}

#[test]
fn scan_region_errors_have_a_conversion_message() {
    let error = ExportError::MalformedScanRegions { detail: "expected `,` at line 1 column 5".to_string() };
    assert_eq!(error.message(), "Conversion error from type Text at index: 0, expected `,` at line 1 column 5");
}

#[test]
fn documents_are_read_from_their_own_columns() {
    let mut relationship = relationship_row("rel-1", "uid-a", "uid-b");
    relationship.attributes_json = "{\"port\":22}".to_string();
    relationship.evidence_json = "[\"seen\"]".to_string();
    let relationships = load_relationships(&[relationship]).unwrap();
    assert_eq!(relationships[0].attributes, json("{\"port\":22}"));
    assert_eq!(relationships[0].evidence, json("[\"seen\"]"));

    let mut row = finding_row("f1", "[]");
    row.evidence_json = "[{\"op\":\"Describe\"}]".to_string();
    row.attributes_json = "{\"public\":true}".to_string();
    let findings = load_findings(Some("run-1"), &[row]).unwrap();
    assert_eq!(findings[0].evidence, json("[{\"op\":\"Describe\"}]"));
    assert_eq!(findings[0].attributes, json("{\"public\":true}"));

    let state = TerraformStateRow {
        source_path: "main.tfstate".to_string(),
        terraform_version: None,
        serial: None,
        lineage: None,
        imported_at: "2026-01-01T00:00:00Z".to_string(),
    };
    let mut instance_row = terraform_row("aws_instance.a", Some("\"blue\""), "{\"id\":\"i-1\"}");
    instance_row.sensitive_attributes_json = "[\"password\"]".to_string();
    instance_row.dependencies_json = "[\"aws_vpc.main\"]".to_string();
    let terraform = load_terraform(Some("state-1"), Some(state), &[instance_row]).unwrap();
    let instance = &terraform.resource_instances[0];
    assert_eq!(instance.index_key, Some(json("\"blue\"")));
    assert_eq!(instance.sensitive_attributes, json("[\"password\"]"));
    assert_eq!(instance.dependencies, json("[\"aws_vpc.main\"]"));
}

#[test]
fn parse_optional_json_reads_present_text_only() {
    assert_eq!(parse_optional_json(&None), Some(None));
    assert_eq!(parse_optional_json(&Some("{\"a\":1}".to_string())), Some(Some(json("{\"a\":1}"))));
    assert_eq!(parse_optional_json(&Some("{".to_string())), None);
}
