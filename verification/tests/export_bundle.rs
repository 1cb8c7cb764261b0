use cloudmapper_agent::error::ExportError;
use cloudmapper_agent::export::{assemble_export_at, resolve_scan_id};
use cloudmapper_agent::load::{load_findings, load_scan, load_terraform};
use cloudmapper_agent::rows::{
    FindingRow, RelationshipRow, ResourceRow, ScanRow, TerraformResourceRow, TerraformStateRow,
};

fn security_group_uid() -> String {
    "aws:123456789012:us-east-1:ec2:security-group:sg-123".to_string()
}

fn instance_uid() -> String {
    "aws:123456789012:us-east-1:ec2:instance:i-123".to_string()
}

fn scan_row() -> ScanRow {
    ScanRow {
        schema_version: "cloudmapper.aws.v1".to_string(),
        generator_name: "cloudmapper".to_string(),
        generator_version: "test".to_string(),
        account_id: "123456789012".to_string(),
        partition: "aws".to_string(),
        home_region: "us-east-1".to_string(),
        regions_json: "[\"us-east-1\"]".to_string(),
        collected_at: "2026-05-16T00:00:00Z".to_string(),
    }
}

fn resource_rows() -> Vec<ResourceRow> {
    vec![
        ResourceRow {
            uid: instance_uid(),
            provider: "aws".to_string(),
            account_id: "123456789012".to_string(),
            partition: "aws".to_string(),
            region: "us-east-1".to_string(),
            service: "ec2".to_string(),
            resource_type: "instance".to_string(),
            resource_id: "i-123".to_string(),
            arn: Some("arn:aws:ec2:us-east-1:123456789012:instance/i-123".to_string()),
            name: Some("web-1".to_string()),
            tags_json: "{}".to_string(),
            attributes_json: "{\"state\":\"running\"}".to_string(),
            evidence_json: "[]".to_string(),
            raw_json: None,
        },
        ResourceRow {
            uid: security_group_uid(),
            provider: "aws".to_string(),
            account_id: "123456789012".to_string(),
            partition: "aws".to_string(),
            region: "us-east-1".to_string(),
            service: "ec2".to_string(),
            resource_type: "security-group".to_string(),
            resource_id: "sg-123".to_string(),
            arn: Some("arn:aws:ec2:us-east-1:123456789012:security-group/sg-123".to_string()),
            name: Some("web".to_string()),
            tags_json: "{}".to_string(),
            attributes_json: "{\"ingress\":[{\"from_port\":22,\"ip_protocol\":\"tcp\",\"ipv4_ranges\":[\"0.0.0.0/0\"],\"ipv6_ranges\":[],\"to_port\":22}]}".to_string(),
            evidence_json: "[]".to_string(),
            raw_json: None,
        },
    ]
}

fn relationship_rows() -> Vec<RelationshipRow> {
    vec![RelationshipRow {
        uid: "rel:i-123:sg-123".to_string(),
        from_uid: instance_uid(),
        to_uid: security_group_uid(),
        relationship_type: "uses_security_group".to_string(),
        attributes_json: "{}".to_string(),
        evidence_json: "[]".to_string(),
    }]
}

fn terraform_state_row() -> TerraformStateRow {
    TerraformStateRow {
        source_path: "terraform.tfstate".to_string(),
        terraform_version: Some("1.8.0".to_string()),
        serial: Some(7),
        lineage: Some("bundle-test".to_string()),
        imported_at: "2026-05-16T00:00:00Z".to_string(),
    }
}

fn terraform_rows() -> Vec<TerraformResourceRow> {
    vec![TerraformResourceRow {
        address: "aws_security_group.web".to_string(),
        module: None,
        mode: "managed".to_string(),
        resource_type: "aws_security_group".to_string(),
        name: "web".to_string(),
        provider: Some("provider[\"registry.terraform.io/hashicorp/aws\"]".to_string()),
        index_key_json: None,
        schema_version: Some(1),
        attributes_json: "{\"arn\":\"arn:aws:ec2:us-east-1:123456789012:security-group/sg-123\",\"id\":\"sg-123\",\"name\":\"web\"}".to_string(),
        sensitive_attributes_json: "[]".to_string(),
        dependencies_json: "[]".to_string(),
        aws_uid: Some(security_group_uid()),
    }]
}

fn finding_rows() -> Vec<FindingRow> {
    vec![FindingRow {
        id: "finding:public-sg".to_string(),
        finding_type: "terraform_owned_public_ingress".to_string(),
        severity: "critical".to_string(),
        aws_uid: Some(security_group_uid()),
        terraform_address: Some("aws_security_group.web".to_string()),
        reason: "Security group allows public ingress.".to_string(),
        recommended_action: "Restrict public ingress in Terraform.".to_string(),
        blast_radius_json: format!("[\"{}\"]", instance_uid()),
        evidence_json: "[{\"operation\":\"DescribeSecurityGroups\",\"service\":\"ec2\"}]".to_string(),
        attributes_json: "{\"public_ports\":[\"22/tcp\"]}".to_string(),
    }]
}

#[test]
fn exports_single_agent_json_with_tf_mapping_and_findings() {
    let scan_id = resolve_scan_id(None, Some("scan-1".to_string())).unwrap();
    let scan = load_scan(&scan_id, Some(scan_row())).unwrap();
    let terraform =
        load_terraform(Some("state-1"), Some(terraform_state_row()), &terraform_rows()).unwrap();
    let run_id = format!("compare:{}:{}", scan_id, "state-1");
    let findings = load_findings(Some(run_id.as_str()), &finding_rows()).unwrap();

    let export =
        assemble_export_at(
            "2026-05-16T00:00:00+00:00".to_string(),
            scan,
            terraform,
            findings,
            &resource_rows(),
            &relationship_rows(),
        )
        .unwrap();

    assert_eq!(export.schema_version, "cloudmapper.agent.v1");
    assert_eq!(export.scan.account.id, "123456789012");
    assert_eq!(export.counts.resources, 2);
    assert_eq!(export.counts.relationships, 1);
    assert_eq!(export.counts.terraform_resource_instances, 1);
    assert_eq!(export.counts.findings, 1);

    let sg = export
        .resources
        .iter()
        .find(|resource| resource.id == "sg-123")
        .unwrap();
    assert_eq!(sg.terraform_addresses, vec!["aws_security_group.web"]);
    assert_eq!(sg.finding_ids, vec!["finding:public-sg"]);
    assert_eq!(sg.severity.as_deref(), Some("critical"));
    assert_eq!(export.findings[0].blast_radius, vec![instance_uid()]);
    assert_eq!(export.graph.nodes.len(), 2);
    assert_eq!(export.graph.edges.len(), 1);
}

#[test]
fn export_requires_an_aws_scan() {
    let error = resolve_scan_id(None, None).unwrap_err();

    assert!(matches!(error, ExportError::NoScan));
    assert!(error.message().contains("no AWS scan found"));
}
