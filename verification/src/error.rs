use vstd::prelude::*;

verus! {

/// The stored column whose JSON text could not be read.
#[derive(Debug, Clone, Copy, PartialEq, Eq)]
pub enum JsonSource {
    TerraformResourceInstances,
    Findings,
    Resources,
    Relationships,
}

/// Why an export could not be produced.
#[derive(Debug)]
pub enum ExportError {
    /// No scan was asked for and the database holds none.
    NoScan,
    /// The scan asked for is not in the database.
    ScanNotFound { scan_id: String },
    /// The Terraform state asked for is not in the database.
    TerraformStateNotFound { state_id: String },
    /// A stored JSON column does not hold what it should.
    MalformedJson { source: JsonSource },
    /// The region list of the scan is not a JSON list of strings; `detail`
    /// is serde_json's description of the fault.
    MalformedScanRegions { detail: String },
}

/// The text that describes an error.
pub open spec fn spec_error_message(error: ExportError) -> Seq<char> {
    match error {
        ExportError::NoScan => "no AWS scan found in map database"@,
        ExportError::ScanNotFound { scan_id } => "AWS scan "@ + scan_id@
            + " is not present in map database"@,
        ExportError::TerraformStateNotFound { state_id } => "Terraform state "@ + state_id@
            + " is not present in map database"@,
        ExportError::MalformedScanRegions { detail } => "Conversion error from type Text at index: 0, "@
            + detail@,
        ExportError::MalformedJson { source } => match source {
            JsonSource::TerraformResourceInstances => "loading Terraform resource instances"@,
            JsonSource::Findings => "loading findings"@,
            JsonSource::Resources => "loading resources"@,
            JsonSource::Relationships => "loading relationships"@,
        },
    }
}

impl ExportError {
    /// The text that describes this error.
    pub fn message(&self) -> (text: String)
        ensures
            text@ == spec_error_message(*self),
    {
        match self {
            ExportError::NoScan => "no AWS scan found in map database".to_owned(),
            ExportError::ScanNotFound { scan_id } => {
                let mut text = "AWS scan ".to_owned();
                text.append(scan_id.as_str());
                text.append(" is not present in map database");
                text
            },
            ExportError::TerraformStateNotFound { state_id } => {
                let mut text = "Terraform state ".to_owned();
                text.append(state_id.as_str());
                text.append(" is not present in map database");
                text
            },
            ExportError::MalformedScanRegions { detail } => {
                let mut text = "Conversion error from type Text at index: 0, ".to_owned();
                text.append(detail.as_str());
                text
            },
            ExportError::MalformedJson { source } => match source {
                JsonSource::TerraformResourceInstances => "loading Terraform resource instances".to_owned(),
                JsonSource::Findings => "loading findings".to_owned(),
                JsonSource::Resources => "loading resources".to_owned(),
                JsonSource::Relationships => "loading relationships".to_owned(),
            },
        }
    }
}

} // verus!
