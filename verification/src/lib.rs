//! The agent bundle of a CloudMapper map database: one AWS scan with its
//! resources and relationships, the Terraform state it is compared against,
//! the findings of that comparison, and a graph of the resources.
//!
//! The library reads stored rows into the bundle: it parses their JSON
//! columns, groups Terraform instances and findings by the AWS resource they
//! concern, links each resource with its Terraform addresses, finding ids and
//! highest severity, and builds the graph and the counts.

pub mod error;
pub mod export;
pub mod graph;
pub mod index;
pub mod json;
pub mod laws;
pub mod load;
pub mod model;
pub mod rows;
pub mod severity;
