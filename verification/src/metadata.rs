//! Model metadata: the request that asks for it and the plain shape of
//! the server's reply. Metadata is fetched on demand and never cached.

use vstd::prelude::*;

verus! {

/// Addresses a model's metadata. An empty version means "latest".
pub struct MetadataRequest {
    pub name: String,
    pub version: String,
}

/// Server-declared schema of one tensor.
pub struct TensorSpec {
    pub name: String,
    pub datatype: String,
    pub shape: Vec<i64>,
}

/// Server-declared input/output schema of a model and version.
pub struct ModelMetadata {
    pub name: String,
    pub versions: Vec<String>,
    pub platform: String,
    pub inputs: Vec<TensorSpec>,
    pub outputs: Vec<TensorSpec>,
}

/// Assemble the metadata request for a model and version; both strings
/// pass through unchanged.
pub fn build_metadata_request(model_name: &str, model_version: &str) -> (r: MetadataRequest)
    ensures
        r.name@ == model_name@,
        r.version@ == model_version@,
{
    MetadataRequest { name: model_name.to_owned(), version: model_version.to_owned() }
}

} // verus!
