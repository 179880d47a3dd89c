//! Settings of the blob-store client.

use vstd::prelude::*;

verus! {

/// Connection settings of the blob store.
#[derive(Clone, Debug)]
pub struct S3Config {
    pub endpoint: Option<String>,
    pub access_key_id: String,
    pub secret_access_key: String,
    pub region: String,
    pub bucket: String,
}

} // verus!
