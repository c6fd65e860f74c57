//! The file system a user resource declares: the desired state, as far as
//! the operator reads it.

use vstd::prelude::*;

verus! {

/// Where a user's files are to live.
#[derive(Clone, Debug, PartialEq, Eq)]
pub enum FileSystem {
    /// On the gateway's own disk. Unset buffer sizes mean no buffering.
    Local { read_buffer_size: Option<i32>, write_buffer_size: Option<i32> },
    /// In an Azure Blob Storage container.
    AzureBlobStorage(AzureBlobStorage),
}

/// An Azure Blob Storage container and how to use it. Sizes are in MB;
/// unset sizes and concurrencies take the backend's customary value.
#[derive(Clone, Debug, PartialEq, Eq)]
pub struct AzureBlobStorage {
    pub authorization: AzureBlobStorageAuthorization,
    pub endpoint: Option<String>,
    pub upload_part_size: Option<i32>,
    pub upload_concurrency: Option<i32>,
    pub download_part_size: Option<i32>,
    pub download_concurrency: Option<i32>,
    pub access_tier: Option<AzureBlobStorageAccessTier>,
    pub key_prefix: Option<String>,
    pub use_emulator: bool,
}

/// How the gateway proves itself to Azure.
#[derive(Clone, Debug, PartialEq, Eq)]
pub enum AzureBlobStorageAuthorization {
    /// With the storage account's key.
    SharedKey { account_key: String, account_name: String, container: String },
    /// With a shared access signature URL, which names account and container.
    SharedAccessSignatureUrl(String),
}

/// The access tier blobs are written with.
#[derive(Clone, Copy, Debug, PartialEq, Eq, Structural)]
pub enum AzureBlobStorageAccessTier {
    Hot,
    Cool,
    Archive,
}

} // verus!
