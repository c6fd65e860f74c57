//! The file system of a user as the gateway's administrative API takes it.

use vstd::prelude::*;

verus! {

/// A user's file system: which provider serves it and that provider's
/// settings.
#[derive(Clone, Debug, PartialEq, Eq)]
pub struct FileSystem {
    pub provider: FileSystemProvider,
    pub config: FileSystemConfig,
}

/// The storage providers the operator configures.
#[derive(Clone, Copy, Debug, PartialEq, Eq, Structural)]
pub enum FileSystemProvider {
    LocalFilesystem,
    AzureBlobStorage,
}

/// A provider's settings.
#[derive(Clone, Debug, PartialEq, Eq)]
pub enum FileSystemConfig {
    /// Settings of the local file system. A buffer size of zero means no
    /// buffering.
    OsConfig { read_buffer_size: i32, write_buffer_size: i32 },
    /// Settings of an Azure Blob Storage container.
    AzureBlobStorage(Box<FileSystemConfigAzureBlobStorage>),
}

/// Settings of an Azure Blob Storage container.
#[derive(Clone, Debug, PartialEq, Eq)]
pub struct FileSystemConfigAzureBlobStorage {
    pub auth: FileSystemConfigAzureBlobStorageAuthorization,
    pub endpoint: Option<String>,
    pub upload_part_size: i32,
    pub upload_concurrency: i32,
    pub download_part_size: i32,
    pub download_concurrency: i32,
    pub access_tier: Option<FileSystemConfigAzureBlobStorageAccessTier>,
    pub key_prefix: Option<String>,
    pub use_emulator: bool,
}

/// How the gateway proves itself to Azure.
#[derive(Clone, Debug, PartialEq, Eq)]
pub enum FileSystemConfigAzureBlobStorageAuthorization {
    SharedKey { account_name: String, container: String, account_key: SftpgoSecret },
    SharedAccessSignatureUrl { sas_url: SftpgoSecret },
}

/// The access tier blobs are written with.
#[derive(Clone, Copy, Debug, PartialEq, Eq, Structural)]
pub enum FileSystemConfigAzureBlobStorageAccessTier {
    Hot,
    Cool,
    Archive,
}

/// A secret as the gateway stores it. A secret sent in the clear has status
/// `Plain` and nothing but its payload.
#[derive(Clone, Debug, PartialEq, Eq)]
pub struct SftpgoSecret {
    pub status: SftpgoSecretStatus,
    pub payload: String,
    pub key: Option<String>,
    pub additional_data: Option<String>,
    pub mode: Option<i32>,
}

/// How a secret's payload is to be read.
#[derive(Clone, Copy, Debug, PartialEq, Eq, Structural)]
pub enum SftpgoSecretStatus {
    /// The payload is the secret itself.
    Plain,
    /// The payload is withheld.
    Redacted,
}

} // verus!
