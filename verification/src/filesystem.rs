//! From the file system a resource declares to the settings the gateway takes.

use crate::crds::{
    AzureBlobStorage, AzureBlobStorageAccessTier, AzureBlobStorageAuthorization,
    FileSystem as CrdFileSystem,
};
use crate::reconciler::Error;
use crate::users::{
    FileSystem as ClientFileSystem, FileSystemConfig, FileSystemConfigAzureBlobStorage,
    FileSystemConfigAzureBlobStorageAccessTier, FileSystemConfigAzureBlobStorageAuthorization,
    FileSystemProvider, SftpgoSecret, SftpgoSecretStatus,
};
use vstd::prelude::*;

verus! {

/// Part size in MB and number of parallel transfers used where the resource
/// leaves them open.
pub const DEFAULT_TRANSFER_SETTING: i32 = 5;

/// A secret given in the clear.
pub open spec fn plain_secret(payload: String) -> SftpgoSecret {
    SftpgoSecret {
        status: SftpgoSecretStatus::Plain,
        payload,
        key: None,
        additional_data: None,
        mode: None,
    }
}

/// The gateway's form of a declared authorization.
pub open spec fn authorization_settings(
    authorization: AzureBlobStorageAuthorization,
) -> FileSystemConfigAzureBlobStorageAuthorization {
    match authorization {
        AzureBlobStorageAuthorization::SharedKey { account_key, account_name, container } => {
            FileSystemConfigAzureBlobStorageAuthorization::SharedKey {
                account_name,
                container,
                account_key: plain_secret(account_key),
            }
        },
        AzureBlobStorageAuthorization::SharedAccessSignatureUrl(url) => {
            FileSystemConfigAzureBlobStorageAuthorization::SharedAccessSignatureUrl {
                sas_url: plain_secret(url),
            }
        },
    }
}

/// The gateway's name for a declared access tier.
pub open spec fn access_tier_setting(
    tier: AzureBlobStorageAccessTier,
) -> FileSystemConfigAzureBlobStorageAccessTier {
    match tier {
        AzureBlobStorageAccessTier::Hot => FileSystemConfigAzureBlobStorageAccessTier::Hot,
        AzureBlobStorageAccessTier::Cool => FileSystemConfigAzureBlobStorageAccessTier::Cool,
        AzureBlobStorageAccessTier::Archive => FileSystemConfigAzureBlobStorageAccessTier::Archive,
    }
}

/// The gateway's settings for a declared container.
pub open spec fn blob_settings(blob: AzureBlobStorage) -> FileSystemConfigAzureBlobStorage {
    FileSystemConfigAzureBlobStorage {
        auth: authorization_settings(blob.authorization),
        endpoint: blob.endpoint,
        upload_part_size: blob.upload_part_size.unwrap_or(DEFAULT_TRANSFER_SETTING),
        upload_concurrency: blob.upload_concurrency.unwrap_or(DEFAULT_TRANSFER_SETTING),
        download_part_size: blob.download_part_size.unwrap_or(DEFAULT_TRANSFER_SETTING),
        download_concurrency: blob.download_concurrency.unwrap_or(DEFAULT_TRANSFER_SETTING),
        access_tier: match blob.access_tier {
            Some(tier) => Some(access_tier_setting(tier)),
            None => None,
        },
        key_prefix: blob.key_prefix,
        use_emulator: blob.use_emulator,
    }
}

/// The gateway's file system for a declared one: the provider follows the
/// kind, local buffer sizes left open become zero, and a container's
/// settings are carried over with its secrets marked as given in the clear.
pub open spec fn file_system_settings(filesystem: CrdFileSystem) -> ClientFileSystem {
    match filesystem {
        CrdFileSystem::Local { read_buffer_size, write_buffer_size } => ClientFileSystem {
            provider: FileSystemProvider::LocalFilesystem,
            config: FileSystemConfig::OsConfig {
                read_buffer_size: read_buffer_size.unwrap_or(0),
                write_buffer_size: write_buffer_size.unwrap_or(0),
            },
        },
        CrdFileSystem::AzureBlobStorage(blob) => ClientFileSystem {
            provider: FileSystemProvider::AzureBlobStorage,
            config: FileSystemConfig::AzureBlobStorage(Box::new(blob_settings(blob))),
        },
    }
}

fn clone_text(text: &Option<String>) -> (copy: Option<String>)
    ensures
        copy == *text,
{
    match text {
        Some(text) => Some(text.clone()),
        None => None,
    }
}

fn make_plain_secret(payload: &String) -> (secret: SftpgoSecret)
    ensures
        secret == plain_secret(*payload),
{
    SftpgoSecret {
        status: SftpgoSecretStatus::Plain,
        payload: payload.clone(),
        key: None,
        additional_data: None,
        mode: None,
    }
}

/// Works out the settings the gateway takes for the file system a resource
/// declares. Every declared file system has settings.
pub fn calculate_file_system(filesystem: &CrdFileSystem) -> (settings: Result<
    ClientFileSystem,
    Error,
>)
    ensures
        settings == Ok::<ClientFileSystem, Error>(file_system_settings(*filesystem)),
{
    let fs = match filesystem {
        CrdFileSystem::Local { read_buffer_size, write_buffer_size } => ClientFileSystem {
            provider: FileSystemProvider::LocalFilesystem,
            config: FileSystemConfig::OsConfig {
                read_buffer_size: read_buffer_size.unwrap_or(0),
                write_buffer_size: write_buffer_size.unwrap_or(0),
            },
        },
        CrdFileSystem::AzureBlobStorage(blob) => ClientFileSystem {
            provider: FileSystemProvider::AzureBlobStorage,
            config: FileSystemConfig::AzureBlobStorage(
                Box::new(
                    FileSystemConfigAzureBlobStorage {
                        auth: match &blob.authorization {
                            AzureBlobStorageAuthorization::SharedKey {
                                account_key,
                                account_name,
                                container,
                            } => FileSystemConfigAzureBlobStorageAuthorization::SharedKey {
                                account_name: account_name.clone(),
                                container: container.clone(),
                                account_key: make_plain_secret(account_key),
                            },
                            AzureBlobStorageAuthorization::SharedAccessSignatureUrl(url) => {
                                FileSystemConfigAzureBlobStorageAuthorization::SharedAccessSignatureUrl {
                                    sas_url: make_plain_secret(url),
                                }
                            },
                        },
                        endpoint: clone_text(&blob.endpoint),
                        upload_part_size: blob.upload_part_size.unwrap_or(DEFAULT_TRANSFER_SETTING),
                        upload_concurrency: blob.upload_concurrency.unwrap_or(
                            DEFAULT_TRANSFER_SETTING,
                        ),
                        download_part_size: blob.download_part_size.unwrap_or(
                            DEFAULT_TRANSFER_SETTING,
                        ),
                        download_concurrency: blob.download_concurrency.unwrap_or(
                            DEFAULT_TRANSFER_SETTING,
                        ),
                        access_tier: match blob.access_tier {
                            Some(AzureBlobStorageAccessTier::Hot) => Some(
                                FileSystemConfigAzureBlobStorageAccessTier::Hot,
                            ),
                            Some(AzureBlobStorageAccessTier::Cool) => Some(
                                FileSystemConfigAzureBlobStorageAccessTier::Cool,
                            ),
                            Some(AzureBlobStorageAccessTier::Archive) => Some(
                                FileSystemConfigAzureBlobStorageAccessTier::Archive,
                            ),
                            None => None,
                        },
                        key_prefix: clone_text(&blob.key_prefix),
                        use_emulator: blob.use_emulator,
                    },
                ),
            ),
        },
    };
    Ok(fs)
}

} // verus!
