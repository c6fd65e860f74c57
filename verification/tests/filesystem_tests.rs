use sftpgo_operator::crds::{
    AzureBlobStorage, AzureBlobStorageAccessTier, AzureBlobStorageAuthorization,
    FileSystem as CrdFileSystem,
};
use sftpgo_operator::filesystem::{calculate_file_system, DEFAULT_TRANSFER_SETTING};
use sftpgo_operator::users::{
    FileSystem as ClientFileSystem, FileSystemConfig, FileSystemConfigAzureBlobStorage,
    FileSystemConfigAzureBlobStorageAccessTier, FileSystemConfigAzureBlobStorageAuthorization,
    FileSystemProvider, SftpgoSecret, SftpgoSecretStatus,
};

fn plain(payload: &str) -> SftpgoSecret {
    SftpgoSecret {
        status: SftpgoSecretStatus::Plain,
        payload: payload.to_string(),
        key: None,
        additional_data: None,
        mode: None,
    }
}

fn bare_blob(authorization: AzureBlobStorageAuthorization) -> AzureBlobStorage {
    AzureBlobStorage {
        authorization,
        endpoint: None,
        upload_part_size: None,
        upload_concurrency: None,
        download_part_size: None,
        download_concurrency: None,
        access_tier: None,
        key_prefix: None,
        use_emulator: false,
    }
}

fn shared_key() -> AzureBlobStorageAuthorization {
    AzureBlobStorageAuthorization::SharedKey {
        account_key: "k3y".to_string(),
        account_name: "acct".to_string(),
        container: "box".to_string(),
    }
}

#[test]
fn default_transfer_setting_is_five() {
    assert_eq!(DEFAULT_TRANSFER_SETTING, 5);
}

#[test]
fn local_file_system_without_sizes_has_no_buffering() {
    let declared = CrdFileSystem::Local { read_buffer_size: None, write_buffer_size: None };
    assert_eq!(
        calculate_file_system(&declared),
        Ok(ClientFileSystem {
            provider: FileSystemProvider::LocalFilesystem,
            config: FileSystemConfig::OsConfig { read_buffer_size: 0, write_buffer_size: 0 },
        })
    );
}

#[test]
fn local_file_system_keeps_its_sizes() {
    let declared = CrdFileSystem::Local { read_buffer_size: Some(4), write_buffer_size: Some(9) };
    assert_eq!(
        calculate_file_system(&declared),
        Ok(ClientFileSystem {
            provider: FileSystemProvider::LocalFilesystem,
            config: FileSystemConfig::OsConfig { read_buffer_size: 4, write_buffer_size: 9 },
        })
    );
}

#[test]
fn bare_container_takes_the_customary_settings() {
    let declared = CrdFileSystem::AzureBlobStorage(bare_blob(shared_key()));
    assert_eq!(
        calculate_file_system(&declared),
        Ok(ClientFileSystem {
            provider: FileSystemProvider::AzureBlobStorage,
            config: FileSystemConfig::AzureBlobStorage(Box::new(
                FileSystemConfigAzureBlobStorage {
                    auth: FileSystemConfigAzureBlobStorageAuthorization::SharedKey {
                        account_name: "acct".to_string(),
                        container: "box".to_string(),
                        account_key: plain("k3y"),
                    },
                    endpoint: None,
                    upload_part_size: 5,
                    upload_concurrency: 5,
                    download_part_size: 5,
                    download_concurrency: 5,
                    access_tier: None,
                    key_prefix: None,
                    use_emulator: false,
                }
            )),
        })
    );
}

#[test]
fn container_settings_are_carried_over() {
    let declared = CrdFileSystem::AzureBlobStorage(AzureBlobStorage {
        authorization: AzureBlobStorageAuthorization::SharedAccessSignatureUrl(
            "https://acct.blob.example/box?sig=1".to_string(),
        ),
        endpoint: Some("http://127.0.0.1:10000".to_string()),
        upload_part_size: Some(16),
        upload_concurrency: Some(2),
        download_part_size: Some(32),
        download_concurrency: Some(3),
        access_tier: Some(AzureBlobStorageAccessTier::Cool),
        key_prefix: Some("users/alice/".to_string()),
        use_emulator: true,
    });
    assert_eq!(
        calculate_file_system(&declared),
        Ok(ClientFileSystem {
            provider: FileSystemProvider::AzureBlobStorage,
            config: FileSystemConfig::AzureBlobStorage(Box::new(
                FileSystemConfigAzureBlobStorage {
                    auth: FileSystemConfigAzureBlobStorageAuthorization::SharedAccessSignatureUrl {
                        sas_url: plain("https://acct.blob.example/box?sig=1"),
                    },
                    endpoint: Some("http://127.0.0.1:10000".to_string()),
                    upload_part_size: 16,
                    upload_concurrency: 2,
                    download_part_size: 32,
                    download_concurrency: 3,
                    access_tier: Some(FileSystemConfigAzureBlobStorageAccessTier::Cool),
                    key_prefix: Some("users/alice/".to_string()),
                    use_emulator: true,
                }
            )),
        })
    );
}

#[test]
fn each_access_tier_keeps_its_name() {
    let tiers = [
        (AzureBlobStorageAccessTier::Hot, FileSystemConfigAzureBlobStorageAccessTier::Hot),
        (AzureBlobStorageAccessTier::Cool, FileSystemConfigAzureBlobStorageAccessTier::Cool),
        (AzureBlobStorageAccessTier::Archive, FileSystemConfigAzureBlobStorageAccessTier::Archive),
    ];
    for (declared_tier, expected) in tiers {
        let mut blob = bare_blob(shared_key());
        blob.access_tier = Some(declared_tier);
        let settings = calculate_file_system(&CrdFileSystem::AzureBlobStorage(blob)).unwrap();
        match settings.config {
            FileSystemConfig::AzureBlobStorage(config) => {
                assert_eq!(config.access_tier, Some(expected))
            }
            other => panic!("unexpected settings {:?}", other),
        }
    }
}

#[test]
fn working_out_settings_leaves_the_declared_file_system_alone() {
    let declared = CrdFileSystem::AzureBlobStorage(bare_blob(shared_key()));
    let before = declared.clone();
    let first = calculate_file_system(&declared);
    let second = calculate_file_system(&declared);
    assert_eq!(declared, before);
    assert_eq!(first, second);
}
