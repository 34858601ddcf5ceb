use aetherium::{parse_checkpoint_syncer, CheckpointSyncerConf, CheckpointSyncerParseError};

#[test]
fn local_storage_syncer() {
    let conf = parse_checkpoint_syncer(
        "localStorage",
        Some("/tmp/checkpoints".to_string()),
        None,
        None,
        None,
        None,
        None,
    )
    .unwrap();
    assert_eq!(
        conf,
        CheckpointSyncerConf::LocalStorage {
            path: "/tmp/checkpoints".to_string()
        }
    );

    let err =
        parse_checkpoint_syncer("localStorage", None, None, None, None, None, None).unwrap_err();
    assert_eq!(err, CheckpointSyncerParseError::MissingKey("path".to_string()));
}

#[test]
fn s3_syncer() {
    let conf = parse_checkpoint_syncer(
        "s3",
        None,
        Some("bucket".to_string()),
        Some("eu-central-1".to_string()),
        Some("folder".to_string()),
        None,
        None,
    )
    .unwrap();
    assert_eq!(
        conf,
        CheckpointSyncerConf::S3 {
            bucket: "bucket".to_string(),
            region: "eu-central-1".to_string(),
            folder: Some("folder".to_string()),
        }
    );

    let err = parse_checkpoint_syncer(
        "s3",
        None,
        Some("bucket".to_string()),
        None,
        None,
        None,
        None,
    )
    .unwrap_err();
    assert_eq!(
        err,
        CheckpointSyncerParseError::MissingKey("region".to_string())
    );
    let err = parse_checkpoint_syncer("s3", None, None, None, None, None, None).unwrap_err();
    assert_eq!(
        err,
        CheckpointSyncerParseError::MissingKey("bucket".to_string())
    );
}

#[test]
fn gcs_syncer() {
    let conf = parse_checkpoint_syncer(
        "gcs",
        None,
        Some("bucket".to_string()),
        None,
        None,
        Some("key".to_string()),
        None,
    )
    .unwrap();
    assert_eq!(
        conf,
        CheckpointSyncerConf::Gcs {
            bucket: "bucket".to_string(),
            folder: None,
            service_account_key: Some("key".to_string()),
            user_secrets: None,
        }
    );
}

#[test]
fn unknown_syncer_type() {
    let err = parse_checkpoint_syncer("ftp", None, None, None, None, None, None).unwrap_err();
    assert_eq!(
        err,
        CheckpointSyncerParseError::UnknownSyncerType("ftp".to_string())
    );
}
