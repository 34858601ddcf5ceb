//! The decision core of validator configuration: which checkpoint syncer a
//! configuration block names, given its fields as plain values. Reading the
//! configuration file and pulling the fields out of it is the surrounding
//! program's job.

use vstd::prelude::*;

verus! {

/// Where a validator's signed checkpoints are kept.
#[derive(Debug, Clone, PartialEq, Eq)]
pub enum CheckpointSyncerConf {
    /// A local file system path.
    LocalStorage { path: String },
    /// An S3 bucket in a region, optionally under a folder.
    S3 { bucket: String, region: String, folder: Option<String> },
    /// A GCS bucket, optionally under a folder, with optional credentials.
    Gcs {
        bucket: String,
        folder: Option<String>,
        service_account_key: Option<String>,
        user_secrets: Option<String>,
    },
}

/// Why a checkpoint syncer configuration block was rejected.
#[derive(Debug, Clone, PartialEq, Eq)]
pub enum CheckpointSyncerParseError {
    /// The type is not one of the known syncer types.
    UnknownSyncerType(String),
    /// A key the named type needs is missing; carries the key.
    MissingKey(String),
}

/// Relies on str's PartialEq: two string slices are equal exactly when their
/// characters are.
#[verifier::external_body]
fn str_eq(a: &str, b: &str) -> (r: bool)
    ensures
        r == (a@ == b@),
{
    a == b
}

/// Decides the checkpoint syncer a configuration block names.
///
/// `localStorage` needs `path`; `s3` needs `bucket` and `region` and may give
/// `folder`; `gcs` needs `bucket` and may give `folder`,
/// `service_account_key` and `user_secrets`. Any other type is unknown.
pub fn parse_checkpoint_syncer(
    syncer_type: &str,
    path: Option<String>,
    bucket: Option<String>,
    region: Option<String>,
    folder: Option<String>,
    service_account_key: Option<String>,
    user_secrets: Option<String>,
) -> (r: Result<CheckpointSyncerConf, CheckpointSyncerParseError>)
    ensures
        syncer_type@ == "localStorage"@ ==> (match path {
            Some(p) => r matches Ok(CheckpointSyncerConf::LocalStorage { path: rp }) && rp == p,
            None => r matches Err(CheckpointSyncerParseError::MissingKey(k)) && k@ == "path"@,
        }),
        syncer_type@ == "s3"@ ==> (match (bucket, region) {
            (Some(b), Some(g)) => r matches Ok(
                CheckpointSyncerConf::S3 { bucket: rb, region: rg, folder: rf },
            ) && rb == b && rg == g && rf == folder,
            (None, _) => r matches Err(CheckpointSyncerParseError::MissingKey(k)) && k@
                == "bucket"@,
            (Some(_), None) => r matches Err(CheckpointSyncerParseError::MissingKey(k)) && k@
                == "region"@,
        }),
        syncer_type@ == "gcs"@ ==> (match bucket {
            Some(b) => r matches Ok(
                CheckpointSyncerConf::Gcs {
                    bucket: rb,
                    folder: rf,
                    service_account_key: rk,
                    user_secrets: ru,
                },
            ) && rb == b && rf == folder && rk == service_account_key && ru == user_secrets,
            None => r matches Err(CheckpointSyncerParseError::MissingKey(k)) && k@ == "bucket"@,
        }),
        syncer_type@ != "localStorage"@ && syncer_type@ != "s3"@ && syncer_type@ != "gcs"@ ==> (r
            matches Err(CheckpointSyncerParseError::UnknownSyncerType(t)) && t@ == syncer_type@),
{
    proof {
        reveal_strlit("localStorage");
        reveal_strlit("s3");
        reveal_strlit("gcs");
        assert("localStorage"@.len() == 12);
        assert("s3"@.len() == 2);
        assert("gcs"@.len() == 3);
        assert("s3"@ != "localStorage"@);
        assert("gcs"@ != "localStorage"@);
        assert("gcs"@ != "s3"@);
    }
    if str_eq(syncer_type, "localStorage") {
        match path {
            Some(p) => Ok(CheckpointSyncerConf::LocalStorage { path: p }),
            None => Err(CheckpointSyncerParseError::MissingKey("path".to_owned())),
        }
    } else if str_eq(syncer_type, "s3") {
        match (bucket, region) {
            (Some(b), Some(g)) => Ok(
                CheckpointSyncerConf::S3 { bucket: b, region: g, folder },
            ),
            (None, _) => Err(CheckpointSyncerParseError::MissingKey("bucket".to_owned())),
            (Some(_), None) => Err(CheckpointSyncerParseError::MissingKey("region".to_owned())),
        }
    } else if str_eq(syncer_type, "gcs") {
        match bucket {
            Some(b) => Ok(
                CheckpointSyncerConf::Gcs {
                    bucket: b,
                    folder,
                    service_account_key,
                    user_secrets,
                },
            ),
            None => Err(CheckpointSyncerParseError::MissingKey("bucket".to_owned())),
        }
    } else {
        Err(CheckpointSyncerParseError::UnknownSyncerType(syncer_type.to_owned()))
    }
}

} // verus!
