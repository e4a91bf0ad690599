//! The configuration snapshot that every component is handed.

use vstd::prelude::*;

verus! {

/// What the worker is configured with.
#[derive(Clone, Debug)]
pub struct Config {
    pub database_url: String,
    pub queue_url: String,
    pub aws_region: String,
    pub s3_bucket: String,
    pub s3_endpoint: Option<String>,
    pub encryption_key: String,
    pub onedrive_client_id: String,
    pub onedrive_client_secret: String,
}

/// A value without which the worker does not start.
#[derive(Clone, Copy, Debug, PartialEq, Eq, Structural)]
pub enum ConfigError {
    MissingDatabaseUrl,
    MissingQueueUrl,
    MissingS3Bucket,
}

/// What stands in for a value that the environment leaves out.
pub open spec fn or_default(value: Option<String>, fallback: Seq<char>) -> Seq<char> {
    match value {
        Some(text) => text@,
        None => fallback,
    }
}

/// The value, or the fallback where there is none.
fn value_or(value: Option<String>, fallback: &str) -> (r: String)
    ensures
        r@ == or_default(value, fallback@),
{
    match value {
        Some(text) => text,
        None => fallback.to_owned(),
    }
}

impl Config {
    /// The configuration that the environment describes.  Each argument is
    /// the value of one variable, `None` where the variable is not set.
    ///
    /// The database URL, the queue URL and the bucket must be set; the
    /// first of them that is missing, in this order, is the error.  The
    /// region, the encryption secret and the provider credentials fall
    /// back on development values that a deployment is to override.  The
    /// endpoint override is optional.
    pub fn from_env(
        database_url: Option<String>,
        queue_url: Option<String>,
        aws_region: Option<String>,
        s3_bucket: Option<String>,
        s3_endpoint: Option<String>,
        encryption_key: Option<String>,
        onedrive_client_id: Option<String>,
        onedrive_client_secret: Option<String>,
    ) -> (r: Result<Config, ConfigError>)
        ensures
            match r {
                Ok(config) => {
                    &&& database_url matches Some(v) && config.database_url == v
                    &&& queue_url matches Some(v) && config.queue_url == v
                    &&& s3_bucket matches Some(v) && config.s3_bucket == v
                    &&& config.s3_endpoint == s3_endpoint
                    &&& config.aws_region@ == or_default(aws_region, "us-east-1"@)
                    &&& config.encryption_key@ == or_default(
                        encryption_key,
                        "default-dev-key-please-change-in-production"@,
                    )
                    &&& config.onedrive_client_id@ == or_default(
                        onedrive_client_id,
                        "your-client-id"@,
                    )
                    &&& config.onedrive_client_secret@ == or_default(
                        onedrive_client_secret,
                        "your-client-secret"@,
                    )
                },
                Err(ConfigError::MissingDatabaseUrl) => database_url is None,
                Err(ConfigError::MissingQueueUrl) => database_url is Some && queue_url is None,
                Err(ConfigError::MissingS3Bucket) => database_url is Some && queue_url is Some
                    && s3_bucket is None,
            },
    {
        let database_url = match database_url {
            Some(v) => v,
            None => { return Err(ConfigError::MissingDatabaseUrl); },
        };
        let queue_url = match queue_url {
            Some(v) => v,
            None => { return Err(ConfigError::MissingQueueUrl); },
        };
        let s3_bucket = match s3_bucket {
            Some(v) => v,
            None => { return Err(ConfigError::MissingS3Bucket); },
        };
        Ok(
            Config {
                database_url,
                queue_url,
                aws_region: value_or(aws_region, "us-east-1"),
                s3_bucket,
                s3_endpoint,
                encryption_key: value_or(
                    encryption_key,
                    "default-dev-key-please-change-in-production",
                ),
                onedrive_client_id: value_or(onedrive_client_id, "your-client-id"),
                onedrive_client_secret: value_or(onedrive_client_secret, "your-client-secret"),
            },
        )
    }
}

} // verus!
