//! Settings of the gateway process.

use vstd::prelude::*;
use crate::storage::client::S3Config;
use crate::text::{opt_text, text_or};

verus! {

/// Everything the process needs to start serving.
#[derive(Clone, Debug)]
pub struct Config {
    pub s3_region: String,
    pub s3_bucket: String,
    pub s3_access_key_id: String,
    pub s3_secret_access_key: String,
    pub s3_endpoint: Option<String>,
    pub server_host: String,
    pub server_port: u16,
    pub db_url: String,
}

/// The port on which the gateway listens where none is set.
pub const DEFAULT_PORT: u16 = 12055;

impl Config {
    /// The configuration made of the settings that are there. The region,
    /// the host and the port have defaults; the endpoint may be absent.
    pub fn with_defaults(
        s3_region: Option<String>,
        s3_bucket: String,
        s3_access_key_id: String,
        s3_secret_access_key: String,
        s3_endpoint: Option<String>,
        server_host: Option<String>,
        server_port: Option<u16>,
        db_url: String,
    ) -> (c: Config)
        ensures
            c.s3_region@ == text_or(opt_text(s3_region), "us-east-1"@),
            c.s3_bucket == s3_bucket,
            c.s3_access_key_id == s3_access_key_id,
            c.s3_secret_access_key == s3_secret_access_key,
            c.s3_endpoint == s3_endpoint,
            c.server_host@ == text_or(opt_text(server_host), "127.0.0.1"@),
            c.server_port == (match server_port {
                Some(p) => p,
                None => 12055u16,
            }),
            c.db_url == db_url,
    {
        let s3_region = match s3_region {
            Some(r) => r,
            None => "us-east-1".to_owned(),
        };
        let server_host = match server_host {
            Some(h) => h,
            None => "127.0.0.1".to_owned(),
        };
        let server_port: u16 = match server_port {
            Some(p) => p,
            None => DEFAULT_PORT,
        };
        Config {
            s3_region,
            s3_bucket,
            s3_access_key_id,
            s3_secret_access_key,
            s3_endpoint,
            server_host,
            server_port,
            db_url,
        }
    }

    /// The blob-store settings held in this configuration.
    pub fn s3_config(&self) -> (out: S3Config)
        ensures
            out.endpoint == self.s3_endpoint,
            out.access_key_id == self.s3_access_key_id,
            out.secret_access_key == self.s3_secret_access_key,
            out.region == self.s3_region,
            out.bucket == self.s3_bucket,
    {
        S3Config {
            endpoint: self.s3_endpoint.clone(),
            access_key_id: self.s3_access_key_id.clone(),
            secret_access_key: self.s3_secret_access_key.clone(),
            region: self.s3_region.clone(),
            bucket: self.s3_bucket.clone(),
        }
    }
}

} // verus!
