//! Operation descriptors of an S3-compatible storage client, and the request
//! metadata (method, body length, content type, payload digest) derived from
//! them for signing.
pub mod command;
pub mod config;
pub mod encoding;
pub mod error;
pub mod method;
pub mod multipart;

pub use command::{Command, EMPTY_PAYLOAD_SHA};
pub use config::{
    BucketConfiguration, BucketLifecycleConfiguration, CompleteMultipartUploadData,
    CorsConfiguration, Part, Serialized,
};
pub use error::S3Error;
pub use method::HttpMethod;
pub use multipart::{ContentMd5, Multipart};
