//! The operations that the client sends, and the request metadata derived
//! from each: method, body length, content type and payload digest.
use std::collections::HashMap;

use vstd::prelude::*;
use vstd::string::*;
use vstd::utf8::encode_utf8;

use crate::config::{
    location_payload, manifest_xml, BucketConfiguration, BucketLifecycleConfiguration,
    CompleteMultipartUploadData, CorsConfiguration, Serialized,
};
use crate::encoding::{hex_encode, hex_of, sha256_digest, sha256_of};
use crate::error::S3Error;
use crate::method::HttpMethod;
use crate::multipart::{ContentMd5, Multipart};

verus! {

#[verifier::external_type_specification]
#[verifier::external_body]
#[verifier::reject_recursive_types(T)]
pub struct ExHeaderMap<T>(http::HeaderMap<T>);

#[verifier::external_type_specification]
#[verifier::external_body]
pub struct ExHeaderValue(http::HeaderValue);

/// The hex SHA-256 digest of an empty payload.
pub const EMPTY_PAYLOAD_SHA: &'static str = "e3b0c44298fc1c149afbf4c8996fb92427ae41e4649b934ca495991b7852b855";

/// The digest a signed request carries for its body: SHA-256 in lowercase hex.
pub open spec fn payload_digest(b: Seq<u8>) -> Seq<char> {
    hex_of(sha256_of(b))
}

/// The payload digest of `b`.
pub fn digest_hex(b: &[u8]) -> (r: String)
    ensures
        r@ == payload_digest(b@),
{
    let d = sha256_digest(b);
    hex_encode(d.as_slice())
}

/// One storage operation with the parameters it needs.
#[derive(Clone, Debug)]
pub enum Command<'a> {
    HeadObject,
    CopyObject { from: &'a str },
    DeleteObject,
    DeleteObjectTagging,
    GetObject,
    GetObjectTorrent,
    GetObjectRange { start: u64, end: Option<u64> },
    GetObjectTagging,
    PutObject {
        content: &'a [u8],
        content_md5: ContentMd5,
        content_type: &'a str,
        multipart: Option<Multipart<'a>>,
        cache_control: Option<&'a str>,
        content_disposition: Option<&'a str>,
    },
    PutObjectTagging { tags: &'a str },
    ListMultipartUploads {
        prefix: Option<&'a str>,
        delimiter: Option<&'a str>,
        key_marker: Option<String>,
        max_uploads: Option<usize>,
    },
    ListObjects {
        prefix: String,
        delimiter: Option<String>,
        marker: Option<String>,
        max_keys: Option<usize>,
    },
    ListObjectsV2 {
        prefix: String,
        delimiter: Option<String>,
        continuation_token: Option<String>,
        start_after: Option<String>,
        max_keys: Option<usize>,
    },
    GetBucketLocation,
    PresignGet { expiry_secs: u32, custom_queries: Option<HashMap<String, String>> },
    PresignPut {
        expiry_secs: u32,
        custom_headers: Option<http::HeaderMap>,
        custom_queries: Option<HashMap<String, String>>,
    },
    PresignDelete { expiry_secs: u32 },
    InitiateMultipartUpload { content_type: &'a str },
    UploadPart { part_number: u32, content: &'a [u8], content_md5: ContentMd5, upload_id: &'a str },
    AbortMultipartUpload { upload_id: &'a str },
    CompleteMultipartUpload {
        upload_id: &'a str,
        data: CompleteMultipartUploadData,
        cache_control: Option<&'a str>,
        content_disposition: Option<&'a str>,
    },
    CreateBucket { config: BucketConfiguration },
    DeleteBucket,
    ListBuckets,
    PutBucketCors { configuration: CorsConfiguration },
    GetBucketLifecycle,
    PutBucketLifecycle { configuration: BucketLifecycleConfiguration },
    DeleteBucketLifecycle,
}

impl<'a> Command<'a> {
    /// The method each operation is sent with.
    pub open spec fn spec_http_verb(&self) -> HttpMethod {
        match self {
            Command::GetObject | Command::GetObjectTorrent | Command::GetObjectRange { .. }
            | Command::ListBuckets | Command::ListObjects { .. } | Command::ListObjectsV2 { .. }
            | Command::GetBucketLocation | Command::GetObjectTagging
            | Command::GetBucketLifecycle | Command::ListMultipartUploads { .. }
            | Command::PresignGet { .. } => HttpMethod::Get,
            Command::PutObject { .. } | Command::CopyObject { .. }
            | Command::PutObjectTagging { .. } | Command::PresignPut { .. }
            | Command::UploadPart { .. } | Command::PutBucketCors { .. }
            | Command::CreateBucket { .. } | Command::PutBucketLifecycle { .. } => HttpMethod::Put,
            Command::DeleteObject | Command::DeleteObjectTagging
            | Command::AbortMultipartUpload { .. } | Command::PresignDelete { .. }
            | Command::DeleteBucket | Command::DeleteBucketLifecycle => HttpMethod::Delete,
            Command::InitiateMultipartUpload { .. } | Command::CompleteMultipartUpload { .. } => {
                HttpMethod::Post
            },
            Command::HeadObject => HttpMethod::Head,
        }
    }

    /// The bytes sent as the request body, or the serialization failure
    /// that keeps them from existing; `None` for an operation without body.
    pub open spec fn spec_body(&self) -> Option<Result<Seq<u8>, S3Error>> {
        match self {
            Command::PutObject { content, .. } => Some(Ok(content@)),
            Command::UploadPart { content, .. } => Some(Ok(content@)),
            Command::PutObjectTagging { tags } => Some(Ok(tags.spec_bytes())),
            Command::CompleteMultipartUpload { data, .. } => Some(
                Ok(encode_utf8(manifest_xml(data.parts@))),
            ),
            Command::CreateBucket { config } => match location_payload(*config) {
                Some(p) => Some(Ok(encode_utf8(p))),
                None => None,
            },
            Command::PutBucketLifecycle { configuration } => match configuration.serialized {
                Serialized::Xml(x) => Some(Ok(encode_utf8(x@))),
                Serialized::Failed(e) => Some(Err(e)),
            },
            _ => None,
        }
    }

    /// The body's length in bytes.
    pub open spec fn spec_content_length(&self) -> Result<nat, S3Error> {
        match self {
            Command::PutObject { content, .. } => Ok(content@.len()),
            Command::UploadPart { content, .. } => Ok(content@.len()),
            Command::PutObjectTagging { tags } => Ok(tags.spec_bytes().len()),
            Command::CompleteMultipartUpload { data, .. } => Ok(
                encode_utf8(manifest_xml(data.parts@)).len(),
            ),
            Command::CreateBucket { config } => match location_payload(*config) {
                Some(p) => Ok(encode_utf8(p).len()),
                None => Ok(0),
            },
            Command::PutBucketLifecycle { configuration } => match configuration.serialized {
                Serialized::Xml(x) => Ok(encode_utf8(x@).len()),
                Serialized::Failed(e) => Err(e),
            },
            _ => Ok(0),
        }
    }

    /// The declared content type of the body.
    pub open spec fn spec_content_type(&self) -> Seq<char> {
        match self {
            Command::InitiateMultipartUpload { content_type } => content_type@,
            Command::PutObject { content_type, .. } => content_type@,
            Command::CompleteMultipartUpload { .. } | Command::PutBucketLifecycle { .. } => {
                "application/xml"@
            },
            _ => "text/plain"@,
        }
    }

    /// The payload digest that the request is signed with.
    pub open spec fn spec_sha256(&self) -> Result<Seq<char>, S3Error> {
        match self {
            Command::PutObject { content, .. } => Ok(payload_digest(content@)),
            Command::UploadPart { content, .. } => Ok(payload_digest(content@)),
            Command::PutObjectTagging { tags } => Ok(payload_digest(tags.spec_bytes())),
            Command::CompleteMultipartUpload { data, .. } => Ok(
                payload_digest(encode_utf8(manifest_xml(data.parts@))),
            ),
            Command::CreateBucket { config } => match location_payload(*config) {
                Some(p) => Ok(payload_digest(encode_utf8(p))),
                None => Ok(EMPTY_PAYLOAD_SHA@),
            },
            Command::PutBucketLifecycle { configuration } => match configuration.serialized {
                Serialized::Xml(x) => Ok(payload_digest(encode_utf8(x@))),
                Serialized::Failed(e) => Err(e),
            },
            _ => Ok(EMPTY_PAYLOAD_SHA@),
        }
    }

    pub fn http_verb(&self) -> (r: HttpMethod)
        ensures
            r == self.spec_http_verb(),
    {
        match self {
            Command::GetObject | Command::GetObjectTorrent | Command::GetObjectRange { .. }
            | Command::ListBuckets | Command::ListObjects { .. } | Command::ListObjectsV2 { .. }
            | Command::GetBucketLocation | Command::GetObjectTagging
            | Command::GetBucketLifecycle | Command::ListMultipartUploads { .. }
            | Command::PresignGet { .. } => HttpMethod::Get,
            Command::PutObject { .. } | Command::CopyObject { .. }
            | Command::PutObjectTagging { .. } | Command::PresignPut { .. }
            | Command::UploadPart { .. } | Command::PutBucketCors { .. }
            | Command::CreateBucket { .. } | Command::PutBucketLifecycle { .. } => HttpMethod::Put,
            Command::DeleteObject | Command::DeleteObjectTagging
            | Command::AbortMultipartUpload { .. } | Command::PresignDelete { .. }
            | Command::DeleteBucket | Command::DeleteBucketLifecycle => HttpMethod::Delete,
            Command::InitiateMultipartUpload { .. } | Command::CompleteMultipartUpload { .. } => {
                HttpMethod::Post
            },
            Command::HeadObject => HttpMethod::Head,
        }
    }

    /// The body's length in bytes; fails when the body is a configuration
    /// that could not be serialized.
    pub fn content_length(&self) -> (r: Result<usize, S3Error>)
        ensures
            match self.spec_content_length() {
                Ok(n) => r == Ok::<usize, S3Error>(n as usize),
                Err(e) => r == Err::<usize, S3Error>(e),
            },
    {
        let result = match self {
            Command::CopyObject { .. } => 0,
            Command::PutObject { content, .. } => content.len(),
            Command::PutObjectTagging { tags } => tags.len(),
            Command::UploadPart { content, .. } => content.len(),
            Command::CompleteMultipartUpload { data, .. } => data.len(),
            Command::CreateBucket { config } => {
                match config.location_constraint_payload() {
                    Some(payload) => payload.as_str().len(),
                    None => 0,
                }
            },
            Command::PutBucketLifecycle { configuration } => {
                match &configuration.serialized {
                    Serialized::Xml(x) => x.as_str().len(),
                    Serialized::Failed(e) => {
                        return Err(e.duplicate());
                    },
                }
            },
            _ => 0,
        };
        Ok(result)
    }

    pub fn content_type(&self) -> (r: String)
        ensures
            r@ == self.spec_content_type(),
    {
        match self {
            Command::InitiateMultipartUpload { content_type } => String::from_str(content_type),
            Command::PutObject { content_type, .. } => String::from_str(content_type),
            Command::CompleteMultipartUpload { .. } | Command::PutBucketLifecycle { .. } => {
                String::from_str("application/xml")
            },
            _ => String::from_str("text/plain"),
        }
    }

    /// The hex SHA-256 digest of the body, the same bytes that
    /// `content_length` measures; the digest of an empty payload for an
    /// operation without body.
    pub fn sha256(&self) -> (r: Result<String, S3Error>)
        ensures
            match self.spec_sha256() {
                Ok(h) => r matches Ok(s) && s@ == h,
                Err(e) => r == Err::<String, S3Error>(e),
            },
    {
        let result = match self {
            Command::PutObject { content, .. } => digest_hex(content),
            Command::UploadPart { content, .. } => digest_hex(content),
            Command::PutObjectTagging { tags } => digest_hex(tags.as_bytes()),
            Command::CompleteMultipartUpload { data, .. } => {
                let text = data.to_string();
                digest_hex(text.as_str().as_bytes())
            },
            Command::CreateBucket { config } => {
                match config.location_constraint_payload() {
                    Some(payload) => digest_hex(payload.as_str().as_bytes()),
                    None => String::from_str(EMPTY_PAYLOAD_SHA),
                }
            },
            Command::PutBucketLifecycle { configuration } => {
                match &configuration.serialized {
                    Serialized::Xml(x) => digest_hex(x.as_str().as_bytes()),
                    Serialized::Failed(e) => {
                        return Err(e.duplicate());
                    },
                }
            },
            _ => String::from_str(EMPTY_PAYLOAD_SHA),
        };
        Ok(result)
    }
}


/// Every operation with a body measures and hashes the same bytes: its
/// length is the body's length and its digest the body's digest, and when
/// the body could not be serialized both fail with the same error.
pub proof fn lemma_length_and_digest_share_body<'a>(cmd: Command<'a>)
    requires
        cmd.spec_body() is Some,
    ensures
        match cmd.spec_body() {
            Some(Ok(b)) => cmd.spec_content_length() == Ok::<nat, S3Error>(b.len())
                && cmd.spec_sha256() == Ok::<Seq<char>, S3Error>(payload_digest(b)),
            Some(Err(e)) => cmd.spec_content_length() == Err::<nat, S3Error>(e)
                && cmd.spec_sha256() == Err::<Seq<char>, S3Error>(e),
            None => false,
        },
{
}

/// An operation without body has length zero and the digest of the empty
/// payload.
pub proof fn lemma_bodiless_digest<'a>(cmd: Command<'a>)
    requires
        cmd.spec_body() is None,
    ensures
        cmd.spec_content_length() == Ok::<nat, S3Error>(0),
        cmd.spec_sha256() == Ok::<Seq<char>, S3Error>(EMPTY_PAYLOAD_SHA@),
{
}

/// Creating a bucket in the default region sends no body; elsewhere it sends
/// the location constraint, whose length is not zero and whose digest is
/// signed.
pub proof fn lemma_create_bucket_payload<'a>(config: BucketConfiguration)
    ensures
        ({
            let cmd: Command<'a> = Command::CreateBucket { config };
            match location_payload(config) {
                None => cmd.spec_content_length() == Ok::<nat, S3Error>(0)
                    && cmd.spec_sha256() == Ok::<Seq<char>, S3Error>(EMPTY_PAYLOAD_SHA@),
                Some(p) => cmd.spec_content_length() == Ok::<nat, S3Error>(encode_utf8(p).len())
                    && encode_utf8(p).len() > 0
                    && cmd.spec_sha256() == Ok::<Seq<char>, S3Error>(payload_digest(encode_utf8(p))),
            }
        }),
        config.location_constraint is None ==> location_payload(config) is None,
{
    if let Some(p) = location_payload(config) {
        reveal_strlit("<CreateBucketConfiguration><LocationConstraint>");
        assert(p.len() > 0);
        vstd::utf8::encode_utf8_decode_utf8(p);
        if encode_utf8(p).len() == 0 {
            assert(encode_utf8(p) =~= Seq::<u8>::empty());
            assert(vstd::utf8::decode_utf8(Seq::<u8>::empty()) =~= Seq::<char>::empty());
        }
    }
}

} // verus!
