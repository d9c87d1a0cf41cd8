use s3::command::digest_hex;
use s3::{
    BucketConfiguration, BucketLifecycleConfiguration, Command, CompleteMultipartUploadData,
    ContentMd5, CorsConfiguration, HttpMethod, Multipart, Part, S3Error, Serialized,
    EMPTY_PAYLOAD_SHA,
};

const ABC_SHA: &str = "ba7816bf8f01cfea414140de5dae2223b00361a396177a9cb410ff61f20015ad";

fn put_object<'a>(content: &'a [u8], content_type: &'a str) -> Command<'a> {
    Command::PutObject {
        content,
        content_md5: ContentMd5::Auto,
        content_type,
        multipart: None,
        cache_control: None,
        content_disposition: None,
    }
}

fn manifest() -> CompleteMultipartUploadData {
    CompleteMultipartUploadData {
        parts: vec![
            Part { part_number: 1, etag: "\"etag1\"".to_string() },
            Part { part_number: 12, etag: "\"etag2\"".to_string() },
        ],
    }
}

fn complete<'a>(data: CompleteMultipartUploadData) -> Command<'a> {
    Command::CompleteMultipartUpload {
        upload_id: "up-1",
        data,
        cache_control: None,
        content_disposition: None,
    }
}

fn lifecycle<'a>(serialized: Serialized) -> Command<'a> {
    Command::PutBucketLifecycle { configuration: BucketLifecycleConfiguration { serialized } }
}

fn create_bucket<'a>(region: Option<&str>) -> Command<'a> {
    Command::CreateBucket {
        config: BucketConfiguration { location_constraint: region.map(|r| r.to_string()) },
    }
}

/// One value of every variant, with the method it is sent with.
fn all_variants() -> Vec<(Command<'static>, HttpMethod)> {
    vec![
        (Command::HeadObject, HttpMethod::Head),
        (Command::CopyObject { from: "src/key" }, HttpMethod::Put),
        (Command::DeleteObject, HttpMethod::Delete),
        (Command::DeleteObjectTagging, HttpMethod::Delete),
        (Command::GetObject, HttpMethod::Get),
        (Command::GetObjectTorrent, HttpMethod::Get),
        (Command::GetObjectRange { start: 0, end: Some(10) }, HttpMethod::Get),
        (Command::GetObjectTagging, HttpMethod::Get),
        (put_object(b"abc", "text/plain"), HttpMethod::Put),
        (Command::PutObjectTagging { tags: "a=b" }, HttpMethod::Put),
        (
            Command::ListMultipartUploads {
                prefix: None,
                delimiter: None,
                key_marker: None,
                max_uploads: Some(5),
            },
            HttpMethod::Get,
        ),
        (
            Command::ListObjects {
                prefix: "p".to_string(),
                delimiter: None,
                marker: None,
                max_keys: None,
            },
            HttpMethod::Get,
        ),
        (
            Command::ListObjectsV2 {
                prefix: "p".to_string(),
                delimiter: Some("/".to_string()),
                continuation_token: None,
                start_after: None,
                max_keys: Some(100),
            },
            HttpMethod::Get,
        ),
        (Command::GetBucketLocation, HttpMethod::Get),
        (Command::PresignGet { expiry_secs: 60, custom_queries: None }, HttpMethod::Get),
        (
            Command::PresignPut {
                expiry_secs: 60,
                custom_headers: Some(http::HeaderMap::new()),
                custom_queries: None,
            },
            HttpMethod::Put,
        ),
        (Command::PresignDelete { expiry_secs: 60 }, HttpMethod::Delete),
        (Command::InitiateMultipartUpload { content_type: "video/mp4" }, HttpMethod::Post),
        (
            Command::UploadPart {
                part_number: 2,
                content: b"abc",
                content_md5: ContentMd5::Disabled,
                upload_id: "up-1",
            },
            HttpMethod::Put,
        ),
        (Command::AbortMultipartUpload { upload_id: "up-1" }, HttpMethod::Delete),
        (complete(manifest()), HttpMethod::Post),
        (create_bucket(Some("eu-west-1")), HttpMethod::Put),
        (Command::DeleteBucket, HttpMethod::Delete),
        (Command::ListBuckets, HttpMethod::Get),
        (
            Command::PutBucketCors {
                configuration: CorsConfiguration {
                    serialized: Serialized::Xml("<CORSConfiguration/>".to_string()),
                },
            },
            HttpMethod::Put,
        ),
        (Command::GetBucketLifecycle, HttpMethod::Get),
        (lifecycle(Serialized::Xml("<LifecycleConfiguration/>".to_string())), HttpMethod::Put),
        (Command::DeleteBucketLifecycle, HttpMethod::Delete),
    ]
}

#[test]
fn http_verb_covers_every_variant() {
    let mut seen = Vec::new();
    for (cmd, expected) in all_variants() {
        assert_eq!(cmd.http_verb(), expected);
        if !seen.contains(&expected) {
            seen.push(expected);
        }
    }
    assert_eq!(seen.len(), 5);
}

#[test]
fn http_method_names() {
    assert_eq!(HttpMethod::Delete.to_string(), "DELETE");
    assert_eq!(HttpMethod::Get.to_string(), "GET");
    assert_eq!(HttpMethod::Put.to_string(), "PUT");
    assert_eq!(HttpMethod::Post.to_string(), "POST");
    assert_eq!(HttpMethod::Head.to_string(), "HEAD");
}

#[test]
fn content_type_of_put_object_is_verbatim() {
    assert_eq!(put_object(b"x", "image/png").content_type(), "image/png");
    assert_eq!(
        Command::InitiateMultipartUpload { content_type: "video/mp4" }.content_type(),
        "video/mp4"
    );
}

#[test]
fn content_type_of_xml_bodies() {
    assert_eq!(complete(manifest()).content_type(), "application/xml");
    assert_eq!(
        lifecycle(Serialized::Xml("<LifecycleConfiguration/>".to_string())).content_type(),
        "application/xml"
    );
}

#[test]
fn content_type_defaults_to_text_plain() {
    assert_eq!(Command::GetObject.content_type(), "text/plain");
    assert_eq!(Command::PutObjectTagging { tags: "a=b" }.content_type(), "text/plain");
    assert_eq!(create_bucket(None).content_type(), "text/plain");
}

#[test]
fn put_object_length_and_digest() {
    let cmd = put_object(b"abc", "text/plain");
    assert_eq!(cmd.content_length().unwrap(), 3);
    assert_eq!(cmd.sha256().unwrap(), ABC_SHA);
}

#[test]
fn put_object_with_empty_body_hashes_empty_payload() {
    let cmd = put_object(b"", "text/plain");
    assert_eq!(cmd.content_length().unwrap(), 0);
    assert_eq!(cmd.sha256().unwrap(), EMPTY_PAYLOAD_SHA);
}

#[test]
fn upload_part_length_and_digest() {
    let cmd = Command::UploadPart {
        part_number: 1,
        content: b"hello",
        content_md5: ContentMd5::Auto,
        upload_id: "up-1",
    };
    assert_eq!(cmd.content_length().unwrap(), 5);
    assert_eq!(
        cmd.sha256().unwrap(),
        "2cf24dba5fb0a30e26e83b2ac5b9e29e1b161e5c1fa7425e73043362938b9824"
    );
}

#[test]
fn put_object_tagging_length_and_digest() {
    let cmd = Command::PutObjectTagging { tags: "Project=alpha&Owner=ops" };
    assert_eq!(cmd.content_length().unwrap(), 23);
    assert_eq!(
        cmd.sha256().unwrap(),
        "7528b91eed5b4e7eaf00f0053ab29e717f92c291d860174d8e58c91d53d946eb"
    );
}

#[test]
fn tag_length_counts_bytes() {
    let cmd = Command::PutObjectTagging { tags: "k=é" };
    assert_eq!(cmd.content_length().unwrap(), 4);
}

#[test]
fn manifest_text() {
    let data = manifest();
    assert_eq!(
        data.to_string(),
        "<CompleteMultipartUpload><Part><PartNumber>1</PartNumber><ETag>\"etag1\"</ETag></Part>\
         <Part><PartNumber>12</PartNumber><ETag>\"etag2\"</ETag></Part></CompleteMultipartUpload>"
    );
    assert_eq!(data.len(), 170);
    let empty = CompleteMultipartUploadData { parts: Vec::new() };
    assert_eq!(empty.to_string(), "<CompleteMultipartUpload></CompleteMultipartUpload>");
}

#[test]
fn complete_multipart_length_and_digest() {
    let cmd = complete(manifest());
    assert_eq!(cmd.content_length().unwrap(), 170);
    assert_eq!(
        cmd.sha256().unwrap(),
        "cf9335847fcbb9d45ddd6db1fda8300afa8594c4cf658714eee892cbb3441241"
    );
}

#[test]
fn bodiless_variants_hash_empty_payload() {
    for (cmd, _) in all_variants() {
        let bodiless = matches!(
            cmd,
            Command::HeadObject
                | Command::CopyObject { .. }
                | Command::DeleteObject
                | Command::DeleteObjectTagging
                | Command::GetObject
                | Command::GetObjectTorrent
                | Command::GetObjectRange { .. }
                | Command::GetObjectTagging
                | Command::ListMultipartUploads { .. }
                | Command::ListObjects { .. }
                | Command::ListObjectsV2 { .. }
                | Command::GetBucketLocation
                | Command::PresignGet { .. }
                | Command::PresignPut { .. }
                | Command::PresignDelete { .. }
                | Command::InitiateMultipartUpload { .. }
                | Command::AbortMultipartUpload { .. }
                | Command::DeleteBucket
                | Command::ListBuckets
                | Command::PutBucketCors { .. }
                | Command::GetBucketLifecycle
                | Command::DeleteBucketLifecycle
        );
        if bodiless {
            assert_eq!(cmd.content_length().unwrap(), 0);
            assert_eq!(cmd.sha256().unwrap(), EMPTY_PAYLOAD_SHA);
        }
    }
}

#[test]
fn empty_payload_constant_is_digest_of_nothing() {
    assert_eq!(EMPTY_PAYLOAD_SHA.len(), 64);
    assert_eq!(digest_hex(b""), EMPTY_PAYLOAD_SHA);
}

#[test]
fn digest_hex_is_lowercase_hex_of_sha256() {
    assert_eq!(digest_hex(b"abc"), ABC_SHA);
}

#[test]
fn body_length_matches_digested_bytes() {
    let tags = "a=1&b=2";
    let data = manifest();
    let manifest_text = data.to_string();
    let cases: Vec<(Command, Vec<u8>)> = vec![
        (put_object(b"payload bytes", "application/octet-stream"), b"payload bytes".to_vec()),
        (Command::PutObjectTagging { tags }, tags.as_bytes().to_vec()),
        (complete(manifest()), manifest_text.as_bytes().to_vec()),
    ];
    for (cmd, body) in cases {
        assert_eq!(cmd.content_length().unwrap(), body.len());
        assert_eq!(cmd.sha256().unwrap(), digest_hex(&body));
    }
}

#[test]
fn create_bucket_in_default_region_has_no_body() {
    for cmd in [create_bucket(None), create_bucket(Some("us-east-1"))] {
        assert_eq!(cmd.content_length().unwrap(), 0);
        assert_eq!(cmd.sha256().unwrap(), EMPTY_PAYLOAD_SHA);
    }
}

#[test]
fn create_bucket_elsewhere_sends_location_constraint() {
    let config = BucketConfiguration { location_constraint: Some("eu-west-1".to_string()) };
    let payload = config.location_constraint_payload().unwrap();
    assert_eq!(
        payload,
        "<CreateBucketConfiguration><LocationConstraint>eu-west-1</LocationConstraint></CreateBucketConfiguration>"
    );
    let cmd = Command::CreateBucket { config };
    assert_eq!(cmd.content_length().unwrap(), 105);
    assert_eq!(cmd.content_length().unwrap(), payload.len());
    assert_eq!(
        cmd.sha256().unwrap(),
        "aed6303d2f78706bf45bcffd96265507d81b43f07040947f39be18d925244534"
    );
}

#[test]
fn default_configuration_has_no_payload() {
    let config = BucketConfiguration { location_constraint: None };
    assert!(config.location_constraint_payload().is_none());
}

#[test]
fn multipart_query_string() {
    assert_eq!(Multipart::new(3, "abc").query_string(), "?partNumber=3&uploadId=abc");
    assert_eq!(Multipart::new(0, "").query_string(), "?partNumber=0&uploadId=");
    assert_eq!(
        Multipart::new(4294967295, "x/y z").query_string(),
        "?partNumber=4294967295&uploadId=x/y z"
    );
}

#[test]
fn content_md5_of_empty_buffer() {
    let empty: &[u8] = b"";
    let first = ContentMd5::from(empty);
    let second = ContentMd5::from(empty);
    match (first, second) {
        (ContentMd5::Explicit(a), ContentMd5::Explicit(b)) => {
            assert_eq!(a, "1B2M2Y8AsgTpgAmY7PhCfg==");
            assert_eq!(a, b);
        }
        _ => panic!("expected an explicit digest"),
    }
}

#[test]
fn content_md5_of_bytes() {
    let body: &[u8] = b"hello";
    match ContentMd5::from(body) {
        ContentMd5::Explicit(h) => assert_eq!(h, "XUFAKrxLKna5cZ2REBfFkg=="),
        _ => panic!("expected an explicit digest"),
    }
}

#[test]
fn content_md5_defaults_to_auto() {
    assert!(matches!(ContentMd5::default(), ContentMd5::Auto));
}

#[test]
fn lifecycle_serialization_failure_is_an_error() {
    let cmd = lifecycle(Serialized::Failed(S3Error::Serialization("bad rule".to_string())));
    match cmd.content_length() {
        Err(e) => assert_eq!(e.message(), "bad rule"),
        Ok(n) => panic!("expected an error, got length {}", n),
    }
    assert!(cmd.sha256().is_err());
}

#[test]
fn lifecycle_length_and_digest() {
    let xml = "<LifecycleConfiguration><Rule><ID>r</ID></Rule></LifecycleConfiguration>";
    let cmd = lifecycle(Serialized::Xml(xml.to_string()));
    assert_eq!(cmd.content_length().unwrap(), 72);
    assert_eq!(
        cmd.sha256().unwrap(),
        "4e951cecfe584d41694a2a34eac7072e4971845fe8a7d765933be213461556da"
    );
}

#[test]
fn error_duplicate_keeps_message() {
    let e = S3Error::Serialization("oops".to_string());
    assert_eq!(e.duplicate().message(), "oops");
}
