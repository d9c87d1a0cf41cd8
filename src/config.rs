//! The configuration values whose wire form some requests carry as body:
//! the completion manifest of a multipart upload and the bucket creation
//! settings.
use vstd::prelude::*;
use vstd::string::*;

use vstd::utf8::encode_utf8;

use crate::encoding::{decimal, push_decimal};
use crate::error::S3Error;

verus! {

/// One uploaded part, as the completion manifest lists it.
#[derive(Clone, Debug)]
pub struct Part {
    pub part_number: u32,
    pub etag: String,
}

/// `<Part><PartNumber>n</PartNumber><ETag>tag</ETag></Part>`.
pub open spec fn part_xml(p: Part) -> Seq<char> {
    "<Part><PartNumber>"@ + decimal(p.part_number as nat) + "</PartNumber><ETag>"@ + p.etag@
        + "</ETag></Part>"@
}

/// The parts' elements, one after another in order.
pub open spec fn parts_xml(parts: Seq<Part>) -> Seq<char>
    decreases parts.len(),
{
    if parts.len() == 0 {
        seq![]
    } else {
        parts_xml(parts.drop_last()) + part_xml(parts.last())
    }
}

/// The completion manifest: its parts wrapped in one element.
pub open spec fn manifest_xml(parts: Seq<Part>) -> Seq<char> {
    "<CompleteMultipartUpload>"@ + parts_xml(parts) + "</CompleteMultipartUpload>"@
}

/// The list of parts that completes a multipart upload.
#[derive(Clone, Debug)]
pub struct CompleteMultipartUploadData {
    pub parts: Vec<Part>,
}

impl CompleteMultipartUploadData {
    /// The manifest's XML text, which is the body of the completing request.
    pub fn to_string(&self) -> (r: String)
        ensures
            r@ == manifest_xml(self.parts@),
    {
        let mut s = String::from_str("<CompleteMultipartUpload>");
        let mut i: usize = 0;
        while i < self.parts.len()
            invariant
                i <= self.parts@.len(),
                s@ == "<CompleteMultipartUpload>"@ + parts_xml(self.parts@.subrange(0, i as int)),
            decreases self.parts@.len() - i,
        {
            let p = &self.parts[i];
            s.append("<Part><PartNumber>");
            push_decimal(&mut s, p.part_number);
            s.append("</PartNumber><ETag>");
            s.append(p.etag.as_str());
            s.append("</ETag></Part>");
            proof {
                let next = self.parts@.subrange(0, i + 1);
                assert(next.drop_last() =~= self.parts@.subrange(0, i as int));
                assert(next.last() == *p);
            }
            i = i + 1;
        }
        assert(self.parts@.subrange(0, i as int) =~= self.parts@);
        s.append("</CompleteMultipartUpload>");
        s
    }

    /// The byte length of the manifest's XML text.
    pub fn len(&self) -> (r: usize)
        ensures
            r == encode_utf8(manifest_xml(self.parts@)).len() as usize,
    {
        self.to_string().as_str().len()
    }
}

/// Settings of a bucket to create.
#[derive(Clone, Debug)]
pub struct BucketConfiguration {
    /// The region to create the bucket in; `None` is the service's default.
    pub location_constraint: Option<String>,
}

/// The name of the service's default region, which needs no location
/// constraint.
pub open spec fn default_region() -> Seq<char> {
    "us-east-1"@
}

/// The location-constraint body that creating a bucket sends: none in the
/// default region.
pub open spec fn location_payload(c: BucketConfiguration) -> Option<Seq<char>> {
    match c.location_constraint {
        Some(region) => if region@ == default_region() {
            None
        } else {
            Some(
                "<CreateBucketConfiguration><LocationConstraint>"@ + region@
                    + "</LocationConstraint></CreateBucketConfiguration>"@,
            )
        },
        None => None,
    }
}

impl BucketConfiguration {
    pub fn location_constraint_payload(&self) -> (r: Option<String>)
        ensures
            match location_payload(*self) {
                Some(p) => r matches Some(q) && q@ == p,
                None => r is None,
            },
    {
        match &self.location_constraint {
            Some(region) => {
                if *region == String::from_str("us-east-1") {
                    None
                } else {
                    let mut s = String::from_str("<CreateBucketConfiguration><LocationConstraint>");
                    s.append(region.as_str());
                    s.append("</LocationConstraint></CreateBucketConfiguration>");
                    Some(s)
                }
            },
            None => None,
        }
    }
}

} // verus!

verus! {

/// A configuration after serialization: its XML text, or the failure that
/// the serializer met.
#[derive(Clone, Debug)]
pub enum Serialized {
    Xml(String),
    Failed(S3Error),
}

/// A lifecycle configuration, in its wire form.
#[derive(Clone, Debug)]
pub struct BucketLifecycleConfiguration {
    pub serialized: Serialized,
}

/// A CORS configuration, in its wire form.
#[derive(Clone, Debug)]
pub struct CorsConfiguration {
    pub serialized: Serialized,
}

} // verus!
