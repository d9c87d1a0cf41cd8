//! The part descriptor of a multipart upload, and the Content-MD5 policy of
//! an upload.
use vstd::prelude::*;
use vstd::string::*;

use crate::encoding::{base64_encode, base64_of, decimal, md5_digest, md5_of, push_decimal};

verus! {

/// Binds one uploaded part to its position and to its multipart upload.
#[derive(Clone, Debug)]
pub struct Multipart<'a> {
    part_number: u32,
    upload_id: &'a str,
}

pub struct MultipartView {
    pub part_number: u32,
    pub upload_id: Seq<char>,
}

impl<'a> View for Multipart<'a> {
    type V = MultipartView;

    closed spec fn view(&self) -> MultipartView {
        MultipartView { part_number: self.part_number, upload_id: self.upload_id@ }
    }
}

/// `?partNumber=<n>&uploadId=<id>`, the id taken as it is.
pub open spec fn multipart_query(part_number: u32, upload_id: Seq<char>) -> Seq<char> {
    "?partNumber="@ + decimal(part_number as nat) + "&uploadId="@ + upload_id
}

impl<'a> Multipart<'a> {
    /// The query-string fragment that addresses this part.
    pub fn query_string(&self) -> (r: String)
        ensures
            r@ == multipart_query(self@.part_number, self@.upload_id),
    {
        let mut s = String::from_str("?partNumber=");
        push_decimal(&mut s, self.part_number);
        s.append("&uploadId=");
        s.append(self.upload_id);
        s
    }

    pub fn new(part_number: u32, upload_id: &'a str) -> (r: Self)
        ensures
            r@ == (MultipartView { part_number, upload_id: upload_id@ }),
    {
        Multipart { part_number, upload_id }
    }
}

/// How the Content-MD5 header of an upload is supplied.
#[derive(Clone, Debug)]
pub enum ContentMd5 {
    /// A base64 digest given in advance.
    Explicit(String),
    /// No header, whatever the server expects.
    Disabled,
    /// The transport computes the digest when the server asks for it.
    Auto,
}

/// The Content-MD5 value of a body: its MD5 digest in base64.
pub open spec fn md5_header(body: Seq<u8>) -> Seq<char> {
    base64_of(md5_of(body))
}

impl Default for ContentMd5 {
    fn default() -> (r: Self)
        ensures
            r is Auto,
    {
        ContentMd5::Auto
    }
}

impl<'a> From<&'a [u8]> for ContentMd5 {
    /// The explicit digest of `value`.
    fn from(value: &'a [u8]) -> (r: Self)
        ensures
            r matches ContentMd5::Explicit(h) && h@ == md5_header(value@),
    {
        let digest = md5_digest(value);
        ContentMd5::Explicit(base64_encode(digest.as_slice()))
    }
}

/// The result holds a freshly encoded string, so it is described by the
/// `ensures` of `from` rather than by a spec value.
impl<'a> vstd::std_specs::convert::FromSpecImpl<&'a [u8]> for ContentMd5 {
    open spec fn obeys_from_spec() -> bool {
        false
    }

    open spec fn from_spec(v: &'a [u8]) -> Self {
        ContentMd5::Auto
    }
}

/// The header computed from an empty body is a 24-character base64 string,
/// the same on every conversion.
pub proof fn lemma_empty_md5_header()
    ensures
        md5_of(Seq::<u8>::empty()).len() == 16 ==> md5_header(Seq::<u8>::empty()).len() == 24,
{
    crate::encoding::lemma_base64_len(md5_of(Seq::<u8>::empty()));
}

} // verus!
