//! The binary object model: a "blob-like" capability over host-owned byte
//! sequences, with two concrete variants — an anonymous binary object and a
//! named file — plus the content builder that normalizes heterogeneous input
//! into a single host-representable content value.
//!
//! The host runtime owns the bytes themselves; this model carries exactly
//! what the logic reads from a handle: the reported byte length, the declared
//! content type, and for files the name and last-modified timestamp. Slicing
//! is therefore specified over those attributes: a slice of `[start, end)`
//! has length `end - start`, and slicing a named file reconstructs the name,
//! declared content type and timestamp around the sliced range.

use vstd::prelude::*;

use crate::safe_int::from_u128;
use crate::safe_int::from_u64;
use crate::safe_int::MAX_SAFE_INTEGER;
use vstd::string::StringSliceAdditionalSpecFns;

verus! {

/// The declared content type string did not parse as a structured media
/// type. This is recoverable and independent of the read pipeline.
#[derive(Clone, Copy, PartialEq, Eq, Debug)]
pub struct MimeParseError;

/// Whether the `mime` crate's parser accepts a string as a well-formed media
/// type. The outcome depends on the characters alone.
pub uninterp spec fn media_type_parses(s: Seq<char>) -> bool;

#[verifier::external_type_specification]
#[verifier::external_body]
pub struct ExMime(mime::Mime);

#[verifier::external_type_specification]
#[verifier::external_body]
pub struct ExMimeFromStrError(mime::FromStrError);

/// Relies on `mime`'s `FromStr` implementation for `Mime`: whether a string
/// parses is a function of the characters alone, and the empty string is
/// always refused (its parser demands a type/subtype pair).
#[verifier::external_body]
fn parse_media_type(s: &str) -> (r: Result<mime::Mime, mime::FromStrError>)
    ensures
        r is Ok <==> media_type_parses(s@),
        s@.len() == 0 ==> r is Err,
{
    s.parse()
}

/// A single host-representable content value, normalized from text, raw
/// bytes, an existing binary object, or a raw host buffer. The model carries
/// the one attribute the construction logic reads from it: the byte length
/// the host will report for an object built from it.
#[derive(Clone, Copy, Debug)]
pub struct BlobContents {
    size: u64,
}

impl BlobContents {
    /// The byte length of the normalized content value.
    pub closed spec fn spec_size(&self) -> u64 {
        self.size
    }

    fn from_raw(size: u64) -> (r: BlobContents)
        ensures
            r.spec_size() == size,
    {
        BlobContents { size }
    }

    /// Content from a text string; the host stores its UTF-8 encoding, so
    /// the reported length is the length of that encoding.
    pub fn from_text(text: &str) -> (r: BlobContents)
        ensures
            text.spec_bytes().len() <= usize::MAX ==> r.spec_size() == text.spec_bytes().len(),
    {
        BlobContents::from_raw(text.len() as u64)
    }

    /// Content from a raw byte slice.
    pub fn from_bytes(bytes: &[u8]) -> (r: BlobContents)
        ensures
            r.spec_size() == bytes@.len(),
    {
        BlobContents::from_raw(bytes.len() as u64)
    }

    /// Content from an existing binary object, unwrapped to its underlying
    /// host handle.
    pub fn from_blob(blob: Blob) -> (r: BlobContents)
        ensures
            r.spec_size() == blob.spec_size(),
    {
        let size = blob.size();
        BlobContents::from_raw(size)
    }

    /// Content from an existing named file, unwrapped to its underlying host
    /// handle.
    pub fn from_file(file: File) -> (r: BlobContents)
        ensures
            r.spec_size() == file.spec_size(),
    {
        let size = file.size();
        BlobContents::from_raw(size)
    }

    /// Content from a raw host buffer, given by the byte vector it holds.
    pub fn from_buffer(buffer: Vec<u8>) -> (r: BlobContents)
        ensures
            r.spec_size() == buffer@.len(),
    {
        BlobContents::from_raw(buffer.len() as u64)
    }

    /// The byte length the host will report for an object built from this
    /// content.
    pub fn size(&self) -> (r: u64)
        ensures
            r == self.spec_size(),
    {
        self.size
    }
}

/// The blob-like capability: a reported byte length, a declared content
/// type, and byte-range slicing that yields a new instance of the same
/// concrete variant.
pub trait BlobLike: Sized {
    /// The byte length the host reports for the underlying object.
    spec fn spec_size(&self) -> u64;

    /// The declared content type the host reports, verbatim; empty when
    /// unset.
    spec fn spec_media_type(&self) -> Seq<char>;

    /// Every host-reported attribute that crosses the numeric boundary lies
    /// within the safely representable range.
    spec fn wf(&self) -> bool;

    /// The host-reported byte length as an unsigned integer; never fails.
    fn size(&self) -> (r: u64)
        ensures
            r == self.spec_size(),
    ;

    /// The host-reported declared content type string, verbatim (empty if
    /// unset).
    fn raw_mime_type(&self) -> (r: String)
        ensures
            r@ == self.spec_media_type(),
    ;

    /// The declared content type reinterpreted as a structured media type;
    /// fails with a parse error exactly when the string is not well formed.
    fn mime_type(&self) -> (r: Result<mime::Mime, MimeParseError>)
        ensures
            r is Ok <==> media_type_parses(self.spec_media_type()),
            self.spec_media_type().len() == 0 ==> r is Err,
    ;

    /// The underlying anonymous binary object.
    fn as_raw(&self) -> (r: &Blob)
        ensures
            r.spec_size() == self.spec_size(),
            r.spec_media_type() == self.spec_media_type(),
            self.wf() ==> r.wf(),
    ;

    /// A new object of the same concrete variant over the byte range
    /// `[start, end)` of the same underlying data; its length is exactly
    /// `end - start`.
    fn slice(&self, start: u64, end: u64) -> (r: Self)
        requires
            self.wf(),
            start <= end,
            end <= self.spec_size(),
        ensures
            r.wf(),
            r.spec_size() == end - start,
    ;
}

/// An anonymous binary object: an opaque, host-owned byte sequence with a
/// reported length and a declared content type.
#[derive(Clone, Debug)]
pub struct Blob {
    size: u64,
    media_type: String,
}

/// Asks the host to slice the byte range `[start, end)` out of a binary
/// object, bridging both bounds through the numeric bridge first. The host
/// reports length `end - start` for the result and leaves its declared
/// content type unset.
fn blob_slice(blob: &Blob, start: u64, end: u64) -> (r: Blob)
    requires
        blob.wf(),
        start <= end,
        end <= blob.spec_size(),
    ensures
        r.wf(),
        r.spec_size() == end - start,
        r.spec_media_type() == Seq::<char>::empty(),
{
    match (from_u64(start), from_u64(end)) {
        (Ok(bridged_start), Ok(bridged_end)) => {
            let size = bridged_end.value() - bridged_start.value();
            let r = Blob { size, media_type: String::new() };
            r
        },
        _ => unreached(),
    }
}

impl Blob {
    /// The byte length the host reports for this object.
    pub closed spec fn spec_size(&self) -> u64 {
        self.size
    }

    /// The declared content type the host reports, verbatim.
    pub closed spec fn spec_media_type(&self) -> Seq<char> {
        self.media_type@
    }

    /// A binary object is well formed when its reported length lies within
    /// the host's safely representable integer range.
    pub open spec fn wf(&self) -> bool {
        self.spec_size() <= MAX_SAFE_INTEGER
    }

    /// Builds a single-part binary object from normalized content, with no
    /// explicit declared type (the host leaves it empty).
    pub fn new(content: BlobContents) -> (r: Blob)
        requires
            content.spec_size() <= MAX_SAFE_INTEGER,
        ensures
            r.wf(),
            r.spec_size() == content.spec_size(),
            r.spec_media_type() == Seq::<char>::empty(),
    {
        Blob { size: content.size(), media_type: String::new() }
    }

    /// Builds a single-part binary object from normalized content with an
    /// explicit declared content type.
    pub fn new_with_options(content: BlobContents, mime_type: String) -> (r: Blob)
        requires
            content.spec_size() <= MAX_SAFE_INTEGER,
        ensures
            r.wf(),
            r.spec_size() == content.spec_size(),
            r.spec_media_type() == mime_type@,
    {
        Blob { size: content.size(), media_type: mime_type }
    }

    /// Wraps an existing host handle, given the byte length and declared
    /// content type the host reports for it.
    pub fn from_raw(size: u64, media_type: String) -> (r: Blob)
        requires
            size <= MAX_SAFE_INTEGER,
        ensures
            r.wf(),
            r.spec_size() == size,
            r.spec_media_type() == media_type@,
    {
        Blob { size, media_type }
    }
}

impl BlobLike for Blob {
    open spec fn spec_size(&self) -> u64 {
        self.spec_size()
    }

    open spec fn spec_media_type(&self) -> Seq<char> {
        self.spec_media_type()
    }

    open spec fn wf(&self) -> bool {
        self.wf()
    }

    fn size(&self) -> (r: u64) {
        self.size
    }

    fn raw_mime_type(&self) -> (r: String) {
        self.media_type.clone()
    }

    fn mime_type(&self) -> (r: Result<mime::Mime, MimeParseError>) {
        match parse_media_type(self.media_type.as_str()) {
            Ok(parsed) => Ok(parsed),
            Err(_) => Err(MimeParseError),
        }
    }

    fn as_raw(&self) -> (r: &Blob) {
        self
    }

    /// An anonymous object slices to an anonymous object whose declared
    /// content type the host leaves unset.
    fn slice(&self, start: u64, end: u64) -> (r: Self)
        ensures
            r.spec_media_type() == Seq::<char>::empty(),
    {
        blob_slice(self, start, end)
    }
}

/// A named file: a binary object plus a name and a last-modified timestamp
/// in milliseconds since the epoch.
#[derive(Clone, Debug)]
pub struct File {
    blob: Blob,
    name: String,
    last_modified: u64,
}

impl File {
    /// The byte length the host reports for this file.
    pub open spec fn spec_size(&self) -> u64 {
        self.spec_blob().spec_size()
    }

    /// The declared content type the host reports for this file.
    pub open spec fn spec_media_type(&self) -> Seq<char> {
        self.spec_blob().spec_media_type()
    }

    /// The underlying anonymous binary object.
    pub closed spec fn spec_blob(&self) -> Blob {
        self.blob
    }

    /// The file's name.
    pub closed spec fn spec_name(&self) -> Seq<char> {
        self.name@
    }

    /// The file's last-modified timestamp, in milliseconds since the epoch.
    pub closed spec fn spec_last_modified(&self) -> u64 {
        self.last_modified
    }

    /// A file is well formed when its reported length and its timestamp both
    /// lie within the host's safely representable integer range.
    pub open spec fn wf(&self) -> bool {
        self.spec_blob().wf() && self.spec_last_modified() <= MAX_SAFE_INTEGER
    }

    /// Builds a named file from normalized content, with no explicit
    /// declared type; the host assigns the creation time as the
    /// last-modified timestamp, a default this model leaves unspecified.
    pub fn new(name: String, contents: BlobContents) -> (r: File)
        requires
            contents.spec_size() <= MAX_SAFE_INTEGER,
        ensures
            r.wf(),
            r.spec_size() == contents.spec_size(),
            r.spec_media_type() == Seq::<char>::empty(),
            r.spec_name() == name@,
    {
        File { blob: Blob::new(contents), name, last_modified: 0 }
    }

    /// Builds a named file from normalized content, applying the declared
    /// content type and the last-modified timestamp (in milliseconds since
    /// the epoch) when present; an absent option defers to the host default:
    /// an empty type, and a creation-time timestamp this model leaves
    /// unspecified. A timestamp is bridged through the numeric bridge and
    /// must therefore fit the safely representable range.
    pub fn new_with_options(
        name: String,
        contents: BlobContents,
        mime_type: Option<String>,
        last_modified_since_epoch: Option<u128>,
    ) -> (r: File)
        requires
            contents.spec_size() <= MAX_SAFE_INTEGER,
            last_modified_since_epoch matches Some(ms) ==> ms <= MAX_SAFE_INTEGER as u128,
        ensures
            r.wf(),
            r.spec_size() == contents.spec_size(),
            r.spec_name() == name@,
            (mime_type matches Some(t) ==> r.spec_media_type() == t@),
            (mime_type is None ==> r.spec_media_type() == Seq::<char>::empty()),
            (last_modified_since_epoch matches Some(ms) ==> r.spec_last_modified() == ms),
    {
        let media_type = match mime_type {
            Some(t) => t,
            None => String::new(),
        };
        let last_modified: u64 = match last_modified_since_epoch {
            Some(ms) => match from_u128(ms) {
                Ok(bridged) => bridged.value(),
                Err(_) => unreached(),
            },
            None => 0,
        };
        File {
            blob: Blob::from_raw(contents.size(), media_type),
            name,
            last_modified,
        }
    }

    /// Wraps an existing host file handle, given the attributes the host
    /// reports for it.
    pub fn from_raw(name: String, size: u64, media_type: String, last_modified: u64) -> (r: File)
        requires
            size <= MAX_SAFE_INTEGER,
            last_modified <= MAX_SAFE_INTEGER,
        ensures
            r.wf(),
            r.spec_size() == size,
            r.spec_media_type() == media_type@,
            r.spec_name() == name@,
            r.spec_last_modified() == last_modified,
    {
        File { blob: Blob::from_raw(size, media_type), name, last_modified }
    }

    /// The file's name.
    pub fn name(&self) -> (r: String)
        ensures
            r@ == self.spec_name(),
    {
        self.name.clone()
    }

    /// The file's last-modified timestamp, in milliseconds since the epoch.
    pub fn last_modified_since_epoch(&self) -> (r: u64)
        ensures
            r == self.spec_last_modified(),
    {
        self.last_modified
    }

    /// The host-reported byte length.
    pub fn size(&self) -> (r: u64)
        ensures
            r == self.spec_size(),
    {
        self.blob.size
    }
}

impl BlobLike for File {
    open spec fn spec_size(&self) -> u64 {
        self.spec_size()
    }

    open spec fn spec_media_type(&self) -> Seq<char> {
        self.spec_media_type()
    }

    open spec fn wf(&self) -> bool {
        self.wf()
    }

    fn size(&self) -> (r: u64) {
        self.blob.size
    }

    fn raw_mime_type(&self) -> (r: String) {
        self.blob.media_type.clone()
    }

    fn mime_type(&self) -> (r: Result<mime::Mime, MimeParseError>) {
        match parse_media_type(self.blob.media_type.as_str()) {
            Ok(parsed) => Ok(parsed),
            Err(_) => Err(MimeParseError),
        }
    }

    fn as_raw(&self) -> (r: &Blob) {
        &self.blob
    }

    /// A named file slices to a named file: the host slice primitive only
    /// understands raw byte ranges, so the file variant reconstructs a new
    /// file around the sliced range, carrying across the name, the declared
    /// content type (mapped through as absent when it is the empty string)
    /// and the last-modified timestamp.
    fn slice(&self, start: u64, end: u64) -> (r: Self)
        ensures
            r.spec_name() == self.spec_name(),
            r.spec_last_modified() == self.spec_last_modified(),
            r.spec_media_type() == self.spec_media_type(),
    {
        let blob = blob_slice(self.as_raw(), start, end);

        let raw_mime_type = self.raw_mime_type();

        let mime_type = if raw_mime_type.as_str().is_empty() {
            None
        } else {
            Some(raw_mime_type)
        };

        let last_modified = self.last_modified_since_epoch();

        File::new_with_options(
            self.name(),
            BlobContents::from_blob(blob),
            mime_type,
            Some(last_modified as u128),
        )
    }
}

} // verus!
