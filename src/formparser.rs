//! Decoding of submitted forms.
use vstd::prelude::*;
use crate::datastructures::MultiDict;
use crate::text::{starts_with, starts_with_spec};
use crate::wrappers::{decode_urlencoded, dict_of_pairs, form_urlencoded_pairs, text_dict};

verus! {

pub open spec fn urlencoded_type(mimetype: Seq<char>) -> bool {
    starts_with_spec(mimetype, "application/x-www-form-urlencoded"@)
}

pub open spec fn multipart_type(mimetype: Seq<char>) -> bool {
    starts_with_spec(mimetype, "multipart/form-data"@)
}

/// Parses form bodies. A multipart body is read from the request stream by
/// the caller; this parser decodes URL-encoded bodies.
#[derive(Debug)]
pub struct FormDataParser {}

impl FormDataParser {
    pub fn new() -> (r: FormDataParser) {
        FormDataParser {}
    }

    /// Whether a body of type `mimetype` is a multipart form.
    pub fn is_multipart(&self, mimetype: &str) -> (r: bool)
        ensures
            r == multipart_type(mimetype@),
    {
        starts_with(mimetype, "multipart/form-data")
    }

    /// The fields of a body of type `mimetype`: decoded for a URL-encoded
    /// form, none for any other type.
    pub fn parse(&self, body: &[u8], mimetype: &str) -> (r: MultiDict<String>)
        ensures
            r.wf(),
            urlencoded_type(mimetype@) ==> text_dict(r@) == dict_of_pairs(form_urlencoded_pairs(body@)),
            !urlencoded_type(mimetype@) ==> r@.len() == 0,
    {
        if starts_with(mimetype, "application/x-www-form-urlencoded") {
            decode_urlencoded(body)
        } else {
            MultiDict::new()
        }
    }
}

} // verus!
