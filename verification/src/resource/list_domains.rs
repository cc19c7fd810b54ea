//! The resource that lists all domains of the account, `domeneshop://domains`.
use vstd::prelude::*;

use crate::resource::{
    JSON_MIME, ResourceDescriptor, ResourceDescriptorView, TextContents, TextContentsView,
};

verus! {

pub const URI: &'static str = "domeneshop://domains";

pub open spec fn spec_descriptor() -> ResourceDescriptorView {
    ResourceDescriptorView {
        uri: URI@,
        name: "domains"@,
        title: Some("All Domeneshop domains"@),
        description: Some(
            "JSON array of all domains on the authenticated account, with id, \
             registrar status, expiry date, and enabled services."@,
        ),
        mime_type: Some(JSON_MIME@),
    }
}

pub fn descriptor() -> (r: ResourceDescriptor)
    ensures
        r@ == spec_descriptor(),
{
    ResourceDescriptor {
        uri: URI.to_owned(),
        name: "domains".to_owned(),
        title: Some("All Domeneshop domains".to_owned()),
        description: Some(
            "JSON array of all domains on the authenticated account, with id, \
             registrar status, expiry date, and enabled services.".to_owned(),
        ),
        mime_type: Some(JSON_MIME.to_owned()),
    }
}

/// The contents read from the domain list: the upstream JSON text `body`, unchanged.
pub fn contents(body: String) -> (r: Vec<TextContents>)
    ensures
        r@.len() == 1,
        r@[0]@ == (TextContentsView { uri: URI@, mime_type: Some(JSON_MIME@), text: body@ }),
{
    let mut v = Vec::new();
    v.push(TextContents { uri: URI.to_owned(), mime_type: Some(JSON_MIME.to_owned()), text: body });
    v
}

} // verus!
