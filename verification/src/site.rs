//! What the site holds from start to end: the page template, the image
//! index with its JSON listing, and the source archive.

use vstd::prelude::*;

verus! {

/// serde_json's error type; nothing is read from it here.
#[verifier::external_type_specification]
#[verifier::external_body]
pub struct ExJsonError(serde_json::Error);

/// What `serde_json::to_string` gives for a list of strings: the JSON text
/// of the array, or `None` where it reports an error.
pub uninterp spec fn json_text(items: Seq<Seq<char>>) -> Option<Seq<char>>;

/// Calls `serde_json::to_string` on the list. The outcome depends on the
/// strings alone, so it is named rather than described: `json_text`.
#[verifier::external_body]
fn to_json(items: &Vec<String>) -> (r: Result<String, serde_json::Error>)
    ensures
        match r {
            Ok(text) => json_text(items.deep_view()) == Some(text@),
            Err(_) => json_text(items.deep_view()) is None,
        },
{
    serde_json::to_string(items)
}

/// Why a site could not be set up.
#[derive(Clone, Copy, Debug, PartialEq, Eq, Structural)]
pub enum SiteError {
    /// The image index could not be written as JSON.
    Listing,
}

/// The site's fixed data. Built once; nothing changes it afterwards.
pub struct Site {
    template: String,
    images: Vec<String>,
    listing: String,
    source_code: Vec<u8>,
}

/// A site as a mathematical value. The listing is not part of it: it is
/// always the JSON text of `images`.
pub struct SiteView {
    pub template: Seq<char>,
    pub images: Seq<Seq<char>>,
    pub source_code: Seq<u8>,
}

impl View for Site {
    type V = SiteView;

    closed spec fn view(&self) -> SiteView {
        SiteView {
            template: self.template@,
            images: self.images.deep_view(),
            source_code: self.source_code@,
        }
    }
}

impl Site {
    #[verifier::type_invariant]
    spec fn listing_is_current(self) -> bool {
        json_text(self.images.deep_view()) == Some(self.listing@)
    }

    /// Sets the site up from a template, an image index and the bytes of
    /// the source archive. Fails exactly when the index has no JSON text.
    pub fn new(template: String, images: Vec<String>, source_code: Vec<u8>) -> (r: Result<
        Site,
        SiteError,
    >)
        ensures
            match r {
                Ok(site) => json_text(images.deep_view()) is Some && site@ == (SiteView {
                    template: template@,
                    images: images.deep_view(),
                    source_code: source_code@,
                }),
                Err(e) => json_text(images.deep_view()) is None && e == SiteError::Listing,
            },
    {
        match to_json(&images) {
            Ok(listing) => Ok(Site { template, images, listing, source_code }),
            Err(_) => Err(SiteError::Listing),
        }
    }

    /// The page template.
    pub fn template(&self) -> (t: &str)
        ensures
            t@ == self@.template,
    {
        self.template.as_str()
    }

    /// The image index: web paths, in the order in which they were found.
    pub fn images(&self) -> (paths: &Vec<String>)
        ensures
            paths.deep_view() == self@.images,
    {
        &self.images
    }

    /// The JSON text of the image index.
    pub fn listing(&self) -> (text: &str)
        ensures
            json_text(self@.images) == Some(text@),
    {
        proof {
            use_type_invariant(self);
        }
        self.listing.as_str()
    }

    /// The bytes of the source archive.
    pub fn source_code(&self) -> (bytes: &Vec<u8>)
        ensures
            bytes@ == self@.source_code,
    {
        &self.source_code
    }
}

} // verus!
