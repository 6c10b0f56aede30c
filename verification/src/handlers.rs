//! The handlers: one function for each thing the site can answer with.

use vstd::prelude::*;
use crate::query::{Query, IMAGES_PARAM, JS_PARAM};
use crate::reply::{Body, BodyView, ContentType, Reply, ReplyView, STATUS_NOT_FOUND, STATUS_OK};
use crate::site::{json_text, Site};
use crate::template::{render, rendered};

verus! {

/// Title of the page.
pub const TITLE: &'static str =
    "The best Blåhajs in the galaxy! (No official affiliation with IKEA or anyone else!)";

/// Body of the answer to a health probe.
pub const HEALTHY: &'static str = "healthy";

/// The picture that is sent in place of anything that is not there.
pub const FALLBACK_IMAGE: &'static str = "./static/404.jpg";

/// The answer to a health probe.
pub open spec fn healthz_reply() -> ReplyView {
    ReplyView { status: STATUS_OK, content_type: None, body: BodyView::Text(HEALTHY@) }
}

/// The answer that carries the source archive.
pub open spec fn source_reply(archive: Seq<u8>) -> ReplyView {
    ReplyView {
        status: STATUS_OK,
        content_type: Some(ContentType::Gzip),
        body: BodyView::Bytes(archive),
    }
}

/// The answer that carries the JSON listing.
pub open spec fn listing_reply(listing: Seq<char>) -> ReplyView {
    ReplyView {
        status: STATUS_OK,
        content_type: Some(ContentType::Json),
        body: BodyView::Text(listing),
    }
}

/// The answer that carries a rendered page.
pub open spec fn page_reply(page: Seq<char>) -> ReplyView {
    ReplyView {
        status: STATUS_OK,
        content_type: Some(ContentType::Html),
        body: BodyView::Text(page),
    }
}

/// The answer sent in place of a "not found": the fallback picture, still
/// marked as not found.
pub open spec fn fallback_reply() -> ReplyView {
    ReplyView {
        status: STATUS_NOT_FOUND,
        content_type: None,
        body: BodyView::File(FALLBACK_IMAGE@),
    }
}

/// Answers a health probe. The answer is always the same.
pub fn healthz() -> (reply: Reply)
    ensures
        reply@ == healthz_reply(),
{
    Reply { status: STATUS_OK, content_type: None, body: Body::Text(HEALTHY.to_owned()) }
}

/// Answers with the source archive, byte for byte.
pub fn source_code(site: &Site) -> (reply: Reply)
    ensures
        reply@ == source_reply(site@.source_code),
{
    let bytes = site.source_code().clone();
    Reply { status: STATUS_OK, content_type: Some(ContentType::Gzip), body: Body::Bytes(bytes) }
}

/// Answers with the JSON listing of the image index.
pub fn list_images(site: &Site) -> (reply: Reply)
    ensures
        json_text(site@.images) is Some,
        reply@ == listing_reply(json_text(site@.images).unwrap()),
{
    Reply {
        status: STATUS_OK,
        content_type: Some(ContentType::Json),
        body: Body::Text(site.listing().to_owned()),
    }
}

/// Calls `Rng::choose` of rand on the generator of the running thread.
/// It gives `None` for an empty list and otherwise one of the items; which
/// one is left open. The generator is seeded by the system when a thread
/// first asks for it.
#[verifier::external_body]
fn pick_one<'a>(items: &'a Vec<String>) -> (picked: Option<&'a String>)
    ensures
        items.len() == 0 ==> picked is None,
        items.len() > 0 ==> picked is Some,
        picked matches Some(item) ==> items.deep_view().contains(item@),
{
    rand::Rng::choose(&mut rand::thread_rng(), items)
}

/// Picks one picture of the index at random.
pub fn random_image(site: &Site) -> (img: &str)
    requires
        site@.images.len() > 0,
    ensures
        site@.images.contains(img@),
{
    let picked = pick_one(site.images());
    picked.unwrap().as_str()
}

/// Answers with the page that shows the picture at `img`.
pub fn index_page(site: &Site, js_enabled: bool, img: &str) -> (reply: Reply)
    ensures
        reply@ == page_reply(rendered(site@.template, TITLE@, js_enabled, img@)),
{
    let page = render(site.template(), TITLE, js_enabled, img);
    Reply { status: STATUS_OK, content_type: Some(ContentType::Html), body: Body::Text(page) }
}

/// Answers a request for the index: with the JSON listing if the query asks
/// for it, otherwise with the page for a picture picked at random. A query
/// that could not be decoded counts as one without parameters.
pub fn index(query: &Query, site: &Site) -> (reply: Reply)
    requires
        !query.wants_listing() ==> site@.images.len() > 0,
    ensures
        query.wants_listing() ==> json_text(site@.images) is Some && reply@ == listing_reply(
            json_text(site@.images).unwrap(),
        ),
        !query.wants_listing() ==> exists|img: Seq<char>|
            #![trigger site@.images.contains(img)]
            site@.images.contains(img) && reply@ == page_reply(
                rendered(site@.template, TITLE@, query.js_enabled(), img),
            ),
{
    if query.contains_key(IMAGES_PARAM) {
        return list_images(site);
    }
    let js_enabled = query.contains_key(JS_PARAM);
    let img = random_image(site);
    index_page(site, js_enabled, img)
}

/// What takes the place of a failure with this status, if anything does.
pub open spec fn caught(status: Option<u16>) -> Option<ReplyView> {
    if status == Some(STATUS_NOT_FOUND) {
        Some(fallback_reply())
    } else {
        None
    }
}

/// Turns a "not found" into the fallback picture.
pub struct RMS404Handler;

impl RMS404Handler {
    /// Looks at the status of a failed request. For "not found" the answer
    /// to send instead is returned; for anything else `None`, and the
    /// failure passes on as it is.
    pub fn catch(&self, status: Option<u16>) -> (replacement: Option<Reply>)
        ensures
            match replacement {
                Some(reply) => caught(status) == Some(reply@),
                None => caught(status) is None,
            },
    {
        match status {
            Some(code) => {
                if code == STATUS_NOT_FOUND {
                    Some(
                        Reply {
                            status: STATUS_NOT_FOUND,
                            content_type: None,
                            body: Body::File(FALLBACK_IMAGE.to_owned()),
                        },
                    )
                } else {
                    None
                }
            },
            None => None,
        }
    }
}

} // verus!
