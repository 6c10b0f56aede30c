//! The route table: which handler answers which request.

use vstd::prelude::*;
use crate::handlers::{
    caught, healthz, healthz_reply, index, listing_reply, page_reply, source_code, source_reply,
    FALLBACK_IMAGE, HEALTHY, TITLE,
};
use crate::query::Query;
use crate::reply::{BodyView, ContentType, Reply, ReplyView, STATUS_NOT_FOUND, STATUS_OK};
use crate::site::{json_text, Site, SiteView};
use crate::template::{
    law_no_placeholder_left, law_page_shows_picture, law_refresh_without_scripting, rendered,
    well_formed, IMG_TOKEN, META_REFRESH, META_TOKEN, TITLE_TOKEN, TOKEN_OPENER,
};
use crate::text::{contains, free_of, replace_all, same_text};

verus! {

/// Where the source archive is served.
pub const SOURCE_PATH: &'static str = "/code.tar.gz";

/// The root path, which serves the index.
pub const ROOT_PATH: &'static str = "/";

/// The older name of the index, kept for clients that still ask for it.
pub const LEGACY_INDEX_PATH: &'static str = "/index.php";

/// Where the health probe is answered.
pub const HEALTH_PATH: &'static str = "/healthz";

/// The method of a request.
#[derive(Clone, Copy, Debug, PartialEq, Eq, Structural)]
pub enum Method {
    Get,
    Head,
    Post,
    Put,
    Delete,
    Options,
    Trace,
    Connect,
    Patch,
    /// Any method that has no name above.
    Extension,
}

/// The handlers a request can be routed to.
#[derive(Clone, Copy, Debug, PartialEq, Eq, Structural)]
pub enum Route {
    SourceCode,
    Index,
    Healthz,
    /// The file server for everything beneath the static root.
    Static,
}

/// The route table. A fixed path goes before the wildcard; the health
/// probe is answered for `GET` only.
pub open spec fn route_of(method: Method, path: Seq<char>) -> Route {
    if method == Method::Get && path == HEALTH_PATH@ {
        Route::Healthz
    } else if path == SOURCE_PATH@ {
        Route::SourceCode
    } else if path == ROOT_PATH@ || path == LEGACY_INDEX_PATH@ {
        Route::Index
    } else {
        Route::Static
    }
}

/// Looks a request up in the route table.
pub fn route(method: Method, path: &str) -> (r: Route)
    ensures
        r == route_of(method, path@),
{
    if method == Method::Get && same_text(path, HEALTH_PATH) {
        Route::Healthz
    } else if same_text(path, SOURCE_PATH) {
        Route::SourceCode
    } else if same_text(path, ROOT_PATH) || same_text(path, LEGACY_INDEX_PATH) {
        Route::Index
    } else {
        Route::Static
    }
}

/// What the site reads of a request.
#[derive(Clone, Debug, PartialEq, Eq)]
pub struct Request {
    pub method: Method,
    /// The path of the URL, starting with a slash.
    pub path: String,
    pub query: Query,
}

/// What is to be done about a request.
#[derive(Clone, Debug, PartialEq, Eq)]
pub enum Action {
    /// Send this answer.
    Send(Reply),
    /// Hand the request to the file server, for the file at this path
    /// beneath the static root.
    ServeStatic(String),
}

/// An action as a mathematical value.
pub enum ActionView {
    Send(ReplyView),
    ServeStatic(Seq<char>),
}

impl View for Action {
    type V = ActionView;

    open spec fn view(&self) -> ActionView {
        match self {
            Action::Send(reply) => ActionView::Send(reply@),
            Action::ServeStatic(path) => ActionView::ServeStatic(path@),
        }
    }
}

/// The request is answered with a page, for which a picture is picked.
pub open spec fn picks_image(req: Request) -> bool {
    route_of(req.method, req.path@) == Route::Index && !req.query.wants_listing()
}

/// What is done about `req`, where `pick` is the picture that was picked
/// for it, if one was.
pub open spec fn answer(site: SiteView, req: Request, pick: Option<Seq<char>>) -> ActionView {
    match route_of(req.method, req.path@) {
        Route::Healthz => ActionView::Send(healthz_reply()),
        Route::SourceCode => ActionView::Send(source_reply(site.source_code)),
        Route::Index => if req.query.wants_listing() {
            ActionView::Send(listing_reply(json_text(site.images).unwrap()))
        } else {
            ActionView::Send(
                page_reply(
                    rendered(site.template, TITLE@, req.query.js_enabled(), pick.unwrap()),
                ),
            )
        },
        Route::Static => ActionView::ServeStatic(req.path@),
    }
}

/// Decides what is done about a request. Exactly one handler runs.
pub fn handle(site: &Site, req: &Request) -> (action: Action)
    requires
        picks_image(*req) ==> site@.images.len() > 0,
    ensures
        picks_image(*req) ==> exists|img: Seq<char>|
            #![trigger site@.images.contains(img)]
            site@.images.contains(img) && action@ == answer(site@, *req, Some(img)),
        !picks_image(*req) ==> action@ == answer(site@, *req, None),
{
    match route(req.method, req.path.as_str()) {
        Route::Healthz => Action::Send(healthz()),
        Route::SourceCode => Action::Send(source_code(site)),
        Route::Index => Action::Send(index(&req.query, site)),
        Route::Static => Action::ServeStatic(req.path.clone()),
    }
}

/// The request asks for the index, by either of its paths.
pub open spec fn asks_for_index(req: Request) -> bool {
    req.path@ == ROOT_PATH@ || req.path@ == LEGACY_INDEX_PATH@
}

/// The four fixed paths are four different paths.
proof fn lemma_paths_differ()
    ensures
        HEALTH_PATH@ != SOURCE_PATH@,
        HEALTH_PATH@ != ROOT_PATH@,
        HEALTH_PATH@ != LEGACY_INDEX_PATH@,
        SOURCE_PATH@ != ROOT_PATH@,
        SOURCE_PATH@ != LEGACY_INDEX_PATH@,
{
    reveal_strlit("/healthz");
    reveal_strlit("/code.tar.gz");
    reveal_strlit("/");
    reveal_strlit("/index.php");
    assert(HEALTH_PATH@.len() == 8);
    assert(SOURCE_PATH@.len() == 12);
    assert(ROOT_PATH@.len() == 1);
    assert(LEGACY_INDEX_PATH@.len() == 10);
}

/// The title holds no dollar sign.
proof fn lemma_title_is_plain()
    ensures
        free_of(TITLE@, '$'),
{
    reveal_strlit(
        "The best Blåhajs in the galaxy! (No official affiliation with IKEA or anyone else!)",
    );
}

/// A request for the index without an `images` parameter is answered, for
/// any method, with status 200 and an HTML page: the template rendered
/// with the site's title, the refresh tag unless a `js` parameter was
/// sent, and the picture that was picked.
pub proof fn law_index_renders_page(site: SiteView, req: Request, img: Seq<char>)
    requires
        asks_for_index(req),
        !req.query.wants_listing(),
    ensures
        picks_image(req),
        answer(site, req, Some(img)) == ActionView::Send(
            ReplyView {
                status: STATUS_OK,
                content_type: Some(ContentType::Html),
                body: BodyView::Text(
                    rendered(site.template, TITLE@, req.query.js_enabled(), img),
                ),
            },
        ),
{
    lemma_paths_differ();
}

/// The page that answers a request for the index holds no placeholder any
/// more, if every dollar sign of the template opens a placeholder and the
/// path of the picture holds none.
pub proof fn law_index_page_is_resolved(site: SiteView, req: Request, img: Seq<char>)
    requires
        asks_for_index(req),
        !req.query.wants_listing(),
        well_formed(site.template),
        free_of(img, '$'),
    ensures
        answer(site, req, Some(img)) matches ActionView::Send(reply)
            && reply.body matches BodyView::Text(page) && !contains(page, TOKEN_OPENER@),
{
    law_index_renders_page(site, req, img);
    lemma_title_is_plain();
    law_no_placeholder_left(site.template, TITLE@, req.query.js_enabled(), img);
}

/// The page that answers a request for the index holds the path of the
/// picture that was picked, if the template holds the picture placeholder.
pub proof fn law_index_page_shows_picture(site: SiteView, req: Request, img: Seq<char>)
    requires
        asks_for_index(req),
        !req.query.wants_listing(),
        contains(site.template, IMG_TOKEN@),
    ensures
        answer(site, req, Some(img)) matches ActionView::Send(reply)
            && reply.body matches BodyView::Text(page) && contains(page, img),
{
    law_index_renders_page(site, req, img);
    law_page_shows_picture(site.template, TITLE@, req.query.js_enabled(), img);
}

/// A request for the index with an `images` parameter is answered, for
/// any method and whatever else was sent, with status 200 and the JSON text
/// of the image index. No picture is picked.
pub proof fn law_index_lists_images(site: SiteView, req: Request, pick: Option<Seq<char>>)
    requires
        asks_for_index(req),
        req.query.wants_listing(),
    ensures
        !picks_image(req),
        answer(site, req, pick) == ActionView::Send(
            ReplyView {
                status: STATUS_OK,
                content_type: Some(ContentType::Json),
                body: BodyView::Text(json_text(site.images).unwrap()),
            },
        ),
{
    lemma_paths_differ();
}

/// A query that could not be decoded counts as one without a `js`
/// parameter. Without that parameter the page is rendered with the refresh
/// tag, and holds it if the template holds the extra-meta placeholder;
/// with the parameter the placeholder is replaced by nothing.
pub proof fn law_refresh_follows_scripting(site: SiteView, req: Request, img: Seq<char>)
    requires
        asks_for_index(req),
        !req.query.wants_listing(),
    ensures
        req.query is Undecodable ==> !req.query.js_enabled(),
        answer(site, req, Some(img)) matches ActionView::Send(reply)
            && reply.body matches BodyView::Text(page) && page == replace_all(
            replace_all(
                replace_all(site.template, TITLE_TOKEN@, TITLE@),
                META_TOKEN@,
                if req.query.js_enabled() {
                    Seq::empty()
                } else {
                    META_REFRESH@
                },
            ),
            IMG_TOKEN@,
            img,
        ) && (!req.query.js_enabled() && contains(site.template, META_TOKEN@) ==> contains(
            page,
            META_REFRESH@,
        )),
{
    law_index_renders_page(site, req, img);
    if contains(site.template, META_TOKEN@) {
        law_refresh_without_scripting(site.template, TITLE@, img);
    }
}

/// A request for any path but the fixed ones goes to the file server, and
/// a "not found" from there is answered with the fallback picture, still
/// with status 404. A failure with any other status passes on as it is.
pub proof fn law_missing_file_gets_fallback(
    site: SiteView,
    req: Request,
    pick: Option<Seq<char>>,
    status: Option<u16>,
)
    requires
        req.path@ != SOURCE_PATH@,
        req.path@ != ROOT_PATH@,
        req.path@ != LEGACY_INDEX_PATH@,
        req.path@ != HEALTH_PATH@,
    ensures
        answer(site, req, pick) == ActionView::ServeStatic(req.path@),
        status == Some(STATUS_NOT_FOUND) ==> caught(status) == Some(
            ReplyView {
                status: STATUS_NOT_FOUND,
                content_type: None,
                body: BodyView::File(FALLBACK_IMAGE@),
            },
        ),
        status != Some(STATUS_NOT_FOUND) ==> caught(status) is None,
{
}

/// A `GET` request for the health path is answered with status 200 and
/// the body `healthy`, whatever the site holds and whatever the query.
pub proof fn law_healthz_is_healthy(site: SiteView, req: Request, pick: Option<Seq<char>>)
    requires
        req.method == Method::Get,
        req.path@ == HEALTH_PATH@,
    ensures
        !picks_image(req),
        answer(site, req, pick) == ActionView::Send(
            ReplyView { status: STATUS_OK, content_type: None, body: BodyView::Text(HEALTHY@) },
        ),
{
}

/// A request for the source path is answered, for any method, with status
/// 200, the gzip content type and the bytes of the archive, all of them:
/// the body is empty only where the archive is.
pub proof fn law_source_code_is_archive(site: SiteView, req: Request, pick: Option<Seq<char>>)
    requires
        req.path@ == SOURCE_PATH@,
    ensures
        !picks_image(req),
        answer(site, req, pick) == ActionView::Send(
            ReplyView {
                status: STATUS_OK,
                content_type: Some(ContentType::Gzip),
                body: BodyView::Bytes(site.source_code),
            },
        ),
        site.source_code.len() > 0 ==> (answer(site, req, pick) matches ActionView::Send(reply)
            && reply.body matches BodyView::Bytes(bytes) && bytes.len() > 0),
{
    lemma_paths_differ();
}

/// What is done about a request depends on the site and the request, and
/// on nothing else but the picture that was picked, where one was. So the
/// same request is answered the same way each time, and two pages for the
/// same request differ only in the path that was rendered into them.
pub proof fn law_answers_repeat(
    site: SiteView,
    req: Request,
    first: Option<Seq<char>>,
    second: Option<Seq<char>>,
)
    ensures
        !picks_image(req) ==> answer(site, req, first) == answer(site, req, second),
        picks_image(req) ==> answer(site, req, first) == ActionView::Send(
            page_reply(rendered(site.template, TITLE@, req.query.js_enabled(), first.unwrap())),
        ) && answer(site, req, second) == ActionView::Send(
            page_reply(rendered(site.template, TITLE@, req.query.js_enabled(), second.unwrap())),
        ),
{
}

} // verus!
