use blahaj_site::handlers::{
    healthz, index, index_page, list_images, random_image, source_code, RMS404Handler,
    FALLBACK_IMAGE, HEALTHY, TITLE,
};
use blahaj_site::query::Query;
use blahaj_site::reply::{Body, ContentType, Reply, STATUS_NOT_FOUND, STATUS_OK};
use blahaj_site::site::Site;

const SAMPLE: &str = "<title>${title}</title>${extra_meta}<img src=\"${img}\">";

fn paths(items: &[&str]) -> Vec<String> {
    items.iter().map(|s| s.to_string()).collect()
}

fn site(images: &[&str]) -> Site {
    Site::new(SAMPLE.to_string(), paths(images), vec![0x1f, 0x8b, 0x08, 0x00]).unwrap()
}

fn query(names: &[&str]) -> Query {
    Query::Decoded(paths(names))
}

fn page(js_enabled: bool, img: &str) -> String {
    let meta = if js_enabled { "" } else { "<meta http-equiv=\"refresh\" content=\"3;/\">" };
    format!("<title>{}</title>{}<img src=\"{}\">", TITLE, meta, img)
}

#[test]
fn constants_are_the_documented_ones() {
    assert_eq!(STATUS_OK, 200);
    assert_eq!(STATUS_NOT_FOUND, 404);
    assert_eq!(HEALTHY, "healthy");
    assert_eq!(FALLBACK_IMAGE, "./static/404.jpg");
    assert_eq!(
        TITLE,
        "The best Blåhajs in the galaxy! (No official affiliation with IKEA or anyone else!)"
    );
}

#[test]
fn content_types_have_their_mime_text() {
    assert_eq!(ContentType::Html.mime(), "text/html; charset=utf-8");
    assert_eq!(ContentType::Json.mime(), "application/json");
    assert_eq!(ContentType::Gzip.mime(), "application/gzip");
}

#[test]
fn healthz_is_200_healthy() {
    let reply = healthz();
    assert_eq!(
        reply,
        Reply { status: 200, content_type: None, body: Body::Text("healthy".to_string()) }
    );
}

#[test]
fn healthz_is_repeatable() {
    assert_eq!(healthz(), healthz());
}

#[test]
fn source_code_sends_the_archive_as_gzip() {
    let reply = source_code(&site(&["/img/a.jpg"]));
    assert_eq!(
        reply,
        Reply {
            status: 200,
            content_type: Some(ContentType::Gzip),
            body: Body::Bytes(vec![0x1f, 0x8b, 0x08, 0x00]),
        }
    );
}

#[test]
fn source_code_is_repeatable() {
    let s = site(&[]);
    assert_eq!(source_code(&s), source_code(&s));
}

#[test]
fn source_code_of_empty_archive() {
    let s = Site::new(String::new(), Vec::new(), Vec::new()).unwrap();
    assert_eq!(source_code(&s).body, Body::Bytes(Vec::new()));
}

#[test]
fn list_images_sends_json() {
    let reply = list_images(&site(&["/img/a.jpg", "/img/b.jpg"]));
    assert_eq!(
        reply,
        Reply {
            status: 200,
            content_type: Some(ContentType::Json),
            body: Body::Text("[\"/img/a.jpg\",\"/img/b.jpg\"]".to_string()),
        }
    );
}

#[test]
fn list_images_decodes_to_the_index() {
    let s = site(&["/img/c.jpg", "/img/a.jpg", "/img/b.jpg"]);
    match list_images(&s).body {
        Body::Text(text) => {
            let decoded: Vec<String> = serde_json::from_str(&text).unwrap();
            assert_eq!(&decoded, s.images());
        }
        other => panic!("unexpected body {:?}", other),
    }
}

#[test]
fn random_image_is_in_the_index() {
    let s = site(&["/img/a.jpg", "/img/b.jpg", "/img/c.jpg"]);
    for _ in 0..200 {
        let img = random_image(&s);
        assert!(s.images().iter().any(|p| p == img));
    }
}

#[test]
fn random_image_of_single_picture() {
    let s = site(&["/img/only.jpg"]);
    assert_eq!(random_image(&s), "/img/only.jpg");
}

#[test]
fn random_image_reaches_every_picture() {
    let s = site(&["/img/a.jpg", "/img/b.jpg"]);
    let mut seen_a = false;
    let mut seen_b = false;
    for _ in 0..2000 {
        match random_image(&s) {
            "/img/a.jpg" => seen_a = true,
            "/img/b.jpg" => seen_b = true,
            other => panic!("not in the index: {}", other),
        }
    }
    assert!(seen_a && seen_b);
}

#[test]
fn index_page_renders_the_template() {
    let s = site(&["/img/a.jpg"]);
    assert_eq!(
        index_page(&s, false, "/img/a.jpg"),
        Reply {
            status: 200,
            content_type: Some(ContentType::Html),
            body: Body::Text(page(false, "/img/a.jpg")),
        }
    );
    assert_eq!(index_page(&s, true, "/img/a.jpg").body, Body::Text(page(true, "/img/a.jpg")));
}

#[test]
fn index_without_parameters_renders_with_refresh() {
    let s = site(&["/img/only.jpg"]);
    let reply = index(&query(&[]), &s);
    assert_eq!(reply.status, 200);
    assert_eq!(reply.content_type, Some(ContentType::Html));
    assert_eq!(reply.body, Body::Text(page(false, "/img/only.jpg")));
}

#[test]
fn index_with_js_omits_refresh() {
    let s = site(&["/img/only.jpg"]);
    let reply = index(&query(&["js"]), &s);
    assert_eq!(reply.body, Body::Text(page(true, "/img/only.jpg")));
}

#[test]
fn index_with_undecodable_query_renders_with_refresh() {
    let s = site(&["/img/only.jpg"]);
    let reply = index(&Query::Undecodable, &s);
    assert_eq!(reply.status, 200);
    assert_eq!(reply.content_type, Some(ContentType::Html));
    assert_eq!(reply.body, Body::Text(page(false, "/img/only.jpg")));
}

#[test]
fn index_with_images_lists_whatever_else_is_sent() {
    let s = site(&["/img/a.jpg", "/img/b.jpg"]);
    let expected = list_images(&s);
    assert_eq!(index(&query(&["images"]), &s), expected);
    assert_eq!(index(&query(&["js", "images"]), &s), expected);
    assert_eq!(index(&query(&["images", "js", "other"]), &s), expected);
}

#[test]
fn index_with_images_works_on_empty_index() {
    let s = site(&[]);
    assert_eq!(index(&query(&["images"]), &s).body, Body::Text("[]".to_string()));
}

#[test]
fn index_ignores_other_parameters() {
    let s = site(&["/img/only.jpg"]);
    let reply = index(&query(&["image", "JS", "Images", "x"]), &s);
    assert_eq!(reply.body, Body::Text(page(false, "/img/only.jpg")));
}

#[test]
fn index_picks_from_the_index() {
    let s = site(&["/img/a.jpg", "/img/b.jpg", "/img/c.jpg"]);
    let pages: Vec<Body> =
        s.images().iter().map(|img| Body::Text(page(true, img))).collect();
    for _ in 0..100 {
        let reply = index(&query(&["js"]), &s);
        assert!(pages.contains(&reply.body));
    }
}

#[test]
fn query_contains_key_looks_at_names_only() {
    let q = query(&["js", "images", "js"]);
    assert!(q.contains_key("js"));
    assert!(q.contains_key("images"));
    assert!(!q.contains_key("image"));
    assert!(!q.contains_key(""));
    assert!(!Query::Undecodable.contains_key("js"));
    assert!(!query(&[]).contains_key("js"));
}

#[test]
fn catch_replaces_not_found() {
    let replacement = RMS404Handler.catch(Some(404));
    assert_eq!(
        replacement,
        Some(Reply {
            status: 404,
            content_type: None,
            body: Body::File("./static/404.jpg".to_string()),
        })
    );
}

#[test]
fn catch_passes_everything_else_on() {
    assert_eq!(RMS404Handler.catch(Some(500)), None);
    assert_eq!(RMS404Handler.catch(Some(403)), None);
    assert_eq!(RMS404Handler.catch(Some(200)), None);
    assert_eq!(RMS404Handler.catch(Some(0)), None);
    assert_eq!(RMS404Handler.catch(None), None);
}

#[test]
fn pages_differ_only_in_the_picture() {
    let s = site(&["/img/a.jpg", "/img/b.jpg"]);
    for js in [false, true] {
        let a = index_page(&s, js, "/img/a.jpg");
        let b = index_page(&s, js, "/img/b.jpg");
        assert_eq!(a.status, b.status);
        assert_eq!(a.content_type, b.content_type);
        match (a.body, b.body) {
            (Body::Text(a), Body::Text(b)) => {
                assert_ne!(a, b);
                assert_eq!(a.replace("/img/a.jpg", "/img/b.jpg"), b);
            }
            other => panic!("unexpected bodies {:?}", other),
        }
    }
}

#[test]
fn index_is_repeatable_for_one_picture() {
    let s = site(&["/img/only.jpg"]);
    assert_eq!(index(&query(&["js"]), &s), index(&query(&["js"]), &s));
    assert_eq!(index(&query(&["images"]), &s), index(&query(&["images"]), &s));
}

#[test]
fn index_page_holds_one_reference_to_the_picture() {
    let s = site(&["/img/a.jpg", "/img/b.jpg"]);
    for _ in 0..50 {
        match index(&Query::Undecodable, &s).body {
            Body::Text(page) => {
                let shown: Vec<&String> =
                    s.images().iter().filter(|img| page.contains(img.as_str())).collect();
                assert_eq!(shown.len(), 1);
                assert_eq!(page.matches("<img src=\"").count(), 1);
                assert_eq!(page.matches(shown[0].as_str()).count(), 1);
                assert!(!page.contains("${"));
            }
            other => panic!("unexpected body {:?}", other),
        }
    }
}
