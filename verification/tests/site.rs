use blahaj_site::site::Site;

fn paths(items: &[&str]) -> Vec<String> {
    items.iter().map(|s| s.to_string()).collect()
}

#[test]
fn new_keeps_what_it_was_given() {
    let site = Site::new("<p>${img}</p>".to_string(), paths(&["/img/a.jpg"]), vec![1, 2, 3])
        .unwrap();
    assert_eq!(site.template(), "<p>${img}</p>");
    assert_eq!(site.images(), &paths(&["/img/a.jpg"]));
    assert_eq!(site.source_code(), &vec![1u8, 2, 3]);
}

#[test]
fn listing_is_the_json_array_of_the_index() {
    let site = Site::new(String::new(), paths(&["/img/a.jpg", "/img/b.png"]), Vec::new())
        .unwrap();
    assert_eq!(site.listing(), "[\"/img/a.jpg\",\"/img/b.png\"]");
}

#[test]
fn listing_of_empty_index() {
    let site = Site::new(String::new(), Vec::new(), Vec::new()).unwrap();
    assert_eq!(site.listing(), "[]");
    assert!(site.images().is_empty());
}

#[test]
fn listing_escapes_what_json_must_escape() {
    let site = Site::new(String::new(), paths(&["/img/a\"b\\c.jpg"]), Vec::new()).unwrap();
    assert_eq!(site.listing(), "[\"/img/a\\\"b\\\\c.jpg\"]");
}

#[test]
fn listing_decodes_to_the_index() {
    let index = paths(&["/img/b.jpg", "/img/a.jpg", "/img/blåhaj \"1\".jpg", "/img/a.jpg"]);
    let site = Site::new(String::new(), index.clone(), Vec::new()).unwrap();
    let decoded: Vec<String> = serde_json::from_str(site.listing()).unwrap();
    assert_eq!(decoded, index);
}
