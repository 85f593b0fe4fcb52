use hyper::http::uri::PathAndQuery;
use hyper::Uri;
use thebestofcmu::common::PostPath;
use thebestofcmu::response::Body;
use thebestofcmu::website::{main_page_content, request_path, RequestUri, Website, MAIN_PAGE};

/// The target of a request as the site sees it.
fn target(uri: Uri) -> RequestUri {
    RequestUri { path: uri.into_parts().path_and_query.map(|p| p.path().to_string()) }
}

fn at(path: &str) -> RequestUri {
    RequestUri { path: Some(String::from(path)) }
}

#[test]
fn post_path() {
    let website = Website { favicon: &[], kayaking_image: &[] };
    let uri = Uri::builder()
        .path_and_query(PathAndQuery::from_static("/enter-rsvp"))
        .build()
        .unwrap();
    assert_eq!(Some(PostPath::EnterRsvp), website.validate_post_path(target(uri)));
}

#[test]
fn post_path_without_slash() {
    let website = Website { favicon: &[], kayaking_image: &[] };
    assert_eq!(Some(PostPath::EnterRsvp), website.validate_post_path(at("enter-rsvp")));
}

#[test]
fn post_path_ignores_the_query() {
    let website = Website { favicon: &[], kayaking_image: &[] };
    let uri = Uri::builder()
        .path_and_query(PathAndQuery::from_static("/enter-rsvp?guest=1"))
        .build()
        .unwrap();
    assert_eq!(Some(PostPath::EnterRsvp), website.validate_post_path(target(uri)));
}

#[test]
fn other_post_paths_are_refused() {
    let website = Website { favicon: &[], kayaking_image: &[] };
    for path in
        ["/", "", "//enter-rsvp", "/enter-rsvp/", "/Enter-rsvp", "/enter", "enter-rsvp ", "/é"]
    {
        assert_eq!(None, website.validate_post_path(at(path)));
    }
    assert_eq!(None, website.validate_post_path(RequestUri { path: None }));
}

#[test]
fn request_path_defaults_to_the_root() {
    assert_eq!(request_path(&RequestUri { path: None }), "/");
    assert_eq!(request_path(&at("/favicon.ico")), "/favicon.ico");
    assert_eq!(request_path(&at("")), "");
}

#[test]
fn site_bodies() {
    let website = Website { favicon: &[1, 2, 3], kayaking_image: &[4, 5] };
    assert_eq!(website.yield_site_body(at("/")), Some(Body::Text(String::from(MAIN_PAGE))));
    assert_eq!(
        website.yield_site_body(RequestUri { path: None }),
        Some(Body::Text(String::from(MAIN_PAGE)))
    );
    assert_eq!(website.yield_site_body(at("/favicon.ico")), Some(Body::Bytes(&[1, 2, 3])));
    assert_eq!(
        website.yield_site_body(at("/kayaking-background.webp")),
        Some(Body::Bytes(&[4, 5]))
    );
    for path in ["", "/index.html", "/favicon.ico/", "favicon.ico", "/Favicon.ico", "/pkg/x.js"] {
        assert_eq!(website.yield_site_body(at(path)), None);
    }
}

#[test]
fn main_page() {
    let page = main_page_content();
    assert_eq!(page, MAIN_PAGE);
    assert!(page.starts_with("\n<!DOCTYPE html>\n<head></head>\n<body>\n<h1"));
    assert!(page.contains("<strong>Date:</strong> 3 September 2022"));
    assert!(page.contains("src=\"./kayaking-background.webp\""));
    assert!(page.ends_with("</body>\n</html>\n    "));
    assert_eq!(page.len(), 2446);
}
