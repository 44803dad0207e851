use image_server::Body;
use image_server::Catalog;
use image_server::ContentType;
use image_server::ResponseDecision;
use image_server::handle_get_image;
use image_server::handle_random_redirect;
use image_server::render;
use image_server::render_redirect;

const RFC_DATE: &str = "Sun, 06 Nov 1994 08:49:37 GMT";
const RFC_SECS: u64 = 784111777;

fn catalog() -> Catalog {
    let entries: Vec<(String, u64)> = vec![
        ("a.png".to_string(), RFC_SECS),
        ("b.jpg".to_string(), RFC_SECS + 50),
        ("clip.gif".to_string(), 7),
    ];
    Catalog::build("images", &entries).unwrap()
}

#[test]
fn no_header_yields_the_full_body() {
    let cat = catalog();
    let decision = handle_get_image(&cat, "a.png", None);
    match decision {
        ResponseDecision::FullBody(res) => {
            assert_eq!(res.name, "a.png");
            assert_eq!(res.content_type, ContentType::Png);
            assert_eq!(res.last_modified, RFC_SECS);
        },
        _ => panic!("expected a full-body decision"),
    }
}

#[test]
fn current_header_yields_not_modified() {
    let cat = catalog();
    let decision = handle_get_image(&cat, "a.png", Some(RFC_DATE));
    assert!(matches!(decision, ResponseDecision::NotModified(lm) if lm == RFC_SECS));
}

#[test]
fn stale_header_yields_the_full_body() {
    let cat = catalog();
    // b.jpg changed 50 seconds after the header's date
    let decision = handle_get_image(&cat, "b.jpg", Some(RFC_DATE));
    assert!(matches!(decision, ResponseDecision::FullBody(res) if res.name == "b.jpg"));
}

#[test]
fn invalid_header_yields_the_full_body() {
    let cat = catalog();
    let decision = handle_get_image(&cat, "a.png", Some("not a date"));
    assert!(matches!(decision, ResponseDecision::FullBody(res) if res.name == "a.png"));
}

#[test]
fn unknown_names_are_not_found_whatever_the_headers() {
    let cat = catalog();
    assert!(matches!(handle_get_image(&cat, "zzz.png", None), ResponseDecision::NotFound));
    assert!(matches!(
        handle_get_image(&cat, "zzz.png", Some(RFC_DATE)),
        ResponseDecision::NotFound
    ));
    // a file the build excluded is indistinguishable from an unknown one
    assert!(matches!(handle_get_image(&cat, "clip.gif", None), ResponseDecision::NotFound));
}

#[test]
fn full_body_renders_as_200_with_headers_and_stream() {
    let cat = catalog();
    let decision = handle_get_image(&cat, "a.png", None);
    let response = render(&decision);
    assert_eq!(response.status, 200);
    assert_eq!(response.headers.len(), 2);
    assert_eq!(response.headers[0].0, "Content-Type");
    assert_eq!(response.headers[0].1, "image/png");
    assert_eq!(response.headers[1].0, "Last-Modified");
    assert_eq!(response.headers[1].1, RFC_DATE);
    match response.body {
        Body::FileStream { path } => assert_eq!(path, "images/a.png"),
        Body::Empty => panic!("expected a streamed body"),
    }
}

#[test]
fn not_modified_renders_as_304_with_empty_body() {
    let cat = catalog();
    let decision = handle_get_image(&cat, "a.png", Some(RFC_DATE));
    let response = render(&decision);
    assert_eq!(response.status, 304);
    assert_eq!(response.headers.len(), 1);
    assert_eq!(response.headers[0].0, "Last-Modified");
    assert_eq!(response.headers[0].1, RFC_DATE);
    assert!(matches!(response.body, Body::Empty));
}

#[test]
fn not_found_renders_as_404_with_empty_body() {
    let cat = catalog();
    let decision = handle_get_image(&cat, "zzz.png", None);
    let response = render(&decision);
    assert_eq!(response.status, 404);
    assert!(response.headers.is_empty());
    assert!(matches!(response.body, Body::Empty));
}

#[test]
fn random_redirect_targets_a_cataloged_name() {
    let cat = catalog();
    for _ in 0..200 {
        let res = handle_random_redirect(&cat);
        assert!(cat.lookup(&res.name).is_some());
    }
}

#[test]
fn redirect_renders_as_303_with_location() {
    let response = render_redirect("a.png");
    assert_eq!(response.status, 303);
    assert_eq!(response.headers.len(), 1);
    assert_eq!(response.headers[0].0, "Location");
    assert_eq!(response.headers[0].1, "/image/a.png");
    assert!(matches!(response.body, Body::Empty));
}
