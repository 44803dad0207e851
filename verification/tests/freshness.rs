use image_server::Freshness;
use image_server::decide_freshness;
use image_server::evaluate;

// `Sun, 06 Nov 1994 08:49:37 GMT`, the RFC 7231 example date.
const RFC_DATE: &str = "Sun, 06 Nov 1994 08:49:37 GMT";
const RFC_SECS: u64 = 784111777;

#[test]
fn no_token_means_full_body() {
    assert_eq!(decide_freshness(None, 0), Freshness::FullBody);
    assert_eq!(decide_freshness(None, u64::MAX), Freshness::FullBody);
}

#[test]
fn equal_token_means_not_modified() {
    assert_eq!(decide_freshness(Some(RFC_SECS), RFC_SECS), Freshness::NotModified);
    assert_eq!(decide_freshness(Some(0), 0), Freshness::NotModified);
}

#[test]
fn later_token_means_not_modified() {
    assert_eq!(decide_freshness(Some(RFC_SECS + 1), RFC_SECS), Freshness::NotModified);
    assert_eq!(decide_freshness(Some(u64::MAX), 0), Freshness::NotModified);
}

#[test]
fn earlier_token_means_full_body() {
    assert_eq!(decide_freshness(Some(RFC_SECS - 1), RFC_SECS), Freshness::FullBody);
    assert_eq!(decide_freshness(Some(0), 1), Freshness::FullBody);
}

#[test]
fn absent_header_means_full_body() {
    assert_eq!(evaluate(None, RFC_SECS), Freshness::FullBody);
}

#[test]
fn imf_fixdate_header_is_parsed_and_compared() {
    // header equal to the modification time
    assert_eq!(evaluate(Some(RFC_DATE), RFC_SECS), Freshness::NotModified);
    // header strictly earlier than the modification time
    assert_eq!(evaluate(Some(RFC_DATE), RFC_SECS + 1), Freshness::FullBody);
    // header strictly later than the modification time
    assert_eq!(evaluate(Some(RFC_DATE), RFC_SECS - 1), Freshness::NotModified);
}

#[test]
fn legacy_header_formats_are_parsed() {
    assert_eq!(
        evaluate(Some("Sunday, 06-Nov-94 08:49:37 GMT"), RFC_SECS),
        Freshness::NotModified
    );
    assert_eq!(evaluate(Some("Sun Nov  6 08:49:37 1994"), RFC_SECS), Freshness::NotModified);
}

#[test]
fn invalid_header_behaves_like_an_absent_one() {
    for bad in [
        "",
        "yesterday",
        "Sun, 06 Nov 1994 08*49:37 GMT",
        "Sun, 06 Nov 1994 08:49:37",
        "1994-11-06T08:49:37Z",
        "784111777",
    ] {
        assert_eq!(evaluate(Some(bad), 0), Freshness::FullBody);
        assert_eq!(evaluate(Some(bad), RFC_SECS), evaluate(None, RFC_SECS));
    }
}
