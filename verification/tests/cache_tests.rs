use emby_client::cache::{image_cache_path, image_result, plan_image_response, ImageAction};
use emby_client::error::ApiError;
use emby_client::limiter::Limiter;
use emby_client::session::EmbyClient;

fn configured_client() -> EmbyClient {
    let mut c = EmbyClient::default("dev", "host", "1.0");
    c.header_change_url("https://example.com", "443").unwrap();
    c
}

#[test]
fn cache_path_is_content_addressed() {
    assert_eq!(
        image_cache_path("/cache", "item1", "Primary", Some(2)),
        "/cache/item1-Primary-2"
    );
    assert_eq!(
        image_cache_path("/cache", "item1", "Backdrop", None),
        "/cache/item1-Backdrop-0"
    );
}

#[test]
fn small_bodies_are_never_stored() {
    // A payload of 1000 bytes or fewer is a placeholder: nothing is
    // written, the caller gets the empty path.
    for len in [0usize, 1, 999, 1000] {
        let action = plan_image_response(200, Some("e".to_string()), len);
        assert!(matches!(action, ImageAction::Discard));
        let r = image_result("/cache/x-Primary-0".to_string(), &action).unwrap();
        assert_eq!(r, "");
    }
    // One byte over the threshold is stored, with the served entity tag.
    let action = plan_image_response(200, Some("etag-9".to_string()), 1001);
    match &action {
        ImageAction::Store { etag } => assert_eq!(etag.as_deref(), Some("etag-9")),
        _ => panic!("expected a store decision"),
    }
    let r = image_result("/cache/x-Primary-0".to_string(), &action).unwrap();
    assert_eq!(r, "/cache/x-Primary-0");
}

#[test]
fn not_modified_keeps_cached_file() {
    // A redirection-class answer to the conditional fetch means the cached
    // copy is current: the pre-existing path comes back and no write is
    // asked for.
    for status in [300u16, 304, 399] {
        let action = plan_image_response(status, None, 12345);
        assert!(matches!(action, ImageAction::UseCached));
        let r = image_result("/cache/old-Primary-0".to_string(), &action).unwrap();
        assert_eq!(r, "/cache/old-Primary-0");
    }
}

#[test]
fn failed_fetch_is_http_error_and_no_write() {
    // An HTTP 404 from the image endpoint surfaces as Http(404); the plan
    // asks for no write, so any pre-existing file stays untouched.
    let action = plan_image_response(404, None, 20000);
    assert!(matches!(action, ImageAction::Fail { status: 404 }));
    match image_result("/cache/kept-Primary-0".to_string(), &action) {
        Err(ApiError::Http(status)) => assert_eq!(status, 404),
        _ => panic!("expected an Http error"),
    }
    assert!(matches!(
        plan_image_response(500, None, 0),
        ImageAction::Fail { status: 500 }
    ));
    assert!(matches!(
        plan_image_response(101, None, 0),
        ImageAction::Fail { status: 101 }
    ));
}

#[test]
fn conditional_fetch_carries_stored_etag() {
    let c = configured_client();
    let req = c
        .image_request("item1", "Primary", Some(0), Some("tag-a".to_string()))
        .unwrap();
    assert_eq!(req.if_none_match.as_deref(), Some("tag-a"));
    assert_eq!(
        req.url,
        "https://example.com:443/emby/Items/item1/Images/Primary/0?maxHeight=300&maxWidth=300"
    );
    // Without a stored tag the header value is empty.
    let req2 = c.image_request("item1", "Backdrop", None, None).unwrap();
    assert_eq!(req2.if_none_match.as_deref(), Some(""));
    assert_eq!(
        req2.url,
        "https://example.com:443/emby/Items/item1/Images/Backdrop?maxHeight=800&maxWidth=1280"
    );
}

#[test]
fn limiter_never_exceeds_capacity() {
    // An instrumented stand-in for the transport: count how many calls are
    // in flight at once while more requests than permits arrive.
    let mut limiter = Limiter::new(3);
    let mut in_flight: usize = 0;
    let mut max_seen: usize = 0;
    let mut waiting: usize = 10;
    let mut done: usize = 0;
    while done < 10 {
        // Admit as many waiting requests as the pool allows.
        while waiting > 0 && limiter.try_acquire() {
            waiting -= 1;
            in_flight += 1;
            if in_flight > max_seen {
                max_seen = in_flight;
            }
        }
        assert!(in_flight <= 3);
        // One call finishes -- here with an error; the permit is released
        // on every exit path all the same.
        limiter.release();
        in_flight -= 1;
        done += 1;
    }
    assert_eq!(max_seen, 3);
    assert_eq!(waiting, 0);
    // Every permit was released: the pool admits 3 again.
    assert!(limiter.try_acquire());
    assert!(limiter.try_acquire());
    assert!(limiter.try_acquire());
    assert!(!limiter.try_acquire());
}

#[test]
fn limiter_full_pool_refuses() {
    let mut limiter = Limiter::new(1);
    assert_eq!(limiter.capacity(), 1);
    assert!(limiter.try_acquire());
    assert!(!limiter.try_acquire());
    limiter.release();
    assert!(limiter.try_acquire());
    let mut zero = Limiter::new(0);
    assert!(!zero.try_acquire());
}
