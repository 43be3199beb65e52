use thumbnailer::codec::{decode, encode};
use thumbnailer::pixels::PixelImage;
use thumbnailer::router::{
    not_found_reply, rejection_reply, route_request, thumbnail_reply, RouteAction,
};
use thumbnailer::ThumbError;

fn gradient_image(width: u32, height: u32) -> PixelImage {
    let len = (4 * width * height) as usize;
    let mut pixels = Vec::with_capacity(len);
    for i in 0..len {
        pixels.push((i % 256) as u8);
    }
    PixelImage {
        width,
        height,
        pixels,
    }
}

#[test]
fn get_thumbnail_with_valid_query_asks_for_a_fetch() {
    let action = route_request("GET", "/thumbnail", Some("url=http://x/y.png&width=100"));
    match action {
        RouteAction::Fetch(o) => {
            assert_eq!(o.url, "http://x/y.png");
            assert_eq!(o.width, 100);
        }
        _ => panic!("expected a fetch"),
    }
}

#[test]
fn other_paths_and_methods_are_not_found() {
    assert!(matches!(
        route_request("GET", "/other", None),
        RouteAction::NotFound
    ));
    assert!(matches!(
        route_request("POST", "/thumbnail", Some("url=a")),
        RouteAction::NotFound
    ));
    let reply = not_found_reply();
    assert_eq!(reply.status, 404);
    assert!(reply.body.is_empty());
}

#[test]
fn missing_query_is_rejected_as_malformed() {
    match route_request("GET", "/thumbnail", None) {
        RouteAction::Reject(e) => assert_eq!(e, ThumbError::MalformedRequest),
        _ => panic!("expected a rejection"),
    }
    let reply = rejection_reply(ThumbError::MalformedRequest);
    assert_eq!(reply.status, 400);
    assert!(reply.body.is_empty());
}

#[test]
fn invalid_width_is_rejected_with_400() {
    match route_request("GET", "/thumbnail", Some("url=a&width=abc")) {
        RouteAction::Reject(e) => {
            assert_eq!(e, ThumbError::InvalidWidth);
            assert_eq!(rejection_reply(e).status, 400);
        }
        _ => panic!("expected a rejection"),
    }
}

#[test]
fn fetched_square_image_yields_a_200_thumbnail() {
    let png = encode(&gradient_image(200, 200));
    let reply = thumbnail_reply(Some(png), 100);
    assert_eq!(reply.status, 200);
    let out = decode(&reply.body).unwrap();
    assert_eq!(out.width, 100);
    assert_eq!(out.height, 100);
}

#[test]
fn zero_width_yields_a_400_reply() {
    let png = encode(&gradient_image(64, 64));
    let reply = thumbnail_reply(Some(png), 0);
    assert_eq!(reply.status, 400);
    assert!(reply.body.is_empty());
}

#[test]
fn undecodable_fetch_yields_a_422_reply() {
    let reply = thumbnail_reply(Some(vec![1, 2, 3]), 100);
    assert_eq!(reply.status, 422);
    assert!(reply.body.is_empty());
}

#[test]
fn failed_fetch_yields_502_and_leaves_other_requests_alone() {
    let failed = thumbnail_reply(None, 100);
    assert_eq!(failed.status, 502);
    assert!(failed.body.is_empty());

    // A valid request issued right after the failure still succeeds: the
    // pipeline keeps no state between requests.
    let png = encode(&gradient_image(100, 100));
    let ok = thumbnail_reply(Some(png), 50);
    assert_eq!(ok.status, 200);
    let out = decode(&ok.body).unwrap();
    assert_eq!(out.width, 50);
    assert_eq!(out.height, 50);
}
