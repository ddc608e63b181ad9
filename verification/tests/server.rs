use http_body_util::Full;
use hyper::body::Bytes;
use volo_core::context::{HttpContext, HttpContextInner, PeerAddr};
use volo_core::response::Response;
use volo_core::route::Router;
use volo_core::server::{MotoreService, Request};
use volo_core::service::Service;

fn request(path: &'static str, body: u8) -> Request<u8> {
    Request {
        method: http::Method::PUT,
        uri: http::Uri::from_static(path),
        version: http::Version::HTTP_11,
        headers: http::HeaderMap::new(),
        extensions: http::Extensions::new(),
        body,
    }
}

/// Answers every request with a greeting.
struct Hello;

impl Service<HttpContext, u8> for Hello {
    type Response = Response<Full<Bytes>>;
    type Error = std::convert::Infallible;

    fn call(&self, _cx: &mut HttpContext, _request: u8) -> Result<Self::Response, Self::Error> {
        Ok(Response::new("hello, world".into()))
    }
}

/// Answers with the peer's port and the request body.
struct Port;

impl Service<HttpContext, u8> for Port {
    type Response = Response<Vec<u8>>;
    type Error = std::convert::Infallible;

    fn call(&self, cx: &mut HttpContext, request: u8) -> Result<Self::Response, Self::Error> {
        let port = match cx.peer {
            PeerAddr::V4 { port, .. } => port,
            PeerAddr::V6 { port, .. } => port,
        };
        Ok(Response::new(vec![(port >> 8) as u8, port as u8, request]))
    }
}

#[test]
fn prepare_builds_the_context_from_the_request_and_the_peer() {
    let peer = PeerAddr::V4 { octets: [10, 0, 0, 2], port: 5150 };
    let root = MotoreService::new(peer, ());
    assert_eq!(root.peer(), peer);
    let (cx, body): (HttpContextInner, u8) = root.prepare(request("/x?y=1", 9));
    assert_eq!(cx.peer, peer);
    assert_eq!(cx.method, http::Method::PUT);
    assert_eq!(cx.uri, http::Uri::from_static("/x?y=1"));
    assert_eq!(cx.version, http::Version::HTTP_11);
    assert_eq!(body, 9);
}

#[test]
fn root_service_hands_the_request_to_the_router() {
    let router = Router::build().route("/port", Port).build();
    let root = MotoreService::new(PeerAddr::V4 { octets: [10, 0, 0, 2], port: 0x1234 }, router);
    let mut response = root.call(request("/port", 7)).unwrap();
    assert_eq!(response.status(), 200);
    assert_eq!(response.body.next_frame().unwrap().unwrap(), vec![0x12, 0x34, 7]);
    let response = root.call(request("/other", 7)).unwrap();
    assert_eq!(response.status(), 404);
    let copy = MotoreService::new(root.peer(), 1u8).clone();
    assert_eq!(*copy.inner(), 1);
}

#[test]
fn routing() {
    let router = Router::build().route("/", Hello).build();
    let root = MotoreService::new(PeerAddr::V4 { octets: [127, 0, 0, 1], port: 3000 }, router);
    let mut response = root.call(request("/", 0)).unwrap();
    assert_eq!(response.status(), 200);
    assert_eq!(response.body.next_frame().unwrap().unwrap(), b"hello, world".to_vec());
    assert!(response.body.next_frame().is_none());
}
