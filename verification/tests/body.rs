use volo_core::error::DynError;
use volo_core::response::{IntoBody, RespBody, Response};

fn drain(body: &mut RespBody) -> Vec<Result<Vec<u8>, String>> {
    let mut out = Vec::new();
    while let Some(frame) = body.next_frame() {
        out.push(frame.map_err(|e| e.description));
    }
    out
}

#[test]
fn full_body_gives_one_frame_then_ends() {
    let mut body = RespBody::full(vec![1, 2, 3]);
    assert_eq!(body.next_frame().unwrap().unwrap(), vec![1, 2, 3]);
    assert!(body.next_frame().is_none());
    assert!(body.next_frame().is_none());
    assert!(matches!(body, RespBody::Full { .. }));
}

#[test]
fn empty_full_body_gives_no_frame() {
    let mut body = RespBody::empty();
    assert!(body.next_frame().is_none());
    let mut body = RespBody::full(Vec::new());
    assert!(body.next_frame().is_none());
}

#[test]
fn stream_gives_frames_in_the_order_enqueued() {
    let mut body = RespBody::stream(vec![Ok(vec![1]), Ok(vec![]), Ok(vec![2, 3]), Ok(vec![4])]);
    assert_eq!(
        drain(&mut body),
        vec![Ok(vec![1]), Ok(vec![]), Ok(vec![2, 3]), Ok(vec![4])]
    );
    assert!(body.next_frame().is_none());
    assert!(matches!(body, RespBody::Stream { .. }));
}

#[test]
fn stream_ends_with_the_first_failure() {
    let mut body = RespBody::stream(vec![
        Ok(vec![1]),
        Err(DynError::msg("broken pipe")),
        Ok(vec![2]),
        Err(DynError::msg("later")),
    ]);
    assert_eq!(body.next_frame().unwrap().unwrap(), vec![1]);
    assert_eq!(body.next_frame().unwrap().unwrap_err().description, "broken pipe");
    assert!(body.next_frame().is_none());
    assert!(body.next_frame().is_none());
}

#[test]
fn stream_that_fails_at_once_gives_only_the_failure() {
    let mut body = RespBody::stream(vec![Err(DynError::msg("no")), Ok(vec![9])]);
    assert_eq!(drain(&mut body), vec![Err(String::from("no"))]);
}

#[test]
fn empty_stream_gives_no_frame() {
    let mut body = RespBody::stream(Vec::new());
    assert!(body.next_frame().is_none());
}

#[test]
fn text_becomes_its_utf8_bytes() {
    let mut body = String::from("héllo").into_body();
    assert!(matches!(body, RespBody::Full { .. }));
    assert_eq!(drain(&mut body), vec![Ok("héllo".as_bytes().to_vec())]);
    let mut body = "hello, world".into_body();
    assert!(matches!(body, RespBody::Full { .. }));
    assert_eq!(drain(&mut body), vec![Ok(b"hello, world".to_vec())]);
}

#[test]
fn empty_text_becomes_an_empty_body() {
    assert!("".into_body().next_frame().is_none());
    assert!(String::new().into_body().next_frame().is_none());
}

#[test]
fn bytes_become_a_full_body_and_a_body_stays_itself() {
    let mut body = vec![7u8, 8].into_body();
    assert!(matches!(body, RespBody::Full { .. }));
    assert_eq!(drain(&mut body), vec![Ok(vec![7, 8])]);
    let mut body = RespBody::stream(vec![Ok(vec![1]), Ok(vec![2])]).into_body();
    assert!(matches!(body, RespBody::Stream { .. }));
    assert_eq!(drain(&mut body), vec![Ok(vec![1]), Ok(vec![2])]);
}

#[test]
fn new_response_has_status_200() {
    let response = Response::new(5u8);
    assert_eq!(response.status(), 200);
    assert_eq!(response.head.status, http::StatusCode::OK);
    assert_eq!(response.body, 5);
}

#[test]
fn not_found_response_has_status_404_and_no_content() {
    let mut response = Response::not_found();
    assert_eq!(response.status(), 404);
    assert_eq!(response.head.version, http::Version::HTTP_11);
    assert!(response.head.headers.is_empty());
    assert!(response.body.next_frame().is_none());
}

#[test]
fn buffered_body_of_the_http_stack_becomes_a_full_body() {
    let full = http_body_util::Full::new(hyper::body::Bytes::from("hello, world"));
    let mut body = full.into_body();
    assert!(matches!(body, RespBody::Full { .. }));
    assert_eq!(drain(&mut body), vec![Ok(b"hello, world".to_vec())]);
    let full = http_body_util::Full::new(hyper::body::Bytes::new());
    assert!(full.into_body().next_frame().is_none());
    let full = http_body_util::Full::new(hyper::body::Bytes::from_static(b"static"));
    assert_eq!(full.into_body().next_frame().unwrap().unwrap(), b"static".to_vec());
}

#[test]
fn lazy_stream_produces_a_frame_only_when_one_is_asked_for() {
    let produced = std::sync::Arc::new(std::sync::atomic::AtomicUsize::new(0));
    let counter = produced.clone();
    let source = (0u8..).map(move |i| {
        counter.fetch_add(1, std::sync::atomic::Ordering::SeqCst);
        Ok(vec![i])
    });
    let mut body = RespBody::lazy(Box::new(source));
    assert!(matches!(body, RespBody::Stream { .. }));
    assert!(body.wants_frame());
    assert_eq!(produced.load(std::sync::atomic::Ordering::SeqCst), 0);
    assert_eq!(body.next_frame().unwrap().unwrap(), vec![0]);
    assert_eq!(body.next_frame().unwrap().unwrap(), vec![1]);
    assert_eq!(body.next_frame().unwrap().unwrap(), vec![2]);
    assert_eq!(produced.load(std::sync::atomic::Ordering::SeqCst), 3);
    assert!(body.wants_frame());
}

#[test]
fn lazy_stream_ends_with_the_first_failure_and_asks_no_more() {
    let produced = std::sync::Arc::new(std::sync::atomic::AtomicUsize::new(0));
    let counter = produced.clone();
    let source = vec![Ok(vec![1]), Err(DynError::msg("torn")), Ok(vec![2])].into_iter().map(
        move |frame| {
            counter.fetch_add(1, std::sync::atomic::Ordering::SeqCst);
            frame
        },
    );
    let mut body = RespBody::lazy(Box::new(source));
    assert_eq!(body.next_frame().unwrap().unwrap(), vec![1]);
    assert_eq!(body.next_frame().unwrap().unwrap_err().description, "torn");
    assert!(!body.wants_frame());
    assert!(body.next_frame().is_none());
    assert!(body.next_frame().is_none());
    assert_eq!(produced.load(std::sync::atomic::Ordering::SeqCst), 2);
    assert!(matches!(body, RespBody::Stream { .. }));
}

#[test]
fn lazy_stream_ends_when_its_source_has_no_more() {
    let source = vec![Ok(vec![1]), Ok(vec![2])].into_iter();
    let mut body = RespBody::lazy(Box::new(source));
    assert_eq!(drain(&mut body), vec![Ok(vec![1]), Ok(vec![2])]);
    assert!(!body.wants_frame());
    assert!(body.next_frame().is_none());
}

#[test]
fn offered_frames_are_given_in_the_order_offered() {
    let mut body = RespBody::lazy(Box::new(Vec::new().into_iter()));
    body.offer(Some(Ok(vec![1])));
    body.offer(Some(Ok(vec![2])));
    assert!(!body.wants_frame());
    body.offer(Some(Err(DynError::msg("stop"))));
    body.offer(Some(Ok(vec![3])));
    body.offer(Some(Err(DynError::msg("later"))));
    assert_eq!(
        drain(&mut body),
        vec![Ok(vec![1]), Ok(vec![2]), Err(String::from("stop"))]
    );
    assert!(body.next_frame().is_none());
}

#[test]
fn offer_of_none_ends_the_stream() {
    let mut body = RespBody::lazy(Box::new((0u8..).map(|i| Ok(vec![i]))));
    body.offer(Some(Ok(vec![9])));
    body.offer(None);
    body.offer(Some(Ok(vec![7])));
    assert_eq!(drain(&mut body), vec![Ok(vec![9])]);
    assert!(!body.wants_frame());
}

#[test]
fn frames_offered_to_an_ended_body_are_never_given() {
    let mut body = RespBody::stream(vec![Ok(vec![1])]);
    assert!(!body.wants_frame());
    body.offer(Some(Ok(vec![2])));
    assert_eq!(drain(&mut body), vec![Ok(vec![1])]);
    let mut body = RespBody::full(vec![5]);
    assert!(!body.wants_frame());
    body.offer(Some(Ok(vec![6])));
    body.offer(None);
    assert!(matches!(body, RespBody::Full { .. }));
    assert_eq!(drain(&mut body), vec![Ok(vec![5])]);
}
