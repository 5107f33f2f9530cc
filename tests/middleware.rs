use std::sync::Arc;

use actix_web::http::header::{HeaderValue, CONNECTION, CONTENT_TYPE};
use actix_web::http::ConnectionType;
use actix_web::test::TestRequest;
use actix_web::HttpResponse;
use fdk::config::FdkEnv;
use fdk::middleware::{fdk_middleware_req, fdk_middleware_res};

fn empty_env() -> Arc<FdkEnv> {
    Arc::new(FdkEnv {
        fn_listener: None,
        fn_format: None,
        fn_logframe_name: None,
        fn_logframe_hdr: None,
        fdk_log_threshold: None,
        fn_app_id: None,
        fn_fn_id: None,
        fn_memory: None,
    })
}

#[test]
fn keep_alive_is_replaced_by_close() {
    let res = TestRequest::default()
        .to_srv_response(HttpResponse::Ok().insert_header((CONNECTION, "keep-alive")).finish());
    let res = fdk_middleware_res(res);
    let values: Vec<&HeaderValue> = res.headers().get_all(CONNECTION).collect();
    assert_eq!(values, vec![&HeaderValue::from_static("close")]);
    assert_eq!(res.status(), 200);
    assert_eq!(res.response().head().connection_type(), ConnectionType::Close);
}

#[test]
fn keep_alive_flag_is_overridden() {
    let mut response = HttpResponse::Ok().finish();
    response.head_mut().set_connection_type(ConnectionType::KeepAlive);
    let res = fdk_middleware_res(TestRequest::default().to_srv_response(response));
    assert_eq!(res.response().head().connection_type(), ConnectionType::Close);
    assert!(!res.response().head().keep_alive());
}

#[test]
fn transform_twice_is_transform_once() {
    let res = TestRequest::default().to_srv_response(
        HttpResponse::NotFound().insert_header((CONTENT_TYPE, "text/plain")).finish(),
    );
    let once = fdk_middleware_res(res);
    let once_headers = once.headers().clone();
    let twice = fdk_middleware_res(once);
    assert_eq!(twice.status(), 404);
    assert_eq!(twice.response().head().connection_type(), ConnectionType::Close);
    assert_eq!(twice.headers().len(), once_headers.len());
    assert_eq!(twice.headers().get(CONTENT_TYPE).unwrap(), "text/plain");
    assert_eq!(twice.headers().get(CONNECTION).unwrap(), "close");
}

#[test]
fn error_response_gets_close() {
    let res = TestRequest::default().to_srv_response(
        HttpResponse::InternalServerError()
            .insert_header((CONNECTION, "keep-alive"))
            .finish(),
    );
    let res = fdk_middleware_res(res);
    assert_eq!(res.headers().get(CONNECTION).unwrap(), "close");
    assert_eq!(res.status(), 500);
    assert_eq!(res.response().head().connection_type(), ConnectionType::Close);
}

#[test]
fn response_without_connection_header_gets_close() {
    let res = TestRequest::default().to_srv_response(
        HttpResponse::Ok().insert_header((CONTENT_TYPE, "text/plain")).finish(),
    );
    let res = fdk_middleware_res(res);
    assert_eq!(res.headers().get(CONNECTION).unwrap(), "close");
    assert_eq!(res.headers().get(CONTENT_TYPE).unwrap(), "text/plain");
}

#[test]
fn request_passes_unchanged() {
    let req = TestRequest::with_uri("/invoke?x=1")
        .insert_header((CONTENT_TYPE, "application/json"))
        .to_srv_request();
    let req = fdk_middleware_req(req, empty_env());
    assert_eq!(req.path(), "/invoke");
    assert_eq!(req.query_string(), "x=1");
    assert_eq!(req.headers().get(CONTENT_TYPE).unwrap(), "application/json");
}
