//! The transforms applied around every request the HTTP server dispatches.
use std::sync::Arc;
use vstd::prelude::*;

use actix_web::body::BoxBody;
use actix_web::dev::{ServiceRequest, ServiceResponse};
use actix_web::http::header::{HeaderName, HeaderValue};
use actix_web::http::ConnectionType;

use crate::config::FdkEnv;

verus! {

/// actix-web's `ServiceRequest`, carried through without being looked into.
#[verifier::external_type_specification]
#[verifier::external_body]
pub struct ExServiceRequest(ServiceRequest);

/// actix-web's `ServiceResponse`.
#[verifier::external_type_specification]
#[verifier::external_body]
#[verifier::reject_recursive_types(B)]
pub struct ExServiceResponse<B>(ServiceResponse<B>);

/// actix-web's `BoxBody`, the body type of a response.
#[verifier::external_type_specification]
#[verifier::external_body]
pub struct ExBoxBody(BoxBody);

/// The headers of a response: each lowercase name with its values in order.
pub uninterp spec fn response_headers(
    res: ServiceResponse<BoxBody>,
) -> Map<Seq<char>, Seq<Seq<u8>>>;

/// The status code of a response.
pub uninterp spec fn response_status(res: ServiceResponse<BoxBody>) -> u16;

/// What becomes of the connection after a response is written.
#[derive(PartialEq, Eq, Structural, Clone, Copy, Debug)]
pub enum ConnectionKind {
    Close,
    KeepAlive,
    Upgrade,
}

/// The connection type a response's head reports, which decides whether the
/// connection is closed once it is written.
pub uninterp spec fn response_connection(res: ServiceResponse<BoxBody>) -> ConnectionKind;

/// The header that says whether the connection is kept open.
pub const CONNECTION_HEADER: &'static str = "connection";

/// The value of `CONNECTION_HEADER` that asks for the connection to be closed.
pub const CONNECTION_CLOSE: &'static str = "close";

/// A name `HeaderName::from_static` accepts: non-empty, at most 65535
/// characters, lowercase letters, digits and `-`.
pub open spec fn is_static_header_name(s: Seq<char>) -> bool {
    0 < s.len() <= 65535 && forall|i: int|
        0 <= i < s.len() ==> ('a' <= #[trigger] s[i] <= 'z' || '0' <= s[i] <= '9' || s[i]
            == '-')
}

/// A value `HeaderValue::from_static` accepts: visible ASCII characters and spaces.
pub open spec fn is_static_header_value(s: Seq<char>) -> bool {
    forall|i: int| 0 <= i < s.len() ==> (' ' <= #[trigger] s[i] <= '~')
}

/// The bytes of an ASCII string.
pub open spec fn ascii_bytes(s: Seq<char>) -> Seq<u8> {
    s.map_values(|c: char| c as u8)
}

/// Relies on actix-http's `HeaderMap::insert`, reached through
/// `ServiceResponse::headers_mut`: the values the name had are all replaced
/// by the one given, and the other names keep theirs. Only the head's header
/// map is touched, not its status or connection flags. `HeaderName::from_static`
/// and `HeaderValue::from_static` panic on what `requires` leaves out.
#[verifier::external_body]
fn insert_header(res: &mut ServiceResponse<BoxBody>, name: &'static str, value: &'static str)
    requires
        is_static_header_name(name@),
        is_static_header_value(value@),
    ensures
        response_headers(*final(res)) == response_headers(*old(res)).insert(
            name@,
            seq![ascii_bytes(value@)],
        ),
        response_status(*final(res)) == response_status(*old(res)),
        response_connection(*final(res)) == response_connection(*old(res)),
{
    res.headers_mut().insert(HeaderName::from_static(name), HeaderValue::from_static(value));
}

/// Relies on actix-http's `ResponseHead::set_connection_type`, reached
/// through `ServiceResponse::response_mut` and `HttpResponse::head_mut`: it
/// sets the flag of the kind given, and `connection_type` reports `Close`
/// whenever that flag is set. Only the head's flags are touched.
#[verifier::external_body]
fn set_connection_type(res: &mut ServiceResponse<BoxBody>, kind: ConnectionKind)
    ensures
        kind == ConnectionKind::Close ==> response_connection(*final(res))
            == ConnectionKind::Close,
        response_headers(*final(res)) == response_headers(*old(res)),
        response_status(*final(res)) == response_status(*old(res)),
{
    let ctype = match kind {
        ConnectionKind::Close => ConnectionType::Close,
        ConnectionKind::KeepAlive => ConnectionType::KeepAlive,
        ConnectionKind::Upgrade => ConnectionType::Upgrade,
    };
    res.response_mut().head_mut().set_connection_type(ctype);
}

/// Applied to each request before the handler. It hands the request on
/// unchanged: the place for request-scoped policy drawn from the
/// configuration.
pub fn fdk_middleware_req(req: ServiceRequest, _env: Arc<FdkEnv>) -> (r: ServiceRequest)
    ensures
        r == req,
{
    req
}

/// Applied to each response the handler produced, a success or an error:
/// the connection is closed once the response is written, and it carries
/// `Connection: close` in place of whatever connection header it had. Its
/// status and every other header are kept.
pub fn fdk_middleware_res(res: ServiceResponse<BoxBody>) -> (r: ServiceResponse<BoxBody>)
    ensures
        response_connection(r) == ConnectionKind::Close,
        response_headers(r) == response_headers(res).insert(
            CONNECTION_HEADER@,
            seq![ascii_bytes(CONNECTION_CLOSE@)],
        ),
        response_headers(r).contains_key(CONNECTION_HEADER@),
        response_headers(r)[CONNECTION_HEADER@] == seq![ascii_bytes(CONNECTION_CLOSE@)],
        response_status(r) == response_status(res),
{
    let mut res = res;
    proof {
        reveal_strlit("connection");
        reveal_strlit("close");
    }
    insert_header(&mut res, CONNECTION_HEADER, CONNECTION_CLOSE);
    set_connection_type(&mut res, ConnectionKind::Close);
    res
}

/// Applying the response transform a second time changes nothing that the
/// first application fixed: the connection kind, the headers and the status
/// are as after one application.
pub proof fn lemma_response_transform_idempotent(
    res: ServiceResponse<BoxBody>,
    once: ServiceResponse<BoxBody>,
    twice: ServiceResponse<BoxBody>,
)
    requires
        transformed(res, once),
        transformed(once, twice),
    ensures
        response_connection(twice) == response_connection(once),
        response_headers(twice) == response_headers(once),
        response_status(twice) == response_status(once),
{
    assert(response_headers(twice) =~= response_headers(once));
}

/// `r` is what `fdk_middleware_res` may return for `res`, by its contract.
pub open spec fn transformed(res: ServiceResponse<BoxBody>, r: ServiceResponse<BoxBody>) -> bool {
    &&& response_connection(r) == ConnectionKind::Close
    &&& response_headers(r) == response_headers(res).insert(
        CONNECTION_HEADER@,
        seq![ascii_bytes(CONNECTION_CLOSE@)],
    )
    &&& response_status(r) == response_status(res)
}

} // verus!
