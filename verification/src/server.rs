//! The answers of the server: responses to requests, and to streams that
//! do not hold a request.

use vstd::prelude::*;
use vstd::string::StringSliceAdditionalSpecFns;
use vstd::utf8::encode_utf8;
use crate::request::{copy_bytes, eq_bytes, last_value, malformed, stream_readable, view_opt};
use crate::num::decimal_ascii;

pub use crate::request::{GrpcRequest, GrpcStream, Header};
pub use crate::status::GrpcStatus;
pub use crate::time::Duration;

verus! {

/// A response on a stream: its id, its headers, and its body.
pub struct GrpcResponse {
    pub stream_id: u32,
    pub headers: Vec<Header>,
    pub body: Vec<u8>,
}

/// A response as values: the stream's id, each header as its name and its
/// value, and the body.
pub struct ResponseView {
    pub stream_id: u32,
    pub headers: Seq<(Seq<u8>, Seq<u8>)>,
    pub body: Seq<u8>,
}

/// Each header as its name and its value.
pub open spec fn header_pairs(hs: Seq<Header>) -> Seq<(Seq<u8>, Seq<u8>)> {
    hs.map_values(|h: Header| (h.name@, h.value@))
}

impl View for GrpcResponse {
    type V = ResponseView;

    open spec fn view(&self) -> ResponseView {
        ResponseView { stream_id: self.stream_id, headers: header_pairs(self.headers@), body: self.body@ }
    }
}

/// A header whose name and value are given as text.
pub open spec fn text_header(name: &str, value: &str) -> (Seq<u8>, Seq<u8>) {
    (name.spec_bytes(), value.spec_bytes())
}

/// The response that refuses the call on stream `stream_id` with the status
/// `status` and the message `msg`: HTTP status 400, and no body.
pub open spec fn spec_bad_request(stream_id: u32, status: GrpcStatus, msg: Seq<char>) -> ResponseView {
    ResponseView {
        stream_id,
        headers: seq![
            text_header(":status", "400"),
            text_header("content-type", "application/grpc"),
            ("grpc-status".spec_bytes(), decimal_ascii(status.spec_code())),
            ("grpc-message".spec_bytes(), encode_utf8(msg)),
        ],
        body: Seq::empty(),
    }
}

/// The response that answers the call on stream `stream_id` with `body`:
/// HTTP status 200 and the gRPC status `OK`.
pub open spec fn spec_ok_response(stream_id: u32, body: Seq<u8>) -> ResponseView {
    ResponseView {
        stream_id,
        headers: seq![
            text_header(":status", "200"),
            text_header("content-type", "application/grpc"),
            ("grpc-status".spec_bytes(), decimal_ascii(GrpcStatus::OK.spec_code())),
        ],
        body,
    }
}

/// The response to a request that holds the method `method` and the body
/// `body`: only `POST` is served, and its body is sent back.
pub open spec fn spec_handle_request(stream_id: u32, method: Option<Seq<u8>>, body: Seq<u8>) -> ResponseView {
    if method != Some("POST".spec_bytes()) {
        spec_bad_request(stream_id, GrpcStatus::Unimplemented, "only support POST method"@)
    } else {
        spec_ok_response(stream_id, body)
    }
}

/// The response to the stream `stream`, closed by the peer under the id
/// `stream_id`: a stream that holds no request is refused with the status
/// `Unknown`.
pub open spec fn spec_handle_stream(stream_id: u32, stream: GrpcStream) -> ResponseView {
    if malformed(stream) {
        spec_bad_request(stream_id, GrpcStatus::Unknown, "malformed stream"@)
    } else {
        spec_handle_request(
            stream.stream_id.unwrap(),
            last_value(stream.headers.unwrap()@, ":method".spec_bytes()),
            stream.body@,
        )
    }
}

/// The makers of responses.
pub struct GrpcResponses;

impl GrpcResponses {
    /// The response that refuses the call on stream `stream_id`.
    pub fn bad_request(stream_id: u32, status: GrpcStatus, msg: &str) -> (r: GrpcResponse)
        ensures
            r@ == spec_bad_request(stream_id, status, msg@),
    {
        let mut headers: Vec<Header> = Vec::new();
        headers.push(Header::new(":status".as_bytes(), "400".as_bytes()));
        headers.push(Header::new("content-type".as_bytes(), "application/grpc".as_bytes()));
        headers.push(Header::new("grpc-status".as_bytes(), status.as_str()));
        headers.push(Header::new("grpc-message".as_bytes(), msg.as_bytes()));
        let r = GrpcResponse { stream_id, headers, body: Vec::new() };
        assert(r@.headers =~= spec_bad_request(stream_id, status, msg@).headers);
        r
    }
}

/// Routes the calls that the server receives.
pub struct GrpcRouter {}

impl Clone for GrpcRouter {
    fn clone(&self) -> (r: GrpcRouter) {
        GrpcRouter {}
    }
}

impl Default for GrpcRouter {
    fn default() -> (r: GrpcRouter) {
        GrpcRouter {}
    }
}

impl GrpcRouter {
    /// A router.
    pub fn new() -> (r: GrpcRouter) {
        GrpcRouter {}
    }

    /// The response to the request `req`: only the method `POST` is served,
    /// and the body of the request is sent back.
    pub fn handle_request(&self, req: GrpcRequest) -> (r: GrpcResponse)
        ensures
            r@ == spec_handle_request(req.stream_id, view_opt(req.method), req.body@),
    {
        let is_post = match req.method {
            Some(m) => eq_bytes(m, "POST".as_bytes()),
            None => false,
        };
        if !is_post {
            return GrpcResponses::bad_request(
                req.stream_id,
                GrpcStatus::Unimplemented,
                "only support POST method",
            );
        }
        let mut headers: Vec<Header> = Vec::new();
        headers.push(Header::new(":status".as_bytes(), "200".as_bytes()));
        headers.push(Header::new("content-type".as_bytes(), "application/grpc".as_bytes()));
        headers.push(Header::new("grpc-status".as_bytes(), GrpcStatus::OK.as_str()));
        let r = GrpcResponse { stream_id: req.stream_id, headers, body: copy_bytes(req.body) };
        assert(r@.headers =~= spec_ok_response(req.stream_id, req.body@).headers);
        r
    }

    /// The response to the stream `stream`, closed by the peer under the id
    /// `stream_id`.
    pub fn handle_stream(&self, stream_id: u32, stream: &GrpcStream) -> (r: GrpcResponse)
        requires
            !malformed(*stream) ==> stream_readable(*stream),
        ensures
            r@ == spec_handle_stream(stream_id, *stream),
    {
        match GrpcRequest::new(stream) {
            Ok(request) => self.handle_request(request),
            Err(err) => GrpcResponses::bad_request(stream_id, GrpcStatus::Unknown, err.description()),
        }
    }

    /// The responses to the streams that the peer has closed, given with
    /// their ids: one response for each stream, in the same order.
    pub fn handle_requests(&self, closed: &Vec<(u32, GrpcStream)>) -> (r: Vec<GrpcResponse>)
        requires
            forall|i: int|
                0 <= i < closed@.len() ==> !malformed(closed@[i].1) ==> stream_readable(#[trigger] closed@[i].1),
        ensures
            r@.len() == closed@.len(),
            forall|i: int|
                0 <= i < closed@.len() ==> (#[trigger] r@[i])@ == spec_handle_stream(
                    closed@[i].0,
                    closed@[i].1,
                ),
    {
        let mut responses: Vec<GrpcResponse> = Vec::new();
        let mut i: usize = 0;
        while i < closed.len()
            invariant
                i <= closed@.len(),
                responses@.len() == i,
                forall|j: int|
                    0 <= j < closed@.len() ==> !malformed(closed@[j].1) ==> stream_readable(#[trigger] closed@[j].1),
                forall|j: int|
                    0 <= j < i ==> (#[trigger] responses@[j])@ == spec_handle_stream(
                        closed@[j].0,
                        closed@[j].1,
                    ),
            decreases closed@.len() - i,
        {
            let entry = &closed[i];
            let response = self.handle_stream(entry.0, &entry.1);
            responses.push(response);
            i = i + 1;
        }
        responses
    }
}

/// Whether `bytes` are the preface that opens every HTTP/2 connection.
pub fn is_connection_preface(bytes: &[u8]) -> (r: bool)
    ensures
        r == (bytes@ == "PRI * HTTP/2.0\r\n\r\nSM\r\n\r\n".spec_bytes()),
{
    eq_bytes(bytes, "PRI * HTTP/2.0\r\n\r\nSM\r\n\r\n".as_bytes())
}

/// Each response goes to the stream that it answers: the id under which the
/// stream was closed, which is the stream's own id where it has one.
pub proof fn lemma_response_to_its_stream(stream_id: u32, stream: GrpcStream)
    requires
        stream.stream_id is None || stream.stream_id == Some(stream_id),
    ensures
        spec_handle_stream(stream_id, stream).stream_id == stream_id,
{
}

/// A refused call is answered with the HTTP status 400 and no body; an
/// accepted one with the HTTP status 200 and the body of the request.
pub proof fn lemma_response_status(stream_id: u32, stream: GrpcStream)
    ensures
        ({
            let r = spec_handle_stream(stream_id, stream);
            let accepted = !malformed(stream) && last_value(stream.headers.unwrap()@, ":method".spec_bytes())
                == Some("POST".spec_bytes());
            &&& r.headers[0] == if accepted {
                text_header(":status", "200")
            } else {
                text_header(":status", "400")
            }
            &&& r.body == if accepted {
                stream.body@
            } else {
                Seq::<u8>::empty()
            }
        }),
{
}

} // verus!
