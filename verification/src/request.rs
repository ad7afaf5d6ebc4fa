//! Requests received on a stream: the headers of gRPC, and the timeout of a call.

use vstd::prelude::*;
use vstd::string::StringSliceAdditionalSpecFns;
use crate::errors::{GrpcError, GrpcResult};
use crate::num::{parse_u64, spec_parse_u64, IntErrorKind};
use crate::time::Duration;

verus! {

/// How a timeout of `value` in the unit `unit` is split into whole seconds
/// and nanoseconds: `H` hours, `M` minutes, `S` seconds, `m` milliseconds,
/// `u` microseconds, `n` nanoseconds; any other unit counts as seconds.
pub open spec fn timeout_parts(value: nat, unit: u8) -> (nat, nat) {
    if unit == 'H' as u8 {
        (value * 3600, 0)
    } else if unit == 'M' as u8 {
        (value * 60, 0)
    } else if unit == 'S' as u8 {
        (value, 0)
    } else if unit == 'm' as u8 {
        (value / 1000, (value % 1000) * 1_000_000)
    } else if unit == 'u' as u8 {
        (value / 1_000_000, (value % 1_000_000) * 1000)
    } else if unit == 'n' as u8 {
        (value / 1_000_000_000, value % 1_000_000_000)
    } else {
        (value, 0)
    }
}

/// The nanoseconds in one of the unit `unit`.
pub open spec fn unit_nanos(unit: u8) -> nat {
    if unit == 'H' as u8 {
        3_600_000_000_000
    } else if unit == 'M' as u8 {
        60_000_000_000
    } else if unit == 'm' as u8 {
        1_000_000
    } else if unit == 'u' as u8 {
        1000
    } else if unit == 'n' as u8 {
        1
    } else {
        1_000_000_000
    }
}

/// A timeout header value can be read without overflow: it holds at least
/// the unit, and a value in hours or minutes fits in a `u64` as seconds.
pub open spec fn timeout_readable(s: Seq<u8>) -> bool {
    &&& s.len() >= 1
    &&& (spec_parse_u64(s.drop_last()) matches Ok(v) ==> timeout_parts(v as nat, s.last()).0
        <= u64::MAX)
}

/// What a timeout header value reads as: the parts of the timeout, or why
/// its number could not be parsed.
pub open spec fn spec_timeout(s: Seq<u8>) -> Result<(nat, nat), IntErrorKind> {
    match spec_parse_u64(s.drop_last()) {
        Ok(v) => Ok(timeout_parts(v as nat, s.last())),
        Err(k) => Err(k),
    }
}

/// The parts of a timeout are a whole number of seconds and fewer than a
/// second's nanoseconds, and together they are the value in its unit.
pub proof fn lemma_timeout_parts(value: nat, unit: u8)
    ensures
        timeout_parts(value, unit).1 < 1_000_000_000,
        timeout_parts(value, unit).0 * 1_000_000_000 + timeout_parts(value, unit).1 == value
            * unit_nanos(unit),
{
    let (s, n) = timeout_parts(value, unit);
    if unit == 'm' as u8 {
        assert((value / 1000) * 1_000_000_000 + (value % 1000) * 1_000_000 == value * 1_000_000)
            by (nonlinear_arith);
        assert((value % 1000) * 1_000_000 < 1_000_000_000) by (nonlinear_arith);
    } else if unit == 'u' as u8 {
        assert((value / 1_000_000) * 1_000_000_000 + (value % 1_000_000) * 1000 == value * 1000)
            by (nonlinear_arith);
        assert((value % 1_000_000) * 1000 < 1_000_000_000) by (nonlinear_arith);
    } else if unit == 'n' as u8 {
        assert((value / 1_000_000_000) * 1_000_000_000 + value % 1_000_000_000 == value)
            by (nonlinear_arith);
    }
}

/// A header of HTTP/2: a name and a value, both as bytes.
pub struct Header {
    pub name: Vec<u8>,
    pub value: Vec<u8>,
}

/// A copy of `s`.
pub fn copy_bytes(s: &[u8]) -> (v: Vec<u8>)
    ensures
        v@ == s@,
{
    let mut v: Vec<u8> = Vec::new();
    let mut i: usize = 0;
    while i < s.len()
        invariant
            i <= s@.len(),
            v@ == s@.subrange(0, i as int),
        decreases s@.len() - i,
    {
        v.push(s[i]);
        i = i + 1;
        assert(v@ =~= s@.subrange(0, i as int));
    }
    assert(s@.subrange(0, s@.len() as int) =~= s@);
    v
}

/// Whether `a` and `b` hold the same bytes.
pub fn eq_bytes(a: &[u8], b: &[u8]) -> (r: bool)
    ensures
        r == (a@ == b@),
{
    if a.len() != b.len() {
        return false;
    }
    let mut i: usize = 0;
    while i < a.len()
        invariant
            i <= a@.len(),
            a@.len() == b@.len(),
            forall|j: int| 0 <= j < i ==> a@[j] == b@[j],
        decreases a@.len() - i,
    {
        if a[i] != b[i] {
            return false;
        }
        i = i + 1;
    }
    assert(a@ =~= b@);
    true
}

impl Header {
    /// A header with a copy of `name` and of `value`.
    pub fn new(name: &[u8], value: &[u8]) -> (h: Header)
        ensures
            h.name@ == name@,
            h.value@ == value@,
    {
        Header { name: copy_bytes(name), value: copy_bytes(value) }
    }
}

/// A stream of HTTP/2 as it was received: its id, its headers, and its body.
pub struct GrpcStream {
    pub stream_id: Option<u32>,
    pub headers: Option<Vec<Header>>,
    pub body: Vec<u8>,
}

impl GrpcStream {
    /// A stream with the id `id`, no headers yet and an empty body.
    pub fn with_id(id: u32) -> (s: GrpcStream)
        ensures
            s.stream_id == Some(id),
            s.headers.is_none(),
            s.body@.len() == 0,
    {
        GrpcStream { stream_id: Some(id), headers: None, body: Vec::new() }
    }

    /// Whether each `grpc-timeout` header of the stream can be read without
    /// overflow.
    pub fn timeouts_are_readable(&self) -> (r: bool)
        ensures
            r == stream_readable(*self),
    {
        match &self.headers {
            None => true,
            Some(hs) => {
                let mut i: usize = 0;
                while i < hs.len()
                    invariant
                        i <= hs@.len(),
                        self.headers == Some(*hs),
                        forall|j: int|
                            0 <= j < i && #[trigger] hs@[j].name@ == timeout_name() ==> timeout_readable(
                                hs@[j].value@,
                            ),
                    decreases hs@.len() - i,
                {
                    if eq_bytes(hs[i].name.as_slice(), "grpc-timeout".as_bytes())
                        && !timeout_is_readable(hs[i].value.as_slice()) {
                        assert(hs@[i as int].name@ == timeout_name());
                        return false;
                    }
                    i = i + 1;
                }
                true
            },
        }
    }

    /// Gives the stream the headers `headers`.
    pub fn set_headers(&mut self, headers: Vec<Header>)
        ensures
            final(self).stream_id == old(self).stream_id,
            final(self).headers == Some(headers),
            final(self).body == old(self).body,
    {
        self.headers = Some(headers);
    }
}

/// Whether the `grpc-timeout` value `s` can be read without overflow.
pub fn timeout_is_readable(s: &[u8]) -> (r: bool)
    ensures
        r == timeout_readable(s@),
{
    if s.len() == 0 {
        return false;
    }
    let n = s.len() - 1;
    let digits = &s[0..n];
    assert(digits@ =~= s@.drop_last());
    let unit = s[n];
    match parse_u64(digits) {
        Err(_) => true,
        Ok(v) => {
            proof {
                lemma_timeout_parts(v as nat, unit);
                assert(v / 1000 <= v);
                assert(v / 1_000_000 <= v);
                assert(v / 1_000_000_000 <= v);
            }
            if unit == 'H' as u8 {
                assert(v <= u64::MAX / 3600 <==> v * 3600 <= u64::MAX) by (nonlinear_arith);
                v <= u64::MAX / 3600
            } else if unit == 'M' as u8 {
                assert(v <= u64::MAX / 60 <==> v * 60 <= u64::MAX) by (nonlinear_arith);
                v <= u64::MAX / 60
            } else {
                true
            }
        },
    }
}

/// The value of the last header named `name`, if there is one.
pub open spec fn last_value(hs: Seq<Header>, name: Seq<u8>) -> Option<Seq<u8>>
    decreases hs.len(),
{
    if hs.len() == 0 {
        None
    } else if hs.last().name@ == name {
        Some(hs.last().value@)
    } else {
        last_value(hs.drop_last(), name)
    }
}

/// The value of the last header named `name`, or `prev` where there is none.
pub open spec fn latest(prev: Option<Seq<u8>>, hs: Seq<Header>, name: Seq<u8>) -> Option<Seq<u8>> {
    match last_value(hs, name) {
        Some(v) => Some(v),
        None => prev,
    }
}

/// The name of the header that holds the timeout of a call.
pub open spec fn timeout_name() -> Seq<u8> {
    "grpc-timeout".spec_bytes()
}

/// Whether `name` names one of the headers of gRPC that a request reads.
pub open spec fn is_grpc_header_name(name: Seq<u8>) -> bool {
    ||| name == ":scheme".spec_bytes()
    ||| name == ":method".spec_bytes()
    ||| name == ":path".spec_bytes()
    ||| name == ":authority".spec_bytes()
    ||| name == "content-type".spec_bytes()
    ||| name == "grpc-encoding".spec_bytes()
    ||| name == "grpc-accept-encoding".spec_bytes()
    ||| name == "user-agent".spec_bytes()
    ||| name == "grpc-message-type".spec_bytes()
    ||| name == timeout_name()
}

/// The timeout that the last readable `grpc-timeout` header gives; a header
/// whose number does not parse is passed over.
pub open spec fn last_timeout(hs: Seq<Header>) -> Option<(nat, nat)>
    decreases hs.len(),
{
    if hs.len() == 0 {
        None
    } else if hs.last().name@ == timeout_name() && spec_timeout(hs.last().value@) is Ok {
        Some(spec_timeout(hs.last().value@)->Ok_0)
    } else {
        last_timeout(hs.drop_last())
    }
}

/// Each `grpc-timeout` header can be read without overflow.
pub open spec fn timeouts_readable(hs: Seq<Header>) -> bool {
    forall|i: int|
        0 <= i < hs.len() && #[trigger] hs[i].name@ == timeout_name() ==> timeout_readable(
            hs[i].value@,
        )
}

/// The `grpc-timeout` headers of the stream, if it has headers, can be read
/// without overflow.
pub open spec fn stream_readable(stream: GrpcStream) -> bool {
    stream.headers matches Some(hs) ==> timeouts_readable(hs@)
}

/// The bytes of an optional slice.
pub open spec fn view_opt(o: Option<&[u8]>) -> Option<Seq<u8>> {
    match o {
        Some(s) => Some(s@),
        None => None,
    }
}

/// The parts of an optional duration.
pub open spec fn duration_opt(o: Option<Duration>) -> Option<(nat, nat)> {
    match o {
        Some(d) => Some((d.spec_secs() as nat, d.spec_nanos() as nat)),
        None => None,
    }
}

/// What a request knows of the call from its headers.
pub struct RequestFields {
    pub scheme: Option<Seq<u8>>,
    pub method: Option<Seq<u8>>,
    pub path: Option<Seq<u8>>,
    pub authority: Option<Seq<u8>>,
    pub content_type: Option<Seq<u8>>,
    pub encoding: Option<Seq<u8>>,
    pub accept_encoding: Option<Seq<u8>>,
    pub user_agent: Option<Seq<u8>>,
    pub message_type: Option<Seq<u8>>,
    pub timeout: Option<(nat, nat)>,
}

/// A request without any of the headers of gRPC.
pub open spec fn no_fields() -> RequestFields {
    RequestFields {
        scheme: None,
        method: None,
        path: None,
        authority: None,
        content_type: None,
        encoding: None,
        accept_encoding: None,
        user_agent: None,
        message_type: None,
        timeout: None,
    }
}

/// What the headers `hs` tell, after what `prev` held: for each header of
/// gRPC, the value of its last occurrence, and for the timeout, the last
/// one that can be read.
pub open spec fn fields_after(prev: RequestFields, hs: Seq<Header>) -> RequestFields {
    RequestFields {
            scheme: latest(prev.scheme, hs, ":scheme".spec_bytes()),
            method: latest(prev.method, hs, ":method".spec_bytes()),
            path: latest(prev.path, hs, ":path".spec_bytes()),
            authority: latest(prev.authority, hs, ":authority".spec_bytes()),
            content_type: latest(prev.content_type, hs, "content-type".spec_bytes()),
            encoding: latest(prev.encoding, hs, "grpc-encoding".spec_bytes()),
            accept_encoding: latest(prev.accept_encoding, hs, "grpc-accept-encoding".spec_bytes()),
            user_agent: latest(prev.user_agent, hs, "user-agent".spec_bytes()),
            message_type: latest(prev.message_type, hs, "grpc-message-type".spec_bytes()),
        timeout: match last_timeout(hs) {
            Some(t) => Some(t),
            None => prev.timeout,
        },
    }
}

/// A request received in full on a stream.
pub struct GrpcRequest<'a> {
    pub stream_id: u32,
    pub headers: &'a [Header],
    pub body: &'a [u8],
    pub scheme: Option<&'a [u8]>,
    pub method: Option<&'a [u8]>,
    pub path: Option<&'a [u8]>,
    pub authority: Option<&'a [u8]>,
    pub content_type: Option<&'a [u8]>,
    pub encoding: Option<&'a [u8]>,
    pub accept_encoding: Option<&'a [u8]>,
    pub user_agent: Option<&'a [u8]>,
    pub message_type: Option<&'a [u8]>,
    pub timeout: Option<Duration>,
}

/// Whether a stream lacks what a request needs: an id, and at least one header.
pub open spec fn malformed(stream: GrpcStream) -> bool {
    stream.stream_id.is_none() || stream.headers.is_none() || stream.headers.unwrap()@.len() == 0
}

impl<'a> GrpcRequest<'a> {
    /// Reads the value of a `grpc-timeout` header: a decimal number and a unit.
    pub fn parse_timeout(s: &[u8]) -> (r: GrpcResult<Duration>)
        requires
            timeout_readable(s@),
        ensures
            match spec_timeout(s@) {
                Ok((secs, nanos)) => r matches Ok(d) && d.spec_secs() == secs && d.spec_nanos()
                    == nanos,
                Err(k) => r matches Err(GrpcError::ParseIntError(e)) && e.kind == k,
            },
    {
        let n = s.len() - 1;
        let digits = &s[0..n];
        assert(digits@ =~= s@.drop_last());
        let unit = s[n];
        let value = match parse_u64(digits) {
            Ok(v) => v,
            Err(e) => return Err(GrpcError::ParseIntError(e)),
        };
        proof {
            lemma_timeout_parts(value as nat, unit);
        }
        let (secs, nanos): (u64, u64) = if unit == 'H' as u8 {
            (value * 60 * 60, 0)
        } else if unit == 'M' as u8 {
            (value * 60, 0)
        } else if unit == 'S' as u8 {
            (value, 0)
        } else if unit == 'm' as u8 {
            (value / 1_000, (value % 1_000) * 1_000_000)
        } else if unit == 'u' as u8 {
            (value / 1_000_000, (value % 1_000_000) * 1_000)
        } else if unit == 'n' as u8 {
            (value / 1_000_000_000, value % 1_000_000_000)
        } else {
            (value, 0)
        };
        Ok(Duration::new(secs, nanos as u32))
    }

    /// What the request knows of the call.
    pub open spec fn spec_fields(&self) -> RequestFields {
        RequestFields {
            scheme: view_opt(self.scheme),
            method: view_opt(self.method),
            path: view_opt(self.path),
            authority: view_opt(self.authority),
            content_type: view_opt(self.content_type),
            encoding: view_opt(self.encoding),
            accept_encoding: view_opt(self.accept_encoding),
            user_agent: view_opt(self.user_agent),
            message_type: view_opt(self.message_type),
            timeout: duration_opt(self.timeout),
        }
    }

    /// The request that the stream `stream` holds. A stream without an id,
    /// or without headers, is a bad request.
    pub fn new(stream: &'a GrpcStream) -> (r: GrpcResult<GrpcRequest<'a>>)
        requires
            !malformed(*stream) ==> stream_readable(*stream),
        ensures
            malformed(*stream) <==> r is Err,
            r matches Err(e) ==> e matches GrpcError::BadRequest(m) && m@ == "malformed stream"@,
            r matches Ok(req) ==> {
                &&& Some(req.stream_id) == stream.stream_id
                &&& stream.headers matches Some(hs) && req.headers@ == hs@
                &&& req.body@ == stream.body@
                &&& req.spec_fields() == fields_after(no_fields(), req.headers@)
            },
    {
        let (stream_id, headers) = match (&stream.stream_id, &stream.headers) {
            (Some(id), Some(hs)) => (*id, hs),
            _ => return Err(GrpcError::BadRequest("malformed stream")),
        };
        if headers.len() == 0 {
            return Err(GrpcError::BadRequest("malformed stream"));
        }
        let mut req = GrpcRequest {
            stream_id,
            headers: headers.as_slice(),
            body: stream.body.as_slice(),
            scheme: None,
            method: None,
            path: None,
            authority: None,
            content_type: None,
            encoding: None,
            accept_encoding: None,
            user_agent: None,
            message_type: None,
            timeout: None,
        };
        let _ = req.parse_headers();
        Ok(req)
    }

    /// Reads the headers of gRPC into the request. A `grpc-timeout` header
    /// whose number does not parse is passed over.
    pub fn parse_headers(&mut self) -> (r: GrpcResult<()>)
        requires
            timeouts_readable(old(self).headers@),
        ensures
            r is Ok,
            final(self).stream_id == old(self).stream_id,
            final(self).headers == old(self).headers,
            final(self).body == old(self).body,
            final(self).spec_fields() == fields_after(old(self).spec_fields(), old(self).headers@),
    {
        let hs: &'a [Header] = self.headers;
        let ghost prev = self.spec_fields();
        let mut i: usize = 0;
        assert(hs@.take(0) =~= Seq::<Header>::empty());
        while i < hs.len()
            invariant
                i <= hs@.len(),
                hs == old(self).headers,
                self.stream_id == old(self).stream_id,
                self.headers == old(self).headers,
                self.body == old(self).body,
                timeouts_readable(hs@),
                self.spec_fields() == fields_after(prev, hs@.take(i as int)),
            decreases hs@.len() - i,
        {
            let h: &'a Header = &hs[i];
            let name: &[u8] = h.name.as_slice();
            let value: &'a [u8] = h.value.as_slice();
            assert(hs@.take(i + 1).drop_last() =~= hs@.take(i as int));
            assert(hs@.take(i + 1).last() == hs@[i as int]);
            if eq_bytes(name, ":scheme".as_bytes()) {
                self.scheme = Some(value);
            }
            if eq_bytes(name, ":method".as_bytes()) {
                self.method = Some(value);
            }
            if eq_bytes(name, ":path".as_bytes()) {
                self.path = Some(value);
            }
            if eq_bytes(name, ":authority".as_bytes()) {
                self.authority = Some(value);
            }
            if eq_bytes(name, "content-type".as_bytes()) {
                self.content_type = Some(value);
            }
            if eq_bytes(name, "grpc-encoding".as_bytes()) {
                self.encoding = Some(value);
            }
            if eq_bytes(name, "grpc-accept-encoding".as_bytes()) {
                self.accept_encoding = Some(value);
            }
            if eq_bytes(name, "user-agent".as_bytes()) {
                self.user_agent = Some(value);
            }
            if eq_bytes(name, "grpc-message-type".as_bytes()) {
                self.message_type = Some(value);
            }
            if eq_bytes(name, "grpc-timeout".as_bytes()) {
                match Self::parse_timeout(value) {
                    Ok(d) => {
                        self.timeout = Some(d);
                    },
                    Err(_) => {},
                }
            }
            i = i + 1;
        }
        assert(hs@.take(hs@.len() as int) =~= hs@);
        Ok(())
    }
}

/// The last value of a header in two runs of headers: the one of the
/// second run, or else the one of the first.
proof fn lemma_last_value_concat(a: Seq<Header>, b: Seq<Header>, name: Seq<u8>)
    ensures
        last_value(a + b, name) == match last_value(b, name) {
            Some(v) => Some(v),
            None => last_value(a, name),
        },
    decreases b.len(),
{
    if b.len() == 0 {
        assert(a + b =~= a);
    } else {
        assert((a + b).drop_last() =~= a + b.drop_last());
        lemma_last_value_concat(a, b.drop_last(), name);
    }
}

/// The last readable timeout in two runs of headers: the one of the second
/// run, or else the one of the first.
proof fn lemma_last_timeout_concat(a: Seq<Header>, b: Seq<Header>)
    ensures
        last_timeout(a + b) == match last_timeout(b) {
            Some(t) => Some(t),
            None => last_timeout(a),
        },
    decreases b.len(),
{
    if b.len() == 0 {
        assert(a + b =~= a);
    } else {
        assert((a + b).drop_last() =~= a + b.drop_last());
        lemma_last_timeout_concat(a, b.drop_last());
    }
}

/// Reading headers in two runs gives what reading them all at once gives:
/// a request may take its headers as they arrive.
pub proof fn lemma_fields_after_concat(prev: RequestFields, a: Seq<Header>, b: Seq<Header>)
    ensures
        fields_after(fields_after(prev, a), b) == fields_after(prev, a + b),
{
        lemma_last_value_concat(a, b, ":scheme".spec_bytes());
        lemma_last_value_concat(a, b, ":method".spec_bytes());
        lemma_last_value_concat(a, b, ":path".spec_bytes());
        lemma_last_value_concat(a, b, ":authority".spec_bytes());
        lemma_last_value_concat(a, b, "content-type".spec_bytes());
        lemma_last_value_concat(a, b, "grpc-encoding".spec_bytes());
        lemma_last_value_concat(a, b, "grpc-accept-encoding".spec_bytes());
        lemma_last_value_concat(a, b, "user-agent".spec_bytes());
        lemma_last_value_concat(a, b, "grpc-message-type".spec_bytes());
        lemma_last_timeout_concat(a, b);
}

/// A header that is none of the headers of gRPC changes nothing that the
/// request knows.
pub proof fn lemma_other_header_ignored(prev: RequestFields, hs: Seq<Header>, h: Header)
    requires
        !is_grpc_header_name(h.name@),
    ensures
        fields_after(prev, hs.push(h)) == fields_after(prev, hs),
{
    assert(hs.push(h).drop_last() =~= hs);
}

/// A later header of the same name overrides an earlier one.
pub proof fn lemma_last_header_wins(hs: Seq<Header>, h: Header)
    ensures
        last_value(hs.push(h), h.name@) == Some(h.value@),
{
}

/// Reading the same headers again changes nothing that the request knows.
pub proof fn lemma_fields_after_idempotent(prev: RequestFields, hs: Seq<Header>)
    ensures
        fields_after(fields_after(prev, hs), hs) == fields_after(prev, hs),
{
}

/// Headers that are none of the headers of gRPC leave what the request
/// knows as it was.
proof fn lemma_other_headers_ignored(prev: RequestFields, x: Seq<Header>)
    requires
        forall|i: int| 0 <= i < x.len() ==> !is_grpc_header_name(#[trigger] x[i].name@),
    ensures
        fields_after(prev, x) == prev,
    decreases x.len(),
{
    if x.len() > 0 {
        let h = x.last();
        assert(!is_grpc_header_name(x[x.len() - 1].name@));
        lemma_other_headers_ignored(prev, x.drop_last());
        lemma_other_header_ignored(prev, x.drop_last(), h);
        assert(x.drop_last().push(h) =~= x);
    }
}

/// Headers that are none of the headers of gRPC change nothing that the
/// request knows, however many there are and wherever they stand among the
/// others. Names are compared byte for byte, so a name that differs from one
/// of gRPC only in case is such a header.
pub proof fn lemma_other_headers_ignored_anywhere(
    prev: RequestFields,
    a: Seq<Header>,
    x: Seq<Header>,
    b: Seq<Header>,
)
    requires
        forall|i: int| 0 <= i < x.len() ==> !is_grpc_header_name(#[trigger] x[i].name@),
    ensures
        fields_after(prev, a + x + b) == fields_after(prev, a + b),
{
    lemma_fields_after_concat(prev, a + x, b);
    lemma_fields_after_concat(prev, a, x);
    lemma_other_headers_ignored(fields_after(prev, a), x);
    lemma_fields_after_concat(prev, a, b);
}

} // verus!
