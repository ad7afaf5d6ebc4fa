//! Generation of Rust code for the services of protobuf files: for each
//! service, its synchronous and asynchronous interfaces, clients and server.

use vstd::prelude::*;
use vstd::string::StringExecFns;
use crate::code_writer::{
    block_text, empty_line, expr_block_text, field_entry_text, generated_header_text, line_text,
    nested, CodeWriter,
};
use crate::text::{cat, cat3};

verus! {

/// A method of a service, with the Rust names of its input and output messages.
pub struct MethodDescriptor {
    pub name: String,
    /// The fully qualified Rust name of the input message.
    pub input_rust_name: String,
    /// The fully qualified Rust name of the output message.
    pub output_rust_name: String,
    pub client_streaming: bool,
    pub server_streaming: bool,
}

/// A service and its methods.
pub struct ServiceDescriptor {
    pub name: String,
    pub methods: Vec<MethodDescriptor>,
}

/// A protobuf file: its path, its package and its services.
pub struct FileDescriptor {
    pub name: String,
    pub package: String,
    pub services: Vec<ServiceDescriptor>,
}

/// A generated file: its name and its content.
pub struct GenResult {
    pub name: String,
    pub content: String,
}

pub open spec fn input_text(m: MethodDescriptor) -> Seq<char> {
    "super::"@ + m.input_rust_name@
}

pub open spec fn output_text(m: MethodDescriptor) -> Seq<char> {
    "super::"@ + m.output_rust_name@
}

/// The signature of the synchronous method.
pub open spec fn sync_sig_text(m: MethodDescriptor) -> Seq<char> {
    m.name@ + "(&self, p: "@ + input_text(m) + ") -> "@ + output_text(m)
}

/// The signature of the asynchronous method.
pub open spec fn async_sig_text(m: MethodDescriptor) -> Seq<char> {
    m.name@ + "(&self, p: "@ + input_text(m) + ") -> ::grpc::futures_grpc::GrpcFuture<"@
        + output_text(m) + ">"@
}

pub open spec fn bool_text(b: bool) -> Seq<char> {
    if b {
        "true"@
    } else {
        "false"@
    }
}

/// The fields of the descriptor of a method of the service at path `sp`.
pub open spec fn descriptor_fields_text(m: MethodDescriptor, sp: Seq<char>, ind: Seq<char>) -> Seq<char> {
    field_entry_text(ind, "name"@, "\""@ + sp + "/"@ + m.name@ + "\".to_string()"@)
        + field_entry_text(ind, "client_streaming"@, bool_text(m.client_streaming))
        + field_entry_text(ind, "server_streaming"@, bool_text(m.server_streaming))
        + field_entry_text(ind, "req_marshaller"@, "Box::new(::grpc::grpc_protobuf::MarshallerProtobuf)"@)
        + field_entry_text(ind, "resp_marshaller"@, "Box::new(::grpc::grpc_protobuf::MarshallerProtobuf)"@)
}

/// The descriptor of a method, written between `before` and `after`.
#[verifier::opaque]
pub open spec fn method_descriptor_text(
    m: MethodDescriptor,
    sp: Seq<char>,
    ind: Seq<char>,
    before: Seq<char>,
    after: Seq<char>,
) -> Seq<char> {
    block_text(
        ind,
        before + "::grpc::method::MethodDescriptor {"@,
        descriptor_fields_text(m, sp, nested(ind)),
        "}"@ + after,
    )
}

/// The declaration of the method in the synchronous interface.
pub open spec fn method_sync_intf_text(m: MethodDescriptor, ind: Seq<char>) -> Seq<char> {
    line_text(ind, "fn "@ + sync_sig_text(m) + ";"@)
}

/// The declaration of the method in the asynchronous interface.
pub open spec fn method_async_intf_text(m: MethodDescriptor, ind: Seq<char>) -> Seq<char> {
    line_text(ind, "fn "@ + async_sig_text(m) + ";"@)
}

/// The statement that binds the descriptor of the method.
pub open spec fn method_let_text(m: MethodDescriptor) -> Seq<char> {
    "let method: ::grpc::method::MethodDescriptor<"@ + input_text(m) + ", "@ + output_text(m)
        + "> = "@
}

/// The method in the synchronous client.
#[verifier::opaque]
pub open spec fn method_sync_client_text(m: MethodDescriptor, sp: Seq<char>, ind: Seq<char>) -> Seq<char> {
    expr_block_text(
        ind,
        "fn "@ + sync_sig_text(m),
        method_descriptor_text(m, sp, nested(ind), method_let_text(m), ";"@) + line_text(
            nested(ind),
            "self.grpc_client.borrow_mut().call(p, method)"@,
        ),
    )
}

/// The method in the asynchronous client.
#[verifier::opaque]
pub open spec fn method_async_client_text(m: MethodDescriptor, sp: Seq<char>, ind: Seq<char>) -> Seq<char> {
    expr_block_text(
        ind,
        "fn "@ + async_sig_text(m),
        method_descriptor_text(m, sp, nested(ind), method_let_text(m), ";"@) + line_text(
            nested(ind),
            "self.grpc_client_async.call(p, method)"@,
        ),
    )
}

/// The text of a boolean.
fn bool_str(b: bool) -> (r: &'static str)
    ensures
        r@ == bool_text(b),
{
    if b {
        "true"
    } else {
        "false"
    }
}

/// Writes the code of one method of a service.
struct MethodGen<'a> {
    proto: &'a MethodDescriptor,
    service_path: String,
}

impl<'a> MethodGen<'a> {
    fn new(proto: &'a MethodDescriptor, service_path: String) -> (r: MethodGen<'a>)
        ensures
            r.proto == proto,
            r.service_path@ == service_path@,
    {
        MethodGen { proto, service_path }
    }

    fn input(&self) -> (r: String)
        ensures
            r@ == input_text(*self.proto),
    {
        cat("super::", self.proto.input_rust_name.as_str())
    }

    fn output(&self) -> (r: String)
        ensures
            r@ == output_text(*self.proto),
    {
        cat("super::", self.proto.output_rust_name.as_str())
    }

    fn sync_sig(&self) -> (r: String)
        ensures
            r@ == sync_sig_text(*self.proto),
    {
        let mut s = cat(self.proto.name.as_str(), "(&self, p: ");
        s.append(self.input().as_str());
        s.append(") -> ");
        s.append(self.output().as_str());
        s
    }

    fn async_sig(&self) -> (r: String)
        ensures
            r@ == async_sig_text(*self.proto),
    {
        let mut s = cat(self.proto.name.as_str(), "(&self, p: ");
        s.append(self.input().as_str());
        s.append(") -> ::grpc::futures_grpc::GrpcFuture<");
        s.append(self.output().as_str());
        s.append(">");
        s
    }

    fn write_sync_intf(&self, w: &mut CodeWriter)
        ensures
            final(w).out@ == old(w).out@ + method_sync_intf_text(*self.proto, old(w).indent@),
            final(w).indent@ == old(w).indent@,
    {
        let l = cat3("fn ", self.sync_sig().as_str(), ";");
        w.write_line(l.as_str());
    }

    fn write_async_intf(&self, w: &mut CodeWriter)
        ensures
            final(w).out@ == old(w).out@ + method_async_intf_text(*self.proto, old(w).indent@),
            final(w).indent@ == old(w).indent@,
    {
        let l = cat3("fn ", self.async_sig().as_str(), ";");
        w.write_line(l.as_str());
    }

    #[verifier::spinoff_prover]
    fn write_method_descriptor(&self, w: &mut CodeWriter, before: &str, after: &str)
        ensures
            final(w).out@ == old(w).out@ + method_descriptor_text(
                *self.proto,
                self.service_path@,
                old(w).indent@,
                before@,
                after@,
            ),
            final(w).indent@ == old(w).indent@,
    {
        let first = cat(before, "::grpc::method::MethodDescriptor {");
        let outer = w.begin_block(first.as_str());
        let ghost start = w.out@;
        let mut name = cat3("\"", self.service_path.as_str(), "/");
        name.append(self.proto.name.as_str());
        name.append("\".to_string()");
        let ghost ind = w.indent@;
        let ghost m = *self.proto;
        w.field_entry("name", name.as_str());
        let ghost o1 = w.out@;
        w.field_entry("client_streaming", bool_str(self.proto.client_streaming));
        let ghost o2 = w.out@;
        w.field_entry("server_streaming", bool_str(self.proto.server_streaming));
        let ghost o3 = w.out@;
        w.field_entry("req_marshaller", "Box::new(::grpc::grpc_protobuf::MarshallerProtobuf)");
        let ghost o4 = w.out@;
        w.field_entry("resp_marshaller", "Box::new(::grpc::grpc_protobuf::MarshallerProtobuf)");
        assert(w.out@ =~= start + descriptor_fields_text(m, self.service_path@, ind)) by {
            assert(o1 == start + field_entry_text(ind, "name"@, "\""@ + self.service_path@ + "/"@ + m.name@ + "\".to_string()"@));
            assert(o2 == o1 + field_entry_text(ind, "client_streaming"@, bool_text(m.client_streaming)));
            assert(o3 == o2 + field_entry_text(ind, "server_streaming"@, bool_text(m.server_streaming)));
        }
        let last = cat("}", after);
        w.end_block(outer, last.as_str());
        reveal(method_descriptor_text);
        assert(w.out@ =~= old(w).out@ + method_descriptor_text(
            *self.proto,
            self.service_path@,
            old(w).indent@,
            before@,
            after@,
        ));
    }

    fn method_let(&self) -> (r: String)
        ensures
            r@ == method_let_text(*self.proto),
    {
        let mut s = cat("let method: ::grpc::method::MethodDescriptor<", self.input().as_str());
        s.append(", ");
        s.append(self.output().as_str());
        s.append("> = ");
        s
    }

    fn write_sync_client(&self, w: &mut CodeWriter)
        ensures
            final(w).out@ == old(w).out@ + method_sync_client_text(
                *self.proto,
                self.service_path@,
                old(w).indent@,
            ),
            final(w).indent@ == old(w).indent@,
    {
        let prefix = cat("fn ", self.sync_sig().as_str());
        let outer = w.begin_expr_block(prefix.as_str());
        self.write_method_descriptor(w, self.method_let().as_str(), ";");
        w.write_line("self.grpc_client.borrow_mut().call(p, method)");
        w.end_expr_block(outer);
        reveal(method_sync_client_text);
        assert(w.out@ =~= old(w).out@ + method_sync_client_text(
            *self.proto,
            self.service_path@,
            old(w).indent@,
        ));
    }

    fn write_async_client(&self, w: &mut CodeWriter)
        ensures
            final(w).out@ == old(w).out@ + method_async_client_text(
                *self.proto,
                self.service_path@,
                old(w).indent@,
            ),
            final(w).indent@ == old(w).indent@,
    {
        let prefix = cat("fn ", self.async_sig().as_str());
        let outer = w.begin_expr_block(prefix.as_str());
        self.write_method_descriptor(w, self.method_let().as_str(), ";");
        w.write_line("self.grpc_client_async.call(p, method)");
        w.end_expr_block(outer);
        reveal(method_async_client_text);
        assert(w.out@ =~= old(w).out@ + method_async_client_text(
            *self.proto,
            self.service_path@,
            old(w).indent@,
        ));
    }
}



impl<'a> MethodGen<'a> {
    /// How the server serves this method: its descriptor and its handler.
    #[verifier::spinoff_prover]
    fn write_server_method(&self, w: &mut CodeWriter)
        ensures
            final(w).out@ == old(w).out@ + server_method_text(
                *self.proto,
                self.service_path@,
                old(w).indent@,
            ),
            final(w).indent@ == old(w).indent@,
    {
        let outer = w.begin_block("::grpc::method::ServerMethod::new(");
        let ghost o1 = w.out@;
        self.write_method_descriptor(w, "", ",");
        let ghost o2 = w.out@;
        let inner = w.begin_block("{");
        let ghost o3 = w.out@;
        w.write_line("let handler_copy = handler_arc.clone();");
        let call = cat3(
            "::grpc::method::MethodHandlerFn::new(move |p| handler_copy.",
            self.proto.name.as_str(),
            "(p))",
        );
        w.write_line(call.as_str());
        let ghost o4 = w.out@;
        w.end_block(inner, "},");
        let ghost o5 = w.out@;
        w.end_block(outer, "),");
        reveal(server_method_text);
        assert(o5 =~= o2 + block_text(
            nested(old(w).indent@),
            "{"@,
            line_text(nested(nested(old(w).indent@)), "let handler_copy = handler_arc.clone();"@) + line_text(
                nested(nested(old(w).indent@)),
                "::grpc::method::MethodHandlerFn::new(move |p| handler_copy."@ + self.proto.name@
                    + "(p))"@,
            ),
            "},"@,
        ));
        assert(w.out@ =~= old(w).out@ + server_method_text(
            *self.proto,
            self.service_path@,
            old(w).indent@,
        ));
    }
}

/// The parts, with an empty line between two of them.
pub open spec fn join_parts(parts: Seq<Seq<char>>) -> Seq<char>
    decreases parts.len(),
{
    if parts.len() == 0 {
        Seq::empty()
    } else if parts.len() == 1 {
        parts[0]
    } else {
        join_parts(parts.drop_last()) + empty_line() + parts.last()
    }
}

/// The parts, one after the other.
pub open spec fn concat_parts(parts: Seq<Seq<char>>) -> Seq<char>
    decreases parts.len(),
{
    if parts.len() == 0 {
        Seq::empty()
    } else {
        concat_parts(parts.drop_last()) + parts.last()
    }
}

/// One more part, joined to the first `i`.
proof fn lemma_join_step(parts: Seq<Seq<char>>, i: int)
    requires
        0 <= i < parts.len(),
    ensures
        join_parts(parts.take(i + 1)) == if i == 0 {
            parts[0]
        } else {
            join_parts(parts.take(i)) + empty_line() + parts[i]
        },
{
    assert(parts.take(i + 1).drop_last() =~= parts.take(i));
}

/// One more part, after the first `i`.
proof fn lemma_concat_step(parts: Seq<Seq<char>>, i: int)
    requires
        0 <= i < parts.len(),
    ensures
        concat_parts(parts.take(i + 1)) == concat_parts(parts.take(i)) + parts[i],
{
    assert(parts.take(i + 1).drop_last() =~= parts.take(i));
}

/// The path of the service: `/package.Service`.
pub open spec fn service_path_text(package: Seq<char>, s: ServiceDescriptor) -> Seq<char> {
    "/"@ + package + "."@ + s.name@
}

pub open spec fn async_intf_name(s: ServiceDescriptor) -> Seq<char> {
    s.name@ + "Async"@
}

pub open spec fn sync_client_name(s: ServiceDescriptor) -> Seq<char> {
    s.name@ + "Client"@
}

pub open spec fn sync_server_name(s: ServiceDescriptor) -> Seq<char> {
    s.name@ + "Server"@
}

pub open spec fn async_client_name(s: ServiceDescriptor) -> Seq<char> {
    async_intf_name(s) + "Client"@
}

pub open spec fn async_server_name(s: ServiceDescriptor) -> Seq<char> {
    async_intf_name(s) + "Server"@
}

pub open spec fn sync_intf_parts(ms: Seq<MethodDescriptor>, ind: Seq<char>) -> Seq<Seq<char>> {
    Seq::new(ms.len(), |j: int| method_sync_intf_text(ms[j], ind))
}

pub open spec fn async_intf_parts(ms: Seq<MethodDescriptor>, ind: Seq<char>) -> Seq<Seq<char>> {
    Seq::new(ms.len(), |j: int| method_async_intf_text(ms[j], ind))
}

pub open spec fn sync_client_parts(ms: Seq<MethodDescriptor>, sp: Seq<char>, ind: Seq<char>) -> Seq<Seq<char>> {
    Seq::new(ms.len(), |j: int| method_sync_client_text(ms[j], sp, ind))
}

pub open spec fn async_client_parts(ms: Seq<MethodDescriptor>, sp: Seq<char>, ind: Seq<char>) -> Seq<Seq<char>> {
    Seq::new(ms.len(), |j: int| method_async_client_text(ms[j], sp, ind))
}

/// The synchronous interface of the service.
pub open spec fn sync_intf_text(s: ServiceDescriptor, ind: Seq<char>) -> Seq<char> {
    expr_block_text(ind, "pub trait "@ + s.name@, join_parts(sync_intf_parts(s.methods@, nested(ind))))
}

/// The asynchronous interface of the service.
pub open spec fn async_intf_text(s: ServiceDescriptor, ind: Seq<char>) -> Seq<char> {
    expr_block_text(
        ind,
        "pub trait "@ + async_intf_name(s),
        join_parts(async_intf_parts(s.methods@, nested(ind))),
    )
}

/// The constructor of a client, which sets the field `field` to `init`.
pub open spec fn client_new_text(client: Seq<char>, field: Seq<char>, init: Seq<char>, ind: Seq<char>) -> Seq<char> {
    expr_block_text(
        ind,
        "impl "@ + client,
        expr_block_text(
            nested(ind),
            "pub fn "@ + "new(host: &str, port: u16) -> Self"@,
            expr_block_text(
                nested(nested(ind)),
                client,
                field_entry_text(nested(nested(nested(ind))), field, init),
            ),
        ),
    )
}

/// The implementation of the synchronous interface by the synchronous client.
pub open spec fn sync_client_methods_text(s: ServiceDescriptor, sp: Seq<char>, ind: Seq<char>) -> Seq<char> {
    expr_block_text(
        ind,
        "impl "@ + s.name@ + " for "@ + sync_client_name(s),
        join_parts(sync_client_parts(s.methods@, sp, nested(ind))),
    )
}

/// The implementation of the asynchronous interface by the asynchronous client.
pub open spec fn async_client_methods_text(s: ServiceDescriptor, sp: Seq<char>, ind: Seq<char>) -> Seq<char> {
    expr_block_text(
        ind,
        "impl "@ + async_intf_name(s) + " for "@ + async_client_name(s),
        join_parts(async_client_parts(s.methods@, sp, nested(ind))),
    )
}

/// The synchronous client of the service.
pub open spec fn sync_client_text(s: ServiceDescriptor, sp: Seq<char>, ind: Seq<char>) -> Seq<char> {
    expr_block_text(
        ind,
        "pub struct "@ + sync_client_name(s),
        field_entry_text(
            nested(ind),
            "grpc_client"@,
            "::std::cell::RefCell<::grpc::client::GrpcClient>"@,
        ),
    ) + empty_line() + client_new_text(
        sync_client_name(s),
        "grpc_client"@,
        "::std::cell::RefCell::new(::grpc::client::GrpcClient::new(host, port))"@,
        ind,
    ) + empty_line() + sync_client_methods_text(s, sp, ind)
}

/// The asynchronous client of the service.
pub open spec fn async_client_text(s: ServiceDescriptor, sp: Seq<char>, ind: Seq<char>) -> Seq<char> {
    expr_block_text(
        ind,
        "pub struct "@ + async_client_name(s),
        field_entry_text(
            nested(ind),
            "grpc_client_async"@,
            "::grpc::client_async::GrpcClientAsync"@,
        ),
    ) + empty_line() + client_new_text(
        async_client_name(s),
        "grpc_client_async"@,
        "::grpc::client_async::GrpcClientAsync::new(host, port)"@,
        ind,
    ) + empty_line() + async_client_methods_text(s, sp, ind)
}

/// How the server serves one method: its descriptor and its handler.
#[verifier::opaque]
pub open spec fn server_method_text(m: MethodDescriptor, sp: Seq<char>, ind: Seq<char>) -> Seq<char> {
    block_text(
        ind,
        "::grpc::method::ServerMethod::new("@,
        method_descriptor_text(m, sp, nested(ind), ""@, ","@) + block_text(
            nested(ind),
            "{"@,
            line_text(nested(nested(ind)), "let handler_copy = handler_arc.clone();"@) + line_text(
                nested(nested(ind)),
                "::grpc::method::MethodHandlerFn::new(move |p| handler_copy."@ + m.name@
                    + "(p))"@,
            ),
            "},"@,
        ),
        "),"@,
    )
}

pub open spec fn server_method_parts(ms: Seq<MethodDescriptor>, sp: Seq<char>, ind: Seq<char>) -> Seq<Seq<char>> {
    Seq::new(ms.len(), |j: int| server_method_text(ms[j], sp, ind))
}

/// The signature of the constructor of the server.
pub open spec fn server_new_sig(s: ServiceDescriptor) -> Seq<char> {
    "new<H : "@ + s.name@ + " + 'static + Sync + Send>(h: H) -> "@ + sync_server_name(s)
}

/// The body of the constructor of the server.
#[verifier::opaque]
pub open spec fn server_new_body(s: ServiceDescriptor, sp: Seq<char>, ind: Seq<char>) -> Seq<char> {
    line_text(ind, "let handler_arc = ::std::sync::Arc::new(h);"@) + block_text(
        ind,
        "let service_definition = ::std::sync::Arc::new(::grpc::method::ServerServiceDefinition::new("@,
        block_text(
            nested(ind),
            "vec!["@,
            concat_parts(server_method_parts(s.methods@, sp, nested(nested(ind)))),
            "],"@,
        ),
        "));"@,
    ) + expr_block_text(
        ind,
        sync_server_name(s),
        field_entry_text(nested(ind), "server"@, "::grpc::server::GrpcServer::new(service_definition)"@),
    )
}

/// The synchronous server of the service.
pub open spec fn server_text(s: ServiceDescriptor, sp: Seq<char>, ind: Seq<char>) -> Seq<char> {
    expr_block_text(
        ind,
        "pub struct "@ + sync_server_name(s),
        field_entry_text(nested(ind), "server"@, "::grpc::server::GrpcServer"@),
    ) + empty_line() + expr_block_text(
        ind,
        "impl "@ + sync_server_name(s),
        expr_block_text(nested(ind), "pub fn "@ + server_new_sig(s), server_new_body(s, sp, nested(nested(ind))))
            + empty_line() + expr_block_text(
            nested(ind),
            "pub fn "@ + "run(&mut self)"@,
            line_text(nested(nested(ind)), "self.server.run()"@),
        ),
    )
}

/// All the code of the service of a file of the package `package`.
#[verifier::opaque]
pub open spec fn service_text(s: ServiceDescriptor, package: Seq<char>, ind: Seq<char>) -> Seq<char> {
    let sp = service_path_text(package, s);
    line_text(ind, "// "@ + "interface"@) + empty_line() + sync_intf_text(s, ind) + empty_line()
        + async_intf_text(s, ind) + empty_line() + line_text(ind, "// "@ + "sync client"@)
        + empty_line() + sync_client_text(s, sp, ind) + empty_line() + line_text(
        ind,
        "// "@ + "async client"@,
    ) + empty_line() + async_client_text(s, sp, ind) + empty_line() + line_text(
        ind,
        "// "@ + "sync server"@,
    ) + empty_line() + server_text(s, sp, ind)
}

/// Writes the code of a service.
struct ServiceGen<'a> {
    proto: &'a ServiceDescriptor,
    methods: Vec<MethodGen<'a>>,
    service_path: String,
    package: String,
}

impl<'a> ServiceGen<'a> {
    /// Each method has its writer, for the path of the service.
    spec fn wf(&self) -> bool {
        &&& self.service_path@ == service_path_text(self.package@, *self.proto)
        &&& self.methods@.len() == self.proto.methods@.len()
        &&& forall|j: int|
            0 <= j < self.methods@.len() ==> *(#[trigger] self.methods@[j]).proto
                == self.proto.methods@[j] && self.methods@[j].service_path@ == self.service_path@
    }

    fn new(proto: &'a ServiceDescriptor, file: &FileDescriptor) -> (r: ServiceGen<'a>)
        ensures
            r.wf(),
            r.proto == proto,
            r.service_path@ == service_path_text(file.package@, *proto),
            r.package@ == file.package@,
    {
        let mut service_path = cat3("/", file.package.as_str(), ".");
        service_path.append(proto.name.as_str());
        let mut methods: Vec<MethodGen<'a>> = Vec::new();
        let mut i: usize = 0;
        while i < proto.methods.len()
            invariant
                i <= proto.methods@.len(),
                methods@.len() == i,
                forall|j: int|
                    0 <= j < i ==> *(#[trigger] methods@[j]).proto == proto.methods@[j]
                        && methods@[j].service_path@ == service_path@,
            decreases proto.methods@.len() - i,
        {
            methods.push(MethodGen::new(&proto.methods[i], service_path.clone()));
            i = i + 1;
        }
        ServiceGen { proto, methods, service_path, package: file.package.clone() }
    }

    /// The name of the synchronous interface.
    fn sync_intf_name(&self) -> (r: &str)
        ensures
            r@ == self.proto.name@,
    {
        self.proto.name.as_str()
    }

    /// The name of the asynchronous interface.
    fn async_intf_name(&self) -> (r: String)
        ensures
            r@ == async_intf_name(*self.proto),
    {
        cat(self.sync_intf_name(), "Async")
    }

    fn sync_client_name(&self) -> (r: String)
        ensures
            r@ == sync_client_name(*self.proto),
    {
        cat(self.sync_intf_name(), "Client")
    }

    fn sync_server_name(&self) -> (r: String)
        ensures
            r@ == sync_server_name(*self.proto),
    {
        cat(self.sync_intf_name(), "Server")
    }

    fn async_client_name(&self) -> (r: String)
        ensures
            r@ == async_client_name(*self.proto),
    {
        cat(self.async_intf_name().as_str(), "Client")
    }

    fn async_server_name(&self) -> (r: String)
        ensures
            r@ == async_server_name(*self.proto),
    {
        cat(self.async_intf_name().as_str(), "Server")
    }

    fn write_sync_intf(&self, w: &mut CodeWriter)
        requires
            self.wf(),
        ensures
            final(w).out@ == old(w).out@ + sync_intf_text(*self.proto, old(w).indent@),
            final(w).indent@ == old(w).indent@,
    {
        let prefix = cat("pub trait ", self.sync_intf_name());
        let outer = w.begin_expr_block(prefix.as_str());
        let ghost start = w.out@;
        let ghost inner = w.indent@;
        let ghost parts = sync_intf_parts(self.proto.methods@, inner);
        let mut i: usize = 0;
        assert(parts.take(0) =~= Seq::<Seq<char>>::empty());
        while i < self.methods.len()
            invariant
                self.wf(),
                i <= self.methods@.len(),
                w.indent@ == inner,
                parts == sync_intf_parts(self.proto.methods@, inner),
                w.out@ == start + join_parts(parts.take(i as int)),
            decreases self.methods@.len() - i,
        {
            if i != 0 {
                w.write_empty_line();
            }
            self.methods[i].write_sync_intf(w);
            proof {
                lemma_join_step(parts, i as int);
            }
            i = i + 1;
        }
        assert(parts.take(parts.len() as int) =~= parts);
        w.end_expr_block(outer);
        assert(w.out@ =~= old(w).out@ + sync_intf_text(*self.proto, old(w).indent@));
    }

    fn write_async_intf(&self, w: &mut CodeWriter)
        requires
            self.wf(),
        ensures
            final(w).out@ == old(w).out@ + async_intf_text(*self.proto, old(w).indent@),
            final(w).indent@ == old(w).indent@,
    {
        let prefix = cat("pub trait ", self.async_intf_name().as_str());
        let outer = w.begin_expr_block(prefix.as_str());
        let ghost start = w.out@;
        let ghost inner = w.indent@;
        let ghost parts = async_intf_parts(self.proto.methods@, inner);
        let mut i: usize = 0;
        assert(parts.take(0) =~= Seq::<Seq<char>>::empty());
        while i < self.methods.len()
            invariant
                self.wf(),
                i <= self.methods@.len(),
                w.indent@ == inner,
                parts == async_intf_parts(self.proto.methods@, inner),
                w.out@ == start + join_parts(parts.take(i as int)),
            decreases self.methods@.len() - i,
        {
            if i != 0 {
                w.write_empty_line();
            }
            self.methods[i].write_async_intf(w);
            proof {
                lemma_join_step(parts, i as int);
            }
            i = i + 1;
        }
        assert(parts.take(parts.len() as int) =~= parts);
        w.end_expr_block(outer);
        assert(w.out@ =~= old(w).out@ + async_intf_text(*self.proto, old(w).indent@));
    }

    #[verifier::spinoff_prover]
    fn write_sync_client_methods(&self, w: &mut CodeWriter)
        requires
            self.wf(),
        ensures
            final(w).out@ == old(w).out@ + sync_client_methods_text(*self.proto, self.service_path@, old(w).indent@),
            final(w).indent@ == old(w).indent@,
    {
        let mut prefix = cat3("impl ", self.sync_intf_name(), " for ");
        prefix.append(self.sync_client_name().as_str());
        let outer = w.begin_expr_block(prefix.as_str());
        let ghost start = w.out@;
        let ghost inner = w.indent@;
        let ghost parts = sync_client_parts(self.proto.methods@, self.service_path@, inner);
        let mut i: usize = 0;
        assert(parts.take(0) =~= Seq::<Seq<char>>::empty());
        while i < self.methods.len()
            invariant
                self.wf(),
                i <= self.methods@.len(),
                w.indent@ == inner,
                parts == sync_client_parts(self.proto.methods@, self.service_path@, inner),
                w.out@ == start + join_parts(parts.take(i as int)),
            decreases self.methods@.len() - i,
        {
            if i != 0 {
                w.write_empty_line();
            }
            self.methods[i].write_sync_client(w);
            proof {
                lemma_join_step(parts, i as int);
            }
            i = i + 1;
        }
        assert(parts.take(parts.len() as int) =~= parts);
        w.end_expr_block(outer);
        assert(w.out@ =~= old(w).out@ + sync_client_methods_text(*self.proto, self.service_path@, old(w).indent@));
    }

    #[verifier::spinoff_prover]
    fn write_async_client_methods(&self, w: &mut CodeWriter)
        requires
            self.wf(),
        ensures
            final(w).out@ == old(w).out@ + async_client_methods_text(*self.proto, self.service_path@, old(w).indent@),
            final(w).indent@ == old(w).indent@,
    {
        let mut prefix = cat3("impl ", self.async_intf_name().as_str(), " for ");
        prefix.append(self.async_client_name().as_str());
        let outer = w.begin_expr_block(prefix.as_str());
        let ghost start = w.out@;
        let ghost inner = w.indent@;
        let ghost parts = async_client_parts(self.proto.methods@, self.service_path@, inner);
        let mut i: usize = 0;
        assert(parts.take(0) =~= Seq::<Seq<char>>::empty());
        while i < self.methods.len()
            invariant
                self.wf(),
                i <= self.methods@.len(),
                w.indent@ == inner,
                parts == async_client_parts(self.proto.methods@, self.service_path@, inner),
                w.out@ == start + join_parts(parts.take(i as int)),
            decreases self.methods@.len() - i,
        {
            if i != 0 {
                w.write_empty_line();
            }
            self.methods[i].write_async_client(w);
            proof {
                lemma_join_step(parts, i as int);
            }
            i = i + 1;
        }
        assert(parts.take(parts.len() as int) =~= parts);
        w.end_expr_block(outer);
        assert(w.out@ =~= old(w).out@ + async_client_methods_text(*self.proto, self.service_path@, old(w).indent@));
    }

    /// The constructor of a client, which sets the field `field` to `init`.
    fn write_client_new(&self, w: &mut CodeWriter, client: &str, field: &str, init: &str)
        ensures
            final(w).out@ == old(w).out@ + client_new_text(client@, field@, init@, old(w).indent@),
            final(w).indent@ == old(w).indent@,
    {
        let p1 = cat("impl ", client);
        let o1 = w.begin_expr_block(p1.as_str());
        let p2 = cat("pub fn ", "new(host: &str, port: u16) -> Self");
        let o2 = w.begin_expr_block(p2.as_str());
        let o3 = w.begin_expr_block(client);
        w.field_entry(field, init);
        w.end_expr_block(o3);
        w.end_expr_block(o2);
        w.end_expr_block(o1);
        assert(w.out@ =~= old(w).out@ + client_new_text(client@, field@, init@, old(w).indent@));
    }

    fn write_sync_client(&self, w: &mut CodeWriter)
        requires
            self.wf(),
        ensures
            final(w).out@ == old(w).out@ + sync_client_text(*self.proto, self.service_path@, old(w).indent@),
            final(w).indent@ == old(w).indent@,
    {
        let client = self.sync_client_name();
        let p1 = cat("pub struct ", client.as_str());
        let o1 = w.begin_expr_block(p1.as_str());
        w.field_entry("grpc_client", "::std::cell::RefCell<::grpc::client::GrpcClient>");
        w.end_expr_block(o1);
        w.write_empty_line();
        self.write_client_new(
            w,
            client.as_str(),
            "grpc_client",
            "::std::cell::RefCell::new(::grpc::client::GrpcClient::new(host, port))",
        );
        w.write_empty_line();
        self.write_sync_client_methods(w);
        assert(w.out@ =~= old(w).out@ + sync_client_text(*self.proto, self.service_path@, old(w).indent@));
    }

    fn write_async_client(&self, w: &mut CodeWriter)
        requires
            self.wf(),
        ensures
            final(w).out@ == old(w).out@ + async_client_text(*self.proto, self.service_path@, old(w).indent@),
            final(w).indent@ == old(w).indent@,
    {
        let client = self.async_client_name();
        let p1 = cat("pub struct ", client.as_str());
        let o1 = w.begin_expr_block(p1.as_str());
        w.field_entry("grpc_client_async", "::grpc::client_async::GrpcClientAsync");
        w.end_expr_block(o1);
        w.write_empty_line();
        self.write_client_new(
            w,
            client.as_str(),
            "grpc_client_async",
            "::grpc::client_async::GrpcClientAsync::new(host, port)",
        );
        w.write_empty_line();
        self.write_async_client_methods(w);
        assert(w.out@ =~= old(w).out@ + async_client_text(*self.proto, self.service_path@, old(w).indent@));
    }

    /// The serving of each method, one after the other.
    #[verifier::spinoff_prover]
    fn write_server_methods(&self, w: &mut CodeWriter)
        requires
            self.wf(),
        ensures
            final(w).out@ == old(w).out@ + concat_parts(
                server_method_parts(self.proto.methods@, self.service_path@, old(w).indent@),
            ),
            final(w).indent@ == old(w).indent@,
    {
        let ghost start = w.out@;
        let ghost ind = w.indent@;
        let ghost parts = server_method_parts(self.proto.methods@, self.service_path@, ind);
        let mut i: usize = 0;
        assert(parts.take(0) =~= Seq::<Seq<char>>::empty());
        while i < self.methods.len()
            invariant
                self.wf(),
                i <= self.methods@.len(),
                w.indent@ == ind,
                parts == server_method_parts(self.proto.methods@, self.service_path@, ind),
                w.out@ == start + concat_parts(parts.take(i as int)),
            decreases self.methods@.len() - i,
        {
            self.methods[i].write_server_method(w);
            proof {
                lemma_concat_step(parts, i as int);
            }
            i = i + 1;
        }
        assert(parts.take(parts.len() as int) =~= parts);
    }

    /// The body of the constructor of the server.
    #[verifier::spinoff_prover]
    fn write_server_new_body(&self, w: &mut CodeWriter)
        requires
            self.wf(),
        ensures
            final(w).out@ == old(w).out@ + server_new_body(*self.proto, self.service_path@, old(w).indent@),
            final(w).indent@ == old(w).indent@,
    {
        w.write_line("let handler_arc = ::std::sync::Arc::new(h);");
        let ghost o1 = w.out@;
        let oa = w.begin_block(
            "let service_definition = ::std::sync::Arc::new(::grpc::method::ServerServiceDefinition::new(",
        );
        let ob = w.begin_block("vec![");
        self.write_server_methods(w);
        w.end_block(ob, "],");
        w.end_block(oa, "));");
        let ghost o2 = w.out@;
        let server = self.sync_server_name();
        let oc = w.begin_expr_block(server.as_str());
        w.field_entry("server", "::grpc::server::GrpcServer::new(service_definition)");
        w.end_expr_block(oc);
        assert(o2 =~= o1 + block_text(
            old(w).indent@,
            "let service_definition = ::std::sync::Arc::new(::grpc::method::ServerServiceDefinition::new("@,
            block_text(
                nested(old(w).indent@),
                "vec!["@,
                concat_parts(server_method_parts(self.proto.methods@, self.service_path@, nested(nested(old(w).indent@)))),
                "],"@,
            ),
            "));"@,
        ));
        reveal(server_new_body);
        assert(w.out@ =~= old(w).out@ + server_new_body(*self.proto, self.service_path@, old(w).indent@));
    }

    /// The signature of the constructor of the server.
    fn server_new_sig(&self) -> (r: String)
        ensures
            r@ == server_new_sig(*self.proto),
    {
        let mut s = cat3("new<H : ", self.sync_intf_name(), " + 'static + Sync + Send>(h: H) -> ");
        s.append(self.sync_server_name().as_str());
        s
    }

    #[verifier::spinoff_prover]
    fn write_server(&self, w: &mut CodeWriter)
        requires
            self.wf(),
        ensures
            final(w).out@ == old(w).out@ + server_text(*self.proto, self.service_path@, old(w).indent@),
            final(w).indent@ == old(w).indent@,
    {
        let server = self.sync_server_name();
        let p1 = cat("pub struct ", server.as_str());
        let o1 = w.begin_expr_block(p1.as_str());
        w.field_entry("server", "::grpc::server::GrpcServer");
        w.end_expr_block(o1);
        w.write_empty_line();
        let ghost o2 = w.out@;
        let p2 = cat("impl ", server.as_str());
        let o3 = w.begin_expr_block(p2.as_str());
        let ghost o4 = w.out@;
        let p3 = cat("pub fn ", self.server_new_sig().as_str());
        let o5 = w.begin_expr_block(p3.as_str());
        self.write_server_new_body(w);
        w.end_expr_block(o5);
        w.write_empty_line();
        let p4 = cat("pub fn ", "run(&mut self)");
        let o6 = w.begin_expr_block(p4.as_str());
        w.write_line("self.server.run()");
        w.end_expr_block(o6);
        let ghost o7 = w.out@;
        w.end_expr_block(o3);
        assert(o7 =~= o4 + expr_block_text(
            nested(old(w).indent@),
            "pub fn "@ + server_new_sig(*self.proto),
            server_new_body(*self.proto, self.service_path@, nested(nested(old(w).indent@))),
        ) + empty_line() + expr_block_text(
            nested(old(w).indent@),
            "pub fn "@ + "run(&mut self)"@,
            line_text(nested(nested(old(w).indent@)), "self.server.run()"@),
        ));
        assert(w.out@ =~= old(w).out@ + server_text(*self.proto, self.service_path@, old(w).indent@));
    }

    /// Writes all the code of the service.
    #[verifier::spinoff_prover]
    fn write(&self, w: &mut CodeWriter)
        requires
            self.wf(),
        ensures
            final(w).out@ == old(w).out@ + service_text(*self.proto, self.package@, old(w).indent@),
            final(w).indent@ == old(w).indent@,
    {
        proof {
            reveal_strlit("interface");
            reveal_strlit("sync client");
            reveal_strlit("async client");
            reveal_strlit("sync server");
        }
        let ghost ind = w.indent@;
        let ghost s = *self.proto;
        let ghost sp = self.service_path@;
        w.comment("interface");
        w.write_empty_line();
        self.write_sync_intf(w);
        w.write_empty_line();
        self.write_async_intf(w);
        w.write_empty_line();
        let ghost o1 = w.out@;
        w.comment("sync client");
        w.write_empty_line();
        self.write_sync_client(w);
        w.write_empty_line();
        let ghost o2 = w.out@;
        w.comment("async client");
        w.write_empty_line();
        self.write_async_client(w);
        w.write_empty_line();
        let ghost o3 = w.out@;
        w.comment("sync server");
        w.write_empty_line();
        self.write_server(w);
        reveal(service_text);
        assert(o1 =~= old(w).out@ + line_text(ind, "// "@ + "interface"@) + empty_line()
            + sync_intf_text(s, ind) + empty_line() + async_intf_text(s, ind) + empty_line());
        assert(o2 =~= o1 + line_text(ind, "// "@ + "sync client"@) + empty_line()
            + sync_client_text(s, sp, ind) + empty_line());
        assert(o3 =~= o2 + line_text(ind, "// "@ + "async client"@) + empty_line()
            + async_client_text(s, sp, ind) + empty_line());
        assert(w.out@ =~= old(w).out@ + service_text(s, self.package@, ind));
    }
}

/// The code of each service of the file, each after an empty line.
pub open spec fn services_parts(f: FileDescriptor) -> Seq<Seq<char>> {
    Seq::new(
        f.services@.len(),
        |i: int| empty_line() + service_text(f.services@[i], f.package@, Seq::empty()),
    )
}

/// The whole generated file for the protobuf file `f`.
pub open spec fn file_text(f: FileDescriptor) -> Seq<char> {
    generated_header_text(Seq::empty()) + empty_line() + concat_parts(services_parts(f))
}

/// A path that names a protobuf file: it ends with `.proto`.
pub open spec fn is_proto_path(path: Seq<char>) -> bool {
    path.len() >= ".proto"@.len() && path.subrange(path.len() - ".proto"@.len(), path.len() as int)
        == ".proto"@
}

/// The name of the Rust module that protobuf gives to the file at `path`.
pub uninterp spec fn spec_proto_path_to_rust_mod(path: Seq<char>) -> Seq<char>;

/// The name of the Rust module for the protobuf file at `path`. Calls
/// `protobuf::descriptorx::proto_path_to_rust_mod`, whose result depends on
/// the path alone (the file name without its directory and its `.proto`
/// suffix, each character that is not allowed in an identifier replaced,
/// and `_pb` appended to a keyword of Rust); that function panics on a path
/// that does not end with `.proto`, which the precondition rules out.
#[verifier::external_body]
fn proto_path_to_rust_mod(path: &str) -> (r: String)
    requires
        is_proto_path(path@),
    ensures
        r@ == spec_proto_path_to_rust_mod(path@),
{
    protobuf::descriptorx::proto_path_to_rust_mod(path)
}

impl View for GenResult {
    type V = (Seq<char>, Seq<char>);

    open spec fn view(&self) -> (Seq<char>, Seq<char>) {
        (self.name@, self.content@)
    }
}

/// The generated file for `file`, where `module` is the name of the Rust
/// module of the protobuf file: it is named after the module, with
/// `_grpc.rs` appended.
pub fn gen_file_in_module(file: &FileDescriptor, module: &str) -> (r: GenResult)
    ensures
        r@ == (module@ + "_grpc.rs"@, file_text(*file)),
{
    let mut w = CodeWriter::new();
    w.write_generated();
    w.write_empty_line();
    let ghost start = w.out@;
    let ghost parts = services_parts(*file);
    let mut i: usize = 0;
    assert(parts.take(0) =~= Seq::<Seq<char>>::empty());
    while i < file.services.len()
        invariant
            i <= file.services@.len(),
            w.indent@ == Seq::<char>::empty(),
            parts == services_parts(*file),
            w.out@ == start + concat_parts(parts.take(i as int)),
        decreases file.services@.len() - i,
    {
        w.write_empty_line();
        let g = ServiceGen::new(&file.services[i], file);
        g.write(&mut w);
        proof {
            lemma_concat_step(parts, i as int);
        }
        assert(w.out@ =~= start + concat_parts(parts.take(i + 1)));
        i = i + 1;
    }
    assert(parts.take(parts.len() as int) =~= parts);
    GenResult { name: cat(module, "_grpc.rs"), content: w.out }
}

/// What is generated for the protobuf file `f`: nothing for a file without
/// services.
pub open spec fn spec_gen_file(f: FileDescriptor) -> Option<(Seq<char>, Seq<char>)> {
    if f.services@.len() == 0 {
        None
    } else {
        Some((spec_proto_path_to_rust_mod(f.name@) + "_grpc.rs"@, file_text(f)))
    }
}

/// The generated file for the protobuf file `file`, if it has services.
pub fn gen_file(file: &FileDescriptor) -> (r: Option<GenResult>)
    requires
        file.services@.len() > 0 ==> is_proto_path(file.name@),
    ensures
        match spec_gen_file(*file) {
            Some(v) => r matches Some(g) && g@ == v,
            None => r is None,
        },
{
    if file.services.len() == 0 {
        return None;
    }
    let base = proto_path_to_rust_mod(file.name.as_str());
    Some(gen_file_in_module(file, base.as_str()))
}

/// The last of the files named `name`, if there is one.
pub open spec fn find_file(fds: Seq<FileDescriptor>, name: Seq<char>) -> Option<FileDescriptor>
    decreases fds.len(),
{
    if fds.len() == 0 {
        None
    } else if fds.last().name@ == name {
        Some(fds.last())
    } else {
        find_file(fds.drop_last(), name)
    }
}

/// A file to generate is among the files given, and if it has services, its
/// path ends with `.proto`.
pub open spec fn can_generate(fds: Seq<FileDescriptor>, name: Seq<char>) -> bool {
    find_file(fds, name) matches Some(f) && (f.services@.len() > 0 ==> is_proto_path(f.name@))
}

/// What is generated for the files named `names`, in their order; the files
/// without services give nothing.
pub open spec fn spec_gen(fds: Seq<FileDescriptor>, names: Seq<Seq<char>>) -> Seq<(Seq<char>, Seq<char>)>
    decreases names.len(),
{
    if names.len() == 0 {
        Seq::empty()
    } else {
        spec_gen(fds, names.drop_last()) + match spec_gen_file(find_file(fds, names.last()).unwrap()) {
            Some(g) => seq![g],
            None => Seq::empty(),
        }
    }
}

/// The names of the strings.
pub open spec fn string_views(names: Seq<String>) -> Seq<Seq<char>> {
    names.map_values(|s: String| s@)
}

/// The views of the generated files.
pub open spec fn gen_views(rs: Seq<GenResult>) -> Seq<(Seq<char>, Seq<char>)> {
    rs.map_values(|g: GenResult| g@)
}

/// The index of the last of the files named `name`.
fn find_file_index(fds: &[FileDescriptor], name: &String) -> (r: Option<usize>)
    ensures
        match find_file(fds@, name@) {
            Some(f) => r matches Some(i) && i < fds@.len() && fds@[i as int] == f,
            None => r is None,
        },
{
    let mut j: usize = fds.len();
    assert(fds@.take(fds@.len() as int) =~= fds@);
    while j > 0
        invariant
            j <= fds@.len(),
            find_file(fds@, name@) == find_file(fds@.take(j as int), name@),
        decreases j,
    {
        assert(fds@.take(j as int).drop_last() =~= fds@.take(j - 1));
        if fds[j - 1].name == *name {
            return Some(j - 1);
        }
        j = j - 1;
    }
    None
}

/// The generated files for the files named `files_to_generate`, found among
/// `file_descriptors`.
pub fn gen(file_descriptors: &[FileDescriptor], files_to_generate: &[String]) -> (r: Vec<GenResult>)
    requires
        forall|i: int|
            0 <= i < files_to_generate@.len() ==> can_generate(
                file_descriptors@,
                #[trigger] files_to_generate@[i]@,
            ),
    ensures
        gen_views(r@) == spec_gen(file_descriptors@, string_views(files_to_generate@)),
{
    let mut results: Vec<GenResult> = Vec::new();
    let mut i: usize = 0;
    let ghost names = string_views(files_to_generate@);
    assert(names.take(0) =~= Seq::<Seq<char>>::empty());
    while i < files_to_generate.len()
        invariant
            i <= files_to_generate@.len(),
            names == string_views(files_to_generate@),
            forall|k: int|
                0 <= k < files_to_generate@.len() ==> can_generate(
                    file_descriptors@,
                    #[trigger] files_to_generate@[k]@,
                ),
            gen_views(results@) == spec_gen(file_descriptors@, names.take(i as int)),
        decreases files_to_generate@.len() - i,
    {
        let name = &files_to_generate[i];
        assert(can_generate(file_descriptors@, files_to_generate@[i as int]@));
        assert(names.take(i + 1).drop_last() =~= names.take(i as int));
        let idx = match find_file_index(file_descriptors, name) {
            Some(idx) => idx,
            None => {
                assert(false);
                return results;
            },
        };
        let file = &file_descriptors[idx];
        let ghost before = results@;
        if file.services.len() != 0 {
            match gen_file(file) {
                Some(g) => {
                    results.push(g);
                    assert(gen_views(results@) =~= gen_views(before).push(g@));
                },
                None => {},
            }
        }
        i = i + 1;
    }
    assert(names.take(names.len() as int) =~= names);
    results
}

/// A requested file without services adds nothing to what is generated.
pub proof fn lemma_gen_skips_file_without_services(
    fds: Seq<FileDescriptor>,
    names: Seq<Seq<char>>,
    name: Seq<char>,
)
    requires
        find_file(fds, name) matches Some(f) && f.services@.len() == 0,
    ensures
        spec_gen(fds, names.push(name)) == spec_gen(fds, names),
{
    assert(names.push(name).drop_last() =~= names);
    assert(spec_gen(fds, names) + Seq::<(Seq<char>, Seq<char>)>::empty() =~= spec_gen(fds, names));
}

/// A requested file with services adds one generated file, named after its
/// Rust module with `_grpc.rs` appended.
pub proof fn lemma_gen_one_file_per_file_with_services(
    fds: Seq<FileDescriptor>,
    names: Seq<Seq<char>>,
    name: Seq<char>,
)
    requires
        find_file(fds, name) matches Some(f) && f.services@.len() > 0,
    ensures
        spec_gen(fds, names.push(name)) == spec_gen(fds, names).push(
            (
                spec_proto_path_to_rust_mod(find_file(fds, name).unwrap().name@) + "_grpc.rs"@,
                file_text(find_file(fds, name).unwrap()),
            ),
        ),
{
    assert(names.push(name).drop_last() =~= names);
}

/// Whether `piece` occurs in `text`.
pub open spec fn occurs_in(piece: Seq<char>, text: Seq<char>) -> bool {
    exists|i: int|
        0 <= i && i + piece.len() <= text.len() && #[trigger] text.subrange(i, i + piece.len())
            == piece
}

/// The method `m` with its server-streaming flag set to `b`.
pub open spec fn with_server_streaming(m: MethodDescriptor, b: bool) -> MethodDescriptor {
    MethodDescriptor { server_streaming: b, ..m }
}

/// The method `m` with its client-streaming flag set to `b`.
pub open spec fn with_client_streaming(m: MethodDescriptor, b: bool) -> MethodDescriptor {
    MethodDescriptor { client_streaming: b, ..m }
}

/// A piece that stands between two others occurs in their concatenation.
proof fn lemma_occurs_between(a: Seq<char>, piece: Seq<char>, b: Seq<char>)
    ensures
        occurs_in(piece, a + piece + b),
{
    let i = a.len() as int;
    assert((a + piece + b).subrange(i, i + piece.len()) =~= piece);
}

/// A line with text is its indentation, its text and a line break.
proof fn lemma_line_with_text(ind: Seq<char>, line: Seq<char>)
    requires
        line.len() > 0,
    ensures
        line_text(ind, line) == ind + line + seq!['\n'],
{
    reveal(line_text);
}

/// The line of a streaming flag, as text.
proof fn lemma_flag_line(ind: Seq<char>, name: Seq<char>, b: bool)
    requires
        name == "server_streaming"@ || name == "client_streaming"@,
    ensures
        field_entry_text(ind, name, bool_text(b)) == ind + (name + ": "@ + bool_text(b) + ","@)
            + seq!['\n'],
{
    reveal_strlit("server_streaming");
    reveal_strlit("client_streaming");
    lemma_line_with_text(ind, name + ": "@ + bool_text(b) + ","@);
}

/// The descriptor of a method, cut around the line of one of its fields:
/// the lines before it, that line, and the lines after it.
proof fn lemma_descriptor_split(
    f: Seq<char>,
    h1: Seq<char>,
    h2: Seq<char>,
    l: Seq<char>,
    t1: Seq<char>,
    t2: Seq<char>,
    g: Seq<char>,
)
    ensures
        f + (h1 + h2 + l + t1 + t2) + g == (f + h1 + h2) + l + (t1 + t2 + g),
{
    assert(f + (h1 + h2 + l + t1 + t2) + g =~= (f + h1 + h2) + l + (t1 + t2 + g));
}

/// A line `ind + text + break`, cut around its text.
proof fn lemma_regroup_line(x: Seq<char>, ind: Seq<char>, text: Seq<char>, y: Seq<char>)
    ensures
        x + (ind + text + seq!['\n']) + y == (x + ind) + text + (seq!['\n'] + y),
{
    assert(x + (ind + text + seq!['\n']) + y =~= (x + ind) + text + (seq!['\n'] + y));
}

/// The descriptor written for a method states whether the server streams:
/// the descriptors of a method with the flag set and of the same method
/// without it are the same text around one field, which reads
/// `server_streaming: true,` for the one and `server_streaming: false,` for
/// the other.
pub proof fn lemma_descriptor_states_server_streaming(
    m: MethodDescriptor,
    sp: Seq<char>,
    ind: Seq<char>,
    before: Seq<char>,
    after: Seq<char>,
)
    ensures
        exists|p: Seq<char>, s: Seq<char>|
            #![trigger p + "server_streaming: true,"@ + s]
            method_descriptor_text(with_server_streaming(m, true), sp, ind, before, after) == p
                + "server_streaming: true,"@ + s && method_descriptor_text(
                with_server_streaming(m, false),
                sp,
                ind,
                before,
                after,
            ) == p + "server_streaming: false,"@ + s,
{
    reveal(method_descriptor_text);
    let ni = nested(ind);
    let f = line_text(ind, before + "::grpc::method::MethodDescriptor {"@);
    let g = line_text(ind, "}"@ + after);
    let h1 = field_entry_text(ni, "name"@, "\""@ + sp + "/"@ + m.name@ + "\".to_string()"@);
    let h2 = field_entry_text(ni, "client_streaming"@, bool_text(m.client_streaming));
    let t1 = field_entry_text(ni, "req_marshaller"@, "Box::new(::grpc::grpc_protobuf::MarshallerProtobuf)"@);
    let t2 = field_entry_text(ni, "resp_marshaller"@, "Box::new(::grpc::grpc_protobuf::MarshallerProtobuf)"@);
    let y = t1 + t2 + g;
    let p = f + h1 + h2 + ni;
    let s = seq!['\n'] + y;
    reveal_strlit("server_streaming");
    reveal_strlit(": ");
    reveal_strlit("true");
    reveal_strlit("false");
    reveal_strlit(",");
    reveal_strlit("server_streaming: true,");
    reveal_strlit("server_streaming: false,");
    assert("server_streaming"@ + ": "@ + bool_text(true) + ","@ =~= "server_streaming: true,"@);
    assert("server_streaming"@ + ": "@ + bool_text(false) + ","@ =~= "server_streaming: false,"@);
    lemma_flag_line(ni, "server_streaming"@, true);
    lemma_flag_line(ni, "server_streaming"@, false);
    let l_on = field_entry_text(ni, "server_streaming"@, bool_text(true));
    let l_off = field_entry_text(ni, "server_streaming"@, bool_text(false));
    lemma_descriptor_split(f, h1, h2, l_on, t1, t2, g);
    lemma_descriptor_split(f, h1, h2, l_off, t1, t2, g);
    lemma_regroup_line(f + h1 + h2, ni, "server_streaming: true,"@, y);
    lemma_regroup_line(f + h1 + h2, ni, "server_streaming: false,"@, y);
    assert(method_descriptor_text(with_server_streaming(m, true), sp, ind, before, after) == p
        + "server_streaming: true,"@ + s);
    assert(method_descriptor_text(with_server_streaming(m, false), sp, ind, before, after) == p
        + "server_streaming: false,"@ + s);
}

/// The descriptor written for a method states whether the client streams:
/// the descriptors of a method with the flag set and of the same method
/// without it are the same text around one field, which reads
/// `client_streaming: true,` for the one and `client_streaming: false,` for
/// the other.
pub proof fn lemma_descriptor_states_client_streaming(
    m: MethodDescriptor,
    sp: Seq<char>,
    ind: Seq<char>,
    before: Seq<char>,
    after: Seq<char>,
)
    ensures
        exists|p: Seq<char>, s: Seq<char>|
            #![trigger p + "client_streaming: true,"@ + s]
            method_descriptor_text(with_client_streaming(m, true), sp, ind, before, after) == p
                + "client_streaming: true,"@ + s && method_descriptor_text(
                with_client_streaming(m, false),
                sp,
                ind,
                before,
                after,
            ) == p + "client_streaming: false,"@ + s,
{
    reveal(method_descriptor_text);
    let ni = nested(ind);
    let f = line_text(ind, before + "::grpc::method::MethodDescriptor {"@);
    let g = line_text(ind, "}"@ + after);
    let h1 = field_entry_text(ni, "name"@, "\""@ + sp + "/"@ + m.name@ + "\".to_string()"@);
    let t0 = field_entry_text(ni, "server_streaming"@, bool_text(m.server_streaming));
    let t1 = field_entry_text(ni, "req_marshaller"@, "Box::new(::grpc::grpc_protobuf::MarshallerProtobuf)"@);
    let t2 = field_entry_text(ni, "resp_marshaller"@, "Box::new(::grpc::grpc_protobuf::MarshallerProtobuf)"@);
    let y = t0 + t1 + t2 + g;
    let p = f + h1 + ni;
    let s = seq!['\n'] + y;
    reveal_strlit("client_streaming");
    reveal_strlit(": ");
    reveal_strlit("true");
    reveal_strlit("false");
    reveal_strlit(",");
    reveal_strlit("client_streaming: true,");
    reveal_strlit("client_streaming: false,");
    assert("client_streaming"@ + ": "@ + bool_text(true) + ","@ =~= "client_streaming: true,"@);
    assert("client_streaming"@ + ": "@ + bool_text(false) + ","@ =~= "client_streaming: false,"@);
    lemma_flag_line(ni, "client_streaming"@, true);
    lemma_flag_line(ni, "client_streaming"@, false);
    let l_on = field_entry_text(ni, "client_streaming"@, bool_text(true));
    let l_off = field_entry_text(ni, "client_streaming"@, bool_text(false));
    assert(f + (h1 + l_on + t0 + t1 + t2) + g =~= (f + h1) + l_on + (t0 + t1 + t2 + g));
    assert(f + (h1 + l_off + t0 + t1 + t2) + g =~= (f + h1) + l_off + (t0 + t1 + t2 + g));
    lemma_regroup_line(f + h1, ni, "client_streaming: true,"@, y);
    lemma_regroup_line(f + h1, ni, "client_streaming: false,"@, y);
    assert(method_descriptor_text(with_client_streaming(m, true), sp, ind, before, after) == p
        + "client_streaming: true,"@ + s);
    assert(method_descriptor_text(with_client_streaming(m, false), sp, ind, before, after) == p
        + "client_streaming: false,"@ + s);
}

/// The entries of the server's method list: one more method adds its entry
/// after those of the methods before it, whatever its streaming flags, and
/// no method gives no entry.
pub proof fn lemma_server_entries_one_per_method(
    ms: Seq<MethodDescriptor>,
    m: MethodDescriptor,
    sp: Seq<char>,
    ind: Seq<char>,
)
    ensures
        concat_parts(server_method_parts(ms.push(m), sp, ind)) == concat_parts(
            server_method_parts(ms, sp, ind),
        ) + server_method_text(m, sp, ind),
        concat_parts(server_method_parts(Seq::<MethodDescriptor>::empty(), sp, ind)).len() == 0,
{
    assert(server_method_parts(ms.push(m), sp, ind).drop_last() =~= server_method_parts(ms, sp, ind));
}

/// The entry of a method in the server's method list builds a server method
/// from the method's descriptor and a handler that calls the method by its
/// name, whatever its streaming flags.
pub proof fn lemma_server_entry_serves_method(m: MethodDescriptor, sp: Seq<char>, ind: Seq<char>)
    ensures
        occurs_in("::grpc::method::ServerMethod::new("@, server_method_text(m, sp, ind)),
        occurs_in(method_descriptor_text(m, sp, nested(ind), ""@, ","@), server_method_text(m, sp, ind)),
        occurs_in("handler_copy."@ + m.name@ + "(p))"@, server_method_text(m, sp, ind)),
{
    reveal(server_method_text);
    let t = server_method_text(m, sp, ind);
    let new_call = "::grpc::method::ServerMethod::new("@;
    let first = line_text(ind, new_call);
    let d = method_descriptor_text(m, sp, nested(ind), ""@, ","@);
    let ii = nested(nested(ind));
    let open = line_text(nested(ind), "{"@);
    let l1 = line_text(ii, "let handler_copy = handler_arc.clone();"@);
    let pre = "::grpc::method::MethodHandlerFn::new(move |p| "@;
    let h = "handler_copy."@ + m.name@ + "(p))"@;
    let call = "::grpc::method::MethodHandlerFn::new(move |p| handler_copy."@ + m.name@ + "(p))"@;
    let close = line_text(nested(ind), "},"@);
    let last = line_text(ind, "),"@);
    let lcall = line_text(ii, call);
    assert(t == first + (d + (open + (l1 + lcall) + close)) + last);
    // The first line names the server method.
    reveal_strlit("::grpc::method::ServerMethod::new(");
    lemma_line_with_text(ind, new_call);
    let rest = d + (open + (l1 + lcall) + close) + last;
    assert(t =~= ind + new_call + (seq!['\n'] + rest));
    lemma_occurs_between(ind, new_call, seq!['\n'] + rest);
    // The descriptor follows it.
    assert(t =~= first + d + ((open + (l1 + lcall) + close) + last));
    lemma_occurs_between(first, d, (open + (l1 + lcall) + close) + last);
    // The handler calls the method by its name.
    reveal_strlit("::grpc::method::MethodHandlerFn::new(move |p| handler_copy.");
    reveal_strlit("::grpc::method::MethodHandlerFn::new(move |p| ");
    reveal_strlit("handler_copy.");
    assert(call =~= pre + h);
    assert(call.len() > 0);
    lemma_line_with_text(ii, call);
    let x = first + d + open + l1 + ii + pre;
    let y = seq!['\n'] + close + last;
    assert(t =~= x + h + y);
    lemma_occurs_between(x, h, y);
}

} // verus!
