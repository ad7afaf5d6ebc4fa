use grpc::codegen::{gen, gen_file, gen_file_in_module, FileDescriptor, MethodDescriptor, ServiceDescriptor};
use grpc::code_writer::CodeWriter as LineWriter;
use protobuf::code_writer::CodeWriter;

fn method(name: &str, input: &str, output: &str, cs: bool, ss: bool) -> MethodDescriptor {
    MethodDescriptor {
        name: name.to_string(),
        input_rust_name: input.to_string(),
        output_rust_name: output.to_string(),
        client_streaming: cs,
        server_streaming: ss,
    }
}

fn sample_file(name: &str) -> FileDescriptor {
    FileDescriptor {
        name: name.to_string(),
        package: "helloworld".to_string(),
        services: vec![
            ServiceDescriptor {
                name: "Greeter".to_string(),
                methods: vec![
                    method("SayHello", "helloworld::HelloRequest", "helloworld::HelloReply", false, false),
                    method("SayBye", "helloworld::ByeRequest", "helloworld::ByeReply", true, false),
                ],
            },
            ServiceDescriptor { name: "Empty".to_string(), methods: vec![] },
        ],
    }
}

// The generation as written with protobuf's own `CodeWriter`, for comparison.
struct Oracle<'a> {
    m: &'a MethodDescriptor,
    service_path: String,
}

impl<'a> Oracle<'a> {
    fn input(&self) -> String {
        format!("super::{}", self.m.input_rust_name)
    }
    fn output(&self) -> String {
        format!("super::{}", self.m.output_rust_name)
    }
    fn sync_sig(&self) -> String {
        format!("{}(&self, p: {}) -> {}", self.m.name, self.input(), self.output())
    }
    fn async_sig(&self) -> String {
        format!("{}(&self, p: {}) -> ::grpc::futures_grpc::GrpcFuture<{}>", self.m.name, self.input(), self.output())
    }
    fn write_method_descriptor(&self, w: &mut CodeWriter, before: &str, after: &str) {
        w.block(&format!("{}{}", before, "::grpc::method::MethodDescriptor {"), &format!("{}{}", "}", after), |w| {
            w.field_entry("name", &format!("\"{}/{}\".to_string()", self.service_path, self.m.name));
            w.field_entry("client_streaming", if self.m.client_streaming { "true" } else { "false" });
            w.field_entry("server_streaming", if self.m.server_streaming { "true" } else { "false" });
            w.field_entry("req_marshaller", "Box::new(::grpc::grpc_protobuf::MarshallerProtobuf)");
            w.field_entry("resp_marshaller", "Box::new(::grpc::grpc_protobuf::MarshallerProtobuf)");
        });
    }
    fn write_client(&self, w: &mut CodeWriter, sig: String, call: &str) {
        w.def_fn(&sig, |w| {
            self.write_method_descriptor(
                w,
                &format!("let method: ::grpc::method::MethodDescriptor<{}, {}> = ", self.input(), self.output()),
                ";",
            );
            w.write_line(call)
        });
    }
}

fn oracle_service(s: &ServiceDescriptor, package: &str, w: &mut CodeWriter) {
    let sp = format!("/{}.{}", package, s.name);
    let ms: Vec<Oracle> = s.methods.iter().map(|m| Oracle { m, service_path: sp.clone() }).collect();
    let intf = s.name.clone();
    let aintf = format!("{}Async", intf);
    let client = format!("{}Client", intf);
    let aclient = format!("{}Client", aintf);
    let server = format!("{}Server", intf);
    w.comment("interface");
    w.write_line("");
    w.pub_trait(&intf, |w| {
        for (i, m) in ms.iter().enumerate() {
            if i != 0 {
                w.write_line("");
            }
            w.fn_def(&m.sync_sig());
        }
    });
    w.write_line("");
    w.pub_trait(&aintf, |w| {
        for (i, m) in ms.iter().enumerate() {
            if i != 0 {
                w.write_line("");
            }
            w.fn_def(&m.async_sig());
        }
    });
    w.write_line("");
    w.comment("sync client");
    w.write_line("");
    w.pub_struct(&client, |w| w.field_decl("grpc_client", "::std::cell::RefCell<::grpc::client::GrpcClient>"));
    w.write_line("");
    w.impl_self_block(&client, |w| {
        w.pub_fn("new(host: &str, port: u16) -> Self", |w| {
            w.expr_block(&client, |w| {
                w.field_entry("grpc_client", "::std::cell::RefCell::new(::grpc::client::GrpcClient::new(host, port))");
            });
        });
    });
    w.write_line("");
    w.impl_for_block(&intf, &client, |w| {
        for (i, m) in ms.iter().enumerate() {
            if i != 0 {
                w.write_line("");
            }
            m.write_client(w, m.sync_sig(), "self.grpc_client.borrow_mut().call(p, method)");
        }
    });
    w.write_line("");
    w.comment("async client");
    w.write_line("");
    w.pub_struct(&aclient, |w| w.field_decl("grpc_client_async", "::grpc::client_async::GrpcClientAsync"));
    w.write_line("");
    w.impl_self_block(&aclient, |w| {
        w.pub_fn("new(host: &str, port: u16) -> Self", |w| {
            w.expr_block(&aclient, |w| {
                w.field_entry("grpc_client_async", "::grpc::client_async::GrpcClientAsync::new(host, port)");
            });
        });
    });
    w.write_line("");
    w.impl_for_block(&aintf, &aclient, |w| {
        for (i, m) in ms.iter().enumerate() {
            if i != 0 {
                w.write_line("");
            }
            m.write_client(w, m.async_sig(), "self.grpc_client_async.call(p, method)");
        }
    });
    w.write_line("");
    w.comment("sync server");
    w.write_line("");
    w.pub_struct(&server, |w| w.field_decl("server", "::grpc::server::GrpcServer"));
    w.write_line("");
    w.impl_self_block(&server, |w| {
        w.pub_fn(&format!("new<H : {} + 'static + Sync + Send>(h: H) -> {}", intf, server), |w| {
            w.write_line("let handler_arc = ::std::sync::Arc::new(h);");
            w.block("let service_definition = ::std::sync::Arc::new(::grpc::method::ServerServiceDefinition::new(", "));", |w| {
                w.block("vec![", "],", |w| {
                    for m in &ms {
                        w.block("::grpc::method::ServerMethod::new(", "),", |w| {
                            m.write_method_descriptor(w, "", ",");
                            w.block("{", "},", |w| {
                                w.write_line("let handler_copy = handler_arc.clone();");
                                w.write_line(format!("::grpc::method::MethodHandlerFn::new(move |p| handler_copy.{}(p))", m.m.name));
                            });
                        });
                    }
                });
            });
            w.expr_block(&server, |w| {
                w.field_entry("server", "::grpc::server::GrpcServer::new(service_definition)");
            });
        });
        w.write_line("");
        w.pub_fn("run(&mut self)", |w| w.write_line("self.server.run()"));
    });
}

fn oracle_file(f: &FileDescriptor) -> String {
    let mut v = Vec::new();
    {
        let mut w = CodeWriter::new(&mut v);
        w.write_generated();
        w.write_line("");
        for s in &f.services {
            w.write_line("");
            oracle_service(s, &f.package, &mut w);
        }
    }
    String::from_utf8(v).unwrap()
}

#[test]
fn generated_file_matches_the_code_writer_of_protobuf() {
    let f = sample_file("protos/helloworld.proto");
    let g = gen_file_in_module(&f, "helloworld");
    assert_eq!(g.name, "helloworld_grpc.rs");
    assert_eq!(g.content, oracle_file(&f));
    assert!(g.content.contains("\"/helloworld.Greeter/SayHello\".to_string()"));
    assert!(g.content.contains("    fn SayHello(&self, p: super::helloworld::HelloRequest) -> super::helloworld::HelloReply;\n"));
    assert!(g.content.contains("client_streaming: true,"));
}

#[test]
fn gen_file_names_the_file_after_its_rust_module() {
    let f = sample_file("protos/hello-world.proto");
    let g = gen_file(&f).unwrap();
    assert_eq!(g.name, format!("{}_grpc.rs", protobuf::descriptorx::proto_path_to_rust_mod("protos/hello-world.proto")));
    assert_eq!(g.name, "hello_world_grpc.rs");
    let f = sample_file("type.proto");
    assert_eq!(gen_file(&f).unwrap().name, "type_pb_grpc.rs");
}

#[test]
fn files_without_services_generate_nothing() {
    let f = FileDescriptor { name: "a.proto".to_string(), package: "p".to_string(), services: vec![] };
    assert!(gen_file(&f).is_none());
}

#[test]
fn gen_follows_the_requested_order_and_skips_files_without_services() {
    let fds = vec![
        sample_file("x/first.proto"),
        FileDescriptor { name: "plain.proto".to_string(), package: "q".to_string(), services: vec![] },
        sample_file("second.proto"),
    ];
    let names = vec!["second.proto".to_string(), "plain.proto".to_string(), "x/first.proto".to_string()];
    let rs = gen(&fds, &names);
    assert_eq!(rs.len(), 2);
    assert_eq!(rs[0].name, "second_grpc.rs");
    assert_eq!(rs[1].name, "first_grpc.rs");
    assert_eq!(rs[1].content, oracle_file(&fds[0]));
}

#[test]
fn gen_takes_the_last_file_of_a_name() {
    let mut other = sample_file("dup.proto");
    other.package = "other".to_string();
    let fds = vec![sample_file("dup.proto"), other];
    let rs = gen(&fds, &["dup.proto".to_string()]);
    assert_eq!(rs.len(), 1);
    assert!(rs[0].content.contains("/other.Greeter/SayHello"));
}

#[test]
fn line_writer_matches_protobuf_blocks() {
    let mut w = LineWriter::new();
    let outer = w.begin_expr_block("impl Foo");
    w.write_line("let x = 1;");
    w.write_empty_line();
    let inner = w.begin_block("match x {");
    w.field_entry("a", "b");
    w.end_block(inner, "};");
    w.comment("");
    w.end_expr_block(outer);

    let mut v = Vec::new();
    {
        let mut p = CodeWriter::new(&mut v);
        p.expr_block("impl Foo", |p| {
            p.write_line("let x = 1;");
            p.write_line("");
            p.block("match x {", "};", |p| p.field_entry("a", "b"));
            p.comment("");
        });
    }
    assert_eq!(w.out, String::from_utf8(v).unwrap());
}
