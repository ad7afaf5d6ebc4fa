# grpc

A gRPC server and code generator, written in Verus.

`src/` is the verified library:

- `request`: headers of HTTP/2, streams as received, and the request of a
  call read from the headers of gRPC, with the timeout of `grpc-timeout`;
- `server`: responses, the router that answers the streams closed by the
  peer, and the connection preface;
- `status`: the status codes of gRPC and their text;
- `codegen` and `code_writer`: the Rust code generated for the services of a
  protobuf file;
- `num`, `time`, `text`, `debug`, `errors`: decimal numbers, durations,
  strings, debug text of byte strings, and the errors of the library.

`app/` holds what does I/O: the HTTP/2 connections over TCP and TLS (with
`solicit` and `openssl`), the synchronous sender of a futures channel, and the
protoc plugin (with `protobuf`).
