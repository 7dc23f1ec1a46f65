//! The core of a minimal Gemini server: everything that one connection needs
//! between the raw transport and the content it serves.
//!
//! A client sends one URL line over TLS, the server answers with a status
//! line and a body, and the connection closes. The crate holds the TLS record
//! engine that carries a session through handshake, exchange and close
//! (`engine`), the framer that turns decrypted bytes into a validated request
//! (`request`), the writer that sends status line and body in bounded chunks
//! (`response`), and the machine that takes one connection through these
//! steps in order (`connection`). `config` makes the TLS configuration that
//! all connections share.
//!
//! The crate performs no transport I/O. Ciphertext comes in and goes out as
//! byte slices and vectors; sockets, files and threads belong to the caller.
//! The TLS implementation and the URL parser are outside code, reached
//! through the few unverified functions of `tls`, `text` and `config`.

pub mod config;
pub mod connection;
pub mod engine;
pub mod request;
pub mod response;
pub mod text;
pub mod tls;
