//! Connections through a Shadowsocks proxy: the `ss://` credentials, the server and the target that
//! they lead to, and the steps from a request to a connection.
pub mod auth;
pub mod base64_text;
pub mod cipher;
pub mod connect;
pub mod destination;
pub mod probe;
pub mod proxy_url;
pub mod server;
pub mod tls;
