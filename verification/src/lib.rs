//! A transparent proxy: the decisions and the wire formats of a local endpoint that
//! passes redirected TCP connections on through a SOCKS5 or an HTTP proxy server.

pub mod addr;
pub mod buffer;
pub mod error;
pub mod fd;
pub mod http;
pub mod listener;
pub mod relay;
pub mod socks;
pub mod startup;
pub mod text;
pub mod zero_copy;
