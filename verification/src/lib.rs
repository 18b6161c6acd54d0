//! Core request/response pipeline pieces of an asynchronous network server:
//! a streaming response body that compresses its chunks on the fly, deciding
//! per chunk whether to compress inline or to hand the work to an offload
//! pool, and a keep-alive guard that fails a connection's pipeline once it
//! has been idle past a rolling deadline.

pub mod body;
pub mod compress;
pub mod encoder;
pub mod head;
pub mod keepalive;
