//! An execution sandbox for untrusted script modules: the decisions of one
//! invocation, the capability bridge, the peer module table and the error
//! taxonomy, with the interpreter and the host kept behind plain values.

pub mod text;
pub mod error;
pub mod capability;
pub mod codec;
pub mod loader;
pub mod peers;
pub mod session;
pub mod session_laws;
pub mod bridge;
pub mod bridge_laws;
pub mod bindgen_js;
pub mod packaging;
pub mod shims;
