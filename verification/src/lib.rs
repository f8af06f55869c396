//! Service-Oriented Vehicle Diagnostics (SOVD): data models, the diagnostic
//! entity repository and the request logic of an SOVD server, verified with Verus.

pub mod diagnostic;
pub mod gateway;
pub mod json;
pub mod models;
pub mod opensovd;
pub mod server;
pub mod table;
pub mod text;
