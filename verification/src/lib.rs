//! A minimal web route table: five static GET endpoints, each serving one
//! server-side HTML page, together with the adapter that turns a template
//! engine's render outcome into an HTTP response.

pub mod page;
pub mod response;
pub mod router;
