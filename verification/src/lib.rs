//! Building blocks for HTTP clients and servers: a message body that can be
//! buffered, read or streamed, and a chain of middleware in front of an
//! endpoint.

pub mod app;
pub mod body;
pub mod buffer;
pub mod codec;
pub mod endpoint;
pub mod error;
pub mod hook;
pub mod middleware;
pub mod mime_guess;
pub mod parts;
pub mod request;
pub mod response;
pub mod source;

pub use app::App;
pub use body::{Body, BodyError};
pub use endpoint::Endpoint;
pub use error::{HttpError, ResultExt};
pub use hook::Hook;
pub use middleware::{Middleware, Next};
pub use mime_guess::guess;
pub use request::Request;
pub use response::Response;
