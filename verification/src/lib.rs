//! Request identifiers for an HTTP middleware: how an identifier is produced,
//! where it is kept while a request is handled, and how it is attached to the
//! response.

pub mod canonical;
pub mod context;
pub mod generator;
pub mod headers;
pub mod identifier;
pub mod middleware;
pub mod random;
pub mod slot;

pub use crate::context::RequestIDMessage;
pub use crate::generator::{CustomGenerator, FormattedUuid, IdGenerator, UuidFormat};
pub use crate::headers::{append_header, HeaderError};
pub use crate::identifier::RequestID;
pub use crate::middleware::{
    ConfigError, Pending, RequestIDMiddleware, RequestIDService, DEFAULT_ID_LENGTH,
    REQUEST_ID_HEADER,
};
pub use crate::slot::{
    clear_current_request_id, get_current_request_id, set_current_request_id, ThreadSlot,
};
