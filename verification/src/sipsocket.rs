//! The signalling socket at a glance: the types that a caller of the
//! engine works with, under one roof.

pub use crate::connection::{ConnectError, Connection, SendError};
pub use crate::dialog::{Dialog, RequestBuilder};
pub use crate::key::TransactionKey;
pub use crate::message::{Header, Method, Request, Response, StatusCode};
pub use crate::multiplexer::{Action, Event, Frame, RunError};
pub use crate::registration::{Progress, RegisterError, Registration};
pub use crate::transaction::{
    ClientTransaction, ResponseBuilder, ServerTransaction, TransactionError,
};
