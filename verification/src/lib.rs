//! A bridge that lets a foreign caller drive a SQL client through plain,
//! fixed-layout values and opaque handles.
//!
//! The crate holds the rules of that bridge: which handles are alive, who may
//! free what and when, how parameters are tagged and encoded, and how a result
//! set is walked. Talking to the database itself is left to the embedding
//! program, which tells the bridge what the database answered.
//!
//! A session goes like this:
//!
//! 1. [`connect`] holds the connection string against the client's grammar.
//!    The embedding program dials, and [`connected`] parks the session behind
//!    a handle.
//! 2. [`new_query`] starts a query on a connection, and [`query_param`] binds
//!    its parameters in order.
//! 3. [`query_exec`] or [`query_exec_result`] takes the query out of the
//!    bridge for its one run. The embedding program prepares the statement
//!    and says so with [`Run::prepared`], which holds the bound parameters
//!    against the placeholders; if they fit, it runs the statement.
//!    [`executed`] or [`executed_with_result`] wraps what came of it.
//! 4. [`next_row`] walks a result set, and [`row_len`] and [`row_item`] read
//!    the row it stands on.
//! 5. [`result_close`], [`close`] and [`error_free`] end the life of a handle.
//!    Each handle can be ended once; whatever is done with it afterwards is
//!    refused.

pub mod bridge;
pub mod buffer;
pub mod connection;
pub mod error;
pub mod opaque;
pub mod param;
pub mod query;
pub mod result;
pub mod row;
pub mod stream;

pub use crate::bridge::Bridge;
pub use crate::buffer::Buffer;
pub use crate::connection::{close, connect, connected, Connecting};
pub use crate::error::{error_free, error_msg, Error, ErrorKind};
pub use crate::opaque::{HandleKind, HandleTable, Opaque, OpaquePtr};
pub use crate::param::{
    EncodingPolicy, Float8, Int4, IsNull, ParamType, QueryParam, Text, TypedParam, TypedQueryParam,
};
pub use crate::query::{
    executed, executed_with_result, new_query, query_exec, query_exec_result, query_param,
    Dispatch, Query, Run,
};
pub use crate::result::FFIResult;
pub use crate::row::{next_row, row_close, row_item, row_len, Column, Row, RowHandle, RowItem};
pub use crate::stream::{result_close, QueryResult, StreamView};
