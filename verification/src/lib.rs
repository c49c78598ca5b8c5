//! Verified core of an extended-query execution engine for the PostgreSQL
//! wire protocol: parameter binding, request-batch encoding, the ad-hoc
//! query state machine, and pull-based row-stream bookkeeping.

pub mod bind;
pub mod error;
pub mod frontend;
pub mod message;
pub mod query;
pub mod statement;
pub mod tag;
pub mod types;

pub use bind::{encode_bind, encode_bind_with_statement_name_and_param_types, BindValue, SqlValue};
pub use error::{DbError, Error};
pub use message::{FieldDescription, Message};
pub use query::{
    encode, execute_step, query, query_portal, query_with_param_types, start, ExecuteStep,
    ProcessOutcome, QueryProcessingState, RowStream, StreamStep,
};
pub use statement::{encode_close, Column, Portal, Statement};
pub use tag::extract_row_affected;
pub use types::PgType;
