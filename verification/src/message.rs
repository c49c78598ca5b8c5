//! The backend reply messages this engine consumes, as plain values.
//!
//! The framing layer that reads bytes off the socket and parses them into
//! typed messages sits outside this crate; the engine receives each reply
//! already parsed.

use vstd::prelude::*;
use crate::error::{DbError, DbErrorV};

verus! {

/// Mathematical value of a [`FieldDescription`].
pub ghost struct FieldDescriptionV {
    pub name: Seq<char>,
    pub table_oid: u32,
    pub column_id: i16,
    pub type_oid: u32,
}

/// One field of a RowDescription reply: the column's name, the table it
/// comes from (0 when none), its position in that table (0 when none), and
/// the wire identifier of its type.
pub struct FieldDescription {
    pub name: String,
    pub table_oid: u32,
    pub column_id: i16,
    pub type_oid: u32,
}

impl View for FieldDescription {
    type V = FieldDescriptionV;

    open spec fn view(&self) -> FieldDescriptionV {
        FieldDescriptionV {
            name: self.name@,
            table_oid: self.table_oid,
            column_id: self.column_id,
            type_oid: self.type_oid,
        }
    }
}

impl DeepView for FieldDescription {
    type V = FieldDescriptionV;

    open spec fn deep_view(&self) -> FieldDescriptionV {
        self.view()
    }
}

/// Mathematical value of a [`Message`].
pub ghost enum MessageV {
    ParseComplete,
    BindComplete,
    ParameterDescription(Seq<u32>),
    RowDescription(Seq<FieldDescriptionV>),
    NoData,
    DataRow(Seq<u8>),
    CommandComplete(Seq<char>),
    EmptyQueryResponse,
    PortalSuspended,
    ReadyForQuery,
    ErrorResponse(DbErrorV),
}

/// A reply message from the backend, already parsed by the framing layer.
pub enum Message {
    ParseComplete,
    BindComplete,
    /// The declared parameter types, as wire identifiers.
    ParameterDescription(Vec<u32>),
    /// The shape of the rows the statement will return.
    RowDescription(Vec<FieldDescription>),
    NoData,
    /// The raw bytes of one row, to be decoded against the statement's
    /// columns.
    DataRow(Vec<u8>),
    /// The completion tag, e.g. `"INSERT 0 3"`.
    CommandComplete(String),
    EmptyQueryResponse,
    PortalSuspended,
    ReadyForQuery,
    ErrorResponse(DbError),
}

impl View for Message {
    type V = MessageV;

    open spec fn view(&self) -> MessageV {
        match self {
            Message::ParseComplete => MessageV::ParseComplete,
            Message::BindComplete => MessageV::BindComplete,
            Message::ParameterDescription(oids) => MessageV::ParameterDescription(oids@),
            Message::RowDescription(fields) => MessageV::RowDescription(fields.deep_view()),
            Message::NoData => MessageV::NoData,
            Message::DataRow(body) => MessageV::DataRow(body@),
            Message::CommandComplete(tag) => MessageV::CommandComplete(tag@),
            Message::EmptyQueryResponse => MessageV::EmptyQueryResponse,
            Message::PortalSuspended => MessageV::PortalSuspended,
            Message::ReadyForQuery => MessageV::ReadyForQuery,
            Message::ErrorResponse(e) => MessageV::ErrorResponse(e@),
        }
    }
}

} // verus!
