//! Prepared statements, result columns, and portals.
//!
//! A [`Statement`] is the immutable descriptor of a server-side prepared
//! statement: its name (empty for the unnamed slot), its declared parameter
//! types, and the columns of its result rows. Sharing the descriptor across
//! in-flight queries, and sending its teardown batch when the last shared
//! handle is dropped, is the connection layer's business; this crate builds
//! the teardown bytes (see [`encode_close`]).

use vstd::prelude::*;
use crate::error::Error;
use crate::frontend::{
    close_statement_frame, close_statement_writes, sync_frame, write_close_statement, write_sync,
};
use crate::types::{PgType, PgTypeV};

verus! {

/// Mathematical value of a [`Column`].
pub ghost struct ColumnV {
    pub name: Seq<char>,
    pub ty: PgTypeV,
    pub column_id: Option<i16>,
    pub table_oid: Option<u32>,
}

/// Information about a column of a query: its name, its resolved type, and
/// — when the column comes from a table — the table's oid and the column's
/// position in it. The server reports 0 for the latter two when the column
/// is not a simple table column; 0 is mapped to `None` on construction.
pub struct Column {
    name: String,
    type_: PgType,
    column_id: Option<i16>,
    table_oid: Option<u32>,
}

impl View for Column {
    type V = ColumnV;

    closed spec fn view(&self) -> ColumnV {
        ColumnV {
            name: self.name@,
            ty: self.type_@,
            column_id: self.column_id,
            table_oid: self.table_oid,
        }
    }
}

impl DeepView for Column {
    type V = ColumnV;

    open spec fn deep_view(&self) -> ColumnV {
        self.view()
    }
}

/// The value of a column built from a reported id pair: 0 means "absent".
pub open spec fn spec_column(
    name: Seq<char>,
    ty: PgTypeV,
    column_id: i16,
    table_oid: u32,
) -> ColumnV {
    ColumnV {
        name,
        ty,
        column_id: if column_id == 0 {
            None
        } else {
            Some(column_id)
        },
        table_oid: if table_oid == 0 {
            None
        } else {
            Some(table_oid)
        },
    }
}

impl Column {
    pub fn new(name: String, type_: PgType, column_id: i16, table_oid: u32) -> (c: Column)
        ensures
            c@ == spec_column(name@, type_@, column_id, table_oid),
    {
        Column {
            name,
            type_,
            column_id: if column_id == 0 {
                None
            } else {
                Some(column_id)
            },
            table_oid: if table_oid == 0 {
                None
            } else {
                Some(table_oid)
            },
        }
    }

    /// Returns the name of the column.
    pub fn name(&self) -> (r: &str)
        ensures
            r@ == self@.name,
    {
        self.name.as_str()
    }

    /// Returns the type of the column.
    pub fn type_(&self) -> (r: &PgType)
        ensures
            r@ == self@.ty,
    {
        &self.type_
    }

    /// Returns the id of the column if there's one.
    pub fn column_id(&self) -> (r: Option<i16>)
        ensures
            r == self@.column_id,
    {
        self.column_id
    }

    /// Returns the table oid of the column if there's one.
    pub fn table_oid(&self) -> (r: Option<u32>)
        ensures
            r == self@.table_oid,
    {
        self.table_oid
    }
}

impl Clone for Column {
    fn clone(&self) -> (r: Self)
        ensures
            r@ == self@,
    {
        Column {
            name: self.name.clone(),
            type_: self.type_.clone(),
            column_id: self.column_id,
            table_oid: self.table_oid,
        }
    }
}

/// Mathematical value of a [`Statement`].
pub ghost struct StatementV {
    pub name: Seq<char>,
    pub params: Seq<PgTypeV>,
    pub columns: Seq<ColumnV>,
}

/// A prepared statement descriptor: immutable once constructed.
pub struct Statement {
    name: String,
    params: Vec<PgType>,
    columns: Vec<Column>,
}

impl View for Statement {
    type V = StatementV;

    closed spec fn view(&self) -> StatementV {
        StatementV {
            name: self.name@,
            params: self.params.deep_view(),
            columns: self.columns.deep_view(),
        }
    }
}

impl Statement {
    pub fn new(name: String, params: Vec<PgType>, columns: Vec<Column>) -> (s: Statement)
        ensures
            s@ == (StatementV {
                name: name@,
                params: params.deep_view(),
                columns: columns.deep_view(),
            }),
    {
        Statement { name, params, columns }
    }

    /// The throwaway statement the ad-hoc query path synthesizes: it lives
    /// in the server's unnamed slot, so its name is empty, and that path
    /// never echoes parameter types back.
    pub fn unnamed(columns: Vec<Column>) -> (s: Statement)
        ensures
            s@.name == Seq::<char>::empty(),
            s@.params == Seq::<PgTypeV>::empty(),
            s@.columns == columns.deep_view(),
    {
        let s = Statement { name: String::new(), params: Vec::new(), columns };
        proof {
            assert(s@.params =~= Seq::<PgTypeV>::empty());
        }
        s
    }

    /// Returns the name of the statement; the empty name denotes the
    /// unnamed slot.
    pub fn name(&self) -> (r: &str)
        ensures
            r@ == self@.name,
    {
        self.name.as_str()
    }

    /// Returns the expected types of the statement's parameters.
    pub fn params(&self) -> (r: &Vec<PgType>)
        ensures
            r.deep_view() == self@.params,
    {
        &self.params
    }

    /// Returns information about the columns returned when the statement is
    /// queried.
    pub fn columns(&self) -> (r: &Vec<Column>)
        ensures
            r.deep_view() == self@.columns,
    {
        &self.columns
    }
}

impl Clone for Statement {
    fn clone(&self) -> (r: Self)
        ensures
            r@ == self@,
    {
        let mut params: Vec<PgType> = Vec::new();
        let mut i: usize = 0;
        while i < self.params.len()
            invariant
                i <= self.params.len(),
                params@.len() == i,
                forall|k: int| 0 <= k < i ==> #[trigger] params@[k]@ == self.params@[k]@,
            decreases self.params.len() - i,
        {
            params.push(self.params[i].clone());
            i = i + 1;
        }
        let mut columns: Vec<Column> = Vec::new();
        let mut j: usize = 0;
        while j < self.columns.len()
            invariant
                j <= self.columns.len(),
                columns@.len() == j,
                forall|k: int| 0 <= k < j ==> #[trigger] columns@[k]@ == self.columns@[k]@,
            decreases self.columns.len() - j,
        {
            columns.push(self.columns[j].clone());
            j = j + 1;
        }
        proof {
            assert forall|k: int| 0 <= k < params@.len() implies #[trigger] params.deep_view()[k]
                == self.params.deep_view()[k] by {
                assert(params.deep_view()[k] == params@[k].deep_view());
                assert(self.params.deep_view()[k] == self.params@[k].deep_view());
            }
            assert(params.deep_view() =~= self.params.deep_view());
            assert forall|k: int| 0 <= k < columns@.len() implies #[trigger] columns.deep_view()[k]
                == self.columns.deep_view()[k] by {
                assert(columns.deep_view()[k] == columns@[k].deep_view());
                assert(self.columns.deep_view()[k] == self.columns@[k].deep_view());
            }
            assert(columns.deep_view() =~= self.columns.deep_view());
        }
        Statement { name: self.name.clone(), params, columns }
    }
}

/// Mathematical value of a [`Portal`].
pub ghost struct PortalV {
    pub name: Seq<char>,
    pub statement: StatementV,
}

/// An open server-side cursor: a name plus the statement that produced it.
pub struct Portal {
    name: String,
    statement: Statement,
}

impl View for Portal {
    type V = PortalV;

    closed spec fn view(&self) -> PortalV {
        PortalV { name: self.name@, statement: self.statement@ }
    }
}

impl Portal {
    pub fn new(name: String, statement: Statement) -> (p: Portal)
        ensures
            p@ == (PortalV { name: name@, statement: statement@ }),
    {
        Portal { name, statement }
    }

    /// The portal's server-side name.
    pub fn name(&self) -> (r: &str)
        ensures
            r@ == self@.name,
    {
        self.name.as_str()
    }

    /// The statement the portal was bound from, used to interpret its rows.
    pub fn statement(&self) -> (r: &Statement)
        ensures
            r@ == self@.statement,
    {
        &self.statement
    }
}

/// Builds the teardown batch for the statement of the given name: exactly
/// one Close frame for it, followed by Sync. On failure nothing is written;
/// teardown is best-effort, so the connection layer swallows the error.
pub fn encode_close(name: &str, buf: &mut Vec<u8>) -> (r: Result<(), Error>)
    ensures
        r is Ok <==> close_statement_writes(name@),
        r is Ok ==> final(buf)@ == old(buf)@ + close_statement_frame(name@) + sync_frame(),
        r matches Err(e) ==> final(buf)@ == old(buf)@ && e is Serialization,
{
    let mut tmp: Vec<u8> = Vec::new();
    match write_close_statement(name, &mut tmp) {
        Ok(()) => {},
        Err(m) => {
            return Err(Error::Serialization { message: m });
        },
    }
    write_sync(&mut tmp);
    proof {
        assert(old(buf)@ + tmp@ =~= old(buf)@ + close_statement_frame(name@) + sync_frame());
    }
    buf.append(&mut tmp);
    Ok(())
}

} // verus!
