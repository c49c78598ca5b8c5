//! The parameter binder: serializes a typed parameter list into one Bind
//! frame, choosing a wire format per parameter and capturing the first
//! conversion failure with its zero-based position.

use vstd::prelude::*;
use crate::error::Error;
use crate::frontend::{bind_frame, bind_writes, write_bind};
use crate::statement::Statement;
use crate::types::{PgType, PgTypeV};

verus! {

/// A caller-supplied parameter value, as the binder sees it: for a target
/// type it prefers a wire format, and its conversion against that type
/// either yields the wire bytes (`None` encodes SQL NULL) or fails with a
/// message. Callers implement this for their own value types; [`SqlValue`]
/// is the crate's ready-made carrier.
pub trait BindValue {
    /// The wire format the value prefers for the target type: 0 text,
    /// 1 binary. The default (binary, like a conversion to NULL below) is
    /// for carriers outside the verifier's reach; a verified
    /// implementation overrides it to match `wire_format`.
    open spec fn format_spec(&self, ty: PgTypeV) -> i16 {
        1
    }

    /// The conversion outcome of the value against the target type.
    open spec fn conversion_spec(&self, ty: PgTypeV) -> Result<Option<Seq<u8>>, Seq<char>> {
        Ok(None)
    }

    /// Choose the wire format for the target type.
    fn wire_format(&self, ty: &PgType) -> (f: i16)
        ensures
            f == self.format_spec(ty@),
    ;

    /// Convert the value against the target type.
    fn to_wire(&self, ty: &PgType) -> (r: Result<Option<Vec<u8>>, String>)
        ensures
            r matches Ok(v) ==> self.conversion_spec(ty@) matches Ok(w) && v.deep_view() == w,
            r matches Err(m) ==> self.conversion_spec(ty@) matches Err(w) && m@ == w,
    ;
}

/// A parameter value already lowered to its wire encoding, or the
/// conversion failure it produced.
pub enum SqlValue {
    /// SQL NULL.
    Null,
    /// A value rendered in text format.
    Text(Vec<u8>),
    /// A value rendered in binary format.
    Binary(Vec<u8>),
    /// A value whose conversion to the target type fails with a message.
    Unconvertible(String),
}

fn copy_bytes(v: &Vec<u8>) -> (r: Vec<u8>)
    ensures
        r@ == v@,
{
    let mut r: Vec<u8> = Vec::new();
    let mut i: usize = 0;
    while i < v.len()
        invariant
            i <= v.len(),
            r@ =~= v@.take(i as int),
        decreases v.len() - i,
    {
        r.push(v[i]);
        i = i + 1;
    }
    proof {
        assert(r@ =~= v@);
    }
    r
}

impl BindValue for SqlValue {
    open spec fn format_spec(&self, ty: PgTypeV) -> i16 {
        match self {
            SqlValue::Text(_) => 0,
            _ => 1,
        }
    }

    open spec fn conversion_spec(&self, ty: PgTypeV) -> Result<Option<Seq<u8>>, Seq<char>> {
        match self {
            SqlValue::Null => Ok(None),
            SqlValue::Text(b) => Ok(Some(b@)),
            SqlValue::Binary(b) => Ok(Some(b@)),
            SqlValue::Unconvertible(m) => Err(m@),
        }
    }

    fn wire_format(&self, ty: &PgType) -> (f: i16) {
        match self {
            SqlValue::Text(_) => 0,
            _ => 1,
        }
    }

    fn to_wire(&self, ty: &PgType) -> (r: Result<Option<Vec<u8>>, String>) {
        match self {
            SqlValue::Null => Ok(None),
            SqlValue::Text(b) => {
                let c = copy_bytes(b);
                proof {
                    assert(c.deep_view() =~= b@);
                }
                Ok(Some(c))
            },
            SqlValue::Binary(b) => {
                let c = copy_bytes(b);
                proof {
                    assert(c.deep_view() =~= b@);
                }
                Ok(Some(c))
            },
            SqlValue::Unconvertible(m) => Err(m.clone()),
        }
    }
}

/// The wire formats chosen for the parameters, in parameter order.
pub open spec fn formats_of<P: BindValue>(params: Seq<P>, tys: Seq<PgTypeV>) -> Seq<i16> {
    Seq::new(params.len(), |i: int| params[i].format_spec(tys[i]))
}

/// All parameters before `k` convert successfully against their types.
pub open spec fn converts_up_to<P: BindValue>(params: Seq<P>, tys: Seq<PgTypeV>, k: int) -> bool {
    forall|j: int| 0 <= j < k ==> (#[trigger] params[j].conversion_spec(tys[j])) is Ok
}

/// The converted wire values, in parameter order; meaningful where the
/// conversions succeed.
pub open spec fn values_of<P: BindValue>(params: Seq<P>, tys: Seq<PgTypeV>) -> Seq<
    Option<Seq<u8>>,
> {
    Seq::new(params.len(), |i: int| params[i].conversion_spec(tys[i])->Ok_0)
}

/// Serialize a parameter list into one Bind frame appended to `buf`, for
/// the statement of the given name and the given target portal.
///
/// The parameter count must equal the declared type count, or the bind
/// fails with `ParameterCountMismatch` before anything is encoded. The
/// first parameter whose conversion fails aborts the bind with
/// `ParameterConversion` carrying its zero-based index; later parameters
/// are not converted. On any failure the buffer is left untouched.
pub fn encode_bind_with_statement_name_and_param_types<P: BindValue>(
    statement_name: &str,
    param_types: &Vec<PgType>,
    params: &Vec<P>,
    portal: &str,
    buf: &mut Vec<u8>,
) -> (r: Result<(), Error>)
    ensures
        r is Err ==> final(buf)@ == old(buf)@,
        params@.len() != param_types@.len() ==> (r matches Err(e) && e matches
            Error::ParameterCountMismatch { expected, actual } && expected == param_types@.len()
            && actual == params@.len()),
        forall|i: int|
            (0 <= i < params@.len() && params@.len() == param_types@.len() && converts_up_to(
                params@,
                param_types.deep_view(),
                i,
            ) && !((#[trigger] params@[i].conversion_spec(param_types.deep_view()[i])) is Ok)) ==> (
            r matches Err(e) && e matches Error::ParameterConversion { index, message } && index
                == i && message@ == params@[i].conversion_spec(param_types.deep_view()[i])->Err_0),
        (params@.len() == param_types@.len() && converts_up_to(
            params@,
            param_types.deep_view(),
            params@.len() as int,
        )) ==> (r is Ok <==> bind_writes(
            portal@,
            statement_name@,
            formats_of(params@, param_types.deep_view()),
            values_of(params@, param_types.deep_view()),
        )),
        (params@.len() == param_types@.len() && converts_up_to(
            params@,
            param_types.deep_view(),
            params@.len() as int,
        )) ==> (r matches Err(e) ==> e is Serialization),
        r is Ok ==> params@.len() == param_types@.len() && converts_up_to(
            params@,
            param_types.deep_view(),
            params@.len() as int,
        ) && final(buf)@ == old(buf)@ + bind_frame(
            portal@,
            statement_name@,
            formats_of(params@, param_types.deep_view()),
            values_of(params@, param_types.deep_view()),
        ),
{
    let n = param_types.len();
    if params.len() != n {
        return Err(Error::ParameterCountMismatch { expected: n, actual: params.len() });
    }
    let ghost tys = param_types.deep_view();
    let mut formats: Vec<i16> = Vec::new();
    let mut i: usize = 0;
    while i < n
        invariant
            i <= n,
            n == param_types@.len(),
            params@.len() == n,
            tys == param_types.deep_view(),
            formats@.len() == i,
            forall|k: int| 0 <= k < i ==> formats@[k] == params@[k].format_spec(tys[k]),
        decreases n - i,
    {
        formats.push(params[i].wire_format(&param_types[i]));
        i = i + 1;
    }
    proof {
        assert(formats@ =~= formats_of(params@, tys));
    }
    let mut values: Vec<Option<Vec<u8>>> = Vec::new();
    let mut j: usize = 0;
    while j < n
        invariant
            j <= n,
            n == param_types@.len(),
            params@.len() == n,
            tys == param_types.deep_view(),
            formats@ == formats_of(params@, tys),
            values@.len() == j,
            converts_up_to(params@, tys, j as int),
            forall|k: int|
                0 <= k < j ==> #[trigger] values@[k].deep_view() == params@[k].conversion_spec(
                    tys[k],
                )->Ok_0,
        decreases n - j,
    {
        match params[j].to_wire(&param_types[j]) {
            Ok(v) => {
                values.push(v);
            },
            Err(m) => {
                proof {
                    assert(params@[j as int].conversion_spec(tys[j as int]) is Err);
                }
                return Err(Error::ParameterConversion { index: j, message: m });
            },
        }
        j = j + 1;
    }
    proof {
        assert forall|k: int| 0 <= k < values@.len() implies #[trigger] values.deep_view()[k]
            == values_of(params@, tys)[k] by {
            assert(values.deep_view()[k] == values@[k].deep_view());
        }
        assert(values.deep_view() =~= values_of(params@, tys));
    }
    match write_bind(portal, statement_name, &formats, &values, buf) {
        Ok(()) => Ok(()),
        Err(m) => Err(Error::Serialization { message: m }),
    }
}

/// Serialize a parameter list for a prepared [`Statement`] into one Bind
/// frame appended to `buf`, targeting the given portal.
pub fn encode_bind<P: BindValue>(
    statement: &Statement,
    params: &Vec<P>,
    portal: &str,
    buf: &mut Vec<u8>,
) -> (r: Result<(), Error>)
    ensures
        r is Err ==> final(buf)@ == old(buf)@,
        params@.len() != statement@.params.len() ==> (r matches Err(e) && e matches
            Error::ParameterCountMismatch { expected, actual } && expected
            == statement@.params.len() && actual == params@.len()),
        forall|i: int|
            (0 <= i < params@.len() && params@.len() == statement@.params.len() && converts_up_to(
                params@,
                statement@.params,
                i,
            ) && !((#[trigger] params@[i].conversion_spec(statement@.params[i])) is Ok)) ==> (
            r matches Err(e) && e matches Error::ParameterConversion { index, message } && index
                == i && message@ == params@[i].conversion_spec(statement@.params[i])->Err_0),
        (params@.len() == statement@.params.len() && converts_up_to(
            params@,
            statement@.params,
            params@.len() as int,
        )) ==> (r is Ok <==> bind_writes(
            portal@,
            statement@.name,
            formats_of(params@, statement@.params),
            values_of(params@, statement@.params),
        )),
        (params@.len() == statement@.params.len() && converts_up_to(
            params@,
            statement@.params,
            params@.len() as int,
        )) ==> (r matches Err(e) ==> e is Serialization),
        r is Ok ==> params@.len() == statement@.params.len() && converts_up_to(
            params@,
            statement@.params,
            params@.len() as int,
        ) && final(buf)@ == old(buf)@ + bind_frame(
            portal@,
            statement@.name,
            formats_of(params@, statement@.params),
            values_of(params@, statement@.params),
        ),
{
    encode_bind_with_statement_name_and_param_types(
        statement.name(),
        statement.params(),
        params,
        portal,
        buf,
    )
}

} // verus!
