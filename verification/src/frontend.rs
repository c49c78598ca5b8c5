//! Trusted boundary to the wire-format encoders of `postgres_protocol`.
//!
//! Each request frame the engine emits is written by the outside crate; the
//! bytes of a frame are named by an uninterpreted function of the frame's
//! arguments, and the verified encoding functions state their output as
//! concatenations of those frames.

use vstd::prelude::*;
use postgres_protocol::message::frontend as pfe;

verus! {

/// The bytes of a Bind frame for the given portal, statement, parameter
/// formats and parameter values (`None` is a null parameter), with the
/// result-format hint fixed to binary.
pub uninterp spec fn bind_frame(
    portal: Seq<char>,
    statement: Seq<char>,
    formats: Seq<i16>,
    values: Seq<Option<Seq<u8>>>,
) -> Seq<u8>;

/// The bytes of a Parse frame for the given statement name, query text and
/// declared parameter-type identifiers.
pub uninterp spec fn parse_frame(name: Seq<char>, query: Seq<char>, param_oids: Seq<u32>) -> Seq<
    u8,
>;

/// The bytes of a Describe frame targeting the statement of the given name.
pub uninterp spec fn describe_statement_frame(name: Seq<char>) -> Seq<u8>;

/// The bytes of an Execute frame for the given portal and row limit
/// (0 = unlimited).
pub uninterp spec fn execute_frame(portal: Seq<char>, max_rows: i32) -> Seq<u8>;

/// The bytes of a Close frame targeting the statement of the given name.
pub uninterp spec fn close_statement_frame(name: Seq<char>) -> Seq<u8>;

/// Whether a Bind frame for these arguments can be encoded at all: per the
/// encoder's source, the portal and statement names hold no NUL and the
/// list counts and value lengths fit the frame's 16- and 32-bit fields.
pub uninterp spec fn bind_writes(
    portal: Seq<char>,
    statement: Seq<char>,
    formats: Seq<i16>,
    values: Seq<Option<Seq<u8>>>,
) -> bool;

/// Whether a Parse frame for these arguments can be encoded: the names
/// hold no NUL and the counts and lengths fit the frame's fields.
pub uninterp spec fn parse_writes(name: Seq<char>, query: Seq<char>, param_oids: Seq<u32>) -> bool;

/// Whether a Describe frame for this statement name can be encoded: the
/// name holds no NUL and the frame length fits its field.
pub uninterp spec fn describe_statement_writes(name: Seq<char>) -> bool;

/// Whether an Execute frame for this portal can be encoded: the name holds
/// no NUL and the frame length fits its field. Per the encoder's source
/// the row limit plays no part in success.
pub uninterp spec fn execute_writes(portal: Seq<char>) -> bool;

/// Whether a Close frame for this statement name can be encoded: the name
/// holds no NUL and the frame length fits its field.
pub uninterp spec fn close_statement_writes(name: Seq<char>) -> bool;

/// The bytes of a Sync frame: the tag `'S'` followed by the length of the
/// body (4, counting the length field itself).
pub open spec fn sync_frame() -> Seq<u8> {
    seq![83u8, 0u8, 0u8, 0u8, 4u8]
}

/// Relies on `postgres_protocol::message::frontend::bind`: appends one Bind
/// frame, succeeding exactly when the frame can be encoded (the serializer
/// handed to it only writes the given bytes and never fails); on a
/// buffer-level encode error (an embedded NUL, an oversized value or list)
/// the buffer is left untouched.
#[verifier::external_body]
pub(crate) fn write_bind(
    portal: &str,
    statement: &str,
    formats: &Vec<i16>,
    values: &Vec<Option<Vec<u8>>>,
    buf: &mut Vec<u8>,
) -> (r: Result<(), String>)
    ensures
        r is Ok <==> bind_writes(portal@, statement@, formats@, values.deep_view()),
        r is Ok ==> final(buf)@ == old(buf)@ + bind_frame(
            portal@,
            statement@,
            formats@,
            values.deep_view(),
        ),
        r is Err ==> final(buf)@ == old(buf)@,
{
    let mut b = bytes::BytesMut::new();
    let r = pfe::bind(portal, statement, formats.iter().copied(), values.iter(),
        |v: &Option<Vec<u8>>, b: &mut bytes::BytesMut| match v {
            Some(x) => { bytes::BufMut::put_slice(b, x); Ok(postgres_protocol::IsNull::No) },
            None => Ok(postgres_protocol::IsNull::Yes),
        }, Some(1), &mut b);
    match r {
        Ok(()) => { buf.extend_from_slice(&b); Ok(()) },
        Err(pfe::BindError::Conversion(e)) => Err(format!("{}", e)),
        Err(pfe::BindError::Serialization(e)) => Err(format!("{}", e)),
    }
}

/// Relies on `postgres_protocol::message::frontend::parse`: appends one
/// Parse frame, succeeding exactly when the frame can be encoded; on a
/// buffer-level encode error the buffer is left untouched.
#[verifier::external_body]
pub(crate) fn write_parse(
    name: &str,
    query: &str,
    param_oids: &Vec<u32>,
    buf: &mut Vec<u8>,
) -> (r: Result<(), String>)
    ensures
        r is Ok <==> parse_writes(name@, query@, param_oids@),
        r is Ok ==> final(buf)@ == old(buf)@ + parse_frame(name@, query@, param_oids@),
        r is Err ==> final(buf)@ == old(buf)@,
{
    let mut b = bytes::BytesMut::new();
    match postgres_protocol::message::frontend::parse(name, query, param_oids.iter().copied(), &mut b) {
        Ok(()) => {
            buf.extend_from_slice(&b);
            Ok(())
        },
        Err(e) => Err(format!("{}", e)),
    }
}

/// Relies on `postgres_protocol::message::frontend::describe` with the
/// statement variant `b'S'`: appends one Describe frame, succeeding
/// exactly when the frame can be encoded; on a buffer-level encode error
/// the buffer is left untouched.
#[verifier::external_body]
pub(crate) fn write_describe_statement(name: &str, buf: &mut Vec<u8>) -> (r: Result<(), String>)
    ensures
        r is Ok <==> describe_statement_writes(name@),
        r is Ok ==> final(buf)@ == old(buf)@ + describe_statement_frame(name@),
        r is Err ==> final(buf)@ == old(buf)@,
{
    let mut b = bytes::BytesMut::new();
    match postgres_protocol::message::frontend::describe(b'S', name, &mut b) {
        Ok(()) => {
            buf.extend_from_slice(&b);
            Ok(())
        },
        Err(e) => Err(format!("{}", e)),
    }
}

/// Relies on `postgres_protocol::message::frontend::execute`: appends one
/// Execute frame, succeeding exactly when the frame can be encoded; on a
/// buffer-level encode error the buffer is left untouched.
#[verifier::external_body]
pub(crate) fn write_execute(portal: &str, max_rows: i32, buf: &mut Vec<u8>) -> (r: Result<
    (),
    String,
>)
    ensures
        r is Ok <==> execute_writes(portal@),
        r is Ok ==> final(buf)@ == old(buf)@ + execute_frame(portal@, max_rows),
        r is Err ==> final(buf)@ == old(buf)@,
{
    let mut b = bytes::BytesMut::new();
    match postgres_protocol::message::frontend::execute(portal, max_rows, &mut b) {
        Ok(()) => {
            buf.extend_from_slice(&b);
            Ok(())
        },
        Err(e) => Err(format!("{}", e)),
    }
}

/// Relies on `postgres_protocol::message::frontend::close` with the
/// statement variant `b'S'`: appends one Close frame, succeeding exactly
/// when the frame can be encoded; on a buffer-level encode error the
/// buffer is left untouched.
#[verifier::external_body]
pub(crate) fn write_close_statement(name: &str, buf: &mut Vec<u8>) -> (r: Result<(), String>)
    ensures
        r is Ok <==> close_statement_writes(name@),
        r is Ok ==> final(buf)@ == old(buf)@ + close_statement_frame(name@),
        r is Err ==> final(buf)@ == old(buf)@,
{
    let mut b = bytes::BytesMut::new();
    match postgres_protocol::message::frontend::close(b'S', name, &mut b) {
        Ok(()) => {
            buf.extend_from_slice(&b);
            Ok(())
        },
        Err(e) => Err(format!("{}", e)),
    }
}

/// Relies on `postgres_protocol::message::frontend::sync`: appends the
/// five fixed bytes of a Sync frame and cannot fail.
#[verifier::external_body]
pub(crate) fn write_sync(buf: &mut Vec<u8>)
    ensures
        final(buf)@ == old(buf)@ + sync_frame(),
{
    let mut b = bytes::BytesMut::new();
    postgres_protocol::message::frontend::sync(&mut b);
    buf.extend_from_slice(&b);
}

} // verus!
