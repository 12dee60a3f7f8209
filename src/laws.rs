//! What a round trip through the columnar-format vocabulary keeps: the
//! message, and whether the error was a schema error. Nothing else.
use crate::convert::{arrow_error_of, arrow_message, arrow_prefix};
use crate::error::Error;
use arrow_schema::ArrowError;
use vstd::prelude::*;

verus! {

/// Converts an error into the columnar-format vocabulary and back, which is
/// what happens to an error that passes through a columnar-format callback.
/// What comes back is a columnar-format error whose message is the text of
/// the columnar-format error it went through.
pub fn arrow_round_trip(e: Error) -> (r: Error)
    ensures
        r is Arrow,
        r.message() == arrow_prefix(e) + arrow_message(e),
{
    let a = ArrowError::from(e);
    Error::from(a)
}

/// An index error and an I/O error with the same message become the same
/// columnar-format error, so nothing after that conversion can tell them apart.
pub proof fn index_and_io_meet_in_arrow(m: String)
    ensures
        arrow_error_of(Error::Index(m)) == arrow_error_of(Error::IO(m)),
{
}

/// Two errors come back from a round trip through the columnar-format
/// vocabulary with the same text exactly when both or neither are schema
/// errors and they carry the same message across: the kinds other than
/// schema errors are lost, and nothing more.
pub proof fn arrow_round_trip_loss(a: Error, b: Error)
    ensures
        arrow_prefix(a) + arrow_message(a) == arrow_prefix(b) + arrow_message(b) <==> ((a is Schema)
            == (b is Schema) && arrow_message(a) == arrow_message(b)),
{
    reveal_strlit("Schema error: ");
    reveal_strlit("Io error: ");
    let pa = arrow_prefix(a);
    let pb = arrow_prefix(b);
    let ta = pa + arrow_message(a);
    let tb = pb + arrow_message(b);
    if ta == tb {
        if (a is Schema) != (b is Schema) {
            assert(ta[0] == pa[0]);
            assert(tb[0] == pb[0]);
        }
        assert(pa == pb);
        assert(arrow_message(a) =~= ta.subrange(pa.len() as int, ta.len() as int));
        assert(arrow_message(b) =~= tb.subrange(pb.len() as int, tb.len() as int));
    }
}

} // verus!
