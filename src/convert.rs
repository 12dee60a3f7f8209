//! The conversions into `Error` from the errors of the subsystems that the
//! engine calls, and out of it into those of the subsystems that call it.
//!
//! Each inbound conversion keeps the upstream error's rendered text; only
//! columnar-format errors keep a kind of their own, all others become `IO`.
//!
//! Where an upstream error can hold an `std::io::Error` (itself, or as a
//! boxed source), its text may come from the platform's message catalogue
//! and is not a function of the error alone: such a conversion states only
//! that the message is what `to_string` gave for the error.
use crate::error::Error;
use crate::outside::{
    arrow_io_error,
    arrow_schema_error,
    datafusion_execution_error,
    decode_error_text,
    describe_decode_error,
    describe_join_error,
    describe_parser_error,
    describe_tokenizer_error,
    join_error_text,
    new_arrow_io_error,
    new_arrow_schema_error,
    new_datafusion_execution_error,
    parser_error_text,
    tokenizer_error_text,
};
use arrow_schema::ArrowError;
use datafusion::error::DataFusionError;
use object_store::path::Error as PathError;
use object_store::Error as ObjectStoreError;
use prost::DecodeError;
use sqlparser::parser::ParserError;
use sqlparser::tokenizer::TokenizerError;
use tokio::task::JoinError;
use vstd::prelude::*;

verus! {

impl From<ArrowError> for Error {
    fn from(e: ArrowError) -> (r: Error)
        ensures
            r matches Error::Arrow(s) && vstd::string::to_string_from_display_ensures::<
                ArrowError,
            >(&e, s),
    {
        Error::Arrow(e.to_string())
    }
}

impl vstd::std_specs::convert::FromSpecImpl<ArrowError> for Error {
    open spec fn obeys_from_spec() -> bool {
        false
    }

    open spec fn from_spec(e: ArrowError) -> Error {
        arbitrary()
    }
}

impl<'a> From<&'a ArrowError> for Error {
    fn from(e: &'a ArrowError) -> (r: Error)
        ensures
            r matches Error::Arrow(s) && vstd::string::to_string_from_display_ensures::<
                ArrowError,
            >(e, s),
    {
        Error::Arrow(e.to_string())
    }
}

impl<'a> vstd::std_specs::convert::FromSpecImpl<&'a ArrowError> for Error {
    open spec fn obeys_from_spec() -> bool {
        false
    }

    open spec fn from_spec(e: &'a ArrowError) -> Error {
        arbitrary()
    }
}

impl From<std::io::Error> for Error {
    fn from(e: std::io::Error) -> (r: Error)
        ensures
            r matches Error::IO(s) && vstd::string::to_string_from_display_ensures::<
                std::io::Error,
            >(&e, s),
    {
        Error::IO(e.to_string())
    }
}

impl vstd::std_specs::convert::FromSpecImpl<std::io::Error> for Error {
    open spec fn obeys_from_spec() -> bool {
        false
    }

    open spec fn from_spec(e: std::io::Error) -> Error {
        arbitrary()
    }
}

impl From<ObjectStoreError> for Error {
    fn from(e: ObjectStoreError) -> (r: Error)
        ensures
            r matches Error::IO(s) && vstd::string::to_string_from_display_ensures::<
                ObjectStoreError,
            >(&e, s),
    {
        Error::IO(e.to_string())
    }
}

impl vstd::std_specs::convert::FromSpecImpl<ObjectStoreError> for Error {
    open spec fn obeys_from_spec() -> bool {
        false
    }

    open spec fn from_spec(e: ObjectStoreError) -> Error {
        arbitrary()
    }
}

impl From<DecodeError> for Error {
    fn from(e: DecodeError) -> (r: Error)
        ensures
            r == Error::IO(decode_error_text(e)),
    {
        Error::IO(describe_decode_error(&e))
    }
}

impl vstd::std_specs::convert::FromSpecImpl<DecodeError> for Error {
    open spec fn obeys_from_spec() -> bool {
        true
    }

    open spec fn from_spec(e: DecodeError) -> Error {
        Error::IO(decode_error_text(e))
    }
}

impl From<JoinError> for Error {
    fn from(e: JoinError) -> (r: Error)
        ensures
            r == Error::IO(join_error_text(e)),
    {
        Error::IO(describe_join_error(&e))
    }
}

impl vstd::std_specs::convert::FromSpecImpl<JoinError> for Error {
    open spec fn obeys_from_spec() -> bool {
        true
    }

    open spec fn from_spec(e: JoinError) -> Error {
        Error::IO(join_error_text(e))
    }
}

impl From<PathError> for Error {
    fn from(e: PathError) -> (r: Error)
        ensures
            r matches Error::IO(s) && vstd::string::to_string_from_display_ensures::<
                PathError,
            >(&e, s),
    {
        Error::IO(e.to_string())
    }
}

impl vstd::std_specs::convert::FromSpecImpl<PathError> for Error {
    open spec fn obeys_from_spec() -> bool {
        false
    }

    open spec fn from_spec(e: PathError) -> Error {
        arbitrary()
    }
}

/// Into the columnar-format vocabulary: a schema error keeps its kind, every
/// other kind becomes a generic I/O error, and an early stop becomes an I/O
/// error with the text `early stop`.
pub open spec fn arrow_error_of(e: Error) -> ArrowError {
    match e {
        Error::Arrow(s) => arrow_io_error(s@),
        Error::IO(s) => arrow_io_error(s@),
        Error::Schema(s) => arrow_schema_error(s@),
        Error::Index(s) => arrow_io_error(s@),
        Error::Stop() => arrow_io_error("early stop"@),
    }
}

/// The message that crosses into the columnar-format vocabulary.
pub open spec fn arrow_message(e: Error) -> Seq<char> {
    match e {
        Error::Stop() => "early stop"@,
        _ => e.message(),
    }
}

/// What a columnar-format error's text puts before the message.
pub open spec fn arrow_prefix(e: Error) -> Seq<char> {
    if e is Schema {
        "Schema error: "@
    } else {
        "Io error: "@
    }
}

impl From<Error> for ArrowError {
    fn from(value: Error) -> (r: ArrowError)
        ensures
            r == arrow_error_of(value),
            forall|t: String|
                #[trigger] vstd::string::to_string_from_display_ensures::<ArrowError>(&r, t)
                    ==> t@ == arrow_prefix(value) + arrow_message(value),
    {
        match value {
            Error::Arrow(err) => new_arrow_io_error(err),
            Error::IO(err) => new_arrow_io_error(err),
            Error::Schema(err) => new_arrow_schema_error(err),
            Error::Index(err) => new_arrow_io_error(err),
            Error::Stop() => {
                let text = String::from_str("early stop");
                new_arrow_io_error(text)
            },
        }
    }
}

impl vstd::std_specs::convert::FromSpecImpl<Error> for ArrowError {
    open spec fn obeys_from_spec() -> bool {
        true
    }

    open spec fn from_spec(e: Error) -> ArrowError {
        arrow_error_of(e)
    }
}

impl From<ParserError> for Error {
    fn from(e: ParserError) -> (r: Error)
        ensures
            r == Error::IO(parser_error_text(e)),
    {
        Error::IO(describe_parser_error(&e))
    }
}

impl vstd::std_specs::convert::FromSpecImpl<ParserError> for Error {
    open spec fn obeys_from_spec() -> bool {
        true
    }

    open spec fn from_spec(e: ParserError) -> Error {
        Error::IO(parser_error_text(e))
    }
}

impl From<TokenizerError> for Error {
    fn from(e: TokenizerError) -> (r: Error)
        ensures
            r == Error::IO(tokenizer_error_text(e)),
    {
        Error::IO(describe_tokenizer_error(&e))
    }
}

impl vstd::std_specs::convert::FromSpecImpl<TokenizerError> for Error {
    open spec fn obeys_from_spec() -> bool {
        true
    }

    open spec fn from_spec(e: TokenizerError) -> Error {
        Error::IO(tokenizer_error_text(e))
    }
}

/// Into the distributed-execution vocabulary: every kind becomes an execution
/// error whose message is the rendered text.
impl From<Error> for DataFusionError {
    fn from(e: Error) -> (r: DataFusionError)
        ensures
            r == datafusion_execution_error(e.rendered()),
    {
        new_datafusion_execution_error(e.to_string())
    }
}

impl vstd::std_specs::convert::FromSpecImpl<Error> for DataFusionError {
    open spec fn obeys_from_spec() -> bool {
        true
    }

    open spec fn from_spec(e: Error) -> DataFusionError {
        datafusion_execution_error(e.rendered())
    }
}

/// DataFusion's own `Display` panics on a `DataFusionError::Collection`
/// whose list of errors is empty, and so does this conversion.
impl From<DataFusionError> for Error {
    fn from(e: DataFusionError) -> (r: Error)
        ensures
            r matches Error::IO(s) && vstd::string::to_string_from_display_ensures::<
                DataFusionError,
            >(&e, s),
    {
        Error::IO(e.to_string())
    }
}

impl vstd::std_specs::convert::FromSpecImpl<DataFusionError> for Error {
    open spec fn obeys_from_spec() -> bool {
        false
    }

    open spec fn from_spec(e: DataFusionError) -> Error {
        arbitrary()
    }
}

} // verus!
