//! The errors of the subsystems around the engine, and the calls into their
//! crates that the conversions make.
use object_store::path::Error as PathError;
use object_store::Error as ObjectStoreError;
use vstd::prelude::*;

verus! {

#[verifier::external_type_specification]
#[verifier::external_body]
pub struct ExArrowError(arrow_schema::ArrowError);

#[verifier::external_type_specification]
#[verifier::external_body]
pub struct ExIoError(std::io::Error);

#[verifier::external_type_specification]
#[verifier::external_body]
pub struct ExObjectStoreError(ObjectStoreError);

#[verifier::external_type_specification]
#[verifier::external_body]
pub struct ExPathError(PathError);

#[verifier::external_type_specification]
#[verifier::external_body]
pub struct ExDecodeError(prost::DecodeError);

#[verifier::external_type_specification]
#[verifier::external_body]
pub struct ExJoinError(tokio::task::JoinError);

#[verifier::external_type_specification]
#[verifier::external_body]
pub struct ExParserError(sqlparser::parser::ParserError);

#[verifier::external_type_specification]
#[verifier::external_body]
pub struct ExTokenizerError(sqlparser::tokenizer::TokenizerError);

#[verifier::external_type_specification]
#[verifier::external_body]
pub struct ExDataFusionError(datafusion::error::DataFusionError);

/// The text that `prost::DecodeError`'s `Display` gives for an error.
pub uninterp spec fn decode_error_text(e: prost::DecodeError) -> String;

/// The text that `tokio::task::JoinError`'s `Display` gives for an error.
pub uninterp spec fn join_error_text(e: tokio::task::JoinError) -> String;

/// The text that `sqlparser::parser::ParserError`'s `Display` gives for an error.
pub uninterp spec fn parser_error_text(e: sqlparser::parser::ParserError) -> String;

/// The text that `sqlparser::tokenizer::TokenizerError`'s `Display` gives for an error.
pub uninterp spec fn tokenizer_error_text(e: sqlparser::tokenizer::TokenizerError) -> String;

/// The value `ArrowError::IoError` built from a message, with an
/// `std::io::Error` of kind `Other` holding the same message beside it.
pub uninterp spec fn arrow_io_error(msg: Seq<char>) -> arrow_schema::ArrowError;

/// The value `ArrowError::SchemaError` built from a message.
pub uninterp spec fn arrow_schema_error(msg: Seq<char>) -> arrow_schema::ArrowError;

/// The value `DataFusionError::Execution` built from a message.
pub uninterp spec fn datafusion_execution_error(msg: Seq<char>) -> datafusion::error::DataFusionError;

/// Relies on `prost::DecodeError`'s `Display`, a function of the error alone.
#[verifier::external_body]
pub(crate) fn describe_decode_error(e: &prost::DecodeError) -> (r: String)
    ensures
        r == decode_error_text(*e),
{
    e.to_string()
}

/// Relies on `tokio::task::JoinError`'s `Display`, a function of the error
/// alone (its task id and whether the task panicked or was cancelled).
#[verifier::external_body]
pub(crate) fn describe_join_error(e: &tokio::task::JoinError) -> (r: String)
    ensures
        r == join_error_text(*e),
{
    e.to_string()
}

/// Relies on `sqlparser::parser::ParserError`'s `Display`, a function of the error alone.
#[verifier::external_body]
pub(crate) fn describe_parser_error(e: &sqlparser::parser::ParserError) -> (r: String)
    ensures
        r == parser_error_text(*e),
{
    e.to_string()
}

/// Relies on `sqlparser::tokenizer::TokenizerError`'s `Display`, a function of
/// the error alone (its message and location).
#[verifier::external_body]
pub(crate) fn describe_tokenizer_error(e: &sqlparser::tokenizer::TokenizerError) -> (r: String)
    ensures
        r == tokenizer_error_text(*e),
{
    e.to_string()
}

/// Relies on `ArrowError::IoError`, which carries the message beside an
/// `std::io::Error` of kind `Other`, and on its `Display`, which writes
/// `Io error: <message>`.
#[verifier::external_body]
pub(crate) fn new_arrow_io_error(msg: String) -> (r: arrow_schema::ArrowError)
    ensures
        r == arrow_io_error(msg@),
        forall|t: String|
            #[trigger] vstd::string::to_string_from_display_ensures::<arrow_schema::ArrowError>(
                &r,
                t,
            ) ==> t@ == "Io error: "@ + msg@,
{
    let source = std::io::Error::other(msg.clone());
    arrow_schema::ArrowError::IoError(msg, source)
}

/// Relies on `ArrowError::SchemaError`, and on its `Display`, which writes
/// `Schema error: <message>`.
#[verifier::external_body]
pub(crate) fn new_arrow_schema_error(msg: String) -> (r: arrow_schema::ArrowError)
    ensures
        r == arrow_schema_error(msg@),
        forall|t: String|
            #[trigger] vstd::string::to_string_from_display_ensures::<arrow_schema::ArrowError>(
                &r,
                t,
            ) ==> t@ == "Schema error: "@ + msg@,
{
    arrow_schema::ArrowError::SchemaError(msg)
}

/// Relies on `DataFusionError::Execution`, which holds the message as given.
#[verifier::external_body]
pub(crate) fn new_datafusion_execution_error(msg: String) -> (r: datafusion::error::DataFusionError)
    ensures
        r == datafusion_execution_error(msg@),
{
    datafusion::error::DataFusionError::Execution(msg)
}

} // verus!
