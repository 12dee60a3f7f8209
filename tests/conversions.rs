use arrow_schema::ArrowError;
use datafusion::error::DataFusionError;
use lance_error::laws::arrow_round_trip;
use lance_error::Error;

fn io_message(e: &Error) -> String {
    match e {
        Error::IO(s) => s.clone(),
        other => panic!("expected an I/O error, got {:?}", other),
    }
}

#[test]
fn display_of_each_kind() {
    assert_eq!(
        Error::Arrow("bad array".to_string()).to_string(),
        "UnifiedError(Arrow): bad array"
    );
    assert_eq!(
        Error::Schema("missing column x".to_string()).to_string(),
        "UnifiedError(Schema): missing column x"
    );
    assert_eq!(
        Error::IO("disk gone".to_string()).to_string(),
        "UnifiedError(I/O): disk gone"
    );
    assert_eq!(
        Error::Index("no such index".to_string()).to_string(),
        "UnifiedError(Index): no such index"
    );
    assert_eq!(Error::Stop().to_string(), "UnifiedError(Early stop): ");
}

#[test]
fn display_with_empty_message() {
    assert_eq!(Error::IO(String::new()).to_string(), "UnifiedError(I/O): ");
}

#[test]
fn catalog_and_message_of_each_kind() {
    let e = Error::Index("idx".to_string());
    assert_eq!(e.catalog(), "Index");
    assert_eq!(e.message_str(), "idx");
    assert_eq!(Error::IO("x".to_string()).catalog(), "I/O");
    assert_eq!(Error::Stop().catalog(), "Early stop");
    assert_eq!(Error::Stop().message_str(), "");
}

#[test]
fn from_arrow_error_keeps_kind_and_text() {
    let upstream = ArrowError::SchemaError("field a".to_string());
    let text = upstream.to_string();
    let by_ref = Error::from(&upstream);
    let by_value = Error::from(upstream);
    for e in [by_ref, by_value] {
        match e {
            Error::Arrow(s) => {
                assert_eq!(s, text);
                assert_eq!(s, "Schema error: field a");
            }
            other => panic!("expected an Arrow error, got {:?}", other),
        }
    }
}

#[test]
fn from_io_error() {
    let upstream = std::io::Error::new(std::io::ErrorKind::Other, "pipe closed");
    let text = upstream.to_string();
    let e = Error::from(upstream);
    assert_eq!(io_message(&e), text);
    assert_eq!(io_message(&e), "pipe closed");
}

#[test]
fn from_object_store_error() {
    let upstream = object_store::Error::Generic {
        store: "memory",
        source: "lost connection".into(),
    };
    let text = upstream.to_string();
    let e = Error::from(upstream);
    assert_eq!(io_message(&e), text);
    assert_eq!(io_message(&e), "Generic memory error: lost connection");
}

#[test]
fn from_object_store_path_error() {
    let upstream = object_store::path::Path::parse("foo//bar").unwrap_err();
    let text = upstream.to_string();
    assert!(!text.is_empty());
    let e = Error::from(upstream);
    assert_eq!(io_message(&e), text);
}

#[test]
fn from_decode_error() {
    let mut bytes: &[u8] = &[0xff; 11];
    let upstream = prost::encoding::decode_varint(&mut bytes).unwrap_err();
    let text = upstream.to_string();
    let e = Error::from(upstream);
    assert_eq!(io_message(&e), text);
    assert_eq!(io_message(&e), "failed to decode Protobuf message: invalid varint");
}

#[test]
fn from_join_error() {
    let rt = tokio::runtime::Builder::new_current_thread().build().unwrap();
    let handle = rt.spawn(std::future::pending::<()>());
    handle.abort();
    let upstream = rt.block_on(handle).unwrap_err();
    assert!(upstream.is_cancelled());
    let text = upstream.to_string();
    let e = Error::from(upstream);
    assert_eq!(io_message(&e), text);
    assert!(io_message(&e).ends_with("was cancelled"));
}

#[test]
fn from_parser_error() {
    let upstream = sqlparser::parser::ParserError::ParserError("unexpected token".to_string());
    let text = upstream.to_string();
    let e = Error::from(upstream);
    assert_eq!(io_message(&e), text);
    assert_eq!(io_message(&e), "sql parser error: unexpected token");
}

#[test]
fn from_tokenizer_error() {
    let upstream = sqlparser::tokenizer::TokenizerError {
        message: "unterminated string".to_string(),
        location: sqlparser::tokenizer::Location::of(1, 5),
    };
    let text = upstream.to_string();
    let e = Error::from(upstream);
    assert_eq!(io_message(&e), text);
    assert!(io_message(&e).starts_with("unterminated string"));
}

#[test]
fn from_datafusion_error() {
    let upstream = DataFusionError::Execution("plan failed".to_string());
    let text = upstream.to_string();
    let e = Error::from(upstream);
    assert_eq!(io_message(&e), text);
    assert_eq!(io_message(&e), "Execution error: plan failed");
}

fn parse_fails() -> lance_error::Result<()> {
    Err(sqlparser::parser::ParserError::ParserError("eof".to_string()))?;
    Ok(())
}

#[test]
fn question_mark_converts() {
    assert_eq!(io_message(&parse_fails().unwrap_err()), "sql parser error: eof");
}

#[test]
fn early_stop_into_arrow_is_io_error() {
    let a = ArrowError::from(Error::Stop());
    match &a {
        ArrowError::IoError(text, _) => assert_eq!(text, "early stop"),
        other => panic!("expected an I/O error, got {:?}", other),
    }
    assert_eq!(a.to_string(), "Io error: early stop");
}

#[test]
fn schema_error_into_arrow_keeps_kind() {
    let a = ArrowError::from(Error::Schema("missing column x".to_string()));
    match &a {
        ArrowError::SchemaError(text) => assert_eq!(text, "missing column x"),
        other => panic!("expected a schema error, got {:?}", other),
    }
    assert_eq!(a.to_string(), "Schema error: missing column x");
}

#[test]
fn other_kinds_into_arrow_are_io_errors() {
    for e in [
        Error::Arrow("m".to_string()),
        Error::IO("m".to_string()),
        Error::Index("m".to_string()),
    ] {
        match ArrowError::from(e) {
            ArrowError::IoError(text, _) => assert_eq!(text, "m"),
            other => panic!("expected an I/O error, got {:?}", other),
        }
    }
}

#[test]
fn round_trip_loses_index_kind_only() {
    let index = arrow_round_trip(Error::Index("broken".to_string()));
    let io = arrow_round_trip(Error::IO("broken".to_string()));
    let arrow = arrow_round_trip(Error::Arrow("broken".to_string()));
    let schema = arrow_round_trip(Error::Schema("broken".to_string()));
    let other = arrow_round_trip(Error::IO("fixed".to_string()));
    assert_eq!(index.to_string(), "UnifiedError(Arrow): Io error: broken");
    assert_eq!(index.to_string(), io.to_string());
    assert_eq!(index.to_string(), arrow.to_string());
    assert_eq!(schema.to_string(), "UnifiedError(Arrow): Schema error: broken");
    assert_ne!(index.to_string(), schema.to_string());
    assert_ne!(index.to_string(), other.to_string());
}

#[test]
fn round_trip_of_early_stop() {
    let stop = arrow_round_trip(Error::Stop());
    assert!(matches!(stop, Error::Arrow(_)));
    assert_eq!(stop.message_str(), "Io error: early stop");
    assert_eq!(
        stop.to_string(),
        arrow_round_trip(Error::IO("early stop".to_string())).to_string()
    );
}

#[test]
fn into_datafusion_is_execution_with_rendered_text() {
    for e in [
        Error::Schema("s".to_string()),
        Error::Index("i".to_string()),
        Error::Stop(),
    ] {
        let rendered = e.to_string();
        match DataFusionError::from(e) {
            DataFusionError::Execution(text) => assert_eq!(text, rendered),
            other => panic!("expected an execution error, got {:?}", other),
        }
    }
    let d = DataFusionError::from(Error::Index("i".to_string()));
    assert_eq!(d.to_string(), "Execution error: UnifiedError(Index): i");
}
