use cause::{decimal_text, location_text, Cause, Source};

#[derive(Debug, PartialEq, Eq)]
pub enum ErrorType {
    InvalidArgumentsError,
    InternalError,
    UnknownError,
    NotFoundError,
}

#[derive(Debug)]
enum AlphabetError {
    AError,
    BError,
    CError,
}


#[test]
fn it_works() {
    let cause = Cause::new(ErrorType::InternalError);
    let http_status_code = match *cause {
        ErrorType::InternalError => 500,
        ErrorType::InvalidArgumentsError => 400,
        _ => 418,
    };
    assert_eq!(*cause, ErrorType::InternalError);
    assert_eq!(http_status_code, 500);

    println!("{}", Cause::new(ErrorType::InternalError).msg("oh no!").to_string());
    println!("{}", Cause::new(ErrorType::InvalidArgumentsError).msg("oops").to_string());

    println!("{}", Cause::new(AlphabetError::AError).to_string());
    println!("{}", Cause::new(AlphabetError::BError).to_string());

    println!(
        "{}",
        Cause::new(ErrorType::InternalError)
            .src(Cause::new(ErrorType::UnknownError).msg("nested").into_source())
            .msg("something went wrong")
            .to_string()
    );
    println!(
        "{}",
        Cause::new(ErrorType::InternalError)
            .src(Cause::new(AlphabetError::CError).into_source())
            .msg("another nested")
            .to_string()
    );

    let io_err = std::io::Error::new(std::io::ErrorKind::Other, "oh no!");
    println!(
        "{}",
        Cause::new(ErrorType::InternalError)
            .src(Source::new(io_err.to_string()))
            .msg("internal error caused by io error")
            .to_string()
    );
}

#[test]
fn bare_cause_renders_kind() {
    let cause = Cause::new(ErrorType::InternalError);
    assert_eq!(cause.to_string(), "InternalError".to_string());
    assert!(cause.message().is_none());
    assert!(cause.source().is_none());
    assert_eq!(Cause::new(AlphabetError::BError).to_string(), "BError".to_string());
}

#[test]
fn message_renders_after_colon() {
    let cause = Cause::new(ErrorType::InvalidArgumentsError).msg("oops!");
    assert_eq!(cause.to_string(), "InvalidArgumentsError: oops!".to_string());
    assert_eq!(cause.message(), Some(&"oops!".to_string()));
    assert!(cause.source().is_none());
}

#[test]
fn empty_message_still_renders_colon() {
    let cause = Cause::new(ErrorType::InternalError).msg("");
    assert_eq!(cause.to_string(), "InternalError: ".to_string());
}

#[test]
fn source_renders_caused_by_block() {
    let cause = Cause::new(ErrorType::InternalError).src(Cause::new(ErrorType::NotFoundError).into_source());
    assert_eq!(
        cause.to_string(),
        "InternalError\n\nCaused by:\n    NotFoundError\n".to_string()
    );
    assert!(cause.message().is_none());
    assert!(cause.source().is_some());
    assert_eq!(cause.source().unwrap().text(), &"NotFoundError".to_string());
}

#[test]
fn message_and_source_in_either_order() {
    let a = Cause::new(ErrorType::InternalError)
        .msg("failed")
        .src(Source::new("disk full".to_string()));
    let b = Cause::new(ErrorType::InternalError)
        .src(Source::new("disk full".to_string()))
        .msg("failed");
    let expected = "InternalError: failed\n\nCaused by:\n    disk full\n".to_string();
    assert_eq!(a.to_string(), expected);
    assert_eq!(b.to_string(), expected);
}

#[test]
fn later_message_and_source_replace_earlier() {
    let cause = Cause::new(ErrorType::UnknownError)
        .msg("first")
        .msg("second")
        .src(Source::new("one".to_string()))
        .src(Source::new("two".to_string()));
    assert_eq!(cause.message(), Some(&"second".to_string()));
    assert_eq!(
        cause.to_string(),
        "UnknownError: second\n\nCaused by:\n    two\n".to_string()
    );
}

#[test]
fn nesting_two_levels() {
    let inner = Cause::new(AlphabetError::CError).msg("deep");
    let middle = Cause::new(ErrorType::UnknownError).msg("nested").src(inner.into_source());
    let outer = Cause::new(ErrorType::InternalError)
        .msg("something went wrong")
        .src(middle.into_source());
    assert_eq!(
        outer.to_string(),
        "InternalError: something went wrong\n\nCaused by:\n    UnknownError: nested\n\nCaused by:\n    CError: deep\n\n"
            .to_string()
    );
    let first = outer.source().unwrap();
    assert_eq!(
        first.text(),
        &"UnknownError: nested\n\nCaused by:\n    CError: deep\n".to_string()
    );
    let second = first.source().unwrap();
    assert_eq!(second.text(), &"CError: deep".to_string());
    assert!(second.source().is_none());
}

#[test]
fn deref_matches_every_variant() {
    let kinds = vec![ErrorType::InvalidArgumentsError, ErrorType::InternalError, ErrorType::UnknownError, ErrorType::NotFoundError];
    let codes = vec![400, 500, 418, 404];
    for (kind, code) in kinds.into_iter().zip(codes) {
        let cause = Cause::new(kind).msg("m").src(Source::new("s".to_string()));
        let got = match *cause {
            ErrorType::InvalidArgumentsError => 400,
            ErrorType::InternalError => 500,
            ErrorType::UnknownError => 418,
            ErrorType::NotFoundError => 404,
        };
        assert_eq!(got, code);
        let again = match cause.cause() {
            ErrorType::InvalidArgumentsError => 400,
            ErrorType::InternalError => 500,
            ErrorType::UnknownError => 418,
            ErrorType::NotFoundError => 404,
        };
        assert_eq!(again, code);
    }
}

#[test]
fn render_with_given_kind_text() {
    let cause = Cause::new(7u8).msg("late").src(Source::new("timeout".to_string()));
    assert_eq!(
        cause.render_with("Slow"),
        "Slow: late\n\nCaused by:\n    timeout\n".to_string()
    );
    assert_eq!(cause.to_string(), "7: late\n\nCaused by:\n    timeout\n".to_string());
}

#[test]
fn into_source_with_keeps_chain() {
    let cause = Cause::new(0u8).src(Source::new("root".to_string()));
    let source = cause.into_source_with("Top");
    assert_eq!(source.text(), &"Top\n\nCaused by:\n    root\n".to_string());
    assert_eq!(source.source().unwrap().text(), &"root".to_string());
}

#[test]
fn foreign_error_chain() {
    let io_err = std::io::Error::new(std::io::ErrorKind::Other, "oh no!");
    let source = Source::new("read failed".to_string()).with_source(Source::new(io_err.to_string()));
    let cause = Cause::new(ErrorType::InternalError)
        .src(source)
        .msg("internal error caused by io error");
    assert_eq!(
        cause.to_string(),
        "InternalError: internal error caused by io error\n\nCaused by:\n    read failed\n".to_string()
    );
    assert_eq!(
        cause.source().unwrap().source().unwrap().text(),
        &"oh no!".to_string()
    );
}

#[test]
fn decimal_text_values() {
    assert_eq!(decimal_text(0), "0".to_string());
    assert_eq!(decimal_text(9), "9".to_string());
    assert_eq!(decimal_text(10), "10".to_string());
    assert_eq!(decimal_text(407), "407".to_string());
    assert_eq!(decimal_text(u32::MAX), "4294967295".to_string());
}

#[test]
fn location_text_value() {
    assert_eq!(location_text("src/lib.rs", 59), "[src/lib.rs:59]".to_string());
    assert_eq!(location_text("", 0), "[:0]".to_string());
}
