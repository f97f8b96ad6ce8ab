use railmap::ast::{Identifier, Quoted, Step};
use railmap::lexer::{comment, identifier, quoted, skip_opt_ws, skip_ws, tag};
use railmap::source::Source;

fn src(s: &str) -> Source {
    Source::new(s)
}

/// Parses `tag` after mandatory white space and returns what remains.
fn ws_tag(input: &str, t: &str) -> Option<String> {
    let source = src(input);
    let start = skip_ws(&source, 0)?;
    let end = tag(&source, start, t)?;
    Some(source.rest(end))
}

/// Parses `tag` after optional white space and returns what remains.
fn opt_ws_tag(input: &str, t: &str) -> Option<String> {
    let source = src(input);
    let start = skip_opt_ws(&source, 0);
    let end = tag(&source, start, t)?;
    Some(source.rest(end))
}

#[test]
fn test_identifier() {
    fn parse(input: &str) -> Identifier {
        let source = src(input);
        let (id, end) = identifier(&source, 0).unwrap();
        assert!(source.rest(end).is_empty());
        id
    }
    fn remains(input: &str) -> String {
        let source = src(input);
        let (_, end) = identifier(&source, 0).unwrap();
        source.rest(end)
    }

    assert_eq!(parse("foo").as_str(), "foo");
    assert_eq!(parse("fü1").as_str(), "fü1");
    assert_eq!(parse("foo.bar").as_str(), "foo.bar");
    assert_eq!(parse("_foo.bar").as_str(), "_foo.bar");
    assert!(identifier(&src("1foo"), 0).is_none());
    assert!(identifier(&src(".foo"), 0).is_none());

    assert_eq!(remains("foo#"), "#");
    assert_eq!(remains("foo "), " ");
}

#[test]
fn test_quoted() {
    fn check(input: &str, result: &str, remain: &str) {
        let source = src(input);
        match quoted(&source, 0) {
            Step::Done(res, end) => {
                let res: Quoted = res;
                assert!(result == res.as_str());
                assert!(source.rest(end) == remain);
            }
            _ => panic!("failed to parse {:?}", input),
        }
    }

    check("\"foo\"bar", "foo", "bar");
    check("\"fo\\\"o\"", "fo\"o", "");
    check("\"fo\\\\o\"", "fo\\o", "");
    check("\"fo\\x20o\"", "fo o", "");
    check("\"fo\\u{12ffe}o\"", "fo\u{12ffe}o", "");
    check("\"fo\\u{1}o\"", "fo\u{1}o", "");

    assert!(!matches!(quoted(&src("\"fo\\x90o\""), 0), Step::Done(..)));
}

#[test]
fn test_ws() {
    assert!(ws_tag("foo", "foo").is_none());
    assert_eq!(ws_tag("  foo", "foo").unwrap(), "");
    assert_eq!(ws_tag("# bla\nfoo", "foo").unwrap(), "");
    assert_eq!(ws_tag("# bla\n  foo", "foo").unwrap(), "");
    assert_eq!(ws_tag("  # bla\n  foo", "foo").unwrap(), "");
}

#[test]
fn test_opt_ws() {
    assert_eq!(opt_ws_tag("foo", "foo").unwrap(), "");
    assert_eq!(opt_ws_tag("  foo", "foo").unwrap(), "");
    assert_eq!(opt_ws_tag("# bla\nfoo", "foo").unwrap(), "");
    assert_eq!(opt_ws_tag("# bla\n  foo", "foo").unwrap(), "");
    assert_eq!(opt_ws_tag("  # bla\n  foo", "foo").unwrap(), "");
}

#[test]
fn test_skip_ws() {
    assert!(skip_ws(&src("foo"), 0).is_none());
    let source = src(" \n\t foo");
    assert_eq!(source.rest(skip_ws(&source, 0).unwrap()), "foo");
}

#[test]
fn test_skip_opt_ws() {
    let source = src("foo");
    assert_eq!(source.rest(skip_opt_ws(&source, 0)), "foo");
    let source = src(" \n\t foo");
    assert_eq!(source.rest(skip_opt_ws(&source, 0)), "foo");
}

#[test]
fn test_comment() {
    let source = src("# foo\nbar");
    assert_eq!(source.rest(comment(&source, 0).unwrap()), "bar");
}
