use railmap::ast::{Argument, Atom, ErrorKind, Fragment, Statement, StatementList};
use railmap::source::Pos;

fn pos(offset: usize, line: u32, col: usize) -> Pos {
    Pos { offset, line, col }
}

#[test]
fn parse_empty_input() {
    let list = StatementList::parse_str("").unwrap();
    assert!(list.statements.is_empty());
    assert_eq!(list.pos, pos(0, 1, 1));
    let list = StatementList::parse_str("  # only a comment\n\n").unwrap();
    assert!(list.statements.is_empty());
}

#[test]
fn parse_let_and_procedure() {
    let list = StatementList::parse_str("let x = 5;\nline(:first:open, path(\"a\"));\n").unwrap();
    // A procedure does not take its semicolon: that is a no-op of its own.
    assert_eq!(list.statements.len(), 3);
    assert!(matches!(list.statements[2], Statement::NoOp(_)));
    match &list.statements[0] {
        Statement::Let(stm) => {
            assert_eq!(stm.pos, pos(0, 1, 1));
            let assignments = &stm.assignments.assignments;
            assert_eq!(assignments.len(), 1);
            assert_eq!(assignments[0].target.as_str(), "x");
            match &assignments[0].expression.first {
                Fragment::Atom(Atom::Number(n)) => assert_eq!(n.value, "5"),
                other => panic!("unexpected {:?}", other),
            }
        }
        other => panic!("unexpected {:?}", other),
    }
    match &list.statements[1] {
        Statement::Procedure(stm) => {
            // The statement starts where the one before ended.
            assert_eq!(stm.pos, pos(10, 1, 11));
            assert_eq!(stm.ident.as_str(), "line");
            assert_eq!(stm.ident.pos, pos(11, 2, 1));
            assert_eq!(stm.args.arguments.len(), 2);
            match &stm.args.arguments[0] {
                Argument::Pos(expr) => match &expr.first {
                    Fragment::Atom(Atom::SymbolSet(set)) => {
                        assert_eq!(set.symbols.len(), 2);
                        assert_eq!(set.symbols[0].ident.as_str(), "first");
                        assert_eq!(set.symbols[1].ident.as_str(), "open");
                    }
                    other => panic!("unexpected {:?}", other),
                },
                other => panic!("unexpected {:?}", other),
            }
            match &stm.args.arguments[1] {
                Argument::Pos(expr) => match &expr.first {
                    Fragment::Complex(c) => {
                        assert_eq!(c.external.ident.as_str(), "path");
                        assert_eq!(c.external.args.as_ref().unwrap().arguments.len(), 1);
                    }
                    other => panic!("unexpected {:?}", other),
                },
                other => panic!("unexpected {:?}", other),
            }
        }
        other => panic!("unexpected {:?}", other),
    }
}

#[test]
fn parse_noop_and_keyword_argument() {
    let list = StatementList::parse_str(";; marker(size = 3, :small);").unwrap();
    assert_eq!(list.statements.len(), 4);
    assert!(matches!(list.statements[0], Statement::NoOp(_)));
    assert!(matches!(list.statements[3], Statement::NoOp(_)));
    assert!(matches!(list.statements[1], Statement::NoOp(_)));
    match &list.statements[2] {
        Statement::Procedure(stm) => {
            assert_eq!(stm.args.arguments.len(), 2);
            match &stm.args.arguments[0] {
                Argument::Keyword(a) => assert_eq!(a.target.as_str(), "size"),
                other => panic!("unexpected {:?}", other),
            }
        }
        other => panic!("unexpected {:?}", other),
    }
}

#[test]
fn parse_with_blocks() {
    let list = StatementList::parse_str("with detail = 1 { a(); b(); }\nwith detail = 2 c();").unwrap();
    assert_eq!(list.statements.len(), 3);
    assert!(matches!(list.statements[2], Statement::NoOp(_)));
    match &list.statements[0] {
        Statement::With(stm) => {
            assert_eq!(stm.params.assignments.len(), 1);
            assert_eq!(stm.params.assignments[0].target.as_str(), "detail");
            assert_eq!(stm.block.statements.len(), 4);
        }
        other => panic!("unexpected {:?}", other),
    }
    match &list.statements[1] {
        Statement::With(stm) => {
            assert_eq!(stm.block.statements.len(), 1);
            assert!(matches!(stm.block.statements[0], Statement::Procedure(_)));
        }
        other => panic!("unexpected {:?}", other),
    }
}

#[test]
fn parse_error_left_over_text() {
    let err = StatementList::parse_str("let x = 5; )").unwrap_err();
    assert_eq!(err.kind, ErrorKind::Eof);
    assert_eq!(err.pos, pos(11, 1, 12));
    let err = StatementList::parse_str("letx = 5;").unwrap_err();
    assert_eq!(err.kind, ErrorKind::Eof);
    assert_eq!(err.pos, pos(0, 1, 1));
}

#[test]
fn parse_error_exponent_digits() {
    let err = StatementList::parse_str("let x = 1e;").unwrap_err();
    assert_eq!(err.kind, ErrorKind::Digit);
    assert_eq!(err.pos, pos(10, 1, 11));
}

#[test]
fn parse_positions_count_bytes_and_characters() {
    // "ü" takes two bytes but one column.
    let list = StatementList::parse_str("let ü = 1;\nlet y = 2;").unwrap();
    match &list.statements[0] {
        Statement::Let(stm) => {
            assert_eq!(stm.assignments.assignments[0].target.as_str(), "ü");
            assert_eq!(stm.assignments.assignments[0].expression.pos, pos(9, 1, 9));
        }
        other => panic!("unexpected {:?}", other),
    }
}

#[test]
fn try_parse_invalid_escape() {
    assert!(StatementList::try_parse_str("let x = \"\\u{d800}\";").is_none());
    let ok = StatementList::try_parse_str("let x = \"\\u{41}\";").unwrap().unwrap();
    match &ok.statements[0] {
        Statement::Let(stm) => match &stm.assignments.assignments[0].expression.first {
            Fragment::Atom(Atom::Text(text)) => assert_eq!(text.first.as_str(), "A"),
            other => panic!("unexpected {:?}", other),
        },
        other => panic!("unexpected {:?}", other),
    }
}

#[test]
fn skipping_white_space_twice() {
    use_lexer_twice("  # comment\n\t x");
    use_lexer_twice("x");
    use_lexer_twice("#\n#\n");
}

fn use_lexer_twice(text: &str) {
    let source = railmap::source::Source::new(text);
    let once = railmap::lexer::skip_opt_ws(&source, 0);
    let twice = railmap::lexer::skip_opt_ws(&source, once);
    assert_eq!(once, twice);
}

#[test]
fn parse_lists_with_commas() {
    let list = StatementList::parse_str("let x = [1, 2];\nlet y = [ ];\nlet z = [ 3 ];").unwrap();
    let len = |i: usize| match &list.statements[i] {
        Statement::Let(stm) => match &stm.assignments.assignments[0].expression.first {
            Fragment::List(l) => l.content.len(),
            other => panic!("unexpected {:?}", other),
        },
        other => panic!("unexpected {:?}", other),
    };
    assert_eq!(len(0), 2);
    assert_eq!(len(1), 0);
    assert_eq!(len(2), 1);
    // Items must be separated by commas.
    assert!(StatementList::parse_str("let x = [1 2];").is_err());
    assert!(StatementList::parse_str("let x = [1,];").is_err());
}

#[test]
fn assignment_lists_are_not_empty() {
    assert!(StatementList::parse_str("let ;").is_err());
    assert!(StatementList::parse_str("with { a(); }").is_err());
    let list = StatementList::parse_str("let a = 1, b = 2;").unwrap();
    match &list.statements[0] {
        Statement::Let(stm) => assert_eq!(stm.assignments.assignments.len(), 2),
        other => panic!("unexpected {:?}", other),
    }
}
