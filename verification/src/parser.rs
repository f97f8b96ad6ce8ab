//! Parsing expressions and statements of the map description language.
//!
//! Expressions and statements nest: a list holds expressions and the
//! arguments of a function are expressions again, while a with statement
//! holds a block of statements. Each group is specified by mutually
//! recursive functions that decrease along the input: either a parser moves
//! on in the text, or it calls a parser of lower rank at the same index.

use vstd::prelude::*;
use crate::source::{Source, Pos, pos_at, fits};
use crate::lexer::{
    spec_skip_opt_ws, spec_skip_ws, spec_char, spec_tag, spec_identifier, spec_connector,
    spec_section, spec_vector, spec_atom, lemma_skip_opt_ws, lemma_identifier, skip_opt_ws,
    skip_ws, char_tag, tag, identifier, connector, section, vector, atom,
};
use crate::ast::{
    Step, SpecStep, agrees, ends_within, prepend, spec_fail, lemma_prepend_push,
    lemma_prepend_empty, model_seq, Connector, External, SpecExternal, Complex, SpecComplex, List,
    SpecList, Fragment, SpecFragment, Expression, SpecExpression, Assignment, SpecAssignment,
    Argument, SpecArgument, ArgumentList, SpecArgumentList, model_external, model_complex,
    model_list, model_fragment, model_expression, model_assignment, model_argument,
    model_argument_list, AssignmentList, SpecAssignmentList, Let, SpecLet, NoOp, Procedure,
    SpecProcedure, With, SpecWith, Statement, SpecStatement, StatementList, SpecStatementList,
    Error, ErrorKind,
};

verus! {

//============ Expressions ===================================================

/// An external expression at `i`: an identifier, optionally followed by
/// an argument list in parentheses.
///
/// If the parentheses or the argument list are incomplete, the expression
/// is the identifier alone.
pub open spec fn spec_external(s: Seq<char>, i: int) -> SpecStep<SpecExternal>
    decreases s.len() - i, 0int,
{
    if !(0 <= i <= s.len()) {
        SpecStep::Backtrack
    } else {
        match spec_identifier(s, i) {
            Some((ident, j)) => {
                let plain = SpecStep::Done(SpecExternal { ident, args: None, pos: pos_at(s, i) }, j);
                proof {
                    lemma_identifier(s, i);
                    lemma_skip_opt_ws(s, j);
                }
                match spec_char(s, spec_skip_opt_ws(s, j), '(') {
                    Some(a) => {
                        proof {
                            lemma_skip_opt_ws(s, a);
                        }
                        match spec_argument_list(s, spec_skip_opt_ws(s, a)) {
                            SpecStep::Done(args, k) => match spec_char(s, spec_skip_opt_ws(s, k), ')') {
                                Some(e) => SpecStep::Done(
                                    SpecExternal { ident, args: Some(args), pos: pos_at(s, i) },
                                    e,
                                ),
                                None => plain,
                            },
                            SpecStep::Backtrack => plain,
                            other => spec_fail(other),
                        }
                    },
                    None => plain,
                }
            },
            None => SpecStep::Backtrack,
        }
    }
}

/// A complex expression at `i`: an external expression, optionally
/// followed by a section.
pub open spec fn spec_complex(s: Seq<char>, i: int) -> SpecStep<SpecComplex>
    decreases s.len() - i, 1int,
{
    if !(0 <= i <= s.len()) {
        SpecStep::Backtrack
    } else {
        match spec_external(s, i) {
            SpecStep::Done(external, j) => match spec_section(s, spec_skip_opt_ws(s, j)) {
                SpecStep::Done(section, e) => SpecStep::Done(
                    SpecComplex { external, section: Some(section), pos: pos_at(s, i) },
                    e,
                ),
                SpecStep::Backtrack => SpecStep::Done(
                    SpecComplex { external, section: None, pos: pos_at(s, i) },
                    j,
                ),
                other => spec_fail(other),
            },
            other => spec_fail(other),
        }
    }
}

/// Further expressions of a list from `k` on: each is a comma and an
/// expression, both after optional white space.
pub open spec fn spec_list_items(s: Seq<char>, k: int) -> SpecStep<Seq<SpecExpression>>
    decreases s.len() - k, 4int,
{
    if !(0 <= k <= s.len()) {
        SpecStep::Backtrack
    } else {
        match spec_char(s, spec_skip_opt_ws(s, k), ',') {
            Some(c) => {
                proof {
                    lemma_skip_opt_ws(s, k);
                    lemma_skip_opt_ws(s, c);
                }
                match spec_expression(s, spec_skip_opt_ws(s, c)) {
                    SpecStep::Done(e, j) => if k < j <= s.len() {
                        prepend(seq![e], spec_list_items(s, j))
                    } else {
                        SpecStep::Backtrack
                    },
                    SpecStep::Backtrack => SpecStep::Done(Seq::empty(), k),
                    other => spec_fail(other),
                }
            },
            None => SpecStep::Done(Seq::empty(), k),
        }
    }
}

/// The closing bracket of a list whose items end at `k`.
pub open spec fn spec_list_close(s: Seq<char>, i: int, content: Seq<SpecExpression>, k: int) -> SpecStep<SpecList> {
    match spec_char(s, spec_skip_opt_ws(s, k), ']') {
        Some(e) => SpecStep::Done(SpecList { content, pos: pos_at(s, i) }, e),
        None => SpecStep::Backtrack,
    }
}

/// A list expression at `i`: in brackets, either nothing or expressions
/// separated by commas, each after optional white space.
pub open spec fn spec_list(s: Seq<char>, i: int) -> SpecStep<SpecList>
    decreases s.len() - i, 1int,
{
    if !(0 <= i <= s.len()) {
        SpecStep::Backtrack
    } else {
        match spec_char(s, i, '[') {
            Some(a) => {
                proof {
                    lemma_skip_opt_ws(s, a);
                }
                match spec_expression(s, spec_skip_opt_ws(s, a)) {
                    SpecStep::Done(first, j) => if a < j <= s.len() {
                        match spec_list_items(s, j) {
                            SpecStep::Done(rest, k) => spec_list_close(s, i, seq![first] + rest, k),
                            other => spec_fail(other),
                        }
                    } else {
                        SpecStep::Backtrack
                    },
                    SpecStep::Backtrack => spec_list_close(s, i, Seq::empty(), a),
                    other => spec_fail(other),
                }
            },
            None => SpecStep::Backtrack,
        }
    }
}

/// A fragment at `i`: a complex expression, a list, a vector, or an atom,
/// tried in this order.
pub open spec fn spec_fragment(s: Seq<char>, i: int) -> SpecStep<SpecFragment>
    decreases s.len() - i, 2int,
{
    if !(0 <= i <= s.len()) {
        SpecStep::Backtrack
    } else {
        match spec_complex(s, i) {
            SpecStep::Done(v, j) => SpecStep::Done(SpecFragment::Complex(v), j),
            SpecStep::Backtrack => match spec_list(s, i) {
                SpecStep::Done(v, j) => SpecStep::Done(SpecFragment::List(v), j),
                SpecStep::Backtrack => match spec_vector(s, i) {
                    SpecStep::Done(v, j) => SpecStep::Done(SpecFragment::Vector(v), j),
                    SpecStep::Backtrack => match spec_atom(s, i) {
                        SpecStep::Done(v, j) => SpecStep::Done(SpecFragment::Atom(v), j),
                        other => spec_fail(other),
                    },
                    other => spec_fail(other),
                },
                other => spec_fail(other),
            },
            other => spec_fail(other),
        }
    }
}

/// The connected fragments of an expression from `k` on: each is a
/// connector and a fragment, both after optional white space.
pub open spec fn spec_expression_tail(s: Seq<char>, k: int) -> SpecStep<Seq<(Connector, SpecFragment)>>
    decreases s.len() - k, 0int,
{
    if !(0 <= k <= s.len()) {
        SpecStep::Backtrack
    } else {
        proof {
            lemma_skip_opt_ws(s, k);
        }
        match spec_connector(s, spec_skip_opt_ws(s, k)) {
            Some((c, a)) => {
                proof {
                    lemma_skip_opt_ws(s, a);
                }
                match spec_fragment(s, spec_skip_opt_ws(s, a)) {
                    SpecStep::Done(f, j) => if k < j <= s.len() {
                        prepend(seq![(c, f)], spec_expression_tail(s, j))
                    } else {
                        SpecStep::Backtrack
                    },
                    SpecStep::Backtrack => SpecStep::Done(Seq::empty(), k),
                    other => spec_fail(other),
                }
            },
            None => SpecStep::Done(Seq::empty(), k),
        }
    }
}

/// An expression at `i`: a fragment followed by any number of connected
/// fragments.
pub open spec fn spec_expression(s: Seq<char>, i: int) -> SpecStep<SpecExpression>
    decreases s.len() - i, 3int,
{
    if !(0 <= i <= s.len()) {
        SpecStep::Backtrack
    } else {
        match spec_fragment(s, i) {
            SpecStep::Done(first, j) => if i <= j <= s.len() {
                match spec_expression_tail(s, j) {
                    SpecStep::Done(connected, e) => SpecStep::Done(
                        SpecExpression { first, connected, pos: pos_at(s, i) },
                        e,
                    ),
                    other => spec_fail(other),
                }
            } else {
                SpecStep::Backtrack
            },
            other => spec_fail(other),
        }
    }
}

/// An assignment at `i`: an identifier, an equals sign, and an expression.
pub open spec fn spec_assignment(s: Seq<char>, i: int) -> SpecStep<SpecAssignment>
    decreases s.len() - i, 4int,
{
    if !(0 <= i <= s.len()) {
        SpecStep::Backtrack
    } else {
        match spec_identifier(s, i) {
            Some((target, j)) => {
                proof {
                    lemma_identifier(s, i);
                    lemma_skip_opt_ws(s, j);
                }
                match spec_char(s, spec_skip_opt_ws(s, j), '=') {
                    Some(a) => {
                        proof {
                            lemma_skip_opt_ws(s, a);
                        }
                        match spec_expression(s, spec_skip_opt_ws(s, a)) {
                            SpecStep::Done(expression, e) => SpecStep::Done(
                                SpecAssignment { target, expression, pos: pos_at(s, i) },
                                e,
                            ),
                            other => spec_fail(other),
                        }
                    },
                    None => SpecStep::Backtrack,
                }
            },
            None => SpecStep::Backtrack,
        }
    }
}

/// An argument at `i`: a keyword argument, that is, an assignment, or a
/// positional argument, that is, an expression.
pub open spec fn spec_argument(s: Seq<char>, i: int) -> SpecStep<SpecArgument>
    decreases s.len() - i, 5int,
{
    if !(0 <= i <= s.len()) {
        SpecStep::Backtrack
    } else {
        match spec_assignment(s, i) {
            SpecStep::Done(a, j) => SpecStep::Done(SpecArgument::Keyword(a), j),
            SpecStep::Backtrack => match spec_expression(s, i) {
                SpecStep::Done(e, j) => SpecStep::Done(SpecArgument::Pos(e), j),
                other => spec_fail(other),
            },
            other => spec_fail(other),
        }
    }
}

/// Further arguments from `k` on: each is a comma and an argument, both
/// after optional white space.
pub open spec fn spec_arguments_tail(s: Seq<char>, k: int) -> SpecStep<Seq<SpecArgument>>
    decreases s.len() - k, 0int,
{
    if !(0 <= k <= s.len()) {
        SpecStep::Backtrack
    } else {
        proof {
            lemma_skip_opt_ws(s, k);
        }
        match spec_char(s, spec_skip_opt_ws(s, k), ',') {
            Some(c) => {
                proof {
                    lemma_skip_opt_ws(s, c);
                }
                match spec_argument(s, spec_skip_opt_ws(s, c)) {
                    SpecStep::Done(a, j) => if k < j <= s.len() {
                        prepend(seq![a], spec_arguments_tail(s, j))
                    } else {
                        SpecStep::Backtrack
                    },
                    SpecStep::Backtrack => SpecStep::Done(Seq::empty(), k),
                    other => spec_fail(other),
                }
            },
            None => SpecStep::Done(Seq::empty(), k),
        }
    }
}

/// A possibly empty argument list at `i`: arguments separated by commas,
/// each after optional white space.
pub open spec fn spec_argument_list(s: Seq<char>, i: int) -> SpecStep<SpecArgumentList>
    decreases s.len() - i, 6int,
{
    if !(0 <= i <= s.len()) {
        SpecStep::Backtrack
    } else {
        proof {
            lemma_skip_opt_ws(s, i);
        }
        match spec_argument(s, spec_skip_opt_ws(s, i)) {
            SpecStep::Done(first, j) => if i < j <= s.len() {
                match spec_arguments_tail(s, j) {
                    SpecStep::Done(rest, e) => SpecStep::Done(
                        SpecArgumentList { arguments: seq![first] + rest, pos: pos_at(s, i) },
                        e,
                    ),
                    other => spec_fail(other),
                }
            } else {
                SpecStep::Backtrack
            },
            SpecStep::Backtrack => SpecStep::Done(
                SpecArgumentList { arguments: Seq::empty(), pos: pos_at(s, i) },
                i,
            ),
            other => spec_fail(other),
        }
    }
}

//------------ Parsing expressions -------------------------------------------

/// Parses an external expression at `i`.
pub fn external(src: &Source, i: usize) -> (res: Step<External>)
    requires
        src.wf(),
        i <= src.text().len(),
    ensures
        agrees(res, spec_external(src.text(), i as int), |v: External| v@),
        ends_within(spec_external(src.text(), i as int), i as int, src.text().len() as int, true),
    decreases src.text().len() - i, 0int,
{
    let (ident, j) = match identifier(src, i) {
        Some(v) => v,
        None => return Step::Backtrack,
    };
    let a = match char_tag(src, skip_opt_ws(src, j), '(') {
        Some(a) => a,
        None => return Step::Done(External { ident, args: None, pos: src.pos(i) }, j),
    };
    let (args, k) = match argument_list(src, skip_opt_ws(src, a)) {
        Step::Done(args, k) => (args, k),
        Step::Backtrack => return Step::Done(External { ident, args: None, pos: src.pos(i) }, j),
        other => return other.fail(),
    };
    match char_tag(src, skip_opt_ws(src, k), ')') {
        Some(e) => Step::Done(External { ident, args: Some(args), pos: src.pos(i) }, e),
        None => Step::Done(External { ident, args: None, pos: src.pos(i) }, j),
    }
}

/// Parses a complex expression at `i`.
pub fn complex(src: &Source, i: usize) -> (res: Step<Complex>)
    requires
        src.wf(),
        i <= src.text().len(),
    ensures
        agrees(res, spec_complex(src.text(), i as int), |v: Complex| v@),
        ends_within(spec_complex(src.text(), i as int), i as int, src.text().len() as int, true),
    decreases src.text().len() - i, 1int,
{
    let (external, j) = match external(src, i) {
        Step::Done(v, j) => (v, j),
        other => return other.fail(),
    };
    match section(src, skip_opt_ws(src, j)) {
        Step::Done(section, e) => Step::Done(Complex { external, section: Some(section), pos: src.pos(i) }, e),
        Step::Backtrack => Step::Done(Complex { external, section: None, pos: src.pos(i) }, j),
        other => other.fail(),
    }
}

/// Parses further list items from `k0` on.
fn list_items(src: &Source, k0: usize) -> (res: Step<Vec<Expression>>)
    requires
        src.wf(),
        k0 <= src.text().len(),
    ensures
        agrees(res, spec_list_items(src.text(), k0 as int), |v: Vec<Expression>| model_seq(v@, |e: Expression| e@)),
        ends_within(spec_list_items(src.text(), k0 as int), k0 as int, src.text().len() as int, false),
    decreases src.text().len() - k0, 4int,
{
    let ghost s = src.text();
    let len = src.len();
    let mut items: Vec<Expression> = Vec::new();
    let mut k = k0;
    proof {
        lemma_prepend_empty(spec_list_items(s, k as int));
        assert(model_seq(items@, |e: Expression| e@) =~= Seq::<SpecExpression>::empty());
    }
    loop
        invariant_except_break
            spec_list_items(s, k0 as int) == prepend(model_seq(items@, |e: Expression| e@), spec_list_items(s, k as int)),
        invariant
            s == src.text(),
            src.wf(),
            len == s.len(),
            k0 <= k <= len,
        ensures
            spec_list_items(s, k0 as int) == SpecStep::Done(model_seq(items@, |e: Expression| e@), k as int),
        decreases len - k,
    {
        proof {
            lemma_skip_opt_ws(s, k as int);
        }
        let c = match char_tag(src, skip_opt_ws(src, k), ',') {
            Some(c) => c,
            None => {
                assert(model_seq(items@, |e: Expression| e@) + Seq::<SpecExpression>::empty() =~= model_seq(items@, |e: Expression| e@));
                break;
            },
        };
        proof {
            lemma_skip_opt_ws(s, c as int);
        }
        match expression(src, skip_opt_ws(src, c)) {
            Step::Done(e, j) => {
                let ghost before = model_seq(items@, |e: Expression| e@);
                proof {
                    lemma_prepend_push(before, e@, spec_list_items(s, j as int));
                }
                items.push(e);
                assert(model_seq(items@, |e: Expression| e@) =~= before.push(e@));
                k = j;
            },
            Step::Backtrack => {
                assert(model_seq(items@, |e: Expression| e@) + Seq::<SpecExpression>::empty() =~= model_seq(items@, |e: Expression| e@));
                break;
            },
            other => return other.fail(),
        }
    }
    Step::Done(items, k)
}

/// Parses the closing bracket of a list whose items end at `k`.
fn list_close(src: &Source, i: usize, content: Vec<Expression>, k: usize) -> (res: Step<List>)
    requires
        src.wf(),
        i <= k <= src.text().len(),
    ensures
        agrees(res, spec_list_close(src.text(), i as int, model_seq(content@, |e: Expression| e@), k as int), |v: List| v@),
        ends_within(spec_list_close(src.text(), i as int, model_seq(content@, |e: Expression| e@), k as int), k as int, src.text().len() as int, true),
{
    proof {
        lemma_skip_opt_ws(src.text(), k as int);
    }
    match char_tag(src, skip_opt_ws(src, k), ']') {
        Some(e) => {
            let res = List { content, pos: src.pos(i) };
            assert(res@.content =~= model_seq(res.content@, |e: Expression| e@));
            Step::Done(res, e)
        },
        None => Step::Backtrack,
    }
}

/// Parses a list expression at `i`.
pub fn list(src: &Source, i: usize) -> (res: Step<List>)
    requires
        src.wf(),
        i <= src.text().len(),
    ensures
        agrees(res, spec_list(src.text(), i as int), |v: List| v@),
        ends_within(spec_list(src.text(), i as int), i as int, src.text().len() as int, true),
    decreases src.text().len() - i, 1int,
{
    let ghost s = src.text();
    let a = match char_tag(src, i, '[') {
        Some(a) => a,
        None => return Step::Backtrack,
    };
    proof {
        lemma_skip_opt_ws(s, a as int);
    }
    match expression(src, skip_opt_ws(src, a)) {
        Step::Done(first, j) => {
            let ghost first_model = first@;
            match list_items(src, j) {
                Step::Done(rest, k) => {
                    let ghost rest_model = model_seq(rest@, |e: Expression| e@);
                    let mut content: Vec<Expression> = Vec::new();
                    content.push(first);
                    let mut rest = rest;
                    content.append(&mut rest);
                    assert(model_seq(content@, |e: Expression| e@) =~= seq![first_model] + rest_model);
                    list_close(src, i, content, k)
                },
                other => other.fail(),
            }
        },
        Step::Backtrack => {
            let content: Vec<Expression> = Vec::new();
            assert(model_seq(content@, |e: Expression| e@) =~= Seq::<SpecExpression>::empty());
            list_close(src, i, content, a)
        },
        other => other.fail(),
    }
}

/// Parses a fragment at `i`.
pub fn fragment(src: &Source, i: usize) -> (res: Step<Fragment>)
    requires
        src.wf(),
        i <= src.text().len(),
    ensures
        agrees(res, spec_fragment(src.text(), i as int), |v: Fragment| v@),
        ends_within(spec_fragment(src.text(), i as int), i as int, src.text().len() as int, true),
    decreases src.text().len() - i, 2int,
{
    match complex(src, i) {
        Step::Done(v, j) => return Step::Done(Fragment::Complex(v), j),
        Step::Backtrack => {},
        other => return other.fail(),
    }
    match list(src, i) {
        Step::Done(v, j) => return Step::Done(Fragment::List(v), j),
        Step::Backtrack => {},
        other => return other.fail(),
    }
    match vector(src, i) {
        Step::Done(v, j) => return Step::Done(Fragment::Vector(v), j),
        Step::Backtrack => {},
        other => return other.fail(),
    }
    match atom(src, i) {
        Step::Done(v, j) => Step::Done(Fragment::Atom(v), j),
        other => other.fail(),
    }
}

/// The model of connected fragments.
pub open spec fn model_connected(v: Seq<(Connector, Fragment)>) -> Seq<(Connector, SpecFragment)> {
    model_seq(v, |p: (Connector, Fragment)| (p.0, p.1@))
}

/// Parses the connected fragments of an expression from `k0` on.
fn expression_tail(src: &Source, k0: usize) -> (res: Step<Vec<(Connector, Fragment)>>)
    requires
        src.wf(),
        k0 <= src.text().len(),
    ensures
        agrees(res, spec_expression_tail(src.text(), k0 as int), |v: Vec<(Connector, Fragment)>| model_connected(v@)),
        ends_within(spec_expression_tail(src.text(), k0 as int), k0 as int, src.text().len() as int, false),
    decreases src.text().len() - k0, 0int,
{
    let ghost s = src.text();
    let len = src.len();
    let mut items: Vec<(Connector, Fragment)> = Vec::new();
    let mut k = k0;
    proof {
        lemma_prepend_empty(spec_expression_tail(s, k as int));
        assert(model_connected(items@) =~= Seq::<(Connector, SpecFragment)>::empty());
    }
    loop
        invariant_except_break
            spec_expression_tail(s, k0 as int) == prepend(model_connected(items@), spec_expression_tail(s, k as int)),
        invariant
            s == src.text(),
            src.wf(),
            len == s.len(),
            k0 <= k <= len,
        ensures
            spec_expression_tail(s, k0 as int) == SpecStep::Done(model_connected(items@), k as int),
        decreases len - k,
    {
        let (c, a) = match connector(src, skip_opt_ws(src, k)) {
            Some(v) => v,
            None => {
                assert(model_connected(items@) + Seq::<(Connector, SpecFragment)>::empty() =~= model_connected(items@));
                break;
            },
        };
        match fragment(src, skip_opt_ws(src, a)) {
            Step::Done(f, j) => {
                let ghost before = model_connected(items@);
                proof {
                    lemma_prepend_push(before, (c, f@), spec_expression_tail(s, j as int));
                }
                items.push((c, f));
                assert(model_connected(items@) =~= before.push((c, f@)));
                k = j;
            },
            Step::Backtrack => {
                assert(model_connected(items@) + Seq::<(Connector, SpecFragment)>::empty() =~= model_connected(items@));
                break;
            },
            other => return other.fail(),
        }
    }
    Step::Done(items, k)
}

/// Parses an expression at `i`.
pub fn expression(src: &Source, i: usize) -> (res: Step<Expression>)
    requires
        src.wf(),
        i <= src.text().len(),
    ensures
        agrees(res, spec_expression(src.text(), i as int), |v: Expression| v@),
        ends_within(spec_expression(src.text(), i as int), i as int, src.text().len() as int, true),
    decreases src.text().len() - i, 3int,
{
    let (first, j) = match fragment(src, i) {
        Step::Done(v, j) => (v, j),
        other => return other.fail(),
    };
    match expression_tail(src, j) {
        Step::Done(connected, e) => {
            let res = Expression { first, connected, pos: src.pos(i) };
            assert(res@.connected =~= model_connected(res.connected@));
            Step::Done(res, e)
        },
        other => other.fail(),
    }
}

/// Parses an assignment at `i`.
pub fn assignment(src: &Source, i: usize) -> (res: Step<Assignment>)
    requires
        src.wf(),
        i <= src.text().len(),
    ensures
        agrees(res, spec_assignment(src.text(), i as int), |v: Assignment| v@),
        ends_within(spec_assignment(src.text(), i as int), i as int, src.text().len() as int, true),
    decreases src.text().len() - i, 4int,
{
    let (target, j) = match identifier(src, i) {
        Some(v) => v,
        None => return Step::Backtrack,
    };
    let a = match char_tag(src, skip_opt_ws(src, j), '=') {
        Some(a) => a,
        None => return Step::Backtrack,
    };
    match expression(src, skip_opt_ws(src, a)) {
        Step::Done(expression, e) => Step::Done(Assignment { target, expression, pos: src.pos(i) }, e),
        other => other.fail(),
    }
}

/// Parses an argument at `i`.
pub fn argument(src: &Source, i: usize) -> (res: Step<Argument>)
    requires
        src.wf(),
        i <= src.text().len(),
    ensures
        agrees(res, spec_argument(src.text(), i as int), |v: Argument| v@),
        ends_within(spec_argument(src.text(), i as int), i as int, src.text().len() as int, true),
    decreases src.text().len() - i, 5int,
{
    match assignment(src, i) {
        Step::Done(a, j) => return Step::Done(Argument::Keyword(a), j),
        Step::Backtrack => {},
        other => return other.fail(),
    }
    match expression(src, i) {
        Step::Done(e, j) => Step::Done(Argument::Pos(e), j),
        other => other.fail(),
    }
}

/// Parses further arguments from `k0` on.
fn arguments_tail(src: &Source, k0: usize) -> (res: Step<Vec<Argument>>)
    requires
        src.wf(),
        k0 <= src.text().len(),
    ensures
        agrees(res, spec_arguments_tail(src.text(), k0 as int), |v: Vec<Argument>| model_seq(v@, |a: Argument| a@)),
        ends_within(spec_arguments_tail(src.text(), k0 as int), k0 as int, src.text().len() as int, false),
    decreases src.text().len() - k0, 0int,
{
    let ghost s = src.text();
    let len = src.len();
    let mut items: Vec<Argument> = Vec::new();
    let mut k = k0;
    proof {
        lemma_prepend_empty(spec_arguments_tail(s, k as int));
        assert(model_seq(items@, |a: Argument| a@) =~= Seq::<SpecArgument>::empty());
    }
    loop
        invariant_except_break
            spec_arguments_tail(s, k0 as int) == prepend(model_seq(items@, |a: Argument| a@), spec_arguments_tail(s, k as int)),
        invariant
            s == src.text(),
            src.wf(),
            len == s.len(),
            k0 <= k <= len,
        ensures
            spec_arguments_tail(s, k0 as int) == SpecStep::Done(model_seq(items@, |a: Argument| a@), k as int),
        decreases len - k,
    {
        let c = match char_tag(src, skip_opt_ws(src, k), ',') {
            Some(c) => c,
            None => {
                assert(model_seq(items@, |a: Argument| a@) + Seq::<SpecArgument>::empty() =~= model_seq(items@, |a: Argument| a@));
                break;
            },
        };
        match argument(src, skip_opt_ws(src, c)) {
            Step::Done(a, j) => {
                let ghost before = model_seq(items@, |a: Argument| a@);
                proof {
                    lemma_prepend_push(before, a@, spec_arguments_tail(s, j as int));
                }
                items.push(a);
                assert(model_seq(items@, |a: Argument| a@) =~= before.push(a@));
                k = j;
            },
            Step::Backtrack => {
                assert(model_seq(items@, |a: Argument| a@) + Seq::<SpecArgument>::empty() =~= model_seq(items@, |a: Argument| a@));
                break;
            },
            other => return other.fail(),
        }
    }
    Step::Done(items, k)
}

/// Parses a possibly empty argument list at `i`.
pub fn argument_list(src: &Source, i: usize) -> (res: Step<ArgumentList>)
    requires
        src.wf(),
        i <= src.text().len(),
    ensures
        agrees(res, spec_argument_list(src.text(), i as int), |v: ArgumentList| v@),
        ends_within(spec_argument_list(src.text(), i as int), i as int, src.text().len() as int, false),
    decreases src.text().len() - i, 6int,
{
    let (first, j) = match argument(src, skip_opt_ws(src, i)) {
        Step::Done(a, j) => (a, j),
        Step::Backtrack => {
            let res = ArgumentList { arguments: Vec::new(), pos: src.pos(i) };
            assert(res@.arguments =~= Seq::<SpecArgument>::empty());
            return Step::Done(res, i);
        },
        other => return other.fail(),
    };
    let ghost first_model = first@;
    match arguments_tail(src, j) {
        Step::Done(rest, e) => {
            let mut arguments: Vec<Argument> = Vec::new();
            arguments.push(first);
            let ghost rest_model = model_seq(rest@, |a: Argument| a@);
            let mut rest = rest;
            arguments.append(&mut rest);
            let res = ArgumentList { arguments, pos: src.pos(i) };
            assert(res@.arguments =~= seq![first_model] + rest_model);
            Step::Done(res, e)
        },
        other => other.fail(),
    }
}

//============ Statements ====================================================

/// Further assignments from `k` on: each is a comma and an assignment,
/// both after optional white space.
pub open spec fn spec_assignments_tail(s: Seq<char>, k: int) -> SpecStep<Seq<SpecAssignment>>
    decreases s.len() - k,
{
    if !(0 <= k <= s.len()) {
        SpecStep::Backtrack
    } else {
        match spec_char(s, spec_skip_opt_ws(s, k), ',') {
            Some(c) => match spec_assignment(s, spec_skip_opt_ws(s, c)) {
                SpecStep::Done(a, j) => if k < j <= s.len() {
                    prepend(seq![a], spec_assignments_tail(s, j))
                } else {
                    SpecStep::Backtrack
                },
                SpecStep::Backtrack => SpecStep::Done(Seq::empty(), k),
                other => spec_fail(other),
            },
            None => SpecStep::Done(Seq::empty(), k),
        }
    }
}

/// An assignment list at `i`: one or more assignments separated by commas,
/// each after optional white space.
pub open spec fn spec_assignment_list(s: Seq<char>, i: int) -> SpecStep<SpecAssignmentList> {
    match spec_assignment(s, spec_skip_opt_ws(s, i)) {
        SpecStep::Done(first, j) => if i < j <= s.len() {
            match spec_assignments_tail(s, j) {
                SpecStep::Done(rest, e) => SpecStep::Done(
                    SpecAssignmentList { assignments: seq![first] + rest, pos: pos_at(s, i) },
                    e,
                ),
                other => spec_fail(other),
            }
        } else {
            SpecStep::Backtrack
        },
        other => spec_fail(other),
    }
}

/// A let statement at `i`: the keyword `let`, mandatory white space, an
/// assignment list, and a semicolon.
pub open spec fn spec_let(s: Seq<char>, i: int) -> SpecStep<SpecLet> {
    match spec_tag(s, spec_skip_opt_ws(s, i), "let"@) {
        Some(a) => match spec_skip_ws(s, a) {
            Some(b) => match spec_assignment_list(s, b) {
                SpecStep::Done(assignments, k) => match spec_char(s, spec_skip_opt_ws(s, k), ';') {
                    Some(e) => SpecStep::Done(SpecLet { assignments, pos: pos_at(s, i) }, e),
                    None => SpecStep::Backtrack,
                },
                other => spec_fail(other),
            },
            None => SpecStep::Backtrack,
        },
        None => SpecStep::Backtrack,
    }
}

/// A no-op statement at `i`: a semicolon.
pub open spec fn spec_noop(s: Seq<char>, i: int) -> Option<(NoOp, int)> {
    match spec_char(s, spec_skip_opt_ws(s, i), ';') {
        Some(e) => Some((NoOp { pos: pos_at(s, i) }, e)),
        None => None,
    }
}

/// A procedure statement at `i`: an identifier and an argument list in
/// parentheses.
pub open spec fn spec_procedure(s: Seq<char>, i: int) -> SpecStep<SpecProcedure> {
    match spec_identifier(s, spec_skip_opt_ws(s, i)) {
        Some((ident, j)) => match spec_char(s, spec_skip_opt_ws(s, j), '(') {
            Some(a) => match spec_argument_list(s, spec_skip_opt_ws(s, a)) {
                SpecStep::Done(args, k) => match spec_char(s, spec_skip_opt_ws(s, k), ')') {
                    Some(e) => SpecStep::Done(SpecProcedure { ident, args, pos: pos_at(s, i) }, e),
                    None => SpecStep::Backtrack,
                },
                other => spec_fail(other),
            },
            None => SpecStep::Backtrack,
        },
        None => SpecStep::Backtrack,
    }
}

/// A with statement at `i`: the keyword `with`, mandatory white space, an
/// assignment list, and a statement block.
pub open spec fn spec_with(s: Seq<char>, i: int) -> SpecStep<SpecWith>
    decreases s.len() - i, 0int,
{
    if !(0 <= i <= s.len()) {
        SpecStep::Backtrack
    } else {
        match spec_tag(s, spec_skip_opt_ws(s, i), "with"@) {
            Some(a) => match spec_skip_ws(s, a) {
                Some(b) => match spec_assignment_list(s, b) {
                    SpecStep::Done(params, k) => if i < k <= s.len() {
                        proof {
                            lemma_skip_opt_ws(s, k);
                        }
                        match spec_block(s, spec_skip_opt_ws(s, k)) {
                            SpecStep::Done(block, e) => SpecStep::Done(SpecWith { params, block, pos: pos_at(s, i) }, e),
                            other => spec_fail(other),
                        }
                    } else {
                        SpecStep::Backtrack
                    },
                    other => spec_fail(other),
                },
                None => SpecStep::Backtrack,
            },
            None => SpecStep::Backtrack,
        }
    }
}

/// A statement at `i`: a let, a no-op, a procedure, or a with statement,
/// tried in this order.
pub open spec fn spec_statement(s: Seq<char>, i: int) -> SpecStep<SpecStatement>
    decreases s.len() - i, 1int,
{
    if !(0 <= i <= s.len()) {
        SpecStep::Backtrack
    } else {
        match spec_let(s, i) {
            SpecStep::Done(v, j) => SpecStep::Done(SpecStatement::Let(v), j),
            SpecStep::Backtrack => match spec_noop(s, i) {
                Some((v, j)) => SpecStep::Done(SpecStatement::NoOp(v), j),
                None => match spec_procedure(s, i) {
                    SpecStep::Done(v, j) => SpecStep::Done(SpecStatement::Procedure(v), j),
                    SpecStep::Backtrack => match spec_with(s, i) {
                        SpecStep::Done(v, j) => SpecStep::Done(SpecStatement::With(v), j),
                        other => spec_fail(other),
                    },
                    other => spec_fail(other),
                },
            },
            other => spec_fail(other),
        }
    }
}

/// The statements from `k` on, as many as there are.
pub open spec fn spec_statements(s: Seq<char>, k: int) -> SpecStep<Seq<SpecStatement>>
    decreases s.len() - k, 2int,
{
    if !(0 <= k <= s.len()) {
        SpecStep::Backtrack
    } else {
        match spec_statement(s, k) {
            SpecStep::Done(st, j) => if k < j <= s.len() {
                prepend(seq![st], spec_statements(s, j))
            } else {
                SpecStep::Backtrack
            },
            SpecStep::Backtrack => SpecStep::Done(Seq::empty(), k),
            other => spec_fail(other),
        }
    }
}

/// A statement list at `i`: any number of statements followed by optional
/// white space.
pub open spec fn spec_statement_list(s: Seq<char>, i: int) -> SpecStep<SpecStatementList>
    decreases s.len() - i, 3int,
{
    if !(0 <= i <= s.len()) {
        SpecStep::Backtrack
    } else {
        match spec_statements(s, i) {
            SpecStep::Done(statements, j) => SpecStep::Done(
                SpecStatementList { statements, pos: pos_at(s, i) },
                spec_skip_opt_ws(s, j),
            ),
            other => spec_fail(other),
        }
    }
}

/// A statement list in curly braces at `i`.
pub open spec fn spec_curly(s: Seq<char>, i: int) -> SpecStep<SpecStatementList>
    decreases s.len() - i, 1int,
{
    if !(0 <= i <= s.len()) {
        SpecStep::Backtrack
    } else {
        proof {
            lemma_skip_opt_ws(s, i);
        }
        match spec_char(s, spec_skip_opt_ws(s, i), '{') {
            Some(a) => {
                proof {
                    lemma_skip_opt_ws(s, a);
                }
                match spec_statement_list(s, spec_skip_opt_ws(s, a)) {
                    SpecStep::Done(block, k) => match spec_char(s, spec_skip_opt_ws(s, k), '}') {
                        Some(e) => SpecStep::Done(block, e),
                        None => SpecStep::Backtrack,
                    },
                    other => spec_fail(other),
                }
            },
            None => SpecStep::Backtrack,
        }
    }
}

/// A statement block at `i`: a statement list in curly braces or a single
/// statement.
pub open spec fn spec_block(s: Seq<char>, i: int) -> SpecStep<SpecStatementList>
    decreases s.len() - i, 2int,
{
    if !(0 <= i <= s.len()) {
        SpecStep::Backtrack
    } else {
        match spec_curly(s, i) {
            SpecStep::Done(block, e) => SpecStep::Done(block, e),
            SpecStep::Backtrack => match spec_statement(s, i) {
                SpecStep::Done(st, e) => SpecStep::Done(
                    SpecStatementList { statements: seq![st], pos: pos_at(s, i) },
                    e,
                ),
                other => spec_fail(other),
            },
            other => spec_fail(other),
        }
    }
}

/// Whether parsing `s` aborts on a Unicode escape for a value that is not
/// a character.
pub open spec fn parse_panics(s: Seq<char>) -> bool {
    spec_statement_list(s, 0) is Panic
}

/// The result of parsing the whole text `s` into a statement list.
///
/// Text left over after the statements is an error at its start; a number
/// whose exponent lacks digits is an error where the digits were expected.
pub open spec fn spec_parse_str(s: Seq<char>) -> Result<SpecStatementList, Error> {
    match spec_statement_list(s, 0) {
        SpecStep::Done(list, e) => if e == s.len() {
            Ok(list)
        } else {
            Err(Error { pos: pos_at(s, e), kind: ErrorKind::Eof })
        },
        SpecStep::Cut(c) => Err(Error { pos: pos_at(s, c), kind: ErrorKind::Digit }),
        _ => Err(Error { pos: pos_at(s, 0), kind: ErrorKind::Eof }),
    }
}


/// Parses further assignments from `k0` on.
fn assignments_tail(src: &Source, k0: usize) -> (res: Step<Vec<Assignment>>)
    requires
        src.wf(),
        k0 <= src.text().len(),
    ensures
        agrees(res, spec_assignments_tail(src.text(), k0 as int), |v: Vec<Assignment>| model_seq(v@, |a: Assignment| a@)),
        ends_within(spec_assignments_tail(src.text(), k0 as int), k0 as int, src.text().len() as int, false),
{
    let ghost s = src.text();
    let len = src.len();
    let mut items: Vec<Assignment> = Vec::new();
    let mut k = k0;
    proof {
        lemma_prepend_empty(spec_assignments_tail(s, k as int));
        assert(model_seq(items@, |a: Assignment| a@) =~= Seq::<SpecAssignment>::empty());
    }
    loop
        invariant_except_break
            spec_assignments_tail(s, k0 as int) == prepend(model_seq(items@, |a: Assignment| a@), spec_assignments_tail(s, k as int)),
        invariant
            s == src.text(),
            src.wf(),
            len == s.len(),
            k0 <= k <= len,
        ensures
            spec_assignments_tail(s, k0 as int) == SpecStep::Done(model_seq(items@, |a: Assignment| a@), k as int),
        decreases len - k,
    {
        let c = match char_tag(src, skip_opt_ws(src, k), ',') {
            Some(c) => c,
            None => {
                assert(model_seq(items@, |a: Assignment| a@) + Seq::<SpecAssignment>::empty() =~= model_seq(items@, |a: Assignment| a@));
                break;
            },
        };
        match assignment(src, skip_opt_ws(src, c)) {
            Step::Done(a, j) => {
                let ghost before = model_seq(items@, |a: Assignment| a@);
                proof {
                    lemma_prepend_push(before, a@, spec_assignments_tail(s, j as int));
                }
                items.push(a);
                assert(model_seq(items@, |a: Assignment| a@) =~= before.push(a@));
                k = j;
            },
            Step::Backtrack => {
                assert(model_seq(items@, |a: Assignment| a@) + Seq::<SpecAssignment>::empty() =~= model_seq(items@, |a: Assignment| a@));
                break;
            },
            other => return other.fail(),
        }
    }
    Step::Done(items, k)
}

/// Parses an assignment list at `i`.
pub fn assignment_list(src: &Source, i: usize) -> (res: Step<AssignmentList>)
    requires
        src.wf(),
        i <= src.text().len(),
    ensures
        agrees(res, spec_assignment_list(src.text(), i as int), |v: AssignmentList| v@),
        ends_within(spec_assignment_list(src.text(), i as int), i as int, src.text().len() as int, false),
{
    let (first, j) = match assignment(src, skip_opt_ws(src, i)) {
        Step::Done(a, j) => (a, j),
        other => return other.fail(),
    };
    let ghost first_model = first@;
    match assignments_tail(src, j) {
        Step::Done(rest, e) => {
            let mut assignments: Vec<Assignment> = Vec::new();
            assignments.push(first);
            let ghost rest_model = model_seq(rest@, |a: Assignment| a@);
            let mut rest = rest;
            assignments.append(&mut rest);
            let res = AssignmentList { assignments, pos: src.pos(i) };
            assert(res@.assignments =~= seq![first_model] + rest_model);
            Step::Done(res, e)
        },
        other => other.fail(),
    }
}

/// Parses a let statement at `i`.
pub fn let_statement(src: &Source, i: usize) -> (res: Step<Let>)
    requires
        src.wf(),
        i <= src.text().len(),
    ensures
        agrees(res, spec_let(src.text(), i as int), |v: Let| v@),
        ends_within(spec_let(src.text(), i as int), i as int, src.text().len() as int, true),
{
    proof {
        lemma_skip_opt_ws(src.text(), i as int);
    }
    let a = match tag(src, skip_opt_ws(src, i), "let") {
        Some(a) => a,
        None => return Step::Backtrack,
    };
    let b = match skip_ws(src, a) {
        Some(b) => b,
        None => return Step::Backtrack,
    };
    let (assignments, k) = match assignment_list(src, b) {
        Step::Done(v, k) => (v, k),
        other => return other.fail(),
    };
    match char_tag(src, skip_opt_ws(src, k), ';') {
        Some(e) => Step::Done(Let { assignments, pos: src.pos(i) }, e),
        None => Step::Backtrack,
    }
}

/// Parses a no-op statement at `i`.
pub fn noop(src: &Source, i: usize) -> (res: Option<(NoOp, usize)>)
    requires
        src.wf(),
        i <= src.text().len(),
    ensures
        match (res, spec_noop(src.text(), i as int)) {
            (Some((v, j)), Some((m, k))) => v == m && j == k,
            (None, None) => true,
            _ => false,
        },
        res matches Some((_, j)) ==> i < j <= src.text().len(),
{
    proof {
        lemma_skip_opt_ws(src.text(), i as int);
    }
    match char_tag(src, skip_opt_ws(src, i), ';') {
        Some(e) => Some((NoOp { pos: src.pos(i) }, e)),
        None => None,
    }
}

/// Parses a procedure statement at `i`.
pub fn procedure(src: &Source, i: usize) -> (res: Step<Procedure>)
    requires
        src.wf(),
        i <= src.text().len(),
    ensures
        agrees(res, spec_procedure(src.text(), i as int), |v: Procedure| v@),
        ends_within(spec_procedure(src.text(), i as int), i as int, src.text().len() as int, true),
{
    let ghost s = src.text();
    proof {
        lemma_skip_opt_ws(s, i as int);
    }
    let (ident, j) = match identifier(src, skip_opt_ws(src, i)) {
        Some(v) => v,
        None => return Step::Backtrack,
    };
    proof {
        lemma_identifier(s, spec_skip_opt_ws(s, i as int));
        lemma_skip_opt_ws(s, j as int);
    }
    let a = match char_tag(src, skip_opt_ws(src, j), '(') {
        Some(a) => a,
        None => return Step::Backtrack,
    };
    proof {
        lemma_skip_opt_ws(s, a as int);
    }
    let (args, k) = match argument_list(src, skip_opt_ws(src, a)) {
        Step::Done(v, k) => (v, k),
        other => return other.fail(),
    };
    proof {
        lemma_skip_opt_ws(s, k as int);
    }
    match char_tag(src, skip_opt_ws(src, k), ')') {
        Some(e) => Step::Done(Procedure { ident, args, pos: src.pos(i) }, e),
        None => Step::Backtrack,
    }
}

/// Parses a with statement at `i`.
pub fn with_statement(src: &Source, i: usize) -> (res: Step<With>)
    requires
        src.wf(),
        i <= src.text().len(),
    ensures
        agrees(res, spec_with(src.text(), i as int), |v: With| v@),
        ends_within(spec_with(src.text(), i as int), i as int, src.text().len() as int, true),
    decreases src.text().len() - i, 0int,
{
    let ghost s = src.text();
    proof {
        lemma_skip_opt_ws(s, i as int);
    }
    let a = match tag(src, skip_opt_ws(src, i), "with") {
        Some(a) => a,
        None => return Step::Backtrack,
    };
    let b = match skip_ws(src, a) {
        Some(b) => b,
        None => return Step::Backtrack,
    };
    let (params, k) = match assignment_list(src, b) {
        Step::Done(v, k) => (v, k),
        other => return other.fail(),
    };
    if k <= i {
        return Step::Backtrack;
    }
    proof {
        lemma_skip_opt_ws(s, k as int);
    }
    match block(src, skip_opt_ws(src, k)) {
        Step::Done(block, e) => {
            let res = With { params, block, pos: src.pos(i) };
            Step::Done(res, e)
        },
        other => other.fail(),
    }
}

/// Parses a statement at `i`.
pub fn statement(src: &Source, i: usize) -> (res: Step<Statement>)
    requires
        src.wf(),
        i <= src.text().len(),
    ensures
        agrees(res, spec_statement(src.text(), i as int), |v: Statement| v@),
        ends_within(spec_statement(src.text(), i as int), i as int, src.text().len() as int, true),
    decreases src.text().len() - i, 1int,
{
    match let_statement(src, i) {
        Step::Done(v, j) => return Step::Done(Statement::Let(v), j),
        Step::Backtrack => {},
        other => return other.fail(),
    }
    if let Some((v, j)) = noop(src, i) {
        return Step::Done(Statement::NoOp(v), j);
    }
    match procedure(src, i) {
        Step::Done(v, j) => return Step::Done(Statement::Procedure(v), j),
        Step::Backtrack => {},
        other => return other.fail(),
    }
    match with_statement(src, i) {
        Step::Done(v, j) => Step::Done(Statement::With(v), j),
        other => other.fail(),
    }
}

/// Parses a statement list at `i`: statements as long as there are any,
/// then optional white space.
pub fn statement_list(src: &Source, i: usize) -> (res: Step<StatementList>)
    requires
        src.wf(),
        i <= src.text().len(),
    ensures
        agrees(res, spec_statement_list(src.text(), i as int), |v: StatementList| v@),
        ends_within(spec_statement_list(src.text(), i as int), i as int, src.text().len() as int, false),
    decreases src.text().len() - i, 3int,
{
    let ghost s = src.text();
    let len = src.len();
    let mut items: Vec<Statement> = Vec::new();
    let mut k = i;
    proof {
        lemma_prepend_empty(spec_statements(s, k as int));
        assert(model_seq(items@, |st: Statement| st@) =~= Seq::<SpecStatement>::empty());
    }
    loop
        invariant_except_break
            spec_statements(s, i as int) == prepend(model_seq(items@, |st: Statement| st@), spec_statements(s, k as int)),
        invariant
            s == src.text(),
            src.wf(),
            len == s.len(),
            i <= k <= len,
        ensures
            spec_statements(s, i as int) == SpecStep::Done(model_seq(items@, |st: Statement| st@), k as int),
        decreases len - k,
    {
        match statement(src, k) {
            Step::Done(st, j) => {
                let ghost before = model_seq(items@, |st: Statement| st@);
                proof {
                    lemma_prepend_push(before, st@, spec_statements(s, j as int));
                }
                items.push(st);
                assert(model_seq(items@, |st: Statement| st@) =~= before.push(st@));
                k = j;
            },
            Step::Backtrack => {
                assert(model_seq(items@, |st: Statement| st@) + Seq::<SpecStatement>::empty() =~= model_seq(items@, |st: Statement| st@));
                break;
            },
            other => return other.fail(),
        }
    }
    let ghost statements_model = model_seq(items@, |st: Statement| st@);
    let res = StatementList { statements: items, pos: src.pos(i) };
    assert(res@.statements =~= statements_model);
    Step::Done(res, skip_opt_ws(src, k))
}

/// Parses a statement list in curly braces at `i`.
pub fn curly(src: &Source, i: usize) -> (res: Step<StatementList>)
    requires
        src.wf(),
        i <= src.text().len(),
    ensures
        agrees(res, spec_curly(src.text(), i as int), |v: StatementList| v@),
        ends_within(spec_curly(src.text(), i as int), i as int, src.text().len() as int, true),
    decreases src.text().len() - i, 1int,
{
    let ghost s = src.text();
    proof {
        lemma_skip_opt_ws(s, i as int);
    }
    let a = match char_tag(src, skip_opt_ws(src, i), '{') {
        Some(a) => a,
        None => return Step::Backtrack,
    };
    proof {
        lemma_skip_opt_ws(s, a as int);
    }
    let (block, k) = match statement_list(src, skip_opt_ws(src, a)) {
        Step::Done(v, k) => (v, k),
        other => return other.fail(),
    };
    proof {
        lemma_skip_opt_ws(s, k as int);
    }
    match char_tag(src, skip_opt_ws(src, k), '}') {
        Some(e) => Step::Done(block, e),
        None => Step::Backtrack,
    }
}

/// Parses a statement block at `i`: a statement list in curly braces or a
/// single statement.
pub fn block(src: &Source, i: usize) -> (res: Step<StatementList>)
    requires
        src.wf(),
        i <= src.text().len(),
    ensures
        agrees(res, spec_block(src.text(), i as int), |v: StatementList| v@),
        ends_within(spec_block(src.text(), i as int), i as int, src.text().len() as int, true),
    decreases src.text().len() - i, 2int,
{
    match curly(src, i) {
        Step::Done(v, e) => return Step::Done(v, e),
        Step::Backtrack => {},
        other => return other.fail(),
    }
    match statement(src, i) {
        Step::Done(st, e) => {
            let ghost st_model = st@;
            let mut statements: Vec<Statement> = Vec::new();
            statements.push(st);
            let res = StatementList { statements, pos: src.pos(i) };
            assert(res@.statements =~= seq![st_model]);
            Step::Done(res, e)
        },
        other => other.fail(),
    }
}

//============ Whole texts ===================================================

/// Whether a parse result agrees with its mathematical value.
pub open spec fn result_agrees(res: Result<StatementList, Error>, spec: Result<SpecStatementList, Error>) -> bool {
    match (res, spec) {
        (Ok(list), Ok(m)) => list@ == m,
        (Err(e), Err(f)) => e == f,
        _ => false,
    }
}

/// An error points into the text: its position is that of one of the
/// characters of `s` or of its end.
pub open spec fn error_within(s: Seq<char>, e: Error) -> bool {
    exists|k: int| 0 <= k <= s.len() && e.pos == pos_at(s, k)
}

impl StatementList {
    /// Parses a text into a statement list, or returns `None` if the text
    /// holds a Unicode escape for a value that is not a character.
    pub fn try_parse_str(input: &str) -> (res: Option<Result<StatementList, Error>>)
        requires
            fits(input@),
        ensures
            res is None <==> parse_panics(input@),
            res matches Some(r) ==> result_agrees(r, spec_parse_str(input@)),
            res matches Some(Err(e)) ==> error_within(input@, e),
    {
        let src = Source::new(input);
        match statement_list(&src, 0) {
            Step::Done(list, e) => if e == src.len() {
                Some(Ok(list))
            } else {
                Some(Err(Error { pos: src.pos(e), kind: ErrorKind::Eof }))
            },
            Step::Cut(c) => Some(Err(Error { pos: src.pos(c), kind: ErrorKind::Digit })),
            Step::Panic => None,
            Step::Backtrack => Some(Err(Error { pos: src.pos(0), kind: ErrorKind::Eof })),
        }
    }

    /// Parses a text into a statement list.
    ///
    /// The whole text must be statements, else the error is where the
    /// statements end.
    pub fn parse_str(input: &str) -> (res: Result<StatementList, Error>)
        requires
            fits(input@),
            !parse_panics(input@),
        ensures
            result_agrees(res, spec_parse_str(input@)),
            res matches Err(e) ==> error_within(input@, e),
    {
        match StatementList::try_parse_str(input) {
            Some(r) => r,
            None => {
                assert(false);
                Err(Error { pos: Pos { offset: 0, line: 1, col: 1 }, kind: ErrorKind::Eof })
            },
        }
    }
}

} // verus!
