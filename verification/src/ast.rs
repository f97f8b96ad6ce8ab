//! The abstract syntax tree of the map description language.
//!
//! A map file is a list of statements. The types here mirror the grammar
//! given in their documentation. Each type has a mathematical model, a
//! `Spec` type of the same shape with sequences in place of vectors and
//! strings, which the parser's contracts speak of.

use vstd::prelude::*;
pub use crate::source::Pos;

verus! {

//------------ Parse results -------------------------------------------------

/// The outcome of running a parser at some index.
#[derive(Debug)]
pub enum Step<T> {
    /// The parser succeeded and ends at the given index.
    Done(T, usize),
    /// The parser did not match; alternatives may be tried.
    Backtrack,
    /// The parser failed at the given index and no alternative may be
    /// tried: a number's exponent lacks its digits.
    Cut(usize),
    /// The input holds a Unicode escape for a value that is not a
    /// character.
    Panic,
}

/// The mathematical outcome of running a parser at some index.
pub enum SpecStep<T> {
    Done(T, int),
    Backtrack,
    Cut(int),
    Panic,
}

/// Whether an outcome of the parser agrees with its mathematical outcome,
/// with values compared through `model`.
pub open spec fn agrees<T, M>(res: Step<T>, spec: SpecStep<M>, model: spec_fn(T) -> M) -> bool {
    match (res, spec) {
        (Step::Done(v, j), SpecStep::Done(m, k)) => model(v) == m && j == k,
        (Step::Backtrack, SpecStep::Backtrack) => true,
        (Step::Cut(a), SpecStep::Cut(b)) => a == b,
        (Step::Panic, SpecStep::Panic) => true,
        _ => false,
    }
}

/// The outcome of a parser that failed, passed on as the outcome of a
/// parser of another type.
pub open spec fn spec_fail<T, U>(r: SpecStep<T>) -> SpecStep<U> {
    match r {
        SpecStep::Cut(c) => SpecStep::Cut(c),
        SpecStep::Panic => SpecStep::Panic,
        _ => SpecStep::Backtrack,
    }
}

impl<T> Step<T> {
    /// Passes on the failure of a parser as the outcome of a parser of
    /// another type.
    pub fn fail<U>(self) -> (res: Step<U>)
        requires
            !(self is Done),
        ensures
            match self {
                Step::Cut(c) => res == Step::<U>::Cut(c),
                Step::Panic => res is Panic,
                _ => res is Backtrack,
            },
    {
        match self {
            Step::Cut(c) => Step::Cut(c),
            Step::Panic => Step::Panic,
            _ => Step::Backtrack,
        }
    }
}

/// Whether an index found by a parser agrees with its mathematical value.
pub open spec fn index_agrees(res: Option<usize>, spec: Option<int>) -> bool {
    match (res, spec) {
        (Some(a), Some(b)) => a == b,
        (None, None) => true,
        _ => false,
    }
}

/// Whether an outcome ends within `i..=len` and, if `strict`, after `i`.
pub open spec fn ends_within<T>(spec: SpecStep<T>, i: int, len: int, strict: bool) -> bool {
    match spec {
        SpecStep::Done(_, j) => (if strict { i < j } else { i <= j }) && j <= len,
        SpecStep::Cut(j) => i <= j <= len,
        _ => true,
    }
}

/// An outcome with `pre` put before the sequence it produced.
pub open spec fn prepend<M>(pre: Seq<M>, r: SpecStep<Seq<M>>) -> SpecStep<Seq<M>> {
    match r {
        SpecStep::Done(v, e) => SpecStep::Done(pre + v, e),
        SpecStep::Backtrack => SpecStep::Backtrack,
        SpecStep::Cut(c) => SpecStep::Cut(c),
        SpecStep::Panic => SpecStep::Panic,
    }
}

/// Putting two sequences before an outcome one after the other is putting
/// their concatenation before it.
pub proof fn lemma_prepend_push<M>(pre: Seq<M>, m: M, r: SpecStep<Seq<M>>)
    ensures
        prepend(pre, prepend(seq![m], r)) == prepend(pre.push(m), r),
{
    if let SpecStep::Done(v, e) = r {
        assert(pre + (seq![m] + v) =~= pre.push(m) + v);
    }
}

/// Putting nothing before an outcome leaves it as it is.
pub proof fn lemma_prepend_empty<M>(r: SpecStep<Seq<M>>)
    ensures
        prepend(Seq::<M>::empty(), r) == r,
{
    if let SpecStep::Done(v, e) = r {
        assert(Seq::<M>::empty() + v =~= v);
    }
}

/// The model of a vector whose elements are modelled by `model`.
pub open spec fn model_seq<T, M>(v: Seq<T>, model: spec_fn(T) -> M) -> Seq<M> {
    Seq::new(v.len(), |k: int| model(v[k]))
}

//============ Lexical elements ==============================================

//------------ Identifier ----------------------------------------------------

/// An identifier is the name of variables or other things.
///
/// It is a word composed of a leading alphabetic Unicode character or an
/// underscore, followed by alphanumeric Unicode characters or underscore or
/// period.
#[derive(Clone, Debug)]
pub struct Identifier {
    /// The actual identifier.
    pub ident: String,
    /// The start of the identifier in the source.
    pub pos: Pos,
}

/// The model of an [`Identifier`].
pub struct SpecIdentifier {
    pub ident: Seq<char>,
    pub pos: Pos,
}

impl View for Identifier {
    type V = SpecIdentifier;

    open spec fn view(&self) -> SpecIdentifier {
        SpecIdentifier { ident: self.ident@, pos: self.pos }
    }
}

impl Identifier {
    /// Returns the identifier as a string.
    pub fn as_str(&self) -> (res: &str)
        ensures
            res@ == self.ident@,
    {
        self.ident.as_str()
    }
}

//------------ Symbol --------------------------------------------------------

/// A symbolic name for something.
///
/// ```text
/// symbol  ::=  <a colon directly followed by an indentifer>
/// ```
#[derive(Clone, Debug)]
pub struct Symbol {
    /// The identifier portion of the symbol.
    pub ident: Identifier,
    /// The start of the symbol in the source
    pub pos: Pos,
}

/// The model of a [`Symbol`].
pub struct SpecSymbol {
    pub ident: SpecIdentifier,
    pub pos: Pos,
}

impl View for Symbol {
    type V = SpecSymbol;

    open spec fn view(&self) -> SpecSymbol {
        SpecSymbol { ident: self.ident@, pos: self.pos }
    }
}

//------------ SymbolSet -----------------------------------------------------

/// A sequence of symbols.
///
/// ```text
/// symbol-set  ::=  symbol *(symbol)
/// ```
#[derive(Clone, Debug)]
pub struct SymbolSet {
    /// The set of symbols.
    pub symbols: Vec<Symbol>,
    /// The start of the set in the source.
    pub pos: Pos,
}

/// The model of a [`SymbolSet`].
pub struct SpecSymbolSet {
    pub symbols: Seq<SpecSymbol>,
    pub pos: Pos,
}

impl View for SymbolSet {
    type V = SpecSymbolSet;

    open spec fn view(&self) -> SpecSymbolSet {
        SpecSymbolSet { symbols: model_seq(self.symbols@, |s: Symbol| s@), pos: self.pos }
    }
}

//------------ Number --------------------------------------------------------

/// A number expression is either a integer number or a floating point number.
///
/// ```text
/// number ::= <integer or floating point number in Rust formatting>
/// ```
///
/// We keep the string representation of the number and only convert upon
/// evaluation.
#[derive(Clone, Debug)]
pub struct Number {
    /// The string representation of the number.
    pub value: String,
    /// The position the number started at.
    pub pos: Pos,
}

/// The model of a [`Number`].
pub struct SpecNumber {
    pub value: Seq<char>,
    pub pos: Pos,
}

impl View for Number {
    type V = SpecNumber;

    open spec fn view(&self) -> SpecNumber {
        SpecNumber { value: self.value@, pos: self.pos }
    }
}

//------------ Quoted --------------------------------------------------------

/// A quoted string.
///
/// This is a string in double quotes with escape sequences `\x00` to
/// `\x7F`, `\u{..}` with up to six hex digits, `\n`, `\r`, `\t`, `\\`, and
/// `\"`.
#[derive(Clone, Debug)]
pub struct Quoted {
    /// The unescaped content of the quoted string.
    pub content: String,
    /// The position of the quoted string in the input.
    pub pos: Pos,
}

/// The model of a [`Quoted`].
pub struct SpecQuoted {
    pub content: Seq<char>,
    pub pos: Pos,
}

impl View for Quoted {
    type V = SpecQuoted;

    open spec fn view(&self) -> SpecQuoted {
        SpecQuoted { content: self.content@, pos: self.pos }
    }
}

impl Quoted {
    /// Returns the unescaped content.
    pub fn as_str(&self) -> (res: &str)
        ensures
            res@ == self.content@,
    {
        self.content.as_str()
    }
}

//------------ Text ----------------------------------------------------------

/// A text expression is a sequence of quoted strings.
///
/// ```text
/// text ::= quoted *(quoted)
/// ```
///
/// The evaluated value of the expression is the concatenation of the quoted
/// strings.
#[derive(Clone, Debug)]
pub struct Text {
    /// The first quoted string of the text expression.
    pub first: Quoted,
    /// Any possible additional quoted strings.
    pub others: Vec<Quoted>,
    /// The start of the text expression in the input.
    pub pos: Pos,
}

/// The model of a [`Text`].
pub struct SpecText {
    pub first: SpecQuoted,
    pub others: Seq<SpecQuoted>,
    pub pos: Pos,
}

impl View for Text {
    type V = SpecText;

    open spec fn view(&self) -> SpecText {
        SpecText {
            first: self.first@,
            others: model_seq(self.others@, |q: Quoted| q@),
            pos: self.pos,
        }
    }
}

//------------ UnitNumber ----------------------------------------------------

/// A number with a unit.
///
/// ```text
/// unit-number ::= <number follwed directly by unit identifier>
/// ```
#[derive(Clone, Debug)]
pub struct UnitNumber {
    /// The numerical value of the unit number.
    pub number: Number,
    /// The identifier of the unit.
    pub unit: Identifier,
    /// The start of the unit number in the input.
    pub pos: Pos,
}

/// The model of a [`UnitNumber`].
pub struct SpecUnitNumber {
    pub number: SpecNumber,
    pub unit: SpecIdentifier,
    pub pos: Pos,
}

impl View for UnitNumber {
    type V = SpecUnitNumber;

    open spec fn view(&self) -> SpecUnitNumber {
        SpecUnitNumber { number: self.number@, unit: self.unit@, pos: self.pos }
    }
}

//------------ Atom ----------------------------------------------------------

/// An atom is a basic expression.
///
/// ```text
/// atom  ::=  number | symbol-set | text | unit-number
/// ```
///
/// The alternatives are tried in this order.
#[derive(Clone, Debug)]
pub enum Atom {
    Number(Number),
    SymbolSet(SymbolSet),
    Text(Text),
    UnitNumber(UnitNumber),
}

/// The model of an [`Atom`].
pub enum SpecAtom {
    Number(SpecNumber),
    SymbolSet(SpecSymbolSet),
    Text(SpecText),
    UnitNumber(SpecUnitNumber),
}

impl View for Atom {
    type V = SpecAtom;

    open spec fn view(&self) -> SpecAtom {
        match self {
            Atom::Number(n) => SpecAtom::Number(n@),
            Atom::SymbolSet(s) => SpecAtom::SymbolSet(s@),
            Atom::Text(t) => SpecAtom::Text(t@),
            Atom::UnitNumber(u) => SpecAtom::UnitNumber(u@),
        }
    }
}

impl Atom {
    /// Returns the start of the atom in the source.
    pub fn pos(&self) -> (res: Pos)
        ensures
            res == (match self@ {
                SpecAtom::Number(a) => a.pos,
                SpecAtom::SymbolSet(a) => a.pos,
                SpecAtom::Text(a) => a.pos,
                SpecAtom::UnitNumber(a) => a.pos,
            }),
    {
        match self {
            Atom::Number(atom) => atom.pos,
            Atom::SymbolSet(atom) => atom.pos,
            Atom::Text(atom) => atom.pos,
            Atom::UnitNumber(atom) => atom.pos,
        }
    }
}

//============ Operators =====================================================

//------------ AddSub --------------------------------------------------------

/// Adding or subtracting two expressions.
///
/// ```text
/// add-sub ::= "+" | "-"
/// ```
#[derive(Clone, Copy, Debug, PartialEq, Eq, Structural)]
pub enum AddSub {
    Add,
    Sub,
}

//------------ Direction -----------------------------------------------------

/// A direction operator indicating left or right.
///
/// ```text
/// direction ::= "<<" | ">>"
/// ```
#[derive(Clone, Copy, Debug, PartialEq, Eq, Structural)]
pub enum Direction {
    Left,
    Right,
}

//------------ Connector -----------------------------------------------------

/// A connector describes how to connect two segments.
///
/// ```text
/// path-connector ::== ".." | "--"
/// ```
///
/// The connector `..` connects the paths smoothly, while `--` connects them
/// in a straight line.
#[derive(Clone, Copy, Debug, PartialEq, Eq, Structural)]
pub enum Connector {
    Straight,
    Smooth,
}

//============ Paths =========================================================

//------------ Vector --------------------------------------------------------

/// A vector expression provides a two-dimensional vector.
///
/// ```text
/// vector  ::=  "(" unit-number "," unit-number ")"
/// ```
#[derive(Clone, Debug)]
pub struct Vector {
    /// The x coordinate of the vector.
    pub x: UnitNumber,
    /// The y coordinate of the vector.
    pub y: UnitNumber,
    /// The start of the vector expression in the source.
    pub pos: Pos,
}

/// The model of a [`Vector`].
pub struct SpecVector {
    pub x: SpecUnitNumber,
    pub y: SpecUnitNumber,
    pub pos: Pos,
}

impl View for Vector {
    type V = SpecVector;

    open spec fn view(&self) -> SpecVector {
        SpecVector { x: self.x@, y: self.y@, pos: self.pos }
    }
}

//------------ Distance ------------------------------------------------------

/// A distance expression is a positive or negative distance
///
/// ```text
/// distance ::= add-sub distance-val
/// ```
#[derive(Clone, Debug)]
pub struct Distance {
    /// The operator for the distance.
    pub op: AddSub,
    /// The distance value.
    pub value: UnitNumber,
    /// The position of the distance expression in the input.
    pub pos: Pos,
}

/// The model of a [`Distance`].
pub struct SpecDistance {
    pub op: AddSub,
    pub value: SpecUnitNumber,
    pub pos: Pos,
}

impl View for Distance {
    type V = SpecDistance;

    open spec fn view(&self) -> SpecDistance {
        SpecDistance { op: self.op, value: self.value@, pos: self.pos }
    }
}

//------------ Sideways ------------------------------------------------------

/// Describes an offset of a path sideways from its course.
///
/// ```text
/// sideways  ::=  direction unit-number
/// ```
#[derive(Clone, Debug)]
pub struct Sideways {
    /// The direction of the sideways movement.
    pub direction: Direction,
    /// The value of the movement.
    pub value: UnitNumber,
    /// The start of the expression in the source.
    pub pos: Pos,
}

/// The model of a [`Sideways`].
pub struct SpecSideways {
    pub direction: Direction,
    pub value: SpecUnitNumber,
    pub pos: Pos,
}

impl View for Sideways {
    type V = SpecSideways;

    open spec fn view(&self) -> SpecSideways {
        SpecSideways { direction: self.direction, value: self.value@, pos: self.pos }
    }
}

//------------ Shift ---------------------------------------------------------

/// Describes a shift along a given vector.
///
/// ```text
/// shift  ::=  add-sub vector
/// ```
#[derive(Clone, Debug)]
pub struct Shift {
    /// The operation of applying the shift
    pub op: AddSub,
    /// The value of the shift.
    pub value: Vector,
    /// The start of the expression in the source.
    pub pos: Pos,
}

/// The model of a [`Shift`].
pub struct SpecShift {
    pub op: AddSub,
    pub value: SpecVector,
    pub pos: Pos,
}

impl View for Shift {
    type V = SpecShift;

    open spec fn view(&self) -> SpecShift {
        SpecShift { op: self.op, value: self.value@, pos: self.pos }
    }
}

//------------ Angle ---------------------------------------------------------

/// An angle expression describes an angle.
///
/// ```text
/// angle  ::=  "@" number
/// ```
#[derive(Clone, Debug)]
pub struct Angle {
    /// The angle’s value in degrees.
    pub value: Number,
    /// The start of the angle expression in the source.
    pub pos: Pos,
}

/// The model of an [`Angle`].
pub struct SpecAngle {
    pub value: SpecNumber,
    pub pos: Pos,
}

impl View for Angle {
    type V = SpecAngle;

    open spec fn view(&self) -> SpecAngle {
        SpecAngle { value: self.value@, pos: self.pos }
    }
}

//------------ Offset --------------------------------------------------------

/// An offset for a section.
///
/// ```text
/// offset  ::=  sideways | shift | angle
/// ```
#[derive(Clone, Debug)]
pub enum Offset {
    Sideways(Sideways),
    Shift(Shift),
    Angle(Angle),
}

/// The model of an [`Offset`].
pub enum SpecOffset {
    Sideways(SpecSideways),
    Shift(SpecShift),
    Angle(SpecAngle),
}

impl View for Offset {
    type V = SpecOffset;

    open spec fn view(&self) -> SpecOffset {
        match self {
            Offset::Sideways(o) => SpecOffset::Sideways(o@),
            Offset::Shift(o) => SpecOffset::Shift(o@),
            Offset::Angle(o) => SpecOffset::Angle(o@),
        }
    }
}

//------------ Location ------------------------------------------------------

/// A location on a path.
///
/// ```text
/// location  ::=  symbol *distance
/// ```
#[derive(Clone, Debug)]
pub struct Location {
    /// The name of a node.
    pub node: Symbol,
    /// The sequence of distances from the point.
    pub distance: Vec<Distance>,
    /// The start of the location in the source.
    pub pos: Pos,
}

/// The model of a [`Location`].
pub struct SpecLocation {
    pub node: SpecSymbol,
    pub distance: Seq<SpecDistance>,
    pub pos: Pos,
}

impl View for Location {
    type V = SpecLocation;

    open spec fn view(&self) -> SpecLocation {
        SpecLocation {
            node: self.node@,
            distance: model_seq(self.distance@, |d: Distance| d@),
            pos: self.pos,
        }
    }
}

//------------ Section -------------------------------------------------------

/// A section expression describes how to derive a section of a path.
///
/// ```text
/// section  ::=  "[" location [ "," location ] "]" *offset
/// ```
#[derive(Clone, Debug)]
pub struct Section {
    /// The start location of the section.
    pub start: Location,
    /// The optional end location of the section.
    pub end: Option<Location>,
    /// The sequence of offsets.
    pub offset: Vec<Offset>,
    /// The start of the section in the source.
    pub pos: Pos,
}

/// The model of a [`Section`].
pub struct SpecSection {
    pub start: SpecLocation,
    pub end: Option<SpecLocation>,
    pub offset: Seq<SpecOffset>,
    pub pos: Pos,
}

impl View for Section {
    type V = SpecSection;

    open spec fn view(&self) -> SpecSection {
        SpecSection {
            start: self.start@,
            end: match self.end {
                Some(l) => Some(l@),
                None => None,
            },
            offset: model_seq(self.offset@, |o: Offset| o@),
            pos: self.pos,
        }
    }
}

//============ Expressions ===================================================

//------------ External ------------------------------------------------------

/// An external expression is a reference to a value computed externally.
///
/// ```text
/// external  ::=  identifier [ "(" argument-list ")" ]
/// ```
#[derive(Debug)]
pub struct External {
    /// The identifier part of the external expression.
    pub ident: Identifier,
    /// The optional arguments of a function expression.
    ///
    /// If this is present, the external expression is a function expression.
    /// It may still be empty.
    pub args: Option<ArgumentList>,
    /// The start of the function expression in the source.
    pub pos: Pos,
}

/// The model of an [`External`].
pub struct SpecExternal {
    pub ident: SpecIdentifier,
    pub args: Option<SpecArgumentList>,
    pub pos: Pos,
}

//------------ Complex -------------------------------------------------------

/// A complex expression is either an external or a section atop an external.
///
/// ```text
/// complex  ::=  extern [ section ]
/// ```
#[derive(Debug)]
pub struct Complex {
    /// The external expression.
    pub external: External,
    /// The optional section applied to the external.
    pub section: Option<Section>,
    /// The start of the complex expression in the source.
    pub pos: Pos,
}

/// The model of a [`Complex`].
pub struct SpecComplex {
    pub external: SpecExternal,
    pub section: Option<SpecSection>,
    pub pos: Pos,
}

//------------ List ----------------------------------------------------------

/// A list expression is a possibly empty list of expressions.
///
/// ```text
/// list  ::=  "[" "]" | "[" expression *( "," expression ) "]"
/// ```
#[derive(Debug)]
pub struct List {
    /// The content of the list.
    pub content: Vec<Expression>,
    /// The start of the list expression in the source.
    pub pos: Pos,
}

/// The model of a [`List`].
pub struct SpecList {
    pub content: Seq<SpecExpression>,
    pub pos: Pos,
}

//------------ Fragment ------------------------------------------------------

/// A fragment is part of an expression.
///
/// ```text
/// fragment  ::=  complex | list | vector | atom
/// ```
#[derive(Debug)]
pub enum Fragment {
    Complex(Complex),
    List(List),
    Vector(Vector),
    Atom(Atom),
}

/// The model of a [`Fragment`].
pub enum SpecFragment {
    Complex(SpecComplex),
    List(SpecList),
    Vector(SpecVector),
    Atom(SpecAtom),
}

//------------ Expression ----------------------------------------------------

/// An expression.
///
/// ```text
/// expression ::= fragment *( connector fragment )
/// ```
#[derive(Debug)]
pub struct Expression {
    /// The first fragment.
    pub first: Fragment,
    /// The, possibly empty, sequence of connected fragments.
    pub connected: Vec<(Connector, Fragment)>,
    /// The position of the start of the expression in the source.
    pub pos: Pos,
}

/// The model of an [`Expression`].
pub struct SpecExpression {
    pub first: SpecFragment,
    pub connected: Seq<(Connector, SpecFragment)>,
    pub pos: Pos,
}

//------------ Assignment ----------------------------------------------------

/// An assignment assigns the result of an expression to a variable.
///
/// ```text
/// assignment ::= target:identifier "=" expression
/// ```
#[derive(Debug)]
pub struct Assignment {
    /// The name of the variable or the keyword.
    pub target: Identifier,
    /// The expression to assign to.
    pub expression: Expression,
    /// The start of the assignment in the source.
    pub pos: Pos,
}

/// The model of an [`Assignment`].
pub struct SpecAssignment {
    pub target: SpecIdentifier,
    pub expression: SpecExpression,
    pub pos: Pos,
}

//------------ Argument ------------------------------------------------------

/// An argument is either a keyword or a positional argument.
///
/// ```text
/// argument ::= assignment | expression
/// ```
#[derive(Debug)]
pub enum Argument {
    Keyword(Assignment),
    Pos(Expression),
}

/// The model of an [`Argument`].
pub enum SpecArgument {
    Keyword(SpecAssignment),
    Pos(SpecExpression),
}

//------------ ArgumentList --------------------------------------------------

/// An argument list is a possibly empty comma separated list of arguments.
///
/// ```text
/// argument-list ::= argument  *("," argument)
/// ```
#[derive(Debug)]
pub struct ArgumentList {
    /// The list of arguments.
    pub arguments: Vec<Argument>,
    /// The start of the argument list in the source
    pub pos: Pos,
}

/// The model of an [`ArgumentList`].
pub struct SpecArgumentList {
    pub arguments: Seq<SpecArgument>,
    pub pos: Pos,
}

/// The model of an external expression.
pub open spec fn model_external(e: External) -> SpecExternal
    decreases e,
{
    SpecExternal {
        ident: e.ident@,
        args: match e.args {
            Some(a) => Some(model_argument_list(a)),
            None => None,
        },
        pos: e.pos,
    }
}

/// The model of a complex expression.
pub open spec fn model_complex(c: Complex) -> SpecComplex
    decreases c,
{
    SpecComplex {
        external: model_external(c.external),
        section: match c.section {
            Some(s) => Some(s@),
            None => None,
        },
        pos: c.pos,
    }
}

/// The model of a list expression.
pub open spec fn model_list(l: List) -> SpecList
    decreases l,
{
    SpecList {
        content: Seq::new(
            l.content@.len(),
            |k: int| if 0 <= k < l.content@.len() { model_expression(l.content@[k]) } else { arbitrary() },
        ),
        pos: l.pos,
    }
}

/// The model of a fragment.
pub open spec fn model_fragment(f: Fragment) -> SpecFragment
    decreases f,
{
    match f {
        Fragment::Complex(c) => SpecFragment::Complex(model_complex(c)),
        Fragment::List(l) => SpecFragment::List(model_list(l)),
        Fragment::Vector(v) => SpecFragment::Vector(v@),
        Fragment::Atom(a) => SpecFragment::Atom(a@),
    }
}

/// The model of an expression.
pub open spec fn model_expression(e: Expression) -> SpecExpression
    decreases e,
{
    SpecExpression {
        first: model_fragment(e.first),
        connected: Seq::new(
            e.connected@.len(),
            |k: int| if 0 <= k < e.connected@.len() {
                (e.connected@[k].0, model_fragment(e.connected@[k].1))
            } else {
                arbitrary()
            },
        ),
        pos: e.pos,
    }
}

/// The model of an assignment.
pub open spec fn model_assignment(a: Assignment) -> SpecAssignment
    decreases a,
{
    SpecAssignment { target: a.target@, expression: model_expression(a.expression), pos: a.pos }
}

/// The model of an argument.
pub open spec fn model_argument(a: Argument) -> SpecArgument
    decreases a,
{
    match a {
        Argument::Keyword(k) => SpecArgument::Keyword(model_assignment(k)),
        Argument::Pos(e) => SpecArgument::Pos(model_expression(e)),
    }
}

/// The model of an argument list.
pub open spec fn model_argument_list(a: ArgumentList) -> SpecArgumentList
    decreases a,
{
    SpecArgumentList {
        arguments: Seq::new(
            a.arguments@.len(),
            |k: int| if 0 <= k < a.arguments@.len() { model_argument(a.arguments@[k]) } else { arbitrary() },
        ),
        pos: a.pos,
    }
}

impl View for External {
    type V = SpecExternal;

    open spec fn view(&self) -> SpecExternal {
        model_external(*self)
    }
}

impl View for Complex {
    type V = SpecComplex;

    open spec fn view(&self) -> SpecComplex {
        model_complex(*self)
    }
}

impl View for List {
    type V = SpecList;

    open spec fn view(&self) -> SpecList {
        model_list(*self)
    }
}

impl View for Fragment {
    type V = SpecFragment;

    open spec fn view(&self) -> SpecFragment {
        model_fragment(*self)
    }
}

impl Fragment {
    /// Returns the start of the fragment in the source.
    pub fn pos(&self) -> (res: Pos)
        ensures
            res == (match self@ {
                SpecFragment::Complex(f) => f.pos,
                SpecFragment::List(f) => f.pos,
                SpecFragment::Vector(f) => f.pos,
                SpecFragment::Atom(f) => match f {
                    SpecAtom::Number(a) => a.pos,
                    SpecAtom::SymbolSet(a) => a.pos,
                    SpecAtom::Text(a) => a.pos,
                    SpecAtom::UnitNumber(a) => a.pos,
                },
            }),
    {
        match self {
            Fragment::Complex(frag) => frag.pos,
            Fragment::List(frag) => frag.pos,
            Fragment::Vector(frag) => frag.pos,
            Fragment::Atom(frag) => frag.pos(),
        }
    }
}

impl View for Expression {
    type V = SpecExpression;

    open spec fn view(&self) -> SpecExpression {
        model_expression(*self)
    }
}

impl View for Assignment {
    type V = SpecAssignment;

    open spec fn view(&self) -> SpecAssignment {
        model_assignment(*self)
    }
}

impl View for Argument {
    type V = SpecArgument;

    open spec fn view(&self) -> SpecArgument {
        model_argument(*self)
    }
}

impl View for ArgumentList {
    type V = SpecArgumentList;

    open spec fn view(&self) -> SpecArgumentList {
        model_argument_list(*self)
    }
}

//------------ AssignmentList ------------------------------------------------

/// An assignment list is a non-empty comma separated list of assignments.
///
/// ```text
/// assignment-list ::= assignment *("," assignment)
/// ```
#[derive(Debug)]
pub struct AssignmentList {
    /// The assignments of the list.
    pub assignments: Vec<Assignment>,
    /// The start of the assignment list in the source.
    pub pos: Pos,
}

/// The model of an [`AssignmentList`].
pub struct SpecAssignmentList {
    pub assignments: Seq<SpecAssignment>,
    pub pos: Pos,
}

impl View for AssignmentList {
    type V = SpecAssignmentList;

    open spec fn view(&self) -> SpecAssignmentList {
        SpecAssignmentList { assignments: model_seq(self.assignments@, |a: Assignment| a@), pos: self.pos }
    }
}

//============ Statements ====================================================

//----------- Let ------------------------------------------------------------

/// The let statement assigns values to variables.
///
/// ```text
/// let ::= "let" assignment-list ";"
/// ```
#[derive(Debug)]
pub struct Let {
    /// The assignments of the let statement.
    pub assignments: AssignmentList,
    /// The start of the let statement in the source.
    pub pos: Pos,
}

/// The model of a [`Let`].
pub struct SpecLet {
    pub assignments: SpecAssignmentList,
    pub pos: Pos,
}

impl View for Let {
    type V = SpecLet;

    open spec fn view(&self) -> SpecLet {
        SpecLet { assignments: self.assignments@, pos: self.pos }
    }
}

//---------- Procedure -------------------------------------------------------

/// A procedure statement renders something onto the map.
///
/// ```text
/// procedure ::= identifier "(" argument-list ")"
/// ```
#[derive(Debug)]
pub struct Procedure {
    /// The name of the procedure.
    pub ident: Identifier,
    /// The arguments of the procedure.
    pub args: ArgumentList,
    /// The start of the procedure statement in the source.
    pub pos: Pos,
}

/// The model of a [`Procedure`].
pub struct SpecProcedure {
    pub ident: SpecIdentifier,
    pub args: SpecArgumentList,
    pub pos: Pos,
}

impl View for Procedure {
    type V = SpecProcedure;

    open spec fn view(&self) -> SpecProcedure {
        SpecProcedure { ident: self.ident@, args: self.args@, pos: self.pos }
    }
}

//----------- With -----------------------------------------------------------

/// The with statement executes a block with updated render parameters.
///
/// ```text
/// with ::= "with" params:assignment-list statement-block
/// ```
#[derive(Debug)]
pub struct With {
    /// The updates to the rendering parameters.
    pub params: AssignmentList,
    /// The statements to execute.
    pub block: StatementList,
    /// The start of the with statement in the source.
    pub pos: Pos,
}

/// The model of a [`With`].
pub struct SpecWith {
    pub params: SpecAssignmentList,
    pub block: SpecStatementList,
    pub pos: Pos,
}

//------------ Statement -----------------------------------------------------

/// Statements are things that actually do something.
///
/// ```text
/// statement  ::=  (let | no-op | procedure | with)
/// ```
#[derive(Debug)]
pub enum Statement {
    Let(Let),
    NoOp(NoOp),
    Procedure(Procedure),
    With(With),
}

/// The model of a [`Statement`].
pub enum SpecStatement {
    Let(SpecLet),
    NoOp(NoOp),
    Procedure(SpecProcedure),
    With(SpecWith),
}

//------------ StatementList -------------------------------------------------

/// A list of statments.
///
/// ```text
/// statement-list   ::=  *(statement)
///
/// statement-block  ::=  ( "{" statement-list "}" ) | statement
/// ```
///
/// A statement list is the root of the syntax tree. That is, a map file
/// consists of a list of statements.
#[derive(Debug)]
pub struct StatementList {
    /// The list of statements.
    pub statements: Vec<Statement>,
    /// The start of the statement list in the source.
    pub pos: Pos,
}

/// The model of a [`StatementList`].
pub struct SpecStatementList {
    pub statements: Seq<SpecStatement>,
    pub pos: Pos,
}

/// The model of a with statement.
pub open spec fn model_with(w: With) -> SpecWith
    decreases w,
{
    SpecWith { params: w.params@, block: model_statement_list(w.block), pos: w.pos }
}

/// The model of a statement.
pub open spec fn model_statement(s: Statement) -> SpecStatement
    decreases s,
{
    match s {
        Statement::Let(l) => SpecStatement::Let(l@),
        Statement::NoOp(n) => SpecStatement::NoOp(n),
        Statement::Procedure(p) => SpecStatement::Procedure(p@),
        Statement::With(w) => SpecStatement::With(model_with(w)),
    }
}

/// The model of a statement list.
pub open spec fn model_statement_list(l: StatementList) -> SpecStatementList
    decreases l,
{
    SpecStatementList {
        statements: Seq::new(
            l.statements@.len(),
            |k: int| if 0 <= k < l.statements@.len() { model_statement(l.statements@[k]) } else { arbitrary() },
        ),
        pos: l.pos,
    }
}

impl View for With {
    type V = SpecWith;

    open spec fn view(&self) -> SpecWith {
        model_with(*self)
    }
}

impl View for Statement {
    type V = SpecStatement;

    open spec fn view(&self) -> SpecStatement {
        model_statement(*self)
    }
}

impl View for StatementList {
    type V = SpecStatementList;

    open spec fn view(&self) -> SpecStatementList {
        model_statement_list(*self)
    }
}

//------------ NoOp ----------------------------------------------------------

/// The no-op statement does nothing.
///
/// ```text
/// no-op ::= ";"
/// ```
#[derive(Clone, Copy, Debug, PartialEq, Eq, Structural)]
pub struct NoOp {
    /// The start of the statement in the source.
    pub pos: Pos,
}

//============ Error =========================================================

/// The reason why parsing failed.
#[derive(Clone, Copy, Debug, PartialEq, Eq, Structural)]
pub enum ErrorKind {
    /// The input has text left that is not a statement.
    Eof,
    /// The exponent of a number has no digits.
    Digit,
}

/// An error while parsing.
#[derive(Clone, Copy, Debug, PartialEq, Eq, Structural)]
pub struct Error {
    pub pos: Pos,
    pub kind: ErrorKind,
}

} // verus!
