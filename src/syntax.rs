//! The term representation consumed by the printer.
use vstd::prelude::*;
use vstd::string::StrSliceExecFns;
use vstd::string::StringExecFns;

verus! {

/// An identifier used for binders, record fields and union alternatives.
#[derive(Clone, Debug)]
pub struct Label {
    pub name: String,
}

impl Label {
    pub fn new(name: &str) -> (r: Label)
        ensures
            r.name@ == name@,
    {
        Label { name: String::from_str(name) }
    }
}

/// A variable reference: a name and a de Bruijn index among binders of
/// that name.
#[derive(Clone, Debug)]
pub struct V {
    pub name: Label,
    pub index: u64,
}

/// The universe constants.
#[derive(Clone, Copy, Debug, PartialEq, Eq, Structural)]
pub enum Const {
    Type,
    Kind,
    Sort,
}

/// Binary operators, from the one that binds least tightly to the one that
/// binds most tightly.
#[derive(Clone, Copy, Debug, PartialEq, Eq, Structural)]
pub enum BinOp {
    ImportAlt,
    BoolOr,
    NaturalPlus,
    TextAppend,
    ListAppend,
    BoolAnd,
    Combine,
    Prefer,
    CombineTypes,
    NaturalTimes,
    BoolEQ,
    BoolNE,
}

/// Primitive types and operations of the language.
#[derive(Clone, Copy, Debug, PartialEq, Eq, Structural)]
pub enum Builtin {
    Bool,
    Natural,
    Integer,
    Double,
    Text,
    List,
    Optional,
    OptionalNone,
    NaturalBuild,
    NaturalFold,
    NaturalIsZero,
    NaturalEven,
    NaturalOdd,
    NaturalToInteger,
    NaturalShow,
    IntegerToDouble,
    IntegerShow,
    DoubleShow,
    ListBuild,
    ListFold,
    ListLength,
    ListHead,
    ListLast,
    ListIndexed,
    ListReverse,
    OptionalFold,
    OptionalBuild,
    TextShow,
}

/// A double literal. A finite value carries the shortest decimal text that
/// reads back as the same double (as `f64`'s `Display` writes it), which may
/// lack a decimal point.
#[derive(Clone, Debug)]
pub enum NaiveDouble {
    Infinity,
    NegInfinity,
    NaN,
    Finite(String),
}

/// One piece of a text literal.
#[derive(Debug)]
pub enum TextChunk {
    Text(String),
    Expr(Expr),
}

/// A text literal: literal chunks interleaved with embedded terms.
#[derive(Debug)]
pub struct InterpolatedText {
    pub chunks: Vec<TextChunk>,
}

/// Where a local import path is anchored.
#[derive(Clone, Copy, Debug, PartialEq, Eq, Structural)]
pub enum FilePrefix {
    Here,
    Parent,
    Home,
    Absolute,
}

#[derive(Clone, Copy, Debug, PartialEq, Eq, Structural)]
pub enum Scheme {
    HTTP,
    HTTPS,
}

/// A remote import location; `path` holds the path's segments in order.
#[derive(Debug)]
pub struct Url {
    pub scheme: Scheme,
    pub authority: String,
    pub path: Vec<String>,
    pub query: Option<String>,
    pub headers: Option<Box<Expr>>,
}

/// The source of an imported term; a local path is kept as its segments.
#[derive(Debug)]
pub enum ImportLocation {
    Local(FilePrefix, Vec<String>),
    Remote(Url),
    Env(String),
    Missing,
}

/// A content hash: protocol name and hex digest.
#[derive(Clone, Debug)]
pub struct Hash {
    pub protocol: String,
    pub hash: String,
}

#[derive(Debug)]
pub struct ImportHashed {
    pub location: ImportLocation,
    pub hash: Option<Hash>,
}

#[derive(Clone, Copy, Debug, PartialEq, Eq, Structural)]
pub enum ImportMode {
    Code,
    RawText,
}

#[derive(Debug)]
pub struct Import {
    pub mode: ImportMode,
    pub location_hashed: ImportHashed,
}

/// Lexicographic order on texts by character code, the order in which a
/// map keyed by label keeps its keys.
pub open spec fn text_lt(a: Seq<char>, b: Seq<char>) -> bool
    decreases a.len(),
{
    if a.len() == 0 {
        b.len() > 0
    } else if b.len() == 0 {
        false
    } else if a[0] != b[0] {
        a[0] < b[0]
    } else {
        text_lt(a.drop_first(), b.drop_first())
    }
}

/// The labelled entries of a record or union: each label at most once, in
/// ascending order, as a map keyed by label holds them. The printer writes
/// entries in the order given and does not rely on this.
pub open spec fn labels_ascending<T>(fs: Seq<(Label, T)>) -> bool {
    forall|i: int| 0 <= i < fs.len() - 1 ==> text_lt(#[trigger] fs[i].0.name@, fs[i + 1].0.name@)
}

/// Whether `a` comes strictly before `b` in label order.
pub fn text_less(a: &str, b: &str) -> (r: bool)
    ensures
        r == text_lt(a@, b@),
{
    let n = a.unicode_len();
    let m = b.unicode_len();
    let mut i: usize = 0;
    assert(a@.skip(0) =~= a@);
    assert(b@.skip(0) =~= b@);
    while i < n && i < m
        invariant
            n == a@.len(),
            m == b@.len(),
            i <= n,
            i <= m,
            text_lt(a@, b@) == text_lt(a@.skip(i as int), b@.skip(i as int)),
        decreases n - i,
    {
        let x = a.get_char(i);
        let y = b.get_char(i);
        assert(a@.skip(i as int)[0] == x);
        assert(b@.skip(i as int)[0] == y);
        if x != y {
            return x < y;
        }
        assert(a@.skip(i as int).drop_first() =~= a@.skip(i + 1));
        assert(b@.skip(i as int).drop_first() =~= b@.skip(i + 1));
        i = i + 1;
    }
    i == n && i < m
}

/// Whether labelled entries satisfy `labels_ascending`.
pub fn entries_ascending<T>(fs: &Vec<(Label, T)>) -> (r: bool)
    ensures
        r == labels_ascending(fs@),
{
    let mut i: usize = 1;
    while i < fs.len()
        invariant
            1 <= i,
            forall|j: int| 0 <= j < i - 1 && j < fs@.len() - 1 ==> text_lt(
                #[trigger] fs@[j].0.name@,
                fs@[j + 1].0.name@,
            ),
        decreases fs.len() - i,
    {
        if !text_less(fs[i - 1].0.name.as_str(), fs[i].0.name.as_str()) {
            assert(!text_lt(fs@[i - 1].0.name@, fs@[(i - 1) + 1].0.name@));
            return false;
        }
        i = i + 1;
    }
    true
}

/// A term of the language, one variant per shape.
#[derive(Debug)]
pub enum Expr {
    Lam(Label, Box<Expr>, Box<Expr>),
    Pi(Label, Box<Expr>, Box<Expr>),
    App(Box<Expr>, Vec<Expr>),
    Let(Label, Option<Box<Expr>>, Box<Expr>, Box<Expr>),
    Annot(Box<Expr>, Box<Expr>),
    Var(V),
    Const(Const),
    Builtin(Builtin),
    BoolLit(bool),
    BoolIf(Box<Expr>, Box<Expr>, Box<Expr>),
    NaturalLit(u64),
    IntegerLit(i64),
    DoubleLit(NaiveDouble),
    TextLit(InterpolatedText),
    BinOp(BinOp, Box<Expr>, Box<Expr>),
    EmptyListLit(Box<Expr>),
    NEListLit(Vec<Expr>),
    OldOptionalLit(Option<Box<Expr>>, Box<Expr>),
    EmptyOptionalLit(Box<Expr>),
    NEOptionalLit(Box<Expr>),
    /// Field types; a well-formed term lists them as `labels_ascending`
    /// says, as does every other list of labelled entries below.
    RecordType(Vec<(Label, Expr)>),
    RecordLit(Vec<(Label, Expr)>),
    UnionType(Vec<(Label, Option<Expr>)>),
    UnionLit(Label, Box<Expr>, Vec<(Label, Option<Expr>)>),
    UnionConstructor(Label, Vec<(Label, Option<Expr>)>),
    Merge(Box<Expr>, Box<Expr>, Option<Box<Expr>>),
    Field(Box<Expr>, Label),
    Projection(Box<Expr>, Vec<Label>),
    Embed(Import),
    /// A source-position wrapper; it has no syntax of its own.
    Note(Box<Expr>),
}

} // verus!
