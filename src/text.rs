//! Renderers for the atomic pieces of the syntax: identifiers, numbers,
//! escaped text, builtin names, operator symbols, import locations.
use crate::syntax::{
    BinOp, Builtin, Const, FilePrefix, Label, NaiveDouble, Scheme, V,
};
use itertools::Itertools;
use vstd::prelude::*;
use vstd::string::StrSliceExecFns;
use vstd::string::StringExecFns;

verus! {

pub open spec fn is_alnum(c: char) -> bool {
    ('a' <= c && c <= 'z') || ('A' <= c && c <= 'Z') || ('0' <= c && c <= '9')
}

pub open spec fn all_alnum(s: Seq<char>) -> bool {
    forall|i: int| 0 <= i < s.len() ==> is_alnum(#[trigger] s[i])
}

pub open spec fn is_keyword(s: Seq<char>) -> bool {
    s == "let"@ || s == "in"@ || s == "if"@ || s == "then"@ || s == "else"@
}

/// A label is written bare when it is a non-keyword made of ASCII letters
/// and digits only, and between backticks otherwise.
pub open spec fn label_text(s: Seq<char>) -> Seq<char> {
    if all_alnum(s) && !is_keyword(s) {
        s
    } else {
        "`"@ + s + "`"@
    }
}

/// Path segments and variable names of imports are double-quoted unless
/// made of ASCII letters and digits only.
pub open spec fn quoted_text(s: Seq<char>) -> Seq<char> {
    if all_alnum(s) {
        s
    } else {
        "\""@ + s + "\""@
    }
}

pub open spec fn escape_char(c: char) -> Seq<char> {
    if c == '\\' {
        "\\\\"@
    } else if c == '"' {
        "\\\""@
    } else if c == '$' {
        "\\$"@
    } else if c == '\u{0008}' {
        "\\b"@
    } else if c == '\u{000C}' {
        "\\f"@
    } else if c == '\n' {
        "\\n"@
    } else if c == '\r' {
        "\\r"@
    } else if c == '\t' {
        "\\t"@
    } else {
        seq![c]
    }
}

/// The literal chunk of a text literal with every character escaped.
pub open spec fn escaped(s: Seq<char>) -> Seq<char>
    decreases s.len(),
{
    if s.len() == 0 {
        Seq::empty()
    } else {
        escaped(s.drop_last()) + escape_char(s.last())
    }
}

pub open spec fn digit_char(d: nat) -> char {
    "0123456789"@[d as int]
}

/// Decimal digits of a natural number, without sign or leading zeros.
pub open spec fn digits(n: nat) -> Seq<char>
    decreases n,
{
    if n < 10 {
        seq![digit_char(n)]
    } else {
        digits(n / 10) + seq![digit_char(n % 10)]
    }
}

/// Integer literals always carry a sign, which tells them from naturals.
pub open spec fn integer_text(n: int) -> Seq<char> {
    if n >= 0 {
        "+"@ + digits(n as nat)
    } else {
        "-"@ + digits((-n) as nat)
    }
}

pub open spec fn has_char(s: Seq<char>, c: char) -> bool {
    exists|i: int| 0 <= i < s.len() && s[i] == c
}

/// Doubles always read back as doubles: special values as keywords, and a
/// finite value with a decimal point or an exponent.
pub open spec fn double_text(d: NaiveDouble) -> Seq<char> {
    match d {
        NaiveDouble::Infinity => "Infinity"@,
        NaiveDouble::NegInfinity => "-Infinity"@,
        NaiveDouble::NaN => "NaN"@,
        NaiveDouble::Finite(s) => if has_char(s@, 'e') || has_char(s@, '.') {
            s@
        } else {
            s@ + ".0"@
        },
    }
}

pub open spec fn const_name(k: Const) -> Seq<char> {
    match k {
        Const::Type => "Type"@,
        Const::Kind => "Kind"@,
        Const::Sort => "Sort"@,
    }
}

pub open spec fn binop_symbol(op: BinOp) -> Seq<char> {
    match op {
        BinOp::BoolOr => "||"@,
        BinOp::TextAppend => "++"@,
        BinOp::NaturalPlus => "+"@,
        BinOp::BoolAnd => "&&"@,
        BinOp::Combine => "/\\"@,
        BinOp::NaturalTimes => "*"@,
        BinOp::BoolEQ => "=="@,
        BinOp::BoolNE => "!="@,
        BinOp::CombineTypes => "//\\\\"@,
        BinOp::ImportAlt => "?"@,
        BinOp::Prefer => "//"@,
        BinOp::ListAppend => "#"@,
    }
}

pub open spec fn builtin_name(b: Builtin) -> Seq<char> {
    match b {
        Builtin::Bool => "Bool"@,
        Builtin::Natural => "Natural"@,
        Builtin::Integer => "Integer"@,
        Builtin::Double => "Double"@,
        Builtin::Text => "Text"@,
        Builtin::List => "List"@,
        Builtin::Optional => "Optional"@,
        Builtin::OptionalNone => "None"@,
        Builtin::NaturalBuild => "Natural/build"@,
        Builtin::NaturalFold => "Natural/fold"@,
        Builtin::NaturalIsZero => "Natural/isZero"@,
        Builtin::NaturalEven => "Natural/even"@,
        Builtin::NaturalOdd => "Natural/odd"@,
        Builtin::NaturalToInteger => "Natural/toInteger"@,
        Builtin::NaturalShow => "Natural/show"@,
        Builtin::IntegerToDouble => "Integer/toDouble"@,
        Builtin::IntegerShow => "Integer/show"@,
        Builtin::DoubleShow => "Double/show"@,
        Builtin::ListBuild => "List/build"@,
        Builtin::ListFold => "List/fold"@,
        Builtin::ListLength => "List/length"@,
        Builtin::ListHead => "List/head"@,
        Builtin::ListLast => "List/last"@,
        Builtin::ListIndexed => "List/indexed"@,
        Builtin::ListReverse => "List/reverse"@,
        Builtin::OptionalFold => "Optional/fold"@,
        Builtin::OptionalBuild => "Optional/build"@,
        Builtin::TextShow => "Text/show"@,
    }
}

pub open spec fn scheme_name(s: Scheme) -> Seq<char> {
    match s {
        Scheme::HTTP => "http"@,
        Scheme::HTTPS => "https"@,
    }
}

pub open spec fn prefix_text(p: FilePrefix) -> Seq<char> {
    match p {
        FilePrefix::Here => "."@,
        FilePrefix::Parent => ".."@,
        FilePrefix::Home => "~"@,
        FilePrefix::Absolute => ""@,
    }
}

/// A variable, with its de Bruijn index when it is not zero.
pub open spec fn var_text(v: V) -> Seq<char> {
    label_text(v.name.name@) + if v.index != 0 {
        "@"@ + digits(v.index as nat)
    } else {
        Seq::empty()
    }
}

pub open spec fn hash_text(h: crate::syntax::Hash) -> Seq<char> {
    h.protocol@ + ":"@ + h.hash@
}

/// The parts in order, with `sep` between each two.
pub open spec fn join(parts: Seq<Seq<char>>, sep: Seq<char>) -> Seq<char>
    decreases parts.len(),
{
    if parts.len() == 0 {
        Seq::empty()
    } else if parts.len() == 1 {
        parts[0]
    } else {
        join(parts.drop_last(), sep) + sep + parts.last()
    }
}

pub open spec fn list_text(
    open: Seq<char>,
    sep: Seq<char>,
    close: Seq<char>,
    items: Seq<Seq<char>>,
) -> Seq<char> {
    open + join(items, sep) + close
}

pub open spec fn views(v: Seq<String>) -> Seq<Seq<char>> {
    v.map_values(|s: String| s@)
}

/// Path segments, each quoted as needed, separated by slashes.
pub open spec fn path_text(segs: Seq<Seq<char>>) -> Seq<char> {
    join(segs.map_values(|s: Seq<char>| quoted_text(s)), "/"@)
}

/// Relies on itertools' `Itertools::join`: it writes the first item, then
/// the separator and the next item for each further item, and gives the
/// empty string for no items; `String`'s `Display` writes it verbatim.
#[verifier::external_body]
fn join_with(parts: &Vec<String>, sep: &str) -> (r: String)
    ensures
        r@ == join(views(parts@), sep@),
{
    parts.iter().join(sep)
}

pub fn str_eq(a: &str, b: &str) -> (r: bool)
    ensures
        r == (a@ == b@),
{
    let n = a.unicode_len();
    if n != b.unicode_len() {
        return false;
    }
    let mut i: usize = 0;
    while i < n
        invariant
            n == a@.len(),
            n == b@.len(),
            i <= n,
            a@.subrange(0, i as int) == b@.subrange(0, i as int),
        decreases n - i,
    {
        if a.get_char(i) != b.get_char(i) {
            assert(a@[i as int] != b@[i as int]);
            return false;
        }
        assert(a@.subrange(0, i + 1) =~= a@.subrange(0, i as int).push(a@[i as int]));
        assert(b@.subrange(0, i + 1) =~= b@.subrange(0, i as int).push(b@[i as int]));
        i = i + 1;
    }
    assert(a@ =~= a@.subrange(0, n as int));
    assert(b@ =~= b@.subrange(0, n as int));
    true
}

pub fn char_is_alnum(c: char) -> (r: bool)
    ensures
        r == is_alnum(c),
{
    ('a' <= c && c <= 'z') || ('A' <= c && c <= 'Z') || ('0' <= c && c <= '9')
}

pub fn is_all_alnum(s: &str) -> (r: bool)
    ensures
        r == all_alnum(s@),
{
    let n = s.unicode_len();
    let mut i: usize = 0;
    while i < n
        invariant
            n == s@.len(),
            i <= n,
            forall|j: int| 0 <= j < i ==> is_alnum(#[trigger] s@[j]),
        decreases n - i,
    {
        if !char_is_alnum(s.get_char(i)) {
            return false;
        }
        i = i + 1;
    }
    true
}

pub fn is_keyword_str(s: &str) -> (r: bool)
    ensures
        r == is_keyword(s@),
{
    str_eq(s, "let") || str_eq(s, "in") || str_eq(s, "if") || str_eq(s, "then") || str_eq(
        s,
        "else",
    )
}

impl Label {
    pub fn to_string(&self) -> (r: String)
        ensures
            r@ == label_text(self.name@),
    {
        let s = self.name.as_str();
        if is_all_alnum(s) && !is_keyword_str(s) {
            String::from_str(s)
        } else {
            let mut r = String::from_str("`");
            r.append(s);
            r.append("`");
            r
        }
    }
}

pub fn quoted(s: &str) -> (r: String)
    ensures
        r@ == quoted_text(s@),
{
    if is_all_alnum(s) {
        String::from_str(s)
    } else {
        let mut r = String::from_str("\"");
        r.append(s);
        r.append("\"");
        r
    }
}

/// Appends the escaped form of a literal text chunk.
pub fn push_escaped(out: &mut String, s: &str)
    ensures
        final(out)@ == old(out)@ + escaped(s@),
{
    let n = s.unicode_len();
    let mut i: usize = 0;
    while i < n
        invariant
            n == s@.len(),
            i <= n,
            out@ == old(out)@ + escaped(s@.subrange(0, i as int)),
        decreases n - i,
    {
        let c = s.get_char(i);
        let piece = s.substring_char(i, i + 1);
        assert(piece@ =~= seq![c]);
        if c == '\\' {
            out.append("\\\\");
        } else if c == '"' {
            out.append("\\\"");
        } else if c == '$' {
            out.append("\\$");
        } else if c == '\u{0008}' {
            out.append("\\b");
        } else if c == '\u{000C}' {
            out.append("\\f");
        } else if c == '\n' {
            out.append("\\n");
        } else if c == '\r' {
            out.append("\\r");
        } else if c == '\t' {
            out.append("\\t");
        } else {
            out.append(piece);
        }
        let ghost pre = s@.subrange(0, i as int);
        assert(s@.subrange(0, i + 1).drop_last() =~= pre);
        assert(s@.subrange(0, i + 1).last() == c);
        assert(out@ =~= old(out)@ + escaped(s@.subrange(0, i + 1)));
        i = i + 1;
    }
    assert(s@.subrange(0, n as int) =~= s@);
}

fn digit_str(d: u64) -> (r: &'static str)
    requires
        d < 10,
    ensures
        r@ == seq![digit_char(d as nat)],
{
    let all: &'static str = "0123456789";
    proof {
        reveal_strlit("0123456789");
    }
    let r = all.substring_char(d as usize, d as usize + 1);
    assert(r@ =~= seq![digit_char(d as nat)]);
    r
}

/// Decimal text of a natural-number literal.
pub fn natural_to_text(n: u64) -> (r: String)
    ensures
        r@ == digits(n as nat),
    decreases n,
{
    if n < 10 {
        String::from_str(digit_str(n))
    } else {
        let mut r = natural_to_text(n / 10);
        r.append(digit_str(n % 10));
        r
    }
}

/// Signed text of an integer literal.
pub fn integer_to_text(n: i64) -> (r: String)
    ensures
        r@ == integer_text(n as int),
{
    if n >= 0 {
        let mut r = String::from_str("+");
        let d = natural_to_text(n as u64);
        r.append(d.as_str());
        r
    } else {
        let m: u64 = (-(n as i128)) as u64;
        let mut r = String::from_str("-");
        let d = natural_to_text(m);
        r.append(d.as_str());
        r
    }
}

pub fn contains_char(s: &str, c: char) -> (r: bool)
    ensures
        r == has_char(s@, c),
{
    let n = s.unicode_len();
    let mut i: usize = 0;
    while i < n
        invariant
            n == s@.len(),
            i <= n,
            forall|j: int| 0 <= j < i ==> s@[j] != c,
        decreases n - i,
    {
        if s.get_char(i) == c {
            return true;
        }
        i = i + 1;
    }
    false
}

impl NaiveDouble {
    pub fn to_string(&self) -> (r: String)
        ensures
            r@ == double_text(*self),
    {
        match self {
            NaiveDouble::Infinity => String::from_str("Infinity"),
            NaiveDouble::NegInfinity => String::from_str("-Infinity"),
            NaiveDouble::NaN => String::from_str("NaN"),
            NaiveDouble::Finite(s) => {
                let s = s.as_str();
                if contains_char(s, 'e') || contains_char(s, '.') {
                    String::from_str(s)
                } else {
                    let mut r = String::from_str(s);
                    r.append(".0");
                    r
                }
            },
        }
    }
}

impl Const {
    pub fn name(&self) -> (r: &'static str)
        ensures
            r@ == const_name(*self),
    {
        match self {
            Const::Type => "Type",
            Const::Kind => "Kind",
            Const::Sort => "Sort",
        }
    }
}

impl BinOp {
    pub fn symbol(&self) -> (r: &'static str)
        ensures
            r@ == binop_symbol(*self),
    {
        match self {
            BinOp::BoolOr => "||",
            BinOp::TextAppend => "++",
            BinOp::NaturalPlus => "+",
            BinOp::BoolAnd => "&&",
            BinOp::Combine => "/\\",
            BinOp::NaturalTimes => "*",
            BinOp::BoolEQ => "==",
            BinOp::BoolNE => "!=",
            BinOp::CombineTypes => "//\\\\",
            BinOp::ImportAlt => "?",
            BinOp::Prefer => "//",
            BinOp::ListAppend => "#",
        }
    }
}

impl Builtin {
    pub fn name(&self) -> (r: &'static str)
        ensures
            r@ == builtin_name(*self),
    {
        match self {
            Builtin::Bool => "Bool",
            Builtin::Natural => "Natural",
            Builtin::Integer => "Integer",
            Builtin::Double => "Double",
            Builtin::Text => "Text",
            Builtin::List => "List",
            Builtin::Optional => "Optional",
            Builtin::OptionalNone => "None",
            Builtin::NaturalBuild => "Natural/build",
            Builtin::NaturalFold => "Natural/fold",
            Builtin::NaturalIsZero => "Natural/isZero",
            Builtin::NaturalEven => "Natural/even",
            Builtin::NaturalOdd => "Natural/odd",
            Builtin::NaturalToInteger => "Natural/toInteger",
            Builtin::NaturalShow => "Natural/show",
            Builtin::IntegerToDouble => "Integer/toDouble",
            Builtin::IntegerShow => "Integer/show",
            Builtin::DoubleShow => "Double/show",
            Builtin::ListBuild => "List/build",
            Builtin::ListFold => "List/fold",
            Builtin::ListLength => "List/length",
            Builtin::ListHead => "List/head",
            Builtin::ListLast => "List/last",
            Builtin::ListIndexed => "List/indexed",
            Builtin::ListReverse => "List/reverse",
            Builtin::OptionalFold => "Optional/fold",
            Builtin::OptionalBuild => "Optional/build",
            Builtin::TextShow => "Text/show",
        }
    }
}

impl Scheme {
    pub fn name(&self) -> (r: &'static str)
        ensures
            r@ == scheme_name(*self),
    {
        match self {
            Scheme::HTTP => "http",
            Scheme::HTTPS => "https",
        }
    }
}

impl FilePrefix {
    pub fn text(&self) -> (r: &'static str)
        ensures
            r@ == prefix_text(*self),
    {
        match self {
            FilePrefix::Here => ".",
            FilePrefix::Parent => "..",
            FilePrefix::Home => "~",
            FilePrefix::Absolute => "",
        }
    }
}

impl V {
    pub fn to_string(&self) -> (r: String)
        ensures
            r@ == var_text(*self),
    {
        let mut r = self.name.to_string();
        if self.index != 0 {
            r.append("@");
            let d = natural_to_text(self.index);
            r.append(d.as_str());
        } else {
            assert(r@ =~= r@ + Seq::<char>::empty());
        }
        r
    }
}

impl crate::syntax::Hash {
    pub fn to_string(&self) -> (r: String)
        ensures
            r@ == hash_text(*self),
    {
        let mut r = String::from_str(self.protocol.as_str());
        r.append(":");
        r.append(self.hash.as_str());
        r
    }
}

/// Writes `open`, the items separated by `sep`, then `close`.
pub fn fmt_list(open: &str, sep: &str, close: &str, items: &Vec<String>) -> (r: String)
    ensures
        r@ == list_text(open@, sep@, close@, views(items@)),
{
    let mut r = String::from_str(open);
    let mut i: usize = 0;
    while i < items.len()
        invariant
            i <= items.len(),
            r@ == open@ + join(views(items@.subrange(0, i as int)), sep@),
        decreases items.len() - i,
    {
        let ghost before = views(items@.subrange(0, i as int));
        let ghost after = views(items@.subrange(0, i + 1));
        assert(after.drop_last() =~= before);
        assert(after.last() == items@[i as int]@);
        if i > 0 {
            r.append(sep);
        } else {
            assert(before.len() == 0);
            assert(r@ =~= open@);
        }
        r.append(items[i].as_str());
        assert(r@ =~= open@ + join(after, sep@));
        i = i + 1;
    }
    assert(items@.subrange(0, items.len() as int) =~= items@);
    r.append(close);
    r
}

/// The segments of a path, quoted as needed and joined by slashes.
pub fn fmt_path(segs: &Vec<String>) -> (r: String)
    ensures
        r@ == path_text(views(segs@)),
{
    let mut parts: Vec<String> = Vec::new();
    let mut i: usize = 0;
    while i < segs.len()
        invariant
            i <= segs.len(),
            parts.len() == i,
            forall|j: int| 0 <= j < i ==> (#[trigger] parts@[j])@ == quoted_text(segs@[j]@),
        decreases segs.len() - i,
    {
        let q = quoted(segs[i].as_str());
        parts.push(q);
        i = i + 1;
    }
    assert(views(parts@) =~= views(segs@).map_values(|s: Seq<char>| quoted_text(s)));
    join_with(&parts, "/")
}

} // verus!
