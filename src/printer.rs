//! Precedence-aware rendering of terms.
//!
//! Each grammar level is a print phase; a term is parenthesised exactly when
//! its shape belongs to a looser level than the one its position demands,
//! and each child is rendered at the phase that its position in the parent
//! demands.
use crate::syntax::{
    BinOp, Expr, Import, ImportHashed, ImportLocation, ImportMode, InterpolatedText, Label,
    TextChunk,
};
use crate::text::{
    binop_symbol, builtin_name, const_name, digits, double_text, escaped, fmt_list, fmt_path,
    hash_text, integer_text, integer_to_text, label_text, list_text, natural_to_text, path_text,
    prefix_text, push_escaped, quoted, quoted_text, scheme_name, var_text, views,
};
use vstd::prelude::*;
use vstd::string::StringExecFns;

verus! {

broadcast use vstd::std_specs::vec::group_vec_axioms, vstd::seq::group_seq_axioms;

/// Grammar levels, from the loosest to the tightest.
#[derive(Clone, Copy, Debug, PartialEq, Eq, Structural)]
pub enum PrintPhase {
    /// Any expression: the top level and the inside of parentheses.
    Base,
    /// The operand of a type annotation.
    Operator,
    /// The left operand of a binary operator; the right operand is demanded
    /// the next tighter phase.
    BinOp(BinOp),
    /// An application.
    App,
    /// The function and arguments of an application.
    Import,
    /// Atoms and parenthesised groups.
    Primitive,
}

/// Position of an operator in the precedence order: earlier binds looser.
pub open spec fn op_rank(op: BinOp) -> nat {
    match op {
        BinOp::ImportAlt => 0,
        BinOp::BoolOr => 1,
        BinOp::NaturalPlus => 2,
        BinOp::TextAppend => 3,
        BinOp::ListAppend => 4,
        BinOp::BoolAnd => 5,
        BinOp::Combine => 6,
        BinOp::Prefer => 7,
        BinOp::CombineTypes => 8,
        BinOp::NaturalTimes => 9,
        BinOp::BoolEQ => 10,
        BinOp::BoolNE => 11,
    }
}

/// The phase demanded of a binary operator's right operand: one step
/// tighter than the operator's own, so that an operand built with the same
/// operator keeps its parentheses and operators group to the left.
pub open spec fn right_operand_phase(op: BinOp) -> PrintPhase {
    match op {
        BinOp::ImportAlt => PrintPhase::BinOp(BinOp::BoolOr),
        BinOp::BoolOr => PrintPhase::BinOp(BinOp::NaturalPlus),
        BinOp::NaturalPlus => PrintPhase::BinOp(BinOp::TextAppend),
        BinOp::TextAppend => PrintPhase::BinOp(BinOp::ListAppend),
        BinOp::ListAppend => PrintPhase::BinOp(BinOp::BoolAnd),
        BinOp::BoolAnd => PrintPhase::BinOp(BinOp::Combine),
        BinOp::Combine => PrintPhase::BinOp(BinOp::Prefer),
        BinOp::Prefer => PrintPhase::BinOp(BinOp::CombineTypes),
        BinOp::CombineTypes => PrintPhase::BinOp(BinOp::NaturalTimes),
        BinOp::NaturalTimes => PrintPhase::BinOp(BinOp::BoolEQ),
        BinOp::BoolEQ => PrintPhase::BinOp(BinOp::BoolNE),
        BinOp::BoolNE => PrintPhase::App,
    }
}

/// Position of a phase in the total order of phases.
pub open spec fn rank(p: PrintPhase) -> nat {
    match p {
        PrintPhase::Base => 0,
        PrintPhase::Operator => 1,
        PrintPhase::BinOp(op) => 2 + op_rank(op),
        PrintPhase::App => 14,
        PrintPhase::Import => 15,
        PrintPhase::Primitive => 16,
    }
}

/// Whether a term needs parentheses where phase `p` is demanded.
pub open spec fn needs_paren(e: Expr, p: PrintPhase) -> bool {
    match e {
        Expr::Lam(..) | Expr::BoolIf(..) | Expr::Pi(..) | Expr::Let(..) | Expr::EmptyListLit(..)
        | Expr::NEListLit(..) | Expr::OldOptionalLit(..) | Expr::EmptyOptionalLit(..)
        | Expr::NEOptionalLit(..) | Expr::Merge(..) | Expr::Annot(..) => rank(p) > rank(
            PrintPhase::Base,
        ),
        Expr::BinOp(op, _, _) => rank(p) > rank(PrintPhase::BinOp(op)),
        Expr::App(..) => rank(p) > rank(PrintPhase::App),
        Expr::Field(..) | Expr::Projection(..) => rank(p) > rank(PrintPhase::Import),
        _ => false,
    }
}

/// The text of a term where phase `p` is demanded.
pub open spec fn render(e: Expr, p: PrintPhase) -> Seq<char>
    decreases e, 1nat,
{
    if needs_paren(e, p) {
        "("@ + shape(e, PrintPhase::Base) + ")"@
    } else {
        shape(e, p)
    }
}

pub open spec fn opt_annot(sep: Seq<char>, t: Option<Box<Expr>>, p: PrintPhase) -> Seq<char>
    decreases t, 2nat,
{
    match t {
        Some(t) => sep + render(*t, p),
        None => Seq::empty(),
    }
}

/// The first `n` terms of `es`, each rendered at phase `p`.
pub open spec fn renders(es: Seq<Expr>, p: PrintPhase, n: nat) -> Seq<Seq<char>>
    decreases es, n,
{
    if n == 0 || n > es.len() {
        Seq::empty()
    } else {
        renders(es, p, (n - 1) as nat).push(render(es[n - 1], p))
    }
}

/// The first `n` record entries, each as label, `sep`, term.
pub open spec fn entries(fs: Seq<(Label, Expr)>, sep: Seq<char>, n: nat) -> Seq<Seq<char>>
    decreases fs, n,
{
    if n == 0 || n > fs.len() {
        Seq::empty()
    } else {
        entries(fs, sep, (n - 1) as nat).push(
            label_text(fs[n - 1].0.name@) + sep + render(fs[n - 1].1, PrintPhase::Base),
        )
    }
}

pub open spec fn alternative(k: Label, v: Option<Expr>) -> Seq<char>
    decreases v, 2nat,
{
    label_text(k.name@) + match v {
        Some(t) => ": "@ + render(t, PrintPhase::Base),
        None => Seq::empty(),
    }
}

/// The first `n` union alternatives, each as label with optional type.
pub open spec fn alternatives(fs: Seq<(Label, Option<Expr>)>, n: nat) -> Seq<Seq<char>>
    decreases fs, n,
{
    if n == 0 || n > fs.len() {
        Seq::empty()
    } else {
        alternatives(fs, (n - 1) as nat).push(alternative(fs[n - 1].0, fs[n - 1].1))
    }
}

/// The first `n` chunks of a text literal, between the quotes.
pub open spec fn chunks_text(cs: Seq<TextChunk>, n: nat) -> Seq<char>
    decreases cs, n,
{
    if n == 0 || n > cs.len() {
        Seq::empty()
    } else {
        chunks_text(cs, (n - 1) as nat) + match cs[n - 1] {
            TextChunk::Text(s) => escaped(s@),
            TextChunk::Expr(e) => "${ "@ + render(e, PrintPhase::Base) + " }"@,
        }
    }
}

pub open spec fn label_texts(ls: Seq<Label>) -> Seq<Seq<char>> {
    ls.map_values(|l: Label| label_text(l.name@))
}

pub open spec fn location_text(l: ImportLocation) -> Seq<char>
    decreases l, 0nat,
{
    match l {
        ImportLocation::Local(prefix, segs) => prefix_text(prefix) + "/"@ + path_text(
            views(segs@),
        ),
        ImportLocation::Remote(u) => scheme_name(u.scheme) + "://"@ + u.authority@ + "/"@
            + path_text(views(u.path@)) + match u.query {
            Some(q) => "?"@ + q@,
            None => Seq::empty(),
        } + match u.headers {
            Some(h) => " using ("@ + render(*h, PrintPhase::Base) + ")"@,
            None => Seq::empty(),
        },
        ImportLocation::Env(e) => "env:"@ + quoted_text(e@),
        ImportLocation::Missing => "missing"@,
    }
}

pub open spec fn hashed_text(i: ImportHashed) -> Seq<char>
    decreases i, 0nat,
{
    location_text(i.location) + match i.hash {
        Some(h) => " "@ + hash_text(h),
        None => Seq::empty(),
    }
}

pub open spec fn import_text(i: Import) -> Seq<char>
    decreases i, 0nat,
{
    hashed_text(i.location_hashed) + match i.mode {
        ImportMode::Code => Seq::empty(),
        ImportMode::RawText => " as Text"@,
    }
}

/// The concrete syntax of a term's own shape, its children rendered at the
/// phases their positions demand; `p` is passed through a position wrapper.
pub open spec fn shape(e: Expr, p: PrintPhase) -> Seq<char>
    decreases e, 0nat,
{
    match e {
        Expr::Lam(a, b, c) => "λ("@ + label_text(a.name@) + " : "@ + render(*b, PrintPhase::Base)
            + ") → "@ + render(*c, PrintPhase::Base),
        Expr::BoolIf(a, b, c) => "if "@ + render(*a, PrintPhase::Base) + " then "@ + render(
            *b,
            PrintPhase::Base,
        ) + " else "@ + render(*c, PrintPhase::Base),
        Expr::Pi(a, b, c) => if a.name@ == "_"@ {
            render(*b, PrintPhase::Operator) + " → "@ + render(*c, PrintPhase::Base)
        } else {
            "∀("@ + label_text(a.name@) + " : "@ + render(*b, PrintPhase::Base) + ") → "@ + render(
                *c,
                PrintPhase::Base,
            )
        },
        Expr::Let(a, b, c, d) => "let "@ + label_text(a.name@) + opt_annot(
            " : "@,
            b,
            PrintPhase::Base,
        ) + " = "@ + render(*c, PrintPhase::Base) + " in "@ + render(*d, PrintPhase::Base),
        Expr::Annot(a, b) => render(*a, PrintPhase::Operator) + " : "@ + render(
            *b,
            PrintPhase::Base,
        ),
        Expr::Var(v) => var_text(v),
        Expr::Const(k) => const_name(k),
        Expr::Builtin(b) => builtin_name(b),
        Expr::BoolLit(b) => if b {
            "True"@
        } else {
            "False"@
        },
        Expr::NaturalLit(n) => digits(n as nat),
        Expr::IntegerLit(n) => integer_text(n as int),
        Expr::DoubleLit(d) => double_text(d),
        Expr::TextLit(t) => "\""@ + chunks_text(t.chunks@, t.chunks@.len()) + "\""@,
        Expr::BinOp(op, a, b) => render(*a, PrintPhase::BinOp(op)) + " "@ + binop_symbol(op)
            + " "@ + render(*b, right_operand_phase(op)),
        Expr::EmptyListLit(t) => "[] : List "@ + render(*t, PrintPhase::Import),
        Expr::NEListLit(es) => list_text(
            "["@,
            ", "@,
            "]"@,
            renders(es@, PrintPhase::Base, es@.len()),
        ),
        Expr::OldOptionalLit(x, t) => match x {
            None => "[] : Optional "@ + render(*t, PrintPhase::Import),
            Some(x) => "["@ + render(*x, PrintPhase::Base) + "] : Optional "@ + render(
                *t,
                PrintPhase::Import,
            ),
        },
        Expr::EmptyOptionalLit(t) => "None "@ + render(*t, PrintPhase::Import),
        Expr::NEOptionalLit(x) => "Some "@ + render(*x, PrintPhase::Import),
        Expr::RecordType(fs) => if fs@.len() == 0 {
            "{}"@
        } else {
            list_text("{ "@, ", "@, " }"@, entries(fs@, " : "@, fs@.len()))
        },
        Expr::RecordLit(fs) => if fs@.len() == 0 {
            "{=}"@
        } else {
            list_text("{ "@, ", "@, " }"@, entries(fs@, " = "@, fs@.len()))
        },
        Expr::UnionType(alts) => list_text(
            "< "@,
            " | "@,
            " >"@,
            alternatives(alts@, alts@.len()),
        ),
        Expr::UnionLit(a, b, alts) => list_text(
            "< "@,
            " | "@,
            " >"@,
            seq![label_text(a.name@) + " = "@ + render(*b, PrintPhase::Base)] + alternatives(
                alts@,
                alts@.len(),
            ),
        ),
        Expr::UnionConstructor(x, alts) => list_text(
            "< "@,
            " | "@,
            " >"@,
            alternatives(alts@, alts@.len()),
        ) + "."@ + label_text(x.name@),
        Expr::Merge(a, b, c) => "merge "@ + render(*a, PrintPhase::Import) + " "@ + render(
            *b,
            PrintPhase::Import,
        ) + opt_annot(" : "@, c, PrintPhase::App),
        Expr::App(f, args) => list_text(
            ""@,
            " "@,
            ""@,
            seq![render(*f, PrintPhase::Import)] + renders(
                args@,
                PrintPhase::Import,
                args@.len(),
            ),
        ),
        Expr::Field(a, l) => render(*a, PrintPhase::Primitive) + "."@ + label_text(l.name@),
        Expr::Projection(a, ls) => render(*a, PrintPhase::Primitive) + "."@ + list_text(
            "{ "@,
            ", "@,
            " }"@,
            label_texts(ls@),
        ),
        Expr::Embed(i) => import_text(i),
        Expr::Note(b) => render(*b, p),
    }
}

impl BinOp {
    pub fn rank(&self) -> (r: u64)
        ensures
            r == op_rank(*self),
    {
        match self {
            BinOp::ImportAlt => 0,
            BinOp::BoolOr => 1,
            BinOp::NaturalPlus => 2,
            BinOp::TextAppend => 3,
            BinOp::ListAppend => 4,
            BinOp::BoolAnd => 5,
            BinOp::Combine => 6,
            BinOp::Prefer => 7,
            BinOp::CombineTypes => 8,
            BinOp::NaturalTimes => 9,
            BinOp::BoolEQ => 10,
            BinOp::BoolNE => 11,
        }
    }
}

impl BinOp {
    /// The phase demanded of this operator's right operand.
    pub fn right_operand_phase(&self) -> (r: PrintPhase)
        ensures
            r == right_operand_phase(*self),
    {
        match self {
            BinOp::ImportAlt => PrintPhase::BinOp(BinOp::BoolOr),
            BinOp::BoolOr => PrintPhase::BinOp(BinOp::NaturalPlus),
            BinOp::NaturalPlus => PrintPhase::BinOp(BinOp::TextAppend),
            BinOp::TextAppend => PrintPhase::BinOp(BinOp::ListAppend),
            BinOp::ListAppend => PrintPhase::BinOp(BinOp::BoolAnd),
            BinOp::BoolAnd => PrintPhase::BinOp(BinOp::Combine),
            BinOp::Combine => PrintPhase::BinOp(BinOp::Prefer),
            BinOp::Prefer => PrintPhase::BinOp(BinOp::CombineTypes),
            BinOp::CombineTypes => PrintPhase::BinOp(BinOp::NaturalTimes),
            BinOp::NaturalTimes => PrintPhase::BinOp(BinOp::BoolEQ),
            BinOp::BoolEQ => PrintPhase::BinOp(BinOp::BoolNE),
            BinOp::BoolNE => PrintPhase::App,
        }
    }
}

impl PrintPhase {
    pub fn rank(&self) -> (r: u64)
        ensures
            r == rank(*self),
    {
        match self {
            PrintPhase::Base => 0,
            PrintPhase::Operator => 1,
            PrintPhase::BinOp(op) => 2 + op.rank(),
            PrintPhase::App => 14,
            PrintPhase::Import => 15,
            PrintPhase::Primitive => 16,
        }
    }
}

/// A term paired with the phase at which it is to be printed.
pub struct PhasedExpr<'a> {
    pub expr: &'a Expr,
    pub phase: PrintPhase,
}

impl<'a> PhasedExpr<'a> {
    /// Pairs a term with the loosest phase.
    pub fn new(expr: &'a Expr) -> (r: PhasedExpr<'a>)
        ensures
            r.expr == expr,
            r.phase == PrintPhase::Base,
    {
        PhasedExpr { expr, phase: PrintPhase::Base }
    }

    /// The same term at another phase.
    pub fn phase(self, phase: PrintPhase) -> (r: PhasedExpr<'a>)
        ensures
            r.expr == self.expr,
            r.phase == phase,
    {
        PhasedExpr { expr: self.expr, phase }
    }

    pub fn fmt(&self) -> (r: String)
        ensures
            r@ == render(*self.expr, self.phase),
        decreases *self.expr, 2nat,
    {
        self.expr.fmt_phase(self.phase)
    }
}

fn fmt_opt_annot(sep: &str, t: &Option<Box<Expr>>, p: PrintPhase) -> (r: String)
    ensures
        r@ == opt_annot(sep@, *t, p),
    decreases *t, 3nat,
{
    match t {
        Some(x) => {
            let mut r = String::from_str(sep);
            r.append(PhasedExpr::new(x).phase(p).fmt().as_str());
            r
        },
        None => String::new(),
    }
}

fn fmt_renders(es: &Vec<Expr>, p: PrintPhase) -> (r: Vec<String>)
    ensures
        views(r@) == renders(es@, p, es@.len()),
    decreases *es, 3nat,
{
    let mut r: Vec<String> = Vec::new();
    let mut i: usize = 0;
    while i < es.len()
        invariant
            i <= es.len(),
            views(r@) == renders(es@, p, i as nat),
        decreases es.len() - i,
    {
        let s = PhasedExpr::new(&es[i]).phase(p).fmt();
        let ghost before = views(r@);
        r.push(s);
        assert(views(r@) =~= before.push(s@));
        i = i + 1;
    }
    r
}

fn fmt_entries(fs: &Vec<(Label, Expr)>, sep: &str) -> (r: Vec<String>)
    ensures
        views(r@) == entries(fs@, sep@, fs@.len()),
    decreases *fs, 3nat,
{
    let mut r: Vec<String> = Vec::new();
    let mut i: usize = 0;
    while i < fs.len()
        invariant
            i <= fs.len(),
            views(r@) == entries(fs@, sep@, i as nat),
        decreases fs.len() - i,
    {
        let mut s = fs[i].0.to_string();
        s.append(sep);
        s.append(PhasedExpr::new(&fs[i].1).fmt().as_str());
        let ghost before = views(r@);
        r.push(s);
        assert(views(r@) =~= before.push(s@));
        i = i + 1;
    }
    r
}

fn fmt_alternatives(fs: &Vec<(Label, Option<Expr>)>) -> (r: Vec<String>)
    ensures
        views(r@) == alternatives(fs@, fs@.len()),
    decreases *fs, 3nat,
{
    let mut r: Vec<String> = Vec::new();
    let mut i: usize = 0;
    while i < fs.len()
        invariant
            i <= fs.len(),
            views(r@) == alternatives(fs@, i as nat),
        decreases fs.len() - i,
    {
        let mut s = fs[i].0.to_string();
        match &fs[i].1 {
            Some(t) => {
                s.append(": ");
                s.append(PhasedExpr::new(t).fmt().as_str());
            },
            None => {
                assert(s@ =~= s@ + Seq::<char>::empty());
            },
        }
        assert(s@ =~= alternative(fs@[i as int].0, fs@[i as int].1));
        let ghost before = views(r@);
        r.push(s);
        assert(views(r@) =~= before.push(s@));
        i = i + 1;
    }
    r
}

impl InterpolatedText {
    /// The quoted text literal: literal chunks escaped, embedded terms
    /// between `${ ` and ` }`.
    pub fn to_string(&self) -> (r: String)
        ensures
            r@ == "\""@ + chunks_text(self.chunks@, self.chunks@.len()) + "\""@,
        decreases *self, 3nat,
    {
        let cs = &self.chunks;
        let mut r = String::from_str("\"");
        let mut i: usize = 0;
        while i < cs.len()
            invariant
                i <= cs.len(),
                cs == &self.chunks,
                r@ == "\""@ + chunks_text(cs@, i as nat),
            decreases cs.len() - i,
        {
            let ghost before = r@;
            match &cs[i] {
                TextChunk::Text(s) => {
                    push_escaped(&mut r, s.as_str());
                },
                TextChunk::Expr(e) => {
                    r.append("${ ");
                    r.append(PhasedExpr::new(e).fmt().as_str());
                    r.append(" }");
                },
            }
            assert(r@ =~= "\""@ + chunks_text(cs@, (i + 1) as nat));
            i = i + 1;
        }
        r.append("\"");
        r
    }
}

fn fmt_labels(ls: &Vec<Label>) -> (r: Vec<String>)
    ensures
        views(r@) == label_texts(ls@),
{
    let mut r: Vec<String> = Vec::new();
    let mut i: usize = 0;
    while i < ls.len()
        invariant
            i <= ls.len(),
            r@.len() == i,
            forall|j: int| 0 <= j < i ==> (#[trigger] r@[j])@ == label_text(ls@[j].name@),
        decreases ls.len() - i,
    {
        r.push(ls[i].to_string());
        i = i + 1;
    }
    assert(views(r@) =~= label_texts(ls@));
    r
}

fn fmt_location(l: &ImportLocation) -> (r: String)
    ensures
        r@ == location_text(*l),
    decreases *l, 3nat,
{
    match l {
        ImportLocation::Local(prefix, segs) => {
            let mut r = String::from_str(prefix.text());
            r.append("/");
            r.append(fmt_path(segs).as_str());
            r
        },
        ImportLocation::Remote(u) => {
            let mut r = String::from_str(u.scheme.name());
            r.append("://");
            r.append(u.authority.as_str());
            r.append("/");
            r.append(fmt_path(&u.path).as_str());
            match &u.query {
                Some(q) => {
                    r.append("?");
                    r.append(q.as_str());
                },
                None => {
                    assert(r@ =~= r@ + Seq::<char>::empty());
                },
            }
            match &u.headers {
                Some(h) => {
                    r.append(" using (");
                    r.append(PhasedExpr::new(h).fmt().as_str());
                    r.append(")");
                },
                None => {
                    assert(r@ =~= r@ + Seq::<char>::empty());
                },
            }
            r
        },
        ImportLocation::Env(e) => {
            let mut r = String::from_str("env:");
            r.append(quoted(e.as_str()).as_str());
            r
        },
        ImportLocation::Missing => String::from_str("missing"),
    }
}

impl ImportHashed {
    pub fn to_string(&self) -> (r: String)
        ensures
            r@ == hashed_text(*self),
        decreases *self, 3nat,
    {
        let mut r = fmt_location(&self.location);
        match &self.hash {
            Some(h) => {
                r.append(" ");
                r.append(h.to_string().as_str());
            },
            None => {
                assert(r@ =~= r@ + Seq::<char>::empty());
            },
        }
        r
    }
}

impl Import {
    pub fn to_string(&self) -> (r: String)
        ensures
            r@ == import_text(*self),
        decreases *self, 3nat,
    {
        let mut r = self.location_hashed.to_string();
        match self.mode {
            ImportMode::Code => {
                assert(r@ =~= r@ + Seq::<char>::empty());
            },
            ImportMode::RawText => {
                r.append(" as Text");
            },
        }
        r
    }
}

impl Expr {
    /// Whether this term needs parentheses where `phase` is demanded.
    pub fn needs_paren(&self, phase: PrintPhase) -> (r: bool)
        ensures
            r == needs_paren(*self, phase),
    {
        let p = phase.rank();
        match self {
            Expr::Lam(..) | Expr::BoolIf(..) | Expr::Pi(..) | Expr::Let(..)
            | Expr::EmptyListLit(..) | Expr::NEListLit(..) | Expr::OldOptionalLit(..)
            | Expr::EmptyOptionalLit(..) | Expr::NEOptionalLit(..) | Expr::Merge(..)
            | Expr::Annot(..) => p > 0,
            Expr::BinOp(op, _, _) => p > PrintPhase::BinOp(*op).rank(),
            Expr::App(..) => p > 14,
            Expr::Field(..) | Expr::Projection(..) => p > 15,
            _ => false,
        }
    }

    /// Renders this term where `phase` is demanded, parenthesised if its
    /// shape is looser than that.
    pub fn fmt_phase(&self, phase: PrintPhase) -> (r: String)
        ensures
            r@ == render(*self, phase),
        decreases *self, 1nat,
    {
        if self.needs_paren(phase) {
            let inner = self.fmt_shape(PrintPhase::Base);
            let mut r = String::from_str("(");
            r.append(inner.as_str());
            r.append(")");
            r
        } else {
            self.fmt_shape(phase)
        }
    }

    /// The canonical text of this term.
    pub fn to_string(&self) -> (r: String)
        ensures
            r@ == render(*self, PrintPhase::Base),
    {
        self.fmt_phase(PrintPhase::Base)
    }

    /// Renders this term's own shape, each child at the phase its position
    /// demands; `phase` is handed through a position wrapper.
    #[verifier::rlimit(50)]
    pub fn fmt_shape(&self, phase: PrintPhase) -> (r: String)
        ensures
            r@ == shape(*self, phase),
        decreases *self, 0nat,
    {
        match self {
            Expr::Lam(a, b, c) => {
                let mut r = String::from_str("λ(");
                r.append(a.to_string().as_str());
                r.append(" : ");
                r.append(PhasedExpr::new(b).fmt().as_str());
                r.append(") → ");
                r.append(PhasedExpr::new(c).fmt().as_str());
                r
            },
            Expr::BoolIf(a, b, c) => {
                let mut r = String::from_str("if ");
                r.append(PhasedExpr::new(a).fmt().as_str());
                r.append(" then ");
                r.append(PhasedExpr::new(b).fmt().as_str());
                r.append(" else ");
                r.append(PhasedExpr::new(c).fmt().as_str());
                r
            },
            Expr::Pi(a, b, c) => {
                if crate::text::str_eq(a.name.as_str(), "_") {
                    let mut r = PhasedExpr::new(b).phase(PrintPhase::Operator).fmt();
                    r.append(" → ");
                    r.append(PhasedExpr::new(c).fmt().as_str());
                    r
                } else {
                    let mut r = String::from_str("∀(");
                    r.append(a.to_string().as_str());
                    r.append(" : ");
                    r.append(PhasedExpr::new(b).fmt().as_str());
                    r.append(") → ");
                    r.append(PhasedExpr::new(c).fmt().as_str());
                    r
                }
            },
            Expr::Let(a, b, c, d) => {
                let mut r = String::from_str("let ");
                r.append(a.to_string().as_str());
                r.append(fmt_opt_annot(" : ", b, PrintPhase::Base).as_str());
                r.append(" = ");
                r.append(PhasedExpr::new(c).fmt().as_str());
                r.append(" in ");
                r.append(PhasedExpr::new(d).fmt().as_str());
                r
            },
            Expr::Annot(a, b) => {
                let mut r = PhasedExpr::new(a).phase(PrintPhase::Operator).fmt();
                r.append(" : ");
                r.append(PhasedExpr::new(b).fmt().as_str());
                r
            },
            Expr::Var(v) => v.to_string(),
            Expr::Const(k) => String::from_str(k.name()),
            Expr::Builtin(b) => String::from_str(b.name()),
            Expr::BoolLit(b) => if *b {
                String::from_str("True")
            } else {
                String::from_str("False")
            },
            Expr::NaturalLit(n) => natural_to_text(*n),
            Expr::IntegerLit(n) => integer_to_text(*n),
            Expr::DoubleLit(d) => d.to_string(),
            Expr::TextLit(t) => {
                t.to_string()
            },
            Expr::BinOp(op, a, b) => {
                let p = PrintPhase::BinOp(*op);
                let mut r = PhasedExpr::new(a).phase(p).fmt();
                r.append(" ");
                r.append(op.symbol());
                r.append(" ");
                r.append(PhasedExpr::new(b).phase(op.right_operand_phase()).fmt().as_str());
                r
            },
            Expr::EmptyListLit(t) => {
                let mut r = String::from_str("[] : List ");
                r.append(PhasedExpr::new(t).phase(PrintPhase::Import).fmt().as_str());
                r
            },
            Expr::NEListLit(es) => {
                let items = fmt_renders(es, PrintPhase::Base);
                fmt_list("[", ", ", "]", &items)
            },
            Expr::OldOptionalLit(x, t) => match x {
                None => {
                    let mut r = String::from_str("[] : Optional ");
                    r.append(PhasedExpr::new(t).phase(PrintPhase::Import).fmt().as_str());
                    r
                },
                Some(x) => {
                    let mut r = String::from_str("[");
                    r.append(PhasedExpr::new(x).fmt().as_str());
                    r.append("] : Optional ");
                    r.append(PhasedExpr::new(t).phase(PrintPhase::Import).fmt().as_str());
                    r
                },
            },
            Expr::EmptyOptionalLit(t) => {
                let mut r = String::from_str("None ");
                r.append(PhasedExpr::new(t).phase(PrintPhase::Import).fmt().as_str());
                r
            },
            Expr::NEOptionalLit(x) => {
                let mut r = String::from_str("Some ");
                r.append(PhasedExpr::new(x).phase(PrintPhase::Import).fmt().as_str());
                r
            },
            Expr::RecordType(fs) => if fs.len() == 0 {
                String::from_str("{}")
            } else {
                let items = fmt_entries(fs, " : ");
                fmt_list("{ ", ", ", " }", &items)
            },
            Expr::RecordLit(fs) => if fs.len() == 0 {
                String::from_str("{=}")
            } else {
                let items = fmt_entries(fs, " = ");
                fmt_list("{ ", ", ", " }", &items)
            },
            Expr::UnionType(alts) => {
                let items = fmt_alternatives(alts);
                fmt_list("< ", " | ", " >", &items)
            },
            Expr::UnionLit(a, b, alts) => {
                let mut first = a.to_string();
                first.append(" = ");
                first.append(PhasedExpr::new(b).fmt().as_str());
                let mut items: Vec<String> = Vec::new();
                items.push(first);
                let mut rest = fmt_alternatives(alts);
                items.append(&mut rest);
                assert(views(items@) =~= seq![
                    label_text(a.name@) + " = "@ + render(**b, PrintPhase::Base),
                ] + alternatives(alts@, alts@.len()));
                fmt_list("< ", " | ", " >", &items)
            },
            Expr::UnionConstructor(x, alts) => {
                let items = fmt_alternatives(alts);
                let mut r = fmt_list("< ", " | ", " >", &items);
                r.append(".");
                r.append(x.to_string().as_str());
                r
            },
            Expr::Merge(a, b, c) => {
                let mut r = String::from_str("merge ");
                r.append(PhasedExpr::new(a).phase(PrintPhase::Import).fmt().as_str());
                r.append(" ");
                r.append(PhasedExpr::new(b).phase(PrintPhase::Import).fmt().as_str());
                r.append(fmt_opt_annot(" : ", c, PrintPhase::App).as_str());
                r
            },
            Expr::App(f, args) => {
                let mut items: Vec<String> = Vec::new();
                items.push(PhasedExpr::new(f).phase(PrintPhase::Import).fmt());
                let mut rest = fmt_renders(args, PrintPhase::Import);
                items.append(&mut rest);
                assert(views(items@) =~= seq![render(**f, PrintPhase::Import)] + renders(
                    args@,
                    PrintPhase::Import,
                    args@.len(),
                ));
                fmt_list("", " ", "", &items)
            },
            Expr::Field(a, l) => {
                let mut r = PhasedExpr::new(a).phase(PrintPhase::Primitive).fmt();
                r.append(".");
                r.append(l.to_string().as_str());
                r
            },
            Expr::Projection(a, ls) => {
                let mut r = PhasedExpr::new(a).phase(PrintPhase::Primitive).fmt();
                r.append(".");
                let items = fmt_labels(ls);
                r.append(fmt_list("{ ", ", ", " }", &items).as_str());
                r
            },
            Expr::Embed(i) => i.to_string(),
            Expr::Note(b) => PhasedExpr::new(b).phase(phase).fmt(),
        }
    }
}

} // verus!
