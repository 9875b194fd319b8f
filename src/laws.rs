//! Properties of the rendering that relate several shapes or calls.
use crate::printer::{needs_paren, op_rank, rank, render, right_operand_phase, PrintPhase};
use crate::syntax::{BinOp, Expr, Label};
use crate::text::binop_symbol;
use vstd::prelude::*;

verus! {

/// Rank of the phase demanded of a right operand: one above the operator's.
pub proof fn lemma_right_operand_phase_is_next(op: BinOp)
    ensures
        rank(right_operand_phase(op)) == rank(PrintPhase::BinOp(op)) + 1,
{
}

/// A binary operation as the left operand of another is parenthesised
/// exactly when its operator binds looser; as the right operand, exactly
/// when its operator binds looser or is the same one.
pub proof fn lemma_operand_parentheses(op: BinOp, inner: BinOp, x: Box<Expr>, y: Box<Expr>)
    ensures
        needs_paren(Expr::BinOp(inner, x, y), PrintPhase::BinOp(op)) == (op_rank(inner) < op_rank(
            op,
        )),
        needs_paren(Expr::BinOp(inner, x, y), right_operand_phase(op)) == (op_rank(inner)
            <= op_rank(op)),
{
    lemma_right_operand_phase_is_next(op);
}

/// Operators group to the left: `(a op b) op c` is written bare as
/// `a op b op c`, while `a op (b op c)` keeps its parentheses, wherever the
/// outer operation itself needs none.
pub proof fn lemma_same_operator_groups_left(
    op: BinOp,
    a: Expr,
    b: Expr,
    c: Expr,
    p: PrintPhase,
)
    requires
        rank(p) <= rank(PrintPhase::BinOp(op)),
    ensures
        render(
            Expr::BinOp(op, Box::new(Expr::BinOp(op, Box::new(a), Box::new(b))), Box::new(c)),
            p,
        ) == render(a, PrintPhase::BinOp(op)) + " "@ + binop_symbol(op) + " "@ + render(
            b,
            right_operand_phase(op),
        ) + " "@ + binop_symbol(op) + " "@ + render(c, right_operand_phase(op)),
        render(
            Expr::BinOp(op, Box::new(a), Box::new(Expr::BinOp(op, Box::new(b), Box::new(c)))),
            p,
        ) == render(a, PrintPhase::BinOp(op)) + " "@ + binop_symbol(op) + " "@ + "("@ + render(
            b,
            PrintPhase::BinOp(op),
        ) + " "@ + binop_symbol(op) + " "@ + render(c, right_operand_phase(op)) + ")"@,
{
    lemma_right_operand_phase_is_next(op);
    let left = Expr::BinOp(op, Box::new(Expr::BinOp(op, Box::new(a), Box::new(b))), Box::new(c));
    let right = Expr::BinOp(op, Box::new(a), Box::new(Expr::BinOp(op, Box::new(b), Box::new(c))));
    let q = PrintPhase::BinOp(op);
    let t = right_operand_phase(op);
    let ab = Expr::BinOp(op, Box::new(a), Box::new(b));
    let bc = Expr::BinOp(op, Box::new(b), Box::new(c));
    assert(render(ab, q) == render(a, q) + " "@ + binop_symbol(op) + " "@ + render(b, t));
    assert(needs_paren(bc, t));
    assert(render(bc, t) == "("@ + (render(b, q) + " "@ + binop_symbol(op) + " "@ + render(c, t))
        + ")"@);
    assert(render(left, p) == render(ab, q) + " "@ + binop_symbol(op) + " "@ + render(c, t));
    assert(render(right, p) == render(a, q) + " "@ + binop_symbol(op) + " "@ + render(bc, t));
    assert(render(left, p) =~= render(a, q) + " "@ + binop_symbol(op) + " "@ + render(b, t) + " "@
        + binop_symbol(op) + " "@ + render(c, t));
    assert(render(right, p) =~= render(a, q) + " "@ + binop_symbol(op) + " "@ + "("@ + render(b, q)
        + " "@ + binop_symbol(op) + " "@ + render(c, t) + ")"@);
}

/// An empty record type is written `{}` and an empty record literal `{=}`,
/// at every phase, so the two never print alike.
pub proof fn lemma_empty_records_differ(
    fields: Vec<(Label, Expr)>,
    values: Vec<(Label, Expr)>,
    p: PrintPhase,
)
    requires
        fields@.len() == 0,
        values@.len() == 0,
    ensures
        render(Expr::RecordType(fields), p) == "{}"@,
        render(Expr::RecordLit(values), p) == "{=}"@,
        render(Expr::RecordType(fields), p) != render(Expr::RecordLit(values), p),
{
    reveal_strlit("{}");
    reveal_strlit("{=}");
    assert(render(Expr::RecordType(fields), p).len() != render(Expr::RecordLit(values), p).len());
}

/// An application in argument position keeps its parentheses, while the
/// arguments of one application follow the function bare:
/// `f (g x)` versus `f g x`.
pub proof fn lemma_application_nesting(
    f: Box<Expr>,
    g: Box<Expr>,
    x: Expr,
    inner: Vec<Expr>,
    nested: Vec<Expr>,
    flat: Vec<Expr>,
)
    requires
        inner@ == seq![x],
        nested@ == seq![Expr::App(g, inner)],
        flat@ == seq![*g, x],
    ensures
        render(Expr::App(f, nested), PrintPhase::Base) == render(*f, PrintPhase::Import) + " ("@
            + render(*g, PrintPhase::Import) + " "@ + render(x, PrintPhase::Import) + ")"@,
        render(Expr::App(f, flat), PrintPhase::Base) == render(*f, PrintPhase::Import) + " "@
            + render(*g, PrintPhase::Import) + " "@ + render(x, PrintPhase::Import),
{
    reveal_strlit("");
    reveal_strlit(" ");
    reveal_strlit(" (");
    reveal_strlit("(");
    let rf = render(*f, PrintPhase::Import);
    let rg = render(*g, PrintPhase::Import);
    let rx = render(x, PrintPhase::Import);
    let app_g = Expr::App(g, inner);
    let one = crate::printer::renders(inner@, PrintPhase::Import, 1);
    assert(crate::printer::renders(inner@, PrintPhase::Import, 0) == Seq::<Seq<char>>::empty());
    assert(inner@[0] == x);
    assert(one =~= seq![rx]);
    assert(crate::text::join(seq![rg, rx], " "@) == rg + " "@ + rx) by {
        assert(seq![rg, rx].drop_last() =~= seq![rg]);
        assert(crate::text::join(seq![rg], " "@) == rg);
    }
    assert(seq![rg] + one =~= seq![rg, rx]);
    assert(crate::printer::shape(app_g, PrintPhase::Base) =~= rg + " "@ + rx);
    let outer = crate::printer::renders(nested@, PrintPhase::Import, 1);
    assert(crate::printer::renders(nested@, PrintPhase::Import, 0) == Seq::<Seq<char>>::empty());
    assert(nested@[0] == app_g);
    assert(outer =~= seq![render(app_g, PrintPhase::Import)]);
    let rga = render(app_g, PrintPhase::Import);
    assert(crate::text::join(seq![rf, rga], " "@) == rf + " "@ + rga) by {
        assert(seq![rf, rga].drop_last() =~= seq![rf]);
        assert(crate::text::join(seq![rf], " "@) == rf);
    }
    assert(seq![rf] + outer =~= seq![rf, rga]);
    let two = crate::printer::renders(flat@, PrintPhase::Import, 2);
    assert(crate::printer::renders(flat@, PrintPhase::Import, 0) == Seq::<Seq<char>>::empty());
    assert(flat@[0] == *g);
    assert(flat@[1] == x);
    assert(crate::printer::renders(flat@, PrintPhase::Import, 1) =~= seq![rg]);
    assert(two =~= seq![rg, rx]);
    assert(seq![rf] + two =~= seq![rf, rg, rx]);
    assert(crate::text::join(seq![rf, rg, rx], " "@) == rf + " "@ + rg + " "@ + rx) by {
        assert(seq![rf, rg, rx].drop_last() =~= seq![rf, rg]);
        assert(seq![rf, rg].drop_last() =~= seq![rf]);
        assert(crate::text::join(seq![rf], " "@) == rf);
        assert(crate::text::join(seq![rf, rg], " "@) == rf + " "@ + rg);
    }
    assert(render(app_g, PrintPhase::Import) =~= "("@ + (rg + " "@ + rx) + ")"@);
    assert(render(Expr::App(f, nested), PrintPhase::Base) =~= rf + " ("@ + rg + " "@ + rx + ")"@);
    assert(render(Expr::App(f, flat), PrintPhase::Base) =~= rf + " "@ + rg + " "@ + rx);
}

/// A source-position wrapper prints exactly as the term it wraps, at every
/// phase.
pub proof fn lemma_note_is_transparent(e: Expr, p: PrintPhase)
    ensures
        render(Expr::Note(Box::new(e)), p) == render(e, p),
{
}

} // verus!
