use dhall_printer::printer::{PhasedExpr, PrintPhase};
use dhall_printer::syntax::{
    BinOp, Builtin, Const, Expr, FilePrefix, Import, ImportHashed, ImportLocation,
    ImportMode, InterpolatedText, Label, NaiveDouble, Scheme, TextChunk, Url, V,
    entries_ascending, text_less,
};

fn var(name: &str) -> Expr {
    Expr::Var(V { name: Label::new(name), index: 0 })
}

fn bx(e: Expr) -> Box<Expr> {
    Box::new(e)
}

fn op(o: BinOp, a: Expr, b: Expr) -> Expr {
    Expr::BinOp(o, bx(a), bx(b))
}

fn app(f: Expr, args: Vec<Expr>) -> Expr {
    Expr::App(bx(f), args)
}

fn natural_type() -> Expr {
    Expr::Builtin(Builtin::Natural)
}

fn double_of(v: f64) -> NaiveDouble {
    if v.is_nan() {
        NaiveDouble::NaN
    } else if v == f64::INFINITY {
        NaiveDouble::Infinity
    } else if v == f64::NEG_INFINITY {
        NaiveDouble::NegInfinity
    } else {
        NaiveDouble::Finite(format!("{}", v))
    }
}

fn render(e: &Expr) -> String {
    e.to_string()
}

#[test]
fn label_keyword_is_quoted() {
    assert_eq!(Label::new("if").to_string(), "`if`");
    assert_eq!(Label::new("let").to_string(), "`let`");
    assert_eq!(Label::new("else").to_string(), "`else`");
}

#[test]
fn label_alphanumeric_is_bare() {
    assert_eq!(Label::new("foo2").to_string(), "foo2");
    assert_eq!(Label::new("iff").to_string(), "iff");
}

#[test]
fn label_with_dash_is_quoted() {
    assert_eq!(Label::new("foo-bar").to_string(), "`foo-bar`");
    assert_eq!(render(&var("foo-bar")), "`foo-bar`");
}

#[test]
fn double_rendering() {
    assert_eq!(double_of(0.0).to_string(), "0.0");
    assert_eq!(double_of(1.0).to_string(), "1.0");
    assert_eq!(double_of(f64::INFINITY).to_string(), "Infinity");
    assert_eq!(double_of(f64::NEG_INFINITY).to_string(), "-Infinity");
    assert_eq!(double_of(f64::NAN).to_string(), "NaN");
    assert_eq!(double_of(1.5).to_string(), "1.5");
    assert_eq!(double_of(-2.0).to_string(), "-2.0");
    assert_eq!(render(&Expr::DoubleLit(double_of(3.0))), "3.0");
    assert_eq!(NaiveDouble::Finite("1e-7".to_string()).to_string(), "1e-7");
}

#[test]
fn integer_and_natural_signs() {
    assert_eq!(render(&Expr::IntegerLit(5)), "+5");
    assert_eq!(render(&Expr::IntegerLit(-5)), "-5");
    assert_eq!(render(&Expr::NaturalLit(5)), "5");
    assert_eq!(render(&Expr::IntegerLit(0)), "+0");
    assert_eq!(render(&Expr::IntegerLit(i64::MIN)), "-9223372036854775808");
    assert_eq!(render(&Expr::NaturalLit(u64::MAX)), "18446744073709551615");
    assert_eq!(render(&Expr::NaturalLit(1090)), "1090");
}

#[test]
fn same_operator_nests_without_parens() {
    let left = op(BinOp::NaturalPlus, op(BinOp::NaturalPlus, var("a"), var("b")), var("c"));
    let right = op(BinOp::NaturalPlus, var("a"), op(BinOp::NaturalPlus, var("b"), var("c")));
    assert_eq!(render(&left), "a + b + c");
    assert_eq!(render(&right), "a + (b + c)");
    assert_ne!(render(&left), render(&right));
}

#[test]
fn right_operand_parentheses_by_precedence() {
    let tighter = op(BinOp::NaturalPlus, var("a"), op(BinOp::NaturalTimes, var("b"), var("c")));
    assert_eq!(render(&tighter), "a + b * c");
    let looser = op(BinOp::NaturalTimes, var("a"), op(BinOp::NaturalPlus, var("b"), var("c")));
    assert_eq!(render(&looser), "a * (b + c)");
    let last = op(BinOp::BoolNE, var("a"), op(BinOp::BoolNE, var("b"), var("c")));
    assert_eq!(render(&last), "a != (b != c)");
    let app_right = op(BinOp::BoolNE, var("a"), app(var("f"), vec![var("x")]));
    assert_eq!(render(&app_right), "a != f x");
    let alt = op(BinOp::ImportAlt, var("a"), op(BinOp::ImportAlt, var("b"), var("c")));
    assert_eq!(render(&alt), "a ? (b ? c)");
}

#[test]
fn label_order_of_entries() {
    assert!(text_less("a", "b"));
    assert!(text_less("a", "ab"));
    assert!(!text_less("ab", "a"));
    assert!(!text_less("a", "a"));
    assert!(text_less("B", "a"));
    let sorted = vec![(Label::new("a"), 1u8), (Label::new("b"), 2u8), (Label::new("ba"), 3u8)];
    assert!(entries_ascending(&sorted));
    let repeated = vec![(Label::new("a"), 1u8), (Label::new("a"), 2u8)];
    assert!(!entries_ascending(&repeated));
    let unsorted = vec![(Label::new("b"), 1u8), (Label::new("a"), 2u8)];
    assert!(!entries_ascending(&unsorted));
    let empty: Vec<(Label, u8)> = vec![];
    assert!(entries_ascending(&empty));
}

#[test]
fn looser_operator_operand_is_parenthesised() {
    let sum = op(BinOp::NaturalPlus, var("a"), var("b"));
    assert_eq!(render(&op(BinOp::NaturalTimes, sum, var("c"))), "(a + b) * c");
    let product = op(BinOp::NaturalTimes, var("a"), var("b"));
    assert_eq!(render(&op(BinOp::NaturalPlus, product, var("c"))), "a * b + c");
    let or = op(BinOp::BoolOr, var("a"), var("b"));
    assert_eq!(render(&op(BinOp::BoolAnd, var("c"), or)), "c && (a || b)");
}

#[test]
fn operator_symbols() {
    assert_eq!(render(&op(BinOp::ImportAlt, var("a"), var("b"))), "a ? b");
    assert_eq!(render(&op(BinOp::Combine, var("a"), var("b"))), "a /\\ b");
    assert_eq!(render(&op(BinOp::CombineTypes, var("a"), var("b"))), "a //\\\\ b");
    assert_eq!(render(&op(BinOp::Prefer, var("a"), var("b"))), "a // b");
    assert_eq!(render(&op(BinOp::ListAppend, var("a"), var("b"))), "a # b");
    assert_eq!(render(&op(BinOp::TextAppend, var("a"), var("b"))), "a ++ b");
    assert_eq!(render(&op(BinOp::BoolEQ, var("a"), var("b"))), "a == b");
    assert_eq!(render(&op(BinOp::BoolNE, var("a"), var("b"))), "a != b");
}

#[test]
fn empty_record_type_and_literal() {
    assert_eq!(render(&Expr::RecordType(vec![])), "{}");
    assert_eq!(render(&Expr::RecordLit(vec![])), "{=}");
}

#[test]
fn records_with_fields() {
    let t = Expr::RecordType(vec![
        (Label::new("a"), natural_type()),
        (Label::new("b"), Expr::Builtin(Builtin::Bool)),
    ]);
    assert_eq!(render(&t), "{ a : Natural, b : Bool }");
    let l = Expr::RecordLit(vec![(Label::new("a"), Expr::NaturalLit(1))]);
    assert_eq!(render(&l), "{ a = 1 }");
}

#[test]
fn application_nesting() {
    let nested = app(var("f"), vec![app(var("g"), vec![var("x")])]);
    assert_eq!(render(&nested), "f (g x)");
    let flat = app(var("f"), vec![var("g"), var("x")]);
    assert_eq!(render(&flat), "f g x");
    let head = app(app(var("f"), vec![var("g")]), vec![var("x")]);
    assert_eq!(render(&head), "(f g) x");
}

#[test]
fn application_as_operand_is_bare() {
    let e = op(BinOp::NaturalPlus, app(var("f"), vec![var("x")]), var("y"));
    assert_eq!(render(&e), "f x + y");
}

#[test]
fn lambda_and_function_types() {
    let lam = Expr::Lam(Label::new("x"), bx(natural_type()), bx(var("x")));
    assert_eq!(render(&lam), "λ(x : Natural) → x");
    let pi = Expr::Pi(Label::new("a"), bx(Expr::Const(Const::Type)), bx(var("a")));
    assert_eq!(render(&pi), "∀(a : Type) → a");
    let arrow = Expr::Pi(Label::new("_"), bx(natural_type()), bx(Expr::Builtin(Builtin::Bool)));
    assert_eq!(render(&arrow), "Natural → Bool");
    let inner = Expr::Pi(Label::new("_"), bx(var("A")), bx(var("B")));
    let outer = Expr::Pi(Label::new("_"), bx(inner), bx(var("C")));
    assert_eq!(render(&outer), "(A → B) → C");
}

#[test]
fn let_binding() {
    let with_type = Expr::Let(
        Label::new("x"),
        Some(bx(natural_type())),
        bx(Expr::NaturalLit(1)),
        bx(var("x")),
    );
    assert_eq!(render(&with_type), "let x : Natural = 1 in x");
    let bare = Expr::Let(Label::new("x"), None, bx(Expr::NaturalLit(1)), bx(var("x")));
    assert_eq!(render(&bare), "let x = 1 in x");
}

#[test]
fn conditional_in_argument_is_parenthesised() {
    let cond = Expr::BoolIf(
        bx(Expr::BoolLit(true)),
        bx(Expr::NaturalLit(1)),
        bx(Expr::NaturalLit(2)),
    );
    assert_eq!(render(&app(var("f"), vec![cond])), "f (if True then 1 else 2)");
}

#[test]
fn annotation() {
    let lam = Expr::Lam(Label::new("x"), bx(Expr::Builtin(Builtin::Bool)), bx(var("x")));
    let ty = Expr::Pi(
        Label::new("_"),
        bx(Expr::Builtin(Builtin::Bool)),
        bx(Expr::Builtin(Builtin::Bool)),
    );
    assert_eq!(render(&Expr::Annot(bx(lam), bx(ty))), "(λ(x : Bool) → x) : Bool → Bool");
}

#[test]
fn text_literal_escaping() {
    let t = InterpolatedText {
        chunks: vec![
            TextChunk::Text("a\"b$\n".to_string()),
            TextChunk::Expr(var("x")),
            TextChunk::Text("\\\t\r\u{8}\u{c}é".to_string()),
        ],
    };
    assert_eq!(render(&Expr::TextLit(t)), "\"a\\\"b\\$\\n${ x }\\\\\\t\\r\\b\\fé\"");
    assert_eq!(render(&Expr::TextLit(InterpolatedText { chunks: vec![] })), "\"\"");
}

#[test]
fn variable_index() {
    let v = Expr::Var(V { name: Label::new("x"), index: 2 });
    assert_eq!(render(&v), "x@2");
    assert_eq!(render(&var("x")), "x");
}

#[test]
fn list_and_optional_literals() {
    let list = Expr::NEListLit(vec![Expr::NaturalLit(1), Expr::NaturalLit(2)]);
    assert_eq!(render(&list), "[1, 2]");
    assert_eq!(render(&Expr::EmptyListLit(bx(natural_type()))), "[] : List Natural");
    let list_of = app(Expr::Builtin(Builtin::List), vec![natural_type()]);
    assert_eq!(render(&Expr::EmptyListLit(bx(list_of))), "[] : List (List Natural)");
    let old = Expr::OldOptionalLit(Some(bx(Expr::NaturalLit(1))), bx(natural_type()));
    assert_eq!(render(&old), "[1] : Optional Natural");
    let old_empty = Expr::OldOptionalLit(None, bx(natural_type()));
    assert_eq!(render(&old_empty), "[] : Optional Natural");
    assert_eq!(render(&Expr::EmptyOptionalLit(bx(natural_type()))), "None Natural");
    assert_eq!(render(&Expr::NEOptionalLit(bx(Expr::NaturalLit(1)))), "Some 1");
    let inside = app(var("f"), vec![Expr::NEOptionalLit(bx(var("x")))]);
    assert_eq!(render(&inside), "f (Some x)");
}

#[test]
fn unions() {
    let ty = Expr::UnionType(vec![
        (Label::new("A"), Some(natural_type())),
        (Label::new("B"), None),
    ]);
    assert_eq!(render(&ty), "< A: Natural | B >");
    let lit = Expr::UnionLit(
        Label::new("A"),
        bx(Expr::NaturalLit(1)),
        vec![(Label::new("B"), Some(Expr::Builtin(Builtin::Bool)))],
    );
    assert_eq!(render(&lit), "< A = 1 | B: Bool >");
    let ctor = Expr::UnionConstructor(Label::new("A"), vec![(Label::new("A"), Some(natural_type()))]);
    assert_eq!(render(&ctor), "< A: Natural >.A");
}

#[test]
fn merge_expression() {
    let m = Expr::Merge(bx(var("h")), bx(var("u")), Some(bx(var("T"))));
    assert_eq!(render(&m), "merge h u : T");
    let m2 = Expr::Merge(bx(var("h")), bx(app(var("f"), vec![var("x")])), None);
    assert_eq!(render(&m2), "merge h (f x)");
    let m3 = Expr::Merge(bx(var("h")), bx(var("u")), Some(bx(app(var("List"), vec![var("T")]))));
    assert_eq!(render(&m3), "merge h u : List T");
}

#[test]
fn field_and_projection() {
    assert_eq!(render(&Expr::Field(bx(var("r")), Label::new("a"))), "r.a");
    let applied = Expr::Field(bx(app(var("f"), vec![var("x")])), Label::new("a"));
    assert_eq!(render(&applied), "(f x).a");
    let proj = Expr::Projection(bx(var("r")), vec![Label::new("a"), Label::new("b")]);
    assert_eq!(render(&proj), "r.{ a, b }");
    let arg = app(var("f"), vec![Expr::Field(bx(var("r")), Label::new("a"))]);
    assert_eq!(render(&arg), "f r.a");
}

#[test]
fn note_is_transparent() {
    let sum = op(BinOp::NaturalPlus, var("a"), var("b"));
    let e = op(BinOp::NaturalTimes, Expr::Note(bx(sum)), var("c"));
    assert_eq!(render(&e), "(a + b) * c");
    assert_eq!(render(&Expr::Note(bx(var("x")))), "x");
}

#[test]
fn builtins_and_constants() {
    assert_eq!(render(&Expr::Builtin(Builtin::NaturalFold)), "Natural/fold");
    assert_eq!(render(&Expr::Builtin(Builtin::OptionalNone)), "None");
    assert_eq!(render(&Expr::Builtin(Builtin::TextShow)), "Text/show");
    assert_eq!(render(&Expr::Const(Const::Type)), "Type");
    assert_eq!(render(&Expr::Const(Const::Kind)), "Kind");
    assert_eq!(render(&Expr::BoolLit(false)), "False");
}

#[test]
fn local_import_with_hash_and_mode() {
    let i = Import {
        mode: ImportMode::RawText,
        location_hashed: ImportHashed {
            location: ImportLocation::Local(
                FilePrefix::Here,
                vec!["foo".to_string(), "bar baz".to_string(), "x".to_string()],
            ),
            hash: Some(dhall_printer::syntax::Hash { protocol: "sha256".to_string(), hash: "abc".to_string() }),
        },
    };
    assert_eq!(render(&Expr::Embed(i)), "./foo/\"bar baz\"/x sha256:abc as Text");
}

#[test]
fn other_import_locations() {
    let url = Url {
        scheme: Scheme::HTTPS,
        authority: "example.com".to_string(),
        path: vec!["a".to_string(), "b".to_string()],
        query: Some("x=1".to_string()),
        headers: Some(bx(var("h"))),
    };
    let remote = ImportHashed { location: ImportLocation::Remote(url), hash: None };
    assert_eq!(remote.to_string(), "https://example.com/a/b?x=1 using (h)");
    let env = ImportHashed { location: ImportLocation::Env("HOME".to_string()), hash: None };
    assert_eq!(env.to_string(), "env:HOME");
    let env2 = ImportHashed { location: ImportLocation::Env("a-b".to_string()), hash: None };
    assert_eq!(env2.to_string(), "env:\"a-b\"");
    let missing = Import {
        mode: ImportMode::Code,
        location_hashed: ImportHashed { location: ImportLocation::Missing, hash: None },
    };
    assert_eq!(missing.to_string(), "missing");
    let home = ImportHashed {
        location: ImportLocation::Local(FilePrefix::Home, vec!["c".to_string()]),
        hash: None,
    };
    assert_eq!(home.to_string(), "~/c");
    let abs = ImportHashed {
        location: ImportLocation::Local(FilePrefix::Absolute, vec!["etc".to_string()]),
        hash: None,
    };
    assert_eq!(abs.to_string(), "/etc");
}

#[test]
fn phase_controls_parentheses() {
    let sum = op(BinOp::NaturalPlus, var("a"), var("b"));
    assert_eq!(sum.fmt_phase(PrintPhase::Base), "a + b");
    assert_eq!(sum.fmt_phase(PrintPhase::Primitive), "(a + b)");
    assert_eq!(sum.fmt_phase(PrintPhase::BinOp(BinOp::NaturalPlus)), "a + b");
    assert_eq!(sum.fmt_phase(PrintPhase::BinOp(BinOp::TextAppend)), "(a + b)");
    assert!(sum.needs_paren(PrintPhase::App));
    assert!(!sum.needs_paren(PrintPhase::BinOp(BinOp::BoolOr)));
}

#[test]
fn list_formatting() {
    let items = vec!["a".to_string(), "b".to_string(), "c".to_string()];
    assert_eq!(dhall_printer::text::fmt_list("[", ", ", "]", &items), "[a, b, c]");
    assert_eq!(dhall_printer::text::fmt_list("{ ", ", ", " }", &vec![]), "{  }");
}

#[test]
fn phased_expression() {
    let e = app(var("f"), vec![var("x")]);
    assert_eq!(PhasedExpr::new(&e).fmt(), "f x");
    assert_eq!(PhasedExpr::new(&e).phase(PrintPhase::Import).fmt(), "(f x)");
}
