use qsc_rca::lints::{
    precedence, BinOp, Block, DivisionByZero, Expr, ExprKind, Lint, LintLevel, Lit,
    NeedlessParens, RedundantSemicolons, Span, Stmt, StmtKind,
};

fn span(lo: u32, hi: u32) -> Span {
    Span { lo, hi }
}

fn int_lit(value: i64, lo: u32) -> Expr {
    Expr { span: span(lo, lo + 1), kind: ExprKind::Lit(Lit::Int(value)) }
}

fn paren(inner: Expr, lo: u32, hi: u32) -> Expr {
    Expr { span: span(lo, hi), kind: ExprKind::Paren(Box::new(inner)) }
}

fn bin(op: BinOp, left: Expr, right: Expr) -> Expr {
    let lo = left.span.lo;
    let hi = right.span.hi;
    Expr { span: span(lo, hi), kind: ExprKind::BinOp(op, Box::new(left), Box::new(right)) }
}

fn stmt(kind: StmtKind, lo: u32, hi: u32) -> Stmt {
    Stmt { span: span(lo, hi), kind }
}

#[test]
fn division_by_zero_literal_is_reported() {
    let mut buffer = Vec::new();
    DivisionByZero::check_expr(&bin(BinOp::Div, int_lit(1, 0), int_lit(0, 4)), &mut buffer);
    assert_eq!(
        buffer,
        vec![Lint { span: span(0, 5), message: "attempt to divide by zero", level: LintLevel::Allow }]
    );
    DivisionByZero::check_expr(&bin(BinOp::Div, int_lit(1, 0), int_lit(2, 4)), &mut buffer);
    DivisionByZero::check_expr(&bin(BinOp::Mul, int_lit(1, 0), int_lit(0, 4)), &mut buffer);
    assert_eq!(buffer.len(), 1);
}

#[test]
fn parentheses_around_tighter_operands_are_needless() {
    let mut buffer = Vec::new();
    // 1 + (2 * 3)
    let expr = bin(BinOp::Add, int_lit(1, 0), paren(bin(BinOp::Mul, int_lit(2, 5), int_lit(3, 9)), 4, 11));
    NeedlessParens::check_expr(&expr, &mut buffer);
    assert_eq!(
        buffer,
        vec![Lint { span: span(4, 11), message: "unnecessary parentheses", level: LintLevel::Warning }]
    );
    // (1 + 2) * 3 keeps its parentheses.
    let mut buffer = Vec::new();
    let expr = bin(BinOp::Mul, paren(bin(BinOp::Add, int_lit(1, 1), int_lit(2, 5)), 0, 7), int_lit(3, 10));
    NeedlessParens::check_expr(&expr, &mut buffer);
    assert!(buffer.is_empty());
    // x = (1)
    let target = Expr { span: span(0, 1), kind: ExprKind::Other };
    let expr = Expr {
        span: span(0, 7),
        kind: ExprKind::Assign(Box::new(target), Box::new(paren(int_lit(1, 5), 4, 7))),
    };
    NeedlessParens::check_expr(&expr, &mut buffer);
    assert_eq!(buffer.len(), 1);
    assert_eq!(buffer[0].span, span(4, 7));
}

#[test]
fn parenthesized_binding_is_reported() {
    let mut buffer = Vec::new();
    let local = stmt(StmtKind::Local(Box::new(paren(int_lit(1, 9), 8, 11))), 0, 12);
    NeedlessParens::check_stmt(&local, &mut buffer);
    assert_eq!(buffer.len(), 1);
    assert_eq!(buffer[0].span, span(8, 11));
    NeedlessParens::check_stmt(&stmt(StmtKind::Local(Box::new(int_lit(1, 9))), 0, 11), &mut buffer);
    assert_eq!(buffer.len(), 1);
}

#[test]
fn each_run_of_empty_statements_is_one_lint() {
    let expr = || Box::new(int_lit(1, 0));
    let block = Block {
        span: span(0, 40),
        stmts: vec![
            stmt(StmtKind::Semi(expr()), 1, 5),
            stmt(StmtKind::Empty, 5, 6),
            stmt(StmtKind::Empty, 6, 7),
            stmt(StmtKind::Empty, 7, 8),
            stmt(StmtKind::Expr(expr()), 9, 12),
            stmt(StmtKind::Empty, 12, 13),
        ],
    };
    let mut buffer = Vec::new();
    RedundantSemicolons::check_block(&block, &mut buffer);
    let lint = |lo, hi| Lint { span: span(lo, hi), message: "redundant semicolons", level: LintLevel::Warning };
    assert_eq!(buffer, vec![lint(5, 8), lint(12, 13)]);
    let mut buffer = Vec::new();
    RedundantSemicolons::check_block(&Block { span: span(0, 0), stmts: vec![] }, &mut buffer);
    assert!(buffer.is_empty());
}

#[test]
fn precedence_table() {
    assert_eq!(precedence(&int_lit(1, 0)), 0);
    assert_eq!(precedence(&paren(int_lit(1, 1), 0, 3)), 1);
    assert_eq!(precedence(&bin(BinOp::Exp, int_lit(1, 0), int_lit(2, 2))), 3);
    assert_eq!(precedence(&bin(BinOp::Mod, int_lit(1, 0), int_lit(2, 2))), 4);
    assert_eq!(precedence(&bin(BinOp::Sub, int_lit(1, 0), int_lit(2, 2))), 5);
    assert_eq!(precedence(&bin(BinOp::Shr, int_lit(1, 0), int_lit(2, 2))), 6);
    assert_eq!(precedence(&bin(BinOp::Lte, int_lit(1, 0), int_lit(2, 2))), 7);
    assert_eq!(precedence(&bin(BinOp::Neq, int_lit(1, 0), int_lit(2, 2))), 8);
    assert_eq!(precedence(&bin(BinOp::XorB, int_lit(1, 0), int_lit(2, 2))), 9);
    assert_eq!(precedence(&bin(BinOp::AndL, int_lit(1, 0), int_lit(2, 2))), 10);
    assert_eq!(precedence(&Expr { span: span(0, 0), kind: ExprKind::Other }), u8::MAX);
}
