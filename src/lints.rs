//! Lints over the syntax tree: division by a zero literal, needless parentheses, and redundant
//! semicolons.
use vstd::prelude::*;

verus! {

/// A range of source offsets.
#[derive(Clone, Copy, Debug, PartialEq, Eq, Structural)]
pub struct Span {
    pub lo: u32,
    pub hi: u32,
}

/// A binary operator.
#[derive(Clone, Copy, Debug, PartialEq, Eq, Structural)]
pub enum BinOp {
    Add,
    AndB,
    AndL,
    Div,
    Eq,
    Exp,
    Gt,
    Gte,
    Lt,
    Lte,
    Mod,
    Mul,
    Neq,
    OrB,
    OrL,
    Shl,
    Shr,
    Sub,
    XorB,
}

/// A literal, as far as the lints read it.
#[derive(Clone, Copy, Debug, PartialEq, Eq, Structural)]
pub enum Lit {
    Int(i64),
    Bool(bool),
    /// Any other literal.
    Other,
}

/// An expression.
#[derive(Debug, PartialEq, Eq)]
pub struct Expr {
    pub span: Span,
    pub kind: ExprKind,
}

/// The kind of an expression, as far as the lints read it.
#[derive(Debug, PartialEq, Eq)]
pub enum ExprKind {
    /// An assignment `lhs = rhs`.
    Assign(Box<Expr>, Box<Expr>),
    /// An update assignment `lhs op= rhs`.
    AssignOp(BinOp, Box<Expr>, Box<Expr>),
    /// A binary operation.
    BinOp(BinOp, Box<Expr>, Box<Expr>),
    /// A literal.
    Lit(Lit),
    /// A parenthesized expression.
    Paren(Box<Expr>),
    /// A unary operation.
    UnOp(Box<Expr>),
    /// Any other expression.
    Other,
}

/// The kind of a statement, as far as the lints read it.
#[derive(Debug, PartialEq, Eq)]
pub enum StmtKind {
    /// An empty statement, such as a lone semicolon.
    Empty,
    /// An expression statement.
    Expr(Box<Expr>),
    /// A binding `let pat = rhs;`; the right-hand side is kept.
    Local(Box<Expr>),
    /// An expression followed by a semicolon.
    Semi(Box<Expr>),
    /// Any other statement.
    Other,
}

/// A statement.
#[derive(Debug, PartialEq, Eq)]
pub struct Stmt {
    pub span: Span,
    pub kind: StmtKind,
}

/// A block of statements.
#[derive(Debug, PartialEq, Eq)]
pub struct Block {
    pub span: Span,
    pub stmts: Vec<Stmt>,
}

/// How a lint is reported.
#[derive(Clone, Copy, Debug, PartialEq, Eq, Structural)]
pub enum LintLevel {
    Allow,
    Warning,
    Error,
}

/// A finding of a lint.
#[derive(Clone, Copy, Debug, PartialEq, Eq)]
pub struct Lint {
    pub span: Span,
    pub message: &'static str,
    pub level: LintLevel,
}

/// Division of an expression by the literal zero.
pub struct DivisionByZero;

/// Parentheses around an expression that binds tighter than its parent.
pub struct NeedlessParens;

/// Empty statements left by redundant semicolons.
pub struct RedundantSemicolons;

/// The binding strength of an expression: lower binds tighter.
pub open spec fn precedence_of(expr: Expr) -> u8 {
    match expr.kind {
        ExprKind::Lit(_) => 0,
        ExprKind::Paren(_) => 1,
        ExprKind::UnOp(_) => 2,
        ExprKind::BinOp(op, _, _) => match op {
            BinOp::Exp => 3,
            BinOp::Div | BinOp::Mod | BinOp::Mul => 4,
            BinOp::Add | BinOp::Sub => 5,
            BinOp::Shl | BinOp::Shr => 6,
            BinOp::Gt | BinOp::Gte | BinOp::Lt | BinOp::Lte => 7,
            BinOp::Eq | BinOp::Neq => 8,
            BinOp::OrB | BinOp::XorB | BinOp::AndB => 9,
            BinOp::OrL | BinOp::AndL => 10,
        },
        ExprKind::Assign(_, _) | ExprKind::AssignOp(_, _, _) => 11,
        _ => u8::MAX,
    }
}

/// The binding strength of an expression: lower binds tighter.
pub fn precedence(expr: &Expr) -> (r: u8)
    ensures
        r == precedence_of(*expr),
{
    match &expr.kind {
        ExprKind::Lit(_) => 0,
        ExprKind::Paren(_) => 1,
        ExprKind::UnOp(_) => 2,
        ExprKind::BinOp(op, _, _) => match op {
            BinOp::Exp => 3,
            BinOp::Div | BinOp::Mod | BinOp::Mul => 4,
            BinOp::Add | BinOp::Sub => 5,
            BinOp::Shl | BinOp::Shr => 6,
            BinOp::Gt | BinOp::Gte | BinOp::Lt | BinOp::Lte => 7,
            BinOp::Eq | BinOp::Neq => 8,
            BinOp::OrB | BinOp::XorB | BinOp::AndB => 9,
            BinOp::OrL | BinOp::AndL => 10,
        },
        ExprKind::Assign(_, _) | ExprKind::AssignOp(_, _, _) => 11,
        _ => u8::MAX,
    }
}

/// Whether `expr` divides by the integer literal zero.
pub open spec fn divides_by_zero(expr: Expr) -> bool {
    match expr.kind {
        ExprKind::BinOp(BinOp::Div, _, rhs) => rhs.kind == ExprKind::Lit(Lit::Int(0)),
        _ => false,
    }
}

/// Whether `child` is parenthesized needlessly under `parent`: what it encloses binds tighter.
pub open spec fn needless_parens(parent: Expr, child: Expr) -> bool {
    match child.kind {
        ExprKind::Paren(inner) => precedence_of(parent) > precedence_of(*inner),
        _ => false,
    }
}

/// A lint for `child` under `parent`, if its parentheses are needless.
pub open spec fn needless_parens_lints(parent: Expr, child: Expr) -> Seq<Lint> {
    if needless_parens(parent, child) {
        seq![NeedlessParens::spec_lint(child.span)]
    } else {
        Seq::empty()
    }
}

/// The lints for the operands of `expr` that are parenthesized needlessly.
pub open spec fn needless_parens_in_expr(expr: Expr) -> Seq<Lint> {
    match expr.kind {
        ExprKind::BinOp(_, left, right) => needless_parens_lints(expr, *left)
            + needless_parens_lints(expr, *right),
        ExprKind::Assign(_, right) => needless_parens_lints(expr, *right),
        ExprKind::AssignOp(_, _, right) => needless_parens_lints(expr, *right),
        _ => Seq::empty(),
    }
}

impl DivisionByZero {
    pub open spec fn spec_lint(span: Span) -> Lint {
        Lint { span, message: "attempt to divide by zero", level: LintLevel::Allow }
    }

    /// The finding of this lint at `span`.
    pub fn lint(span: Span) -> (r: Lint)
        ensures
            r == DivisionByZero::spec_lint(span),
    {
        Lint { span, message: "attempt to divide by zero", level: LintLevel::Allow }
    }

    /// Reports a division by the literal zero.
    pub fn check_expr(expr: &Expr, buffer: &mut Vec<Lint>)
        ensures
            final(buffer)@ == old(buffer)@ + if divides_by_zero(*expr) {
                seq![DivisionByZero::spec_lint(expr.span)]
            } else {
                Seq::empty()
            },
    {
        if let ExprKind::BinOp(BinOp::Div, _, rhs) = &expr.kind {
            if let ExprKind::Lit(Lit::Int(value)) = &rhs.kind {
                if *value == 0 {
                    buffer.push(DivisionByZero::lint(expr.span));
                }
            }
        }
        assert(buffer@ =~= old(buffer)@ + if divides_by_zero(*expr) {
            seq![DivisionByZero::spec_lint(expr.span)]
        } else {
            Seq::empty()
        });
    }
}

impl NeedlessParens {
    pub open spec fn spec_lint(span: Span) -> Lint {
        Lint { span, message: "unnecessary parentheses", level: LintLevel::Warning }
    }

    /// The finding of this lint at `span`.
    pub fn lint(span: Span) -> (r: Lint)
        ensures
            r == NeedlessParens::spec_lint(span),
    {
        Lint { span, message: "unnecessary parentheses", level: LintLevel::Warning }
    }

    fn push_if_needless(parent: &Expr, child: &Expr, buffer: &mut Vec<Lint>)
        ensures
            final(buffer)@ == old(buffer)@ + needless_parens_lints(*parent, *child),
    {
        if let ExprKind::Paren(inner) = &child.kind {
            if precedence(parent) > precedence(inner) {
                buffer.push(NeedlessParens::lint(child.span));
            }
        }
        assert(buffer@ =~= old(buffer)@ + needless_parens_lints(*parent, *child));
    }

    /// Reports operands in parentheses that bind tighter than their parent, as in `a + (b * c)`,
    /// and parentheses around a literal.
    pub fn check_expr(expr: &Expr, buffer: &mut Vec<Lint>)
        ensures
            final(buffer)@ == old(buffer)@ + needless_parens_in_expr(*expr),
    {
        match &expr.kind {
            ExprKind::BinOp(_, left, right) => {
                NeedlessParens::push_if_needless(expr, left, buffer);
                NeedlessParens::push_if_needless(expr, right, buffer);
            },
            ExprKind::Assign(_, right) | ExprKind::AssignOp(_, _, right) => {
                NeedlessParens::push_if_needless(expr, right, buffer);
            },
            _ => {},
        }
        assert(buffer@ =~= old(buffer)@ + needless_parens_in_expr(*expr));
    }

    /// Reports a binding whose whole right-hand side is in parentheses.
    pub fn check_stmt(stmt: &Stmt, buffer: &mut Vec<Lint>)
        ensures
            final(buffer)@ == old(buffer)@ + match stmt.kind {
                StmtKind::Local(right) => if right.kind is Paren {
                    seq![NeedlessParens::spec_lint(right.span)]
                } else {
                    Seq::empty()
                },
                _ => Seq::empty(),
            },
    {
        if let StmtKind::Local(right) = &stmt.kind {
            if let ExprKind::Paren(_) = &right.kind {
                buffer.push(NeedlessParens::lint(right.span));
            }
        }
        assert(buffer@ =~= old(buffer)@ + match stmt.kind {
            StmtKind::Local(right) => if right.kind is Paren {
                seq![NeedlessParens::spec_lint(right.span)]
            } else {
                Seq::empty()
            },
            _ => Seq::empty(),
        });
    }
}

/// `lints` with the lint for a pending run of empty statements, if any, appended.
pub open spec fn flush_run(run: Option<Span>, lints: Seq<Lint>) -> Seq<Lint> {
    match run {
        Some(span) => lints.push(RedundantSemicolons::spec_lint(span)),
        None => lints,
    }
}

/// The state after reading the first `n` statements: the span of the pending run of empty
/// statements, from the first one's start to the last one's end, and the lints for the runs that
/// a non-empty statement has ended.
pub open spec fn semicolon_scan(stmts: Seq<Stmt>, n: nat) -> (Option<Span>, Seq<Lint>)
    decreases n,
{
    if n == 0 {
        (None, Seq::empty())
    } else {
        let (run, lints) = semicolon_scan(stmts, (n - 1) as nat);
        let stmt = stmts[n - 1];
        if stmt.kind is Empty {
            match run {
                None => (Some(stmt.span), lints),
                Some(span) => (Some(Span { lo: span.lo, hi: stmt.span.hi }), lints),
            }
        } else {
            (None, flush_run(run, lints))
        }
    }
}

/// One lint per maximal run of consecutive empty statements of `stmts`.
pub open spec fn redundant_semicolon_lints(stmts: Seq<Stmt>) -> Seq<Lint> {
    let (run, lints) = semicolon_scan(stmts, stmts.len());
    flush_run(run, lints)
}

impl RedundantSemicolons {
    pub open spec fn spec_lint(span: Span) -> Lint {
        Lint { span, message: "redundant semicolons", level: LintLevel::Warning }
    }

    /// The finding of this lint at `span`.
    pub fn lint(span: Span) -> (r: Lint)
        ensures
            r == RedundantSemicolons::spec_lint(span),
    {
        Lint { span, message: "redundant semicolons", level: LintLevel::Warning }
    }

    /// Pushes the lint for the pending run, if any, and ends it.
    fn maybe_push(run: &mut Option<Span>, buffer: &mut Vec<Lint>)
        ensures
            *final(run) is None,
            final(buffer)@ == flush_run(*old(run), old(buffer)@),
    {
        if let Some(span) = *run {
            buffer.push(RedundantSemicolons::lint(span));
        }
        *run = None;
    }

    /// Reports each run of consecutive empty statements, which redundant semicolons leave, as one
    /// lint spanning from the first to the last of them.
    pub fn check_block(block: &Block, buffer: &mut Vec<Lint>)
        ensures
            final(buffer)@ == old(buffer)@ + redundant_semicolon_lints(block.stmts@),
    {
        let ghost start = buffer@;
        let mut run: Option<Span> = None;
        let mut i: usize = 0;
        while i < block.stmts.len()
            invariant
                i <= block.stmts@.len(),
                run == semicolon_scan(block.stmts@, i as nat).0,
                buffer@ == start + semicolon_scan(block.stmts@, i as nat).1,
            decreases block.stmts@.len() - i,
        {
            let stmt = &block.stmts[i];
            match (&stmt.kind, run) {
                (StmtKind::Empty, None) => {
                    run = Some(stmt.span);
                },
                (StmtKind::Empty, Some(span)) => {
                    run = Some(Span { lo: span.lo, hi: stmt.span.hi });
                },
                _ => {
                    RedundantSemicolons::maybe_push(&mut run, buffer);
                    assert(buffer@ =~= start + semicolon_scan(block.stmts@, (i + 1) as nat).1);
                },
            }
            i = i + 1;
        }
        RedundantSemicolons::maybe_push(&mut run, buffer);
        assert(buffer@ =~= old(buffer)@ + redundant_semicolon_lints(block.stmts@));
    }
}

} // verus!
