use missing_owner_check::analyze::{check_body, lint_message};
use missing_owner_check::ir::{
    BinOp, Body, Expr, ExprKind, ExprList, FieldName, MethodPath, Severity, TyPath,
};

fn node(kind: ExprKind, span: u64, ty: TyPath) -> Expr {
    Expr { kind, span, ty }
}

fn local(name: u64, span: u64, ty: TyPath) -> Expr {
    node(ExprKind::Local(name), span, ty)
}

fn qpath(id: u64, span: u64, ty: TyPath) -> Expr {
    node(ExprKind::Path(id), span, ty)
}

fn field(base: Expr, f: FieldName, span: u64, ty: TyPath) -> Expr {
    node(ExprKind::Field(Box::new(base), f), span, ty)
}

fn mcall(recv: Expr, m: MethodPath, span: u64, ty: TyPath) -> Expr {
    node(
        ExprKind::MethodCall(Box::new(recv), m, Box::new(ExprList::Nil)),
        span,
        ty,
    )
}

fn call(callee: Expr, args: Vec<Expr>, span: u64, ty: TyPath) -> Expr {
    node(
        ExprKind::Call(Box::new(callee), Box::new(stmt_list(args))),
        span,
        ty,
    )
}

fn binary(op: BinOp, lhs: Expr, rhs: Expr, span: u64) -> Expr {
    node(
        ExprKind::Binary(op, Box::new(lhs), Box::new(rhs)),
        span,
        TyPath::Other(0),
    )
}

fn let_stmt(name: u64, init: Expr, span: u64) -> Expr {
    node(ExprKind::Let(name, Box::new(init)), span, TyPath::Other(0))
}

fn if_stmt(cond: Expr, then_branch: Expr, span: u64) -> Expr {
    node(
        ExprKind::If(Box::new(cond), Box::new(then_branch), None),
        span,
        TyPath::Other(0),
    )
}

fn block(stmts: Vec<Expr>, span: u64) -> Expr {
    node(ExprKind::Block(Box::new(stmt_list(stmts))), span, TyPath::Other(0))
}

fn stmt_list(v: Vec<Expr>) -> ExprList {
    let mut l = ExprList::Nil;
    for e in v.into_iter().rev() {
        l = ExprList::Cons(Box::new(e), Box::new(l));
    }
    l
}

fn body_of(stmts: Vec<Expr>) -> Body {
    Body { stmts: stmt_list(stmts) }
}

/// `ctx.accounts.token`, an account-handle expression, at the given span.
fn token_account(span: u64) -> Expr {
    field(
        field(
            local(1, span, TyPath::Other(1)),
            FieldName::Other(10),
            span,
            TyPath::Other(2),
        ),
        FieldName::Other(11),
        span,
        TyPath::AccountInfo,
    )
}

/// An account-handle bound to a local: `let a = ctx.accounts.token;` then a
/// check of the same account written with the same shape: owner-field
/// coverage means zero findings.
#[test]
fn owner_field_check_covers() {
    let b = body_of(vec![
        let_stmt(2, token_account(30), 29),
        if_stmt(
            binary(
                BinOp::NotEqual,
                field(token_account(41), FieldName::Owner, 40, TyPath::Other(3)),
                qpath(20, 42, TyPath::Other(3)),
                43,
            ),
            block(vec![call(qpath(23, 44, TyPath::Other(0)), vec![], 45, TyPath::Other(0))], 46),
            47,
        ),
    ]);
    let findings = check_body(&b);
    assert_eq!(findings.len(), 0);
}

/// An account-handle used with no `.owner` or key reference anywhere: one
/// finding, at the span where the account expression first appears.
#[test]
fn unchecked_account_reported() {
    let b = body_of(vec![
        let_stmt(2, token_account(30), 29),
        call(
            qpath(23, 50, TyPath::Other(0)),
            vec![field(token_account(51), FieldName::Other(13), 52, TyPath::Other(4))],
            53,
            TyPath::Other(0),
        ),
    ]);
    let findings = check_body(&b);
    assert_eq!(findings.len(), 1);
    assert_eq!(findings[0].span, 30);
    assert!(matches!(findings[0].severity, Severity::Warn));
}

/// A handle obtained by converting a program wrapper: the conversion itself
/// witnesses the owner check, so there is nothing to report.
#[test]
fn program_conversion_safe() {
    let b = body_of(vec![
        let_stmt(3, qpath(24, 60, TyPath::Program), 59),
        let_stmt(
            2,
            mcall(
                local(3, 61, TyPath::Program),
                MethodPath::ToAccountInfo,
                62,
                TyPath::AccountInfo,
            ),
            63,
        ),
        call(
            qpath(23, 64, TyPath::Other(0)),
            vec![local(2, 65, TyPath::AccountInfo)],
            66,
            TyPath::Other(0),
        ),
    ]);
    let findings = check_body(&b);
    assert_eq!(findings.len(), 0);
}

/// The same account used bare and through `.clone()`, both unchecked: the
/// clone call is skipped and its receiver collapses into the candidate
/// already collected, so exactly one finding comes out.
#[test]
fn clone_collapses_to_one() {
    let b = body_of(vec![
        call(
            qpath(23, 70, TyPath::Other(0)),
            vec![token_account(71)],
            72,
            TyPath::Other(0),
        ),
        let_stmt(
            4,
            mcall(
                token_account(73),
                MethodPath::CoreClone,
                74,
                TyPath::AccountInfo,
            ),
            75,
        ),
    ]);
    let findings = check_body(&b);
    assert_eq!(findings.len(), 1);
    assert_eq!(findings[0].span, 71);
}

/// A key comparison `a.key() == expected` covers the account: zero findings.
#[test]
fn key_comparison_covers() {
    let b = body_of(vec![
        let_stmt(2, token_account(80), 79),
        if_stmt(
            binary(
                BinOp::Equal,
                mcall(token_account(81), MethodPath::AccountKey, 82, TyPath::Other(3)),
                qpath(20, 83, TyPath::Other(3)),
                84,
            ),
            block(vec![], 85),
            86,
        ),
    ]);
    let findings = check_body(&b);
    assert_eq!(findings.len(), 0);
}

/// Two differently-shaped expressions for the same account stay distinct:
/// checking the owner of one leaves the other uncovered. Conservative,
/// span-less structural equality — not an alias analysis.
#[test]
fn distinct_shapes_stay_distinct() {
    // `ctx.accounts.token` is checked; `vault.token`, another shape that may
    // well hold the same account at run time, is not.
    let other_shape = field(
        local(5, 90, TyPath::Other(5)),
        FieldName::Other(11),
        91,
        TyPath::AccountInfo,
    );
    let b = body_of(vec![
        let_stmt(2, token_account(92), 93),
        let_stmt(6, other_shape, 94),
        if_stmt(
            binary(
                BinOp::NotEqual,
                field(token_account(95), FieldName::Owner, 96, TyPath::Other(3)),
                qpath(20, 97, TyPath::Other(3)),
                98,
            ),
            block(vec![], 99),
            100,
        ),
    ]);
    let findings = check_body(&b);
    assert_eq!(findings.len(), 1);
    assert_eq!(findings[0].span, 91);
}

/// Determinism: analyzing the same body snapshot twice gives the same
/// findings in the same order.
#[test]
fn repeated_analysis_same_findings() {
    let make = || {
        body_of(vec![
            let_stmt(2, token_account(30), 29),
            call(
                qpath(23, 50, TyPath::Other(0)),
                vec![token_account(51)],
                53,
                TyPath::Other(0),
            ),
        ])
    };
    let first = check_body(&make());
    let second = check_body(&make());
    assert_eq!(first, second);
    assert_eq!(first.len(), 1);
}

/// Dedup: two structurally equal account expressions yield one candidate,
/// reported once, at the first occurrence.
#[test]
fn equal_accounts_reported_once() {
    let b = body_of(vec![
        call(
            qpath(23, 101, TyPath::Other(0)),
            vec![token_account(102)],
            103,
            TyPath::Other(0),
        ),
        call(
            qpath(23, 104, TyPath::Other(0)),
            vec![token_account(105)],
            106,
            TyPath::Other(0),
        ),
    ]);
    let findings = check_body(&b);
    assert_eq!(findings.len(), 1);
    assert_eq!(findings[0].span, 102);
}

/// Safety exemption: conversions from every witness wrapper type are never
/// reported, even with no owner or key check anywhere in the body.
#[test]
fn safe_conversion_not_reported() {
    let witness_tys = vec![
        TyPath::Account,
        TyPath::Program,
        TyPath::SystemAccount,
        TyPath::AccountLoader,
        TyPath::Signer,
        TyPath::Sysvar,
    ];
    for (i, ty) in witness_tys.into_iter().enumerate() {
        let span = 110 + i as u64;
        let b = body_of(vec![call(
            qpath(23, span, TyPath::Other(0)),
            vec![mcall(
                local(3, span, ty),
                MethodPath::ToAccountInfo,
                span,
                TyPath::AccountInfo,
            )],
            span,
            TyPath::Other(0),
        )]);
        let findings = check_body(&b);
        assert_eq!(findings.len(), 0);
    }
}

/// A handle-to-handle conversion is a no-op copy, not a safety witness: the
/// call itself is skipped, its receiver is the one candidate, and the one
/// finding points at the receiver — one account, one report, still checked
/// for coverage.
#[test]
fn handle_reconversion_collapses() {
    let b = body_of(vec![let_stmt(
        2,
        mcall(
            token_account(118),
            MethodPath::ToAccountInfo,
            119,
            TyPath::AccountInfo,
        ),
        117,
    )]);
    let findings = check_body(&b);
    assert_eq!(findings.len(), 1);
    assert_eq!(findings[0].span, 118);
}

/// A conversion from a non-witness receiver type is still a candidate.
#[test]
fn conversion_from_unknown_type_reported() {
    let b = body_of(vec![call(
        qpath(23, 120, TyPath::Other(0)),
        vec![mcall(
            local(3, 121, TyPath::Other(9)),
            MethodPath::ToAccountInfo,
            122,
            TyPath::AccountInfo,
        )],
        123,
        TyPath::Other(0),
    )]);
    let findings = check_body(&b);
    assert_eq!(findings.len(), 1);
    assert_eq!(findings[0].span, 122);
}

/// Coverage monotonicity, on concrete bodies: the same body is unchecked
/// without the owner access and checked once it is appended.
#[test]
fn adding_owner_check_covers() {
    let without = vec![let_stmt(2, token_account(130), 131)];
    let owner_access = field(token_account(132), FieldName::Owner, 133, TyPath::Other(3));
    let b1 = body_of(without);
    assert_eq!(check_body(&b1).len(), 1);
    let with = vec![
        let_stmt(2, token_account(130), 131),
        owner_access,
    ];
    let b2 = body_of(with);
    assert_eq!(check_body(&b2).len(), 0);
}

/// No cross-body leakage: the findings for one body are the same whatever
/// other bodies are analyzed around it.
#[test]
fn other_body_does_not_leak() {
    let make_a = || body_of(vec![let_stmt(2, token_account(140), 141)]);
    let before = check_body(&make_a());
    // Another body, fully checked, analyzed in between.
    let b = body_of(vec![
        let_stmt(2, token_account(142), 143),
        field(token_account(144), FieldName::Owner, 145, TyPath::Other(3)),
    ]);
    let b_findings = check_body(&b);
    assert_eq!(b_findings.len(), 0);
    let after = check_body(&make_a());
    assert_eq!(before, after);
    assert_eq!(after.len(), 1);
    assert_eq!(after[0].span, 140);
}

/// The one fixed message every finding carries.
#[test]
fn message_text() {
    assert_eq!(
        lint_message(),
        "this account is used but there is no check on its owner field"
    );
}

/// An empty body is a valid input with no findings.
#[test]
fn empty_body_no_findings() {
    let b = body_of(vec![]);
    assert_eq!(check_body(&b).len(), 0);
}

/// Traversal does not descend into a nested, separately-analyzed body: an
/// account used only inside it is not this body's candidate, and a check
/// inside it does not cover this body's candidates.
#[test]
fn nested_body_not_traversed() {
    // The closure placeholder hides whatever its own body holds.
    let b = body_of(vec![
        let_stmt(2, token_account(150), 151),
        call(
            qpath(23, 152, TyPath::Other(0)),
            vec![node(ExprKind::Closure(7), 153, TyPath::Other(6))],
            154,
            TyPath::Other(0),
        ),
    ]);
    let findings = check_body(&b);
    assert_eq!(findings.len(), 1);
    assert_eq!(findings[0].span, 150);
}
