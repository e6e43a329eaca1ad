//! The canonical example programs, modeled as typed expression trees: an
//! insecure body that uses a token account with no owner check, and the
//! secure variants that check the owner field, compare keys, or use wrapper
//! types whose construction already validates the owner.

use missing_owner_check::analyze::check_body;
use missing_owner_check::ir::{
    BinOp, Body, Expr, ExprKind, ExprList, FieldName, MethodPath, TyPath,
};

fn node(kind: ExprKind, span: u64, ty: TyPath) -> Expr {
    Expr { kind, span, ty }
}

fn local(name: u64, span: u64, ty: TyPath) -> Expr {
    node(ExprKind::Local(name), span, ty)
}

fn qpath(id: u64, span: u64, ty: TyPath) -> Expr {
    node(ExprKind::Path(id), span, ty)
}

fn field(base: Expr, f: FieldName, span: u64, ty: TyPath) -> Expr {
    node(ExprKind::Field(Box::new(base), f), span, ty)
}

fn mcall(recv: Expr, m: MethodPath, span: u64, ty: TyPath) -> Expr {
    node(
        ExprKind::MethodCall(Box::new(recv), m, Box::new(ExprList::Nil)),
        span,
        ty,
    )
}

fn call(callee: Expr, args: Vec<Expr>, span: u64, ty: TyPath) -> Expr {
    node(
        ExprKind::Call(Box::new(callee), Box::new(stmt_list(args))),
        span,
        ty,
    )
}

fn addr_of(inner: Expr, span: u64) -> Expr {
    node(ExprKind::AddrOf(Box::new(inner)), span, TyPath::Other(0))
}

fn binary(op: BinOp, lhs: Expr, rhs: Expr, span: u64) -> Expr {
    node(
        ExprKind::Binary(op, Box::new(lhs), Box::new(rhs)),
        span,
        TyPath::Other(0),
    )
}

fn let_stmt(name: u64, init: Expr, span: u64) -> Expr {
    node(ExprKind::Let(name, Box::new(init)), span, TyPath::Other(0))
}

fn if_stmt(cond: Expr, then_branch: Expr, span: u64) -> Expr {
    node(
        ExprKind::If(Box::new(cond), Box::new(then_branch), None),
        span,
        TyPath::Other(0),
    )
}

fn block(stmts: Vec<Expr>, span: u64) -> Expr {
    node(ExprKind::Block(Box::new(stmt_list(stmts))), span, TyPath::Other(0))
}

fn stmt_list(v: Vec<Expr>) -> ExprList {
    let mut l = ExprList::Nil;
    for e in v.into_iter().rev() {
        l = ExprList::Cons(Box::new(e), Box::new(l));
    }
    l
}

fn body_of(stmts: Vec<Expr>) -> Body {
    Body { stmts: stmt_list(stmts) }
}

/// `ctx.accounts.token`, the raw account handle the example programs use.
fn token_account(span: u64) -> Expr {
    field(
        field(
            local(1, span, TyPath::Other(1)),
            FieldName::Other(10),
            span,
            TyPath::Other(2),
        ),
        FieldName::Other(11),
        span,
        TyPath::AccountInfo,
    )
}

/// `SplTokenAccount::unpack(&ctx.accounts.token.data)`: reading the token
/// account's contents without any owner check.
fn unpack_token(span: u64) -> Expr {
    call(
        qpath(22, span, TyPath::Other(0)),
        vec![addr_of(
            field(token_account(span + 1), FieldName::Other(12), span + 2, TyPath::Other(4)),
            span + 3,
        )],
        span + 4,
        TyPath::Other(5),
    )
}

/// The insecure example: the token account's data is unpacked and used, and
/// neither its owner nor its key is ever checked — one finding, at the
/// account expression.
#[test]
fn insecure() {
    let b = body_of(vec![
        let_stmt(4, unpack_token(200), 205),
        call(
            qpath(23, 206, TyPath::Other(0)),
            vec![field(local(4, 207, TyPath::Other(5)), FieldName::Other(13), 208, TyPath::Other(6))],
            209,
            TyPath::Other(0),
        ),
    ]);
    let findings = check_body(&b);
    assert_eq!(findings.len(), 1);
    assert_eq!(findings[0].span, 201);
}

/// The recommended example: the accounts are typed account wrappers, whose
/// construction already validates the owner; no raw handle appears, so no
/// finding.
#[test]
fn recommended() {
    let token_wrapped = field(
        field(
            local(1, 210, TyPath::Other(1)),
            FieldName::Other(10),
            210,
            TyPath::Other(2),
        ),
        FieldName::Other(11),
        211,
        TyPath::Account,
    );
    let b = body_of(vec![call(
        qpath(23, 212, TyPath::Other(0)),
        vec![field(token_wrapped, FieldName::Other(13), 213, TyPath::Other(6))],
        214,
        TyPath::Other(0),
    )]);
    let findings = check_body(&b);
    assert_eq!(findings.len(), 0);
}

/// The secure example: same use as the insecure one, plus an explicit check
/// of the account's owner field against the expected program — no finding.
#[test]
fn secure() {
    let b = body_of(vec![
        if_stmt(
            binary(
                BinOp::NotEqual,
                field(token_account(220), FieldName::Owner, 221, TyPath::Other(3)),
                addr_of(qpath(21, 222, TyPath::Other(3)), 223),
                224,
            ),
            block(
                vec![call(qpath(25, 225, TyPath::Other(0)), vec![], 226, TyPath::Other(0))],
                227,
            ),
            228,
        ),
        let_stmt(4, unpack_token(230), 235),
    ]);
    let findings = check_body(&b);
    assert_eq!(findings.len(), 0);
}

/// The secure-fixed example: the owner check placed after the use still
/// covers it — coverage scans the whole body, not just what came before.
#[test]
fn secure_fixed() {
    let b = body_of(vec![
        let_stmt(4, unpack_token(240), 245),
        if_stmt(
            binary(
                BinOp::NotEqual,
                field(token_account(246), FieldName::Owner, 247, TyPath::Other(3)),
                addr_of(qpath(21, 248, TyPath::Other(3)), 249),
                250,
            ),
            block(
                vec![call(qpath(25, 251, TyPath::Other(0)), vec![], 252, TyPath::Other(0))],
                253,
            ),
            254,
        ),
    ]);
    let findings = check_body(&b);
    assert_eq!(findings.len(), 0);
}

/// The secure-account-owner example: a helper receives the handle converted
/// from a typed wrapper and reads `.owner` on an equal receiver — no finding.
#[test]
fn secure_account_owner() {
    let converted = mcall(
        local(8, 260, TyPath::Account),
        MethodPath::ToAccountInfo,
        261,
        TyPath::AccountInfo,
    );
    let b = body_of(vec![
        let_stmt(4, unpack_token(262), 267),
        if_stmt(
            binary(
                BinOp::Equal,
                field(token_account(268), FieldName::Owner, 269, TyPath::Other(3)),
                addr_of(qpath(21, 270, TyPath::Other(3)), 271),
                272,
            ),
            block(vec![converted], 273),
            274,
        ),
    ]);
    let findings = check_body(&b);
    assert_eq!(findings.len(), 0);
}

/// The secure-program-id example: the account's key is compared with the
/// expected program id, so the key-comparison strategy covers it.
#[test]
fn secure_programn_id() {
    let b = body_of(vec![
        let_stmt(4, unpack_token(280), 285),
        if_stmt(
            binary(
                BinOp::NotEqual,
                mcall(token_account(286), MethodPath::AccountKey, 287, TyPath::Other(3)),
                qpath(21, 288, TyPath::Other(3)),
                289,
            ),
            block(
                vec![call(qpath(25, 290, TyPath::Other(0)), vec![], 291, TyPath::Other(0))],
                292,
            ),
            293,
        ),
    ]);
    let findings = check_body(&b);
    assert_eq!(findings.len(), 0);
}
