//! Coverage: does the body check a candidate's owner?
//!
//! Two independent strategies, either one sufficient. The owner-field
//! strategy looks for a field access `receiver.owner` whose receiver
//! structurally equals the candidate. The key-comparison strategy looks for
//! an equality or inequality whose one side accesses the candidate's key —
//! either the `key` field or the canonical zero-argument key-accessor
//! method. Each strategy scans the whole body once per candidate, through
//! nested blocks and branches but not into nested separately-analyzed
//! bodies.

use vstd::prelude::*;
use crate::ir::{BinOp, Body, Expr, ExprKind, ExprList, FieldName, MethodPath};
use crate::equality::{eq_expr, eq_expr_exec};
use crate::collect::{spec_method_call_receiver, is_expr_method_call};

verus! {

/// `e` is a field access `base.f` whose base structurally equals `account`.
pub open spec fn spec_uses_given_field(e: Expr, account: Expr, f: FieldName) -> bool {
    match e.kind {
        ExprKind::Field(base, f2) => f2 == f && eq_expr(account, *base),
        _ => false,
    }
}

/// `e` is a call of method `m` whose receiver structurally equals `account`.
pub open spec fn spec_calls_method_on_expr(e: Expr, account: Expr, m: MethodPath) -> bool {
    match spec_method_call_receiver(e, m) {
        Option::Some(recv) => eq_expr(account, recv),
        Option::None => false,
    }
}

/// `e` reads `account`'s key: the `key` field, or the key-accessor method.
pub open spec fn spec_expr_accesses_key(e: Expr, account: Expr) -> bool {
    ||| spec_calls_method_on_expr(e, account, MethodPath::AccountKey)
    ||| spec_uses_given_field(e, account, FieldName::Key)
}

/// `e` is an equality or inequality with `account`'s key on one side.
pub open spec fn spec_compares_key(e: Expr, account: Expr) -> bool {
    match e.kind {
        ExprKind::Binary(op, lhs, rhs) => {
            &&& (op == BinOp::Equal || op == BinOp::NotEqual)
            &&& (spec_expr_accesses_key(*lhs, account) || spec_expr_accesses_key(*rhs, account))
        }
        _ => false,
    }
}

/// Which coverage strategy a scan looks for.
#[derive(Clone, Copy, PartialEq, Eq, Structural, Debug)]
pub enum EvidenceKind {
    /// An `.owner` field access on an equal receiver.
    OwnerField,
    /// A key equality/inequality comparison on an equal receiver.
    KeyCompare,
}

/// `e` itself is evidence of the given kind for `account`.
pub open spec fn spec_is_evidence(e: Expr, account: Expr, kind: EvidenceKind) -> bool {
    match kind {
        EvidenceKind::OwnerField => spec_uses_given_field(e, account, FieldName::Owner),
        EvidenceKind::KeyCompare => spec_compares_key(e, account),
    }
}

/// Some expression in `e`'s tree (stopping at nested analyzed bodies) is
/// evidence of the given kind for `account`.
pub open spec fn spec_any_evidence(e: Expr, account: Expr, kind: EvidenceKind) -> bool
    decreases e,
{
    ||| spec_is_evidence(e, account, kind)
    ||| match e.kind {
        ExprKind::Field(b, _) => spec_any_evidence(*b, account, kind),
        ExprKind::MethodCall(r, _, args) => spec_any_evidence(*r, account, kind)
            || spec_any_evidence_list(*args, account, kind),
        ExprKind::Call(c, args) => spec_any_evidence(*c, account, kind)
            || spec_any_evidence_list(*args, account, kind),
        ExprKind::Binary(_, l, r) => spec_any_evidence(*l, account, kind)
            || spec_any_evidence(*r, account, kind),
        ExprKind::AddrOf(i) => spec_any_evidence(*i, account, kind),
        ExprKind::Let(_, i) => spec_any_evidence(*i, account, kind),
        ExprKind::Block(l) => spec_any_evidence_list(*l, account, kind),
        ExprKind::If(c, t, e2) => spec_any_evidence(*c, account, kind)
            || spec_any_evidence(*t, account, kind)
            || spec_any_evidence_opt(e2, account, kind),
        _ => false,
    }
}

/// Evidence search over a list of expressions.
pub open spec fn spec_any_evidence_list(l: ExprList, account: Expr, kind: EvidenceKind) -> bool
    decreases l,
{
    match l {
        ExprList::Nil => false,
        ExprList::Cons(h, t) => spec_any_evidence(*h, account, kind)
            || spec_any_evidence_list(*t, account, kind),
    }
}

/// Evidence search over an optional expression.
pub open spec fn spec_any_evidence_opt(
    o: Option<Box<Expr>>,
    account: Expr,
    kind: EvidenceKind,
) -> bool
    decreases o,
{
    match o {
        Option::Some(e) => spec_any_evidence(*e, account, kind),
        Option::None => false,
    }
}

/// The body accesses `.owner` on a receiver structurally equal to `account`.
pub open spec fn spec_contains_owner_use(b: Body, account: Expr) -> bool {
    spec_any_evidence_list(b.stmts, account, EvidenceKind::OwnerField)
}

/// The body compares `account`'s key with `==` or `!=`.
pub open spec fn spec_contains_key_check(b: Body, account: Expr) -> bool {
    spec_any_evidence_list(b.stmts, account, EvidenceKind::KeyCompare)
}

/// `account` is covered: at least one strategy finds a check in the body.
pub open spec fn spec_covered(b: Body, account: Expr) -> bool {
    spec_contains_owner_use(b, account) || spec_contains_key_check(b, account)
}

/// Decides [`spec_uses_given_field`].
pub fn uses_given_field(e: &Expr, account: &Expr, f: FieldName) -> (r: bool)
    ensures
        r == spec_uses_given_field(*e, *account, f),
{
    match &e.kind {
        ExprKind::Field(base, f2) => *f2 == f && eq_expr_exec(account, &**base),
        _ => false,
    }
}

/// Decides [`spec_calls_method_on_expr`].
pub fn calls_method_on_expr(e: &Expr, account: &Expr, m: MethodPath) -> (r: bool)
    ensures
        r == spec_calls_method_on_expr(*e, *account, m),
{
    match is_expr_method_call(e, m) {
        Option::Some(recv) => eq_expr_exec(account, recv),
        Option::None => false,
    }
}

/// Decides [`spec_expr_accesses_key`].
pub fn expr_accesses_key(e: &Expr, account: &Expr) -> (r: bool)
    ensures
        r == spec_expr_accesses_key(*e, *account),
{
    calls_method_on_expr(e, account, MethodPath::AccountKey)
        || uses_given_field(e, account, FieldName::Key)
}

/// Decides [`spec_compares_key`].
pub fn compares_key(e: &Expr, account: &Expr) -> (r: bool)
    ensures
        r == spec_compares_key(*e, *account),
{
    match &e.kind {
        ExprKind::Binary(op, lhs, rhs) => (*op == BinOp::Equal || *op == BinOp::NotEqual)
            && (expr_accesses_key(&**lhs, account) || expr_accesses_key(&**rhs, account)),
        _ => false,
    }
}

/// Decides [`spec_is_evidence`].
pub fn is_evidence(e: &Expr, account: &Expr, kind: EvidenceKind) -> (r: bool)
    ensures
        r == spec_is_evidence(*e, *account, kind),
{
    match kind {
        EvidenceKind::OwnerField => uses_given_field(e, account, FieldName::Owner),
        EvidenceKind::KeyCompare => compares_key(e, account),
    }
}

/// Decides [`spec_any_evidence`].
pub fn any_evidence(e: &Expr, account: &Expr, kind: EvidenceKind) -> (r: bool)
    ensures
        r == spec_any_evidence(*e, *account, kind),
    decreases *e,
{
    if is_evidence(e, account, kind) {
        return true;
    }
    match &e.kind {
        ExprKind::Field(b, _) => any_evidence(&**b, account, kind),
        ExprKind::MethodCall(r, _, args) => any_evidence(&**r, account, kind)
            || any_evidence_list(&**args, account, kind),
        ExprKind::Call(c, args) => any_evidence(&**c, account, kind)
            || any_evidence_list(&**args, account, kind),
        ExprKind::Binary(_, l, r) => any_evidence(&**l, account, kind)
            || any_evidence(&**r, account, kind),
        ExprKind::AddrOf(i) => any_evidence(&**i, account, kind),
        ExprKind::Let(_, i) => any_evidence(&**i, account, kind),
        ExprKind::Block(l) => any_evidence_list(&**l, account, kind),
        ExprKind::If(c, t, e2) => any_evidence(&**c, account, kind)
            || any_evidence(&**t, account, kind)
            || any_evidence_opt(e2, account, kind),
        _ => false,
    }
}

/// Decides [`spec_any_evidence_list`].
pub fn any_evidence_list(l: &ExprList, account: &Expr, kind: EvidenceKind) -> (r: bool)
    ensures
        r == spec_any_evidence_list(*l, *account, kind),
    decreases *l,
{
    match l {
        ExprList::Nil => false,
        ExprList::Cons(h, t) => any_evidence(&**h, account, kind)
            || any_evidence_list(&**t, account, kind),
    }
}

/// Decides [`spec_any_evidence_opt`].
pub fn any_evidence_opt(o: &Option<Box<Expr>>, account: &Expr, kind: EvidenceKind) -> (r: bool)
    ensures
        r == spec_any_evidence_opt(*o, *account, kind),
    decreases *o,
{
    match o {
        Option::Some(e) => any_evidence(&**e, account, kind),
        Option::None => false,
    }
}

/// Decides [`spec_contains_owner_use`].
pub fn contains_owner_use(body: &Body, account: &Expr) -> (r: bool)
    ensures
        r == spec_contains_owner_use(*body, *account),
{
    any_evidence_list(&body.stmts, account, EvidenceKind::OwnerField)
}

/// Decides [`spec_contains_key_check`].
pub fn contains_key_check(body: &Body, account: &Expr) -> (r: bool)
    ensures
        r == spec_contains_key_check(*body, *account),
{
    any_evidence_list(&body.stmts, account, EvidenceKind::KeyCompare)
}

/// The statement list `l` with `e` inserted before position `k`; any `k`
/// at or past the end appends `e` after the last statement.
pub open spec fn spec_insert_stmt(l: ExprList, k: nat, e: Expr) -> ExprList
    decreases l,
{
    if k == 0 {
        ExprList::Cons(Box::new(e), Box::new(l))
    } else {
        match l {
            ExprList::Nil => ExprList::Cons(Box::new(e), Box::new(ExprList::Nil)),
            ExprList::Cons(h, t) => ExprList::Cons(
                h,
                Box::new(spec_insert_stmt(*t, (k - 1) as nat, e)),
            ),
        }
    }
}

/// The body `b` with one statement `e` inserted at position `k` among its
/// statements — before them, between any two, or after them all.
pub open spec fn spec_body_with_stmt_at(b: Body, k: nat, e: Expr) -> Body {
    Body { stmts: spec_insert_stmt(b.stmts, k, e) }
}

/// Evidence search over an extended list splits into the old list and the
/// inserted statement, wherever it was inserted.
proof fn lemma_any_evidence_insert(
    l: ExprList,
    k: nat,
    e: Expr,
    account: Expr,
    kind: EvidenceKind,
)
    ensures
        spec_any_evidence_list(spec_insert_stmt(l, k, e), account, kind)
            == (spec_any_evidence_list(l, account, kind)
                || spec_any_evidence(e, account, kind)),
    decreases l,
{
    if k != 0 {
        match l {
            ExprList::Cons(_, t) => lemma_any_evidence_insert(
                *t,
                (k - 1) as nat,
                e,
                account,
                kind,
            ),
            ExprList::Nil => {}
        }
    }
}

/// Coverage monotonicity law: inserting one statement `w` anywhere among a
/// body's statements leaves a candidate covered exactly when it was covered
/// before or `w`'s own tree holds evidence for it. So adding an `.owner`
/// access or a key comparison on an equal receiver turns an uncovered
/// candidate into a covered one, and removing the only such statement
/// restores it to uncovered.
pub proof fn lemma_coverage_monotonic(b: Body, k: nat, account: Expr, w: Expr)
    ensures
        spec_covered(spec_body_with_stmt_at(b, k, w), account) == (spec_covered(b, account)
            || spec_any_evidence(w, account, EvidenceKind::OwnerField)
            || spec_any_evidence(w, account, EvidenceKind::KeyCompare)),
{
    lemma_any_evidence_insert(b.stmts, k, w, account, EvidenceKind::OwnerField);
    lemma_any_evidence_insert(b.stmts, k, w, account, EvidenceKind::KeyCompare);
}

/// Corollary: a statement that itself accesses `.owner` of an equal
/// receiver, or itself compares its key, covers the candidate once
/// inserted, at whatever position.
pub proof fn lemma_added_check_covers(b: Body, k: nat, account: Expr, w: Expr)
    requires
        spec_uses_given_field(w, account, FieldName::Owner) || spec_compares_key(w, account),
    ensures
        spec_covered(spec_body_with_stmt_at(b, k, w), account),
{
    lemma_coverage_monotonic(b, k, account, w);
}

} // verus!
