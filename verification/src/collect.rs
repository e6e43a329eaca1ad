//! Candidate collection: one pre-order walk of the body gathers every
//! account-handle expression that is not already proven safe, deduplicated
//! by structural equality.
//!
//! An expression is a candidate when all of the following hold:
//! it is not itself a no-op copy — a `clone()` call or a handle-to-handle
//! re-conversion — whose receiver is the expression worth reporting; its
//! resolved type is exactly the account-handle type; it is not a bare
//! local-variable read (the initializer bound to that local is visited on
//! its own and is the expression to report); and its type does not already
//! witness an owner check (see [`spec_is_safe_to_account_info`]).
//! The walk keeps the first expression of each structural-equality class and
//! continues into the children of kept and skipped expressions alike; it does
//! not descend into nested bodies that are analyzed separately.

use vstd::prelude::*;
use crate::ir::{Body, Expr, ExprKind, ExprList, MethodPath, TyPath};
use crate::equality::{eq_expr, eq_expr_exec, lemma_eq_expr_sym, lemma_eq_expr_refl, clone_expr};

verus! {

/// The receiver of `e` when `e` is a method call resolving to `m`.
pub open spec fn spec_method_call_receiver(e: Expr, m: MethodPath) -> Option<Expr> {
    match e.kind {
        ExprKind::MethodCall(recv, m2, _) => if m2 == m {
            Option::Some(*recv)
        } else {
            Option::None
        },
        _ => Option::None,
    }
}

/// `e` is a no-op copy: a method call resolving to the canonical clone path.
pub open spec fn spec_is_clone_call(e: Expr) -> bool {
    spec_method_call_receiver(e, MethodPath::CoreClone) is Some
}

/// `e` is a bare single-segment local-variable read.
pub open spec fn spec_is_local_variable(e: Expr) -> bool {
    e.kind is Local
}

/// `t` is one of the six safety-witness wrapper types, whose construction
/// already validates the account's owner (or its key).
pub open spec fn spec_is_safety_witness_ty(t: TyPath) -> bool {
    match t {
        TyPath::Account => true,
        TyPath::Program => true,
        TyPath::SystemAccount => true,
        TyPath::AccountLoader => true,
        TyPath::Signer => true,
        TyPath::Sysvar => true,
        _ => false,
    }
}

/// `e` is a no-op re-conversion: a convert-to-account-handle call whose
/// receiver is already the account-handle type. Converting a handle to a
/// handle introduces nothing new, so — like a `clone()` call — the call is
/// skipped and its receiver is the expression worth reporting; keeping both
/// would report one account twice.
pub open spec fn spec_is_noop_conversion(e: Expr) -> bool {
    match spec_method_call_receiver(e, MethodPath::ToAccountInfo) {
        Option::Some(recv) => recv.ty == TyPath::AccountInfo,
        Option::None => false,
    }
}

/// `e`'s type already proves an owner check: `e` is a direct call of the
/// convert-to-account-handle method on a receiver whose resolved type is a
/// safety-witness wrapper.
pub open spec fn spec_is_safe_to_account_info(e: Expr) -> bool {
    match spec_method_call_receiver(e, MethodPath::ToAccountInfo) {
        Option::Some(recv) => spec_is_safety_witness_ty(recv.ty),
        Option::None => false,
    }
}

/// `e` is a candidate account-handle use, eligible for coverage checking.
pub open spec fn spec_is_candidate(e: Expr) -> bool {
    &&& !spec_is_clone_call(e)
    &&& !spec_is_noop_conversion(e)
    &&& e.ty == TyPath::AccountInfo
    &&& !spec_is_local_variable(e)
    &&& !spec_is_safe_to_account_info(e)
}

/// Some expression already collected in `s` structurally equals `e`.
pub open spec fn spec_has_equal(s: Seq<Expr>, e: Expr) -> bool {
    exists|i: int| 0 <= i < s.len() && eq_expr(s[i], e)
}

/// The collected candidates after pre-order traversal of `e`, starting from
/// the already-collected `acc`: `e` itself is appended when it is a candidate
/// with no structural equal in `acc`, then `e`'s children are traversed in
/// source order. Traversal stops at nested separately-analyzed bodies.
pub open spec fn spec_collect_expr(e: Expr, acc: Seq<Expr>) -> Seq<Expr>
    decreases e,
{
    let acc1 = if spec_is_candidate(e) && !spec_has_equal(acc, e) {
        acc.push(e)
    } else {
        acc
    };
    match e.kind {
        ExprKind::Field(b, _) => spec_collect_expr(*b, acc1),
        ExprKind::MethodCall(r, _, args) => spec_collect_list(*args, spec_collect_expr(*r, acc1)),
        ExprKind::Call(c, args) => spec_collect_list(*args, spec_collect_expr(*c, acc1)),
        ExprKind::Binary(_, l, r) => spec_collect_expr(*r, spec_collect_expr(*l, acc1)),
        ExprKind::AddrOf(i) => spec_collect_expr(*i, acc1),
        ExprKind::Let(_, i) => spec_collect_expr(*i, acc1),
        ExprKind::Block(l) => spec_collect_list(*l, acc1),
        ExprKind::If(c, t, e2) => spec_collect_opt(
            e2,
            spec_collect_expr(*t, spec_collect_expr(*c, acc1)),
        ),
        _ => acc1,
    }
}

/// Collection over a list of expressions, left to right.
pub open spec fn spec_collect_list(l: ExprList, acc: Seq<Expr>) -> Seq<Expr>
    decreases l,
{
    match l {
        ExprList::Nil => acc,
        ExprList::Cons(h, t) => spec_collect_list(*t, spec_collect_expr(*h, acc)),
    }
}

/// Collection over an optional expression.
pub open spec fn spec_collect_opt(o: Option<Box<Expr>>, acc: Seq<Expr>) -> Seq<Expr>
    decreases o,
{
    match o {
        Option::Some(e) => spec_collect_expr(*e, acc),
        Option::None => acc,
    }
}

/// The ordered candidate set of one body: pre-order collection over its
/// statements, starting from nothing. Fresh per body; no state is shared
/// across bodies.
pub open spec fn spec_candidates(b: Body) -> Seq<Expr> {
    spec_collect_list(b.stmts, Seq::empty())
}

/// If `e` is a method call resolving to `m`, its receiver, else `None`.
pub fn is_expr_method_call<'a>(e: &'a Expr, m: MethodPath) -> (r: Option<&'a Expr>)
    ensures
        match r {
            Option::Some(recv) => spec_method_call_receiver(*e, m) == Option::Some(*recv),
            Option::None => spec_method_call_receiver(*e, m) is None,
        },
{
    match &e.kind {
        ExprKind::MethodCall(recv, m2, _) => if *m2 == m {
            Option::Some(&**recv)
        } else {
            Option::None
        },
        _ => Option::None,
    }
}

/// Decides [`spec_is_local_variable`].
pub fn is_expr_local_variable(e: &Expr) -> (r: bool)
    ensures
        r == spec_is_local_variable(*e),
{
    matches!(&e.kind, ExprKind::Local(_))
}

/// Decides [`spec_is_safety_witness_ty`].
pub fn is_safety_witness_ty(t: TyPath) -> (r: bool)
    ensures
        r == spec_is_safety_witness_ty(t),
{
    match t {
        TyPath::Account => true,
        TyPath::Program => true,
        TyPath::SystemAccount => true,
        TyPath::AccountLoader => true,
        TyPath::Signer => true,
        TyPath::Sysvar => true,
        _ => false,
    }
}

/// Decides [`spec_is_noop_conversion`].
pub fn is_noop_conversion(e: &Expr) -> (r: bool)
    ensures
        r == spec_is_noop_conversion(*e),
{
    match is_expr_method_call(e, MethodPath::ToAccountInfo) {
        Option::Some(recv) => recv.ty == TyPath::AccountInfo,
        Option::None => false,
    }
}

/// Decides [`spec_is_safe_to_account_info`].
pub fn is_safe_to_account_info(e: &Expr) -> (r: bool)
    ensures
        r == spec_is_safe_to_account_info(*e),
{
    match is_expr_method_call(e, MethodPath::ToAccountInfo) {
        Option::Some(recv) => is_safety_witness_ty(recv.ty),
        Option::None => false,
    }
}

/// Decides [`spec_is_candidate`].
pub fn is_candidate(e: &Expr) -> (r: bool)
    ensures
        r == spec_is_candidate(*e),
{
    let clone_call = match is_expr_method_call(e, MethodPath::CoreClone) {
        Option::Some(_) => true,
        Option::None => false,
    };
    !clone_call && !is_noop_conversion(e) && e.ty == TyPath::AccountInfo
        && !is_expr_local_variable(e) && !is_safe_to_account_info(e)
}

/// Decides [`spec_has_equal`] over the collected vector.
pub fn has_equal(s: &Vec<Expr>, e: &Expr) -> (r: bool)
    ensures
        r == spec_has_equal(s@, *e),
{
    let mut i: usize = 0;
    while i < s.len()
        invariant
            0 <= i <= s@.len(),
            forall|j: int| 0 <= j < i ==> !eq_expr(s@[j], *e),
        decreases s@.len() - i,
    {
        if eq_expr_exec(&s[i], e) {
            return true;
        }
        i = i + 1;
    }
    false
}

/// One pre-order collection step: consider `e`, then its children.
pub fn collect_expr(e: &Expr, acc: &mut Vec<Expr>)
    ensures
        final(acc)@ == spec_collect_expr(*e, old(acc)@),
    decreases *e,
{
    if is_candidate(e) && !has_equal(acc, e) {
        let c = clone_expr(e);
        acc.push(c);
    }
    match &e.kind {
        ExprKind::Field(b, _) => collect_expr(&**b, acc),
        ExprKind::MethodCall(r, _, args) => {
            collect_expr(&**r, acc);
            collect_list(&**args, acc);
        }
        ExprKind::Call(c, args) => {
            collect_expr(&**c, acc);
            collect_list(&**args, acc);
        }
        ExprKind::Binary(_, l, r) => {
            collect_expr(&**l, acc);
            collect_expr(&**r, acc);
        }
        ExprKind::AddrOf(i) => collect_expr(&**i, acc),
        ExprKind::Let(_, i) => collect_expr(&**i, acc),
        ExprKind::Block(l) => collect_list(&**l, acc),
        ExprKind::If(c, t, e2) => {
            collect_expr(&**c, acc);
            collect_expr(&**t, acc);
            collect_opt(e2, acc);
        }
        _ => {}
    }
}

/// Collection over a list of expressions, left to right.
pub fn collect_list(l: &ExprList, acc: &mut Vec<Expr>)
    ensures
        final(acc)@ == spec_collect_list(*l, old(acc)@),
    decreases *l,
{
    match l {
        ExprList::Nil => {}
        ExprList::Cons(h, t) => {
            collect_expr(&**h, acc);
            collect_list(&**t, acc);
        }
    }
}

/// Collection over an optional expression.
pub fn collect_opt(o: &Option<Box<Expr>>, acc: &mut Vec<Expr>)
    ensures
        final(acc)@ == spec_collect_opt(*o, old(acc)@),
    decreases *o,
{
    match o {
        Option::Some(e) => collect_expr(&**e, acc),
        Option::None => {}
    }
}

/// The ordered candidate set of `body`: every distinct (by structural
/// equality), unsafe account-handle expression, in pre-order.
pub fn get_referenced_accounts(body: &Body) -> (r: Vec<Expr>)
    ensures
        r@ == spec_candidates(*body),
{
    let mut uses: Vec<Expr> = Vec::new();
    collect_list(&body.stmts, &mut uses);
    uses
}

/// `s` holds no two structurally equal expressions.
pub open spec fn spec_distinct_by_eq(s: Seq<Expr>) -> bool {
    forall|i: int, j: int|
        0 <= i < s.len() && 0 <= j < s.len() && i != j ==> !eq_expr(s[i], s[j])
}

/// Every expression of `s` is a candidate (so in particular none is a bare
/// local, a clone call, or classified safe).
pub open spec fn spec_all_candidates(s: Seq<Expr>) -> bool {
    forall|i: int| 0 <= i < s.len() ==> spec_is_candidate(s[i])
}

/// Collection preserves distinctness and candidacy of the running set.
proof fn lemma_collect_expr_good(e: Expr, acc: Seq<Expr>)
    requires
        spec_distinct_by_eq(acc),
        spec_all_candidates(acc),
    ensures
        spec_distinct_by_eq(spec_collect_expr(e, acc)),
        spec_all_candidates(spec_collect_expr(e, acc)),
    decreases e,
{
    let acc1 = if spec_is_candidate(e) && !spec_has_equal(acc, e) {
        acc.push(e)
    } else {
        acc
    };
    if spec_is_candidate(e) && !spec_has_equal(acc, e) {
        assert forall|i: int| 0 <= i < acc.len() implies !eq_expr(e, acc[i]) by {
            assert(!eq_expr(acc[i], e));
            lemma_eq_expr_sym(e, acc[i]);
        }
        assert(spec_distinct_by_eq(acc1));
        assert(spec_all_candidates(acc1));
    }
    match e.kind {
        ExprKind::Field(b, _) => lemma_collect_expr_good(*b, acc1),
        ExprKind::MethodCall(r, _, args) => {
            lemma_collect_expr_good(*r, acc1);
            lemma_collect_list_good(*args, spec_collect_expr(*r, acc1));
        }
        ExprKind::Call(c, args) => {
            lemma_collect_expr_good(*c, acc1);
            lemma_collect_list_good(*args, spec_collect_expr(*c, acc1));
        }
        ExprKind::Binary(_, l, r) => {
            lemma_collect_expr_good(*l, acc1);
            lemma_collect_expr_good(*r, spec_collect_expr(*l, acc1));
        }
        ExprKind::AddrOf(i) => lemma_collect_expr_good(*i, acc1),
        ExprKind::Let(_, i) => lemma_collect_expr_good(*i, acc1),
        ExprKind::Block(l) => lemma_collect_list_good(*l, acc1),
        ExprKind::If(c, t, e2) => {
            lemma_collect_expr_good(*c, acc1);
            lemma_collect_expr_good(*t, spec_collect_expr(*c, acc1));
            lemma_collect_opt_good(e2, spec_collect_expr(*t, spec_collect_expr(*c, acc1)));
        }
        _ => {}
    }
}

/// List collection preserves distinctness and candidacy.
proof fn lemma_collect_list_good(l: ExprList, acc: Seq<Expr>)
    requires
        spec_distinct_by_eq(acc),
        spec_all_candidates(acc),
    ensures
        spec_distinct_by_eq(spec_collect_list(l, acc)),
        spec_all_candidates(spec_collect_list(l, acc)),
    decreases l,
{
    match l {
        ExprList::Cons(h, t) => {
            lemma_collect_expr_good(*h, acc);
            lemma_collect_list_good(*t, spec_collect_expr(*h, acc));
        }
        ExprList::Nil => {}
    }
}

/// Optional collection preserves distinctness and candidacy.
proof fn lemma_collect_opt_good(o: Option<Box<Expr>>, acc: Seq<Expr>)
    requires
        spec_distinct_by_eq(acc),
        spec_all_candidates(acc),
    ensures
        spec_distinct_by_eq(spec_collect_opt(o, acc)),
        spec_all_candidates(spec_collect_opt(o, acc)),
    decreases o,
{
    match o {
        Option::Some(e) => lemma_collect_expr_good(*e, acc),
        Option::None => {}
    }
}

/// Dedup law: the candidate set of one body never holds two structurally
/// equal expressions — each logical account is reported at most once.
pub proof fn lemma_candidate_set_deduplicated(b: Body)
    ensures
        spec_distinct_by_eq(spec_candidates(b)),
{
    lemma_collect_list_good(b.stmts, Seq::empty());
}

/// Every collected candidate satisfies the candidate predicate: its type is
/// the account-handle type, and it is neither a clone call, nor a bare local
/// read, nor a safety-witness conversion.
pub proof fn lemma_candidates_sound(b: Body)
    ensures
        spec_all_candidates(spec_candidates(b)),
{
    lemma_collect_list_good(b.stmts, Seq::empty());
}

/// `x` is one of the expressions the analysis visits in `e`'s tree: `e`
/// itself or, recursively, a node of a child's tree, stopping at nested
/// separately-analyzed bodies.
pub open spec fn spec_occurs_in(e: Expr, x: Expr) -> bool
    decreases e,
{
    ||| e == x
    ||| match e.kind {
        ExprKind::Field(b, _) => spec_occurs_in(*b, x),
        ExprKind::MethodCall(r, _, args) => spec_occurs_in(*r, x)
            || spec_occurs_in_list(*args, x),
        ExprKind::Call(c, args) => spec_occurs_in(*c, x) || spec_occurs_in_list(*args, x),
        ExprKind::Binary(_, l, r) => spec_occurs_in(*l, x) || spec_occurs_in(*r, x),
        ExprKind::AddrOf(i) => spec_occurs_in(*i, x),
        ExprKind::Let(_, i) => spec_occurs_in(*i, x),
        ExprKind::Block(l) => spec_occurs_in_list(*l, x),
        ExprKind::If(c, t, e2) => spec_occurs_in(*c, x) || spec_occurs_in(*t, x)
            || spec_occurs_in_opt(e2, x),
        _ => false,
    }
}

/// Occurrence in some expression of a list.
pub open spec fn spec_occurs_in_list(l: ExprList, x: Expr) -> bool
    decreases l,
{
    match l {
        ExprList::Nil => false,
        ExprList::Cons(h, t) => spec_occurs_in(*h, x) || spec_occurs_in_list(*t, x),
    }
}

/// Occurrence in an optional expression.
pub open spec fn spec_occurs_in_opt(o: Option<Box<Expr>>, x: Expr) -> bool
    decreases o,
{
    match o {
        Option::Some(e) => spec_occurs_in(*e, x),
        Option::None => false,
    }
}

/// `x` is an expression the analysis visits in body `b`.
pub open spec fn spec_occurs_in_body(b: Body, x: Expr) -> bool {
    spec_occurs_in_list(b.stmts, x)
}

/// Collection never loses a candidate: once the running set holds an equal
/// of `x`, it still does afterwards; and if the traversal of `e` visits `x`
/// itself, the result holds an equal of `x`.
proof fn lemma_collect_expr_complete(e: Expr, acc: Seq<Expr>, x: Expr)
    requires
        spec_is_candidate(x),
    ensures
        (spec_occurs_in(e, x) || spec_has_equal(acc, x)) ==> spec_has_equal(
            spec_collect_expr(e, acc),
            x,
        ),
    decreases e,
{
    let acc1 = if spec_is_candidate(e) && !spec_has_equal(acc, e) {
        acc.push(e)
    } else {
        acc
    };
    if spec_has_equal(acc, x) {
        let i = choose|i: int| 0 <= i < acc.len() && eq_expr(acc[i], x);
        assert(acc1[i] == acc[i]);
        assert(spec_has_equal(acc1, x));
    }
    if e == x && !spec_has_equal(acc, e) {
        lemma_eq_expr_refl(e);
        assert(acc1[acc.len() as int] == e);
        assert(spec_has_equal(acc1, x));
    }
    match e.kind {
        ExprKind::Field(b, _) => lemma_collect_expr_complete(*b, acc1, x),
        ExprKind::MethodCall(r, _, args) => {
            lemma_collect_expr_complete(*r, acc1, x);
            lemma_collect_list_complete(*args, spec_collect_expr(*r, acc1), x);
        }
        ExprKind::Call(c, args) => {
            lemma_collect_expr_complete(*c, acc1, x);
            lemma_collect_list_complete(*args, spec_collect_expr(*c, acc1), x);
        }
        ExprKind::Binary(_, l, r) => {
            lemma_collect_expr_complete(*l, acc1, x);
            lemma_collect_expr_complete(*r, spec_collect_expr(*l, acc1), x);
        }
        ExprKind::AddrOf(i) => lemma_collect_expr_complete(*i, acc1, x),
        ExprKind::Let(_, i) => lemma_collect_expr_complete(*i, acc1, x),
        ExprKind::Block(l) => lemma_collect_list_complete(*l, acc1, x),
        ExprKind::If(c, t, e2) => {
            lemma_collect_expr_complete(*c, acc1, x);
            lemma_collect_expr_complete(*t, spec_collect_expr(*c, acc1), x);
            lemma_collect_opt_complete(e2, spec_collect_expr(*t, spec_collect_expr(*c, acc1)), x);
        }
        _ => {}
    }
}

/// List collection never loses a candidate.
proof fn lemma_collect_list_complete(l: ExprList, acc: Seq<Expr>, x: Expr)
    requires
        spec_is_candidate(x),
    ensures
        (spec_occurs_in_list(l, x) || spec_has_equal(acc, x)) ==> spec_has_equal(
            spec_collect_list(l, acc),
            x,
        ),
    decreases l,
{
    match l {
        ExprList::Cons(h, t) => {
            lemma_collect_expr_complete(*h, acc, x);
            lemma_collect_list_complete(*t, spec_collect_expr(*h, acc), x);
        }
        ExprList::Nil => {}
    }
}

/// Optional collection never loses a candidate.
proof fn lemma_collect_opt_complete(o: Option<Box<Expr>>, acc: Seq<Expr>, x: Expr)
    requires
        spec_is_candidate(x),
    ensures
        (spec_occurs_in_opt(o, x) || spec_has_equal(acc, x)) ==> spec_has_equal(
            spec_collect_opt(o, acc),
            x,
        ),
    decreases o,
{
    match o {
        Option::Some(e) => lemma_collect_expr_complete(*e, acc, x),
        Option::None => {}
    }
}

/// Collector completeness: every candidate expression the traversal visits
/// has a structurally equal representative in the candidate set. With the
/// dedup law, the candidate set holds exactly one representative per
/// equality class of visited candidates — and only equality joins classes:
/// two visited candidates of different shape, however clearly they alias
/// one account at run time, keep two representatives, each reported on its
/// own when uncovered.
pub proof fn lemma_candidate_set_complete(b: Body, x: Expr)
    requires
        spec_occurs_in_body(b, x),
        spec_is_candidate(x),
    ensures
        spec_has_equal(spec_candidates(b), x),
{
    lemma_collect_list_complete(b.stmts, Seq::empty(), x);
}

/// Safety exemption, first half: an expression whose type already witnesses
/// an owner check is never collected as a candidate, whatever the body holds.
pub proof fn lemma_safe_expr_never_candidate(b: Body, e: Expr)
    requires
        spec_is_safe_to_account_info(e),
    ensures
        !spec_candidates(b).contains(e),
{
    lemma_candidates_sound(b);
    if spec_candidates(b).contains(e) {
        let i = choose|i: int|
            0 <= i < spec_candidates(b).len() && spec_candidates(b)[i] == e;
        assert(spec_is_candidate(spec_candidates(b)[i]));
    }
}

} // verus!
