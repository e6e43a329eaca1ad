//! Span-less structural equality between expressions.
//!
//! Two expressions are equal when they have literally the same syntactic
//! shape: the same node kinds, the same referenced names, fields, operators
//! and resolved method paths, recursively. Source spans and resolved types
//! take no part in the comparison. This is a conservative approximation of
//! "denotes the same value": two shapes that differ textually are unequal
//! even if they are provably aliases.

use vstd::prelude::*;
use crate::ir::{Expr, ExprKind, ExprList};

verus! {

/// Structural equality of two expressions, ignoring spans and types.
pub open spec fn eq_expr(a: Expr, b: Expr) -> bool
    decreases a,
{
    match (a.kind, b.kind) {
        (ExprKind::Local(x), ExprKind::Local(y)) => x == y,
        (ExprKind::Path(x), ExprKind::Path(y)) => x == y,
        (ExprKind::Lit(x), ExprKind::Lit(y)) => x == y,
        (ExprKind::Field(ba, fa), ExprKind::Field(bb, fb)) => fa == fb && eq_expr(*ba, *bb),
        (ExprKind::MethodCall(ra, ma, aa), ExprKind::MethodCall(rb, mb, ab)) =>
            ma == mb && eq_expr(*ra, *rb) && eq_expr_list(*aa, *ab),
        (ExprKind::Call(ca, aa), ExprKind::Call(cb, ab)) =>
            eq_expr(*ca, *cb) && eq_expr_list(*aa, *ab),
        (ExprKind::Binary(oa, la, ra), ExprKind::Binary(ob, lb, rb)) =>
            oa == ob && eq_expr(*la, *lb) && eq_expr(*ra, *rb),
        (ExprKind::AddrOf(ia), ExprKind::AddrOf(ib)) => eq_expr(*ia, *ib),
        (ExprKind::Let(na, ia), ExprKind::Let(nb, ib)) => na == nb && eq_expr(*ia, *ib),
        (ExprKind::Block(la), ExprKind::Block(lb)) => eq_expr_list(*la, *lb),
        (ExprKind::If(ca, ta, ea), ExprKind::If(cb, tb, eb)) =>
            eq_expr(*ca, *cb) && eq_expr(*ta, *tb) && eq_expr_opt(ea, eb),
        (ExprKind::Closure(xa), ExprKind::Closure(xb)) => xa == xb,
        _ => false,
    }
}

/// Element-wise structural equality of two expression lists.
pub open spec fn eq_expr_list(a: ExprList, b: ExprList) -> bool
    decreases a,
{
    match (a, b) {
        (ExprList::Nil, ExprList::Nil) => true,
        (ExprList::Cons(ha, ta), ExprList::Cons(hb, tb)) =>
            eq_expr(*ha, *hb) && eq_expr_list(*ta, *tb),
        _ => false,
    }
}

/// Structural equality of two optional expressions (else branches).
pub open spec fn eq_expr_opt(a: Option<Box<Expr>>, b: Option<Box<Expr>>) -> bool
    decreases a,
{
    match (a, b) {
        (Option::None, Option::None) => true,
        (Option::Some(ea), Option::Some(eb)) => eq_expr(*ea, *eb),
        _ => false,
    }
}

/// Decides [`eq_expr`].
pub fn eq_expr_exec(a: &Expr, b: &Expr) -> (r: bool)
    ensures
        r == eq_expr(*a, *b),
    decreases *a,
{
    match (&a.kind, &b.kind) {
        (ExprKind::Local(x), ExprKind::Local(y)) => *x == *y,
        (ExprKind::Path(x), ExprKind::Path(y)) => *x == *y,
        (ExprKind::Lit(x), ExprKind::Lit(y)) => *x == *y,
        (ExprKind::Field(ba, fa), ExprKind::Field(bb, fb)) =>
            *fa == *fb && eq_expr_exec(&**ba, &**bb),
        (ExprKind::MethodCall(ra, ma, aa), ExprKind::MethodCall(rb, mb, ab)) =>
            *ma == *mb && eq_expr_exec(&**ra, &**rb) && eq_expr_list_exec(&**aa, &**ab),
        (ExprKind::Call(ca, aa), ExprKind::Call(cb, ab)) =>
            eq_expr_exec(&**ca, &**cb) && eq_expr_list_exec(&**aa, &**ab),
        (ExprKind::Binary(oa, la, ra), ExprKind::Binary(ob, lb, rb)) =>
            *oa == *ob && eq_expr_exec(&**la, &**lb) && eq_expr_exec(&**ra, &**rb),
        (ExprKind::AddrOf(ia), ExprKind::AddrOf(ib)) => eq_expr_exec(&**ia, &**ib),
        (ExprKind::Let(na, ia), ExprKind::Let(nb, ib)) =>
            *na == *nb && eq_expr_exec(&**ia, &**ib),
        (ExprKind::Block(la), ExprKind::Block(lb)) => eq_expr_list_exec(&**la, &**lb),
        (ExprKind::If(ca, ta, ea), ExprKind::If(cb, tb, eb)) =>
            eq_expr_exec(&**ca, &**cb) && eq_expr_exec(&**ta, &**tb)
                && eq_expr_opt_exec(ea, eb),
        (ExprKind::Closure(xa), ExprKind::Closure(xb)) => *xa == *xb,
        _ => false,
    }
}

/// Decides [`eq_expr_list`].
pub fn eq_expr_list_exec(a: &ExprList, b: &ExprList) -> (r: bool)
    ensures
        r == eq_expr_list(*a, *b),
    decreases *a,
{
    match (a, b) {
        (ExprList::Nil, ExprList::Nil) => true,
        (ExprList::Cons(ha, ta), ExprList::Cons(hb, tb)) =>
            eq_expr_exec(&**ha, &**hb) && eq_expr_list_exec(&**ta, &**tb),
        _ => false,
    }
}

/// Decides [`eq_expr_opt`].
pub fn eq_expr_opt_exec(a: &Option<Box<Expr>>, b: &Option<Box<Expr>>) -> (r: bool)
    ensures
        r == eq_expr_opt(*a, *b),
    decreases *a,
{
    match (a, b) {
        (Option::None, Option::None) => true,
        (Option::Some(ea), Option::Some(eb)) => eq_expr_exec(&**ea, &**eb),
        _ => false,
    }
}

/// Structural equality is reflexive.
pub proof fn lemma_eq_expr_refl(a: Expr)
    ensures
        eq_expr(a, a),
    decreases a,
{
    match a.kind {
        ExprKind::Field(b, _) => {
            lemma_eq_expr_refl(*b);
        }
        ExprKind::MethodCall(r, _, args) => {
            lemma_eq_expr_refl(*r);
            lemma_eq_expr_list_refl(*args);
        }
        ExprKind::Call(c, args) => {
            lemma_eq_expr_refl(*c);
            lemma_eq_expr_list_refl(*args);
        }
        ExprKind::Binary(_, l, r) => {
            lemma_eq_expr_refl(*l);
            lemma_eq_expr_refl(*r);
        }
        ExprKind::AddrOf(i) => {
            lemma_eq_expr_refl(*i);
        }
        ExprKind::Let(_, i) => {
            lemma_eq_expr_refl(*i);
        }
        ExprKind::Block(l) => {
            lemma_eq_expr_list_refl(*l);
        }
        ExprKind::If(c, t, e) => {
            lemma_eq_expr_refl(*c);
            lemma_eq_expr_refl(*t);
            lemma_eq_expr_opt_refl(e);
        }
        _ => {}
    }
}

/// List structural equality is reflexive.
pub proof fn lemma_eq_expr_list_refl(l: ExprList)
    ensures
        eq_expr_list(l, l),
    decreases l,
{
    match l {
        ExprList::Cons(h, t) => {
            lemma_eq_expr_refl(*h);
            lemma_eq_expr_list_refl(*t);
        }
        ExprList::Nil => {}
    }
}

/// Structural equality is symmetric.
pub proof fn lemma_eq_expr_sym(a: Expr, b: Expr)
    ensures
        eq_expr(a, b) == eq_expr(b, a),
    decreases a,
{
    match (a.kind, b.kind) {
        (ExprKind::Field(ba, _), ExprKind::Field(bb, _)) => lemma_eq_expr_sym(*ba, *bb),
        (ExprKind::MethodCall(ra, _, aa), ExprKind::MethodCall(rb, _, ab)) => {
            lemma_eq_expr_sym(*ra, *rb);
            lemma_eq_expr_list_sym(*aa, *ab);
        }
        (ExprKind::Call(ca, aa), ExprKind::Call(cb, ab)) => {
            lemma_eq_expr_sym(*ca, *cb);
            lemma_eq_expr_list_sym(*aa, *ab);
        }
        (ExprKind::Binary(_, la, ra), ExprKind::Binary(_, lb, rb)) => {
            lemma_eq_expr_sym(*la, *lb);
            lemma_eq_expr_sym(*ra, *rb);
        }
        (ExprKind::AddrOf(ia), ExprKind::AddrOf(ib)) => lemma_eq_expr_sym(*ia, *ib),
        (ExprKind::Let(_, ia), ExprKind::Let(_, ib)) => lemma_eq_expr_sym(*ia, *ib),
        (ExprKind::Block(la), ExprKind::Block(lb)) => lemma_eq_expr_list_sym(*la, *lb),
        (ExprKind::If(ca, ta, ea), ExprKind::If(cb, tb, eb)) => {
            lemma_eq_expr_sym(*ca, *cb);
            lemma_eq_expr_sym(*ta, *tb);
            lemma_eq_expr_opt_sym(ea, eb);
        }
        _ => {}
    }
}

/// List structural equality is symmetric.
pub proof fn lemma_eq_expr_list_sym(a: ExprList, b: ExprList)
    ensures
        eq_expr_list(a, b) == eq_expr_list(b, a),
    decreases a,
{
    match (a, b) {
        (ExprList::Cons(ha, ta), ExprList::Cons(hb, tb)) => {
            lemma_eq_expr_sym(*ha, *hb);
            lemma_eq_expr_list_sym(*ta, *tb);
        }
        _ => {}
    }
}

/// Optional-expression structural equality is reflexive.
pub proof fn lemma_eq_expr_opt_refl(o: Option<Box<Expr>>)
    ensures
        eq_expr_opt(o, o),
    decreases o,
{
    match o {
        Option::Some(e) => lemma_eq_expr_refl(*e),
        Option::None => {}
    }
}

/// Optional-expression structural equality is symmetric.
pub proof fn lemma_eq_expr_opt_sym(a: Option<Box<Expr>>, b: Option<Box<Expr>>)
    ensures
        eq_expr_opt(a, b) == eq_expr_opt(b, a),
    decreases a,
{
    match (a, b) {
        (Option::Some(x), Option::Some(y)) => lemma_eq_expr_sym(*x, *y),
        _ => {}
    }
}

/// Deep copy of an expression; the copy is equal to the original.
pub fn clone_expr(e: &Expr) -> (r: Expr)
    ensures
        r == *e,
    decreases *e,
{
    Expr { kind: clone_expr_kind(&e.kind), span: e.span, ty: e.ty }
}

/// Deep copy of an expression shape.
pub fn clone_expr_kind(k: &ExprKind) -> (r: ExprKind)
    ensures
        r == *k,
    decreases *k,
{
    match k {
        ExprKind::Local(x) => ExprKind::Local(*x),
        ExprKind::Path(x) => ExprKind::Path(*x),
        ExprKind::Lit(x) => ExprKind::Lit(*x),
        ExprKind::Field(b, f) => ExprKind::Field(Box::new(clone_expr(&**b)), *f),
        ExprKind::MethodCall(r, m, args) => ExprKind::MethodCall(
            Box::new(clone_expr(&**r)),
            *m,
            Box::new(clone_expr_list(&**args)),
        ),
        ExprKind::Call(c, args) => ExprKind::Call(
            Box::new(clone_expr(&**c)),
            Box::new(clone_expr_list(&**args)),
        ),
        ExprKind::Binary(op, l, r) => ExprKind::Binary(
            *op,
            Box::new(clone_expr(&**l)),
            Box::new(clone_expr(&**r)),
        ),
        ExprKind::AddrOf(i) => ExprKind::AddrOf(Box::new(clone_expr(&**i))),
        ExprKind::Let(n, i) => ExprKind::Let(*n, Box::new(clone_expr(&**i))),
        ExprKind::Block(l) => ExprKind::Block(Box::new(clone_expr_list(&**l))),
        ExprKind::If(c, t, e) => ExprKind::If(
            Box::new(clone_expr(&**c)),
            Box::new(clone_expr(&**t)),
            clone_expr_opt(e),
        ),
        ExprKind::Closure(x) => ExprKind::Closure(*x),
    }
}

/// Deep copy of an expression list.
pub fn clone_expr_list(l: &ExprList) -> (r: ExprList)
    ensures
        r == *l,
    decreases *l,
{
    match l {
        ExprList::Nil => ExprList::Nil,
        ExprList::Cons(h, t) => ExprList::Cons(
            Box::new(clone_expr(&**h)),
            Box::new(clone_expr_list(&**t)),
        ),
    }
}

/// Deep copy of an optional expression.
pub fn clone_expr_opt(o: &Option<Box<Expr>>) -> (r: Option<Box<Expr>>)
    ensures
        r == *o,
    decreases *o,
{
    match o {
        Option::None => Option::None,
        Option::Some(e) => Option::Some(Box::new(clone_expr(&**e))),
    }
}

} // verus!
