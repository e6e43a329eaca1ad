//! The analyzer's view of one function body: a typed expression tree.
//!
//! The host front-end resolves names, types and method callees before the
//! analyzer runs; here each of those resolved entities is a plain value. A
//! nominal type is its fully-qualified path, collapsed to a tag for the
//! handful of paths the analysis recognizes; any other path is carried as an
//! opaque identifier so that distinct paths stay distinct.

use vstd::prelude::*;

verus! {

/// A resolved nominal type, identified by its fully-qualified path (after
/// following reference/auto-conversion adjustments). The named variants are
/// the paths the analysis recognizes; every other path — including a type the
/// front-end could not resolve — is `Other` with an interned path identifier.
#[derive(Clone, Copy, PartialEq, Eq, Structural, Debug)]
pub enum TyPath {
    /// The account-handle type itself: a raw account reference exposing an
    /// `owner` field and a `key`.
    AccountInfo,
    /// A typed account wrapper whose construction validates the owner.
    Account,
    /// A program-identity wrapper; constructing it checks the program id.
    Program,
    /// A wrapper whose construction checks that the system program owns the
    /// account.
    SystemAccount,
    /// A lazily-loaded account wrapper that validates the owner on load.
    AccountLoader,
    /// A signer wrapper: the account holds a private key.
    Signer,
    /// A well-known system-variable wrapper; its key is checked.
    Sysvar,
    /// Any other fully-qualified type path, by interned identifier.
    Other(u64),
}

/// A field name, as written at a field-access expression.
#[derive(Clone, Copy, PartialEq, Eq, Structural, Debug)]
pub enum FieldName {
    /// The `owner` field of an account handle.
    Owner,
    /// The `key` field of an account handle.
    Key,
    /// Any other field, by interned name.
    Other(u64),
}

/// The fully-qualified path a method call resolves to.
#[derive(Clone, Copy, PartialEq, Eq, Structural, Debug)]
pub enum MethodPath {
    /// The language's no-op copy method: `x.clone()`.
    CoreClone,
    /// The canonical convert-to-account-handle conversion method.
    ToAccountInfo,
    /// The canonical zero-argument key-accessor method.
    AccountKey,
    /// Any other method, by interned path identifier.
    Other(u64),
}

/// A binary operator. Only equality and inequality matter to the analysis;
/// every other operator is carried opaquely so that structural equality can
/// still tell two operators apart.
#[derive(Clone, Copy, PartialEq, Eq, Structural, Debug)]
pub enum BinOp {
    Equal,
    NotEqual,
    Other(u64),
}

/// The syntactic shape of one expression node.
#[derive(Debug)]
pub enum ExprKind {
    /// A single-segment path: a bare read of a local variable.
    Local(u64),
    /// A qualified (multi-segment) path: a constant, static or item.
    Path(u64),
    /// A literal, by interned token.
    Lit(u64),
    /// A field access: `base.field`.
    Field(Box<Expr>, FieldName),
    /// A method call: `receiver.method(args)`, with the resolved callee path.
    MethodCall(Box<Expr>, MethodPath, Box<ExprList>),
    /// A plain call: `callee(args)`.
    Call(Box<Expr>, Box<ExprList>),
    /// A binary operation: `lhs op rhs`.
    Binary(BinOp, Box<Expr>, Box<Expr>),
    /// A borrow: `&inner`.
    AddrOf(Box<Expr>),
    /// A binding statement: `let <local> = init;`.
    Let(u64, Box<Expr>),
    /// A block of statements and trailing expression, in order.
    Block(Box<ExprList>),
    /// A conditional, with an optional else branch.
    If(Box<Expr>, Box<Expr>, Option<Box<Expr>>),
    /// A nested body that is scheduled for its own, separate analysis (an
    /// inner function or closure body). Traversal stops here: descending
    /// would double-report across analysis units.
    Closure(u64),
}

/// One expression node: its shape, its source span and its resolved type.
/// The span locates findings and never takes part in equality; the type is
/// the node's resolved nominal type, `TyPath::Other` when unresolved.
#[derive(Debug)]
pub struct Expr {
    pub kind: ExprKind,
    pub span: u64,
    pub ty: TyPath,
}

/// An ordered list of expressions: statements of a block, or call arguments.
#[derive(Debug)]
pub enum ExprList {
    Nil,
    Cons(Box<Expr>, Box<ExprList>),
}

/// One function body: its top-level statements, in source order.
#[derive(Debug)]
pub struct Body {
    pub stmts: ExprList,
}

/// The fixed severity of every finding this analyzer emits.
#[derive(Clone, Copy, PartialEq, Eq, Structural, Debug)]
pub enum Severity {
    Warn,
}

/// One finding: an account-handle use with no owner check in its body.
/// It points at the uncovered expression's source span; the message is the
/// fixed text returned by [`crate::analyze::lint_message`].
#[derive(Clone, Copy, PartialEq, Eq, Structural, Debug)]
pub struct Finding {
    pub span: u64,
    pub severity: Severity,
}

} // verus!
