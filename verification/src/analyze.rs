//! The per-body analysis: collect candidates, check coverage of each, and
//! report one finding per uncovered candidate.
//!
//! A body is analyzed in two strictly sequential phases over the same
//! immutable snapshot: first the full candidate set is collected, then each
//! candidate is checked against the full body. The result is a pure function
//! of the body alone — nothing is carried from one body to the next, so
//! repeated analysis of the same snapshot yields the same findings in the
//! same order, and bodies can be analyzed independently in any order.

use vstd::prelude::*;
use crate::ir::{Body, Expr, Finding, Severity};
use crate::collect::{
    spec_candidates, spec_is_candidate, spec_is_safe_to_account_info, get_referenced_accounts,
    lemma_candidates_sound, lemma_safe_expr_never_candidate,
};
use crate::coverage::{spec_covered, contains_owner_use, contains_key_check};

verus! {

/// The fixed message carried by every finding.
pub open spec fn spec_lint_message() -> Seq<char> {
    "this account is used but there is no check on its owner field"@
}

/// The fixed message carried by every finding.
pub fn lint_message() -> (m: &'static str)
    ensures
        m@ == spec_lint_message(),
{
    "this account is used but there is no check on its owner field"
}

/// The finding reported for an uncovered candidate: its span, severity warn.
pub open spec fn spec_finding_for(c: Expr) -> Finding {
    Finding { span: c.span, severity: Severity::Warn }
}

/// Builds the finding for one unchecked candidate: it points at the
/// candidate's source span and carries the fixed warn severity (and, with
/// it, the fixed message of [`lint_message`]).
pub fn report_finding(account_expr: &Expr) -> (f: Finding)
    ensures
        f == spec_finding_for(*account_expr),
{
    Finding { span: account_expr.span, severity: Severity::Warn }
}

/// The findings for the candidates `cands` of body `b`, in candidate order:
/// one finding per candidate that neither coverage strategy checks.
pub open spec fn spec_findings_from(b: Body, cands: Seq<Expr>) -> Seq<Finding>
    decreases cands.len(),
{
    if cands.len() == 0 {
        Seq::empty()
    } else {
        let prefix = spec_findings_from(b, cands.drop_last());
        if !spec_covered(b, cands.last()) {
            prefix.push(spec_finding_for(cands.last()))
        } else {
            prefix
        }
    }
}

/// All findings of one body: a pure function of the body snapshot alone.
pub open spec fn spec_findings(b: Body) -> Seq<Finding> {
    spec_findings_from(b, spec_candidates(b))
}

/// Analyzes one function body: collects the candidate account-handle
/// expressions, checks each against both coverage strategies, and returns
/// one finding, at the candidate's span, for every candidate the body never
/// checks. An empty result is the normal outcome for a body whose accounts
/// are all checked (or that uses no accounts at all).
pub fn check_body(body: &Body) -> (r: Vec<Finding>)
    ensures
        r@ == spec_findings(*body),
{
    let accounts = get_referenced_accounts(body);
    let mut findings: Vec<Finding> = Vec::new();
    let mut i: usize = 0;
    while i < accounts.len()
        invariant
            0 <= i <= accounts@.len(),
            accounts@ == spec_candidates(*body),
            findings@ == spec_findings_from(*body, accounts@.take(i as int)),
        decreases accounts@.len() - i,
    {
        let account_expr = &accounts[i];
        if !contains_owner_use(body, account_expr) && !contains_key_check(body, account_expr) {
            let f = report_finding(account_expr);
            findings.push(f);
        }
        proof {
            assert(accounts@.take(i + 1 as int).drop_last() =~= accounts@.take(i as int));
            assert(accounts@.take(i + 1 as int).last() == accounts@[i as int]);
        }
        i = i + 1;
    }
    proof {
        assert(accounts@.take(accounts@.len() as int) =~= accounts@);
    }
    findings
}

/// Determinism law: the findings are a function of the body snapshot alone,
/// so repeated analysis of the same snapshot produces the same candidate
/// set and the same findings, in the same order.
pub proof fn lemma_analysis_deterministic(b1: Body, b2: Body)
    requires
        b1 == b2,
    ensures
        spec_candidates(b1) == spec_candidates(b2),
        spec_findings(b1) == spec_findings(b2),
{
}

/// Every finding for `cands` points at the span of some uncovered candidate.
proof fn lemma_findings_from_uncovered(b: Body, cands: Seq<Expr>, k: int)
    requires
        0 <= k < spec_findings_from(b, cands).len(),
    ensures
        exists|i: int|
            0 <= i < cands.len() && !spec_covered(b, cands[i])
                && spec_findings_from(b, cands)[k] == spec_finding_for(cands[i]),
    decreases cands.len(),
{
    let prefix = spec_findings_from(b, cands.drop_last());
    if k < prefix.len() {
        lemma_findings_from_uncovered(b, cands.drop_last(), k);
        let i = choose|i: int|
            0 <= i < cands.drop_last().len() && !spec_covered(b, cands.drop_last()[i])
                && prefix[k] == spec_finding_for(cands.drop_last()[i]);
        assert(cands.drop_last()[i] == cands[i]);
        assert(spec_findings_from(b, cands)[k] == prefix[k]);
    } else {
        assert(!spec_covered(b, cands.last()));
        assert(spec_findings_from(b, cands)[k] == spec_finding_for(cands[cands.len() - 1]));
    }
}

/// Every uncovered candidate of `cands` has its finding in the result.
proof fn lemma_findings_from_complete(b: Body, cands: Seq<Expr>, i: int)
    requires
        0 <= i < cands.len(),
        !spec_covered(b, cands[i]),
    ensures
        spec_findings_from(b, cands).contains(spec_finding_for(cands[i])),
    decreases cands.len(),
{
    let prefix = spec_findings_from(b, cands.drop_last());
    if i < cands.len() - 1 {
        lemma_findings_from_complete(b, cands.drop_last(), i);
        let k = choose|k: int|
            0 <= k < prefix.len() && prefix[k] == spec_finding_for(cands.drop_last()[i]);
        assert(spec_findings_from(b, cands)[k] == prefix[k]);
    } else {
        assert(spec_findings_from(b, cands).last() == spec_finding_for(cands[i]));
    }
}

/// One finding per uncovered candidate: a candidate that neither coverage
/// strategy checks is always reported, at its own span.
pub proof fn lemma_uncovered_candidate_reported(b: Body, i: int)
    requires
        0 <= i < spec_candidates(b).len(),
        !spec_covered(b, spec_candidates(b)[i]),
    ensures
        spec_findings(b).contains(spec_finding_for(spec_candidates(b)[i])),
{
    lemma_findings_from_complete(b, spec_candidates(b), i);
}

/// Safety exemption law: an expression classified safe — a conversion from a
/// safety-witness wrapper — is never a candidate of any body, and every
/// finding a body yields points at an uncovered candidate, which is never
/// safe. So a safe expression never appears in any finding, whatever the
/// body holds.
///
/// The law is stated at the expression level. A finding carries only a
/// span; spans come from the host front-end, and nothing in this model
/// forces two distinct expressions to carry distinct spans. Where the host
/// supplies unique spans — as a source position is — no finding carries the
/// safe expression's span either, since each finding's span is some
/// unsafe candidate's.
pub proof fn lemma_safe_expr_never_reported(b: Body, e: Expr, k: int)
    requires
        spec_is_safe_to_account_info(e),
        0 <= k < spec_findings(b).len(),
    ensures
        !spec_candidates(b).contains(e),
        exists|i: int|
            0 <= i < spec_candidates(b).len() && !spec_is_safe_to_account_info(
                spec_candidates(b)[i],
            ) && !spec_covered(b, spec_candidates(b)[i]) && spec_findings(b)[k]
                == spec_finding_for(spec_candidates(b)[i]),
{
    lemma_safe_expr_never_candidate(b, e);
    lemma_candidates_sound(b);
    lemma_findings_from_uncovered(b, spec_candidates(b), k);
    let i = choose|i: int|
        0 <= i < spec_candidates(b).len() && !spec_covered(b, spec_candidates(b)[i])
            && spec_findings(b)[k] == spec_finding_for(spec_candidates(b)[i]);
    assert(spec_is_candidate(spec_candidates(b)[i]));
}

/// The findings of each body of a batch, body by body.
pub open spec fn spec_findings_for_each(bodies: Seq<Body>) -> Seq<Seq<Finding>> {
    bodies.map_values(|b: Body| spec_findings(b))
}

/// No-cross-body-leakage law: the findings for one body depend on that body
/// alone — two batches that agree on the body at position `i` yield the same
/// findings there, whatever the other bodies hold.
pub proof fn lemma_no_cross_body_leakage(bs1: Seq<Body>, bs2: Seq<Body>, i: int)
    requires
        0 <= i < bs1.len(),
        0 <= i < bs2.len(),
        bs1[i] == bs2[i],
    ensures
        spec_findings_for_each(bs1)[i] == spec_findings_for_each(bs2)[i],
{
    assert(spec_findings_for_each(bs1)[i] == spec_findings(bs1[i]));
    assert(spec_findings_for_each(bs2)[i] == spec_findings(bs2[i]));
}

} // verus!
