//! Conditional lowering, first stage: the ternary's branches decide the
//! tier.  Two null-or-undefined branches render nothing at all; two
//! constant branches need no component and collapse to a plain or
//! watched text render with the empty string standing in for a dropped
//! branch; anything else must be rebuilt as a conditional component.

use vstd::prelude::*;

use crate::ast::{dup_expr, ev, evr, sz_expr, Expr, GExpr, GLit, Lit};
use crate::diag::Diag;
use crate::expr::{parse_resultv, spec_analyze, ExprParseResult, ExprVisitor, GParseResult};
use crate::tpl::{spec_tpl_render_const_text, spec_tpl_render_expr_text};

verus! {

/// Is the branch the literal `null` or the identifier `undefined`?
/// Either renders nothing and is dropped from the lowered form.
pub open spec fn spec_is_null_undef(e: GExpr) -> bool {
    ||| e == GExpr::Lit(GLit::Null)
    ||| e == GExpr::Ident(crate::names::n_undefined())
}

pub fn is_null_undef(e: &Expr) -> (r: bool)
    ensures
        r == spec_is_null_undef(evr(e)),
{
    match e {
        Expr::Lit(Lit::Null) => true,
        Expr::Ident(id) => {
            proof {
                assert((*e)->Ident_0 == *id);
            }
            let u = crate::names::s_undefined();
            crate::sym::sym_eq(id, &u)
        }
        _ => {
            proof {
                match e {
                    Expr::Lit(l) => {
                        match l {
                            Lit::Str(_) => {}
                            Lit::Num(_) => {}
                            Lit::Bool(_) => {}
                            Lit::Null => {}
                            Lit::BigInt(_) => {}
                            Lit::JsxText(_) => {}
                        }
                    }
                    _ => {}
                }
            }
            false
        }
    }
}

/// Is the branch a plain literal?  Together with null/undefined this
/// admits the lightweight no-component tier.
pub open spec fn spec_is_lit(e: GExpr) -> bool {
    e is Lit
}

fn is_lit(e: &Expr) -> (r: bool)
    ensures
        r == spec_is_lit(evr(e)),
{
    matches!(e, Expr::Lit(_))
}

/// The three tiers of conditional lowering.
#[verifier::ext_equal]
pub ghost enum GCondTier {
    /// Both branches render nothing: the whole ternary is dropped.
    Nothing,
    /// Both branches are constant: a plain or watched text render.
    Lite,
    /// A branch holds real content: a conditional component is needed.
    Component,
}

pub open spec fn spec_cond_tier(cons: GExpr, alt: GExpr) -> GCondTier {
    if spec_is_null_undef(cons) && spec_is_null_undef(alt) {
        GCondTier::Nothing
    } else if (spec_is_lit(cons) || spec_is_null_undef(cons)) && (spec_is_lit(alt)
        || spec_is_null_undef(alt)) {
        GCondTier::Lite
    } else {
        GCondTier::Component
    }
}

/// A dropped branch renders as the empty string in the lite tier.
pub open spec fn spec_cond_branch(e: GExpr) -> GExpr {
    if spec_is_null_undef(e) {
        GExpr::Lit(GLit::Str(Seq::empty()))
    } else {
        e
    }
}

/// The lite-tier output: the ternary over the substituted branches,
/// rendered as constant text when the test has no reactive dependency,
/// else as watched text over the ternary with the watched value in test
/// position.
pub open spec fn spec_cond_lite_out(
    test: GExpr,
    cons: GExpr,
    alt: GExpr,
    is_parent_component: bool,
    root: bool,
) -> GExpr {
    let cons2 = spec_cond_branch(cons);
    let alt2 = spec_cond_branch(alt);
    match spec_analyze(test, Seq::empty()) {
        GParseResult::NoDep => spec_tpl_render_const_text(
            GExpr::Cond(Box::new(test), Box::new(cons2), Box::new(alt2)),
            is_parent_component,
            root,
        ),
        pr => spec_tpl_render_expr_text(
            pr,
            GExpr::Cond(
                Box::new(GExpr::Ident(crate::names::n_v())),
                Box::new(cons2),
                Box::new(alt2),
            ),
            is_parent_component,
            root,
        ),
    }
}

/// What the first stage decides for a ternary: nothing at all, the
/// exact lite-tier render expression, or the request to rebuild the
/// branches as a conditional component.
pub enum CondLower {
    Nothing,
    Lite(Expr),
    Component,
}

pub open spec fn cond_lowerv(r: CondLower) -> GCondTier {
    match r {
        CondLower::Nothing => GCondTier::Nothing,
        CondLower::Lite(_) => GCondTier::Lite,
        CondLower::Component => GCondTier::Component,
    }
}

/// Decide the tier of `test ? cons : alt` and, in the lite tier, build
/// the render expression.  Dropping both-null ternaries and collapsing
/// constant branches keeps the output minimal; real content is left for
/// the conditional-component path.
pub fn lower_cond(
    test: &Expr,
    cons: &Expr,
    alt: &Expr,
    is_parent_component: bool,
    root: bool,
    diags: &mut Vec<Diag>,
) -> (r: CondLower)
    requires
        sz_expr(*test) <= usize::MAX,
    ensures
        cond_lowerv(r) == spec_cond_tier(evr(cons), evr(alt)),
        match r {
            CondLower::Lite(out) => ev(out) == spec_cond_lite_out(
                evr(test),
                evr(cons),
                evr(alt),
                is_parent_component,
                root,
            ),
            _ => true,
        },
        crate::diag::extends(final(diags)@, old(diags)@),
{
    proof {
        crate::diag::lemma_extends_refl(diags@);
    }
    let cons_nu = is_null_undef(cons);
    let alt_nu = is_null_undef(alt);
    if cons_nu && alt_nu {
        return CondLower::Nothing;
    }
    if (is_lit(cons) || cons_nu) && (is_lit(alt) || alt_nu) {
        let cons2 = if cons_nu {
            let v: Vec<char> = Vec::new();
            proof {
                assert(v@ =~= Seq::<char>::empty());
            }
            Expr::Lit(Lit::Str(v))
        } else {
            dup_expr(cons)
        };
        let alt2 = if alt_nu {
            let v: Vec<char> = Vec::new();
            proof {
                assert(v@ =~= Seq::<char>::empty());
            }
            Expr::Lit(Lit::Str(v))
        } else {
            dup_expr(alt)
        };
        proof {
            assert(ev(cons2) == spec_cond_branch(evr(cons)));
            assert(ev(alt2) == spec_cond_branch(evr(alt)));
        }
        let mut v = ExprVisitor::new();
        let pr = v.parse(test);
        proof {
            assert(crate::sym::symsv(v.exclude_roots@) =~= Seq::<Seq<char>>::empty());
        }
        let ghost pre = diags@;
        let mut vd = v.diags;
        let ghost gvd = vd@;
        diags.append(&mut vd);
        proof {
            crate::diag::lemma_extends_append(pre, gvd);
        }
        let out = match pr {
            ExprParseResult::NoDep => {
                let c = Expr::Cond(Box::new(dup_expr(test)), Box::new(cons2), Box::new(alt2));
                proof {
                    assert(ev(c) == GExpr::Cond(
                        Box::new(evr(test)),
                        Box::new(spec_cond_branch(evr(cons))),
                        Box::new(spec_cond_branch(evr(alt))),
                    ));
                }
                crate::tpl::tpl_render_const_text(c, is_parent_component, root)
            }
            pr => {
                let vid = crate::ast::ast_create_expr_ident(crate::names::s_v());
                proof {
                    assert(ev(vid) == GExpr::Ident(crate::names::n_v()));
                }
                let c = Expr::Cond(Box::new(vid), Box::new(cons2), Box::new(alt2));
                proof {
                    assert(ev(c) == GExpr::Cond(
                        Box::new(GExpr::Ident(crate::names::n_v())),
                        Box::new(spec_cond_branch(evr(cons))),
                        Box::new(spec_cond_branch(evr(alt))),
                    ));
                }
                crate::tpl::tpl_render_expr_text(pr, c, is_parent_component, root)
            }
        };
        return CondLower::Lite(out);
    }
    CondLower::Component
}

} // verus!
