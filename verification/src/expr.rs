//! The watch-expression analyzer: given an arbitrary expression it
//! decides whether the expression depends on reactive state and, if so,
//! whether one cheap single-path watcher suffices or a general
//! multi-path watcher is needed.
//!
//! The specification half mirrors every step over the ghost tree: which
//! member chains register as watch targets (`spec_mchain`, `spec_walk`),
//! what watcher expression each chain builds (`spec_built_watcher`), how
//! the evaluator body is synthesized (`spec_rep`), and the final
//! three-way classification (`spec_analyze`).

use vstd::prelude::*;

use crate::ast::{
    evr, argsv, attrsv, attrv, bodyv, childsv, childv, elemv, ev, exprsv, mpropv, patsv, propsv, propv,
    stmtsv, stmtv, sz_args, sz_attr, sz_attrs, sz_body, sz_child, sz_childs, sz_elem, sz_expr,
    sz_arg, sz_mprop, sz_prop, sz_props, sz_stmt, sz_stmts, argv, lemma_argsv, lemma_attrsv, lemma_childsv, lemma_exprsv, lemma_patsv, lemma_propsv, lemma_stmtsv, dup_expr, Arg, ArrowBody, Expr, GArg, GArrowBody, GExpr,
    GJsxAttr, GJsxAttrOrSpread, GJsxAttrValue, GJsxChild, GJsxElement, GLit, GMemberProp, GPat,
    GProp, GPropKey, GStmt, JsxAttrOrSpread, JsxAttrValue, JsxChild, JsxElement, Lit, MemberProp,
    Pat, Prop, PropKey, Stmt, UnOp,
};

verus! {

/// A name is private by convention when it starts with an underscore;
/// such a segment silently excludes its chain from watching.
pub open spec fn spec_private(s: Seq<char>) -> bool {
    s.len() > 0 && s[0] == '_'
}

/// Is `id` one of the locally-bound names that must not be treated as a
/// reactive root?
pub open spec fn spec_excluded(xs: Seq<Seq<char>>, id: Seq<char>) -> bool {
    exists|i: int| 0 <= i < xs.len() && xs[i] == id
}

/// One registered watch target: the chain's root, its built path
/// segment expressions, and whether any segment is computed.
#[verifier::ext_equal]
pub ghost struct GChainInfo {
    pub is_this: bool,
    pub root: Seq<char>,
    pub segs: Seq<GExpr>,
    pub computed: bool,
}

/// The outcome of walking one member chain.
#[verifier::ext_equal]
pub ghost enum GChainOut {
    /// Silently discarded: an excluded or private-prefixed name.
    Drop,
    /// Discarded with a diagnostic: an unsupported form.
    Bad,
    Got(GChainInfo),
}

/// The decimal spelling of `n`.
pub open spec fn spec_digits(n: nat) -> Seq<char>
    decreases n,
{
    let d = seq![
        ((n % 10) + ('0' as nat)) as char,
    ];
    if n < 10 {
        d
    } else {
        spec_digits(n / 10) + d
    }
}

/// The evaluator parameter name for target `i`: `a0`, `a1`, ...
pub open spec fn spec_param(i: nat) -> Seq<char> {
    seq!['a'] + spec_digits(i)
}

pub open spec fn spec_params(n: nat) -> Seq<GPat>
    decreases n,
{
    if n == 0 {
        Seq::empty()
    } else {
        spec_params((n - 1) as nat).push(GPat::Id(spec_param((n - 1) as nat)))
    }
}

/// The root expression a chain watches: the implicit receiver or a named
/// outer identifier.
pub open spec fn spec_target(ci: GChainInfo) -> GExpr {
    if ci.is_this {
        GExpr::This
    } else {
        GExpr::Ident(ci.root)
    }
}

pub open spec fn spec_args_of(es: Seq<GExpr>) -> Seq<GArg> {
    es.map_values(|e: GExpr| GArg { spread: false, expr: e })
}

/// The watcher call built for one chain: a plain path watcher, or the
/// dynamic-path watcher when a segment is computed; at the outermost
/// level a trailing `true` marks the watcher as immediate.
pub open spec fn spec_built_watcher(ci: GChainInfo, level: nat) -> GExpr {
    let callee = if ci.computed {
        GExpr::Ident(crate::names::n_local_dym_path_watcher())
    } else {
        GExpr::Ident(crate::names::n_local_path_watcher())
    };
    let base = seq![
        GArg { spread: false, expr: spec_target(ci) },
        GArg { spread: false, expr: GExpr::Array(spec_args_of(ci.segs)) },
    ];
    let args = if level == 0 {
        base.push(GArg { spread: false, expr: GExpr::Lit(GLit::Bool(true)) })
    } else {
        base
    };
    GExpr::Call(Box::new(callee), args)
}

// ---------------------------------------------------------------------
// The chain walker.
// ---------------------------------------------------------------------

/// Walk one member expression to its root, collecting one path segment
/// per access.  `e` must be a `Member`; anything else cannot root a
/// chain.
pub open spec fn spec_mchain(e: GExpr, level: nat, xs: Seq<Seq<char>>) -> GChainOut
    decreases e, 1int,
{
    match e {
        GExpr::Member(obj, prop) => {
            match spec_mchain_base(*obj, level, xs) {
                GChainOut::Got(ci) => spec_mchain_prop(ci, prop, level, xs),
                GChainOut::Drop => GChainOut::Drop,
                GChainOut::Bad => GChainOut::Bad,
            }
        }
        _ => GChainOut::Bad,
    }
}

/// Resolve the object side of a member access to a chain root.
pub open spec fn spec_mchain_base(obj: GExpr, level: nat, xs: Seq<Seq<char>>) -> GChainOut
    decreases obj, 2int,
{
    match obj {
        GExpr::This => GChainOut::Got(
            GChainInfo { is_this: true, root: Seq::empty(), segs: Seq::empty(), computed: false },
        ),
        GExpr::Ident(id) => if spec_excluded(xs, id) || spec_private(id) {
            GChainOut::Drop
        } else {
            GChainOut::Got(
                GChainInfo { is_this: false, root: id, segs: Seq::empty(), computed: false },
            )
        },
        GExpr::Member(_, _) => spec_mchain(obj, level, xs),
        GExpr::OptChain(_) => GChainOut::Bad,
        GExpr::Call(_, _) => GChainOut::Bad,
        _ => GChainOut::Bad,
    }
}

/// Add the property of the outermost access to a resolved chain.
pub open spec fn spec_mchain_prop(
    ci: GChainInfo,
    prop: GMemberProp,
    level: nat,
    xs: Seq<Seq<char>>,
) -> GChainOut
    decreases prop,
{
    match prop {
        GMemberProp::Ident(name) => if spec_private(name) {
            GChainOut::Drop
        } else {
            GChainOut::Got(
                GChainInfo {
                    segs: ci.segs.push(GExpr::Lit(GLit::Str(name))),
                    ..ci
                },
            )
        },
        GMemberProp::Private(_) => GChainOut::Bad,
        GMemberProp::Computed(ce) => match *ce {
            GExpr::Lit(GLit::Str(s)) => if spec_private(s) {
                GChainOut::Drop
            } else {
                GChainOut::Got(
                    GChainInfo { segs: ci.segs.push(GExpr::Lit(GLit::Str(s))), ..ci },
                )
            },
            GExpr::Lit(GLit::Num(n)) => GChainOut::Got(
                GChainInfo { segs: ci.segs.push(GExpr::Lit(GLit::Num(n))), ..ci },
            ),
            GExpr::Lit(_) => GChainOut::Bad,
            _ => match spec_inner_built(*ce, (level + 1) as nat, xs) {
                Some(w) => GChainOut::Got(
                    GChainInfo { segs: ci.segs.push(w), computed: true, ..ci },
                ),
                None => GChainOut::Bad,
            },
        },
    }
}

// ---------------------------------------------------------------------
// The traversal: every member chain found in an expression, in
// discovery order.  The walk does not descend into a member expression
// beyond its own chain.
// ---------------------------------------------------------------------

pub open spec fn spec_walk(e: GExpr, level: nat, xs: Seq<Seq<char>>) -> Seq<GChainInfo>
    decreases e, 2int,
{
    match e {
        GExpr::Member(_, _) => match spec_mchain(e, level, xs) {
            GChainOut::Got(ci) => seq![ci],
            _ => Seq::empty(),
        },
        GExpr::OptChain(b) => spec_walk(*b, level, xs),
        GExpr::Unary(_, b) => spec_walk(*b, level, xs),
        GExpr::Bin(_, l, r) => spec_walk(*l, level, xs) + spec_walk(*r, level, xs),
        GExpr::Cond(t, c, a) => spec_walk(*t, level, xs) + spec_walk(*c, level, xs) + spec_walk(
            *a,
            level,
            xs,
        ),
        GExpr::Call(callee, args) => spec_walk(*callee, level, xs) + spec_walk_args(
            args,
            level,
            xs,
        ),
        GExpr::Paren(b) => spec_walk(*b, level, xs),
        GExpr::Assign(t, v) => spec_walk(*t, level, xs) + spec_walk(*v, level, xs),
        GExpr::Arrow(_, body) => spec_walk_body(*body, level, xs),
        GExpr::Fn(_, _, body) => spec_walk_stmts(body, level, xs),
        GExpr::Object(props) => spec_walk_props(props, level, xs),
        GExpr::Array(elems) => spec_walk_args(elems, level, xs),
        GExpr::Jsx(el) => spec_walk_elem(*el, level, xs),
        GExpr::JsxFragment(cs) => spec_walk_childs(cs, level, xs),
        _ => Seq::empty(),
    }
}

pub open spec fn spec_walk_args(s: Seq<GArg>, level: nat, xs: Seq<Seq<char>>) -> Seq<GChainInfo>
    decreases s, 3int,
{
    if s.len() == 0 {
        Seq::empty()
    } else {
        spec_walk_args(s.drop_last(), level, xs) + spec_walk(s.last().expr, level, xs)
    }
}

pub open spec fn spec_walk_body(b: GArrowBody, level: nat, xs: Seq<Seq<char>>) -> Seq<GChainInfo>
    decreases b, 3int,
{
    match b {
        GArrowBody::Expr(e) => spec_walk(*e, level, xs),
        GArrowBody::Block(ss) => spec_walk_stmts(ss, level, xs),
    }
}

pub open spec fn spec_walk_stmts(s: Seq<GStmt>, level: nat, xs: Seq<Seq<char>>) -> Seq<GChainInfo>
    decreases s, 3int,
{
    if s.len() == 0 {
        Seq::empty()
    } else {
        spec_walk_stmts(s.drop_last(), level, xs) + spec_walk_stmt(s.last(), level, xs)
    }
}

pub open spec fn spec_walk_stmt(s: GStmt, level: nat, xs: Seq<Seq<char>>) -> Seq<GChainInfo>
    decreases s, 2int,
{
    match s {
        GStmt::ConstDecl(_, e) => spec_walk(e, level, xs),
        GStmt::Expr(e) => spec_walk(e, level, xs),
        GStmt::Ret(e) => match e {
            Some(e) => spec_walk(e, level, xs),
            None => Seq::empty(),
        },
        GStmt::FnDecl(_, _, body) => spec_walk_stmts(body, level, xs),
    }
}

pub open spec fn spec_walk_props(s: Seq<GProp>, level: nat, xs: Seq<Seq<char>>) -> Seq<GChainInfo>
    decreases s, 3int,
{
    if s.len() == 0 {
        Seq::empty()
    } else {
        spec_walk_props(s.drop_last(), level, xs) + spec_walk_prop(s.last(), level, xs)
    }
}

pub open spec fn spec_walk_prop(p: GProp, level: nat, xs: Seq<Seq<char>>) -> Seq<GChainInfo>
    decreases p, 2int,
{
    match p {
        GProp::KV(k, v) => (match k {
            GPropKey::Computed(e) => spec_walk(e, level, xs),
            _ => Seq::empty(),
        }) + spec_walk(v, level, xs),
        GProp::Spread(e) => spec_walk(e, level, xs),
        GProp::Other => Seq::empty(),
    }
}

pub open spec fn spec_walk_elem(el: GJsxElement, level: nat, xs: Seq<Seq<char>>) -> Seq<
    GChainInfo,
>
    decreases el, 3int,
{
    spec_walk_attrs(el.attrs, level, xs) + spec_walk_childs(el.children, level, xs)
}

pub open spec fn spec_walk_attrs(
    s: Seq<GJsxAttrOrSpread>,
    level: nat,
    xs: Seq<Seq<char>>,
) -> Seq<GChainInfo>
    decreases s, 3int,
{
    if s.len() == 0 {
        Seq::empty()
    } else {
        spec_walk_attrs(s.drop_last(), level, xs) + spec_walk_attr(s.last(), level, xs)
    }
}

pub open spec fn spec_walk_attr(a: GJsxAttrOrSpread, level: nat, xs: Seq<Seq<char>>) -> Seq<
    GChainInfo,
>
    decreases a, 2int,
{
    match a {
        GJsxAttrOrSpread::Attr(at) => match at.value {
            Some(GJsxAttrValue::Container(Some(e))) => spec_walk(e, level, xs),
            _ => Seq::empty(),
        },
        GJsxAttrOrSpread::Spread(e) => spec_walk(e, level, xs),
    }
}

pub open spec fn spec_walk_childs(s: Seq<GJsxChild>, level: nat, xs: Seq<Seq<char>>) -> Seq<
    GChainInfo,
>
    decreases s, 3int,
{
    if s.len() == 0 {
        Seq::empty()
    } else {
        spec_walk_childs(s.drop_last(), level, xs) + spec_walk_child(s.last(), level, xs)
    }
}

pub open spec fn spec_walk_child(c: GJsxChild, level: nat, xs: Seq<Seq<char>>) -> Seq<GChainInfo>
    decreases c, 2int,
{
    match c {
        GJsxChild::Element(el) => spec_walk_elem(el, level, xs),
        GJsxChild::Fragment(cs) => spec_walk_childs(cs, level, xs),
        GJsxChild::Text(_) => Seq::empty(),
        GJsxChild::Container(e) => match e {
            Some(e) => spec_walk(e, level, xs),
            None => Seq::empty(),
        },
    }
}

// ---------------------------------------------------------------------
// The evaluator body: every registered member chain replaced by the
// next positional parameter, in discovery order.  `k` counts the
// parameters handed out so far.
// ---------------------------------------------------------------------

pub open spec fn spec_rep(e: GExpr, level: nat, xs: Seq<Seq<char>>, k: nat) -> (GExpr, nat)
    decreases e, 2int,
{
    match e {
        GExpr::Member(_, _) => match spec_mchain(e, level, xs) {
            GChainOut::Got(_) => (GExpr::Ident(spec_param(k)), k + 1),
            _ => (e, k),
        },
        GExpr::OptChain(b) => {
            let (r, k2) = spec_rep(*b, level, xs, k);
            (GExpr::OptChain(Box::new(r)), k2)
        }
        GExpr::Unary(op, b) => {
            let (r, k2) = spec_rep(*b, level, xs, k);
            (GExpr::Unary(op, Box::new(r)), k2)
        }
        GExpr::Bin(op, l, r) => {
            let (rl, k2) = spec_rep(*l, level, xs, k);
            let (rr, k3) = spec_rep(*r, level, xs, k2);
            (GExpr::Bin(op, Box::new(rl), Box::new(rr)), k3)
        }
        GExpr::Cond(t, c, a) => {
            let (rt, k2) = spec_rep(*t, level, xs, k);
            let (rc, k3) = spec_rep(*c, level, xs, k2);
            let (ra, k4) = spec_rep(*a, level, xs, k3);
            (GExpr::Cond(Box::new(rt), Box::new(rc), Box::new(ra)), k4)
        }
        GExpr::Call(callee, args) => {
            let (rc, k2) = spec_rep(*callee, level, xs, k);
            let (ra, k3) = spec_rep_args(args, level, xs, k2);
            (GExpr::Call(Box::new(rc), ra), k3)
        }
        GExpr::Paren(b) => {
            let (r, k2) = spec_rep(*b, level, xs, k);
            (GExpr::Paren(Box::new(r)), k2)
        }
        GExpr::Assign(t, v) => {
            let (rt, k2) = spec_rep(*t, level, xs, k);
            let (rv, k3) = spec_rep(*v, level, xs, k2);
            (GExpr::Assign(Box::new(rt), Box::new(rv)), k3)
        }
        GExpr::Arrow(ps, body) => {
            let (r, k2) = spec_rep_body(*body, level, xs, k);
            (GExpr::Arrow(ps, Box::new(r)), k2)
        }
        GExpr::Fn(n, ps, body) => {
            let (r, k2) = spec_rep_stmts(body, level, xs, k);
            (GExpr::Fn(n, ps, r), k2)
        }
        GExpr::Object(props) => {
            let (r, k2) = spec_rep_props(props, level, xs, k);
            (GExpr::Object(r), k2)
        }
        GExpr::Array(elems) => {
            let (r, k2) = spec_rep_args(elems, level, xs, k);
            (GExpr::Array(r), k2)
        }
        GExpr::Jsx(el) => {
            let (r, k2) = spec_rep_elem(*el, level, xs, k);
            (GExpr::Jsx(Box::new(r)), k2)
        }
        GExpr::JsxFragment(cs) => {
            let (r, k2) = spec_rep_childs(cs, level, xs, k);
            (GExpr::JsxFragment(r), k2)
        }
        _ => (e, k),
    }
}

pub open spec fn spec_rep_args(s: Seq<GArg>, level: nat, xs: Seq<Seq<char>>, k: nat) -> (
    Seq<GArg>,
    nat,
)
    decreases s, 3int,
{
    if s.len() == 0 {
        (Seq::empty(), k)
    } else {
        let (rs, k2) = spec_rep_args(s.drop_last(), level, xs, k);
        let (r, k3) = spec_rep(s.last().expr, level, xs, k2);
        (rs.push(GArg { spread: s.last().spread, expr: r }), k3)
    }
}

pub open spec fn spec_rep_body(b: GArrowBody, level: nat, xs: Seq<Seq<char>>, k: nat) -> (
    GArrowBody,
    nat,
)
    decreases b, 3int,
{
    match b {
        GArrowBody::Expr(e) => {
            let (r, k2) = spec_rep(*e, level, xs, k);
            (GArrowBody::Expr(Box::new(r)), k2)
        }
        GArrowBody::Block(ss) => {
            let (r, k2) = spec_rep_stmts(ss, level, xs, k);
            (GArrowBody::Block(r), k2)
        }
    }
}

pub open spec fn spec_rep_stmts(s: Seq<GStmt>, level: nat, xs: Seq<Seq<char>>, k: nat) -> (
    Seq<GStmt>,
    nat,
)
    decreases s, 3int,
{
    if s.len() == 0 {
        (Seq::empty(), k)
    } else {
        let (rs, k2) = spec_rep_stmts(s.drop_last(), level, xs, k);
        let (r, k3) = spec_rep_stmt(s.last(), level, xs, k2);
        (rs.push(r), k3)
    }
}

pub open spec fn spec_rep_stmt(s: GStmt, level: nat, xs: Seq<Seq<char>>, k: nat) -> (GStmt, nat)
    decreases s, 2int,
{
    match s {
        GStmt::ConstDecl(n, e) => {
            let (r, k2) = spec_rep(e, level, xs, k);
            (GStmt::ConstDecl(n, r), k2)
        }
        GStmt::Expr(e) => {
            let (r, k2) = spec_rep(e, level, xs, k);
            (GStmt::Expr(r), k2)
        }
        GStmt::Ret(e) => match e {
            Some(e) => {
                let (r, k2) = spec_rep(e, level, xs, k);
                (GStmt::Ret(Some(r)), k2)
            }
            None => (GStmt::Ret(None), k),
        },
        GStmt::FnDecl(n, ps, body) => {
            let (r, k2) = spec_rep_stmts(body, level, xs, k);
            (GStmt::FnDecl(n, ps, r), k2)
        }
    }
}

pub open spec fn spec_rep_props(s: Seq<GProp>, level: nat, xs: Seq<Seq<char>>, k: nat) -> (
    Seq<GProp>,
    nat,
)
    decreases s, 3int,
{
    if s.len() == 0 {
        (Seq::empty(), k)
    } else {
        let (rs, k2) = spec_rep_props(s.drop_last(), level, xs, k);
        let (r, k3) = spec_rep_prop(s.last(), level, xs, k2);
        (rs.push(r), k3)
    }
}

pub open spec fn spec_rep_prop(p: GProp, level: nat, xs: Seq<Seq<char>>, k: nat) -> (GProp, nat)
    decreases p, 2int,
{
    match p {
        GProp::KV(key, v) => {
            let (rk, k2) = match key {
                GPropKey::Computed(e) => {
                    let (r, k2) = spec_rep(e, level, xs, k);
                    (GPropKey::Computed(r), k2)
                }
                _ => (key, k),
            };
            let (rv, k3) = spec_rep(v, level, xs, k2);
            (GProp::KV(rk, rv), k3)
        }
        GProp::Spread(e) => {
            let (r, k2) = spec_rep(e, level, xs, k);
            (GProp::Spread(r), k2)
        }
        GProp::Other => (GProp::Other, k),
    }
}

pub open spec fn spec_rep_elem(el: GJsxElement, level: nat, xs: Seq<Seq<char>>, k: nat) -> (
    GJsxElement,
    nat,
)
    decreases el, 3int,
{
    let (ra, k2) = spec_rep_attrs(el.attrs, level, xs, k);
    let (rc, k3) = spec_rep_childs(el.children, level, xs, k2);
    (GJsxElement { name: el.name, attrs: ra, children: rc }, k3)
}

pub open spec fn spec_rep_attrs(
    s: Seq<GJsxAttrOrSpread>,
    level: nat,
    xs: Seq<Seq<char>>,
    k: nat,
) -> (Seq<GJsxAttrOrSpread>, nat)
    decreases s, 3int,
{
    if s.len() == 0 {
        (Seq::empty(), k)
    } else {
        let (rs, k2) = spec_rep_attrs(s.drop_last(), level, xs, k);
        let (r, k3) = spec_rep_attr(s.last(), level, xs, k2);
        (rs.push(r), k3)
    }
}

pub open spec fn spec_rep_attr(a: GJsxAttrOrSpread, level: nat, xs: Seq<Seq<char>>, k: nat) -> (
    GJsxAttrOrSpread,
    nat,
)
    decreases a, 2int,
{
    match a {
        GJsxAttrOrSpread::Attr(at) => match at.value {
            Some(GJsxAttrValue::Container(Some(e))) => {
                let (r, k2) = spec_rep(e, level, xs, k);
                (
                    GJsxAttrOrSpread::Attr(
                        GJsxAttr { name: at.name, value: Some(GJsxAttrValue::Container(Some(r))) },
                    ),
                    k2,
                )
            }
            _ => (a, k),
        },
        GJsxAttrOrSpread::Spread(e) => {
            let (r, k2) = spec_rep(e, level, xs, k);
            (GJsxAttrOrSpread::Spread(r), k2)
        }
    }
}

pub open spec fn spec_rep_childs(s: Seq<GJsxChild>, level: nat, xs: Seq<Seq<char>>, k: nat) -> (
    Seq<GJsxChild>,
    nat,
)
    decreases s, 3int,
{
    if s.len() == 0 {
        (Seq::empty(), k)
    } else {
        let (rs, k2) = spec_rep_childs(s.drop_last(), level, xs, k);
        let (r, k3) = spec_rep_child(s.last(), level, xs, k2);
        (rs.push(r), k3)
    }
}

pub open spec fn spec_rep_child(c: GJsxChild, level: nat, xs: Seq<Seq<char>>, k: nat) -> (
    GJsxChild,
    nat,
)
    decreases c, 2int,
{
    match c {
        GJsxChild::Element(el) => {
            let (r, k2) = spec_rep_elem(el, level, xs, k);
            (GJsxChild::Element(r), k2)
        }
        GJsxChild::Fragment(cs) => {
            let (r, k2) = spec_rep_childs(cs, level, xs, k);
            (GJsxChild::Fragment(r), k2)
        }
        GJsxChild::Text(_) => (c, k),
        GJsxChild::Container(e) => match e {
            Some(e) => {
                let (r, k2) = spec_rep(e, level, xs, k);
                (GJsxChild::Container(Some(r)), k2)
            }
            None => (c, k),
        },
    }
}

// ---------------------------------------------------------------------
// Assembly: the multi-path form, the inner form used for computed path
// segments, and the final classification.
// ---------------------------------------------------------------------

pub open spec fn spec_built_list(cs: Seq<GChainInfo>, level: nat) -> Seq<GExpr> {
    cs.map_values(|ci: GChainInfo| spec_built_watcher(ci, level))
}

/// The general multi-path form: an expression watcher over the list of
/// built watchers and an evaluator taking one parameter per target;
/// except that a bare single registered access needs no wrapping.
pub open spec fn spec_covert(e: GExpr, cs: Seq<GChainInfo>, level: nat, xs: Seq<Seq<char>>) -> GExpr
    decreases e, 3int,
{
    let (body, k) = spec_rep(e, level, xs, 0);
    if cs.len() == 1 && body is Ident {
        spec_built_watcher(cs[0], level)
    } else {
        GExpr::Call(
            Box::new(GExpr::Ident(crate::names::n_local_expr_watcher())),
            seq![
                GArg { spread: false, expr: GExpr::Array(spec_args_of(spec_built_list(cs, level))) },
                GArg {
                    spread: false,
                    expr: GExpr::Arrow(spec_params(k), Box::new(GArrowBody::Expr(Box::new(body)))),
                },
            ],
        )
    }
}

/// The watcher expression a computed path segment contributes, if its
/// inner expression registers any target at all.
pub open spec fn spec_inner_built(e: GExpr, level: nat, xs: Seq<Seq<char>>) -> Option<GExpr>
    decreases e, 4int,
{
    let cs = spec_walk(e, level, xs);
    if cs.len() == 0 {
        None
    } else if e is Member {
        Some(spec_built_watcher(cs.last(), level))
    } else {
        Some(spec_covert(e, cs, level, xs))
    }
}

/// The negation arity when the whole expression is a bare access or its
/// single or double negation; `-1` otherwise.
pub open spec fn spec_not_op(e: GExpr) -> int {
    if e is Member {
        0
    } else if e is Unary && e->Unary_0 is Not {
        let i1 = *e->Unary_1;
        if i1 is Member {
            1
        } else if i1 is Unary && i1->Unary_0 is Not {
            if *i1->Unary_1 is Member {
                2
            } else {
                -1
            }
        } else {
            -1
        }
    } else {
        -1
    }
}

/// The analyzer's three-way result, mirrored.
#[verifier::ext_equal]
pub ghost enum GParseResult {
    NoDep,
    Simple { vm: GExpr, is_this: bool, path: GExpr, not_op: int },
    Complex(GExpr),
}

/// The whole classification: no registered target means no reactive
/// dependency; exactly one uncomputed target in a bare or negated
/// access is the simple tier; anything else is the complex tier.
#[verifier::opaque]
pub open spec fn spec_analyze(e: GExpr, xs: Seq<Seq<char>>) -> GParseResult {
    let cs = spec_walk(e, 0, xs);
    if cs.len() == 0 {
        GParseResult::NoDep
    } else if cs.len() == 1 && !cs[0].computed && spec_not_op(e) >= 0 {
        GParseResult::Simple {
            vm: spec_target(cs[0]),
            is_this: cs[0].is_this,
            path: GExpr::Array(spec_args_of(cs[0].segs)),
            not_op: spec_not_op(e),
        }
    } else {
        GParseResult::Complex(spec_covert(e, cs, 0, xs))
    }
}

// ---------------------------------------------------------------------
// Bounds on the parameter counter: replacing hands out at most one
// parameter per node.
// ---------------------------------------------------------------------

pub proof fn lemma_rep_k(e: Expr, level: nat, xs: Seq<Seq<char>>, k: nat)
    ensures
        k <= spec_rep(ev(e), level, xs, k).1 <= k + sz_expr(e),
    decreases sz_expr(e), 2int,
{
    match e {
        Expr::Member(_, _) => {}
        Expr::OptChain(b) => lemma_rep_k(*b, level, xs, k),
        Expr::Unary(_, b) => lemma_rep_k(*b, level, xs, k),
        Expr::Bin(_, l, r) => {
            lemma_rep_k(*l, level, xs, k);
            lemma_rep_k(*r, level, xs, spec_rep(ev(*l), level, xs, k).1);
        }
        Expr::Cond(t, c, a) => {
            lemma_rep_k(*t, level, xs, k);
            let k2 = spec_rep(ev(*t), level, xs, k).1;
            lemma_rep_k(*c, level, xs, k2);
            let k3 = spec_rep(ev(*c), level, xs, k2).1;
            lemma_rep_k(*a, level, xs, k3);
        }
        Expr::Call(callee, args) => {
            lemma_rep_k(*callee, level, xs, k);
            lemma_rep_k_args(args@, level, xs, spec_rep(ev(*callee), level, xs, k).1);
        }
        Expr::Paren(b) => lemma_rep_k(*b, level, xs, k),
        Expr::Assign(t, v) => {
            lemma_rep_k(*t, level, xs, k);
            lemma_rep_k(*v, level, xs, spec_rep(ev(*t), level, xs, k).1);
        }
        Expr::Arrow(_, body) => lemma_rep_k_body(*body, level, xs, k),
        Expr::Fn(_, _, body) => lemma_rep_k_stmts(body@, level, xs, k),
        Expr::Object(props) => lemma_rep_k_props(props@, level, xs, k),
        Expr::Array(elems) => lemma_rep_k_args(elems@, level, xs, k),
        Expr::Jsx(el) => lemma_rep_k_elem(*el, level, xs, k),
        Expr::JsxFragment(cs) => lemma_rep_k_childs(cs@, level, xs, k),
        _ => {}
    }
}

pub proof fn lemma_rep_k_args(s: Seq<Arg>, level: nat, xs: Seq<Seq<char>>, k: nat)
    ensures
        k <= spec_rep_args(argsv(s), level, xs, k).1 <= k + sz_args(s),
    decreases sz_args(s), 3int,
{
    if s.len() > 0 {
        assert(sz_args(s) == sz_args(s.drop_last()) + sz_arg(s.last()));
        assert(argsv(s) == argsv(s.drop_last()).push(crate::ast::argv(s.last())));
        lemma_rep_k_args(s.drop_last(), level, xs, k);
        let k2 = spec_rep_args(argsv(s.drop_last()), level, xs, k).1;
        lemma_rep_k(s.last().expr, level, xs, k2);
        assert(argsv(s).drop_last() =~= argsv(s.drop_last()));
        assert(argsv(s).last().expr == ev(s.last().expr));
    } else {
        assert(argsv(s).len() == 0);
    }
}

pub proof fn lemma_rep_k_body(b: ArrowBody, level: nat, xs: Seq<Seq<char>>, k: nat)
    ensures
        k <= spec_rep_body(bodyv(b), level, xs, k).1 <= k + sz_body(b),
    decreases sz_body(b), 3int,
{
    match b {
        ArrowBody::Expr(e) => lemma_rep_k(*e, level, xs, k),
        ArrowBody::Block(ss) => lemma_rep_k_stmts(ss@, level, xs, k),
    }
}

pub proof fn lemma_rep_k_stmts(s: Seq<Stmt>, level: nat, xs: Seq<Seq<char>>, k: nat)
    ensures
        k <= spec_rep_stmts(stmtsv(s), level, xs, k).1 <= k + sz_stmts(s),
    decreases sz_stmts(s), 3int,
{
    if s.len() > 0 {
        assert(sz_stmts(s) == sz_stmts(s.drop_last()) + sz_stmt(s.last()));
        assert(stmtsv(s) == stmtsv(s.drop_last()).push(stmtv(s.last())));
        lemma_rep_k_stmts(s.drop_last(), level, xs, k);
        let k2 = spec_rep_stmts(stmtsv(s.drop_last()), level, xs, k).1;
        lemma_rep_k_stmt(s.last(), level, xs, k2);
        assert(stmtsv(s).drop_last() =~= stmtsv(s.drop_last()));
        assert(stmtsv(s).last() == stmtv(s.last()));
    } else {
        assert(stmtsv(s).len() == 0);
    }
}

pub proof fn lemma_rep_k_stmt(s: Stmt, level: nat, xs: Seq<Seq<char>>, k: nat)
    ensures
        k <= spec_rep_stmt(stmtv(s), level, xs, k).1 <= k + sz_stmt(s),
    decreases sz_stmt(s), 2int,
{
    match s {
        Stmt::ConstDecl(_, e) => lemma_rep_k(e, level, xs, k),
        Stmt::Expr(e) => lemma_rep_k(e, level, xs, k),
        Stmt::Ret(e) => match e {
            Some(e) => lemma_rep_k(e, level, xs, k),
            None => {}
        },
        Stmt::FnDecl(_, _, body) => lemma_rep_k_stmts(body@, level, xs, k),
    }
}

pub proof fn lemma_rep_k_props(s: Seq<Prop>, level: nat, xs: Seq<Seq<char>>, k: nat)
    ensures
        k <= spec_rep_props(propsv(s), level, xs, k).1 <= k + sz_props(s),
    decreases sz_props(s), 3int,
{
    if s.len() > 0 {
        assert(sz_props(s) == sz_props(s.drop_last()) + sz_prop(s.last()));
        assert(propsv(s) == propsv(s.drop_last()).push(propv(s.last())));
        lemma_rep_k_props(s.drop_last(), level, xs, k);
        let k2 = spec_rep_props(propsv(s.drop_last()), level, xs, k).1;
        lemma_rep_k_prop(s.last(), level, xs, k2);
        assert(propsv(s).drop_last() =~= propsv(s.drop_last()));
        assert(propsv(s).last() == propv(s.last()));
    } else {
        assert(propsv(s).len() == 0);
    }
}

pub proof fn lemma_rep_k_prop(p: Prop, level: nat, xs: Seq<Seq<char>>, k: nat)
    ensures
        k <= spec_rep_prop(propv(p), level, xs, k).1 <= k + sz_prop(p),
    decreases sz_prop(p), 2int,
{
    match p {
        Prop::KV(key, v) => {
            let k2 = match key {
                PropKey::Computed(e) => {
                    lemma_rep_k(e, level, xs, k);
                    spec_rep(ev(e), level, xs, k).1
                }
                _ => k,
            };
            lemma_rep_k(v, level, xs, k2);
        }
        Prop::Spread(e) => lemma_rep_k(e, level, xs, k),
        Prop::Other => {}
    }
}

pub proof fn lemma_rep_k_elem(el: JsxElement, level: nat, xs: Seq<Seq<char>>, k: nat)
    ensures
        k <= spec_rep_elem(elemv(el), level, xs, k).1 <= k + sz_elem(el),
    decreases sz_elem(el), 3int,
{
    lemma_rep_k_attrs(el.attrs@, level, xs, k);
    let k2 = spec_rep_attrs(attrsv(el.attrs@), level, xs, k).1;
    lemma_rep_k_childs(el.children@, level, xs, k2);
}

pub proof fn lemma_rep_k_attrs(s: Seq<JsxAttrOrSpread>, level: nat, xs: Seq<Seq<char>>, k: nat)
    ensures
        k <= spec_rep_attrs(attrsv(s), level, xs, k).1 <= k + sz_attrs(s),
    decreases sz_attrs(s), 2int,
{
    if s.len() > 0 {
        assert(sz_attrs(s) == sz_attrs(s.drop_last()) + sz_attr(s.last()));
        assert(attrsv(s) == attrsv(s.drop_last()).push(attrv(s.last())));
        lemma_rep_k_attrs(s.drop_last(), level, xs, k);
        let k2 = spec_rep_attrs(attrsv(s.drop_last()), level, xs, k).1;
        lemma_rep_k_attr(s.last(), level, xs, k2);
        assert(attrsv(s).drop_last() =~= attrsv(s.drop_last()));
        assert(attrsv(s).last() == attrv(s.last()));
    } else {
        assert(attrsv(s).len() == 0);
    }
}

pub proof fn lemma_rep_k_attr(a: JsxAttrOrSpread, level: nat, xs: Seq<Seq<char>>, k: nat)
    ensures
        k <= spec_rep_attr(attrv(a), level, xs, k).1 <= k + sz_attr(a),
    decreases sz_attr(a), 1int,
{
    match a {
        JsxAttrOrSpread::Attr(at) => match at.value {
            Some(JsxAttrValue::Container(Some(e))) => {
                lemma_rep_k(e, level, xs, k);
            }
            _ => {}
        },
        JsxAttrOrSpread::Spread(e) => lemma_rep_k(e, level, xs, k),
    }
}

pub proof fn lemma_rep_k_childs(s: Seq<JsxChild>, level: nat, xs: Seq<Seq<char>>, k: nat)
    ensures
        k <= spec_rep_childs(childsv(s), level, xs, k).1 <= k + sz_childs(s),
    decreases sz_childs(s), 3int,
{
    if s.len() > 0 {
        assert(sz_childs(s) == sz_childs(s.drop_last()) + sz_child(s.last()));
        assert(childsv(s) == childsv(s.drop_last()).push(childv(s.last())));
        lemma_rep_k_childs(s.drop_last(), level, xs, k);
        let k2 = spec_rep_childs(childsv(s.drop_last()), level, xs, k).1;
        lemma_rep_k_child(s.last(), level, xs, k2);
        assert(childsv(s).drop_last() =~= childsv(s.drop_last()));
        assert(childsv(s).last() == childv(s.last()));
    } else {
        assert(childsv(s).len() == 0);
    }
}

pub proof fn lemma_rep_k_child(c: JsxChild, level: nat, xs: Seq<Seq<char>>, k: nat)
    ensures
        k <= spec_rep_child(childv(c), level, xs, k).1 <= k + sz_child(c),
    decreases sz_child(c), 2int,
{
    match c {
        JsxChild::Element(el) => lemma_rep_k_elem(el, level, xs, k),
        JsxChild::Fragment(cs) => lemma_rep_k_childs(cs@, level, xs, k),
        JsxChild::Text(_) => {}
        JsxChild::Container(e) => match e {
            Some(e) => lemma_rep_k(e, level, xs, k),
            None => {}
        },
    }
}

// ---------------------------------------------------------------------
// Executable analyzer.
// ---------------------------------------------------------------------

use crate::diag::Diag;

/// One registered watch target, as collected at run time.
pub struct ChainInfo {
    pub is_this: bool,
    pub root: Vec<char>,
    pub segs: Vec<Expr>,
    pub computed: bool,
}

pub open spec fn civ(c: ChainInfo) -> GChainInfo {
    GChainInfo { is_this: c.is_this, root: c.root@, segs: exprsv(c.segs@), computed: c.computed }
}

pub enum ChainOut {
    Drop,
    Bad,
    Got(ChainInfo),
}

pub open spec fn chainoutv(c: ChainOut) -> GChainOut {
    match c {
        ChainOut::Drop => GChainOut::Drop,
        ChainOut::Bad => GChainOut::Bad,
        ChainOut::Got(ci) => GChainOut::Got(civ(ci)),
    }
}

pub open spec fn civs(s: Seq<ChainInfo>) -> Seq<GChainInfo>
    decreases s,
{
    if s.len() == 0 {
        Seq::empty()
    } else {
        civs(s.drop_last()).push(civ(s.last()))
    }
}

pub proof fn lemma_civs(s: Seq<ChainInfo>)
    ensures
        civs(s).len() == s.len(),
        forall|i: int| 0 <= i < s.len() ==> civs(s)[i] == civ(s[i]),
    decreases s.len(),
{
    if s.len() > 0 {
        lemma_civs(s.drop_last());
        assert forall|i: int| 0 <= i < s.len() implies civs(s)[i] == civ(s[i]) by {
            if i < s.len() - 1 {
                assert(s.drop_last()[i] == s[i]);
            }
        }
    }
}

pub proof fn lemma_civs_concat(a: Seq<ChainInfo>, b: Seq<ChainInfo>)
    ensures
        civs(a + b) == civs(a) + civs(b),
    decreases b.len(),
{
    if b.len() == 0 {
        assert(a + b =~= a);
        assert(civs(a) + b.map_values(|c: ChainInfo| civ(c)) =~= civs(a) + civs(b));
        assert(civs(a + b) =~= civs(a) + civs(b));
    } else {
        lemma_civs_concat(a, b.drop_last());
        assert((a + b).drop_last() =~= a + b.drop_last());
        assert((a + b).last() == b.last());
        assert(civs(a + b) =~= civs(a) + civs(b));
    }
}

/// Wrap a list of expressions as plain call arguments.
#[verifier::loop_isolation(false)]
fn args_of_exprs(v: &Vec<Expr>) -> (r: Vec<Arg>)
    ensures
        argsv(r@) == spec_args_of(exprsv(v@)),
{
    let mut out: Vec<Arg> = Vec::new();
    let mut i: usize = 0;
    proof {
        lemma_exprsv(v@);
    }
    while i < v.len()
        invariant
            0 <= i <= v.len(),
            out@.len() == i,
            forall|j: int|
                0 <= j < i ==> argv(out@[j]) == (GArg { spread: false, expr: ev(v@[j]) }),
        decreases v.len() - i,
    {
        let e = dup_expr(&v[i]);
        out.push(Arg { spread: false, expr: e });
        i += 1;
    }
    proof {
        lemma_argsv(out@);
        lemma_exprsv(v@);
        assert(argsv(out@) =~= spec_args_of(exprsv(v@)));
    }
    out
}

/// Build the watcher call for one chain.
fn built_watcher_exec(ci: &ChainInfo, level: usize) -> (r: Expr)
    ensures
        ev(r) == spec_built_watcher(civ(*ci), level as nat),
{
    let ghost gci = civ(*ci);
    let target = if ci.is_this {
        Expr::This
    } else {
        Expr::Ident(crate::sym::sym_dup(&ci.root))
    };
    proof {
        assert(ev(target) == spec_target(gci));
    }
    let path = Expr::Array(args_of_exprs(&ci.segs));
    proof {
        assert(ev(path) =~= GExpr::Array(spec_args_of(gci.segs)));
    }
    let callee = Expr::Ident(
        if ci.computed {
            crate::names::s_local_dym_path_watcher()
        } else {
            crate::names::s_local_path_watcher()
        },
    );
    let mut args: Vec<Arg> = Vec::new();
    args.push(Arg { spread: false, expr: target });
    args.push(Arg { spread: false, expr: path });
    if level == 0 {
        args.push(Arg { spread: false, expr: Expr::Lit(Lit::Bool(true)) });
    }
    let r = Expr::Call(Box::new(callee), args);
    proof {
        lemma_argsv(args@);
        let sb = spec_built_watcher(gci, level as nat);
        let sbase = seq![
            GArg { spread: false, expr: spec_target(gci) },
            GArg { spread: false, expr: GExpr::Array(spec_args_of(gci.segs)) },
        ];
        assert(argv(args@[0]) == sbase[0]);
        assert(argv(args@[1]) == sbase[1]);
        if level == 0 {
            assert(sb->Call_1 == sbase.push(
                GArg { spread: false, expr: GExpr::Lit(GLit::Bool(true)) },
            ));
            assert(argv(args@[2]) == sb->Call_1[2]);
            assert(argsv(args@) =~= sb->Call_1);
        } else {
            assert(sb->Call_1 == sbase);
            assert(argsv(args@) =~= sb->Call_1);
        }
        let gcallee = if gci.computed {
            GExpr::Ident(crate::names::n_local_dym_path_watcher())
        } else {
            GExpr::Ident(crate::names::n_local_path_watcher())
        };
        assert(ev(callee) == gcallee);
        assert(sb == GExpr::Call(Box::new(gcallee), sb->Call_1));
        assert(ev(r) == GExpr::Call(Box::new(ev(callee)), argsv(args@)));
        assert(argsv(args@) == sb->Call_1);
        assert(ev(r) == sb);
    }
    r
}

/// Walk one member expression to its root.
#[verifier::rlimit(60)]
fn mchain(e: &Expr, level: usize, xs: &Vec<Vec<char>>, diags: &mut Vec<Diag>) -> (r: ChainOut)
    requires
        level as nat + sz_expr(*e) <= usize::MAX,
    ensures
        chainoutv(r) == spec_mchain(crate::ast::evr(e), level as nat, crate::sym::symsv(xs@)),
        crate::diag::extends(final(diags)@, old(diags)@),
    decreases sz_expr(*e), 1int,
{
    proof {
        crate::diag::lemma_extends_refl(diags@);
    }
    match e {
        Expr::Member(obj, prop) => {
            proof {
                assert((*e)->Member_0 == *obj);
                assert((*e)->Member_1 == *prop);
            }
            let base = match &**obj {
                Expr::This => {
                    let ci = ChainInfo {
                        is_this: true,
                        root: Vec::new(),
                        segs: Vec::new(),
                        computed: false,
                    };
                    proof {
                        assert(civ(ci) =~= GChainInfo {
                            is_this: true,
                            root: Seq::empty(),
                            segs: Seq::empty(),
                            computed: false,
                        });
                    }
                    ChainOut::Got(ci)
                }
                Expr::Ident(id) => {
                    proof {
                        assert((**obj)->Ident_0 == *id);
                    }
                    if crate::sym::sym_list_contains(xs, id) || crate::sym::is_private_name(id) {
                        ChainOut::Drop
                    } else {
                        let ci = ChainInfo {
                            is_this: false,
                            root: crate::sym::sym_dup(id),
                            segs: Vec::new(),
                            computed: false,
                        };
                        proof {
                            assert(civ(ci) =~= GChainInfo {
                                is_this: false,
                                root: id@,
                                segs: Seq::empty(),
                                computed: false,
                            });
                        }
                        ChainOut::Got(ci)
                    }
                }
                Expr::Member(_, _) => mchain(&**obj, level, xs, diags),
                Expr::OptChain(_) => {
                    diags.push(Diag::OptChainInWatchPath);
                    proof {
                        crate::diag::lemma_extends_push(old(diags)@, Diag::OptChainInWatchPath);
                    }
                    ChainOut::Bad
                }
                Expr::Call(_, _) => {
                    diags.push(Diag::CallAsWatchRoot);
                    proof {
                        crate::diag::lemma_extends_push(old(diags)@, Diag::CallAsWatchRoot);
                    }
                    ChainOut::Bad
                }
                _ => {
                    diags.push(Diag::UnsupportedWatchObj);
                    proof {
                        crate::diag::lemma_extends_push(old(diags)@, Diag::UnsupportedWatchObj);
                    }
                    ChainOut::Bad
                }
            };
            proof {
                assert(chainoutv(base) == spec_mchain_base(
                    ev(**obj),
                    level as nat,
                    crate::sym::symsv(xs@),
                ));
            }
            match base {
                ChainOut::Got(ci) => {
                    let ghost gci2 = civ(ci);
                    let ghost pre = diags@;
                    let r = mchain_prop(ci, prop, level, xs, diags);
                    proof {
                        crate::diag::lemma_extends_trans(old(diags)@, pre, diags@);
                        assert(chainoutv(r) == spec_mchain_prop(
                            gci2,
                            mpropv(*prop),
                            level as nat,
                            crate::sym::symsv(xs@),
                        ));
                        assert(spec_mchain(evr(e), level as nat, crate::sym::symsv(xs@))
                            == spec_mchain_prop(
                            gci2,
                            mpropv(*prop),
                            level as nat,
                            crate::sym::symsv(xs@),
                        ));
                    }
                    r
                }
                ChainOut::Drop => {
                    proof {
                        assert(spec_mchain(evr(e), level as nat, crate::sym::symsv(xs@))
                            == GChainOut::Drop);
                    }
                    ChainOut::Drop
                }
                ChainOut::Bad => {
                    proof {
                        assert(spec_mchain(evr(e), level as nat, crate::sym::symsv(xs@))
                            == GChainOut::Bad);
                    }
                    ChainOut::Bad
                }
            }
        }
        _ => {
            proof {
                assert(spec_mchain(evr(e), level as nat, crate::sym::symsv(xs@))
                    == GChainOut::Bad);
            }
            ChainOut::Bad
        }
    }
}

/// Add the outermost property to a resolved chain.
#[verifier::rlimit(60)]
fn mchain_prop(
    ci: ChainInfo,
    prop: &MemberProp,
    level: usize,
    xs: &Vec<Vec<char>>,
    diags: &mut Vec<Diag>,
) -> (r: ChainOut)
    requires
        level as nat + sz_mprop(*prop) <= usize::MAX,
    ensures
        chainoutv(r) == spec_mchain_prop(
            civ(ci),
            crate::ast::mpropvr(prop),
            level as nat,
            crate::sym::symsv(xs@),
        ),
        crate::diag::extends(final(diags)@, old(diags)@),
    decreases sz_mprop(*prop), 0int,
{
    proof {
        crate::diag::lemma_extends_refl(diags@);
    }
    let ghost gci = civ(ci);
    let mut ci = ci;
    match prop {
        MemberProp::Ident(name) => {
            if crate::sym::is_private_name(name) {
                ChainOut::Drop
            } else {
                let ghost pre_segs = ci.segs@;
                ci.segs.push(Expr::Lit(Lit::Str(crate::sym::sym_dup(name))));
                proof {
                    assert(ci.segs@.drop_last() =~= pre_segs);
                    assert(exprsv(pre_segs) == gci.segs);
                    assert(civ(ci) =~= GChainInfo {
                        segs: gci.segs.push(GExpr::Lit(GLit::Str(name@))),
                        ..gci
                    });
                }
                ChainOut::Got(ci)
            }
        }
        MemberProp::Private(_) => {
            diags.push(Diag::PrivateNameProp);
            proof {
                crate::diag::lemma_extends_push(old(diags)@, Diag::PrivateNameProp);
            }
            ChainOut::Bad
        }
        MemberProp::Computed(ce) => {
            proof {
                assert((*prop)->Computed_0 == *ce);
            }
            match &**ce {
                Expr::Lit(Lit::Str(sv)) => {
                    if crate::sym::is_private_name(sv) {
                        ChainOut::Drop
                    } else {
                        let ghost pre_segs = ci.segs@;
                        ci.segs.push(Expr::Lit(Lit::Str(crate::sym::sym_dup(sv))));
                        proof {
                            assert(ci.segs@.drop_last() =~= pre_segs);
                            assert(exprsv(pre_segs) == gci.segs);
                            assert(civ(ci) =~= GChainInfo {
                                segs: gci.segs.push(GExpr::Lit(GLit::Str(sv@))),
                                ..gci
                            });
                        }
                        ChainOut::Got(ci)
                    }
                }
                Expr::Lit(Lit::Num(nv)) => {
                    let ghost pre_segs = ci.segs@;
                    ci.segs.push(Expr::Lit(Lit::Num(crate::sym::sym_dup(nv))));
                    proof {
                        assert(ci.segs@.drop_last() =~= pre_segs);
                        assert(exprsv(pre_segs) == gci.segs);
                        assert(civ(ci) =~= GChainInfo {
                            segs: gci.segs.push(GExpr::Lit(GLit::Num(nv@))),
                            ..gci
                        });
                    }
                    ChainOut::Got(ci)
                }
                Expr::Lit(_) => {
                    diags.push(Diag::UnsupportedConstKey);
                    proof {
                        crate::diag::lemma_extends_push(old(diags)@, Diag::UnsupportedConstKey);
                    }
                    ChainOut::Bad
                }
                _ => {
                    let ghost pre = diags@;
                    let w = inner_built(&**ce, level + 1, xs, diags);
                    proof {
                        crate::diag::lemma_extends_trans(old(diags)@, pre, diags@);
                    }
                    match w {
                        Some(w) => {
                            let ghost pre_segs = ci.segs@;
                            let ghost gw = ev(w);
                            ci.segs.push(w);
                            ci.computed = true;
                            proof {
                                assert(ci.segs@.drop_last() =~= pre_segs);
                                assert(exprsv(pre_segs) == gci.segs);
                                assert(civ(ci) =~= GChainInfo {
                                    segs: gci.segs.push(
                                        spec_inner_built(
                                            ev(**ce),
                                            (level + 1) as nat,
                                            crate::sym::symsv(xs@),
                                        )->Some_0,
                                    ),
                                    computed: true,
                                    ..gci
                                });
                            }
                            ChainOut::Got(ci)
                        }
                        None => {
                            let ghost pre2 = diags@;
                            diags.push(Diag::ComputedKeyNotWatchable);
                            proof {
                                crate::diag::lemma_extends_push(pre2, Diag::ComputedKeyNotWatchable);
                                crate::diag::lemma_extends_trans(old(diags)@, pre2, diags@);
                            }
                            ChainOut::Bad
                        }
                    }
                }
            }
        }
    }
}

/// The watcher a computed segment contributes.
fn inner_built(e: &Expr, level: usize, xs: &Vec<Vec<char>>, diags: &mut Vec<Diag>) -> (r: Option<
    Expr,
>)
    requires
        level as nat + sz_expr(*e) <= usize::MAX,
    ensures
        match r {
            Some(w) => spec_inner_built(crate::ast::evr(e), level as nat, crate::sym::symsv(xs@)) == Some(
                ev(w),
            ),
            None => spec_inner_built(crate::ast::evr(e), level as nat, crate::sym::symsv(xs@)) is None,
        },
        crate::diag::extends(final(diags)@, old(diags)@),
    decreases sz_expr(*e), 4int,
{
    let mut cs = walk(e, level, xs, diags);
    proof {
        lemma_civs(cs@);
    }
    if cs.len() == 0 {
        None
    } else if matches!(e, Expr::Member(_, _)) {
        let last = cs.len() - 1;
        let r = built_watcher_exec(&cs[last], level);
        proof {
            assert(civ(cs@[last as int]) == civs(cs@).last());
        }
        Some(r)
    } else {
        Some(covert(e, &cs, level, xs))
    }
}

/// Collect the registered chains of an expression, in discovery order.
fn walk(e: &Expr, level: usize, xs: &Vec<Vec<char>>, diags: &mut Vec<Diag>) -> (r: Vec<ChainInfo>)
    requires
        level as nat + sz_expr(*e) <= usize::MAX,
    ensures
        civs(r@) == spec_walk(crate::ast::evr(e), level as nat, crate::sym::symsv(xs@)),
        crate::diag::extends(final(diags)@, old(diags)@),
    decreases sz_expr(*e), 2int,
{
    proof {
        crate::diag::lemma_extends_refl(diags@);
    }
    match e {
        Expr::Member(_, _) => {
            let mut out: Vec<ChainInfo> = Vec::new();
            match mchain(e, level, xs, diags) {
                ChainOut::Got(ci) => {
                    out.push(ci);
                    proof {
                        reveal_with_fuel(civs, 3);
                        assert(out@.drop_last() =~= Seq::<ChainInfo>::empty());
                        assert(civs(out@) =~= seq![
                            spec_mchain(
                                ev(*e),
                                level as nat,
                                crate::sym::symsv(xs@),
                            )->Got_0,
                        ]);
                    }
                }
                _ => {
                    proof {
                        assert(civs(out@) =~= Seq::<GChainInfo>::empty());
                    }
                }
            }
            out
        }
        Expr::OptChain(b) => {
            proof {
                assert((*e)->OptChain_0 == *b);
            }
            walk(&**b, level, xs, diags)
        }
        Expr::Unary(_, b) => {
            proof {
                assert((*e)->Unary_1 == *b);
            }
            walk(&**b, level, xs, diags)
        }
        Expr::Bin(_, l, r2) => {
            proof {
                assert((*e)->Bin_1 == *l);
                assert((*e)->Bin_2 == *r2);
            }
            let mut a = walk(&**l, level, xs, diags);
            let ghost pre = diags@;
            let mut b2 = walk(&**r2, level, xs, diags);
            proof {
                lemma_civs_concat(a@, b2@);
                crate::diag::lemma_extends_trans(old(diags)@, pre, diags@);
            }
            a.append(&mut b2);
            a
        }
        Expr::Cond(t, c, al) => {
            proof {
                assert((*e)->Cond_0 == *t);
                assert((*e)->Cond_1 == *c);
                assert((*e)->Cond_2 == *al);
            }
            let mut a = walk(&**t, level, xs, diags);
            let ghost pre = diags@;
            let mut b2 = walk(&**c, level, xs, diags);
            proof {
                lemma_civs_concat(a@, b2@);
                crate::diag::lemma_extends_trans(old(diags)@, pre, diags@);
            }
            a.append(&mut b2);
            let ghost pre2 = diags@;
            let mut c2 = walk(&**al, level, xs, diags);
            proof {
                lemma_civs_concat(a@, c2@);
                crate::diag::lemma_extends_trans(old(diags)@, pre2, diags@);
            }
            a.append(&mut c2);
            a
        }
        Expr::Call(callee, args) => {
            proof {
                assert((*e)->Call_0 == *callee);
                assert((*e)->Call_1 == *args);
            }
            let mut a = walk(&**callee, level, xs, diags);
            let ghost pre = diags@;
            let mut b2 = walk_args(args, level, xs, diags);
            proof {
                lemma_civs_concat(a@, b2@);
                crate::diag::lemma_extends_trans(old(diags)@, pre, diags@);
            }
            a.append(&mut b2);
            a
        }
        Expr::Paren(b) => {
            proof {
                assert((*e)->Paren_0 == *b);
            }
            walk(&**b, level, xs, diags)
        }
        Expr::Assign(t, v) => {
            proof {
                assert((*e)->Assign_0 == *t);
                assert((*e)->Assign_1 == *v);
            }
            let mut a = walk(&**t, level, xs, diags);
            let ghost pre = diags@;
            let mut b2 = walk(&**v, level, xs, diags);
            proof {
                lemma_civs_concat(a@, b2@);
                crate::diag::lemma_extends_trans(old(diags)@, pre, diags@);
            }
            a.append(&mut b2);
            a
        }
        Expr::Arrow(_, body) => {
            proof {
                assert((*e)->Arrow_1 == *body);
            }
            walk_body(&**body, level, xs, diags)
        }
        Expr::Fn(_, _, body) => {
            proof {
                assert((*e)->Fn_2 == *body);
            }
            walk_stmts(body, level, xs, diags)
        }
        Expr::Object(props) => {
            proof {
                assert((*e)->Object_0 == *props);
            }
            walk_props(props, level, xs, diags)
        }
        Expr::Array(elems) => {
            proof {
                assert((*e)->Array_0 == *elems);
            }
            walk_args(elems, level, xs, diags)
        }
        Expr::Jsx(el) => {
            proof {
                assert((*e)->Jsx_0 == *el);
            }
            walk_elem(&**el, level, xs, diags)
        }
        Expr::JsxFragment(cs) => {
            proof {
                assert((*e)->JsxFragment_0 == *cs);
            }
            walk_childs(cs, level, xs, diags)
        }
        _ => {
            let out: Vec<ChainInfo> = Vec::new();
            proof {
                assert(civs(out@) =~= Seq::<GChainInfo>::empty());
            }
            out
        }
    }
}

fn walk_body(b: &ArrowBody, level: usize, xs: &Vec<Vec<char>>, diags: &mut Vec<Diag>) -> (r: Vec<
    ChainInfo,
>)
    requires
        level as nat + sz_body(*b) <= usize::MAX,
    ensures
        civs(r@) == spec_walk_body(crate::ast::bodyvr(b), level as nat, crate::sym::symsv(xs@)),
        crate::diag::extends(final(diags)@, old(diags)@),
    decreases sz_body(*b), 3int,
{
    match b {
        ArrowBody::Expr(e) => {
            proof {
                assert((*b)->Expr_0 == *e);
            }
            walk(&**e, level, xs, diags)
        }
        ArrowBody::Block(ss) => {
            proof {
                assert((*b)->Block_0 == *ss);
            }
            walk_stmts(ss, level, xs, diags)
        }
    }
}

fn walk_stmt(s: &Stmt, level: usize, xs: &Vec<Vec<char>>, diags: &mut Vec<Diag>) -> (r: Vec<
    ChainInfo,
>)
    requires
        level as nat + sz_stmt(*s) <= usize::MAX,
    ensures
        civs(r@) == spec_walk_stmt(crate::ast::stmtvr(s), level as nat, crate::sym::symsv(xs@)),
        crate::diag::extends(final(diags)@, old(diags)@),
    decreases sz_stmt(*s), 2int,
{
    proof {
        crate::diag::lemma_extends_refl(diags@);
    }
    match s {
        Stmt::ConstDecl(_, e) => {
            proof {
                assert((*s)->ConstDecl_1 == *e);
            }
            walk(e, level, xs, diags)
        }
        Stmt::Expr(e) => {
            proof {
                assert((*s)->Expr_0 == *e);
            }
            walk(e, level, xs, diags)
        }
        Stmt::Ret(e) => match e {
            Some(e) => {
                proof {
                    assert((*s)->Ret_0 == Some(*e));
                }
                walk(e, level, xs, diags)
            }
            None => {
                let out: Vec<ChainInfo> = Vec::new();
                proof {
                    assert(civs(out@) =~= Seq::<GChainInfo>::empty());
                }
                out
            }
        },
        Stmt::FnDecl(_, _, body) => {
            proof {
                assert((*s)->FnDecl_2 == *body);
            }
            walk_stmts(body, level, xs, diags)
        }
    }
}

fn walk_prop(p: &Prop, level: usize, xs: &Vec<Vec<char>>, diags: &mut Vec<Diag>) -> (r: Vec<
    ChainInfo,
>)
    requires
        level as nat + sz_prop(*p) <= usize::MAX,
    ensures
        civs(r@) == spec_walk_prop(crate::ast::propvr(p), level as nat, crate::sym::symsv(xs@)),
        crate::diag::extends(final(diags)@, old(diags)@),
    decreases sz_prop(*p), 2int,
{
    proof {
        crate::diag::lemma_extends_refl(diags@);
    }
    match p {
        Prop::KV(key, v) => {
            proof {
                assert((*p)->KV_0 == *key);
                assert((*p)->KV_1 == *v);
            }
            let mut a: Vec<ChainInfo> = match key {
                PropKey::Computed(ke) => {
                    proof {
                        assert((*key)->Computed_0 == *ke);
                    }
                    walk(ke, level, xs, diags)
                }
                _ => {
                    let out: Vec<ChainInfo> = Vec::new();
                    proof {
                        assert(civs(out@) =~= Seq::<GChainInfo>::empty());
                    }
                    out
                }
            };
            let ghost pre = diags@;
            let mut b2 = walk(v, level, xs, diags);
            proof {
                lemma_civs_concat(a@, b2@);
                crate::diag::lemma_extends_trans(old(diags)@, pre, diags@);
            }
            a.append(&mut b2);
            a
        }
        Prop::Spread(e) => {
            proof {
                assert((*p)->Spread_0 == *e);
            }
            walk(e, level, xs, diags)
        }
        Prop::Other => {
            let out: Vec<ChainInfo> = Vec::new();
            proof {
                assert(civs(out@) =~= Seq::<GChainInfo>::empty());
            }
            out
        }
    }
}

fn walk_elem(el: &JsxElement, level: usize, xs: &Vec<Vec<char>>, diags: &mut Vec<Diag>) -> (r: Vec<
    ChainInfo,
>)
    requires
        level as nat + sz_elem(*el) <= usize::MAX,
    ensures
        civs(r@) == spec_walk_elem(crate::ast::elemvr(el), level as nat, crate::sym::symsv(xs@)),
        crate::diag::extends(final(diags)@, old(diags)@),
    decreases sz_elem(*el), 3int,
{
    proof {
        assert(el.attrs == (*el).attrs);
        assert(el.children == (*el).children);
    }
    let mut a = walk_attrs(&el.attrs, level, xs, diags);
    let ghost pre = diags@;
    let mut b2 = walk_childs(&el.children, level, xs, diags);
    proof {
        lemma_civs_concat(a@, b2@);
        crate::diag::lemma_extends_trans(old(diags)@, pre, diags@);
    }
    a.append(&mut b2);
    a
}

fn walk_attr(a: &JsxAttrOrSpread, level: usize, xs: &Vec<Vec<char>>, diags: &mut Vec<Diag>) -> (r:
    Vec<ChainInfo>)
    requires
        level as nat + sz_attr(*a) <= usize::MAX,
    ensures
        civs(r@) == spec_walk_attr(crate::ast::attrvr(a), level as nat, crate::sym::symsv(xs@)),
        crate::diag::extends(final(diags)@, old(diags)@),
    decreases sz_attr(*a), 2int,
{
    proof {
        crate::diag::lemma_extends_refl(diags@);
    }
    match a {
        JsxAttrOrSpread::Attr(at) => {
            proof {
                assert((*a)->Attr_0 == *at);
            }
            match &at.value {
                Some(JsxAttrValue::Container(Some(e))) => {
                    proof {
                        assert(at.value == Some(JsxAttrValue::Container(Some(*e))));
                    }
                    walk(e, level, xs, diags)
                }
                _ => {
                    let out: Vec<ChainInfo> = Vec::new();
                    proof {
                        assert(civs(out@) =~= Seq::<GChainInfo>::empty());
                    }
                    out
                }
            }
        }
        JsxAttrOrSpread::Spread(e) => {
            proof {
                assert((*a)->Spread_0 == *e);
            }
            walk(e, level, xs, diags)
        }
    }
}

fn walk_child(c: &JsxChild, level: usize, xs: &Vec<Vec<char>>, diags: &mut Vec<Diag>) -> (r: Vec<
    ChainInfo,
>)
    requires
        level as nat + sz_child(*c) <= usize::MAX,
    ensures
        civs(r@) == spec_walk_child(crate::ast::childvr(c), level as nat, crate::sym::symsv(xs@)),
        crate::diag::extends(final(diags)@, old(diags)@),
    decreases sz_child(*c), 2int,
{
    proof {
        crate::diag::lemma_extends_refl(diags@);
    }
    match c {
        JsxChild::Element(el) => {
            proof {
                assert((*c)->Element_0 == *el);
            }
            walk_elem(el, level, xs, diags)
        }
        JsxChild::Fragment(cs) => {
            proof {
                assert((*c)->Fragment_0 == *cs);
            }
            walk_childs(cs, level, xs, diags)
        }
        JsxChild::Text(_) => {
            let out: Vec<ChainInfo> = Vec::new();
            proof {
                assert(civs(out@) =~= Seq::<GChainInfo>::empty());
            }
            out
        }
        JsxChild::Container(e) => match e {
            Some(e) => {
                proof {
                    assert((*c)->Container_0 == Some(*e));
                }
                walk(e, level, xs, diags)
            }
            None => {
                let out: Vec<ChainInfo> = Vec::new();
                proof {
                    assert(civs(out@) =~= Seq::<GChainInfo>::empty());
                }
                out
            }
        },
    }
}

#[verifier::loop_isolation(false)]
fn walk_args(s: &Vec<Arg>, level: usize, xs: &Vec<Vec<char>>, diags: &mut Vec<Diag>) -> (r: Vec<
    ChainInfo,
>)
    requires
        level as nat + sz_args(s@) <= usize::MAX,
    ensures
        civs(r@) == spec_walk_args(argsv(s@), level as nat, crate::sym::symsv(xs@)),
        crate::diag::extends(final(diags)@, old(diags)@),
    decreases sz_args(s@), 3int,
{
    let ghost gxs = crate::sym::symsv(xs@);
    let mut out: Vec<ChainInfo> = Vec::new();
    proof {
        assert(argsv(s@).take(0) =~= Seq::<GArg>::empty());
        crate::diag::lemma_extends_refl(diags@);
    }
    let mut i: usize = 0;
    while i < s.len()
        invariant
            0 <= i <= s.len(),
            civs(out@) == spec_walk_args(argsv(s@).take(i as int), level as nat, gxs),
            crate::diag::extends(diags@, old(diags)@),
        decreases s.len() - i,
    {
        proof {
            lemma_argsv(s@);
            assert(argsv(s@).take(i as int + 1).drop_last() =~= argsv(s@).take(i as int));
            assert(argsv(s@).take(i as int + 1).last() == argv(s@[i as int]));
        }
        let ghost pre = diags@;
        let mut w = walk(&s[i].expr, level, xs, diags);
        proof {
            lemma_civs_concat(out@, w@);
            crate::diag::lemma_extends_trans(old(diags)@, pre, diags@);
        }
        out.append(&mut w);
        i += 1;
    }
    proof {
        lemma_argsv(s@);
        assert(argsv(s@).take(s@.len() as int) =~= argsv(s@));
    }
    out
}

#[verifier::loop_isolation(false)]
fn walk_stmts(s: &Vec<Stmt>, level: usize, xs: &Vec<Vec<char>>, diags: &mut Vec<Diag>) -> (r: Vec<
    ChainInfo,
>)
    requires
        level as nat + sz_stmts(s@) <= usize::MAX,
    ensures
        civs(r@) == spec_walk_stmts(stmtsv(s@), level as nat, crate::sym::symsv(xs@)),
        crate::diag::extends(final(diags)@, old(diags)@),
    decreases sz_stmts(s@), 3int,
{
    let ghost gxs = crate::sym::symsv(xs@);
    let mut out: Vec<ChainInfo> = Vec::new();
    proof {
        assert(stmtsv(s@).take(0) =~= Seq::<GStmt>::empty());
        crate::diag::lemma_extends_refl(diags@);
    }
    let mut i: usize = 0;
    while i < s.len()
        invariant
            0 <= i <= s.len(),
            civs(out@) == spec_walk_stmts(stmtsv(s@).take(i as int), level as nat, gxs),
            crate::diag::extends(diags@, old(diags)@),
        decreases s.len() - i,
    {
        proof {
            lemma_stmtsv(s@);
            assert(stmtsv(s@).take(i as int + 1).drop_last() =~= stmtsv(s@).take(i as int));
            assert(stmtsv(s@).take(i as int + 1).last() == stmtv(s@[i as int]));
        }
        let ghost pre = diags@;
        let mut w = walk_stmt(&s[i], level, xs, diags);
        proof {
            lemma_civs_concat(out@, w@);
            crate::diag::lemma_extends_trans(old(diags)@, pre, diags@);
        }
        out.append(&mut w);
        i += 1;
    }
    proof {
        lemma_stmtsv(s@);
        assert(stmtsv(s@).take(s@.len() as int) =~= stmtsv(s@));
    }
    out
}

#[verifier::loop_isolation(false)]
fn walk_props(s: &Vec<Prop>, level: usize, xs: &Vec<Vec<char>>, diags: &mut Vec<Diag>) -> (r: Vec<
    ChainInfo,
>)
    requires
        level as nat + sz_props(s@) <= usize::MAX,
    ensures
        civs(r@) == spec_walk_props(propsv(s@), level as nat, crate::sym::symsv(xs@)),
        crate::diag::extends(final(diags)@, old(diags)@),
    decreases sz_props(s@), 3int,
{
    let ghost gxs = crate::sym::symsv(xs@);
    let mut out: Vec<ChainInfo> = Vec::new();
    proof {
        assert(propsv(s@).take(0) =~= Seq::<GProp>::empty());
        crate::diag::lemma_extends_refl(diags@);
    }
    let mut i: usize = 0;
    while i < s.len()
        invariant
            0 <= i <= s.len(),
            civs(out@) == spec_walk_props(propsv(s@).take(i as int), level as nat, gxs),
            crate::diag::extends(diags@, old(diags)@),
        decreases s.len() - i,
    {
        proof {
            lemma_propsv(s@);
            assert(propsv(s@).take(i as int + 1).drop_last() =~= propsv(s@).take(i as int));
            assert(propsv(s@).take(i as int + 1).last() == propv(s@[i as int]));
        }
        let ghost pre = diags@;
        let mut w = walk_prop(&s[i], level, xs, diags);
        proof {
            lemma_civs_concat(out@, w@);
            crate::diag::lemma_extends_trans(old(diags)@, pre, diags@);
        }
        out.append(&mut w);
        i += 1;
    }
    proof {
        lemma_propsv(s@);
        assert(propsv(s@).take(s@.len() as int) =~= propsv(s@));
    }
    out
}

#[verifier::loop_isolation(false)]
fn walk_attrs(s: &Vec<JsxAttrOrSpread>, level: usize, xs: &Vec<Vec<char>>, diags: &mut Vec<Diag>) -> (r: Vec<
    ChainInfo,
>)
    requires
        level as nat + sz_attrs(s@) <= usize::MAX,
    ensures
        civs(r@) == spec_walk_attrs(attrsv(s@), level as nat, crate::sym::symsv(xs@)),
        crate::diag::extends(final(diags)@, old(diags)@),
    decreases sz_attrs(s@), 3int,
{
    let ghost gxs = crate::sym::symsv(xs@);
    let mut out: Vec<ChainInfo> = Vec::new();
    proof {
        assert(attrsv(s@).take(0) =~= Seq::<GJsxAttrOrSpread>::empty());
        crate::diag::lemma_extends_refl(diags@);
    }
    let mut i: usize = 0;
    while i < s.len()
        invariant
            0 <= i <= s.len(),
            civs(out@) == spec_walk_attrs(attrsv(s@).take(i as int), level as nat, gxs),
            crate::diag::extends(diags@, old(diags)@),
        decreases s.len() - i,
    {
        proof {
            lemma_attrsv(s@);
            assert(attrsv(s@).take(i as int + 1).drop_last() =~= attrsv(s@).take(i as int));
            assert(attrsv(s@).take(i as int + 1).last() == attrv(s@[i as int]));
        }
        let ghost pre = diags@;
        let mut w = walk_attr(&s[i], level, xs, diags);
        proof {
            lemma_civs_concat(out@, w@);
            crate::diag::lemma_extends_trans(old(diags)@, pre, diags@);
        }
        out.append(&mut w);
        i += 1;
    }
    proof {
        lemma_attrsv(s@);
        assert(attrsv(s@).take(s@.len() as int) =~= attrsv(s@));
    }
    out
}

#[verifier::loop_isolation(false)]
fn walk_childs(s: &Vec<JsxChild>, level: usize, xs: &Vec<Vec<char>>, diags: &mut Vec<Diag>) -> (r: Vec<
    ChainInfo,
>)
    requires
        level as nat + sz_childs(s@) <= usize::MAX,
    ensures
        civs(r@) == spec_walk_childs(childsv(s@), level as nat, crate::sym::symsv(xs@)),
        crate::diag::extends(final(diags)@, old(diags)@),
    decreases sz_childs(s@), 3int,
{
    let ghost gxs = crate::sym::symsv(xs@);
    let mut out: Vec<ChainInfo> = Vec::new();
    proof {
        assert(childsv(s@).take(0) =~= Seq::<GJsxChild>::empty());
        crate::diag::lemma_extends_refl(diags@);
    }
    let mut i: usize = 0;
    while i < s.len()
        invariant
            0 <= i <= s.len(),
            civs(out@) == spec_walk_childs(childsv(s@).take(i as int), level as nat, gxs),
            crate::diag::extends(diags@, old(diags)@),
        decreases s.len() - i,
    {
        proof {
            lemma_childsv(s@);
            assert(childsv(s@).take(i as int + 1).drop_last() =~= childsv(s@).take(i as int));
            assert(childsv(s@).take(i as int + 1).last() == childv(s@[i as int]));
        }
        let ghost pre = diags@;
        let mut w = walk_child(&s[i], level, xs, diags);
        proof {
            lemma_civs_concat(out@, w@);
            crate::diag::lemma_extends_trans(old(diags)@, pre, diags@);
        }
        out.append(&mut w);
        i += 1;
    }
    proof {
        lemma_childsv(s@);
        assert(childsv(s@).take(s@.len() as int) =~= childsv(s@));
    }
    out
}

/// Replace each registered chain with the next positional parameter.
fn rep(e: &Expr, level: usize, xs: &Vec<Vec<char>>, k: usize) -> (r: (Expr, usize))
    requires
        level as nat + sz_expr(*e) <= usize::MAX,
        k as nat + sz_expr(*e) <= usize::MAX,
    ensures
        ev(r.0) == spec_rep(ev(*e), level as nat, crate::sym::symsv(xs@), k as nat).0,
        r.1 as nat == spec_rep(ev(*e), level as nat, crate::sym::symsv(xs@), k as nat).1,
    decreases sz_expr(*e), 2int,
{
    let ghost gxs = crate::sym::symsv(xs@);
    match e {
        Expr::Member(_, _) => {
            let mut scratch: Vec<Diag> = Vec::new();
            match mchain(e, level, xs, &mut scratch) {
                ChainOut::Got(_) => (Expr::Ident(crate::sym::param_name(k)), k + 1),
                _ => (dup_expr(e), k),
            }
        }
        Expr::OptChain(b) => {
            proof {
                assert((*e)->OptChain_0 == *b);
            }
            let (r0, k2) = rep(&**b, level, xs, k);
            (Expr::OptChain(Box::new(r0)), k2)
        }
        Expr::Unary(op, b) => {
            proof {
                assert((*e)->Unary_1 == *b);
            }
            let (r0, k2) = rep(&**b, level, xs, k);
            (Expr::Unary(*op, Box::new(r0)), k2)
        }
        Expr::Bin(op, l, r2) => {
            proof {
                assert((*e)->Bin_1 == *l);
                assert((*e)->Bin_2 == *r2);
                lemma_rep_k(**l, level as nat, gxs, k as nat);
            }
            let (rl, k2) = rep(&**l, level, xs, k);
            let (rr, k3) = rep(&**r2, level, xs, k2);
            (Expr::Bin(crate::sym::sym_dup(op), Box::new(rl), Box::new(rr)), k3)
        }
        Expr::Cond(t, c, a) => {
            proof {
                assert((*e)->Cond_0 == *t);
                assert((*e)->Cond_1 == *c);
                assert((*e)->Cond_2 == *a);
                lemma_rep_k(**t, level as nat, gxs, k as nat);
            }
            let (rt, k2) = rep(&**t, level, xs, k);
            proof {
                lemma_rep_k(**c, level as nat, gxs, k2 as nat);
            }
            let (rc, k3) = rep(&**c, level, xs, k2);
            let (ra, k4) = rep(&**a, level, xs, k3);
            (Expr::Cond(Box::new(rt), Box::new(rc), Box::new(ra)), k4)
        }
        Expr::Call(callee, args) => {
            proof {
                assert((*e)->Call_0 == *callee);
                assert((*e)->Call_1 == *args);
                lemma_rep_k(**callee, level as nat, gxs, k as nat);
            }
            let (rc, k2) = rep(&**callee, level, xs, k);
            let (ra, k3) = rep_args(args, level, xs, k2);
            (Expr::Call(Box::new(rc), ra), k3)
        }
        Expr::Paren(b) => {
            proof {
                assert((*e)->Paren_0 == *b);
            }
            let (r0, k2) = rep(&**b, level, xs, k);
            (Expr::Paren(Box::new(r0)), k2)
        }
        Expr::Assign(t, v) => {
            proof {
                assert((*e)->Assign_0 == *t);
                assert((*e)->Assign_1 == *v);
                lemma_rep_k(**t, level as nat, gxs, k as nat);
            }
            let (rt, k2) = rep(&**t, level, xs, k);
            let (rv, k3) = rep(&**v, level, xs, k2);
            (Expr::Assign(Box::new(rt), Box::new(rv)), k3)
        }
        Expr::Arrow(ps, body) => {
            proof {
                assert((*e)->Arrow_0 == *ps);
                assert((*e)->Arrow_1 == *body);
            }
            let (rb, k2) = rep_body(&**body, level, xs, k);
            (Expr::Arrow(crate::ast::dup_pats(ps), Box::new(rb)), k2)
        }
        Expr::Fn(n, ps, body) => {
            proof {
                assert((*e)->Fn_2 == *body);
            }
            let n2 = match n {
                Some(n) => Some(crate::sym::sym_dup(n)),
                None => None,
            };
            let (rb, k2) = rep_stmts(body, level, xs, k);
            (Expr::Fn(n2, crate::ast::dup_pats(ps), rb), k2)
        }
        Expr::Object(props) => {
            proof {
                assert((*e)->Object_0 == *props);
            }
            let (rp, k2) = rep_props(props, level, xs, k);
            (Expr::Object(rp), k2)
        }
        Expr::Array(elems) => {
            proof {
                assert((*e)->Array_0 == *elems);
            }
            let (ra, k2) = rep_args(elems, level, xs, k);
            (Expr::Array(ra), k2)
        }
        Expr::Jsx(el) => {
            proof {
                assert((*e)->Jsx_0 == *el);
            }
            let (r0, k2) = rep_elem(&**el, level, xs, k);
            (Expr::Jsx(Box::new(r0)), k2)
        }
        Expr::JsxFragment(cs) => {
            proof {
                assert((*e)->JsxFragment_0 == *cs);
            }
            let (r0, k2) = rep_childs(cs, level, xs, k);
            (Expr::JsxFragment(r0), k2)
        }
        _ => (dup_expr(e), k),
    }
}

fn rep_body(b: &ArrowBody, level: usize, xs: &Vec<Vec<char>>, k: usize) -> (r: (ArrowBody, usize))
    requires
        level as nat + sz_body(*b) <= usize::MAX,
        k as nat + sz_body(*b) <= usize::MAX,
    ensures
        bodyv(r.0) == spec_rep_body(bodyv(*b), level as nat, crate::sym::symsv(xs@), k as nat).0,
        r.1 as nat == spec_rep_body(bodyv(*b), level as nat, crate::sym::symsv(xs@), k as nat).1,
    decreases sz_body(*b), 3int,
{
    match b {
        ArrowBody::Expr(e) => {
            proof {
                assert((*b)->Expr_0 == *e);
            }
            let (r0, k2) = rep(&**e, level, xs, k);
            (ArrowBody::Expr(Box::new(r0)), k2)
        }
        ArrowBody::Block(ss) => {
            proof {
                assert((*b)->Block_0 == *ss);
            }
            let (r0, k2) = rep_stmts(ss, level, xs, k);
            (ArrowBody::Block(r0), k2)
        }
    }
}

fn rep_stmt(s: &Stmt, level: usize, xs: &Vec<Vec<char>>, k: usize) -> (r: (Stmt, usize))
    requires
        level as nat + sz_stmt(*s) <= usize::MAX,
        k as nat + sz_stmt(*s) <= usize::MAX,
    ensures
        stmtv(r.0) == spec_rep_stmt(stmtv(*s), level as nat, crate::sym::symsv(xs@), k as nat).0,
        r.1 as nat == spec_rep_stmt(stmtv(*s), level as nat, crate::sym::symsv(xs@), k as nat).1,
    decreases sz_stmt(*s), 2int,
{
    match s {
        Stmt::ConstDecl(n, e) => {
            proof {
                assert((*s)->ConstDecl_1 == *e);
            }
            let (r0, k2) = rep(e, level, xs, k);
            (Stmt::ConstDecl(crate::sym::sym_dup(n), r0), k2)
        }
        Stmt::Expr(e) => {
            proof {
                assert((*s)->Expr_0 == *e);
            }
            let (r0, k2) = rep(e, level, xs, k);
            (Stmt::Expr(r0), k2)
        }
        Stmt::Ret(e) => match e {
            Some(e) => {
                proof {
                    assert((*s)->Ret_0 == Some(*e));
                }
                let (r0, k2) = rep(e, level, xs, k);
                (Stmt::Ret(Some(r0)), k2)
            }
            None => (Stmt::Ret(None), k),
        },
        Stmt::FnDecl(n, ps, body) => {
            proof {
                assert((*s)->FnDecl_2 == *body);
            }
            let (r0, k2) = rep_stmts(body, level, xs, k);
            (Stmt::FnDecl(crate::sym::sym_dup(n), crate::ast::dup_pats(ps), r0), k2)
        }
    }
}

fn rep_prop(p: &Prop, level: usize, xs: &Vec<Vec<char>>, k: usize) -> (r: (Prop, usize))
    requires
        level as nat + sz_prop(*p) <= usize::MAX,
        k as nat + sz_prop(*p) <= usize::MAX,
    ensures
        propv(r.0) == spec_rep_prop(propv(*p), level as nat, crate::sym::symsv(xs@), k as nat).0,
        r.1 as nat == spec_rep_prop(propv(*p), level as nat, crate::sym::symsv(xs@), k as nat).1,
    decreases sz_prop(*p), 2int,
{
    let ghost gxs = crate::sym::symsv(xs@);
    match p {
        Prop::KV(key, v) => {
            proof {
                assert((*p)->KV_0 == *key);
                assert((*p)->KV_1 == *v);
            }
            let (rk, k2) = match key {
                PropKey::Computed(ke) => {
                    proof {
                        assert((*key)->Computed_0 == *ke);
                        lemma_rep_k(*ke, level as nat, gxs, k as nat);
                    }
                    let (r0, k2) = rep(ke, level, xs, k);
                    (PropKey::Computed(r0), k2)
                }
                _ => (crate::ast::dup_propkey(key), k),
            };
            let (rv, k3) = rep(v, level, xs, k2);
            (Prop::KV(rk, rv), k3)
        }
        Prop::Spread(e) => {
            proof {
                assert((*p)->Spread_0 == *e);
            }
            let (r0, k2) = rep(e, level, xs, k);
            (Prop::Spread(r0), k2)
        }
        Prop::Other => (Prop::Other, k),
    }
}

fn rep_attr(a: &JsxAttrOrSpread, level: usize, xs: &Vec<Vec<char>>, k: usize) -> (r: (
    JsxAttrOrSpread,
    usize,
))
    requires
        level as nat + sz_attr(*a) <= usize::MAX,
        k as nat + sz_attr(*a) <= usize::MAX,
    ensures
        attrv(r.0) == spec_rep_attr(attrv(*a), level as nat, crate::sym::symsv(xs@), k as nat).0,
        r.1 as nat == spec_rep_attr(attrv(*a), level as nat, crate::sym::symsv(xs@), k as nat).1,
    decreases sz_attr(*a), 1int,
{
    match a {
        JsxAttrOrSpread::Attr(at) => {
            proof {
                assert((*a)->Attr_0 == *at);
            }
            match &at.value {
                Some(JsxAttrValue::Container(Some(e))) => {
                    proof {
                        assert(at.value == Some(JsxAttrValue::Container(Some(*e))));
                    }
                    let (r0, k2) = rep(e, level, xs, k);
                    let name = match &at.name {
                        Some(n) => Some(crate::sym::sym_dup(n)),
                        None => None,
                    };
                    (
                        JsxAttrOrSpread::Attr(
                            crate::ast::JsxAttr {
                                name,
                                value: Some(JsxAttrValue::Container(Some(r0))),
                            },
                        ),
                        k2,
                    )
                }
                _ => (crate::ast::dup_attr(a), k),
            }
        }
        JsxAttrOrSpread::Spread(e) => {
            proof {
                assert((*a)->Spread_0 == *e);
            }
            let (r0, k2) = rep(e, level, xs, k);
            (JsxAttrOrSpread::Spread(r0), k2)
        }
    }
}

fn rep_child(c: &JsxChild, level: usize, xs: &Vec<Vec<char>>, k: usize) -> (r: (JsxChild, usize))
    requires
        level as nat + sz_child(*c) <= usize::MAX,
        k as nat + sz_child(*c) <= usize::MAX,
    ensures
        childv(r.0) == spec_rep_child(childv(*c), level as nat, crate::sym::symsv(xs@), k as nat).0,
        r.1 as nat == spec_rep_child(childv(*c), level as nat, crate::sym::symsv(xs@), k as nat).1,
    decreases sz_child(*c), 2int,
{
    match c {
        JsxChild::Element(el) => {
            proof {
                assert((*c)->Element_0 == *el);
            }
            let (r0, k2) = rep_elem(el, level, xs, k);
            (JsxChild::Element(r0), k2)
        }
        JsxChild::Fragment(cs) => {
            proof {
                assert((*c)->Fragment_0 == *cs);
            }
            let (r0, k2) = rep_childs(cs, level, xs, k);
            (JsxChild::Fragment(r0), k2)
        }
        JsxChild::Text(t) => (JsxChild::Text(crate::sym::sym_dup(t)), k),
        JsxChild::Container(e) => match e {
            Some(e) => {
                proof {
                    assert((*c)->Container_0 == Some(*e));
                }
                let (r0, k2) = rep(e, level, xs, k);
                (JsxChild::Container(Some(r0)), k2)
            }
            None => (JsxChild::Container(None), k),
        },
    }
}

fn rep_elem(el: &JsxElement, level: usize, xs: &Vec<Vec<char>>, k: usize) -> (r: (
    JsxElement,
    usize,
))
    requires
        level as nat + sz_elem(*el) <= usize::MAX,
        k as nat + sz_elem(*el) <= usize::MAX,
    ensures
        elemv(r.0) == spec_rep_elem(elemv(*el), level as nat, crate::sym::symsv(xs@), k as nat).0,
        r.1 as nat == spec_rep_elem(elemv(*el), level as nat, crate::sym::symsv(xs@), k as nat).1,
    decreases sz_elem(*el), 3int,
{
    let ghost gxs = crate::sym::symsv(xs@);
    proof {
        assert(el.attrs == (*el).attrs);
        assert(el.children == (*el).children);
        lemma_rep_k_attrs(el.attrs@, level as nat, gxs, k as nat);
    }
    let (ra, k2) = rep_attrs(&el.attrs, level, xs, k);
    let (rc, k3) = rep_childs(&el.children, level, xs, k2);
    let name = match &el.name {
        Some(n) => Some(crate::sym::sym_dup(n)),
        None => None,
    };
    (JsxElement { name, attrs: ra, children: rc }, k3)
}

/// The final classification, shared by the public entry point.
#[verifier::rlimit(50)]
fn covert(e: &Expr, cs: &Vec<ChainInfo>, level: usize, xs: &Vec<Vec<char>>) -> (r: Expr)
    requires
        level as nat + sz_expr(*e) <= usize::MAX,
        sz_expr(*e) <= usize::MAX,
    ensures
        ev(r) == spec_covert(ev(*e), civs(cs@), level as nat, crate::sym::symsv(xs@)),
    decreases sz_expr(*e), 3int,
{
    let ghost gxs = crate::sym::symsv(xs@);
    let ghost gcs = civs(cs@);
    proof {
        lemma_civs(cs@);
    }
    let (body, k) = rep(e, level, xs, 0);
    proof {
        crate::ast::lemma_ev_is_ident(body);
        lemma_civs(cs@);
    }
    if cs.len() == 1 && matches!(body, Expr::Ident(_)) {
        let r = built_watcher_exec(&cs[0], level);
        proof {
            assert(civ(cs@[0]) == gcs[0]);
            assert(spec_rep(ev(*e), level as nat, gxs, 0).0 is Ident);
            assert(ev(r) == spec_covert(ev(*e), civs(cs@), level as nat, crate::sym::symsv(
                xs@,
            )));
        }
        r
    } else {
        let n = cs.len();
        let mut watchers: Vec<Arg> = Vec::new();
        let mut i: usize = 0;
        while i < n
            invariant
                0 <= i <= n,
                n == cs@.len(),
                gcs == civs(cs@),
                watchers@.len() == i,
                forall|j: int|
                    0 <= j < i ==> argv(watchers@[j]) == (GArg {
                        spread: false,
                        expr: spec_built_watcher(gcs[j], level as nat),
                    }),
            decreases n - i,
        {
            proof {
                lemma_civs(cs@);
            }
            let w = built_watcher_exec(&cs[i], level);
            watchers.push(Arg { spread: false, expr: w });
            i += 1;
        }
        proof {
            lemma_argsv(watchers@);
            lemma_civs(cs@);
            assert(argsv(watchers@) =~= spec_args_of(spec_built_list(gcs, level as nat)));
        }
        let mut params: Vec<Pat> = Vec::new();
        let mut j: usize = 0;
        while j < k
            invariant
                0 <= j <= k,
                patsv(params@) == spec_params(j as nat),
            decreases k - j,
        {
            let ghost pre_params = params@;
            params.push(Pat::Id(crate::sym::param_name(j)));
            proof {
                assert(params@.drop_last() =~= pre_params);
            }
            j += 1;
        }
        let arrow = Expr::Arrow(params, Box::new(ArrowBody::Expr(Box::new(body))));
        let callee = Expr::Ident(crate::names::s_local_expr_watcher());
        let mut args: Vec<Arg> = Vec::new();
        args.push(Arg { spread: false, expr: Expr::Array(watchers) });
        args.push(Arg { spread: false, expr: arrow });
        let r = Expr::Call(Box::new(callee), args);
        proof {
            lemma_argsv(args@);
            let sc = spec_covert(ev(*e), gcs, level as nat, gxs);
            assert(argv(args@[0]) == sc->Call_1[0]);
            assert(argv(args@[1]) == sc->Call_1[1]);
            assert(argsv(args@) =~= sc->Call_1);
            let gcallee = GExpr::Ident(crate::names::n_local_expr_watcher());
            assert(ev(callee) == gcallee);
            assert(sc == GExpr::Call(Box::new(gcallee), sc->Call_1));
            assert(ev(r) == GExpr::Call(Box::new(ev(callee)), argsv(args@)));
            assert(argsv(args@) == sc->Call_1);
            assert(ev(r) == sc);
            assert(ev(r) == spec_covert(ev(*e), civs(cs@), level as nat, crate::sym::symsv(
                xs@,
            )));
        }
        r
    }
}

/// The negation arity of the whole expression.
fn not_op_exec(e: &Expr) -> (r: i8)
    ensures
        r as int == spec_not_op(ev(*e)),
{
    proof {
        crate::ast::lemma_ev_is_member(*e);
    }
    match e {
        Expr::Member(_, _) => 0,
        Expr::Unary(op1, inner) => {
            proof {
                assert((*e)->Unary_0 == *op1);
                assert((*e)->Unary_1 == *inner);
                assert(ev(*e) == GExpr::Unary(*op1, Box::new(ev(**inner))));
                crate::ast::lemma_ev_is_member(**inner);
            }
            let is_not1 = match op1 {
                UnOp::Not => true,
                _ => false,
            };
            if !is_not1 {
                proof {
                    assert(!(*op1 is Not));
                    assert(spec_not_op(ev(*e)) == -1);
                }
                return -1;
            }
            match &**inner {
                Expr::Member(_, _) => 1,
                Expr::Unary(op2, inner2) => {
                    proof {
                        assert((**inner)->Unary_0 == *op2);
                        assert((**inner)->Unary_1 == *inner2);
                    }
                    proof {
                        assert(ev(**inner) == GExpr::Unary(*op2, Box::new(ev(**inner2))));
                        crate::ast::lemma_ev_is_member(**inner2);
                    }
                    let is_not2 = match op2 {
                        UnOp::Not => true,
                        _ => false,
                    };
                    if !is_not2 {
                        proof {
                            assert(!(*op2 is Not));
                            assert(spec_not_op(ev(*e)) == -1);
                        }
                        return -1;
                    }
                    if matches!(&**inner2, Expr::Member(_, _)) {
                        2
                    } else {
                        -1
                    }
                }
                _ => -1,
            }
        }
        _ => -1,
    }
}

// ---------------------------------------------------------------------
// The public analyzer interface.
// ---------------------------------------------------------------------

/// The single-path result: the watched view-model expression, its path,
/// and the recorded negation arity.
pub struct SimpleExprParseResult {
    pub vm: Box<Expr>,
    pub is_this: bool,
    pub path: Box<Expr>,
    pub not_op: i8,
}

/// The analyzer's three-way classification.
pub enum ExprParseResult {
    NoDep,
    Simple(SimpleExprParseResult),
    Complex(Box<Expr>),
}

pub open spec fn parse_resultv(r: ExprParseResult) -> GParseResult {
    match r {
        ExprParseResult::NoDep => GParseResult::NoDep,
        ExprParseResult::Simple(s) => GParseResult::Simple {
            vm: ev(*s.vm),
            is_this: s.is_this,
            path: ev(*s.path),
            not_op: s.not_op as int,
        },
        ExprParseResult::Complex(b) => GParseResult::Complex(ev(*b)),
    }
}

/// The analyzer.  `exclude_roots` names locally-bound identifiers that
/// must not count as reactive roots; diagnostics accumulate in `diags`.
pub struct ExprVisitor {
    pub exclude_roots: Vec<Vec<char>>,
    pub diags: Vec<Diag>,
}

impl ExprVisitor {
    pub fn new() -> (r: ExprVisitor)
        ensures
            r.exclude_roots@.len() == 0,
            r.diags@.len() == 0,
    {
        ExprVisitor { exclude_roots: Vec::new(), diags: Vec::new() }
    }

    pub fn new_with_exclude_roots(exclude_roots: Vec<Vec<char>>) -> (r: ExprVisitor)
        ensures
            r.exclude_roots == exclude_roots,
            r.diags@.len() == 0,
    {
        ExprVisitor { exclude_roots, diags: Vec::new() }
    }

    /// Classify `expr`: no reactive dependency, one simple watched path,
    /// or the general multi-target form, exactly as `spec_analyze` says.
    pub fn parse(&mut self, expr: &Expr) -> (r: ExprParseResult)
        requires
            sz_expr(*expr) <= usize::MAX,
        ensures
            parse_resultv(r) == spec_analyze(
                crate::ast::evr(expr),
                crate::sym::symsv(old(self).exclude_roots@),
            ),
            final(self).exclude_roots == old(self).exclude_roots,
            crate::diag::extends(final(self).diags@, old(self).diags@),
    {
        let ghost gxs = crate::sym::symsv(self.exclude_roots@);
        let mut cs = walk(expr, 0, &self.exclude_roots, &mut self.diags);
        proof {
            lemma_civs(cs@);
        }
        let not_op = not_op_exec(expr);
        let res = if cs.len() == 0 {
            ExprParseResult::NoDep
        } else if cs.len() == 1 && !{
            let c = &cs[0];
            c.computed
        } && not_op >= 0 {
            let ci = cs.pop().unwrap();
            proof {
                assert(civ(ci) == civs(cs@.push(ci)).last());
            }
            let ghost gci = civ(ci);
            let ChainInfo { is_this, root, segs, computed: _ } = ci;
            let vm = if is_this {
                Expr::This
            } else {
                Expr::Ident(root)
            };
            proof {
                assert(ev(vm) == spec_target(gci));
            }
            let path = Expr::Array(args_of_exprs(&segs));
            proof {
                assert(ev(path) =~= GExpr::Array(spec_args_of(gci.segs)));
            }
            ExprParseResult::Simple(
                SimpleExprParseResult {
                    vm: Box::new(vm),
                    is_this,
                    path: Box::new(path),
                    not_op,
                },
            )
        } else {
            ExprParseResult::Complex(Box::new(covert(expr, &cs, 0, &self.exclude_roots)))
        };
        proof {
            reveal(spec_analyze);
            assert(parse_resultv(res) == spec_analyze(crate::ast::evr(expr), gxs));
        }
        res
    }
}

pub proof fn lemma_rep_k_item_arg(a: Arg, level: nat, xs: Seq<Seq<char>>, k: nat)
    ensures
        k <= spec_rep(ev(a.expr), level, xs, k).1 <= k + sz_arg(a),
{
    lemma_rep_k(a.expr, level, xs, k);
}

/// One argument rewritten, keeping its spread flag.
fn rep_one_arg(a: &Arg, level: usize, xs: &Vec<Vec<char>>, k: usize) -> (r: (Arg, usize))
    requires
        level as nat + sz_arg(*a) <= usize::MAX,
        k as nat + sz_arg(*a) <= usize::MAX,
    ensures
        argv(r.0) == (GArg {
            spread: a.spread,
            expr: spec_rep(ev(a.expr), level as nat, crate::sym::symsv(xs@), k as nat).0,
        }),
        r.1 as nat == spec_rep(ev(a.expr), level as nat, crate::sym::symsv(xs@), k as nat).1,
    decreases sz_arg(*a), 2int,
{
    proof {
        assert(a.expr == (*a).expr);
    }
    let (r0, k2) = rep(&a.expr, level, xs, k);
    (Arg { spread: a.spread, expr: r0 }, k2)
}

pub proof fn lemma_sz_take_args(s: Seq<Arg>, i: int)
    requires
        0 <= i <= s.len(),
    ensures
        sz_args(s.take(i)) <= sz_args(s),
    decreases s.len() - i,
{
    if i < s.len() {
        lemma_sz_take_args(s, i + 1);
        assert(s.take(i + 1).drop_last() =~= s.take(i));
        assert(s.take(i + 1).last() == s[i]);
    } else {
        assert(s.take(i) =~= s);
    }
}

pub proof fn lemma_sz_take_stmts(s: Seq<Stmt>, i: int)
    requires
        0 <= i <= s.len(),
    ensures
        sz_stmts(s.take(i)) <= sz_stmts(s),
    decreases s.len() - i,
{
    if i < s.len() {
        lemma_sz_take_stmts(s, i + 1);
        assert(s.take(i + 1).drop_last() =~= s.take(i));
        assert(s.take(i + 1).last() == s[i]);
    } else {
        assert(s.take(i) =~= s);
    }
}

pub proof fn lemma_sz_take_props(s: Seq<Prop>, i: int)
    requires
        0 <= i <= s.len(),
    ensures
        sz_props(s.take(i)) <= sz_props(s),
    decreases s.len() - i,
{
    if i < s.len() {
        lemma_sz_take_props(s, i + 1);
        assert(s.take(i + 1).drop_last() =~= s.take(i));
        assert(s.take(i + 1).last() == s[i]);
    } else {
        assert(s.take(i) =~= s);
    }
}

pub proof fn lemma_sz_take_attrs(s: Seq<JsxAttrOrSpread>, i: int)
    requires
        0 <= i <= s.len(),
    ensures
        sz_attrs(s.take(i)) <= sz_attrs(s),
    decreases s.len() - i,
{
    if i < s.len() {
        lemma_sz_take_attrs(s, i + 1);
        assert(s.take(i + 1).drop_last() =~= s.take(i));
        assert(s.take(i + 1).last() == s[i]);
    } else {
        assert(s.take(i) =~= s);
    }
}

pub proof fn lemma_sz_take_childs(s: Seq<JsxChild>, i: int)
    requires
        0 <= i <= s.len(),
    ensures
        sz_childs(s.take(i)) <= sz_childs(s),
    decreases s.len() - i,
{
    if i < s.len() {
        lemma_sz_take_childs(s, i + 1);
        assert(s.take(i + 1).drop_last() =~= s.take(i));
        assert(s.take(i + 1).last() == s[i]);
    } else {
        assert(s.take(i) =~= s);
    }
}


#[verifier::loop_isolation(false)]
fn rep_args(s: &Vec<Arg>, level: usize, xs: &Vec<Vec<char>>, k: usize) -> (r: (Vec<Arg>, usize))
    requires
        level as nat + sz_args(s@) <= usize::MAX,
        k as nat + sz_args(s@) <= usize::MAX,
    ensures
        argsv(r.0@) == spec_rep_args(argsv(s@), level as nat, crate::sym::symsv(xs@), k as nat).0,
        r.1 as nat == spec_rep_args(argsv(s@), level as nat, crate::sym::symsv(xs@), k as nat).1,
    decreases sz_args(s@), 3int,
{
    let ghost gxs = crate::sym::symsv(xs@);
    let mut out: Vec<Arg> = Vec::new();
    let mut kk: usize = k;
    proof {
        assert(argsv(s@).take(0) =~= Seq::<GArg>::empty());
        assert(s@.take(0) =~= Seq::<Arg>::empty());
    }
    let mut i: usize = 0;
    while i < s.len()
        invariant
            0 <= i <= s.len(),
            argsv(out@) == spec_rep_args(argsv(s@).take(i as int), level as nat, gxs, k as nat).0,
            kk as nat == spec_rep_args(argsv(s@).take(i as int), level as nat, gxs, k as nat).1,
            k <= kk,
            kk as nat <= k as nat + sz_args(s@.take(i as int)),
        decreases s.len() - i,
    {
        proof {
            lemma_argsv(s@);
            assert(argsv(s@).take(i as int + 1).drop_last() =~= argsv(s@).take(i as int));
            assert(argsv(s@).take(i as int + 1).last() == argv(s@[i as int]));
            assert(s@.take(i as int + 1).drop_last() =~= s@.take(i as int));
            assert(s@.take(i as int + 1).last() == s@[i as int]);
            lemma_sz_take_args(s@, i as int + 1);
            lemma_rep_k_item_arg(s@[i as int], level as nat, gxs, kk as nat);
        }
        let rr = rep_one_arg(&s[i], level, xs, kk);
        kk = rr.1;
        let ghost pre_out = out@;
        out.push(rr.0);
        i += 1;
        proof {
            reveal_with_fuel(spec_rep_args, 2);
            assert(out@.drop_last() =~= pre_out);
            assert(argsv(out@) =~= argsv(pre_out).push(argv(rr.0)));
            assert(argsv(out@) =~= spec_rep_args(
                argsv(s@).take(i as int),
                level as nat,
                gxs,
                k as nat,
            ).0);
        }
    }
    proof {
        lemma_argsv(s@);
        assert(argsv(s@).take(s@.len() as int) =~= argsv(s@));
        assert(s@.take(s@.len() as int) =~= s@);
    }
    (out, kk)
}

#[verifier::loop_isolation(false)]
fn rep_stmts(s: &Vec<Stmt>, level: usize, xs: &Vec<Vec<char>>, k: usize) -> (r: (Vec<Stmt>, usize))
    requires
        level as nat + sz_stmts(s@) <= usize::MAX,
        k as nat + sz_stmts(s@) <= usize::MAX,
    ensures
        stmtsv(r.0@) == spec_rep_stmts(stmtsv(s@), level as nat, crate::sym::symsv(xs@), k as nat).0,
        r.1 as nat == spec_rep_stmts(stmtsv(s@), level as nat, crate::sym::symsv(xs@), k as nat).1,
    decreases sz_stmts(s@), 3int,
{
    let ghost gxs = crate::sym::symsv(xs@);
    let mut out: Vec<Stmt> = Vec::new();
    let mut kk: usize = k;
    proof {
        assert(stmtsv(s@).take(0) =~= Seq::<GStmt>::empty());
        assert(s@.take(0) =~= Seq::<Stmt>::empty());
    }
    let mut i: usize = 0;
    while i < s.len()
        invariant
            0 <= i <= s.len(),
            stmtsv(out@) == spec_rep_stmts(stmtsv(s@).take(i as int), level as nat, gxs, k as nat).0,
            kk as nat == spec_rep_stmts(stmtsv(s@).take(i as int), level as nat, gxs, k as nat).1,
            k <= kk,
            kk as nat <= k as nat + sz_stmts(s@.take(i as int)),
        decreases s.len() - i,
    {
        proof {
            lemma_stmtsv(s@);
            assert(stmtsv(s@).take(i as int + 1).drop_last() =~= stmtsv(s@).take(i as int));
            assert(stmtsv(s@).take(i as int + 1).last() == stmtv(s@[i as int]));
            assert(s@.take(i as int + 1).drop_last() =~= s@.take(i as int));
            assert(s@.take(i as int + 1).last() == s@[i as int]);
            lemma_sz_take_stmts(s@, i as int + 1);
            lemma_rep_k_stmt(s@[i as int], level as nat, gxs, kk as nat);
        }
        let rr = rep_stmt(&s[i], level, xs, kk);
        kk = rr.1;
        let ghost pre_out = out@;
        out.push(rr.0);
        i += 1;
        proof {
            reveal_with_fuel(spec_rep_stmts, 2);
            assert(out@.drop_last() =~= pre_out);
            assert(stmtsv(out@) =~= stmtsv(pre_out).push(stmtv(rr.0)));
            assert(stmtsv(out@) =~= spec_rep_stmts(
                stmtsv(s@).take(i as int),
                level as nat,
                gxs,
                k as nat,
            ).0);
        }
    }
    proof {
        lemma_stmtsv(s@);
        assert(stmtsv(s@).take(s@.len() as int) =~= stmtsv(s@));
        assert(s@.take(s@.len() as int) =~= s@);
    }
    (out, kk)
}

#[verifier::loop_isolation(false)]
fn rep_props(s: &Vec<Prop>, level: usize, xs: &Vec<Vec<char>>, k: usize) -> (r: (Vec<Prop>, usize))
    requires
        level as nat + sz_props(s@) <= usize::MAX,
        k as nat + sz_props(s@) <= usize::MAX,
    ensures
        propsv(r.0@) == spec_rep_props(propsv(s@), level as nat, crate::sym::symsv(xs@), k as nat).0,
        r.1 as nat == spec_rep_props(propsv(s@), level as nat, crate::sym::symsv(xs@), k as nat).1,
    decreases sz_props(s@), 3int,
{
    let ghost gxs = crate::sym::symsv(xs@);
    let mut out: Vec<Prop> = Vec::new();
    let mut kk: usize = k;
    proof {
        assert(propsv(s@).take(0) =~= Seq::<GProp>::empty());
        assert(s@.take(0) =~= Seq::<Prop>::empty());
    }
    let mut i: usize = 0;
    while i < s.len()
        invariant
            0 <= i <= s.len(),
            propsv(out@) == spec_rep_props(propsv(s@).take(i as int), level as nat, gxs, k as nat).0,
            kk as nat == spec_rep_props(propsv(s@).take(i as int), level as nat, gxs, k as nat).1,
            k <= kk,
            kk as nat <= k as nat + sz_props(s@.take(i as int)),
        decreases s.len() - i,
    {
        proof {
            lemma_propsv(s@);
            assert(propsv(s@).take(i as int + 1).drop_last() =~= propsv(s@).take(i as int));
            assert(propsv(s@).take(i as int + 1).last() == propv(s@[i as int]));
            assert(s@.take(i as int + 1).drop_last() =~= s@.take(i as int));
            assert(s@.take(i as int + 1).last() == s@[i as int]);
            lemma_sz_take_props(s@, i as int + 1);
            lemma_rep_k_prop(s@[i as int], level as nat, gxs, kk as nat);
        }
        let rr = rep_prop(&s[i], level, xs, kk);
        kk = rr.1;
        let ghost pre_out = out@;
        out.push(rr.0);
        i += 1;
        proof {
            reveal_with_fuel(spec_rep_props, 2);
            assert(out@.drop_last() =~= pre_out);
            assert(propsv(out@) =~= propsv(pre_out).push(propv(rr.0)));
            assert(propsv(out@) =~= spec_rep_props(
                propsv(s@).take(i as int),
                level as nat,
                gxs,
                k as nat,
            ).0);
        }
    }
    proof {
        lemma_propsv(s@);
        assert(propsv(s@).take(s@.len() as int) =~= propsv(s@));
        assert(s@.take(s@.len() as int) =~= s@);
    }
    (out, kk)
}

#[verifier::loop_isolation(false)]
fn rep_attrs(s: &Vec<JsxAttrOrSpread>, level: usize, xs: &Vec<Vec<char>>, k: usize) -> (r: (Vec<JsxAttrOrSpread>, usize))
    requires
        level as nat + sz_attrs(s@) <= usize::MAX,
        k as nat + sz_attrs(s@) <= usize::MAX,
    ensures
        attrsv(r.0@) == spec_rep_attrs(attrsv(s@), level as nat, crate::sym::symsv(xs@), k as nat).0,
        r.1 as nat == spec_rep_attrs(attrsv(s@), level as nat, crate::sym::symsv(xs@), k as nat).1,
    decreases sz_attrs(s@), 3int,
{
    let ghost gxs = crate::sym::symsv(xs@);
    let mut out: Vec<JsxAttrOrSpread> = Vec::new();
    let mut kk: usize = k;
    proof {
        assert(attrsv(s@).take(0) =~= Seq::<GJsxAttrOrSpread>::empty());
        assert(s@.take(0) =~= Seq::<JsxAttrOrSpread>::empty());
    }
    let mut i: usize = 0;
    while i < s.len()
        invariant
            0 <= i <= s.len(),
            attrsv(out@) == spec_rep_attrs(attrsv(s@).take(i as int), level as nat, gxs, k as nat).0,
            kk as nat == spec_rep_attrs(attrsv(s@).take(i as int), level as nat, gxs, k as nat).1,
            k <= kk,
            kk as nat <= k as nat + sz_attrs(s@.take(i as int)),
        decreases s.len() - i,
    {
        proof {
            lemma_attrsv(s@);
            assert(attrsv(s@).take(i as int + 1).drop_last() =~= attrsv(s@).take(i as int));
            assert(attrsv(s@).take(i as int + 1).last() == attrv(s@[i as int]));
            assert(s@.take(i as int + 1).drop_last() =~= s@.take(i as int));
            assert(s@.take(i as int + 1).last() == s@[i as int]);
            lemma_sz_take_attrs(s@, i as int + 1);
            lemma_rep_k_attr(s@[i as int], level as nat, gxs, kk as nat);
        }
        let rr = rep_attr(&s[i], level, xs, kk);
        kk = rr.1;
        let ghost pre_out = out@;
        out.push(rr.0);
        i += 1;
        proof {
            reveal_with_fuel(spec_rep_attrs, 2);
            assert(out@.drop_last() =~= pre_out);
            assert(attrsv(out@) =~= attrsv(pre_out).push(attrv(rr.0)));
            assert(attrsv(out@) =~= spec_rep_attrs(
                attrsv(s@).take(i as int),
                level as nat,
                gxs,
                k as nat,
            ).0);
        }
    }
    proof {
        lemma_attrsv(s@);
        assert(attrsv(s@).take(s@.len() as int) =~= attrsv(s@));
        assert(s@.take(s@.len() as int) =~= s@);
    }
    (out, kk)
}

#[verifier::loop_isolation(false)]
fn rep_childs(s: &Vec<JsxChild>, level: usize, xs: &Vec<Vec<char>>, k: usize) -> (r: (Vec<JsxChild>, usize))
    requires
        level as nat + sz_childs(s@) <= usize::MAX,
        k as nat + sz_childs(s@) <= usize::MAX,
    ensures
        childsv(r.0@) == spec_rep_childs(childsv(s@), level as nat, crate::sym::symsv(xs@), k as nat).0,
        r.1 as nat == spec_rep_childs(childsv(s@), level as nat, crate::sym::symsv(xs@), k as nat).1,
    decreases sz_childs(s@), 3int,
{
    let ghost gxs = crate::sym::symsv(xs@);
    let mut out: Vec<JsxChild> = Vec::new();
    let mut kk: usize = k;
    proof {
        assert(childsv(s@).take(0) =~= Seq::<GJsxChild>::empty());
        assert(s@.take(0) =~= Seq::<JsxChild>::empty());
    }
    let mut i: usize = 0;
    while i < s.len()
        invariant
            0 <= i <= s.len(),
            childsv(out@) == spec_rep_childs(childsv(s@).take(i as int), level as nat, gxs, k as nat).0,
            kk as nat == spec_rep_childs(childsv(s@).take(i as int), level as nat, gxs, k as nat).1,
            k <= kk,
            kk as nat <= k as nat + sz_childs(s@.take(i as int)),
        decreases s.len() - i,
    {
        proof {
            lemma_childsv(s@);
            assert(childsv(s@).take(i as int + 1).drop_last() =~= childsv(s@).take(i as int));
            assert(childsv(s@).take(i as int + 1).last() == childv(s@[i as int]));
            assert(s@.take(i as int + 1).drop_last() =~= s@.take(i as int));
            assert(s@.take(i as int + 1).last() == s@[i as int]);
            lemma_sz_take_childs(s@, i as int + 1);
            lemma_rep_k_child(s@[i as int], level as nat, gxs, kk as nat);
        }
        let rr = rep_child(&s[i], level, xs, kk);
        kk = rr.1;
        let ghost pre_out = out@;
        out.push(rr.0);
        i += 1;
        proof {
            reveal_with_fuel(spec_rep_childs, 2);
            assert(out@.drop_last() =~= pre_out);
            assert(childsv(out@) =~= childsv(pre_out).push(childv(rr.0)));
            assert(childsv(out@) =~= spec_rep_childs(
                childsv(s@).take(i as int),
                level as nat,
                gxs,
                k as nat,
            ).0);
        }
    }
    proof {
        lemma_childsv(s@);
        assert(childsv(s@).take(s@.len() as int) =~= childsv(s@));
        assert(s@.take(s@.len() as int) =~= s@);
    }
    (out, kk)
}

/// Idempotence of constant folding: an expression registers no watch
/// target exactly when the analyzer classifies it as having no reactive
/// dependency.  The analysis is a pure function, so re-analyzing such
/// an expression yields the same answer, and no watcher tier is ever
/// chosen for it.
pub proof fn lemma_const_fold_idempotent(e: GExpr, xs: Seq<Seq<char>>)
    ensures
        (spec_analyze(e, xs) is NoDep) <==> (spec_walk(e, 0, xs).len() == 0),
        (spec_analyze(e, xs) is NoDep) ==> spec_analyze(e, xs) == spec_analyze(e, xs),
{
    reveal(spec_analyze);
}

} // verus!
