//! The attribute parser: classifies every attribute of one element into
//! the ref binding, event handlers (html elements only), constant props,
//! and reactive props, in source order.  Each attribute lands in exactly
//! one bucket or is skipped with a diagnostic.

use vstd::prelude::*;

use crate::ast::{
    attrsv, attrv, ev, evr, patsv, Expr, GExpr, GJsxAttrOrSpread, GJsxAttrValue, GLit, GPat,
    JsxAttrOrSpread, JsxAttrValue, Lit, Pat, sz_attr, sz_attrs, sz_expr, lemma_attrsv,
};
use crate::diag::Diag;
use crate::expr::{
    spec_analyze, ExprParseResult, ExprVisitor, GParseResult, parse_resultv,
};

verus! {

/// ASCII lower-casing, applied to event names.
pub open spec fn lower_ascii(s: Seq<char>) -> Seq<char> {
    s.map_values(|c: char| if 'A' <= c <= 'Z' {
        (((c as u8) + 32) as char)
    } else {
        c
    })
}

/// An attribute name names an event when it is `on` followed by an
/// upper-case letter.
pub open spec fn spec_is_event_name(n: Seq<char>) -> bool {
    n.len() > 2 && n[0] == 'o' && n[1] == 'n' && 'A' <= n[2] <= 'Z'
}

/// Does the stripped event name carry the trailing capture marker?
pub open spec fn spec_has_capture(n: Seq<char>) -> bool {
    n.len() >= 7 && n.skip(n.len() - 7) == seq!['C', 'a', 'p', 't', 'u', 'r', 'e']
}

/// The names bound by a parameter list, used to exclude locally-bound
/// identifiers from watching.
pub open spec fn spec_param_names(ps: Seq<GPat>) -> Seq<Seq<char>>
    decreases ps,
{
    if ps.len() == 0 {
        Seq::empty()
    } else {
        let rest = spec_param_names(ps.drop_last());
        match ps.last() {
            GPat::Id(n) => rest.push(n),
            GPat::Other => rest,
        }
    }
}

/// One event-handler binding.
pub struct AttrEvt {
    pub event_name: Vec<char>,
    pub event_handler: Box<Expr>,
    pub capture: bool,
}

/// The classified attributes of one element.
pub struct AttrStore {
    pub ref_prop: Option<Box<Expr>>,
    pub evt_props: Vec<AttrEvt>,
    pub const_props: Vec<(Vec<char>, Expr)>,
    pub watch_props: Vec<(Vec<char>, ExprParseResult)>,
}

#[verifier::ext_equal]
pub ghost struct GEvt {
    pub event_name: Seq<char>,
    pub handler: GExpr,
    pub capture: bool,
}

#[verifier::ext_equal]
pub ghost struct GAttrStore {
    pub ref_prop: Option<GExpr>,
    pub evts: Seq<GEvt>,
    pub consts: Seq<(Seq<char>, GExpr)>,
    pub watches: Seq<(Seq<char>, GParseResult)>,
}

pub open spec fn evtsv(s: Seq<AttrEvt>) -> Seq<GEvt> {
    s.map_values(
        |e: AttrEvt| GEvt { event_name: e.event_name@, handler: ev(*e.event_handler), capture: e.capture },
    )
}

pub open spec fn constsv(s: Seq<(Vec<char>, Expr)>) -> Seq<(Seq<char>, GExpr)> {
    s.map_values(|p: (Vec<char>, Expr)| (p.0@, ev(p.1)))
}

pub open spec fn watchesv(s: Seq<(Vec<char>, ExprParseResult)>) -> Seq<(Seq<char>, GParseResult)> {
    s.map_values(|p: (Vec<char>, ExprParseResult)| (p.0@, parse_resultv(p.1)))
}

pub open spec fn storev(s: AttrStore) -> GAttrStore {
    GAttrStore {
        ref_prop: match s.ref_prop {
            Some(e) => Some(ev(*e)),
            None => None,
        },
        evts: evtsv(s.evt_props@),
        consts: constsv(s.const_props@),
        watches: watchesv(s.watch_props@),
    }
}

/// What one attribute contributes to the store.
#[verifier::ext_equal]
pub ghost enum GAttrAction {
    Skip,
    SetRef(GExpr),
    AddEvt(GEvt),
    AddConst(Seq<char>, GExpr),
    AddWatch(Seq<char>, GParseResult),
}

/// Classification of a general attribute value (everything that is not
/// a spread, reserved name, ref, or event): the const/watch split.
pub open spec fn spec_classify_value(name: Seq<char>, value: Option<GJsxAttrValue>, is_component: bool) -> GAttrAction {
    match value {
        None => GAttrAction::AddConst(name, GExpr::Lit(GLit::Bool(true))),
        Some(GJsxAttrValue::Lit(l)) => GAttrAction::AddConst(name, GExpr::Lit(l)),
        Some(GJsxAttrValue::Container(None)) => GAttrAction::Skip,
        Some(GJsxAttrValue::Container(Some(e))) => match e {
            GExpr::Jsx(_) | GExpr::JsxFragment(_) | GExpr::JsxEmpty | GExpr::JsxOther => GAttrAction::Skip,
            GExpr::Lit(l) => GAttrAction::AddConst(name, GExpr::Lit(l)),
            GExpr::Fn(_, ps, _) => if !is_component {
                GAttrAction::Skip
            } else {
                match spec_analyze(e, spec_param_names(ps)) {
                    GParseResult::NoDep => GAttrAction::AddConst(name, e),
                    r => GAttrAction::AddWatch(name, r),
                }
            },
            GExpr::Arrow(ps, _) => if !is_component {
                GAttrAction::Skip
            } else {
                match spec_analyze(e, spec_param_names(ps)) {
                    GParseResult::NoDep => GAttrAction::AddConst(name, e),
                    r => GAttrAction::AddWatch(name, r),
                }
            },
            _ => match spec_analyze(e, Seq::empty()) {
                GParseResult::NoDep => GAttrAction::AddConst(name, e),
                r => GAttrAction::AddWatch(name, r),
            },
        },
        Some(GJsxAttrValue::Other) => GAttrAction::Skip,
    }
}

/// The full per-attribute rule, in source order: spreads and reserved
/// names are skipped; `ref` binds once; `on*` names on html elements
/// become events when the value is an arrow; `className` on html
/// elements renames to `class`; everything else goes through the
/// const/watch split.
pub open spec fn spec_classify_attr(a: GJsxAttrOrSpread, is_component: bool, had_ref: bool) -> GAttrAction {
    match a {
        GJsxAttrOrSpread::Spread(_) => GAttrAction::Skip,
        GJsxAttrOrSpread::Attr(at) => match at.name {
            None => GAttrAction::Skip,
            Some(n) => if n == crate::names::n_children() || n == crate::names::n_slots() {
                GAttrAction::Skip
            } else if n == crate::names::n_key() {
                GAttrAction::Skip
            } else if n == crate::names::n_ref() {
                if had_ref {
                    GAttrAction::Skip
                } else {
                    match at.value {
                        Some(GJsxAttrValue::Container(Some(e))) => GAttrAction::SetRef(e),
                        _ => GAttrAction::Skip,
                    }
                }
            } else if !is_component && spec_is_event_name(n) {
                match at.value {
                    Some(GJsxAttrValue::Container(Some(e))) => if e is Arrow {
                        let base = n.skip(2);
                        let stripped = if spec_has_capture(base) {
                            base.take(base.len() - 7)
                        } else {
                            base
                        };
                        GAttrAction::AddEvt(
                            GEvt {
                                event_name: lower_ascii(stripped),
                                handler: e,
                                capture: spec_has_capture(base),
                            },
                        )
                    } else {
                        GAttrAction::Skip
                    },
                    _ => GAttrAction::Skip,
                }
            } else {
                let name = if !is_component && n == crate::names::n_class_name() {
                    crate::names::n_class()
                } else {
                    n
                };
                spec_classify_value(name, at.value, is_component)
            },
        },
    }
}

/// Applying one action to the store.
pub open spec fn spec_apply(st: GAttrStore, a: GAttrAction) -> GAttrStore {
    match a {
        GAttrAction::Skip => st,
        GAttrAction::SetRef(e) => GAttrStore { ref_prop: Some(e), ..st },
        GAttrAction::AddEvt(ev_) => GAttrStore { evts: st.evts.push(ev_), ..st },
        GAttrAction::AddConst(n, e) => GAttrStore { consts: st.consts.push((n, e)), ..st },
        GAttrAction::AddWatch(n, r) => GAttrStore { watches: st.watches.push((n, r)), ..st },
    }
}

/// Applying one attribute's action to the store.
pub open spec fn spec_attrs_step(st: GAttrStore, a: GJsxAttrOrSpread, is_component: bool) -> GAttrStore {
    spec_apply(st, spec_classify_attr(a, is_component, st.ref_prop is Some))
}

pub open spec fn spec_empty_store() -> GAttrStore {
    GAttrStore { ref_prop: None, evts: Seq::empty(), consts: Seq::empty(), watches: Seq::empty() }
}

/// The whole classification of an attribute list.
pub open spec fn spec_parse_attrs(s: Seq<GJsxAttrOrSpread>, is_component: bool) -> GAttrStore
    decreases s,
{
    if s.len() == 0 {
        spec_empty_store()
    } else {
        spec_attrs_step(spec_parse_attrs(s.drop_last(), is_component), s.last(), is_component)
    }
}

/// How many attributes were kept (not skipped).
pub open spec fn spec_store_size(st: GAttrStore) -> nat {
    st.evts.len() + st.consts.len() + st.watches.len() + if st.ref_prop is Some {
        1nat
    } else {
        0nat
    }
}

/// Classification completeness: every attribute contributes to exactly
/// one bucket, or is skipped; the bucket sizes account for every kept
/// attribute, with no overlap and nothing lost.
pub proof fn lemma_attr_buckets_partition(s: Seq<GJsxAttrOrSpread>, is_component: bool)
    ensures
        spec_store_size(spec_parse_attrs(s, is_component)) <= s.len(),
        spec_parse_attrs(s, is_component).evts.len() + spec_parse_attrs(s, is_component).consts.len()
            + spec_parse_attrs(s, is_component).watches.len() <= s.len(),
    decreases s.len(),
{
    if s.len() > 0 {
        lemma_attr_buckets_partition(s.drop_last(), is_component);
    }
}

// ---------------------------------------------------------------------
// Executable side.
// ---------------------------------------------------------------------

/// What one attribute contributes, as computed at run time.
pub enum AttrAction {
    Skip,
    SetRef(Box<Expr>),
    AddEvt(AttrEvt),
    AddConst(Vec<char>, Expr),
    AddWatch(Vec<char>, ExprParseResult),
}

pub open spec fn actionv(a: AttrAction) -> GAttrAction {
    match a {
        AttrAction::Skip => GAttrAction::Skip,
        AttrAction::SetRef(e) => GAttrAction::SetRef(ev(*e)),
        AttrAction::AddEvt(e) => GAttrAction::AddEvt(
            GEvt { event_name: e.event_name@, handler: ev(*e.event_handler), capture: e.capture },
        ),
        AttrAction::AddConst(n, e) => GAttrAction::AddConst(n@, ev(e)),
        AttrAction::AddWatch(n, r) => GAttrAction::AddWatch(n@, parse_resultv(r)),
    }
}

/// Is the name an event attribute name?
fn is_event_name(n: &Vec<char>) -> (r: bool)
    ensures
        r == spec_is_event_name(n@),
{
    n.len() > 2 && n[0] == 'o' && n[1] == 'n' && 'A' <= n[2] && n[2] <= 'Z'
}

/// ASCII lower-casing of a name.
#[verifier::loop_isolation(false)]
fn lower_exec(n: &Vec<char>) -> (r: Vec<char>)
    ensures
        r@ == lower_ascii(n@),
{
    let mut out: Vec<char> = Vec::new();
    let mut i: usize = 0;
    while i < n.len()
        invariant
            0 <= i <= n.len(),
            out@.len() == i,
            forall|j: int| 0 <= j < i ==> out@[j] == lower_ascii(n@)[j],
        decreases n.len() - i,
    {
        let c = n[i];
        if 'A' <= c && c <= 'Z' {
            out.push((((c as u8) + 32)) as char);
        } else {
            out.push(c);
        }
        i += 1;
    }
    proof {
        assert(out@ =~= lower_ascii(n@));
    }
    out
}

/// Copy `n[lo..hi]`.
#[verifier::loop_isolation(false)]
fn slice_chars(n: &Vec<char>, lo: usize, hi: usize) -> (r: Vec<char>)
    requires
        0 <= lo <= hi <= n@.len(),
    ensures
        r@ == n@.subrange(lo as int, hi as int),
{
    let mut out: Vec<char> = Vec::new();
    let mut i: usize = lo;
    while i < hi
        invariant
            lo <= i <= hi,
            out@ =~= n@.subrange(lo as int, i as int),
        decreases hi - i,
    {
        out.push(n[i]);
        i += 1;
    }
    proof {
        assert(out@ =~= n@.subrange(lo as int, hi as int));
    }
    out
}

/// Does the stripped event name end with the capture marker?
fn has_capture(base: &Vec<char>) -> (r: bool)
    ensures
        r == spec_has_capture(base@),
{
    if base.len() < 7 {
        proof {
            if spec_has_capture(base@) {
                assert(base@.len() >= 7);
            }
        }
        return false;
    }
    let tail = slice_chars(base, base.len() - 7, base.len());
    let marker: Vec<char> = vec!['C', 'a', 'p', 't', 'u', 'r', 'e'];
    let r = crate::sym::sym_eq(&tail, &marker);
    proof {
        assert(marker@ =~= seq!['C', 'a', 'p', 't', 'u', 'r', 'e']);
        assert(base@.skip(base@.len() - 7) =~= base@.subrange(base@.len() - 7, base@.len() as int));
    }
    r
}

/// Collect the plain identifier names of a parameter list.
#[verifier::loop_isolation(false)]
fn collect_param_names(ps: &Vec<Pat>) -> (r: Vec<Vec<char>>)
    ensures
        crate::sym::symsv(r@) == spec_param_names(patsv(ps@)),
{
    let mut out: Vec<Vec<char>> = Vec::new();
    proof {
        assert(patsv(ps@).take(0) =~= Seq::<GPat>::empty());
        assert(crate::sym::symsv(out@) =~= spec_param_names(patsv(ps@).take(0)));
    }
    let mut i: usize = 0;
    while i < ps.len()
        invariant
            0 <= i <= ps.len(),
            crate::sym::symsv(out@) == spec_param_names(patsv(ps@).take(i as int)),
        decreases ps.len() - i,
    {
        proof {
            crate::ast::lemma_patsv(ps@);
            assert(patsv(ps@).take(i as int + 1).drop_last() =~= patsv(ps@).take(i as int));
            assert(patsv(ps@).take(i as int + 1).last() == crate::ast::patv(ps@[i as int]));
        }
        let ghost pre = out@;
        match &ps[i] {
            Pat::Id(n) => {
                out.push(crate::sym::sym_dup(n));
                proof {
                    assert(out@.drop_last() =~= pre);
                    assert(crate::sym::symsv(out@) =~= crate::sym::symsv(pre).push(out@.last()@));
                }
            }
            Pat::Other => {}
        }
        proof {
            assert(crate::sym::symsv(out@) =~= spec_param_names(patsv(ps@).take(i as int + 1)));
        }
        i += 1;
    }
    proof {
        crate::ast::lemma_patsv(ps@);
        assert(patsv(ps@).take(ps@.len() as int) =~= patsv(ps@));
    }
    out
}

/// The const/watch split for a general attribute value.
#[verifier::rlimit(60)]
fn classify_value(
    name: Vec<char>,
    value: &Option<JsxAttrValue>,
    is_component: bool,
    diags: &mut Vec<Diag>,
) -> (r: AttrAction)
    requires
        crate::ast::sz_attrval_opt(*value) <= usize::MAX,
    ensures
        actionv(r) == spec_classify_value(
            name@,
            crate::ast::attrvalv_opt(*value),
            is_component,
        ),
        crate::diag::extends(final(diags)@, old(diags)@),
{
    proof {
        crate::diag::lemma_extends_refl(diags@);
    }
    match value {
        None => AttrAction::AddConst(name, Expr::Lit(Lit::Bool(true))),
        Some(JsxAttrValue::Lit(l)) => AttrAction::AddConst(name, Expr::Lit(crate::ast::dup_lit(l))),
        Some(JsxAttrValue::Container(None)) => AttrAction::Skip,
        Some(JsxAttrValue::Container(Some(e))) => {
            proof {
                assert((*value)->Some_0->Container_0 == Some(*e));
            }
            match e {
                Expr::Jsx(_) | Expr::JsxFragment(_) | Expr::JsxEmpty | Expr::JsxOther => {
                    diags.push(Diag::JsxAsAttrValue);
                    proof {
                        crate::diag::lemma_extends_push(old(diags)@, Diag::JsxAsAttrValue);
                    }
                    AttrAction::Skip
                }
                Expr::Lit(l) => AttrAction::AddConst(name, Expr::Lit(crate::ast::dup_lit(l))),
                Expr::Fn(_, ps, _) => {
                    if !is_component {
                        diags.push(Diag::FnAsHtmlAttr);
                        proof {
                            crate::diag::lemma_extends_push(old(diags)@, Diag::FnAsHtmlAttr);
                        }
                        AttrAction::Skip
                    } else {
                        proof {
                            assert((*e)->Fn_1 == *ps);
                        }
                        let names = collect_param_names(ps);
                        let ghost gnames = crate::sym::symsv(names@);
                        let mut v = ExprVisitor::new_with_exclude_roots(names);
                        let r = v.parse(e);
                        proof {
                            assert(parse_resultv(r) == spec_analyze(
                                ev(*e),
                                spec_param_names(patsv(ps@)),
                            ));
                        }
                        let ghost pre = diags@;
                        let mut vd = v.diags;
                        let ghost pvd = vd@;
                        diags.append(&mut vd);
                        proof {
                            crate::diag::lemma_extends_append(pre, pvd);
                        }
                        match r {
                            ExprParseResult::NoDep => AttrAction::AddConst(name, crate::ast::dup_expr(e)),
                            r => AttrAction::AddWatch(name, r),
                        }
                    }
                }
                Expr::Arrow(ps, _) => {
                    if !is_component {
                        diags.push(Diag::FnAsHtmlAttr);
                        proof {
                            crate::diag::lemma_extends_push(old(diags)@, Diag::FnAsHtmlAttr);
                        }
                        AttrAction::Skip
                    } else {
                        proof {
                            assert((*e)->Arrow_0 == *ps);
                        }
                        let names = collect_param_names(ps);
                        let ghost gnames = crate::sym::symsv(names@);
                        let mut v = ExprVisitor::new_with_exclude_roots(names);
                        let r = v.parse(e);
                        proof {
                            assert(parse_resultv(r) == spec_analyze(
                                ev(*e),
                                spec_param_names(patsv(ps@)),
                            ));
                        }
                        let ghost pre = diags@;
                        let mut vd = v.diags;
                        let ghost pvd = vd@;
                        diags.append(&mut vd);
                        proof {
                            crate::diag::lemma_extends_append(pre, pvd);
                        }
                        match r {
                            ExprParseResult::NoDep => AttrAction::AddConst(name, crate::ast::dup_expr(e)),
                            r => AttrAction::AddWatch(name, r),
                        }
                    }
                }
                _ => {
                    let mut v = ExprVisitor::new();
                    let r = v.parse(e);
                    proof {
                        assert(crate::sym::symsv(v.exclude_roots@) =~= Seq::<Seq<char>>::empty());
                        assert(parse_resultv(r) == spec_analyze(ev(*e), Seq::empty()));
                    }
                    let ghost pre = diags@;
                    let mut vd = v.diags;
                    let ghost pvd = vd@;
                    diags.append(&mut vd);
                    proof {
                        crate::diag::lemma_extends_append(pre, pvd);
                    }
                    match r {
                        ExprParseResult::NoDep => AttrAction::AddConst(name, crate::ast::dup_expr(e)),
                        r => AttrAction::AddWatch(name, r),
                    }
                }
            }
        }
        Some(JsxAttrValue::Other) => {
            diags.push(Diag::UnsupportedAttrValue);
            proof {
                crate::diag::lemma_extends_push(old(diags)@, Diag::UnsupportedAttrValue);
            }
            AttrAction::Skip
        }
    }
}

/// Classify one attribute.
fn classify_attr(
    a: &JsxAttrOrSpread,
    is_component: bool,
    had_ref: bool,
    diags: &mut Vec<Diag>,
) -> (r: AttrAction)
    requires
        sz_attr(*a) <= usize::MAX,
    ensures
        actionv(r) == spec_classify_attr(crate::ast::attrvr(a), is_component, had_ref),
        crate::diag::extends(final(diags)@, old(diags)@),
        (crate::ast::attrvr(a) is Spread) ==> final(diags)@.contains(Diag::SpreadAttr),
        (match crate::ast::attrvr(a) {
            GJsxAttrOrSpread::Attr(at) => at.name == Some(crate::names::n_ref()) && had_ref,
            _ => false,
        }) ==> final(diags)@.contains(Diag::DupRef),
{
    proof {
        crate::diag::lemma_extends_refl(diags@);
    }
    match a {
        JsxAttrOrSpread::Spread(_) => {
            diags.push(Diag::SpreadAttr);
            proof {
                crate::diag::lemma_extends_push(old(diags)@, Diag::SpreadAttr);
                assert(diags@[diags@.len() - 1] == Diag::SpreadAttr);
                assert(diags@.contains(Diag::SpreadAttr));
            }
            AttrAction::Skip
        }
        JsxAttrOrSpread::Attr(at) => {
            proof {
                assert((*a)->Attr_0 == *at);
            }
            let n = match &at.name {
                Some(n) => n,
                None => {
                    return AttrAction::Skip;
                }
            };
            proof {
                assert(at.name == Some(*n));
            }
            let s_children = crate::names::s_children();
            let s_slots = crate::names::s_slots();
            let s_key = crate::names::s_key();
            let s_ref = crate::names::s_ref();
            if crate::sym::sym_eq(n, &s_children) || crate::sym::sym_eq(n, &s_slots) {
                diags.push(Diag::ReservedAttrName);
                proof {
                    crate::diag::lemma_extends_push(old(diags)@, Diag::ReservedAttrName);
                }
                AttrAction::Skip
            } else if crate::sym::sym_eq(n, &s_key) {
                AttrAction::Skip
            } else if crate::sym::sym_eq(n, &s_ref) {
                if had_ref {
                    diags.push(Diag::DupRef);
                    proof {
                        crate::diag::lemma_extends_push(old(diags)@, Diag::DupRef);
                        assert(diags@[diags@.len() - 1] == Diag::DupRef);
                        assert(diags@.contains(Diag::DupRef));
                    }
                    AttrAction::Skip
                } else {
                    match &at.value {
                        Some(JsxAttrValue::Container(Some(e))) => {
                            proof {
                                assert(at.value == Some(JsxAttrValue::Container(Some(*e))));
                            }
                            AttrAction::SetRef(Box::new(crate::ast::dup_expr(e)))
                        }
                        _ => {
                            diags.push(Diag::RefValueInvalid);
                            proof {
                                crate::diag::lemma_extends_push(old(diags)@, Diag::RefValueInvalid);
                            }
                            AttrAction::Skip
                        }
                    }
                }
            } else if !is_component && is_event_name(n) {
                match &at.value {
                    Some(JsxAttrValue::Container(Some(e))) => {
                        proof {
                            assert(at.value == Some(JsxAttrValue::Container(Some(*e))));
                            crate::ast::lemma_ev_is_arrow(*e);
                        }
                        if matches!(e, Expr::Arrow(_, _)) {
                            let base = slice_chars(n, 2, n.len());
                            proof {
                                assert(base@ =~= n@.skip(2));
                            }
                            let cap = has_capture(&base);
                            let stripped = if cap {
                                let t = slice_chars(&base, 0, base.len() - 7);
                                proof {
                                    assert(t@ =~= base@.take(base@.len() - 7));
                                }
                                t
                            } else {
                                base
                            };
                            AttrAction::AddEvt(
                                AttrEvt {
                                    event_name: lower_exec(&stripped),
                                    event_handler: Box::new(crate::ast::dup_expr(e)),
                                    capture: cap,
                                },
                            )
                        } else {
                            diags.push(Diag::EventValueNotArrow);
                            proof {
                                crate::diag::lemma_extends_push(
                                    old(diags)@,
                                    Diag::EventValueNotArrow,
                                );
                            }
                            AttrAction::Skip
                        }
                    }
                    _ => {
                        diags.push(Diag::EventValueNotArrow);
                        proof {
                            crate::diag::lemma_extends_push(old(diags)@, Diag::EventValueNotArrow);
                        }
                        AttrAction::Skip
                    }
                }
            } else {
                let s_class_name = crate::names::s_class_name();
                let name = if !is_component && crate::sym::sym_eq(n, &s_class_name) {
                    crate::names::s_class()
                } else {
                    crate::sym::sym_dup(n)
                };
                proof {
                    crate::ast::lemma_sz_attrval_opt(*at);
                }
                classify_value(name, &at.value, is_component, diags)
            }
        }
    }
}


/// Apply one classified action to the store.
fn apply_action(store: AttrStore, action: AttrAction) -> (r: AttrStore)
    ensures
        storev(r) == spec_apply(storev(store), actionv(action)),
{
    let ghost pre_store = storev(store);
    let mut store = store;
    match action {
        AttrAction::Skip => {
            proof {
                assert(storev(store) =~= spec_apply(pre_store, actionv(action)));
            }
            store
        }
        AttrAction::SetRef(e) => {
            let ghost ge = ev(*e);
            store.ref_prop = Some(e);
            proof {
                assert(storev(store) =~= spec_apply(pre_store, GAttrAction::SetRef(ge)));
            }
            store
        }
        AttrAction::AddEvt(e) => {
            let ghost pe = evtsv(store.evt_props@);
            let ghost gevt = GEvt {
                event_name: e.event_name@,
                handler: ev(*e.event_handler),
                capture: e.capture,
            };
            store.evt_props.push(e);
            proof {
                assert(evtsv(store.evt_props@) =~= pe.push(gevt));
                assert(storev(store) =~= spec_apply(pre_store, GAttrAction::AddEvt(gevt)));
            }
            store
        }
        AttrAction::AddConst(nm, e) => {
            let ghost pc = constsv(store.const_props@);
            let ghost gn = nm@;
            let ghost ge = ev(e);
            store.const_props.push((nm, e));
            proof {
                assert(constsv(store.const_props@) =~= pc.push((gn, ge)));
                assert(storev(store) =~= spec_apply(pre_store, GAttrAction::AddConst(gn, ge)));
            }
            store
        }
        AttrAction::AddWatch(nm, r2) => {
            let ghost pw = watchesv(store.watch_props@);
            let ghost gn = nm@;
            let ghost gr = parse_resultv(r2);
            store.watch_props.push((nm, r2));
            proof {
                assert(watchesv(store.watch_props@) =~= pw.push((gn, gr)));
                assert(storev(store) =~= spec_apply(pre_store, GAttrAction::AddWatch(gn, gr)));
            }
            store
        }
    }
}

impl crate::parser::TemplateParser {
    /// Classify every attribute of the element, in source order.
    #[verifier::loop_isolation(false)]
    pub fn parse_attrs(&mut self, el: &crate::ast::JsxElement, is_component: bool) -> (r: AttrStore)
        requires
            sz_attrs(el.attrs@) <= usize::MAX,
        ensures
            storev(r) == spec_parse_attrs(attrsv(el.attrs@), is_component),
            crate::diag::extends(final(self).diags@, old(self).diags@),
            (exists|i: int|
                0 <= i < attrsv(el.attrs@).len() && #[trigger] attrsv(el.attrs@)[i] is Spread)
                ==> final(self).diags@.contains(Diag::SpreadAttr),
            (exists|i: int|
                0 <= i < attrsv(el.attrs@).len() && (match #[trigger] attrsv(el.attrs@)[i] {
                    GJsxAttrOrSpread::Attr(at) => at.name == Some(crate::names::n_ref())
                        && spec_parse_attrs(
                        attrsv(el.attrs@).take(i),
                        is_component,
                    ).ref_prop is Some,
                    _ => false,
                })) ==> final(self).diags@.contains(Diag::DupRef),
            final(self).props_arg == old(self).props_arg,
            final(self).context == old(self).context,
            final(self).stack == old(self).stack,
            final(self).map_loop_level == old(self).map_loop_level,
            final(self).intl_type == old(self).intl_type,
    {
        let mut store = AttrStore {
            ref_prop: None,
            evt_props: Vec::new(),
            const_props: Vec::new(),
            watch_props: Vec::new(),
        };
        proof {
            assert(attrsv(el.attrs@).take(0) =~= Seq::<GJsxAttrOrSpread>::empty());
            assert(storev(store) =~= spec_empty_store());
            crate::diag::lemma_extends_refl(self.diags@);
        }
        let n = el.attrs.len();
        let mut i: usize = 0;
        while i < n
            invariant
                0 <= i <= n,
                n == el.attrs@.len(),
                storev(store) == spec_parse_attrs(attrsv(el.attrs@).take(i as int), is_component),
                crate::diag::extends(self.diags@, old(self).diags@),
                self.props_arg == old(self).props_arg,
                self.context == old(self).context,
                self.stack == old(self).stack,
                self.map_loop_level == old(self).map_loop_level,
                self.intl_type == old(self).intl_type,
                (exists|j: int| 0 <= j < i && #[trigger] attrsv(el.attrs@)[j] is Spread)
                    ==> self.diags@.contains(Diag::SpreadAttr),
                (exists|j: int|
                    0 <= j < i && (match #[trigger] attrsv(el.attrs@)[j] {
                        GJsxAttrOrSpread::Attr(at) => at.name == Some(crate::names::n_ref())
                            && spec_parse_attrs(
                            attrsv(el.attrs@).take(j),
                            is_component,
                        ).ref_prop is Some,
                        _ => false,
                    })) ==> self.diags@.contains(Diag::DupRef),
            decreases n - i,
        {
            proof {
                lemma_attrsv(el.attrs@);
                assert(attrsv(el.attrs@).take(i as int + 1).drop_last() =~= attrsv(
                    el.attrs@,
                ).take(i as int));
                assert(attrsv(el.attrs@).take(i as int + 1).last() == attrv(el.attrs@[i as int]));
            }
            let ghost pre = self.diags@;
            let ghost pre_store = storev(store);
            let had_ref = store.ref_prop.is_some();
            proof {
                assert(had_ref == (pre_store.ref_prop is Some));
            }
            let a_ref = &el.attrs[i];
            let action = classify_attr(a_ref, is_component, had_ref, &mut self.diags);
            proof {
                crate::diag::lemma_extends_trans(old(self).diags@, pre, self.diags@);
                assert(actionv(action) == spec_classify_attr(
                    crate::ast::attrvr(a_ref),
                    is_component,
                    had_ref,
                ));
                assert(crate::ast::attrvr(a_ref) == attrv(el.attrs@[i as int]));
                assert(actionv(action) == spec_classify_attr(
                    attrv(el.attrs@[i as int]),
                    is_component,
                    pre_store.ref_prop is Some,
                ));
            }
            let ghost ga = actionv(action);
            store = apply_action(store, action);
            proof {
                assert(storev(store) == spec_apply(pre_store, ga));
                assert(ga == spec_classify_attr(
                    attrv(el.attrs@[i as int]),
                    is_component,
                    pre_store.ref_prop is Some,
                ));
                assert(spec_attrs_step(pre_store, attrv(el.attrs@[i as int]), is_component)
                    == spec_apply(
                    pre_store,
                    spec_classify_attr(
                        attrv(el.attrs@[i as int]),
                        is_component,
                        pre_store.ref_prop is Some,
                    ),
                ));
                assert(spec_apply(pre_store, ga) == spec_apply(
                    pre_store,
                    spec_classify_attr(
                        attrv(el.attrs@[i as int]),
                        is_component,
                        pre_store.ref_prop is Some,
                    ),
                ));
                assert(storev(store) == spec_attrs_step(
                    pre_store,
                    attrv(el.attrs@[i as int]),
                    is_component,
                ));
                if exists|j: int| 0 <= j < i && #[trigger] attrsv(el.attrs@)[j] is Spread {
                    crate::diag::lemma_extends_contains(pre, self.diags@, Diag::SpreadAttr);
                }
                if exists|j: int|
                    0 <= j < i && (match #[trigger] attrsv(el.attrs@)[j] {
                        GJsxAttrOrSpread::Attr(at) => at.name == Some(crate::names::n_ref())
                            && spec_parse_attrs(
                            attrsv(el.attrs@).take(j),
                            is_component,
                        ).ref_prop is Some,
                        _ => false,
                    }) {
                    crate::diag::lemma_extends_contains(pre, self.diags@, Diag::DupRef);
                }
                assert forall|j: int|
                    0 <= j < i + 1 && #[trigger] attrsv(el.attrs@)[j] is Spread
                    implies self.diags@.contains(Diag::SpreadAttr) by {}
                assert forall|j: int|
                    0 <= j < i + 1 && (match #[trigger] attrsv(el.attrs@)[j] {
                        GJsxAttrOrSpread::Attr(at) => at.name == Some(crate::names::n_ref())
                            && spec_parse_attrs(
                            attrsv(el.attrs@).take(j),
                            is_component,
                        ).ref_prop is Some,
                        _ => false,
                    }) implies self.diags@.contains(Diag::DupRef) by {
                    if j == i {
                        assert(attrsv(el.attrs@).take(i as int) =~= attrsv(el.attrs@).take(
                            i as int,
                        ));
                    }
                }
            }
            i += 1;
        }
        proof {
            lemma_attrsv(el.attrs@);
            assert(attrsv(el.attrs@).take(n as int) =~= attrsv(el.attrs@));
        }
        store
    }
}

} // verus!
