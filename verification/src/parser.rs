//! The template walker: one `TemplateParser` per render expression,
//! holding the context stack of slot accumulators, dispatching on
//! expression kind, and collecting the emitted call expressions.

use vstd::prelude::*;

use crate::ast::{
    argsv, argv, ev, evr, lemma_childsv, childsv, childv, patsv, sz_expr, tsz_child, tsz_childs,
    tsz_expr, Arg, ArrowBody, Expr, GArg, GExpr, GPat, JsxChild, Lit, Pat, Prop, PropKey,
};
use crate::diag::Diag;
use crate::expr::{parse_resultv, spec_analyze, ExprParseResult, ExprVisitor, GParseResult};
use crate::tpl::{spec_tpl_render_const_text, spec_tpl_render_expr_text};

verus! {

/// The kind of boundary the current children are collected under.
#[derive(Clone, Copy, PartialEq, Eq, Structural, Debug)]
pub enum Parent {
    Component,
    Html,
    Svg,
}

/// Whether internationalized text keeps its default text in the output.
#[derive(Clone, Copy, PartialEq, Eq, Structural, Debug)]
pub enum IntlType {
    Disabled,
    Enabled(bool),
}

/// One accumulation bucket of child output: the default slot (empty
/// name) or a named slot, with the formal parameters its render
/// closure will take.
pub struct Slot {
    pub name: Vec<char>,
    pub params: Vec<Pat>,
    pub expressions: Vec<Arg>,
}

#[verifier::ext_equal]
pub ghost struct GSlot {
    pub name: Seq<char>,
    pub params: Seq<GPat>,
    pub exprs: Seq<GArg>,
}

pub open spec fn slotv(s: Slot) -> GSlot {
    GSlot { name: s.name@, params: patsv(s.params@), exprs: argsv(s.expressions@) }
}

pub open spec fn slotsv(s: Seq<Slot>) -> Seq<GSlot> {
    s.map_values(|x: Slot| slotv(x))
}

/// One nesting level of template transformation.
pub struct Context {
    pub parent: Parent,
    pub root_container: bool,
    pub slots: Vec<Slot>,
}

#[verifier::ext_equal]
pub ghost struct GCtx {
    pub parent: Parent,
    pub root: bool,
    pub slots: Seq<GSlot>,
}

pub open spec fn ctxv(c: Context) -> GCtx {
    GCtx { parent: c.parent, root: c.root_container, slots: slotsv(c.slots@) }
}

pub open spec fn stackv(s: Seq<Context>) -> Seq<GCtx> {
    s.map_values(|c: Context| ctxv(c))
}

/// A context always holds at least the default slot.
pub open spec fn ctx_wf(c: Context) -> bool {
    c.slots@.len() >= 1
}

impl Context {
    /// A fresh context: one unnamed default slot, no output yet.
    pub fn new(parent: Parent, root_container: bool) -> (r: Context)
        ensures
            r.parent == parent,
            r.root_container == root_container,
            ctxv(r).slots =~= seq![
                GSlot { name: Seq::empty(), params: Seq::empty(), exprs: Seq::empty() },
            ],
            ctx_wf(r),
    {
        let mut slots: Vec<Slot> = Vec::new();
        slots.push(Slot { name: Vec::new(), params: Vec::new(), expressions: Vec::new() });
        let r = Context { parent, root_container, slots };
        proof {
            assert(patsv(Seq::<Pat>::empty()) =~= Seq::<GPat>::empty());
            assert(argsv(Seq::<Arg>::empty()) =~= Seq::<GArg>::empty());
            assert(ctxv(r).slots =~= seq![
                GSlot { name: Seq::empty(), params: Seq::empty(), exprs: Seq::empty() },
            ]);
        }
        r
    }

    pub fn is_parent_svg(&self) -> (r: bool)
        ensures
            r == (self.parent is Svg),
    {
        matches!(self.parent, Parent::Svg)
    }

    pub fn is_parent_component(&self) -> (r: bool)
        ensures
            r == (self.parent is Component),
    {
        matches!(self.parent, Parent::Component)
    }
}

/// One slot kept across a walk step: the same name, parameters and
/// output only appended.
pub open spec fn slot_kept(x: GSlot, y: GSlot) -> bool {
    &&& y.name == x.name
    &&& x.params.is_prefix_of(y.params)
    &&& x.exprs.is_prefix_of(y.exprs)
}

pub proof fn lemma_slot_kept_refl(x: GSlot)
    ensures
        slot_kept(x, x),
{
    assert(x.params =~= x.params.subrange(0, x.params.len() as int));
    assert(x.exprs =~= x.exprs.subrange(0, x.exprs.len() as int));
}

pub proof fn lemma_slot_kept_trans(x: GSlot, y: GSlot, z: GSlot)
    requires
        slot_kept(x, y),
        slot_kept(y, z),
    ensures
        slot_kept(x, z),
{
    assert forall|j: int| 0 <= j < x.params.len() implies x.params[j] == z.params[j] by {
        assert(x.params[j] == y.params.subrange(0, x.params.len() as int)[j]);
        assert(y.params[j] == z.params.subrange(0, y.params.len() as int)[j]);
    }
    assert(x.params =~= z.params.subrange(0, x.params.len() as int));
    assert forall|j: int| 0 <= j < x.exprs.len() implies x.exprs[j] == z.exprs[j] by {
        assert(x.exprs[j] == y.exprs.subrange(0, x.exprs.len() as int)[j]);
        assert(y.exprs[j] == z.exprs.subrange(0, y.exprs.len() as int)[j]);
    }
    assert(x.exprs =~= z.exprs.subrange(0, x.exprs.len() as int));
}

/// The earlier slots are kept (same names, parameters and output only
/// appended), and further slots may follow.
pub open spec fn slots_extended(a: Seq<GSlot>, b: Seq<GSlot>) -> bool {
    &&& b.len() >= a.len()
    &&& forall|i: int| 0 <= i < a.len() ==> #[trigger] slot_kept(a[i], b[i])
}

/// The frame every walk step preserves: the boundary kind and container
/// flag are untouched, existing slots only grow, and outside a
/// non-root component boundary no new slot appears.
pub open spec fn ctx_extended(a: GCtx, b: GCtx) -> bool {
    &&& b.parent == a.parent
    &&& b.root == a.root
    &&& slots_extended(a.slots, b.slots)
    &&& (!(a.parent is Component) || a.root) ==> b.slots.len() == a.slots.len()
}

pub proof fn lemma_slots_extended_refl(a: Seq<GSlot>)
    ensures
        slots_extended(a, a),
{
    assert forall|i: int| 0 <= i < a.len() implies #[trigger] slot_kept(a[i], a[i]) by {
        lemma_slot_kept_refl(a[i]);
    }
}

pub proof fn lemma_slots_extended_trans(a: Seq<GSlot>, b: Seq<GSlot>, c: Seq<GSlot>)
    requires
        slots_extended(a, b),
        slots_extended(b, c),
    ensures
        slots_extended(a, c),
{
    assert forall|i: int| 0 <= i < a.len() implies #[trigger] slot_kept(a[i], c[i]) by {
        assert(slot_kept(a[i], b[i]));
        assert(slot_kept(b[i], c[i]));
        lemma_slot_kept_trans(a[i], b[i], c[i]);
    }
}

pub proof fn lemma_ctx_extended_refl(a: GCtx)
    ensures
        ctx_extended(a, a),
{
    lemma_slots_extended_refl(a.slots);
}

pub proof fn lemma_ctx_extended_trans(a: GCtx, b: GCtx, c: GCtx)
    requires
        ctx_extended(a, b),
        ctx_extended(b, c),
    ensures
        ctx_extended(a, c),
{
    lemma_slots_extended_trans(a.slots, b.slots, c.slots);
}

/// The template parser: the active context, the stack of suspended
/// outer contexts, the name of the component's props parameter if one
/// is in scope, the map-loop nesting depth, the intl configuration,
/// and the diagnostics sink.
pub struct TemplateParser {
    pub context: Context,
    pub stack: Vec<Context>,
    pub props_arg: Option<Vec<char>>,
    pub map_loop_level: usize,
    pub intl_type: IntlType,
    pub diags: Vec<Diag>,
}

pub open spec fn tp_wf(p: TemplateParser) -> bool {
    &&& ctx_wf(p.context)
    &&& forall|i: int| 0 <= i < p.stack@.len() ==> #[trigger] ctx_wf(p.stack@[i])
}

/// The frame every walk step preserves on the whole parser: stack,
/// props name, nesting depth and configuration untouched; the active
/// context extended; diagnostics appended.
pub open spec fn tp_frame(a: TemplateParser, b: TemplateParser) -> bool {
    &&& b.stack == a.stack
    &&& b.props_arg == a.props_arg
    &&& b.map_loop_level == a.map_loop_level
    &&& b.intl_type == a.intl_type
    &&& ctx_extended(ctxv(a.context), ctxv(b.context))
    &&& crate::diag::extends(b.diags@, a.diags@)
}

pub proof fn lemma_tp_frame_refl(a: TemplateParser)
    ensures
        tp_frame(a, a),
{
    lemma_ctx_extended_refl(ctxv(a.context));
    crate::diag::lemma_extends_refl(a.diags@);
}

pub proof fn lemma_tp_frame_trans(a: TemplateParser, b: TemplateParser, c: TemplateParser)
    requires
        tp_frame(a, b),
        tp_frame(b, c),
    ensures
        tp_frame(a, c),
{
    lemma_ctx_extended_trans(ctxv(a.context), ctxv(b.context), ctxv(c.context));
    crate::diag::lemma_extends_trans(a.diags@, b.diags@, c.diags@);
}

impl TemplateParser {
    /// A parser at the root of a component: a component boundary, the
    /// root container, nothing collected, nothing reported.
    pub fn new(props_arg: Option<Vec<char>>, intl_type: IntlType) -> (r: TemplateParser)
        ensures
            tp_wf(r),
            r.props_arg == props_arg,
            r.intl_type == intl_type,
            r.stack@.len() == 0,
            r.map_loop_level == 0,
            r.diags@.len() == 0,
            r.context.parent is Component,
            r.context.root_container,
            ctxv(r.context).slots.len() == 1,
            ctxv(r.context).slots[0].exprs.len() == 0,
    {
        TemplateParser {
            context: Context::new(Parent::Component, true),
            stack: Vec::new(),
            props_arg,
            map_loop_level: 0,
            intl_type,
            diags: Vec::new(),
        }
    }

    /// Suspend the current context and open a fresh one.
    pub fn push_context(&mut self, parent: Parent, root_container: bool)
        requires
            tp_wf(*old(self)),
        ensures
            tp_wf(*final(self)),
            final(self).stack@ == old(self).stack@.push(old(self).context),
            final(self).context.parent == parent,
            final(self).context.root_container == root_container,
            ctxv(final(self).context).slots =~= seq![
                GSlot { name: Seq::empty(), params: Seq::empty(), exprs: Seq::empty() },
            ],
            final(self).props_arg == old(self).props_arg,
            final(self).map_loop_level == old(self).map_loop_level,
            final(self).intl_type == old(self).intl_type,
            final(self).diags == old(self).diags,
    {
        let mut fresh = Context::new(parent, root_container);
        core::mem::swap(&mut self.context, &mut fresh);
        self.stack.push(fresh);
        proof {
            assert forall|i: int| 0 <= i < self.stack@.len() implies #[trigger] ctx_wf(
                self.stack@[i],
            ) by {
                if i < self.stack@.len() - 1 {
                    assert(self.stack@[i] == old(self).stack@[i]);
                }
            }
        }
    }

    /// Close the current context, restoring the suspended one, and hand
    /// the closed context back for its output to be consumed.
    pub fn pop_context(&mut self) -> (r: Context)
        requires
            tp_wf(*old(self)),
            old(self).stack@.len() > 0,
        ensures
            tp_wf(*final(self)),
            r == old(self).context,
            final(self).context == old(self).stack@.last(),
            final(self).stack@ == old(self).stack@.drop_last(),
            final(self).props_arg == old(self).props_arg,
            final(self).map_loop_level == old(self).map_loop_level,
            final(self).intl_type == old(self).intl_type,
            final(self).diags == old(self).diags,
    {
        let mut top = self.stack.pop().unwrap();
        core::mem::swap(&mut self.context, &mut top);
        top
    }

    /// Append one emitted expression to the innermost slot.
    pub fn push_expression(&mut self, e: Expr)
        requires
            tp_wf(*old(self)),
        ensures
            tp_wf(*final(self)),
            tp_frame(*old(self), *final(self)),
            ctxv(final(self).context).slots.len() == ctxv(old(self).context).slots.len(),
            ctxv(final(self).context).slots.last().exprs == ctxv(
                old(self).context,
            ).slots.last().exprs.push(GArg { spread: false, expr: evr(&e) }),
            final(self).diags == old(self).diags,
    {
        self.push_expression_inner(e, false);
    }

    /// Append one emitted expression, marked as a spread element.
    pub fn push_expression_with_spread(&mut self, e: Expr)
        requires
            tp_wf(*old(self)),
        ensures
            tp_wf(*final(self)),
            tp_frame(*old(self), *final(self)),
            ctxv(final(self).context).slots.len() == ctxv(old(self).context).slots.len(),
            ctxv(final(self).context).slots.last().exprs == ctxv(
                old(self).context,
            ).slots.last().exprs.push(GArg { spread: true, expr: evr(&e) }),
            final(self).diags == old(self).diags,
    {
        self.push_expression_inner(e, true);
    }

    #[verifier::loop_isolation(false)]
    fn push_expression_inner(&mut self, e: Expr, spread: bool)
        requires
            tp_wf(*old(self)),
        ensures
            tp_wf(*final(self)),
            tp_frame(*old(self), *final(self)),
            ctxv(final(self).context).slots.len() == ctxv(old(self).context).slots.len(),
            ctxv(final(self).context).slots.last().exprs == ctxv(
                old(self).context,
            ).slots.last().exprs.push(GArg { spread, expr: evr(&e) }),
            final(self).diags == old(self).diags,
    {
        let ghost pre = ctxv(old(self).context).slots;
        let ghost ge = evr(&e);
        let mut slot = self.context.slots.pop().unwrap();
        let ghost pre_exprs = slot.expressions@;
        let ghost pre_slot = slot;
        slot.expressions.push(Arg { spread, expr: e });
        proof {
            assert(slot.name == pre_slot.name);
            assert(slot.params == pre_slot.params);
            assert(slot.expressions@ =~= pre_exprs.push(Arg { spread, expr: e }));
            crate::ast::lemma_argsv(pre_exprs);
            assert(slot.expressions@.drop_last() =~= pre_exprs);
            assert(slot.expressions@.last() == Arg { spread, expr: e });
            assert(argv(Arg { spread, expr: e }) == GArg { spread, expr: ge });
            assert(argsv(slot.expressions@) =~= argsv(pre_exprs).push(GArg { spread, expr: ge }));
            assert(slotv(slot).exprs =~= slotv(pre_slot).exprs.push(GArg { spread, expr: ge }));
        }
        self.context.slots.push(slot);
        proof {
            assert(self.context.slots@ =~= old(self).context.slots@.drop_last().push(slot));
            let post = ctxv(self.context).slots;
            assert(post.len() == pre.len());
            assert forall|i: int| 0 <= i < pre.len() - 1 implies post[i] == pre[i] by {
                assert(self.context.slots@[i] == old(self).context.slots@[i]);
            }
            assert(pre.last() == slotv(pre_slot));
            assert(post.last() == slotv(slot));
            assert(post.last().exprs =~= pre.last().exprs.push(GArg { spread, expr: ge }));
            assert forall|i: int| 0 <= i < pre.len() implies #[trigger] slot_kept(
                pre[i],
                post[i],
            ) by {
                if i < pre.len() - 1 {
                    lemma_slot_kept_refl(pre[i]);
                } else {
                    assert(pre.last().params =~= post.last().params.subrange(
                        0,
                        pre.last().params.len() as int,
                    ));
                    assert(pre.last().exprs =~= post.last().exprs.subrange(
                        0,
                        pre.last().exprs.len() as int,
                    ));
                }
            }
            crate::diag::lemma_extends_refl(self.diags@);
        }
    }
}

/// What a generic reactive expression in child position appends: a
/// constant text render when the expression registers no watch target,
/// the watched-text form otherwise.
pub open spec fn spec_parse_expr_out(e: GExpr, is_parent_component: bool, root: bool) -> GExpr {
    match spec_analyze(e, Seq::empty()) {
        GParseResult::NoDep => spec_tpl_render_const_text(e, is_parent_component, root),
        pr => spec_tpl_render_expr_text(
            pr,
            GExpr::Ident(crate::names::n_v()),
            is_parent_component,
            root,
        ),
    }
}

impl TemplateParser {
    /// Generic reactive-expression lowering: analyze and emit a constant
    /// or watched text render into the innermost slot.
    pub fn parse_expr(&mut self, expr: &Expr)
        requires
            tp_wf(*old(self)),
            sz_expr(*expr) <= usize::MAX,
        ensures
            tp_wf(*final(self)),
            tp_frame(*old(self), *final(self)),
            ctxv(final(self).context).slots.len() == ctxv(old(self).context).slots.len(),
            ctxv(final(self).context).slots.last().exprs == ctxv(
                old(self).context,
            ).slots.last().exprs.push(
                GArg {
                    spread: false,
                    expr: spec_parse_expr_out(
                        evr(expr),
                        old(self).context.parent is Component,
                        old(self).context.root_container,
                    ),
                },
            ),
    {
        let ghost mid0 = *self;
        let mut v = ExprVisitor::new();
        let r = v.parse(expr);
        proof {
            assert(crate::sym::symsv(v.exclude_roots@) =~= Seq::<Seq<char>>::empty());
        }
        let ghost pre_d = self.diags@;
        let mut vd = v.diags;
        let ghost gvd = vd@;
        self.diags.append(&mut vd);
        proof {
            crate::diag::lemma_extends_append(pre_d, gvd);
        }
        let is_pc = self.context.is_parent_component();
        let root = self.context.root_container;
        let out = match r {
            ExprParseResult::NoDep => crate::tpl::tpl_render_const_text(
                crate::ast::dup_expr(expr),
                is_pc,
                root,
            ),
            r => crate::tpl::tpl_render_expr_text(
                r,
                Expr::Ident(crate::names::s_v()),
                is_pc,
                root,
            ),
        };
        let ghost mid = *self;
        self.push_expression(out);
        proof {
            lemma_tp_frame_refl(mid0);
            let m1 = TemplateParser { diags: mid.diags, ..mid0 };
            assert(tp_frame(mid0, mid));
            lemma_tp_frame_trans(mid0, mid, *self);
        }
    }
}

/// Does the expression hold a template element anywhere a render return
/// may carry one?
pub open spec fn spec_has_jsx(e: Expr) -> bool
    decreases e,
{
    match e {
        Expr::Jsx(_) => true,
        Expr::JsxFragment(_) => true,
        Expr::Cond(_, c, a) => spec_has_jsx(*c) || spec_has_jsx(*a),
        Expr::Bin(op, _, r) => op@ == crate::names::n_and() && spec_has_jsx(*r),
        Expr::Paren(b) => spec_has_jsx(*b),
        _ => false,
    }
}

/// Is the return expression one this pass takes over?
pub fn has_jsx(expr: &Expr) -> (r: bool)
    ensures
        r == spec_has_jsx(*expr),
    decreases sz_expr(*expr),
{
    match expr {
        Expr::Jsx(_) => true,
        Expr::JsxFragment(_) => true,
        Expr::Cond(_, c, a) => {
            proof {
                assert((*expr)->Cond_1 == *c);
                assert((*expr)->Cond_2 == *a);
            }
            has_jsx(&**c) || has_jsx(&**a)
        }
        Expr::Bin(op, _, r2) => {
            proof {
                assert((*expr)->Bin_0 == *op);
                assert((*expr)->Bin_2 == *r2);
            }
            let and = crate::names::s_and();
            crate::sym::sym_eq(op, &and) && has_jsx(&**r2)
        }
        Expr::Paren(b) => {
            proof {
                assert((*expr)->Paren_0 == *b);
            }
            has_jsx(&**b)
        }
        _ => false,
    }
}

} // verus!
