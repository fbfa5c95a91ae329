//! The component element emitter: builds the attribute object (made
//! reactive when any attribute is watched), the slot-rendering closures
//! gathered from the children, and the component construction sequence,
//! wrapped in an immediately-invoked closure that the caller appends as
//! a spread element.

use vstd::prelude::*;

use crate::ast::{
    argsv, argv, ast_create_arg_expr, ast_create_expr_arrow_fn, ast_create_expr_ident, ev, evr,
    lemma_argsv, lemma_patsv, lemma_stmtsv, patsv, stmtsv, stmtv, Arg, ArrowBody, Expr, GArg,
    GArrowBody, GExpr, GMemberProp, GPat, GStmt, MemberProp, Pat, Stmt,
};
use crate::attrs::{constsv, storev, watchesv, AttrStore, GAttrStore};
use crate::diag::Diag;
use crate::expr::{parse_resultv, GParseResult};
use crate::parser::{
    ctxv, slotsv, slotv, Context, GSlot, Slot, TemplateParser, ctx_wf, tp_frame, tp_wf,
    lemma_tp_frame_refl, lemma_tp_frame_trans,
};
use crate::tpl::{
    garg, spec_container, spec_tpl_lit_obj, spec_tpl_push_el_code, spec_tpl_set_ref_code,
    spec_tpl_watch_and_set_component_attr,
};

verus! {

/// The slot-rendering closure for one slot: the threaded host parameter
/// followed by the slot's own parameters, returning the array of the
/// slot's collected expressions.
pub open spec fn spec_slot_arrow(s: GSlot) -> GExpr {
    GExpr::Arrow(
        seq![GPat::Id(crate::names::n_host())] + s.params,
        Box::new(GArrowBody::Expr(Box::new(GExpr::Array(s.exprs)))),
    )
}

/// The named-slot object members: one per populated named slot, in
/// order, skipping the default slot at position zero.
pub open spec fn spec_named_slot_props(slots: Seq<GSlot>) -> Seq<(Seq<char>, GExpr)>
    decreases slots.len(),
{
    if slots.len() == 0 {
        Seq::empty()
    } else {
        spec_named_slot_props(slots.drop_last()) + (if slots.last().exprs.len() > 0 {
            seq![(slots.last().name, spec_slot_arrow(slots.last()))]
        } else {
            Seq::<(Seq<char>, GExpr)>::empty()
        })
    }
}

/// The constructor arguments: the container's context, then the slots
/// object (several named slots), a single default-slot closure, or
/// nothing when no child content was collected.
pub open spec fn spec_component_ctor_args(slots: Seq<GSlot>, root: bool) -> Seq<GArg> {
    let ctx_arg = garg(
        GExpr::Member(
            Box::new(spec_container(root)),
            GMemberProp::Computed(Box::new(GExpr::Ident(crate::names::n_local_context()))),
        ),
    );
    if slots.len() > 1 {
        seq![ctx_arg, garg(spec_tpl_lit_obj(spec_named_slot_props(slots.skip(1))))]
    } else if slots[0].exprs.len() > 0 {
        seq![ctx_arg, garg(spec_slot_arrow(slots[0]))]
    } else {
        seq![ctx_arg]
    }
}

/// The whole component output, an immediately-invoked closure: the
/// attribute object (wrapped in the make-reactive helper when a watched
/// attribute exists), one watcher statement per watched attribute, the
/// component construction, node and ref registration, and the render
/// call.
pub open spec fn spec_component_decls(st: GAttrStore) -> Seq<GStmt> {
    let attr_obj = if st.watches.len() > 0 {
        GExpr::Call(
            Box::new(GExpr::Ident(crate::names::n_local_vm())),
            seq![garg(spec_tpl_lit_obj(st.consts))],
        )
    } else {
        spec_tpl_lit_obj(st.consts)
    };
    if st.consts.len() == 0 && st.watches.len() == 0 {
        Seq::empty()
    } else {
        seq![GStmt::ConstDecl(crate::names::n_attrs_local(), attr_obj)]
    }
}

pub open spec fn spec_component_watch_stmts(
    ws: Seq<(Seq<char>, GParseResult)>,
    root: bool,
) -> Seq<GStmt> {
    ws.map_values(
        |w: (Seq<char>, GParseResult)| GStmt::Expr(
            spec_tpl_watch_and_set_component_attr(w.0, w.1, root),
        ),
    )
}

pub open spec fn spec_component_el_decl(
    slots: Seq<GSlot>,
    parent_component: bool,
    root: bool,
) -> Seq<GStmt> {
    let ctor = if slots.len() > 1 {
        crate::names::n_local_new_component_with_slots()
    } else {
        crate::names::n_local_new_component_with_default_slot()
    };
    seq![
        GStmt::ConstDecl(
            crate::names::n_el(),
            GExpr::Call(
                Box::new(GExpr::Ident(ctor)),
                spec_component_ctor_args(slots, root),
            ),
        ),
        GStmt::Expr(spec_tpl_push_el_code(parent_component, root)),
    ]
}

pub open spec fn spec_component_refs(st: GAttrStore) -> Seq<GStmt> {
    match st.ref_prop {
        Some(r) => seq![GStmt::Expr(spec_tpl_set_ref_code(r))],
        None => Seq::empty(),
    }
}

pub open spec fn spec_component_ret(st: GAttrStore, tag: Seq<char>) -> Seq<GStmt> {
    let render_base = seq![
        garg(GExpr::Ident(crate::names::n_el())),
        garg(GExpr::Ident(tag)),
    ];
    let render_args = if st.consts.len() == 0 && st.watches.len() == 0 {
        render_base
    } else {
        render_base.push(garg(GExpr::Ident(crate::names::n_attrs_local())))
    };
    seq![
        GStmt::Ret(
            Some(
                GExpr::Call(
                    Box::new(GExpr::Ident(crate::names::n_local_render_fc())),
                    render_args,
                ),
            ),
        ),
    ]
}

pub open spec fn spec_assemble_component(
    tag: Seq<char>,
    st: GAttrStore,
    slots: Seq<GSlot>,
    parent_component: bool,
    root: bool,
) -> GExpr {
    let stmts = spec_component_decls(st) + spec_component_watch_stmts(st.watches, root)
        + spec_component_el_decl(slots, parent_component, root) + spec_component_refs(st)
        + spec_component_ret(st, tag);
    GExpr::Call(
        Box::new(GExpr::Arrow(Seq::empty(), Box::new(GArrowBody::Block(stmts)))),
        Seq::empty(),
    )
}

/// Build one slot-rendering closure, consuming the slot.
fn slot_arrow(s: Slot) -> (out: Expr)
    ensures
        ev(out) == spec_slot_arrow(slotv(s)),
{
    let ghost gs = slotv(s);
    let Slot { name: _, params, expressions } = s;
    let mut ps: Vec<Pat> = Vec::new();
    ps.push(Pat::Id(crate::names::s_host()));
    let ghost pre_ps = ps@;
    let mut rest = params;
    let ghost pre_rest = rest@;
    ps.append(&mut rest);
    proof {
        assert(ps@ =~= pre_ps + pre_rest);
        crate::ast::lemma_patsv(pre_ps);
        lemma_patsv_concat(pre_ps, pre_rest);
        assert(patsv(pre_ps) =~= seq![GPat::Id(crate::names::n_host())]);
        assert(patsv(ps@) =~= seq![GPat::Id(crate::names::n_host())] + gs.params);
    }
    let body = Expr::Array(expressions);
    proof {
        assert(ev(body) == GExpr::Array(gs.exprs));
    }
    let out = ast_create_expr_arrow_fn(ps, ArrowBody::Expr(Box::new(body)));
    proof {
        assert(ev(out) == spec_slot_arrow(gs));
    }
    out
}

pub proof fn lemma_patsv_concat(a: Seq<Pat>, b: Seq<Pat>)
    ensures
        patsv(a + b) == patsv(a) + patsv(b),
    decreases b.len(),
{
    if b.len() == 0 {
        assert(a + b =~= a);
        assert(patsv(a + b) =~= patsv(a) + patsv(b));
    } else {
        lemma_patsv_concat(a, b.drop_last());
        assert((a + b).drop_last() =~= a + b.drop_last());
        assert((a + b).last() == b.last());
        assert(patsv(a + b) =~= patsv(a) + patsv(b));
    }
}

/// Build the constructor arguments from the popped children context,
/// reporting stray default-slot content beside named slots.
#[verifier::loop_isolation(false)]
#[verifier::rlimit(90)]
fn component_ctor_args(slots_in: Vec<Slot>, root: bool, diags: &mut Vec<Diag>) -> (out: Vec<Arg>)
    requires
        slots_in@.len() >= 1,
    ensures
        argsv(out@) == spec_component_ctor_args(slotsv(slots_in@), root),
        crate::diag::extends(final(diags)@, old(diags)@),
{
    let ghost gslots = slotsv(slots_in@);
    proof {
        crate::diag::lemma_extends_refl(diags@);
    }
    let ghost gctx_arg = garg(
        GExpr::Member(
            Box::new(spec_container(root)),
            GMemberProp::Computed(Box::new(GExpr::Ident(crate::names::n_local_context()))),
        ),
    );
    let ctx_id = ast_create_expr_ident(crate::names::s_local_context());
    proof {
        assert(ev(ctx_id) == GExpr::Ident(crate::names::n_local_context()));
    }
    let ctx_mem = crate::ast::ast_create_expr_member(
        crate::ast::ast_create_id_of_container(root),
        MemberProp::Computed(Box::new(ctx_id)),
    );
    proof {
        assert(ev(ctx_mem) == gctx_arg.expr);
    }
    let mut cargs: Vec<Arg> = Vec::new();
    cargs.push(ast_create_arg_expr(ctx_mem));
    let mut slots = slots_in;
    let has_named = slots.len() > 1;
    if has_named {
        let default = slots.remove(0);
        if default.expressions.len() > 0 {
            let ghost pre_d = diags@;
            diags.push(Diag::MixedSlotContent);
            proof {
                crate::diag::lemma_extends_push(pre_d, Diag::MixedSlotContent);
            }
        }
        proof {
            assert forall|k: int| 0 <= k < slots@.len() implies slotsv(slots@)[k]
                == gslots.skip(1)[k] by {
                assert(slotsv(slots_in@)[k + 1] == gslots[k + 1]);
            }
            assert(slotsv(slots@) =~= gslots.skip(1));
        }
        let ghost gnamed = gslots.skip(1);
        let mut props: Vec<(Vec<char>, Expr)> = Vec::new();
        proof {
            assert(slotsv(slots@) =~= gnamed.skip(0));
            assert(constsv(props@) =~= spec_named_slot_props(gnamed.take(0)));
        }
        while slots.len() > 0
            invariant
                slots@.len() <= gnamed.len(),
                slotsv(slots@) =~= gnamed.skip(gnamed.len() - slots@.len()),
                constsv(props@) =~= spec_named_slot_props(
                    gnamed.take(gnamed.len() - slots@.len()),
                ),
            decreases slots.len(),
        {
            let ghost j = gnamed.len() - slots@.len();
            let ghost pre_slots = slots@;
            let s = slots.remove(0);
            proof {
                assert(slotsv(pre_slots)[0] == gnamed.skip(j as int)[0]);
                assert(slotv(s) == gnamed[j as int]);
                assert(slots@ =~= pre_slots.skip(1));
                assert forall|k: int| 0 <= k < slots@.len() implies slotsv(slots@)[k]
                    == gnamed.skip(j as int + 1)[k] by {
                    assert(slotsv(pre_slots)[k + 1] == gnamed.skip(j as int)[k + 1]);
                }
                assert(slotsv(slots@) =~= gnamed.skip(j as int + 1));
                assert(gnamed.take(j as int + 1).drop_last() =~= gnamed.take(j as int));
                assert(gnamed.take(j as int + 1).last() == gnamed[j as int]);
            }
            let ghost gs = slotv(s);
            if s.expressions.len() > 0 {
                let name = crate::sym::sym_dup(&s.name);
                let arrow = slot_arrow(s);
                let ghost pre_props = props@;
                props.push((name, arrow));
                proof {
                    assert(props@.drop_last() =~= pre_props);
                    assert(constsv(props@) =~= constsv(pre_props).push(
                        (gs.name, spec_slot_arrow(gs)),
                    ));
                    assert(spec_named_slot_props(gnamed.take(j as int + 1))
                        =~= spec_named_slot_props(gnamed.take(j as int)) + seq![
                        (gs.name, spec_slot_arrow(gs)),
                    ]);
                    assert(constsv(props@) =~= spec_named_slot_props(
                        gnamed.take(j as int + 1),
                    ));
                }
            } else {
                proof {
                    assert(spec_named_slot_props(gnamed.take(j as int + 1))
                        =~= spec_named_slot_props(gnamed.take(j as int)));
                }
            }
        }
        proof {
            assert(gnamed.take(gnamed.len() as int) =~= gnamed);
        }
        let obj = crate::tpl::tpl_lit_obj(props);
        cargs.push(ast_create_arg_expr(obj));
        proof {
            lemma_argsv(cargs@);
            assert(argsv(cargs@) =~= spec_component_ctor_args(gslots, root));
        }
    } else {
        let default = slots.remove(0);
        proof {
            assert(slotv(default) == gslots[0]);
        }
        if default.expressions.len() > 0 {
            let arrow = slot_arrow(default);
            cargs.push(ast_create_arg_expr(arrow));
            proof {
                lemma_argsv(cargs@);
                assert(argsv(cargs@) =~= spec_component_ctor_args(gslots, root));
            }
        } else {
            proof {
                lemma_argsv(cargs@);
                assert(argsv(cargs@) =~= spec_component_ctor_args(gslots, root));
            }
        }
    }
    cargs
}

impl TemplateParser {
    /// Assemble the output of one component element from its classified
    /// attributes and the context popped after visiting its children,
    /// and append it to the innermost slot as a spread element.  Named
    /// slots beside stray default-slot content draw a diagnostic; the
    /// stray content is dropped.
    #[verifier::loop_isolation(false)]
    #[verifier::rlimit(90)]
    pub fn assemble_component(&mut self, tag: Vec<char>, attrs: AttrStore, children: Context)
        requires
            tp_wf(*old(self)),
            ctx_wf(children),
        ensures
            tp_wf(*final(self)),
            tp_frame(*old(self), *final(self)),
            ctxv(final(self).context).slots.len() == ctxv(old(self).context).slots.len(),
            ctxv(final(self).context).slots.last().exprs == ctxv(
                old(self).context,
            ).slots.last().exprs.push(
                GArg {
                    spread: true,
                    expr: spec_assemble_component(
                        tag@,
                        storev(attrs),
                        slotsv(children.slots@),
                        old(self).context.parent is Component,
                        old(self).context.root_container,
                    ),
                },
            ),
    {
        let ghost gst = storev(attrs);
        let ghost gslots = slotsv(children.slots@);
        let ghost gtag = tag@;
        let parent_component = self.context.is_parent_component();
        let root = self.context.root_container;
        let ghost sout = spec_assemble_component(gtag, gst, gslots, parent_component, root);
        let AttrStore { ref_prop, evt_props: _, const_props, watch_props } = attrs;
        let attrs_empty = const_props.len() == 0 && watch_props.len() == 0;
        proof {
            assert(gst.consts == constsv(const_props@));
            assert(gst.watches == watchesv(watch_props@));
            assert(gst.consts.len() == const_props@.len());
            assert(gst.watches.len() == watch_props@.len());
            assert(attrs_empty == (gst.consts.len() == 0 && gst.watches.len() == 0));
        }
        let mut stmts: Vec<Stmt> = Vec::new();
        if !attrs_empty {
            let obj = crate::tpl::tpl_lit_obj(const_props);
            proof {
                assert(ev(obj) == spec_tpl_lit_obj(gst.consts));
            }
            let attr_obj = if watch_props.len() > 0 {
                let mut vargs: Vec<Arg> = Vec::new();
                let a0 = ast_create_arg_expr(obj);
                let ghost ga0 = argv(a0);
                vargs.push(a0);
                let vcallee = Expr::Ident(crate::names::s_local_vm());
                let c = Expr::Call(Box::new(vcallee), vargs);
                proof {
                    lemma_argsv(vargs@);
                    assert(argv(vargs@[0]) == ga0);
                    assert(ga0 == garg(spec_tpl_lit_obj(gst.consts)));
                    assert(argsv(vargs@) =~= seq![garg(spec_tpl_lit_obj(gst.consts))]);
                    assert(ev(vcallee) == GExpr::Ident(crate::names::n_local_vm()));
                    assert(ev(c) == GExpr::Call(
                        Box::new(GExpr::Ident(crate::names::n_local_vm())),
                        seq![garg(spec_tpl_lit_obj(gst.consts))],
                    ));
                }
                c
            } else {
                obj
            };
            stmts.push(Stmt::ConstDecl(crate::names::s_attrs_local(), attr_obj));
        }
        let ghost gdecls: Seq<GStmt> = spec_component_decls(gst);
        proof {
            lemma_stmtsv(stmts@);
            assert(stmtsv(stmts@) =~= gdecls);
        }
        let ghost gwatches = spec_component_watch_stmts(gst.watches, root);
        let mut watches = watch_props;
        proof {
            assert(watchesv(watches@) =~= gst.watches.skip(0));
        }
        while watches.len() > 0
            invariant
                watches@.len() <= gst.watches.len(),
                watchesv(watches@) =~= gst.watches.skip(gst.watches.len() - watches@.len()),
                stmtsv(stmts@) =~= gdecls + gwatches.take(gst.watches.len() - watches@.len()),
            decreases watches.len(),
        {
            let ghost j = gst.watches.len() - watches@.len();
            let ghost pre_watches = watches@;
            let (wname, wr) = watches.remove(0);
            proof {
                assert(watchesv(pre_watches)[0] == gst.watches.skip(j as int)[0]);
                assert((wname@, parse_resultv(wr)) == gst.watches[j as int]);
                assert(watches@ =~= pre_watches.skip(1));
                assert forall|k: int| 0 <= k < watches@.len() implies watchesv(watches@)[k]
                    == gst.watches.skip(j as int + 1)[k] by {
                    assert(watchesv(pre_watches)[k + 1] == gst.watches.skip(j as int)[k + 1]);
                }
                assert(watchesv(watches@) =~= gst.watches.skip(j as int + 1));
            }
            let ghost gw = gst.watches[j as int];
            let wcall = crate::tpl::tpl_watch_and_set_component_attr(wname, wr, root);
            let ghost pre_stmts = stmts@;
            stmts.push(Stmt::Expr(wcall));
            proof {
                assert(stmts@.drop_last() =~= pre_stmts);
                assert(stmtv(stmts@.last()) == GStmt::Expr(
                    spec_tpl_watch_and_set_component_attr(gw.0, gw.1, root),
                ));
                assert(gwatches.take(j as int + 1) =~= gwatches.take(j as int).push(
                    GStmt::Expr(spec_tpl_watch_and_set_component_attr(gw.0, gw.1, root)),
                ));
                assert(stmtsv(stmts@) =~= gdecls + gwatches.take(j as int + 1));
                assert(gst.watches.len() - watches@.len() == j + 1);
            }
        }
        proof {
            assert(gwatches.take(gst.watches.len() as int) =~= gwatches);
        }
        let slots_vec = children.slots;
        let n_slots = slots_vec.len();
        proof {
            assert(slots_vec@.len() >= 1);
            assert(gslots == slotsv(slots_vec@));
            assert(gslots.len() == n_slots as int);
        }
        let ghost pre_d2 = self.diags@;
        proof {
            crate::diag::lemma_extends_refl(pre_d2);
        }
        let cargs = component_ctor_args(slots_vec, root, &mut self.diags);
        proof {
            crate::diag::lemma_extends_trans(old(self).diags@, pre_d2, self.diags@);
        }
        let has_named = n_slots > 1;
        let ctor = Expr::Ident(
            if has_named {
                crate::names::s_local_new_component_with_slots()
            } else {
                crate::names::s_local_new_component_with_default_slot()
            },
        );
        let ghost gctor = if gslots.len() > 1 {
            GExpr::Ident(crate::names::n_local_new_component_with_slots())
        } else {
            GExpr::Ident(crate::names::n_local_new_component_with_default_slot())
        };
        let ctor_call = Expr::Call(Box::new(ctor), cargs);
        proof {
            assert(ev(ctor) == gctor);
            assert(argsv(cargs@) == spec_component_ctor_args(gslots, root));
            assert(ev(ctor_call) == GExpr::Call(
                Box::new(gctor),
                spec_component_ctor_args(gslots, root),
            ));
        }
        let ghost pre_stmts = stmts@;
        stmts.push(Stmt::ConstDecl(crate::names::s_el(), ctor_call));
        stmts.push(Stmt::Expr(crate::tpl::tpl_push_el_code(parent_component, root)));
        proof {
            assert(stmts@.drop_last().drop_last() =~= pre_stmts);
            assert(stmtv(stmts@[stmts@.len() - 2]) == GStmt::ConstDecl(
                crate::names::n_el(),
                GExpr::Call(Box::new(gctor), spec_component_ctor_args(gslots, root)),
            ));
            assert(stmtv(stmts@.last()) == GStmt::Expr(spec_tpl_push_el_code(
                parent_component,
                root,
            )));
            assert(stmtsv(stmts@).drop_last() =~= stmtsv(stmts@.drop_last()));
            assert(stmtsv(stmts@.drop_last()).drop_last() =~= stmtsv(pre_stmts));
            assert(stmtsv(stmts@) =~= gdecls + gwatches + seq![
                GStmt::ConstDecl(
                    crate::names::n_el(),
                    GExpr::Call(Box::new(gctor), spec_component_ctor_args(gslots, root)),
                ),
                GStmt::Expr(spec_tpl_push_el_code(parent_component, root)),
            ]);
        }
        let ghost grefs: Seq<GStmt> = spec_component_refs(gst);
        match ref_prop {
            Some(r) => {
                let ghost gr = ev(*r);
                let ghost pre2 = stmts@;
                stmts.push(Stmt::Expr(crate::tpl::tpl_set_ref_code(*r)));
                proof {
                    assert(stmts@.drop_last() =~= pre2);
                    assert(stmtv(stmts@.last()) == GStmt::Expr(spec_tpl_set_ref_code(gr)));
                    assert(stmtsv(stmts@) =~= stmtsv(pre2) + grefs);
                }
            }
            None => {
                proof {
                    assert(stmtsv(stmts@) =~= stmtsv(stmts@) + grefs);
                }
            }
        }
        let mut rargs: Vec<Arg> = Vec::new();
        rargs.push(ast_create_arg_expr(Expr::Ident(crate::names::s_el())));
        rargs.push(ast_create_arg_expr(Expr::Ident(tag)));
        if !attrs_empty {
            rargs.push(ast_create_arg_expr(Expr::Ident(crate::names::s_attrs_local())));
        }
        let rcallee = Expr::Ident(crate::names::s_local_render_fc());
        proof {
            assert(ev(rcallee) == GExpr::Ident(crate::names::n_local_render_fc()));
        }
        let rcall = Expr::Call(Box::new(rcallee), rargs);
        let ghost grender_base = seq![
            garg(GExpr::Ident(crate::names::n_el())),
            garg(GExpr::Ident(gtag)),
        ];
        let ghost grender_args = if gst.consts.len() == 0 && gst.watches.len() == 0 {
            grender_base
        } else {
            grender_base.push(garg(GExpr::Ident(crate::names::n_attrs_local())))
        };
        proof {
            lemma_argsv(rargs@);
            assert(argsv(rargs@) =~= grender_args);
            assert(ev(rcall) == GExpr::Call(
                Box::new(GExpr::Ident(crate::names::n_local_render_fc())),
                grender_args,
            ));
        }
        let ghost pre3 = stmts@;
        stmts.push(Stmt::Ret(Some(rcall)));
        proof {
            assert(stmts@.drop_last() =~= pre3);
            assert(stmtv(stmts@.last()) == GStmt::Ret(Some(GExpr::Call(
                Box::new(GExpr::Ident(crate::names::n_local_render_fc())),
                grender_args,
            ))));
            let gel_decl = spec_component_el_decl(gslots, parent_component, root);
            assert(gel_decl[0] == GStmt::ConstDecl(
                crate::names::n_el(),
                GExpr::Call(Box::new(gctor), spec_component_ctor_args(gslots, root)),
            ));
            let gret = spec_component_ret(gst, gtag);
            assert(gret[0] == GStmt::Ret(Some(GExpr::Call(
                Box::new(GExpr::Ident(crate::names::n_local_render_fc())),
                grender_args,
            ))));
            assert(sout->Call_0->Arrow_1->Block_0 =~= gdecls + gwatches + gel_decl + grefs
                + gret);
            assert(stmtsv(stmts@) =~= gdecls + gwatches + gel_decl + grefs + gret);
            assert(stmtsv(stmts@) =~= sout->Call_0->Arrow_1->Block_0);
        }
        let ghost gstmts = stmtsv(stmts@);
        let empty_params: Vec<Pat> = Vec::new();
        let arrow = ast_create_expr_arrow_fn(empty_params, ArrowBody::Block(stmts));
        let no_args: Vec<Arg> = Vec::new();
        let out = Expr::Call(Box::new(arrow), no_args);
        proof {
            lemma_argsv(no_args@);
            assert(argsv(no_args@) =~= Seq::<GArg>::empty());
            assert(patsv(empty_params@) =~= Seq::<GPat>::empty());
            assert(ev(arrow) == GExpr::Arrow(Seq::empty(), Box::new(GArrowBody::Block(gstmts))));
            assert(sout == GExpr::Call(Box::new(ev(arrow)), Seq::empty()));
            assert(ev(out) == sout);
        }
        let ghost mid = *self;
        self.push_expression_with_spread(out);
        proof {
            lemma_tp_frame_refl(*old(self));
            assert(tp_frame(*old(self), mid));
            lemma_tp_frame_trans(*old(self), mid, *self);
        }
    }
}

} // verus!
