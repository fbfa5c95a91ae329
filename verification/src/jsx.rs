//! The html element emitter: a plain create-element call when nothing
//! dynamic is attached, otherwise an immediately-invoked closure that
//! creates the element, wires events, registers attribute watchers, the
//! ref and the node list, and returns the element.

use vstd::prelude::*;

use crate::ast::{
    argsv, argv, ast_create_arg_expr, ast_create_expr_arrow_fn, ev, evr, lemma_argsv, lemma_stmtsv,
    stmtsv, stmtv, Arg, ArrowBody, Expr, GArg, GArrowBody, GExpr, GLit, GPat, GStmt, Lit, Pat,
    Stmt,
};
use crate::attrs::{evtsv, constsv, watchesv, storev, AttrStore, GAttrStore, GEvt};
use crate::expr::{parse_resultv, GParseResult};
use crate::tpl::{
    garg, spec_tpl_lit_obj, spec_tpl_push_el_code, spec_tpl_set_ref_code,
    spec_tpl_watch_and_set_html_attr,
};

verus! {

/// The statement wiring one event handler:
/// `addEvent(<el>, "<name>", <handler>[, true])`.
pub open spec fn spec_evt_stmt(e: GEvt) -> GStmt {
    let base = seq![
        garg(GExpr::Ident(crate::names::n_el())),
        garg(GExpr::Lit(GLit::Str(e.event_name))),
        garg(e.handler),
    ];
    let args = if e.capture {
        base.push(garg(GExpr::Lit(GLit::Bool(true))))
    } else {
        base
    };
    GStmt::Expr(GExpr::Call(Box::new(GExpr::Ident(crate::names::n_local_add_event())), args))
}

/// Whether the element needs the closure wrapper at all.
pub open spec fn spec_html_needs_wrap(st: GAttrStore, parent_component: bool) -> bool {
    ||| st.ref_prop is Some
    ||| parent_component
    ||| st.evts.len() > 0
    ||| st.watches.len() > 0
}

/// The whole html output: the create-element call (the constant-attrs
/// variant when constant props exist, the element's children as the
/// remaining arguments), wrapped in the registration closure exactly
/// when something dynamic is attached.
pub open spec fn spec_emit_html(
    tag: Seq<char>,
    st: GAttrStore,
    children: Seq<GArg>,
    parent_component: bool,
    root: bool,
) -> GExpr {
    let callee = if st.consts.len() > 0 {
        crate::names::n_local_create_ele_a()
    } else {
        crate::names::n_local_create_ele()
    };
    let head = if st.consts.len() > 0 {
        seq![garg(GExpr::Lit(GLit::Str(tag))), garg(spec_tpl_lit_obj(st.consts))]
    } else {
        seq![garg(GExpr::Lit(GLit::Str(tag)))]
    };
    let create = GExpr::Call(Box::new(GExpr::Ident(callee)), head + children);
    if !spec_html_needs_wrap(st, parent_component) {
        create
    } else {
        spec_emit_html_wrapped(create, st, parent_component, root)
    }
}

/// The registration closure around the created element.
pub open spec fn spec_emit_html_wrapped(
    create: GExpr,
    st: GAttrStore,
    parent_component: bool,
    root: bool,
) -> GExpr {
    let decl = seq![GStmt::ConstDecl(crate::names::n_el(), create)];
    let evts = st.evts.map_values(|e: GEvt| spec_evt_stmt(e));
    let watches = st.watches.map_values(
        |w: (Seq<char>, GParseResult)| GStmt::Expr(
            spec_tpl_watch_and_set_html_attr(w.0, w.1, root),
        ),
    );
    let refs: Seq<GStmt> = match st.ref_prop {
        Some(r) => seq![GStmt::Expr(spec_tpl_set_ref_code(r))],
        None => Seq::empty(),
    };
    let pushes: Seq<GStmt> = if parent_component {
        seq![GStmt::Expr(spec_tpl_push_el_code(true, root))]
    } else {
        Seq::empty()
    };
    let ret = seq![GStmt::Ret(Some(GExpr::Ident(crate::names::n_el())))];
    let stmts = decl + evts + watches + refs + pushes + ret;
    GExpr::Call(
        Box::new(GExpr::Arrow(Seq::empty(), Box::new(GArrowBody::Block(stmts)))),
        Seq::empty(),
    )
}

/// Build the html output for one element from its classified attributes
/// and already-compiled children.
#[verifier::loop_isolation(false)]
#[verifier::rlimit(90)]
pub fn emit_html(
    tag: Vec<char>,
    attrs: AttrStore,
    children: Vec<Arg>,
    parent_component: bool,
    root: bool,
) -> (out: Expr)
    ensures
        ev(out) == spec_emit_html(tag@, storev(attrs), argsv(children@), parent_component, root),
{
    let ghost gst = storev(attrs);
    let ghost gtag = tag@;
    let ghost gchildren = argsv(children@);
    let AttrStore { ref_prop, evt_props, const_props, watch_props } = attrs;
    let has_consts = const_props.len() > 0;
    let has_evts = evt_props.len() > 0;
    let has_watches = watch_props.len() > 0;
    let has_ref = ref_prop.is_some();
    let ghost gconsts = constsv(const_props@);
    let mut args: Vec<Arg> = Vec::new();
    args.push(ast_create_arg_expr(Expr::Lit(Lit::Str(tag))));
    if has_consts {
        args.push(ast_create_arg_expr(crate::tpl::tpl_lit_obj(const_props)));
    }
    let ghost ghead = if gst.consts.len() > 0 {
        seq![garg(GExpr::Lit(GLit::Str(gtag))), garg(spec_tpl_lit_obj(gst.consts))]
    } else {
        seq![garg(GExpr::Lit(GLit::Str(gtag)))]
    };
    proof {
        lemma_argsv(args@);
        assert(argsv(args@) =~= ghead);
    }
    let mut rest = children;
    let ghost pre_args = args@;
    let ghost pre_rest = rest@;
    args.append(&mut rest);
    proof {
        assert(args@ =~= pre_args + pre_rest);
        crate::ast::lemma_argsv_concat(pre_args, pre_rest);
        assert(argsv(args@) =~= ghead + gchildren);
    }
    let callee = Expr::Ident(
        if has_consts {
            crate::names::s_local_create_ele_a()
        } else {
            crate::names::s_local_create_ele()
        },
    );
    let ghost gcallee = if gst.consts.len() > 0 {
        GExpr::Ident(crate::names::n_local_create_ele_a())
    } else {
        GExpr::Ident(crate::names::n_local_create_ele())
    };
    let create = Expr::Call(Box::new(callee), args);
    let ghost gcreate = GExpr::Call(Box::new(gcallee), ghead + gchildren);
    proof {
        assert(ev(callee) == gcallee);
        assert(ev(create) == gcreate);
    }
    if !(has_ref || parent_component || has_evts || has_watches) {
        proof {
            assert(!spec_html_needs_wrap(gst, parent_component));
            assert(spec_emit_html(gtag, gst, gchildren, parent_component, root) == gcreate);
        }
        create
    } else {
        let st2 = AttrStore { ref_prop, evt_props, const_props: Vec::new(), watch_props };
        proof {
            assert(constsv(Seq::<(Vec<char>, Expr)>::empty()) =~= Seq::<(Seq<char>, GExpr)>::empty());
            assert(storev(st2).evts == gst.evts);
            assert(storev(st2).watches == gst.watches);
            assert(storev(st2).ref_prop == gst.ref_prop);
        }
        emit_html_wrapped(create, Ghost(gcreate), st2, Ghost(gst), parent_component, root)
    }
}

/// Build the registration closure around the created element.  The
/// constant props of `attrs` play no part here; the ghost arguments
/// carry the full store for the contract.
#[verifier::loop_isolation(false)]
#[verifier::rlimit(90)]
fn emit_html_wrapped(
    create: Expr,
    Ghost(gcreate): Ghost<GExpr>,
    attrs: AttrStore,
    Ghost(gst): Ghost<GAttrStore>,
    parent_component: bool,
    root: bool,
) -> (out: Expr)
    requires
        ev(create) == gcreate,
        storev(attrs).evts == gst.evts,
        storev(attrs).watches == gst.watches,
        storev(attrs).ref_prop == gst.ref_prop,
    ensures
        ev(out) == spec_emit_html_wrapped(gcreate, gst, parent_component, root),
{
    let AttrStore { ref_prop, evt_props, const_props: _, watch_props } = attrs;
    let mut stmts: Vec<Stmt> = Vec::new();
    stmts.push(Stmt::ConstDecl(crate::names::s_el(), create));
    let ghost gevts = gst.evts.map_values(|e: GEvt| spec_evt_stmt(e));
    let mut evts = evt_props;
    proof {
        lemma_stmtsv(stmts@);
        assert(evtsv(evts@) =~= gst.evts.skip(0));
        assert(stmtsv(stmts@) =~= seq![GStmt::ConstDecl(crate::names::n_el(), gcreate)]);
    }
    while evts.len() > 0
        invariant
            evts@.len() <= gst.evts.len(),
            evtsv(evts@) =~= gst.evts.skip(gst.evts.len() - evts@.len()),
            stmtsv(stmts@) =~= seq![
                GStmt::ConstDecl(crate::names::n_el(), gcreate),
            ] + gevts.take(gst.evts.len() - evts@.len()),
        decreases evts.len(),
    {
        let ghost i = gst.evts.len() - evts@.len();
        let ghost pre_evts = evts@;
        let evt = evts.remove(0);
        proof {
            assert(evtsv(pre_evts)[0] == gst.evts.skip(i as int)[0]);
            let gevt = GEvt {
                event_name: evt.event_name@,
                handler: ev(*evt.event_handler),
                capture: evt.capture,
            };
            assert(gevt == gst.evts[i as int]);
            assert(evts@ =~= pre_evts.skip(1));
            assert forall|k: int| 0 <= k < evts@.len() implies evtsv(evts@)[k]
                == gst.evts.skip(i as int + 1)[k] by {
                assert(evtsv(pre_evts)[k + 1] == gst.evts.skip(i as int)[k + 1]);
            }
            assert(evtsv(evts@) =~= gst.evts.skip(i as int + 1));
        }
        let ghost gevt = GEvt {
            event_name: evt.event_name@,
            handler: ev(*evt.event_handler),
            capture: evt.capture,
        };
        let mut eargs: Vec<Arg> = Vec::new();
        eargs.push(ast_create_arg_expr(Expr::Ident(crate::names::s_el())));
        eargs.push(ast_create_arg_expr(Expr::Lit(Lit::Str(evt.event_name))));
        eargs.push(ast_create_arg_expr(*evt.event_handler));
        if evt.capture {
            eargs.push(ast_create_arg_expr(Expr::Lit(Lit::Bool(true))));
        }
        let ecallee = Expr::Ident(crate::names::s_local_add_event());
        let ecall = Expr::Call(Box::new(ecallee), eargs);
        let ghost pre_stmts = stmts@;
        stmts.push(Stmt::Expr(ecall));
        proof {
            lemma_argsv(eargs@);
            assert(argsv(eargs@) =~= spec_evt_stmt(gevt)->Expr_0->Call_1);
            assert(ev(ecallee) == GExpr::Ident(crate::names::n_local_add_event()));
            assert(spec_evt_stmt(gevt)->Expr_0 == GExpr::Call(
                Box::new(GExpr::Ident(crate::names::n_local_add_event())),
                spec_evt_stmt(gevt)->Expr_0->Call_1,
            ));
            assert(ev(ecall) == spec_evt_stmt(gevt)->Expr_0);
            assert(stmts@.drop_last() =~= pre_stmts);
            assert(stmtv(stmts@.last()) == spec_evt_stmt(gevt));
            assert(gevts.take(i as int + 1) =~= gevts.take(i as int).push(
                spec_evt_stmt(gst.evts[i as int]),
            ));
            assert(stmtsv(stmts@) =~= seq![
                GStmt::ConstDecl(crate::names::n_el(), gcreate),
            ] + gevts.take(i as int + 1));
            assert(gst.evts.len() - evts@.len() == i + 1);
        }
    }
    proof {
        assert(gevts.take(gst.evts.len() as int) =~= gevts);
    }
    let ghost gwatches = gst.watches.map_values(
        |w: (Seq<char>, GParseResult)| GStmt::Expr(
            spec_tpl_watch_and_set_html_attr(w.0, w.1, root),
        ),
    );
    let mut watches = watch_props;
    proof {
        assert(watchesv(watches@) =~= gst.watches.skip(0));
    }
    while watches.len() > 0
        invariant
            watches@.len() <= gst.watches.len(),
            watchesv(watches@) =~= gst.watches.skip(gst.watches.len() - watches@.len()),
            stmtsv(stmts@) =~= seq![
                GStmt::ConstDecl(crate::names::n_el(), gcreate),
            ] + gevts + gwatches.take(gst.watches.len() - watches@.len()),
        decreases watches.len(),
    {
        let ghost j = gst.watches.len() - watches@.len();
        let ghost pre_watches = watches@;
        let (wname, wr) = watches.remove(0);
        proof {
            assert(watchesv(pre_watches)[0] == gst.watches.skip(j as int)[0]);
            assert((wname@, parse_resultv(wr)) == gst.watches[j as int]);
            assert(watches@ =~= pre_watches.skip(1));
            assert forall|k: int| 0 <= k < watches@.len() implies watchesv(watches@)[k]
                == gst.watches.skip(j as int + 1)[k] by {
                assert(watchesv(pre_watches)[k + 1] == gst.watches.skip(j as int)[k + 1]);
            }
            assert(watchesv(watches@) =~= gst.watches.skip(j as int + 1));
        }
        let ghost gw = gst.watches[j as int];
        let wcall = crate::tpl::tpl_watch_and_set_html_attr(wname, wr, root);
        let ghost pre_stmts = stmts@;
        stmts.push(Stmt::Expr(wcall));
        proof {
            assert(stmts@.drop_last() =~= pre_stmts);
            assert(stmtv(stmts@.last()) == GStmt::Expr(spec_tpl_watch_and_set_html_attr(
                gw.0,
                gw.1,
                root,
            )));
            assert(gwatches.take(j as int + 1) =~= gwatches.take(j as int).push(
                GStmt::Expr(spec_tpl_watch_and_set_html_attr(gw.0, gw.1, root)),
            ));
            assert(stmtsv(stmts@) =~= seq![
                GStmt::ConstDecl(crate::names::n_el(), gcreate),
            ] + gevts + gwatches.take(j as int + 1));
            assert(gst.watches.len() - watches@.len() == j + 1);
        }
    }
    proof {
        assert(gwatches.take(gst.watches.len() as int) =~= gwatches);
    }
    let ghost grefs: Seq<GStmt> = match gst.ref_prop {
        Some(r) => seq![GStmt::Expr(spec_tpl_set_ref_code(r))],
        None => Seq::empty(),
    };
    match ref_prop {
        Some(r) => {
            let ghost gr = ev(*r);
            let ghost pre_stmts = stmts@;
            let rcall = crate::tpl::tpl_set_ref_code(*r);
            stmts.push(Stmt::Expr(rcall));
            proof {
                assert(stmts@.drop_last() =~= pre_stmts);
                assert(stmtv(stmts@.last()) == GStmt::Expr(spec_tpl_set_ref_code(gr)));
                assert(grefs == seq![GStmt::Expr(spec_tpl_set_ref_code(gr))]);
                assert(stmtsv(stmts@) =~= stmtsv(pre_stmts) + grefs);
            }
        }
        None => {
            proof {
                assert(stmtsv(stmts@) =~= stmtsv(stmts@) + grefs);
            }
        }
    }
    let ghost gpushes: Seq<GStmt> = if parent_component {
        seq![GStmt::Expr(spec_tpl_push_el_code(true, root))]
    } else {
        Seq::empty()
    };
    if parent_component {
        let ghost pre_stmts = stmts@;
        let pcall = crate::tpl::tpl_push_el_code(true, root);
        stmts.push(Stmt::Expr(pcall));
        proof {
            assert(stmts@.drop_last() =~= pre_stmts);
            assert(stmtv(stmts@.last()) == GStmt::Expr(spec_tpl_push_el_code(true, root)));
            assert(stmtsv(stmts@) =~= stmtsv(pre_stmts) + gpushes);
        }
    }
    let ghost pre_stmts = stmts@;
    stmts.push(Stmt::Ret(Some(Expr::Ident(crate::names::s_el()))));
    proof {
        assert(stmts@.drop_last() =~= pre_stmts);
        assert(stmtv(stmts@.last()) == GStmt::Ret(Some(GExpr::Ident(crate::names::n_el()))));
        let sout = spec_emit_html_wrapped(gcreate, gst, parent_component, root);
        let gdecl = seq![GStmt::ConstDecl(crate::names::n_el(), gcreate)];
        assert(sout->Call_0->Arrow_1->Block_0 == gdecl + gevts + gwatches + grefs + gpushes
            + seq![GStmt::Ret(Some(GExpr::Ident(crate::names::n_el())))]);
        assert(stmtsv(stmts@) =~= sout->Call_0->Arrow_1->Block_0);
    }
    let ghost gstmts = stmtsv(stmts@);
    let empty_params: Vec<Pat> = Vec::new();
    let arrow = ast_create_expr_arrow_fn(empty_params, ArrowBody::Block(stmts));
    let no_args: Vec<Arg> = Vec::new();
    let out = Expr::Call(Box::new(arrow), no_args);
    proof {
        lemma_argsv(no_args@);
        let sout = spec_emit_html_wrapped(gcreate, gst, parent_component, root);
        assert(argsv(no_args@) =~= Seq::<GArg>::empty());
        assert(crate::ast::patsv(empty_params@) =~= Seq::<GPat>::empty());
        assert(ev(arrow) == GExpr::Arrow(Seq::empty(), Box::new(GArrowBody::Block(gstmts))));
        assert(sout == GExpr::Call(Box::new(ev(arrow)), Seq::empty()));
        assert(ev(out) == sout);
    }
    out
}

} // verus!
