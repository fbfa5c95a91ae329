//! The emit helpers: each builds one fixed fragment of generated code
//! — ref registration, node-list registration, attribute objects,
//! constant and watched text rendering, and watcher-driven attribute
//! assignment — and pins the built tree exactly.

use vstd::prelude::*;

use crate::ast::{
    argsv, argv, ast_create_arg_expr, ast_create_expr_arrow_fn, ast_create_expr_assign_mem,
    ast_create_expr_call, ast_create_expr_ident, ast_create_expr_lit_str, ast_create_id_of_container,
    ev, lemma_argsv, lemma_stmtsv, stmtsv, stmtv, Arg, ArrowBody, Expr, GArg, GArrowBody, GExpr,
    GLit, GMemberProp, GPat, GStmt, Lit, MemberProp, Pat, Stmt,
};
use crate::expr::{parse_resultv, spec_digits, ExprParseResult, GParseResult};

verus! {

/// The container expression generated code binds to: the component
/// instance at the root, the threaded host parameter below.
pub open spec fn spec_container(is_root_container: bool) -> GExpr {
    if is_root_container {
        GExpr::This
    } else {
        GExpr::Ident(crate::names::n_host())
    }
}

pub open spec fn garg(e: GExpr) -> GArg {
    GArg { spread: false, expr: e }
}

/// Ref registration: `setRefForComponent(this, <ref>, <el>)`.
pub open spec fn spec_tpl_set_ref_code(r: GExpr) -> GExpr {
    GExpr::Call(
        Box::new(GExpr::Ident(crate::names::n_local_set_ref_for_component())),
        seq![
            garg(GExpr::This),
            garg(r),
            garg(GExpr::Ident(crate::names::n_el())),
        ],
    )
}

pub fn tpl_set_ref_code(r: Expr) -> (out: Expr)
    ensures
        ev(out) == spec_tpl_set_ref_code(ev(r)),
{
    let ghost gr = ev(r);
    let mut args: Vec<Arg> = Vec::new();
    args.push(ast_create_arg_expr(Expr::This));
    args.push(ast_create_arg_expr(r));
    args.push(ast_create_arg_expr(Expr::Ident(crate::names::s_el())));
    let callee = Expr::Ident(crate::names::s_local_set_ref_for_component());
    let out = Expr::Call(Box::new(callee), args);
    proof {
        lemma_argsv(args@);
        let sout = spec_tpl_set_ref_code(gr);
        assert(argsv(args@) =~= sout->Call_1);
        let gcallee = GExpr::Ident(crate::names::n_local_set_ref_for_component());
        assert(ev(callee) == gcallee);
        assert(sout == GExpr::Call(Box::new(gcallee), sout->Call_1));
        assert(ev(out) == GExpr::Call(Box::new(ev(callee)), argsv(args@)));
        assert(ev(out) == sout);
    }
    out
}

/// Node registration: `<container>[ROOT_NODES].push(<el>)` at the root
/// node list, `<container>[NON_ROOT_COMPONENT_NODES].push(<el>)` below.
pub open spec fn spec_tpl_push_el_code(root: bool, is_root_container: bool) -> GExpr {
    let list = if root {
        crate::names::n_local_root_nodes()
    } else {
        crate::names::n_local_non_root_component_nodes()
    };
    GExpr::Call(
        Box::new(
            GExpr::Member(
                Box::new(
                    GExpr::Member(
                        Box::new(spec_container(is_root_container)),
                        GMemberProp::Computed(Box::new(GExpr::Ident(list))),
                    ),
                ),
                GMemberProp::Ident(crate::names::n_push()),
            ),
        ),
        seq![garg(GExpr::Ident(crate::names::n_el()))],
    )
}

pub fn tpl_push_el_code(root: bool, is_root_container: bool) -> (out: Expr)
    ensures
        ev(out) == spec_tpl_push_el_code(root, is_root_container),
{
    let ghost glist = if root {
        crate::names::n_local_root_nodes()
    } else {
        crate::names::n_local_non_root_component_nodes()
    };
    let list = Expr::Ident(
        if root {
            crate::names::s_local_root_nodes()
        } else {
            crate::names::s_local_non_root_component_nodes()
        },
    );
    proof {
        assert(ev(list) == GExpr::Ident(glist));
    }
    let cont = ast_create_id_of_container(is_root_container);
    proof {
        assert(ev(cont) == spec_container(is_root_container));
    }
    let inner = crate::ast::ast_create_expr_member(cont, MemberProp::Computed(Box::new(list)));
    proof {
        assert(ev(inner) == GExpr::Member(
            Box::new(spec_container(is_root_container)),
            GMemberProp::Computed(Box::new(GExpr::Ident(glist))),
        ));
    }
    let target = crate::ast::ast_create_expr_member(
        inner,
        MemberProp::Ident(crate::names::s_push()),
    );
    let ghost ginner = GExpr::Member(
        Box::new(spec_container(is_root_container)),
        GMemberProp::Computed(Box::new(GExpr::Ident(glist))),
    );
    proof {
        assert(ev(target) == GExpr::Member(Box::new(ginner), GMemberProp::Ident(
            crate::names::n_push(),
        )));
    }
    let mut args: Vec<Arg> = Vec::new();
    args.push(ast_create_arg_expr(Expr::Ident(crate::names::s_el())));
    let out = Expr::Call(Box::new(target), args);
    proof {
        lemma_argsv(args@);
        let sout = spec_tpl_push_el_code(root, is_root_container);
        assert(argsv(args@) =~= sout->Call_1);
        let gcallee = GExpr::Member(
            Box::new(
                GExpr::Member(
                    Box::new(spec_container(is_root_container)),
                    GMemberProp::Computed(Box::new(GExpr::Ident(glist))),
                ),
            ),
            GMemberProp::Ident(crate::names::n_push()),
        );
        assert(ev(target) == gcallee);
        assert(sout == GExpr::Call(Box::new(gcallee), sout->Call_1));
        assert(ev(out) == GExpr::Call(Box::new(ev(target)), argsv(args@)));
        assert(ev(out) == sout);
    }
    out
}

/// The object literal of constant props, keys as string literals.
pub open spec fn spec_tpl_lit_obj(props: Seq<(Seq<char>, GExpr)>) -> GExpr {
    GExpr::Object(
        props.map_values(
            |p: (Seq<char>, GExpr)| crate::ast::GProp::KV(crate::ast::GPropKey::Str(p.0), p.1),
        ),
    )
}

#[verifier::loop_isolation(false)]
pub fn tpl_lit_obj(lit_arr: Vec<(Vec<char>, Expr)>) -> (out: Expr)
    ensures
        ev(out) == spec_tpl_lit_obj(crate::attrs::constsv(lit_arr@)),
{
    let ghost gprops = crate::attrs::constsv(lit_arr@);
    let mut props: Vec<crate::ast::Prop> = Vec::new();
    let mut rest = lit_arr;
    proof {
        assert(crate::attrs::constsv(rest@) =~= gprops.skip(0));
    }
    while rest.len() > 0
        invariant
            props@.len() + rest@.len() == gprops.len(),
            crate::attrs::constsv(rest@) =~= gprops.skip(props@.len() as int),
            forall|j: int|
                0 <= j < props@.len() ==> crate::ast::propv(props@[j]) == crate::ast::GProp::KV(
                    crate::ast::GPropKey::Str(gprops[j].0),
                    gprops[j].1,
                ),
        decreases rest.len(),
    {
        let ghost i = props@.len() as int;
        let ghost pre_rest = rest@;
        let (n, e) = rest.remove(0);
        proof {
            assert(crate::attrs::constsv(pre_rest)[0] == gprops.skip(i)[0]);
            assert((n@, ev(e)) == gprops[i]);
            assert(rest@ =~= pre_rest.skip(1));
            assert forall|k: int| 0 <= k < rest@.len() implies crate::attrs::constsv(rest@)[k]
                == gprops.skip(i + 1)[k] by {
                assert(crate::attrs::constsv(pre_rest)[k + 1] == gprops.skip(i)[k + 1]);
            }
            assert(crate::attrs::constsv(rest@) =~= gprops.skip(i + 1));
        }
        props.push(crate::ast::Prop::KV(crate::ast::PropKey::Str(n), e));
    }
    let out = Expr::Object(props);
    proof {
        crate::ast::lemma_propsv(props@);
        assert(crate::ast::propsv(props@) =~= spec_tpl_lit_obj(gprops)->Object_0);
        assert(ev(out) =~= spec_tpl_lit_obj(gprops));
    }
    out
}

/// Generic attribute assignment: `setAttribute(<el>, "<name>", <value>)`.
pub open spec fn spec_tpl_set_attribute(el: GExpr, name: Seq<char>, value: GExpr) -> GExpr {
    GExpr::Call(
        Box::new(GExpr::Ident(crate::names::n_local_set_attribute())),
        seq![garg(el), garg(GExpr::Lit(GLit::Str(name))), garg(value)],
    )
}

pub fn tpl_set_attribute(el: Expr, attr_name: Vec<char>, attr_value: Expr) -> (out: Expr)
    ensures
        ev(out) == spec_tpl_set_attribute(ev(el), attr_name@, ev(attr_value)),
{
    let ghost gel = ev(el);
    let ghost gv = ev(attr_value);
    let ghost gn = attr_name@;
    let mut args: Vec<Arg> = Vec::new();
    args.push(ast_create_arg_expr(el));
    args.push(ast_create_arg_expr(ast_create_expr_lit_str(attr_name)));
    args.push(ast_create_arg_expr(attr_value));
    let callee = Expr::Ident(crate::names::s_local_set_attribute());
    let out = Expr::Call(Box::new(callee), args);
    proof {
        lemma_argsv(args@);
        let sout = spec_tpl_set_attribute(gel, gn, gv);
        assert(argsv(args@) =~= sout->Call_1);
        let gcallee = GExpr::Ident(crate::names::n_local_set_attribute());
        assert(ev(callee) == gcallee);
        assert(sout == GExpr::Call(Box::new(gcallee), sout->Call_1));
        assert(ev(out) == GExpr::Call(Box::new(ev(callee)), argsv(args@)));
        assert(ev(out) == sout);
    }
    out
}

/// Constant child content: under a component boundary the value is
/// wrapped in a text-render call addressed to the container; under an
/// html boundary the raw value stands by itself.
pub open spec fn spec_tpl_render_const_text(
    c: GExpr,
    is_parent_component: bool,
    is_root_container: bool,
) -> GExpr {
    if is_parent_component {
        GExpr::Call(
            Box::new(GExpr::Ident(crate::names::n_local_text_render_fn())),
            seq![garg(spec_container(is_root_container)), garg(c)],
        )
    } else {
        c
    }
}

pub fn tpl_render_const_text(c: Expr, is_parent_component: bool, is_root_container: bool) -> (out:
    Expr)
    ensures
        ev(out) == spec_tpl_render_const_text(ev(c), is_parent_component, is_root_container),
{
    let ghost gc = ev(c);
    if is_parent_component {
        let mut args: Vec<Arg> = Vec::new();
        args.push(ast_create_arg_expr(ast_create_id_of_container(is_root_container)));
        args.push(ast_create_arg_expr(c));
        let callee = Expr::Ident(crate::names::s_local_text_render_fn());
        let out = Expr::Call(Box::new(callee), args);
        proof {
            lemma_argsv(args@);
            let sout = spec_tpl_render_const_text(gc, true, is_root_container);
            assert(argsv(args@) =~= sout->Call_1);
            let gcallee = GExpr::Ident(crate::names::n_local_text_render_fn());
            assert(ev(callee) == gcallee);
            assert(sout == GExpr::Call(Box::new(gcallee), sout->Call_1));
            assert(ev(out) == GExpr::Call(Box::new(ev(callee)), argsv(args@)));
            assert(ev(out) == sout);
        }
        out
    } else {
        c
    }
}

/// A watcher around a render statement: the cheap single-path watcher
/// for the simple tier (its negated form when a negation was recorded),
/// the general expression watcher otherwise.  The host container is
/// threaded in whenever the watcher might outlive the local receiver.
pub open spec fn spec_tpl_watch_and_render(
    render_fn_body: GExpr,
    pr: GParseResult,
    is_root_container: bool,
) -> GExpr {
    let cb = garg(
        GExpr::Arrow(
            seq![GPat::Id(crate::names::n_v())],
            Box::new(GArrowBody::Expr(Box::new(render_fn_body))),
        ),
    );
    match pr {
        GParseResult::NoDep => render_fn_body,
        GParseResult::Complex(w) => GExpr::Call(
            Box::new(GExpr::Ident(crate::names::n_local_watch_for_render())),
            seq![garg(w), cb, garg(spec_container(is_root_container))],
        ),
        GParseResult::Simple { vm, is_this, path, not_op } => {
            let base = seq![garg(vm), garg(path), cb];
            let with_not = if not_op > 0 {
                base.push(garg(GExpr::Lit(GLit::Num(spec_digits(not_op as nat)))))
            } else {
                base
            };
            let args = if !is_root_container || !is_this {
                with_not.push(garg(spec_container(is_root_container)))
            } else {
                with_not
            };
            let callee = if not_op > 0 {
                crate::names::n_local_watch_path_for_render2()
            } else {
                crate::names::n_local_watch_path_for_render()
            };
            GExpr::Call(Box::new(GExpr::Ident(callee)), args)
        },
    }
}

pub fn tpl_watch_and_render(
    render_fn_body: Expr,
    expr_result: ExprParseResult,
    is_root_container: bool,
) -> (out: Expr)
    ensures
        ev(out) == spec_tpl_watch_and_render(
            ev(render_fn_body),
            parse_resultv(expr_result),
            is_root_container,
        ),
{
    let ghost gbody = ev(render_fn_body);
    let ghost gpr = parse_resultv(expr_result);
    match expr_result {
        ExprParseResult::NoDep => render_fn_body,
        ExprParseResult::Complex(w) => {
            let mut params: Vec<Pat> = Vec::new();
            params.push(Pat::Id(crate::names::s_v()));
            proof {
                crate::ast::lemma_patsv(params@);
                assert(crate::ast::patsv(params@) =~= seq![GPat::Id(crate::names::n_v())]);
            }
            let cb = ast_create_expr_arrow_fn(params, ArrowBody::Expr(Box::new(render_fn_body)));
            let mut args: Vec<Arg> = Vec::new();
            args.push(ast_create_arg_expr(*w));
            args.push(ast_create_arg_expr(cb));
            args.push(ast_create_arg_expr(ast_create_id_of_container(is_root_container)));
            let callee = Expr::Ident(crate::names::s_local_watch_for_render());
            let out = Expr::Call(Box::new(callee), args);
            proof {
                lemma_argsv(args@);
                let sout = spec_tpl_watch_and_render(gbody, gpr, is_root_container);
                assert(argsv(args@) =~= sout->Call_1);
                let gcallee = GExpr::Ident(crate::names::n_local_watch_for_render());
                assert(ev(callee) == gcallee);
                assert(sout == GExpr::Call(Box::new(gcallee), sout->Call_1));
                assert(ev(out) == GExpr::Call(Box::new(ev(callee)), argsv(args@)));
                assert(ev(out) == sout);
            }
            out
        }
        ExprParseResult::Simple(sr) => {
            let ghost gis_this = sr.is_this;
            let ghost gnot = sr.not_op as int;
            let mut params: Vec<Pat> = Vec::new();
            params.push(Pat::Id(crate::names::s_v()));
            proof {
                crate::ast::lemma_patsv(params@);
                assert(crate::ast::patsv(params@) =~= seq![GPat::Id(crate::names::n_v())]);
            }
            let cb = ast_create_expr_arrow_fn(params, ArrowBody::Expr(Box::new(render_fn_body)));
            let mut args: Vec<Arg> = Vec::new();
            args.push(ast_create_arg_expr(*sr.vm));
            args.push(ast_create_arg_expr(*sr.path));
            args.push(ast_create_arg_expr(cb));
            if sr.not_op > 0 {
                args.push(
                    ast_create_arg_expr(
                        Expr::Lit(Lit::Num(crate::sym::num_to_chars(sr.not_op as usize))),
                    ),
                );
            }
            if !is_root_container || !sr.is_this {
                args.push(ast_create_arg_expr(ast_create_id_of_container(is_root_container)));
            }
            let callee = Expr::Ident(
                if sr.not_op > 0 {
                    crate::names::s_local_watch_path_for_render2()
                } else {
                    crate::names::s_local_watch_path_for_render()
                },
            );
            let out = Expr::Call(Box::new(callee), args);
            proof {
                lemma_argsv(args@);
                let sout = spec_tpl_watch_and_render(gbody, gpr, is_root_container);
                assert(argsv(args@) =~= sout->Call_1);
                let gcallee = if gnot > 0 {
                    GExpr::Ident(crate::names::n_local_watch_path_for_render2())
                } else {
                    GExpr::Ident(crate::names::n_local_watch_path_for_render())
                };
                assert(ev(callee) == gcallee);
                assert(sout == GExpr::Call(Box::new(gcallee), sout->Call_1));
                assert(ev(out) == GExpr::Call(Box::new(ev(callee)), argsv(args@)));
                assert(ev(out) == sout);
            }
            out
        }
    }
}

/// Watched text: an immediately-invoked closure that creates an empty
/// text node, registers a watcher that re-sets its content, registers
/// the node with the container when nested under a component, and
/// returns the node.
pub open spec fn spec_tpl_render_expr_text(
    pr: GParseResult,
    value: GExpr,
    is_parent_component: bool,
    is_root_container: bool,
) -> GExpr {
    let render_fn = GExpr::Call(
        Box::new(GExpr::Ident(crate::names::n_local_set_text_content())),
        seq![garg(GExpr::Ident(crate::names::n_el())), garg(value)],
    );
    let decl = GStmt::ConstDecl(
        crate::names::n_el(),
        GExpr::Call(
            Box::new(GExpr::Ident(crate::names::n_local_create_text_node())),
            seq![garg(GExpr::Lit(GLit::Str(Seq::empty())))],
        ),
    );
    let watch = GStmt::Expr(spec_tpl_watch_and_render(render_fn, pr, is_root_container));
    let base = seq![decl, watch];
    let with_push = if is_parent_component {
        base.push(GStmt::Expr(spec_tpl_push_el_code(true, is_root_container)))
    } else {
        base
    };
    let stmts = with_push.push(GStmt::Ret(Some(GExpr::Ident(crate::names::n_el()))));
    GExpr::Call(
        Box::new(GExpr::Arrow(Seq::empty(), Box::new(GArrowBody::Block(stmts)))),
        Seq::empty(),
    )
}

pub fn tpl_render_expr_text(
    expr_result: ExprParseResult,
    value: Expr,
    is_parent_component: bool,
    is_root_container: bool,
) -> (out: Expr)
    ensures
        ev(out) == spec_tpl_render_expr_text(
            parse_resultv(expr_result),
            ev(value),
            is_parent_component,
            is_root_container,
        ),
{
    let ghost gpr = parse_resultv(expr_result);
    let ghost gv = ev(value);
    let ghost grender = GExpr::Call(
        Box::new(GExpr::Ident(crate::names::n_local_set_text_content())),
        seq![garg(GExpr::Ident(crate::names::n_el())), garg(gv)],
    );
    let mut rf_args: Vec<Arg> = Vec::new();
    rf_args.push(ast_create_arg_expr(Expr::Ident(crate::names::s_el())));
    rf_args.push(ast_create_arg_expr(value));
    let rf_callee = Expr::Ident(crate::names::s_local_set_text_content());
    let render_fn = Expr::Call(Box::new(rf_callee), rf_args);
    proof {
        lemma_argsv(rf_args@);
        assert(argsv(rf_args@) =~= grender->Call_1);
        assert(ev(rf_callee) == GExpr::Ident(crate::names::n_local_set_text_content()));
        assert(grender == GExpr::Call(
            Box::new(GExpr::Ident(crate::names::n_local_set_text_content())),
            grender->Call_1,
        ));
        assert(ev(render_fn) == grender);
    }
    let ghost gctn = GExpr::Call(
        Box::new(GExpr::Ident(crate::names::n_local_create_text_node())),
        seq![garg(GExpr::Lit(GLit::Str(Seq::empty())))],
    );
    let mut ctn_args: Vec<Arg> = Vec::new();
    let empty: Vec<char> = Vec::new();
    proof {
        assert(empty@ =~= Seq::<char>::empty());
    }
    ctn_args.push(ast_create_arg_expr(ast_create_expr_lit_str(empty)));
    let ctn_callee = Expr::Ident(crate::names::s_local_create_text_node());
    let ctn = Expr::Call(Box::new(ctn_callee), ctn_args);
    proof {
        lemma_argsv(ctn_args@);
        assert(argsv(ctn_args@) =~= gctn->Call_1);
        assert(ev(ctn_callee) == GExpr::Ident(crate::names::n_local_create_text_node()));
        assert(gctn == GExpr::Call(
            Box::new(GExpr::Ident(crate::names::n_local_create_text_node())),
            gctn->Call_1,
        ));
        assert(ev(ctn) == gctn);
    }
    let mut stmts: Vec<Stmt> = Vec::new();
    stmts.push(Stmt::ConstDecl(crate::names::s_el(), ctn));
    let watch = tpl_watch_and_render(render_fn, expr_result, is_root_container);
    stmts.push(Stmt::Expr(watch));
    if is_parent_component {
        stmts.push(Stmt::Expr(tpl_push_el_code(true, is_root_container)));
    }
    stmts.push(Stmt::Ret(Some(Expr::Ident(crate::names::s_el()))));
    let empty_params: Vec<Pat> = Vec::new();
    let ghost gstmts = stmtsv(stmts@);
    proof {
        let sout = spec_tpl_render_expr_text(gpr, gv, is_parent_component, is_root_container);
        lemma_stmtsv(stmts@);
        assert(stmtv(stmts@[0]) == GStmt::ConstDecl(crate::names::n_el(), gctn));
        assert(stmtv(stmts@[1]) == GStmt::Expr(spec_tpl_watch_and_render(
            grender,
            gpr,
            is_root_container,
        )));
        if is_parent_component {
            assert(stmtv(stmts@[2]) == GStmt::Expr(spec_tpl_push_el_code(
                true,
                is_root_container,
            )));
            assert(stmtv(stmts@[3]) == GStmt::Ret(Some(GExpr::Ident(crate::names::n_el()))));
        } else {
            assert(stmtv(stmts@[2]) == GStmt::Ret(Some(GExpr::Ident(crate::names::n_el()))));
        }
        assert(gstmts =~= sout->Call_0->Arrow_1->Block_0);
        assert(crate::ast::patsv(empty_params@) =~= Seq::<GPat>::empty());
    }
    let arrow = ast_create_expr_arrow_fn(empty_params, ArrowBody::Block(stmts));
    let no_args: Vec<Arg> = Vec::new();
    let out = Expr::Call(Box::new(arrow), no_args);
    proof {
        lemma_argsv(no_args@);
        let sout = spec_tpl_render_expr_text(gpr, gv, is_parent_component, is_root_container);
        assert(argsv(no_args@) =~= Seq::<GArg>::empty());
        assert(ev(arrow) == GExpr::Arrow(Seq::empty(), Box::new(GArrowBody::Block(gstmts))));
        assert(sout == GExpr::Call(Box::new(ev(arrow)), Seq::empty()));
        assert(ev(out) == sout);
    }
    out
}

/// A watcher re-assigning an html attribute: direct property assignment
/// for the fixed allow-list of interactive attributes, the generic
/// set-attribute helper otherwise.
pub open spec fn spec_tpl_watch_and_set_html_attr(
    name: Seq<char>,
    pr: GParseResult,
    is_root_container: bool,
) -> GExpr {
    let set_fn = if crate::names::spec_is_idl_attr(name) {
        GExpr::Assign(
            Box::new(
                GExpr::Member(
                    Box::new(GExpr::Ident(crate::names::n_el())),
                    GMemberProp::Ident(name),
                ),
            ),
            Box::new(GExpr::Ident(crate::names::n_v())),
        )
    } else {
        spec_tpl_set_attribute(
            GExpr::Ident(crate::names::n_el()),
            name,
            GExpr::Ident(crate::names::n_v()),
        )
    };
    spec_tpl_watch_and_render(set_fn, pr, is_root_container)
}

pub fn tpl_watch_and_set_html_attr(
    attr_name: Vec<char>,
    expr_result: ExprParseResult,
    is_root_container: bool,
) -> (out: Expr)
    ensures
        ev(out) == spec_tpl_watch_and_set_html_attr(
            attr_name@,
            parse_resultv(expr_result),
            is_root_container,
        ),
{
    let ghost gn = attr_name@;
    let set_fn = if crate::names::is_idl_attr(&attr_name) {
        ast_create_expr_assign_mem(
            Expr::Ident(crate::names::s_el()),
            attr_name,
            Expr::Ident(crate::names::s_v()),
        )
    } else {
        tpl_set_attribute(
            Expr::Ident(crate::names::s_el()),
            attr_name,
            Expr::Ident(crate::names::s_v()),
        )
    };
    tpl_watch_and_render(set_fn, expr_result, is_root_container)
}

/// A watcher re-assigning a key on the reactive attribute object.
pub open spec fn spec_tpl_watch_and_set_component_attr(
    name: Seq<char>,
    pr: GParseResult,
    is_root_container: bool,
) -> GExpr {
    let set_fn = GExpr::Assign(
        Box::new(
            GExpr::Member(
                Box::new(GExpr::Ident(crate::names::n_attrs_local())),
                GMemberProp::Ident(name),
            ),
        ),
        Box::new(GExpr::Ident(crate::names::n_v())),
    );
    spec_tpl_watch_and_render(set_fn, pr, is_root_container)
}

pub fn tpl_watch_and_set_component_attr(
    attr_name: Vec<char>,
    expr_result: ExprParseResult,
    is_root_container: bool,
) -> (out: Expr)
    ensures
        ev(out) == spec_tpl_watch_and_set_component_attr(
            attr_name@,
            parse_resultv(expr_result),
            is_root_container,
        ),
{
    let set_fn = ast_create_expr_assign_mem(
        Expr::Ident(crate::names::s_attrs_local()),
        attr_name,
        Expr::Ident(crate::names::s_v()),
    );
    tpl_watch_and_render(set_fn, expr_result, is_root_container)
}

/// Intl text rendering: `renderIntlText(<container>, <isParentComponent>,
/// "<key>"[, <params>][, "<defaultText>"])`; a missing params object is
/// filled with an empty one when a default text follows.
pub open spec fn spec_tpl_render_intl_text(
    key: Seq<char>,
    params: Option<GArg>,
    default_text: Option<Seq<char>>,
    is_parent_component: bool,
    is_root_container: bool,
) -> GExpr {
    let base = seq![
        garg(spec_container(is_root_container)),
        garg(GExpr::Lit(GLit::Bool(is_parent_component))),
        garg(GExpr::Lit(GLit::Str(key))),
    ];
    let with_params = match params {
        Some(p) => base.push(p),
        None => base,
    };
    let args = match default_text {
        Some(t) => {
            let filled = if params is None {
                with_params.push(garg(GExpr::Object(Seq::empty())))
            } else {
                with_params
            };
            filled.push(garg(GExpr::Lit(GLit::Str(t))))
        },
        None => with_params,
    };
    GExpr::Call(Box::new(GExpr::Ident(crate::names::n_local_render_intl_text())), args)
}

pub fn tpl_render_intl_text(
    key: Vec<char>,
    params: Option<Arg>,
    default_text: Option<Vec<char>>,
    is_parent_component: bool,
    is_root_container: bool,
) -> (out: Expr)
    ensures
        ev(out) == spec_tpl_render_intl_text(
            key@,
            match params {
                Some(p) => Some(argv(p)),
                None => None,
            },
            match default_text {
                Some(t) => Some(t@),
                None => None,
            },
            is_parent_component,
            is_root_container,
        ),
{
    let ghost gkey = key@;
    let ghost gparams = match &params {
        Some(p) => Some(argv(*p)),
        None => None,
    };
    let ghost gtext = match &default_text {
        Some(t) => Some(t@),
        None => None,
    };
    let had_params = params.is_some();
    let mut args: Vec<Arg> = Vec::new();
    args.push(ast_create_arg_expr(ast_create_id_of_container(is_root_container)));
    args.push(ast_create_arg_expr(Expr::Lit(Lit::Bool(is_parent_component))));
    args.push(ast_create_arg_expr(ast_create_expr_lit_str(key)));
    match params {
        Some(p) => {
            args.push(p);
        }
        None => {}
    }
    match default_text {
        Some(t) => {
            if !had_params {
                let none_props: Vec<crate::ast::Prop> = Vec::new();
                proof {
                    crate::ast::lemma_propsv(none_props@);
                }
                args.push(ast_create_arg_expr(Expr::Object(none_props)));
            }
            args.push(ast_create_arg_expr(ast_create_expr_lit_str(t)));
        }
        None => {}
    }
    let callee = Expr::Ident(crate::names::s_local_render_intl_text());
    let out = Expr::Call(Box::new(callee), args);
    proof {
        lemma_argsv(args@);
        let sout = spec_tpl_render_intl_text(
            gkey,
            gparams,
            gtext,
            is_parent_component,
            is_root_container,
        );
        assert(argsv(args@) =~= sout->Call_1);
        let gcallee = GExpr::Ident(crate::names::n_local_render_intl_text());
        assert(ev(callee) == gcallee);
        assert(sout == GExpr::Call(Box::new(gcallee), sout->Call_1));
        assert(ev(out) == GExpr::Call(Box::new(ev(callee)), argsv(args@)));
        assert(ev(out) == sout);
    }
    out
}

} // verus!
