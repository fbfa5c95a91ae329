use jinge_compiler::ast::{Arg, Expr, JsxAttr, JsxAttrOrSpread, JsxAttrValue, JsxElement, Lit, MemberProp, Pat, ArrowBody, UnOp};
use jinge_compiler::parser::{IntlType, TemplateParser};
use jinge_compiler::diag::Diag;
use jinge_compiler::expr::{ExprParseResult, ExprVisitor};
use jinge_compiler::intl::calc_intl_key;
use jinge_compiler::text::trim_html_text;
use base64ct::Encoding;
use sha2::Digest;

fn chars(s: &str) -> Vec<char> {
    s.chars().collect()
}

fn string_of(v: &[char]) -> String {
    v.iter().collect()
}

fn member(obj: Expr, name: &str) -> Expr {
    Expr::Member(Box::new(obj), MemberProp::Ident(chars(name)))
}

fn ident(name: &str) -> Expr {
    Expr::Ident(chars(name))
}

#[test]
fn test_trim_html_text() {
    let t = chars("  hello  ");
    assert_eq!(trim_html_text(&t), Some(t));
    let t = chars("   \n   hello  ");
    assert_eq!(trim_html_text(&t), Some(chars("hello  ")));
    let t = chars("   \n   he  llo  \n   ");
    assert_eq!(trim_html_text(&t), Some(chars("he  llo")));
    let t = chars(" he llo \n w \n  orld");
    assert_eq!(trim_html_text(&t), Some(chars(" he llo w orld")));
    let t = chars("  \n  \n\n  ");
    assert_eq!(trim_html_text(&t), None);
    let t = chars("  a \n\n\n b c \n d ");
    assert_eq!(trim_html_text(&t), Some(chars("  a b c d ")));
}

#[test]
fn path_extraction_simple() {
    // this.a.b.c => Simple{root=this, path=["a","b","c"], negation none}
    let e = member(member(member(Expr::This, "a"), "b"), "c");
    let mut v = ExprVisitor::new();
    match v.parse(&e) {
        ExprParseResult::Simple(s) => {
            assert!(s.is_this);
            assert_eq!(s.not_op, 0);
            assert!(matches!(*s.vm, Expr::This));
            match &*s.path {
                Expr::Array(elems) => {
                    let names: Vec<String> = elems
                        .iter()
                        .map(|a| match &a.expr {
                            Expr::Lit(Lit::Str(s)) => string_of(s),
                            _ => panic!("path segment is not a string literal"),
                        })
                        .collect();
                    assert_eq!(names, vec!["a", "b", "c"]);
                }
                _ => panic!("path is not an array"),
            }
        }
        _ => panic!("expected the simple tier"),
    }
    assert!(v.diags.is_empty());
}

#[test]
fn path_extraction_negation() {
    let access = member(member(Expr::This, "a"), "b");
    let e1 = Expr::Unary(UnOp::Not, Box::new(access));
    let mut v = ExprVisitor::new();
    match v.parse(&e1) {
        ExprParseResult::Simple(s) => assert_eq!(s.not_op, 1),
        _ => panic!("expected the simple tier"),
    }
    let e2 = Expr::Unary(
        UnOp::Not,
        Box::new(Expr::Unary(UnOp::Not, Box::new(member(Expr::This, "a")))),
    );
    let mut v = ExprVisitor::new();
    match v.parse(&e2) {
        ExprParseResult::Simple(s) => assert_eq!(s.not_op, 2),
        _ => panic!("expected the simple tier"),
    }
    // !-this.a is not a recognised negation shape and needs the complex tier
    let e3 = Expr::Unary(
        UnOp::Not,
        Box::new(Expr::Unary(UnOp::Minus, Box::new(member(Expr::This, "a")))),
    );
    let mut v = ExprVisitor::new();
    assert!(matches!(v.parse(&e3), ExprParseResult::Complex(_)));
}

#[test]
fn multi_target_complexity() {
    // this.a + other.b => Complex with two targets and evaluator (a0, a1) => a0 + a1
    let e = Expr::Bin(
        chars("+"),
        Box::new(member(Expr::This, "a")),
        Box::new(member(ident("other"), "b")),
    );
    let mut v = ExprVisitor::new();
    match v.parse(&e) {
        ExprParseResult::Complex(w) => match *w {
            Expr::Call(callee, args) => {
                match *callee {
                    Expr::Ident(n) => assert_eq!(string_of(&n), "ExprWatcher$jg$"),
                    _ => panic!("callee is not the expression watcher"),
                }
                assert_eq!(args.len(), 2);
                match &args[0].expr {
                    Expr::Array(ws) => assert_eq!(ws.len(), 2),
                    _ => panic!("first argument is not the watcher list"),
                }
                match &args[1].expr {
                    Expr::Arrow(params, body) => {
                        let names: Vec<String> = params
                            .iter()
                            .map(|p| match p {
                                Pat::Id(n) => string_of(n),
                                _ => panic!("parameter is not an identifier"),
                            })
                            .collect();
                        assert_eq!(names, vec!["a0", "a1"]);
                        match &**body {
                            ArrowBody::Expr(b) => match &**b {
                                Expr::Bin(op, l, r) => {
                                    assert_eq!(string_of(op), "+");
                                    assert!(matches!(&**l, Expr::Ident(n) if string_of(n) == "a0"));
                                    assert!(matches!(&**r, Expr::Ident(n) if string_of(n) == "a1"));
                                }
                                _ => panic!("evaluator body is not the original operator"),
                            },
                            _ => panic!("evaluator body is not an expression"),
                        }
                    }
                    _ => panic!("second argument is not the evaluator"),
                }
            }
            _ => panic!("complex result is not a call"),
        },
        _ => panic!("expected the complex tier"),
    }
}

#[test]
fn exclusion_of_private_paths() {
    // this._secret.x registers nothing: the first segment is private.
    let e = member(member(Expr::This, "_secret"), "x");
    let mut v = ExprVisitor::new();
    assert!(matches!(v.parse(&e), ExprParseResult::NoDep));
}

#[test]
fn excluded_roots_are_not_reactive() {
    let e = member(ident("item"), "title");
    let mut v = ExprVisitor::new_with_exclude_roots(vec![chars("item")]);
    assert!(matches!(v.parse(&e), ExprParseResult::NoDep));
    let mut v2 = ExprVisitor::new();
    assert!(matches!(v2.parse(&e), ExprParseResult::Simple(_)));
}

#[test]
fn const_fold_idempotent() {
    // A literal expression classifies as no-dependency, twice over.
    let e = Expr::Bin(
        chars("+"),
        Box::new(Expr::Lit(Lit::Num(chars("1")))),
        Box::new(Expr::Lit(Lit::Num(chars("2")))),
    );
    let mut v = ExprVisitor::new();
    assert!(matches!(v.parse(&e), ExprParseResult::NoDep));
    assert!(matches!(v.parse(&e), ExprParseResult::NoDep));
}

#[test]
fn call_as_watch_root_reports() {
    // state.a().b cannot root a chain; a diagnostic is reported and the
    // expression keeps no dependency.
    let call = Expr::Call(Box::new(member(ident("state"), "a")), vec![]);
    let e = member(call, "b");
    let mut v = ExprVisitor::new();
    assert!(matches!(v.parse(&e), ExprParseResult::NoDep));
    assert!(v.diags.contains(&Diag::CallAsWatchRoot));
}

fn attr(name: &str, value: Option<JsxAttrValue>) -> JsxAttrOrSpread {
    JsxAttrOrSpread::Attr(JsxAttr { name: Some(chars(name)), value })
}

fn container(e: Expr) -> Option<JsxAttrValue> {
    Some(JsxAttrValue::Container(Some(e)))
}

fn empty_arrow() -> Expr {
    Expr::Arrow(vec![], Box::new(ArrowBody::Block(vec![])))
}

#[test]
fn attribute_classification_buckets() {
    // <div className="x" onClick={() => {}} onFocusCapture={() => {}}
    //      disabled ref={this.r} a={this.b}>
    let el = JsxElement {
        name: Some(chars("div")),
        attrs: vec![
            attr("className", Some(JsxAttrValue::Lit(Lit::Str(chars("x"))))),
            attr("onClick", container(empty_arrow())),
            attr("onFocusCapture", container(empty_arrow())),
            attr("disabled", None),
            attr("ref", container(member(Expr::This, "r"))),
            attr("a", container(member(Expr::This, "b"))),
        ],
        children: vec![],
    };
    let mut p = TemplateParser::new(None, IntlType::Disabled);
    let store = p.parse_attrs(&el, false);
    assert!(store.ref_prop.is_some());
    assert_eq!(store.evt_props.len(), 2);
    assert_eq!(string_of(&store.evt_props[0].event_name), "click");
    assert!(!store.evt_props[0].capture);
    assert_eq!(string_of(&store.evt_props[1].event_name), "focus");
    assert!(store.evt_props[1].capture);
    let const_names: Vec<String> =
        store.const_props.iter().map(|(n, _)| string_of(n)).collect();
    assert_eq!(const_names, vec!["class", "disabled"]);
    assert!(matches!(store.const_props[1].1, Expr::Lit(Lit::Bool(true))));
    assert_eq!(store.watch_props.len(), 1);
    assert_eq!(string_of(&store.watch_props[0].0), "a");
    assert!(matches!(store.watch_props[0].1, ExprParseResult::Simple(_)));
    // every attribute landed in exactly one bucket
    let kept = store.evt_props.len() + store.const_props.len() + store.watch_props.len() + 1;
    assert_eq!(kept, el.attrs.len());
    assert!(p.diags.is_empty());
}

#[test]
fn duplicate_ref_reports() {
    let el = JsxElement {
        name: Some(chars("div")),
        attrs: vec![
            attr("ref", container(member(Expr::This, "r"))),
            attr("ref", container(member(Expr::This, "r2"))),
        ],
        children: vec![],
    };
    let mut p = TemplateParser::new(None, IntlType::Disabled);
    let store = p.parse_attrs(&el, false);
    assert!(store.ref_prop.is_some());
    assert!(p.diags.contains(&Diag::DupRef));
}

#[test]
fn reserved_attr_names_report() {
    let el = JsxElement {
        name: Some(chars("Box")),
        attrs: vec![
            attr("children", container(ident("x"))),
            attr("key", container(ident("k"))),
        ],
        children: vec![],
    };
    let mut p = TemplateParser::new(None, IntlType::Disabled);
    let store = p.parse_attrs(&el, true);
    assert!(store.const_props.is_empty() && store.watch_props.is_empty());
    assert!(p.diags.contains(&Diag::ReservedAttrName));
    // `key` is ignored silently
    assert_eq!(p.diags.len(), 1);
}

#[test]
fn event_needs_arrow_on_html() {
    let el = JsxElement {
        name: Some(chars("div")),
        attrs: vec![attr("onClick", container(ident("handler")))],
        children: vec![],
    };
    let mut p = TemplateParser::new(None, IntlType::Disabled);
    let store = p.parse_attrs(&el, false);
    assert!(store.evt_props.is_empty());
    assert!(p.diags.contains(&Diag::EventValueNotArrow));
}

#[test]
fn component_arrow_attr_with_outer_state_watches() {
    // <Box f={(x) => this.n + x}/>: the arrow's own parameter is excluded,
    // the receiver access still registers.
    let arrow = Expr::Arrow(
        vec![Pat::Id(chars("x"))],
        Box::new(ArrowBody::Expr(Box::new(Expr::Bin(
            chars("+"),
            Box::new(member(Expr::This, "n")),
            Box::new(ident("x")),
        )))),
    );
    let el = JsxElement {
        name: Some(chars("Box")),
        attrs: vec![attr("f", container(arrow))],
        children: vec![],
    };
    let mut p = TemplateParser::new(None, IntlType::Disabled);
    let store = p.parse_attrs(&el, true);
    assert_eq!(store.watch_props.len(), 1);

    // with only the parameter accessed the attribute is constant
    let arrow2 = Expr::Arrow(
        vec![Pat::Id(chars("x"))],
        Box::new(ArrowBody::Expr(Box::new(member(ident("x"), "y")))),
    );
    let el2 = JsxElement {
        name: Some(chars("Box")),
        attrs: vec![attr("f", container(arrow2))],
        children: vec![],
    };
    let mut p2 = TemplateParser::new(None, IntlType::Disabled);
    let store2 = p2.parse_attrs(&el2, true);
    assert_eq!(store2.const_props.len(), 1);
    assert!(store2.watch_props.is_empty());
}

#[test]
fn intl_key_matches_direct_digest() {
    let message = "hello world";
    let key = calc_intl_key(&chars(message), None);
    let digest = sha2::Sha512::digest(message.as_bytes());
    let mut buf = [0u8; 128];
    let encoded = base64ct::Base64::encode(&digest, &mut buf).unwrap();
    let expected: Vec<char> = encoded.chars().take(6).collect();
    assert_eq!(key, expected);
    assert_eq!(key.len(), 6);
}

#[test]
fn intl_key_salted_by_filename() {
    let key = calc_intl_key(&chars("hi"), Some(&chars("a.tsx")));
    let mut h = sha2::Sha512::new();
    h.update("hi");
    h.update("a.tsx");
    let digest = h.finalize();
    let mut buf = [0u8; 128];
    let encoded = base64ct::Base64::encode(&digest, &mut buf).unwrap();
    let expected: Vec<char> = encoded.chars().take(6).collect();
    assert_eq!(key, expected);
    assert_ne!(key, calc_intl_key(&chars("hi"), None));
}

#[test]
fn extract_t_prefers_explicit_key() {
    let args = vec![
        Arg { spread: false, expr: Expr::Lit(Lit::Str(chars("Hello"))) },
        Arg { spread: false, expr: Expr::Object(vec![]) },
        Arg {
            spread: false,
            expr: Expr::Object(vec![jinge_compiler::ast::Prop::KV(
                jinge_compiler::ast::PropKey::Ident(chars("key")),
                Expr::Lit(Lit::Str(chars("greet"))),
            )]),
        },
    ];
    let mut diags = Vec::new();
    let t = jinge_compiler::intl::extract_t(&args, &mut diags).expect("a recognised t call");
    assert_eq!(string_of(&t.key), "greet");
    assert_eq!(string_of(&t.default_text), "Hello");
    assert!(t.params.is_some());
}

#[test]
fn extract_t_rejects_non_literal_text() {
    let args = vec![Arg { spread: false, expr: ident("msg") }];
    let mut diags = Vec::new();
    assert!(jinge_compiler::intl::extract_t(&args, &mut diags).is_none());
    assert!(diags.contains(&Diag::TFirstArgNotStr));
}

#[test]
fn extract_t_computes_key_from_text() {
    let args = vec![Arg { spread: false, expr: Expr::Lit(Lit::Str(chars("Hello"))) }];
    let mut diags = Vec::new();
    let t = jinge_compiler::intl::extract_t(&args, &mut diags).expect("a recognised t call");
    assert_eq!(t.key, calc_intl_key(&chars("Hello"), None));
}

use jinge_compiler::ast::Stmt;
use jinge_compiler::cond::{lower_cond, CondLower};
use jinge_compiler::jsx::emit_html;
use jinge_compiler::attrs::{AttrEvt, AttrStore};

#[test]
fn ternary_both_null_renders_nothing() {
    // null ? a : null produces no emitted expression at all
    let test = ident("a");
    let cons = Expr::Lit(Lit::Null);
    let alt = ident("undefined");
    let mut diags = Vec::new();
    assert!(matches!(
        lower_cond(&test, &cons, &alt, true, true, &mut diags),
        CondLower::Nothing
    ));
}

#[test]
fn ternary_with_element_branch_needs_component() {
    // cond ? <Foo/> : null must go through the conditional component
    let foo = Expr::Jsx(Box::new(JsxElement {
        name: Some(chars("Foo")),
        attrs: vec![],
        children: vec![],
    }));
    let test = member(Expr::This, "cond");
    let alt = Expr::Lit(Lit::Null);
    let mut diags = Vec::new();
    assert!(matches!(
        lower_cond(&test, &foo, &alt, true, true, &mut diags),
        CondLower::Component
    ));
}

#[test]
fn ternary_constant_branches_collapse() {
    // this.submitting ? "busy" : null collapses to a watched text render
    // whose body substitutes the empty string for the dropped branch.
    let test = member(Expr::This, "submitting");
    let cons = Expr::Lit(Lit::Str(chars("busy")));
    let alt = Expr::Lit(Lit::Null);
    let mut diags = Vec::new();
    match lower_cond(&test, &cons, &alt, false, true, &mut diags) {
        CondLower::Lite(out) => match out {
            // watched text: an immediately-invoked closure
            Expr::Call(callee, args) => {
                assert!(args.is_empty());
                assert!(matches!(*callee, Expr::Arrow(_, _)));
            }
            _ => panic!("expected the watched-text closure"),
        },
        _ => panic!("expected the lite tier"),
    }
}

#[test]
fn html_emit_end_to_end() {
    // <div class="x"> with a click listener and a watched attribute:
    // a createEleA call wrapped in the registration closure.
    let store = AttrStore {
        ref_prop: None,
        evt_props: vec![AttrEvt {
            event_name: chars("click"),
            event_handler: Box::new(Expr::Arrow(
                vec![],
                Box::new(ArrowBody::Block(vec![])),
            )),
            capture: false,
        }],
        const_props: vec![(chars("class"), Expr::Lit(Lit::Str(chars("x"))))],
        watch_props: vec![],
    };
    let children = vec![];
    let out = emit_html(chars("div"), store, children, true, true);
    match out {
        Expr::Call(callee, args) => {
            assert!(args.is_empty());
            match *callee {
                Expr::Arrow(params, body) => {
                    assert!(params.is_empty());
                    match *body {
                        ArrowBody::Block(stmts) => {
                            // declaration, event wiring, node push, return
                            assert_eq!(stmts.len(), 4);
                            match &stmts[0] {
                                Stmt::ConstDecl(n, Expr::Call(c, cargs)) => {
                                    assert_eq!(string_of(n), "$jg$");
                                    assert!(matches!(
                                        &**c,
                                        Expr::Ident(i) if string_of(i) == "createEleA$jg$"
                                    ));
                                    assert_eq!(cargs.len(), 2);
                                    assert!(matches!(
                                        &cargs[0].expr,
                                        Expr::Lit(Lit::Str(t)) if string_of(t) == "div"
                                    ));
                                }
                                _ => panic!("first statement must declare the element"),
                            }
                            match &stmts[1] {
                                Stmt::Expr(Expr::Call(c, cargs)) => {
                                    assert!(matches!(
                                        &**c,
                                        Expr::Ident(i) if string_of(i) == "addEvent$jg$"
                                    ));
                                    assert!(matches!(
                                        &cargs[1].expr,
                                        Expr::Lit(Lit::Str(t)) if string_of(t) == "click"
                                    ));
                                }
                                _ => panic!("second statement must wire the event"),
                            }
                            assert!(matches!(&stmts[3], Stmt::Ret(Some(_))));
                        }
                        _ => panic!("closure body must be a block"),
                    }
                }
                _ => panic!("callee must be the closure"),
            }
        }
        _ => panic!("wrapped element must be a call"),
    }
}

#[test]
fn html_emit_plain_when_static() {
    // no events, watches, ref, and an html parent: the bare call stands
    let store = AttrStore {
        ref_prop: None,
        evt_props: vec![],
        const_props: vec![],
        watch_props: vec![],
    };
    let out = emit_html(chars("span"), store, vec![], false, true);
    match out {
        Expr::Call(c, cargs) => {
            assert!(matches!(&*c, Expr::Ident(i) if string_of(i) == "createEle$jg$"));
            assert_eq!(cargs.len(), 1);
        }
        _ => panic!("expected the bare create-element call"),
    }
}

use jinge_compiler::parser::{Context, Parent, Slot};

#[test]
fn component_assembly_default_slot() {
    // <Foo a="1">...</Foo> with one collected child expression:
    // an IIFE appended as a spread element, constructing the component
    // with the default-slot closure and returning the render call.
    let mut p = TemplateParser::new(None, IntlType::Disabled);
    let children = Context {
        parent: Parent::Component,
        root_container: false,
        slots: vec![Slot {
            name: vec![],
            params: vec![],
            expressions: vec![jinge_compiler::ast::Arg {
                spread: false,
                expr: Expr::Lit(Lit::Str(chars("hi"))),
            }],
        }],
    };
    let store = AttrStore {
        ref_prop: None,
        evt_props: vec![],
        const_props: vec![(chars("a"), Expr::Lit(Lit::Str(chars("1"))))],
        watch_props: vec![],
    };
    p.assemble_component(chars("Foo"), store, children);
    let slot = &p.context.slots[p.context.slots.len() - 1];
    assert_eq!(slot.expressions.len(), 1);
    let arg = &slot.expressions[0];
    assert!(arg.spread);
    match &arg.expr {
        Expr::Call(callee, args) => {
            assert!(args.is_empty());
            match &**callee {
                Expr::Arrow(_, body) => match &**body {
                    ArrowBody::Block(stmts) => {
                        // attrs decl, component decl, node push, render return
                        assert_eq!(stmts.len(), 4);
                        match &stmts[1] {
                            Stmt::ConstDecl(_, Expr::Call(c, cargs)) => {
                                assert!(matches!(
                                    &**c,
                                    Expr::Ident(i)
                                        if string_of(i) == "newComponentWithDefaultSlot$jg$"
                                ));
                                // context argument + default-slot closure
                                assert_eq!(cargs.len(), 2);
                                assert!(matches!(&cargs[1].expr, Expr::Arrow(_, _)));
                            }
                            _ => panic!("second statement must construct the component"),
                        }
                        match &stmts[3] {
                            Stmt::Ret(Some(Expr::Call(c, rargs))) => {
                                assert!(matches!(
                                    &**c,
                                    Expr::Ident(i) if string_of(i) == "renderFc$jg$"
                                ));
                                assert_eq!(rargs.len(), 3);
                                assert!(matches!(
                                    &rargs[1].expr,
                                    Expr::Ident(i) if string_of(i) == "Foo"
                                ));
                            }
                            _ => panic!("last statement must return the render call"),
                        }
                    }
                    _ => panic!("closure body must be a block"),
                },
                _ => panic!("callee must be the closure"),
            }
        }
        _ => panic!("component output must be a call"),
    }
    assert!(p.diags.is_empty());
}

#[test]
fn component_named_slots_beside_default_content_report() {
    // named slots beside stray default content draw a diagnostic
    let mut p = TemplateParser::new(None, IntlType::Disabled);
    let children = Context {
        parent: Parent::Component,
        root_container: false,
        slots: vec![
            Slot {
                name: vec![],
                params: vec![],
                expressions: vec![jinge_compiler::ast::Arg {
                    spread: false,
                    expr: Expr::Lit(Lit::Str(chars("stray"))),
                }],
            },
            Slot {
                name: chars("header"),
                params: vec![],
                expressions: vec![jinge_compiler::ast::Arg {
                    spread: false,
                    expr: Expr::Lit(Lit::Str(chars("h"))),
                }],
            },
        ],
    };
    let store = AttrStore {
        ref_prop: None,
        evt_props: vec![],
        const_props: vec![],
        watch_props: vec![],
    };
    p.assemble_component(chars("Box"), store, children);
    assert!(p.diags.contains(&Diag::MixedSlotContent));
}

#[test]
fn trim_is_idempotent() {
    let t = chars("  a \n\n\n b c \n d ");
    let once = trim_html_text(&t).unwrap();
    let twice = trim_html_text(&once).unwrap();
    assert_eq!(once, twice);
    assert!(!once.contains(&'\n'));
}
