//! The syntax-tree model the compiler reads and builds.
//!
//! Identifier and literal text is held as plain character vectors; every
//! node kind the template compiler inspects or emits has a variant here.
//! Each executable type has a ghost mirror (the `G*` types, over `Seq`)
//! reached through the view functions (`ev`, `elemv`, ...); contracts are
//! stated over those mirrors.

use vstd::prelude::*;

verus! {

/// A literal value as it appears in source text.  Numeric and big-int
/// literals keep their raw spelling so that output reproduces them exactly.
pub enum Lit {
    Str(Vec<char>),
    Num(Vec<char>),
    Bool(bool),
    Null,
    BigInt(Vec<char>),
    JsxText(Vec<char>),
}

/// A unary operator.
#[derive(Clone, Copy, PartialEq, Eq, Structural)]
pub enum UnOp {
    Not,
    Minus,
    Plus,
    Tilde,
    TypeOf,
    Void,
    Delete,
}

/// The property part of a member access.
pub enum MemberProp {
    Ident(Vec<char>),
    Private(Vec<char>),
    Computed(Box<Expr>),
}

/// A binding pattern in a function or arrow parameter list.  Everything
/// beyond a plain identifier is kept opaque: the compiler only ever needs
/// the bound name, and warns on destructuring forms.
pub enum Pat {
    Id(Vec<char>),
    Other,
}

/// The body of an arrow function.
pub enum ArrowBody {
    Expr(Box<Expr>),
    Block(Vec<Stmt>),
}

/// The statement forms the compiler reads or emits.
pub enum Stmt {
    ConstDecl(Vec<char>, Expr),
    Expr(Expr),
    Ret(Option<Expr>),
    FnDecl(Vec<char>, Vec<Pat>, Vec<Stmt>),
}

/// A call or array argument, possibly spread.
pub struct Arg {
    pub spread: bool,
    pub expr: Expr,
}

/// An object-literal property key.
pub enum PropKey {
    Ident(Vec<char>),
    Str(Vec<char>),
    Num(Vec<char>),
    BigInt(Vec<char>),
    Computed(Expr),
}

/// An object-literal member.
pub enum Prop {
    KV(PropKey, Expr),
    Spread(Expr),
    Other,
}

/// The value of a JSX attribute.
pub enum JsxAttrValue {
    Lit(Lit),
    /// An expression container; `None` is the empty container `{}`.
    Container(Option<Expr>),
    /// An element or fragment used directly as an attribute value.
    Other,
}

/// One JSX attribute.  `name` is `None` for namespaced attribute names,
/// which the compiler skips.
pub struct JsxAttr {
    pub name: Option<Vec<char>>,
    pub value: Option<JsxAttrValue>,
}

/// An attribute slot on an opening tag: a named attribute or a spread.
pub enum JsxAttrOrSpread {
    Attr(JsxAttr),
    Spread(Expr),
}

/// A child of a JSX element or fragment.
pub enum JsxChild {
    Element(JsxElement),
    Fragment(Vec<JsxChild>),
    Text(Vec<char>),
    Container(Option<Expr>),
}

/// A JSX element.  `name` is `None` for member or namespaced tag names,
/// which the compiler rejects with a diagnostic.
pub struct JsxElement {
    pub name: Option<Vec<char>>,
    pub attrs: Vec<JsxAttrOrSpread>,
    pub children: Vec<JsxChild>,
}

/// An expression.  Binary operators keep their source spelling; the
/// compiler only ever distinguishes `&&`.
pub enum Expr {
    This,
    Ident(Vec<char>),
    Lit(Lit),
    Member(Box<Expr>, MemberProp),
    /// An optional chain wrapping a member or call expression.
    OptChain(Box<Expr>),
    Unary(UnOp, Box<Expr>),
    Bin(Vec<char>, Box<Expr>, Box<Expr>),
    /// `test ? cons : alt`.
    Cond(Box<Expr>, Box<Expr>, Box<Expr>),
    Call(Box<Expr>, Vec<Arg>),
    Arrow(Vec<Pat>, Box<ArrowBody>),
    Fn(Option<Vec<char>>, Vec<Pat>, Vec<Stmt>),
    Object(Vec<Prop>),
    Array(Vec<Arg>),
    Paren(Box<Expr>),
    /// Assignment to a member target.
    Assign(Box<Expr>, Box<Expr>),
    Jsx(Box<JsxElement>),
    JsxFragment(Vec<JsxChild>),
    JsxEmpty,
    /// A JSX member or namespaced-name form, which the compiler rejects.
    JsxOther,
    /// Any further expression kind, carried through opaquely.
    Other,
}

// ---------------------------------------------------------------------
// Ghost mirrors.
// ---------------------------------------------------------------------

#[verifier::ext_equal]
pub ghost enum GLit {
    Str(Seq<char>),
    Num(Seq<char>),
    Bool(bool),
    Null,
    BigInt(Seq<char>),
    JsxText(Seq<char>),
}

#[verifier::ext_equal]
pub ghost enum GMemberProp {
    Ident(Seq<char>),
    Private(Seq<char>),
    Computed(Box<GExpr>),
}

#[verifier::ext_equal]
pub ghost enum GPat {
    Id(Seq<char>),
    Other,
}

#[verifier::ext_equal]
pub ghost enum GArrowBody {
    Expr(Box<GExpr>),
    Block(Seq<GStmt>),
}

#[verifier::ext_equal]
pub ghost enum GStmt {
    ConstDecl(Seq<char>, GExpr),
    Expr(GExpr),
    Ret(Option<GExpr>),
    FnDecl(Seq<char>, Seq<GPat>, Seq<GStmt>),
}

#[verifier::ext_equal]
pub ghost struct GArg {
    pub spread: bool,
    pub expr: GExpr,
}

#[verifier::ext_equal]
pub ghost enum GPropKey {
    Ident(Seq<char>),
    Str(Seq<char>),
    Num(Seq<char>),
    BigInt(Seq<char>),
    Computed(GExpr),
}

#[verifier::ext_equal]
pub ghost enum GProp {
    KV(GPropKey, GExpr),
    Spread(GExpr),
    Other,
}

#[verifier::ext_equal]
pub ghost enum GJsxAttrValue {
    Lit(GLit),
    Container(Option<GExpr>),
    Other,
}

#[verifier::ext_equal]
pub ghost struct GJsxAttr {
    pub name: Option<Seq<char>>,
    pub value: Option<GJsxAttrValue>,
}

#[verifier::ext_equal]
pub ghost enum GJsxAttrOrSpread {
    Attr(GJsxAttr),
    Spread(GExpr),
}

#[verifier::ext_equal]
pub ghost enum GJsxChild {
    Element(GJsxElement),
    Fragment(Seq<GJsxChild>),
    Text(Seq<char>),
    Container(Option<GExpr>),
}

#[verifier::ext_equal]
pub ghost struct GJsxElement {
    pub name: Option<Seq<char>>,
    pub attrs: Seq<GJsxAttrOrSpread>,
    pub children: Seq<GJsxChild>,
}

#[verifier::ext_equal]
pub ghost enum GExpr {
    This,
    Ident(Seq<char>),
    Lit(GLit),
    Member(Box<GExpr>, GMemberProp),
    OptChain(Box<GExpr>),
    Unary(UnOp, Box<GExpr>),
    Bin(Seq<char>, Box<GExpr>, Box<GExpr>),
    Cond(Box<GExpr>, Box<GExpr>, Box<GExpr>),
    Call(Box<GExpr>, Seq<GArg>),
    Arrow(Seq<GPat>, Box<GArrowBody>),
    Fn(Option<Seq<char>>, Seq<GPat>, Seq<GStmt>),
    Object(Seq<GProp>),
    Array(Seq<GArg>),
    Paren(Box<GExpr>),
    Assign(Box<GExpr>, Box<GExpr>),
    Jsx(Box<GJsxElement>),
    JsxFragment(Seq<GJsxChild>),
    JsxEmpty,
    JsxOther,
    Other,
}

// ---------------------------------------------------------------------
// View functions: executable nodes to their ghost mirrors.
// ---------------------------------------------------------------------

pub open spec fn litv(l: Lit) -> GLit {
    match l {
        Lit::Str(s) => GLit::Str(s@),
        Lit::Num(s) => GLit::Num(s@),
        Lit::Bool(b) => GLit::Bool(b),
        Lit::Null => GLit::Null,
        Lit::BigInt(s) => GLit::BigInt(s@),
        Lit::JsxText(s) => GLit::JsxText(s@),
    }
}

pub open spec fn patv(p: Pat) -> GPat {
    match p {
        Pat::Id(s) => GPat::Id(s@),
        Pat::Other => GPat::Other,
    }
}

pub open spec fn patsv(s: Seq<Pat>) -> Seq<GPat>
    decreases s,
{
    if s.len() == 0 {
        Seq::empty()
    } else {
        patsv(s.drop_last()).push(patv(s.last()))
    }
}

pub open spec fn ev(e: Expr) -> GExpr
    decreases e,
{
    match e {
        Expr::This => GExpr::This,
        Expr::Ident(s) => GExpr::Ident(s@),
        Expr::Lit(l) => GExpr::Lit(litv(l)),
        Expr::Member(obj, prop) => GExpr::Member(Box::new(ev(*obj)), mpropv(prop)),
        Expr::OptChain(b) => GExpr::OptChain(Box::new(ev(*b))),
        Expr::Unary(op, b) => GExpr::Unary(op, Box::new(ev(*b))),
        Expr::Bin(op, l, r) => GExpr::Bin(op@, Box::new(ev(*l)), Box::new(ev(*r))),
        Expr::Cond(t, c, a) => GExpr::Cond(Box::new(ev(*t)), Box::new(ev(*c)), Box::new(ev(*a))),
        Expr::Call(callee, args) => GExpr::Call(Box::new(ev(*callee)), argsv(args@)),
        Expr::Arrow(params, body) => GExpr::Arrow(patsv(params@), Box::new(bodyv(*body))),
        Expr::Fn(name, params, body) => GExpr::Fn(
            match name {
                Some(n) => Some(n@),
                None => None,
            },
            patsv(params@),
            stmtsv(body@),
        ),
        Expr::Object(props) => GExpr::Object(propsv(props@)),
        Expr::Array(elems) => GExpr::Array(argsv(elems@)),
        Expr::Paren(b) => GExpr::Paren(Box::new(ev(*b))),
        Expr::Assign(t, v) => GExpr::Assign(Box::new(ev(*t)), Box::new(ev(*v))),
        Expr::Jsx(el) => GExpr::Jsx(Box::new(elemv(*el))),
        Expr::JsxFragment(cs) => GExpr::JsxFragment(childsv(cs@)),
        Expr::JsxEmpty => GExpr::JsxEmpty,
        Expr::JsxOther => GExpr::JsxOther,
        Expr::Other => GExpr::Other,
    }
}

pub open spec fn mpropv(p: MemberProp) -> GMemberProp
    decreases p,
{
    match p {
        MemberProp::Ident(s) => GMemberProp::Ident(s@),
        MemberProp::Private(s) => GMemberProp::Private(s@),
        MemberProp::Computed(b) => GMemberProp::Computed(Box::new(ev(*b))),
    }
}

pub open spec fn bodyv(b: ArrowBody) -> GArrowBody
    decreases b,
{
    match b {
        ArrowBody::Expr(e) => GArrowBody::Expr(Box::new(ev(*e))),
        ArrowBody::Block(ss) => GArrowBody::Block(stmtsv(ss@)),
    }
}

pub open spec fn stmtv(s: Stmt) -> GStmt
    decreases s,
{
    match s {
        Stmt::ConstDecl(n, e) => GStmt::ConstDecl(n@, ev(e)),
        Stmt::Expr(e) => GStmt::Expr(ev(e)),
        Stmt::Ret(e) => GStmt::Ret(
            match e {
                Some(e) => Some(ev(e)),
                None => None,
            },
        ),
        Stmt::FnDecl(n, ps, body) => GStmt::FnDecl(n@, patsv(ps@), stmtsv(body@)),
    }
}

pub open spec fn stmtsv(s: Seq<Stmt>) -> Seq<GStmt>
    decreases s,
{
    if s.len() == 0 {
        Seq::empty()
    } else {
        stmtsv(s.drop_last()).push(stmtv(s.last()))
    }
}

pub open spec fn argv(a: Arg) -> GArg
    decreases a,
{
    GArg { spread: a.spread, expr: ev(a.expr) }
}

pub open spec fn argsv(s: Seq<Arg>) -> Seq<GArg>
    decreases s,
{
    if s.len() == 0 {
        Seq::empty()
    } else {
        argsv(s.drop_last()).push(argv(s.last()))
    }
}

pub open spec fn propkeyv(k: PropKey) -> GPropKey
    decreases k,
{
    match k {
        PropKey::Ident(s) => GPropKey::Ident(s@),
        PropKey::Str(s) => GPropKey::Str(s@),
        PropKey::Num(s) => GPropKey::Num(s@),
        PropKey::BigInt(s) => GPropKey::BigInt(s@),
        PropKey::Computed(e) => GPropKey::Computed(ev(e)),
    }
}

pub open spec fn propv(p: Prop) -> GProp
    decreases p,
{
    match p {
        Prop::KV(k, v) => GProp::KV(propkeyv(k), ev(v)),
        Prop::Spread(e) => GProp::Spread(ev(e)),
        Prop::Other => GProp::Other,
    }
}

pub open spec fn propsv(s: Seq<Prop>) -> Seq<GProp>
    decreases s,
{
    if s.len() == 0 {
        Seq::empty()
    } else {
        propsv(s.drop_last()).push(propv(s.last()))
    }
}

pub open spec fn attrvalv(v: JsxAttrValue) -> GJsxAttrValue
    decreases v,
{
    match v {
        JsxAttrValue::Lit(l) => GJsxAttrValue::Lit(litv(l)),
        JsxAttrValue::Container(e) => GJsxAttrValue::Container(
            match e {
                Some(e) => Some(ev(e)),
                None => None,
            },
        ),
        JsxAttrValue::Other => GJsxAttrValue::Other,
    }
}

pub open spec fn attrv(a: JsxAttrOrSpread) -> GJsxAttrOrSpread
    decreases a,
{
    match a {
        JsxAttrOrSpread::Attr(at) => GJsxAttrOrSpread::Attr(
            GJsxAttr {
                name: match at.name {
                    Some(n) => Some(n@),
                    None => None,
                },
                value: match at.value {
                    Some(v) => Some(attrvalv(v)),
                    None => None,
                },
            },
        ),
        JsxAttrOrSpread::Spread(e) => GJsxAttrOrSpread::Spread(ev(e)),
    }
}

pub open spec fn attrsv(s: Seq<JsxAttrOrSpread>) -> Seq<GJsxAttrOrSpread>
    decreases s,
{
    if s.len() == 0 {
        Seq::empty()
    } else {
        attrsv(s.drop_last()).push(attrv(s.last()))
    }
}

pub open spec fn childv(c: JsxChild) -> GJsxChild
    decreases c,
{
    match c {
        JsxChild::Element(el) => GJsxChild::Element(elemv(el)),
        JsxChild::Fragment(cs) => GJsxChild::Fragment(childsv(cs@)),
        JsxChild::Text(s) => GJsxChild::Text(s@),
        JsxChild::Container(e) => GJsxChild::Container(
            match e {
                Some(e) => Some(ev(e)),
                None => None,
            },
        ),
    }
}

pub open spec fn childsv(s: Seq<JsxChild>) -> Seq<GJsxChild>
    decreases s,
{
    if s.len() == 0 {
        Seq::empty()
    } else {
        childsv(s.drop_last()).push(childv(s.last()))
    }
}

pub open spec fn elemv(el: JsxElement) -> GJsxElement
    decreases el,
{
    GJsxElement {
        name: match el.name {
            Some(n) => Some(n@),
            None => None,
        },
        attrs: attrsv(el.attrs@),
        children: childsv(el.children@),
    }
}

// ---------------------------------------------------------------------
// Structural sizes, used as termination measures by the executable
// functions that walk the tree.
// ---------------------------------------------------------------------

pub open spec fn sz_expr(e: Expr) -> nat
    decreases e,
{
    match e {
        Expr::This => 1,
        Expr::Ident(_) => 1,
        Expr::Lit(_) => 1,
        Expr::Member(obj, prop) => 1 + sz_expr(*obj) + sz_mprop(prop),
        Expr::OptChain(b) => 1 + sz_expr(*b),
        Expr::Unary(_, b) => 1 + sz_expr(*b),
        Expr::Bin(_, l, r) => 1 + sz_expr(*l) + sz_expr(*r),
        Expr::Cond(t, c, a) => 1 + sz_expr(*t) + sz_expr(*c) + sz_expr(*a),
        Expr::Call(callee, args) => 1 + sz_expr(*callee) + sz_args(args@),
        Expr::Arrow(_, body) => 1 + sz_body(*body),
        Expr::Fn(_, _, body) => 1 + sz_stmts(body@),
        Expr::Object(props) => 1 + sz_props(props@),
        Expr::Array(elems) => 1 + sz_args(elems@),
        Expr::Paren(b) => 1 + sz_expr(*b),
        Expr::Assign(t, v) => 1 + sz_expr(*t) + sz_expr(*v),
        Expr::Jsx(el) => 1 + sz_elem(*el),
        Expr::JsxFragment(cs) => 1 + sz_childs(cs@),
        Expr::JsxEmpty => 1,
        Expr::JsxOther => 1,
        Expr::Other => 1,
    }
}

pub open spec fn sz_mprop(p: MemberProp) -> nat
    decreases p,
{
    match p {
        MemberProp::Ident(_) => 1,
        MemberProp::Private(_) => 1,
        MemberProp::Computed(b) => 1 + sz_expr(*b),
    }
}

pub open spec fn sz_body(b: ArrowBody) -> nat
    decreases b,
{
    match b {
        ArrowBody::Expr(e) => 1 + sz_expr(*e),
        ArrowBody::Block(ss) => 1 + sz_stmts(ss@),
    }
}

pub open spec fn sz_stmt(s: Stmt) -> nat
    decreases s,
{
    match s {
        Stmt::ConstDecl(_, e) => 1 + sz_expr(e),
        Stmt::Expr(e) => 1 + sz_expr(e),
        Stmt::Ret(e) => match e {
            Some(e) => 1 + sz_expr(e),
            None => 1,
        },
        Stmt::FnDecl(_, _, body) => 1 + sz_stmts(body@),
    }
}

pub open spec fn sz_stmts(s: Seq<Stmt>) -> nat
    decreases s,
{
    if s.len() == 0 {
        0
    } else {
        sz_stmts(s.drop_last()) + sz_stmt(s.last())
    }
}

pub open spec fn sz_arg(a: Arg) -> nat
    decreases a,
{
    1 + sz_expr(a.expr)
}

pub open spec fn sz_args(s: Seq<Arg>) -> nat
    decreases s,
{
    if s.len() == 0 {
        0
    } else {
        sz_args(s.drop_last()) + sz_arg(s.last())
    }
}

pub open spec fn sz_propkey(k: PropKey) -> nat
    decreases k,
{
    match k {
        PropKey::Computed(e) => 1 + sz_expr(e),
        _ => 1,
    }
}

pub open spec fn sz_prop(p: Prop) -> nat
    decreases p,
{
    match p {
        Prop::KV(k, v) => 1 + sz_propkey(k) + sz_expr(v),
        Prop::Spread(e) => 1 + sz_expr(e),
        Prop::Other => 1,
    }
}

pub open spec fn sz_props(s: Seq<Prop>) -> nat
    decreases s,
{
    if s.len() == 0 {
        0
    } else {
        sz_props(s.drop_last()) + sz_prop(s.last())
    }
}

pub open spec fn sz_attrval(v: JsxAttrValue) -> nat
    decreases v,
{
    match v {
        JsxAttrValue::Lit(_) => 1,
        JsxAttrValue::Container(e) => match e {
            Some(e) => 1 + sz_expr(e),
            None => 1,
        },
        JsxAttrValue::Other => 1,
    }
}

pub open spec fn sz_attr(a: JsxAttrOrSpread) -> nat
    decreases a,
{
    match a {
        JsxAttrOrSpread::Attr(at) => match at.value {
            Some(v) => 1 + sz_attrval(v),
            None => 1,
        },
        JsxAttrOrSpread::Spread(e) => 1 + sz_expr(e),
    }
}

pub open spec fn sz_attrs(s: Seq<JsxAttrOrSpread>) -> nat
    decreases s,
{
    if s.len() == 0 {
        0
    } else {
        sz_attrs(s.drop_last()) + sz_attr(s.last())
    }
}

pub open spec fn sz_child(c: JsxChild) -> nat
    decreases c,
{
    match c {
        JsxChild::Element(el) => 1 + sz_elem(el),
        JsxChild::Fragment(cs) => 1 + sz_childs(cs@),
        JsxChild::Text(_) => 1,
        JsxChild::Container(e) => match e {
            Some(e) => 1 + sz_expr(e),
            None => 1,
        },
    }
}

pub open spec fn sz_childs(s: Seq<JsxChild>) -> nat
    decreases s,
{
    if s.len() == 0 {
        0
    } else {
        sz_childs(s.drop_last()) + sz_child(s.last())
    }
}

pub open spec fn sz_elem(el: JsxElement) -> nat
    decreases el,
{
    1 + sz_attrs(el.attrs@) + sz_childs(el.children@)
}

// ---------------------------------------------------------------------
// Sequence lemmas: length, indexing, element bounds, and push, for each
// of the sequence view and size functions.
// ---------------------------------------------------------------------

pub proof fn lemma_stmtsv(s: Seq<Stmt>)
    ensures
        stmtsv(s).len() == s.len(),
        forall|i: int| 0 <= i < s.len() ==> stmtsv(s)[i] == stmtv(s[i]),
        forall|i: int| 0 <= i < s.len() ==> sz_stmt(s[i]) <= sz_stmts(s),
    decreases s.len(),
{
    if s.len() > 0 {
        lemma_stmtsv(s.drop_last());
        assert forall|i: int| 0 <= i < s.len() implies stmtsv(s)[i] == stmtv(s[i]) by {
            if i < s.len() - 1 {
                assert(s.drop_last()[i] == s[i]);
            }
        }
        assert forall|i: int| 0 <= i < s.len() implies sz_stmt(s[i]) <= sz_stmts(s) by {
            if i < s.len() - 1 {
                assert(s.drop_last()[i] == s[i]);
            }
        }
    }
}

pub proof fn lemma_patsv(s: Seq<Pat>)
    ensures
        patsv(s).len() == s.len(),
        forall|i: int| 0 <= i < s.len() ==> patsv(s)[i] == patv(s[i]),
    decreases s.len(),
{
    if s.len() > 0 {
        lemma_patsv(s.drop_last());
        assert forall|i: int| 0 <= i < s.len() implies patsv(s)[i] == patv(s[i]) by {
            if i < s.len() - 1 {
                assert(s.drop_last()[i] == s[i]);
            }
        }
    }
}

pub proof fn lemma_argsv(s: Seq<Arg>)
    ensures
        argsv(s).len() == s.len(),
        forall|i: int| 0 <= i < s.len() ==> argsv(s)[i] == argv(s[i]),
        forall|i: int| 0 <= i < s.len() ==> sz_arg(s[i]) <= sz_args(s),
    decreases s.len(),
{
    if s.len() > 0 {
        lemma_argsv(s.drop_last());
        assert forall|i: int| 0 <= i < s.len() implies argsv(s)[i] == argv(s[i]) by {
            if i < s.len() - 1 {
                assert(s.drop_last()[i] == s[i]);
            }
        }
        assert forall|i: int| 0 <= i < s.len() implies sz_arg(s[i]) <= sz_args(s) by {
            if i < s.len() - 1 {
                assert(s.drop_last()[i] == s[i]);
            }
        }
    }
}

pub proof fn lemma_propsv(s: Seq<Prop>)
    ensures
        propsv(s).len() == s.len(),
        forall|i: int| 0 <= i < s.len() ==> propsv(s)[i] == propv(s[i]),
        forall|i: int| 0 <= i < s.len() ==> sz_prop(s[i]) <= sz_props(s),
    decreases s.len(),
{
    if s.len() > 0 {
        lemma_propsv(s.drop_last());
        assert forall|i: int| 0 <= i < s.len() implies propsv(s)[i] == propv(s[i]) by {
            if i < s.len() - 1 {
                assert(s.drop_last()[i] == s[i]);
            }
        }
        assert forall|i: int| 0 <= i < s.len() implies sz_prop(s[i]) <= sz_props(s) by {
            if i < s.len() - 1 {
                assert(s.drop_last()[i] == s[i]);
            }
        }
    }
}

pub proof fn lemma_attrsv(s: Seq<JsxAttrOrSpread>)
    ensures
        attrsv(s).len() == s.len(),
        forall|i: int| 0 <= i < s.len() ==> attrsv(s)[i] == attrv(s[i]),
        forall|i: int| 0 <= i < s.len() ==> sz_attr(s[i]) <= sz_attrs(s),
    decreases s.len(),
{
    if s.len() > 0 {
        lemma_attrsv(s.drop_last());
        assert forall|i: int| 0 <= i < s.len() implies attrsv(s)[i] == attrv(s[i]) by {
            if i < s.len() - 1 {
                assert(s.drop_last()[i] == s[i]);
            }
        }
        assert forall|i: int| 0 <= i < s.len() implies sz_attr(s[i]) <= sz_attrs(s) by {
            if i < s.len() - 1 {
                assert(s.drop_last()[i] == s[i]);
            }
        }
    }
}

pub proof fn lemma_childsv(s: Seq<JsxChild>)
    ensures
        childsv(s).len() == s.len(),
        forall|i: int| 0 <= i < s.len() ==> childsv(s)[i] == childv(s[i]),
        forall|i: int| 0 <= i < s.len() ==> sz_child(s[i]) <= sz_childs(s),
    decreases s.len(),
{
    if s.len() > 0 {
        lemma_childsv(s.drop_last());
        assert forall|i: int| 0 <= i < s.len() implies childsv(s)[i] == childv(s[i]) by {
            if i < s.len() - 1 {
                assert(s.drop_last()[i] == s[i]);
            }
        }
        assert forall|i: int| 0 <= i < s.len() implies sz_child(s[i]) <= sz_childs(s) by {
            if i < s.len() - 1 {
                assert(s.drop_last()[i] == s[i]);
            }
        }
    }
}

// ---------------------------------------------------------------------
// Duplication: deep copies, pinned to preserve the view.
// ---------------------------------------------------------------------

pub fn dup_lit(l: &Lit) -> (r: Lit)
    ensures
        litv(r) == litv(*l),
{
    match l {
        Lit::Str(s) => Lit::Str(crate::sym::sym_dup(s)),
        Lit::Num(s) => Lit::Num(crate::sym::sym_dup(s)),
        Lit::Bool(b) => Lit::Bool(*b),
        Lit::Null => Lit::Null,
        Lit::BigInt(s) => Lit::BigInt(crate::sym::sym_dup(s)),
        Lit::JsxText(s) => Lit::JsxText(crate::sym::sym_dup(s)),
    }
}

pub fn dup_pat(p: &Pat) -> (r: Pat)
    ensures
        patv(r) == patv(*p),
{
    match p {
        Pat::Id(s) => Pat::Id(crate::sym::sym_dup(s)),
        Pat::Other => Pat::Other,
    }
}

#[verifier::loop_isolation(false)]
pub fn dup_pats(s: &Vec<Pat>) -> (r: Vec<Pat>)
    ensures
        patsv(r@) == patsv(s@),
        r@.len() == s@.len(),
{
    let mut out: Vec<Pat> = Vec::new();
    let mut i: usize = 0;
    while i < s.len()
        invariant
            0 <= i <= s.len(),
            out@.len() == i,
            forall|j: int| 0 <= j < i ==> patv(out@[j]) == patv(s@[j]),
        decreases s.len() - i,
    {
        out.push(dup_pat(&s[i]));
        i += 1;
    }
    proof {
        lemma_patsv(out@);
        lemma_patsv(s@);
        assert(patsv(out@) =~= patsv(s@));
    }
    out
}

#[verifier::loop_isolation(false)]
pub fn dup_expr(e: &Expr) -> (r: Expr)
    ensures
        ev(r) == ev(*e),
    decreases sz_expr(*e), 0int,
{
    match e {
        Expr::This => Expr::This,
        Expr::Ident(s) => Expr::Ident(crate::sym::sym_dup(s)),
        Expr::Lit(l) => Expr::Lit(dup_lit(l)),
        Expr::Member(obj, prop) => {
            proof {
                assert((*e)->Member_0 == *obj);
                assert((*e)->Member_1 == *prop);
            }
            Expr::Member(Box::new(dup_expr(&**obj)), dup_mprop(prop))
        }
        Expr::OptChain(b) => {
            proof {
                assert((*e)->OptChain_0 == *b);
            }
            Expr::OptChain(Box::new(dup_expr(&**b)))
        }
        Expr::Unary(op, b) => {
            proof {
                assert((*e)->Unary_1 == *b);
            }
            Expr::Unary(*op, Box::new(dup_expr(&**b)))
        }
        Expr::Bin(op, l, r2) => {
            proof {
                assert((*e)->Bin_1 == *l);
                assert((*e)->Bin_2 == *r2);
            }
            Expr::Bin(crate::sym::sym_dup(op), Box::new(dup_expr(&**l)), Box::new(dup_expr(&**r2)))
        }
        Expr::Cond(t, c, a) => {
            proof {
                assert((*e)->Cond_0 == *t);
                assert((*e)->Cond_1 == *c);
                assert((*e)->Cond_2 == *a);
            }
            Expr::Cond(
                Box::new(dup_expr(&**t)),
                Box::new(dup_expr(&**c)),
                Box::new(dup_expr(&**a)),
            )
        }
        Expr::Call(callee, args) => {
            proof {
                assert((*e)->Call_0 == *callee);
                assert((*e)->Call_1 == *args);
            }
            Expr::Call(Box::new(dup_expr(&**callee)), dup_args(args))
        }
        Expr::Arrow(params, body) => {
            proof {
                assert((*e)->Arrow_1 == *body);
            }
            Expr::Arrow(dup_pats(params), Box::new(dup_body(&**body)))
        }
        Expr::Fn(name, params, body) => {
            proof {
                assert((*e)->Fn_2 == *body);
            }
            let n = match name {
                Some(n) => Some(crate::sym::sym_dup(n)),
                None => None,
            };
            Expr::Fn(n, dup_pats(params), dup_stmts(body))
        }
        Expr::Object(props) => {
            proof {
                assert((*e)->Object_0 == *props);
            }
            Expr::Object(dup_props(props))
        }
        Expr::Array(elems) => {
            proof {
                assert((*e)->Array_0 == *elems);
            }
            Expr::Array(dup_args(elems))
        }
        Expr::Paren(b) => {
            proof {
                assert((*e)->Paren_0 == *b);
            }
            Expr::Paren(Box::new(dup_expr(&**b)))
        }
        Expr::Assign(t, v) => {
            proof {
                assert((*e)->Assign_0 == *t);
                assert((*e)->Assign_1 == *v);
            }
            Expr::Assign(Box::new(dup_expr(&**t)), Box::new(dup_expr(&**v)))
        }
        Expr::Jsx(el) => {
            proof {
                assert((*e)->Jsx_0 == *el);
            }
            Expr::Jsx(Box::new(dup_elem(&**el)))
        }
        Expr::JsxFragment(cs) => {
            proof {
                assert((*e)->JsxFragment_0 == *cs);
            }
            Expr::JsxFragment(dup_childs(cs))
        }
        Expr::JsxEmpty => Expr::JsxEmpty,
        Expr::JsxOther => Expr::JsxOther,
        Expr::Other => Expr::Other,
    }
}

pub fn dup_mprop(p: &MemberProp) -> (r: MemberProp)
    ensures
        mpropv(r) == mpropv(*p),
    decreases sz_mprop(*p), 0int,
{
    match p {
        MemberProp::Ident(s) => MemberProp::Ident(crate::sym::sym_dup(s)),
        MemberProp::Private(s) => MemberProp::Private(crate::sym::sym_dup(s)),
        MemberProp::Computed(b) => {
            proof {
                assert((*p)->Computed_0 == *b);
            }
            MemberProp::Computed(Box::new(dup_expr(&**b)))
        }
    }
}

pub fn dup_body(b: &ArrowBody) -> (r: ArrowBody)
    ensures
        bodyv(r) == bodyv(*b),
    decreases sz_body(*b), 0int,
{
    match b {
        ArrowBody::Expr(e) => {
            proof {
                assert((*b)->Expr_0 == *e);
            }
            ArrowBody::Expr(Box::new(dup_expr(&**e)))
        }
        ArrowBody::Block(ss) => {
            proof {
                assert((*b)->Block_0 == *ss);
            }
            ArrowBody::Block(dup_stmts(ss))
        }
    }
}

pub fn dup_stmt(s: &Stmt) -> (r: Stmt)
    ensures
        stmtv(r) == stmtv(*s),
    decreases sz_stmt(*s), 0int,
{
    match s {
        Stmt::ConstDecl(n, e) => {
            proof {
                assert((*s)->ConstDecl_1 == *e);
            }
            Stmt::ConstDecl(crate::sym::sym_dup(n), dup_expr(e))
        }
        Stmt::Expr(e) => {
            proof {
                assert((*s)->Expr_0 == *e);
            }
            Stmt::Expr(dup_expr(e))
        }
        Stmt::Ret(e) => {
            match e {
                Some(e) => {
                    proof {
                        assert((*s)->Ret_0 == Some(*e));
                    }
                    Stmt::Ret(Some(dup_expr(e)))
                }
                None => Stmt::Ret(None),
            }
        }
        Stmt::FnDecl(n, ps, body) => {
            proof {
                assert((*s)->FnDecl_2 == *body);
            }
            Stmt::FnDecl(crate::sym::sym_dup(n), dup_pats(ps), dup_stmts(body))
        }
    }
}

#[verifier::loop_isolation(false)]
pub fn dup_stmts(s: &Vec<Stmt>) -> (r: Vec<Stmt>)
    ensures
        stmtsv(r@) == stmtsv(s@),
        r@.len() == s@.len(),
    decreases sz_stmts(s@), 1int,
{
    let mut out: Vec<Stmt> = Vec::new();
    let mut i: usize = 0;
    while i < s.len()
        invariant
            0 <= i <= s.len(),
            out@.len() == i,
            forall|j: int| 0 <= j < i ==> stmtv(out@[j]) == stmtv(s@[j]),
        decreases s.len() - i,
    {
        proof {
            lemma_stmtsv(s@);
        }
        out.push(dup_stmt(&s[i]));
        i += 1;
    }
    proof {
        lemma_stmtsv(out@);
        lemma_stmtsv(s@);
        assert(stmtsv(out@) =~= stmtsv(s@));
    }
    out
}

pub fn dup_arg(a: &Arg) -> (r: Arg)
    ensures
        argv(r) == argv(*a),
    decreases sz_arg(*a), 0int,
{
    proof {
        assert(a.expr == (*a).expr);
    }
    Arg { spread: a.spread, expr: dup_expr(&a.expr) }
}

#[verifier::loop_isolation(false)]
pub fn dup_args(s: &Vec<Arg>) -> (r: Vec<Arg>)
    ensures
        argsv(r@) == argsv(s@),
        r@.len() == s@.len(),
    decreases sz_args(s@), 1int,
{
    let mut out: Vec<Arg> = Vec::new();
    let mut i: usize = 0;
    while i < s.len()
        invariant
            0 <= i <= s.len(),
            out@.len() == i,
            forall|j: int| 0 <= j < i ==> argv(out@[j]) == argv(s@[j]),
        decreases s.len() - i,
    {
        proof {
            lemma_argsv(s@);
        }
        out.push(dup_arg(&s[i]));
        i += 1;
    }
    proof {
        lemma_argsv(out@);
        lemma_argsv(s@);
        assert(argsv(out@) =~= argsv(s@));
    }
    out
}

pub fn dup_propkey(k: &PropKey) -> (r: PropKey)
    ensures
        propkeyv(r) == propkeyv(*k),
    decreases sz_propkey(*k), 0int,
{
    match k {
        PropKey::Ident(s) => PropKey::Ident(crate::sym::sym_dup(s)),
        PropKey::Str(s) => PropKey::Str(crate::sym::sym_dup(s)),
        PropKey::Num(s) => PropKey::Num(crate::sym::sym_dup(s)),
        PropKey::BigInt(s) => PropKey::BigInt(crate::sym::sym_dup(s)),
        PropKey::Computed(e) => {
            proof {
                assert((*k)->Computed_0 == *e);
            }
            PropKey::Computed(dup_expr(e))
        }
    }
}

pub fn dup_prop(p: &Prop) -> (r: Prop)
    ensures
        propv(r) == propv(*p),
    decreases sz_prop(*p), 0int,
{
    match p {
        Prop::KV(k, v) => {
            proof {
                assert((*p)->KV_0 == *k);
                assert((*p)->KV_1 == *v);
            }
            Prop::KV(dup_propkey(k), dup_expr(v))
        }
        Prop::Spread(e) => {
            proof {
                assert((*p)->Spread_0 == *e);
            }
            Prop::Spread(dup_expr(e))
        }
        Prop::Other => Prop::Other,
    }
}

#[verifier::loop_isolation(false)]
pub fn dup_props(s: &Vec<Prop>) -> (r: Vec<Prop>)
    ensures
        propsv(r@) == propsv(s@),
        r@.len() == s@.len(),
    decreases sz_props(s@), 1int,
{
    let mut out: Vec<Prop> = Vec::new();
    let mut i: usize = 0;
    while i < s.len()
        invariant
            0 <= i <= s.len(),
            out@.len() == i,
            forall|j: int| 0 <= j < i ==> propv(out@[j]) == propv(s@[j]),
        decreases s.len() - i,
    {
        proof {
            lemma_propsv(s@);
        }
        out.push(dup_prop(&s[i]));
        i += 1;
    }
    proof {
        lemma_propsv(out@);
        lemma_propsv(s@);
        assert(propsv(out@) =~= propsv(s@));
    }
    out
}

pub fn dup_attrval(v: &JsxAttrValue) -> (r: JsxAttrValue)
    ensures
        attrvalv(r) == attrvalv(*v),
    decreases sz_attrval(*v), 0int,
{
    match v {
        JsxAttrValue::Lit(l) => JsxAttrValue::Lit(dup_lit(l)),
        JsxAttrValue::Container(e) => {
            match e {
                Some(e) => {
                    proof {
                        assert((*v)->Container_0 == Some(*e));
                    }
                    JsxAttrValue::Container(Some(dup_expr(e)))
                }
                None => JsxAttrValue::Container(None),
            }
        }
        JsxAttrValue::Other => JsxAttrValue::Other,
    }
}

pub fn dup_attr(a: &JsxAttrOrSpread) -> (r: JsxAttrOrSpread)
    ensures
        attrv(r) == attrv(*a),
    decreases sz_attr(*a), 0int,
{
    match a {
        JsxAttrOrSpread::Attr(at) => {
            proof {
                assert((*a)->Attr_0 == *at);
            }
            let name = match &at.name {
                Some(n) => Some(crate::sym::sym_dup(n)),
                None => None,
            };
            let value = match &at.value {
                Some(v) => {
                    proof {
                        assert(at.value == Some(*v));
                    }
                    Some(dup_attrval(v))
                }
                None => None,
            };
            JsxAttrOrSpread::Attr(JsxAttr { name, value })
        }
        JsxAttrOrSpread::Spread(e) => {
            proof {
                assert((*a)->Spread_0 == *e);
            }
            JsxAttrOrSpread::Spread(dup_expr(e))
        }
    }
}

#[verifier::loop_isolation(false)]
pub fn dup_attrs(s: &Vec<JsxAttrOrSpread>) -> (r: Vec<JsxAttrOrSpread>)
    ensures
        attrsv(r@) == attrsv(s@),
        r@.len() == s@.len(),
    decreases sz_attrs(s@), 1int,
{
    let mut out: Vec<JsxAttrOrSpread> = Vec::new();
    let mut i: usize = 0;
    while i < s.len()
        invariant
            0 <= i <= s.len(),
            out@.len() == i,
            forall|j: int| 0 <= j < i ==> attrv(out@[j]) == attrv(s@[j]),
        decreases s.len() - i,
    {
        proof {
            lemma_attrsv(s@);
        }
        out.push(dup_attr(&s[i]));
        i += 1;
    }
    proof {
        lemma_attrsv(out@);
        lemma_attrsv(s@);
        assert(attrsv(out@) =~= attrsv(s@));
    }
    out
}

pub fn dup_child(c: &JsxChild) -> (r: JsxChild)
    ensures
        childv(r) == childv(*c),
    decreases sz_child(*c), 0int,
{
    match c {
        JsxChild::Element(el) => {
            proof {
                assert((*c)->Element_0 == *el);
            }
            JsxChild::Element(dup_elem(el))
        }
        JsxChild::Fragment(cs) => {
            proof {
                assert((*c)->Fragment_0 == *cs);
            }
            JsxChild::Fragment(dup_childs(cs))
        }
        JsxChild::Text(s) => JsxChild::Text(crate::sym::sym_dup(s)),
        JsxChild::Container(e) => {
            match e {
                Some(e) => {
                    proof {
                        assert((*c)->Container_0 == Some(*e));
                    }
                    JsxChild::Container(Some(dup_expr(e)))
                }
                None => JsxChild::Container(None),
            }
        }
    }
}

#[verifier::loop_isolation(false)]
pub fn dup_childs(s: &Vec<JsxChild>) -> (r: Vec<JsxChild>)
    ensures
        childsv(r@) == childsv(s@),
        r@.len() == s@.len(),
    decreases sz_childs(s@), 1int,
{
    let mut out: Vec<JsxChild> = Vec::new();
    let mut i: usize = 0;
    while i < s.len()
        invariant
            0 <= i <= s.len(),
            out@.len() == i,
            forall|j: int| 0 <= j < i ==> childv(out@[j]) == childv(s@[j]),
        decreases s.len() - i,
    {
        proof {
            lemma_childsv(s@);
        }
        out.push(dup_child(&s[i]));
        i += 1;
    }
    proof {
        lemma_childsv(out@);
        lemma_childsv(s@);
        assert(childsv(out@) =~= childsv(s@));
    }
    out
}

pub fn dup_elem(el: &JsxElement) -> (r: JsxElement)
    ensures
        elemv(r) == elemv(*el),
    decreases sz_elem(*el), 0int,
{
    let name = match &el.name {
        Some(n) => Some(crate::sym::sym_dup(n)),
        None => None,
    };
    proof {
        assert(el.attrs == (*el).attrs);
        assert(el.children == (*el).children);
    }
    let attrs = dup_attrs(&el.attrs);
    let children = dup_childs(&el.children);
    JsxElement { name, attrs, children }
}

// ---------------------------------------------------------------------
// Node builders: the factory layer under the emitters.  Each pins its
// result exactly.
// ---------------------------------------------------------------------

/// The expression generated code uses to address the enclosing container:
/// `this` at the root of the component, the threaded host parameter below.
pub fn ast_create_id_of_container(is_root_container: bool) -> (r: Expr)
    ensures
        ev(r) == if is_root_container {
            GExpr::This
        } else {
            GExpr::Ident(crate::names::n_host())
        },
{
    if is_root_container {
        ast_create_expr_this()
    } else {
        ast_create_expr_ident(crate::names::s_host())
    }
}

pub fn ast_create_stmt_decl_const(ident: Vec<char>, init: Expr) -> (r: Stmt)
    ensures
        stmtv(r) == GStmt::ConstDecl(ident@, ev(init)),
{
    Stmt::ConstDecl(ident, init)
}

pub fn ast_create_arg_expr(e: Expr) -> (r: Arg)
    ensures
        argv(r) == (GArg { spread: false, expr: ev(e) }),
{
    Arg { spread: false, expr: e }
}

pub fn ast_create_arg_spread(e: Expr) -> (r: Arg)
    ensures
        argv(r) == (GArg { spread: true, expr: ev(e) }),
{
    Arg { spread: true, expr: e }
}

pub fn ast_create_expr_this() -> (r: Expr)
    ensures
        ev(r) == GExpr::This,
{
    Expr::This
}

pub fn ast_create_expr_ident(id: Vec<char>) -> (r: Expr)
    ensures
        ev(r) == GExpr::Ident(id@),
{
    Expr::Ident(id)
}

pub fn ast_create_expr_member(obj: Expr, prop: MemberProp) -> (r: Expr)
    ensures
        ev(r) == GExpr::Member(Box::new(ev(obj)), mpropv(prop)),
{
    Expr::Member(Box::new(obj), prop)
}

pub fn ast_create_expr_lit_str(v: Vec<char>) -> (r: Expr)
    ensures
        ev(r) == GExpr::Lit(GLit::Str(v@)),
{
    Expr::Lit(Lit::Str(v))
}

pub fn ast_create_expr_lit_bool(v: bool) -> (r: Expr)
    ensures
        ev(r) == GExpr::Lit(GLit::Bool(v)),
{
    Expr::Lit(Lit::Bool(v))
}

pub fn ast_create_expr_lit_num(v: Vec<char>) -> (r: Expr)
    ensures
        ev(r) == GExpr::Lit(GLit::Num(v@)),
{
    Expr::Lit(Lit::Num(v))
}

pub fn ast_create_expr_call(callee: Expr, args: Vec<Arg>) -> (r: Expr)
    ensures
        ev(r) == GExpr::Call(Box::new(ev(callee)), argsv(args@)),
{
    Expr::Call(Box::new(callee), args)
}

pub fn ast_create_expr_arrow_fn(params: Vec<Pat>, body: ArrowBody) -> (r: Expr)
    ensures
        ev(r) == GExpr::Arrow(patsv(params@), Box::new(bodyv(body))),
{
    Expr::Arrow(params, Box::new(body))
}

/// `obj.prop = value`, the re-assignment form used by attribute watchers.
pub fn ast_create_expr_assign_mem(obj: Expr, prop: Vec<char>, value: Expr) -> (r: Expr)
    ensures
        ev(r) == GExpr::Assign(
            Box::new(GExpr::Member(Box::new(ev(obj)), GMemberProp::Ident(prop@))),
            Box::new(ev(value)),
        ),
{
    let target = Expr::Member(Box::new(obj), MemberProp::Ident(prop));
    let r = Expr::Assign(Box::new(target), Box::new(value));
    proof {
        assert(mpropv(MemberProp::Ident(prop)) == GMemberProp::Ident(prop@));
        assert(ev(target) == GExpr::Member(Box::new(ev(obj)), GMemberProp::Ident(prop@)));
        assert(ev(r) == GExpr::Assign(Box::new(ev(target)), Box::new(ev(value))));
    }
    r
}

pub open spec fn exprsv(s: Seq<Expr>) -> Seq<GExpr>
    decreases s,
{
    if s.len() == 0 {
        Seq::empty()
    } else {
        exprsv(s.drop_last()).push(ev(s.last()))
    }
}

pub proof fn lemma_exprsv(s: Seq<Expr>)
    ensures
        exprsv(s).len() == s.len(),
        forall|i: int| 0 <= i < s.len() ==> exprsv(s)[i] == ev(s[i]),
    decreases s.len(),
{
    if s.len() > 0 {
        lemma_exprsv(s.drop_last());
        assert forall|i: int| 0 <= i < s.len() implies exprsv(s)[i] == ev(s[i]) by {
            if i < s.len() - 1 {
                assert(s.drop_last()[i] == s[i]);
            }
        }
    }
}

// Reference-taking forms of the view functions, for contracts of
// functions that also carry mutable parameters.
pub open spec fn evr(e: &Expr) -> GExpr {
    ev(*e)
}

pub open spec fn mpropvr(p: &MemberProp) -> GMemberProp {
    mpropv(*p)
}

pub open spec fn bodyvr(b: &ArrowBody) -> GArrowBody {
    bodyv(*b)
}

pub open spec fn stmtvr(s: &Stmt) -> GStmt {
    stmtv(*s)
}

pub open spec fn propvr(p: &Prop) -> GProp {
    propv(*p)
}

pub open spec fn attrvr(a: &JsxAttrOrSpread) -> GJsxAttrOrSpread {
    attrv(*a)
}

pub open spec fn childvr(c: &JsxChild) -> GJsxChild {
    childv(*c)
}

pub open spec fn elemvr(el: &JsxElement) -> GJsxElement {
    elemv(*el)
}

/// The view preserves the variant: an expression maps to a member
/// access exactly when it is one.
pub proof fn lemma_ev_is_member(e: Expr)
    ensures
        (ev(e) is Member) <==> (e is Member),
{
    match e {
        Expr::This => {}
        Expr::Ident(_) => {}
        Expr::Lit(_) => {}
        Expr::Member(_, _) => {}
        Expr::OptChain(_) => {}
        Expr::Unary(_, _) => {}
        Expr::Bin(_, _, _) => {}
        Expr::Cond(_, _, _) => {}
        Expr::Call(_, _) => {}
        Expr::Arrow(_, _) => {}
        Expr::Fn(_, _, _) => {}
        Expr::Object(_) => {}
        Expr::Array(_) => {}
        Expr::Paren(_) => {}
        Expr::Assign(_, _) => {}
        Expr::Jsx(_) => {}
        Expr::JsxFragment(_) => {}
        Expr::JsxEmpty => {}
        Expr::JsxOther => {}
        Expr::Other => {}
    }
}

/// The view preserves the variant: an expression maps to an identifier
/// exactly when it is one.
pub proof fn lemma_ev_is_ident(e: Expr)
    ensures
        (ev(e) is Ident) <==> (e is Ident),
{
    match e {
        Expr::This => {}
        Expr::Ident(_) => {}
        Expr::Lit(_) => {}
        Expr::Member(_, _) => {}
        Expr::OptChain(_) => {}
        Expr::Unary(_, _) => {}
        Expr::Bin(_, _, _) => {}
        Expr::Cond(_, _, _) => {}
        Expr::Call(_, _) => {}
        Expr::Arrow(_, _) => {}
        Expr::Fn(_, _, _) => {}
        Expr::Object(_) => {}
        Expr::Array(_) => {}
        Expr::Paren(_) => {}
        Expr::Assign(_, _) => {}
        Expr::Jsx(_) => {}
        Expr::JsxFragment(_) => {}
        Expr::JsxEmpty => {}
        Expr::JsxOther => {}
        Expr::Other => {}
    }
}

/// Size of an optional attribute value.
pub open spec fn sz_attrval_opt(v: Option<JsxAttrValue>) -> nat {
    match v {
        Some(v) => sz_attrval(v),
        None => 0,
    }
}

/// View of an optional attribute value.
pub open spec fn attrvalv_opt(v: Option<JsxAttrValue>) -> Option<GJsxAttrValue> {
    match v {
        Some(v) => Some(attrvalv(v)),
        None => None,
    }
}

pub proof fn lemma_sz_attrval_opt(at: JsxAttr)
    ensures
        sz_attrval_opt(at.value) <= sz_attr(JsxAttrOrSpread::Attr(at)),
{
}

/// The view preserves the shape: an expression maps to a string
/// literal exactly when it is one.
pub proof fn lemma_ev_is_lit_str(e: Expr)
    ensures
        (ev(e) matches GExpr::Lit(GLit::Str(_))) <==> (e matches Expr::Lit(Lit::Str(_))),
{
    match e {
        Expr::This => {}
        Expr::Ident(_) => {}
        Expr::Lit(l) => {
            match l {
                Lit::Str(_) => {}
                Lit::Num(_) => {}
                Lit::Bool(_) => {}
                Lit::Null => {}
                Lit::BigInt(_) => {}
                Lit::JsxText(_) => {}
            }
        }
        Expr::Member(_, _) => {}
        Expr::OptChain(_) => {}
        Expr::Unary(_, _) => {}
        Expr::Bin(_, _, _) => {}
        Expr::Cond(_, _, _) => {}
        Expr::Call(_, _) => {}
        Expr::Arrow(_, _) => {}
        Expr::Fn(_, _, _) => {}
        Expr::Object(_) => {}
        Expr::Array(_) => {}
        Expr::Paren(_) => {}
        Expr::Assign(_, _) => {}
        Expr::Jsx(_) => {}
        Expr::JsxFragment(_) => {}
        Expr::JsxEmpty => {}
        Expr::JsxOther => {}
        Expr::Other => {}
    }
}

/// The view preserves the variant: an expression maps to an object
/// literal exactly when it is one.
pub proof fn lemma_ev_is_object(e: Expr)
    ensures
        (ev(e) is Object) <==> (e is Object),
{
    match e {
        Expr::This => {}
        Expr::Ident(_) => {}
        Expr::Lit(_) => {}
        Expr::Member(_, _) => {}
        Expr::OptChain(_) => {}
        Expr::Unary(_, _) => {}
        Expr::Bin(_, _, _) => {}
        Expr::Cond(_, _, _) => {}
        Expr::Call(_, _) => {}
        Expr::Arrow(_, _) => {}
        Expr::Fn(_, _, _) => {}
        Expr::Object(_) => {}
        Expr::Array(_) => {}
        Expr::Paren(_) => {}
        Expr::Assign(_, _) => {}
        Expr::Jsx(_) => {}
        Expr::JsxFragment(_) => {}
        Expr::JsxEmpty => {}
        Expr::JsxOther => {}
        Expr::Other => {}
    }
}

/// The view preserves the variant: an expression maps to an arrow
/// function exactly when it is one.
pub proof fn lemma_ev_is_arrow(e: Expr)
    ensures
        (ev(e) is Arrow) <==> (e is Arrow),
{
    match e {
        Expr::This => {}
        Expr::Ident(_) => {}
        Expr::Lit(_) => {}
        Expr::Member(_, _) => {}
        Expr::OptChain(_) => {}
        Expr::Unary(_, _) => {}
        Expr::Bin(_, _, _) => {}
        Expr::Cond(_, _, _) => {}
        Expr::Call(_, _) => {}
        Expr::Arrow(_, _) => {}
        Expr::Fn(_, _, _) => {}
        Expr::Object(_) => {}
        Expr::Array(_) => {}
        Expr::Paren(_) => {}
        Expr::Assign(_, _) => {}
        Expr::Jsx(_) => {}
        Expr::JsxFragment(_) => {}
        Expr::JsxEmpty => {}
        Expr::JsxOther => {}
        Expr::Other => {}
    }
}

// ---------------------------------------------------------------------
// Template size: the termination measure of the template walker.  It
// counts only positions the walker can recurse into; member-access
// internals cost nothing, so the loop-parameter rewrite preserves it.
// ---------------------------------------------------------------------

pub open spec fn tsz_expr(e: Expr) -> nat
    decreases e,
{
    match e {
        Expr::Jsx(el) => 1 + tsz_elem(*el),
        Expr::JsxFragment(cs) => 1 + tsz_childs(cs@),
        Expr::Cond(_, c, a) => 1 + tsz_expr(*c) + tsz_expr(*a),
        Expr::Bin(_, _, r) => 1 + tsz_expr(*r),
        Expr::Paren(b) => 1 + tsz_expr(*b),
        Expr::Arrow(_, body) => 1 + tsz_body(*body),
        Expr::Call(_, args) => 1 + tsz_args(args@),
        Expr::OptChain(b) => 1 + tsz_expr(*b),
        Expr::Object(props) => 1 + tsz_props(props@),
        _ => 1,
    }
}

pub open spec fn tsz_body(b: ArrowBody) -> nat
    decreases b,
{
    match b {
        ArrowBody::Expr(e) => 1 + tsz_expr(*e),
        ArrowBody::Block(_) => 1,
    }
}

pub open spec fn tsz_args(s: Seq<Arg>) -> nat
    decreases s,
{
    if s.len() == 0 {
        0
    } else {
        tsz_args(s.drop_last()) + 1 + tsz_expr(s.last().expr)
    }
}

pub open spec fn tsz_props(s: Seq<Prop>) -> nat
    decreases s,
{
    if s.len() == 0 {
        0
    } else {
        tsz_props(s.drop_last()) + (match s.last() {
            Prop::KV(_, v) => 1 + tsz_expr(v),
            _ => 1,
        })
    }
}

pub open spec fn tsz_child(c: JsxChild) -> nat
    decreases c,
{
    match c {
        JsxChild::Element(el) => 1 + tsz_elem(el),
        JsxChild::Fragment(cs) => 1 + tsz_childs(cs@),
        JsxChild::Text(_) => 1,
        JsxChild::Container(e) => match e {
            Some(e) => 1 + tsz_expr(e),
            None => 1,
        },
    }
}

pub open spec fn tsz_childs(s: Seq<JsxChild>) -> nat
    decreases s,
{
    if s.len() == 0 {
        0
    } else {
        tsz_childs(s.drop_last()) + tsz_child(s.last())
    }
}

pub open spec fn tsz_elem(el: JsxElement) -> nat
    decreases el,
{
    1 + tsz_childs(el.children@)
}

pub proof fn lemma_tsz_childs_bound(s: Seq<JsxChild>, i: int)
    requires
        0 <= i < s.len(),
    ensures
        tsz_child(s[i]) <= tsz_childs(s),
    decreases s.len(),
{
    if i == s.len() - 1 {
    } else {
        lemma_tsz_childs_bound(s.drop_last(), i);
        assert(s.drop_last()[i] == s[i]);
    }
}

pub proof fn lemma_tsz_args_bound(s: Seq<Arg>, i: int)
    requires
        0 <= i < s.len(),
    ensures
        1 + tsz_expr(s[i].expr) <= tsz_args(s),
    decreases s.len(),
{
    if i == s.len() - 1 {
    } else {
        lemma_tsz_args_bound(s.drop_last(), i);
        assert(s.drop_last()[i] == s[i]);
    }
}

pub proof fn lemma_tsz_props_bound(s: Seq<Prop>, i: int)
    requires
        0 <= i < s.len(),
    ensures
        (match s[i] {
            Prop::KV(_, v) => 1 + tsz_expr(v),
            _ => 1nat,
        }) <= tsz_props(s),
    decreases s.len(),
{
    if i == s.len() - 1 {
    } else {
        lemma_tsz_props_bound(s.drop_last(), i);
        assert(s.drop_last()[i] == s[i]);
    }
}

pub proof fn lemma_argsv_concat(a: Seq<Arg>, b: Seq<Arg>)
    ensures
        argsv(a + b) == argsv(a) + argsv(b),
    decreases b.len(),
{
    if b.len() == 0 {
        assert(a + b =~= a);
        assert(argsv(a + b) =~= argsv(a) + argsv(b));
    } else {
        lemma_argsv_concat(a, b.drop_last());
        assert((a + b).drop_last() =~= a + b.drop_last());
        assert((a + b).last() == b.last());
        assert(argsv(a + b) =~= argsv(a) + argsv(b));
    }
}

pub proof fn lemma_stmtsv_concat(a: Seq<Stmt>, b: Seq<Stmt>)
    ensures
        stmtsv(a + b) == stmtsv(a) + stmtsv(b),
    decreases b.len(),
{
    if b.len() == 0 {
        assert(a + b =~= a);
        assert(stmtsv(a + b) =~= stmtsv(a) + stmtsv(b));
    } else {
        lemma_stmtsv_concat(a, b.drop_last());
        assert((a + b).drop_last() =~= a + b.drop_last());
        assert((a + b).last() == b.last());
        assert(stmtsv(a + b) =~= stmtsv(a) + stmtsv(b));
    }
}

} // verus!
