//! Diagnostics.  The pass never fails: every unsupported or misused
//! construct is reported through an append-only sink and traversal
//! continues with a conservative fallback.

use vstd::prelude::*;

verus! {

/// Everything the compiler can complain about.
#[derive(Clone, Copy, PartialEq, Eq, Structural, Debug)]
pub enum Diag {
    /// A JSX member or namespaced form where an element was expected.
    UnsupportedJsxForm,
    /// The tag is neither an upper-case component nor a lower-case element.
    InvalidTag,
    /// The opening tag name is not a plain identifier.
    TagNotIdent,
    /// A plain `function` expression in template position.
    FnInTemplate,
    /// A slot definition (arrow or object) outside a component body.
    SlotOutsideComponent,
    /// An arrow defining the default slot must have an expression body.
    SlotArrowBlockBody,
    /// A slot parameter uses a destructuring pattern.
    SlotParamDestructured,
    /// A slot name key is not an identifier or string literal.
    SlotKeyNotConst,
    /// A slot definition member is not `key: value`.
    SlotNotKeyValue,
    /// A spread member inside a slot definition object.
    SlotSpread,
    /// A bare array expression in template position.
    ArrayInTemplate,
    /// A spread attribute on an element.
    SpreadAttr,
    /// `children` or `slots` used as an attribute name.
    ReservedAttrName,
    /// More than one `ref` attribute on one element.
    DupRef,
    /// The `ref` attribute value is not an expression container.
    RefValueInvalid,
    /// An event attribute value is missing or not an arrow function.
    EventValueNotArrow,
    /// A JSX element used as an attribute value.
    JsxAsAttrValue,
    /// A function-valued attribute on an html element.
    FnAsHtmlAttr,
    /// An attribute value kind the compiler does not accept.
    UnsupportedAttrValue,
    /// Optional chaining inside a watch path.
    OptChainInWatchPath,
    /// A call expression as the object of a watched member chain.
    CallAsWatchRoot,
    /// An expression kind that cannot root a watched member chain.
    UnsupportedWatchObj,
    /// A literal kind that cannot serve as a computed property key.
    UnsupportedConstKey,
    /// A private (`#name`) property inside a watch path.
    PrivateNameProp,
    /// A computed key that is neither constant nor itself watchable.
    ComputedKeyNotWatchable,
    /// `.map()` called with something other than a single arrow function.
    MapFnNotArrow,
    /// A loop `key` attribute not rooted at the map parameters.
    BadLoopKey,
    /// A loop `key` attribute present though the map arrow has no parameters.
    MapKeyWithoutParams,
    /// A slot render call with more than one argument.
    SlotArgCount,
    /// A spread argument to a slot render call.
    SlotArgSpread,
    /// A bare identifier as the slot render argument.
    SlotArgBareIdent,
    /// A slot render argument that is not an object literal.
    SlotArgNotObject,
    /// A slot argument spread member that is not an identifier.
    SlotArgSpreadNotIdent,
    /// A second spread member, or a spread mixed with other members.
    SlotArgSpreadTwice,
    /// A slot argument member that is not `key: value`.
    SlotArgPropNotKV,
    /// The first argument of `t` is not a string literal.
    TFirstArgNotStr,
    /// A spread in the `t` options argument.
    TOptionsSpread,
    /// A spread in the `t` params argument.
    TParamsSpread,
    /// The `t` params argument is not an object literal.
    TParamsNotObject,
    /// A `t` params member that is not `key: value`.
    TParamsPropNotKV,
    /// Named slots were defined beside stray default-slot content.
    MixedSlotContent,
}

/// `new` extends `old`: everything previously reported is still there,
/// in place, and only appended entries follow.
pub open spec fn extends(new: Seq<Diag>, old: Seq<Diag>) -> bool {
    new.len() >= old.len() && new.take(old.len() as int) == old
}

pub proof fn lemma_extends_trans(a: Seq<Diag>, b: Seq<Diag>, c: Seq<Diag>)
    requires
        extends(b, a),
        extends(c, b),
    ensures
        extends(c, a),
{
    assert(c.take(a.len() as int) =~= b.take(a.len() as int));
}

pub proof fn lemma_extends_refl(a: Seq<Diag>)
    ensures
        extends(a, a),
{
    assert(a.take(a.len() as int) =~= a);
}

pub proof fn lemma_extends_push(a: Seq<Diag>, d: Diag)
    ensures
        extends(a.push(d), a),
{
    assert(a.push(d).take(a.len() as int) =~= a);
}

pub proof fn lemma_extends_append(a: Seq<Diag>, b: Seq<Diag>)
    ensures
        extends(a + b, a),
{
    assert((a + b).take(a.len() as int) =~= a);
}

/// Extending the list never loses a reported diagnostic.
pub proof fn lemma_extends_contains(a: Seq<Diag>, b: Seq<Diag>, d: Diag)
    requires
        extends(b, a),
        a.contains(d),
    ensures
        b.contains(d),
{
    let i = choose|i: int| 0 <= i < a.len() && a[i] == d;
    assert(b.take(a.len() as int)[i] == d);
    assert(b[i] == d);
}

} // verus!
