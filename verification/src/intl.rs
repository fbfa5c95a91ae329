//! Internationalization keys: a deterministic short key for a literal
//! default text, optionally salted by file name.  The key is the
//! SHA-512 digest of the UTF-8 bytes, Base64-encoded and truncated to
//! six characters.

use vstd::prelude::*;

use crate::diag::Diag;
use base64ct::Encoding;
use sha2::Digest;
use vstd::string::StrSliceExecFns;
use vstd::utf8::encode_utf8;

verus! {

/// The SHA-512 digest of a byte sequence.
pub uninterp spec fn sha512_of(b: Seq<u8>) -> Seq<u8>;

/// The padded Base64 encoding of a byte sequence.
pub uninterp spec fn base64_of(b: Seq<u8>) -> Seq<u8>;

/// Relies on `String::from_iter`: builds the string holding exactly the
/// given characters in order.
#[verifier::external_body]
fn chars_to_string(v: &Vec<char>) -> (r: String)
    ensures
        r@ == v@,
{
    v.iter().collect()
}

/// The UTF-8 bytes of a character sequence, against vstd's own
/// definition of the encoding.
fn chars_utf8(v: &Vec<char>) -> (r: Vec<u8>)
    ensures
        r@ == encode_utf8(v@),
{
    let s = chars_to_string(v);
    s.as_str().as_bytes_vec()
}

/// Relies on `sha2::Sha512::digest`: the SHA-512 digest, a pure
/// function of the input bytes, always 64 bytes long.
#[verifier::external_body]
fn sha512(b: &Vec<u8>) -> (r: Vec<u8>)
    ensures
        r@ == sha512_of(b@),
        r@.len() == 64,
{
    let h = sha2::Sha512::digest(b.as_slice());
    h.to_vec()
}

/// Relies on `base64ct::Base64::encode`: the padded Base64 encoding, a
/// pure function of the input, four ASCII characters per three input
/// bytes.
#[verifier::external_body]
fn base64(b: &Vec<u8>) -> (r: Vec<u8>)
    requires
        b@.len() <= 0xffff,
    ensures
        r@ == base64_of(b@),
        r@.len() == ((b@.len() + 2) / 3) * 4,
        forall|i: int| 0 <= i < r@.len() ==> r@[i] < 128,
{
    let mut buf = [0u8; 0x18000];
    let s = base64ct::Base64::encode(b.as_slice(), &mut buf).unwrap();
    s.as_bytes().to_vec()
}

/// What the computed key is: the first six characters of the Base64
/// form of the SHA-512 digest of the text (and file name, in isolated
/// mode), each an ASCII byte read as a character.
pub open spec fn intl_key_spec(message: Seq<char>, filename: Option<Seq<char>>) -> Seq<char> {
    let input = match filename {
        Some(f) => encode_utf8(message) + encode_utf8(f),
        None => encode_utf8(message),
    };
    base64_of(sha512_of(input)).take(6).map_values(|b: u8| b as char)
}

/// Compute the stable key for a default text: SHA-512, Base64, first
/// six characters.  A file name salts the digest in isolated mode.
#[verifier::loop_isolation(false)]
pub fn calc_intl_key(message: &Vec<char>, filename: Option<&Vec<char>>) -> (r: Vec<char>)
    ensures
        r@ == intl_key_spec(
            message@,
            match filename {
                Some(f) => Some(f@),
                None => None,
            },
        ),
        r@.len() == 6,
{
    let mut input = chars_utf8(message);
    match filename {
        Some(f) => {
            let mut fb = chars_utf8(f);
            input.append(&mut fb);
        }
        None => {}
    }
    let digest = sha512(&input);
    let enc = base64(&digest);
    let mut key: Vec<char> = Vec::new();
    let mut i: usize = 0;
    while i < 6
        invariant
            0 <= i <= 6,
            enc@.len() == 88,
            forall|j: int| 0 <= j < enc@.len() ==> enc@[j] < 128,
            key@.len() == i,
            forall|j: int| 0 <= j < i ==> key@[j] == (enc@[j] as char),
        decreases 6 - i,
    {
        let b = enc[i];
        key.push(b as char);
        i += 1;
    }
    proof {
        assert(key@ =~= intl_key_spec(
            message@,
            match filename {
                Some(f) => Some(f@),
                None => None,
            },
        ));
    }
    key
}

/// The parts of a recognised `t(...)` call: the key to emit, the
/// default text, and the params object literal if one was given.
pub struct TCall {
    pub key: Vec<char>,
    pub default_text: Vec<char>,
    pub params: Option<Vec<crate::ast::Prop>>,
}

/// A `t(...)` argument list is recognised when its first argument is a
/// plain string literal.
pub open spec fn spec_t_recognized(args: Seq<crate::ast::GArg>) -> bool {
    args.len() > 0 && !args[0].spread && args[0].expr matches crate::ast::GExpr::Lit(
        crate::ast::GLit::Str(_),
    )
}

/// The default text: the first argument's literal value.
pub open spec fn spec_t_text(args: Seq<crate::ast::GArg>) -> Seq<char> {
    args[0].expr->Lit_0->Str_0
}

/// The first `key`-named member of the options object decides the
/// explicit key: a string literal value names it, anything else leaves
/// the key to be computed.
pub open spec fn spec_find_key(props: Seq<crate::ast::GProp>) -> Option<Seq<char>>
    decreases props.len(),
{
    if props.len() == 0 {
        None
    } else {
        match props[0] {
            crate::ast::GProp::KV(crate::ast::GPropKey::Ident(n), v) => if n
                == crate::names::n_key() {
                match v {
                    crate::ast::GExpr::Lit(crate::ast::GLit::Str(sv)) => Some(sv),
                    _ => None,
                }
            } else {
                spec_find_key(props.drop_first())
            },
            _ => spec_find_key(props.drop_first()),
        }
    }
}

/// The explicit key, when the third argument is a non-spread object
/// literal carrying one.
pub open spec fn spec_t_explicit_key(args: Seq<crate::ast::GArg>) -> Option<Seq<char>> {
    if args.len() > 2 && !args[2].spread && args[2].expr is Object {
        spec_find_key(args[2].expr->Object_0)
    } else {
        None
    }
}

/// The params object: the second argument exactly when it is a
/// non-spread object literal.
pub open spec fn spec_t_params(args: Seq<crate::ast::GArg>) -> Option<Seq<crate::ast::GProp>> {
    if args.len() > 1 && !args[1].spread && args[1].expr is Object {
        Some(args[1].expr->Object_0)
    } else {
        None
    }
}

/// Read the arguments of a `t(defaultText, params?, options?)` call.
/// Recognised exactly when the first argument is a plain string
/// literal; then the default text is that literal, the key is the
/// explicit `options.key` string when one is given, else the computed
/// key of the text, and the params are the second argument when it is a
/// non-spread object literal.  A non-literal first argument draws a
/// diagnostic.
#[verifier::loop_isolation(false)]
pub fn extract_t(args: &Vec<crate::ast::Arg>, diags: &mut Vec<Diag>) -> (r: Option<TCall>)
    ensures
        crate::diag::extends(final(diags)@, old(diags)@),
        (r is Some) <==> spec_t_recognized(crate::ast::argsv(args@)),
        match r {
            Some(t) => {
                &&& t.default_text@ == spec_t_text(crate::ast::argsv(args@))
                &&& t.key@ == (match spec_t_explicit_key(crate::ast::argsv(args@)) {
                    Some(k) => k,
                    None => intl_key_spec(spec_t_text(crate::ast::argsv(args@)), None),
                })
                &&& (match t.params {
                    Some(ps) => spec_t_params(crate::ast::argsv(args@)) == Some(
                        crate::ast::propsv(ps@),
                    ),
                    None => spec_t_params(crate::ast::argsv(args@)) is None,
                })
            },
            None => true,
        },
        (args@.len() > 0 && !args@[0].spread && !(crate::ast::argsv(args@)[0].expr
            matches crate::ast::GExpr::Lit(crate::ast::GLit::Str(_))))
            ==> final(diags)@.contains(Diag::TFirstArgNotStr),
{
    proof {
        crate::diag::lemma_extends_refl(diags@);
        crate::ast::lemma_argsv(args@);
    }
    if args.len() == 0 {
        return None;
    }
    let a0 = &args[0];
    if a0.spread {
        return None;
    }
    proof {
        crate::ast::lemma_ev_is_lit_str(a0.expr);
    }
    let default_text = match &a0.expr {
        crate::ast::Expr::Lit(crate::ast::Lit::Str(s)) => crate::sym::sym_dup(s),
        _ => {
            diags.push(Diag::TFirstArgNotStr);
            proof {
                crate::diag::lemma_extends_push(old(diags)@, Diag::TFirstArgNotStr);
                assert(diags@[diags@.len() - 1] == Diag::TFirstArgNotStr);
                assert(diags@.contains(Diag::TFirstArgNotStr));
            }
            return None;
        }
    };
    let mut key: Option<Vec<char>> = None;
    if args.len() > 2 {
        let options = &args[2];
        proof {
            crate::ast::lemma_ev_is_object(options.expr);
        }
        if options.spread {
            diags.push(Diag::TOptionsSpread);
            proof {
                crate::diag::lemma_extends_push(old(diags)@, Diag::TOptionsSpread);
            }
        } else {
            match &options.expr {
                crate::ast::Expr::Object(props) => {
                    proof {
                        assert(options.expr->Object_0 == *props);
                        crate::ast::lemma_propsv(props@);
                    }
                    let ghost gprops = crate::ast::propsv(props@);
                    proof {
                        assert(gprops.skip(0) =~= gprops);
                    }
                    let mut i: usize = 0;
                    let mut done = false;
                    while i < props.len() && !done
                        invariant
                            0 <= i <= props@.len(),
                            !done ==> key is None,
                            !done ==> spec_find_key(gprops) == spec_find_key(
                                gprops.skip(i as int),
                            ),
                            done ==> spec_find_key(gprops) == (match key {
                                Some(k) => Some(k@),
                                None => None,
                            }),
                        decreases props@.len() - i,
                    {
                        proof {
                            crate::ast::lemma_propsv(props@);
                            assert(gprops.skip(i as int)[0] == gprops[i as int]);
                            assert(gprops.skip(i as int).drop_first() =~= gprops.skip(
                                i as int + 1,
                            ));
                        }
                        match &props[i] {
                            crate::ast::Prop::KV(crate::ast::PropKey::Ident(id), v) => {
                                let kname = crate::names::s_key();
                                if crate::sym::sym_eq(id, &kname) {
                                    match v {
                                        crate::ast::Expr::Lit(crate::ast::Lit::Str(sv)) => {
                                            key = Some(crate::sym::sym_dup(sv));
                                        }
                                        _ => {
                                            proof {
                                                crate::ast::lemma_ev_is_lit_str(*v);
                                            }
                                        }
                                    }
                                    done = true;
                                }
                            }
                            _ => {}
                        }
                        i += 1;
                    }
                    proof {
                        if !done {
                            assert(gprops.skip(props@.len() as int) =~= Seq::<
                                crate::ast::GProp,
                            >::empty());
                        }
                    }
                }
                _ => {}
            }
        }
    }
    let params: Option<Vec<crate::ast::Prop>> = if args.len() > 1 {
        let p = &args[1];
        proof {
            crate::ast::lemma_ev_is_object(p.expr);
        }
        if p.spread {
            let ghost pre = diags@;
            diags.push(Diag::TParamsSpread);
            proof {
                crate::diag::lemma_extends_push(pre, Diag::TParamsSpread);
                crate::diag::lemma_extends_trans(old(diags)@, pre, diags@);
            }
            None
        } else {
            match &p.expr {
                crate::ast::Expr::Object(props) => {
                    proof {
                        assert(p.expr->Object_0 == *props);
                    }
                    Some(crate::ast::dup_props(props))
                }
                _ => {
                    let ghost pre = diags@;
                    diags.push(Diag::TParamsNotObject);
                    proof {
                        crate::diag::lemma_extends_push(pre, Diag::TParamsNotObject);
                        crate::diag::lemma_extends_trans(old(diags)@, pre, diags@);
                    }
                    None
                }
            }
        }
    } else {
        None
    };
    let key = match key {
        Some(k) => k,
        None => calc_intl_key(&default_text, None),
    };
    Some(TCall { key, default_text, params })
}

} // verus!
