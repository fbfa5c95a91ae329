//! Character-string symbols: the names (tags, attributes, identifiers)
//! the compiler works over, held as plain character vectors.

use vstd::prelude::*;

verus! {

/// True when the two symbols hold the same characters.
pub fn sym_eq(a: &Vec<char>, b: &Vec<char>) -> (r: bool)
    ensures
        r == (a@ == b@),
{
    if a.len() != b.len() {
        proof {
            if a@ == b@ {
                assert(a@.len() == b@.len());
            }
        }
        return false;
    }
    let mut i: usize = 0;
    while i < a.len()
        invariant
            0 <= i <= a.len(),
            a.len() == b.len(),
            forall|j: int| 0 <= j < i ==> a@[j] == b@[j],
        decreases a.len() - i,
    {
        if a[i] != b[i] {
            return false;
        }
        i += 1;
    }
    proof {
        assert(a@ =~= b@);
    }
    true
}

/// Copy of a symbol.
pub fn sym_dup(a: &Vec<char>) -> (r: Vec<char>)
    ensures
        r@ == a@,
{
    let mut v: Vec<char> = Vec::new();
    let mut i: usize = 0;
    while i < a.len()
        invariant
            0 <= i <= a.len(),
            v@ =~= a@.subrange(0, i as int),
        decreases a.len() - i,
    {
        v.push(a[i]);
        i += 1;
    }
    proof {
        assert(v@ =~= a@);
    }
    v
}

/// The decimal spelling of `n`.
pub fn num_to_chars(n: usize) -> (r: Vec<char>)
    ensures
        r@ == crate::expr::spec_digits(n as nat),
    decreases n,
{
    let d = (((n % 10) as u8) + 48) as char;
    if n < 10 {
        let v: Vec<char> = vec![d];
        proof {
            assert(v@ =~= crate::expr::spec_digits(n as nat));
        }
        v
    } else {
        let mut v = num_to_chars(n / 10);
        v.push(d);
        proof {
            assert(v@ =~= crate::expr::spec_digits(n as nat));
        }
        v
    }
}

/// The evaluator parameter name for position `i`.
pub fn param_name(i: usize) -> (r: Vec<char>)
    ensures
        r@ == crate::expr::spec_param(i as nat),
{
    let mut v: Vec<char> = vec!['a'];
    let mut d = num_to_chars(i);
    v.append(&mut d);
    proof {
        assert(v@ =~= crate::expr::spec_param(i as nat));
    }
    v
}

/// Membership of `id` in a list of names.
#[verifier::loop_isolation(false)]
pub fn sym_list_contains(xs: &Vec<Vec<char>>, id: &Vec<char>) -> (r: bool)
    ensures
        r == crate::expr::spec_excluded(crate::sym::symsv(xs@), id@),
{
    let mut i: usize = 0;
    while i < xs.len()
        invariant
            0 <= i <= xs.len(),
            forall|j: int| 0 <= j < i ==> symsv(xs@)[j] != id@,
        decreases xs.len() - i,
    {
        if sym_eq(&xs[i], id) {
            proof {
                assert(symsv(xs@)[i as int] == id@);
            }
            return true;
        }
        i += 1;
    }
    proof {
        if crate::expr::spec_excluded(symsv(xs@), id@) {
            let j = choose|j: int| 0 <= j < symsv(xs@).len() && symsv(xs@)[j] == id@;
            assert(symsv(xs@)[j] != id@);
        }
    }
    false
}

/// The views of a list of names.
pub open spec fn symsv(xs: Seq<Vec<char>>) -> Seq<Seq<char>> {
    xs.map_values(|v: Vec<char>| v@)
}

/// Does the name start with the private-convention underscore?
pub fn is_private_name(s: &Vec<char>) -> (r: bool)
    ensures
        r == crate::expr::spec_private(s@),
{
    s.len() > 0 && s[0] == '_'
}

} // verus!
