//! The fixed identifier vocabulary: reserved local bindings, recognised
//! attribute and call names, and the runtime helper registry.  Every
//! helper is referenced by its public name and bound locally under a
//! mangled alias so generated code cannot collide with user identifiers.

use vstd::prelude::*;

verus! {

pub open spec fn n_el() -> Seq<char> {
    seq!['$', 'j', 'g', '$']
}

pub fn s_el() -> (r: Vec<char>)
    ensures
        r@ == n_el(),
{
    let v: Vec<char> = vec!['$', 'j', 'g', '$'];
    proof {
        assert(v@ =~= n_el());
    }
    v
}

pub open spec fn n_attrs_local() -> Seq<char> {
    seq!['a', 't', 't', 'r', 's', '$', 'j', 'g', '$']
}

pub fn s_attrs_local() -> (r: Vec<char>)
    ensures
        r@ == n_attrs_local(),
{
    let v: Vec<char> = vec!['a', 't', 't', 'r', 's', '$', 'j', 'g', '$'];
    proof {
        assert(v@ =~= n_attrs_local());
    }
    v
}

pub open spec fn n_v() -> Seq<char> {
    seq!['v']
}

pub fn s_v() -> (r: Vec<char>)
    ensures
        r@ == n_v(),
{
    let v: Vec<char> = vec!['v'];
    proof {
        assert(v@ =~= n_v());
    }
    v
}

pub open spec fn n_host() -> Seq<char> {
    seq!['h', 'o', 's', 't', '$', 'j', 'g', '$']
}

pub fn s_host() -> (r: Vec<char>)
    ensures
        r@ == n_host(),
{
    let v: Vec<char> = vec!['h', 'o', 's', 't', '$', 'j', 'g', '$'];
    proof {
        assert(v@ =~= n_host());
    }
    v
}

pub open spec fn n_children() -> Seq<char> {
    seq!['c', 'h', 'i', 'l', 'd', 'r', 'e', 'n']
}

pub fn s_children() -> (r: Vec<char>)
    ensures
        r@ == n_children(),
{
    let v: Vec<char> = vec!['c', 'h', 'i', 'l', 'd', 'r', 'e', 'n'];
    proof {
        assert(v@ =~= n_children());
    }
    v
}

pub open spec fn n_slots() -> Seq<char> {
    seq!['s', 'l', 'o', 't', 's']
}

pub fn s_slots() -> (r: Vec<char>)
    ensures
        r@ == n_slots(),
{
    let v: Vec<char> = vec!['s', 'l', 'o', 't', 's'];
    proof {
        assert(v@ =~= n_slots());
    }
    v
}

pub open spec fn n_key() -> Seq<char> {
    seq!['k', 'e', 'y']
}

pub fn s_key() -> (r: Vec<char>)
    ensures
        r@ == n_key(),
{
    let v: Vec<char> = vec!['k', 'e', 'y'];
    proof {
        assert(v@ =~= n_key());
    }
    v
}

pub open spec fn n_ref() -> Seq<char> {
    seq!['r', 'e', 'f']
}

pub fn s_ref() -> (r: Vec<char>)
    ensures
        r@ == n_ref(),
{
    let v: Vec<char> = vec!['r', 'e', 'f'];
    proof {
        assert(v@ =~= n_ref());
    }
    v
}

pub open spec fn n_class_name() -> Seq<char> {
    seq!['c', 'l', 'a', 's', 's', 'N', 'a', 'm', 'e']
}

pub fn s_class_name() -> (r: Vec<char>)
    ensures
        r@ == n_class_name(),
{
    let v: Vec<char> = vec!['c', 'l', 'a', 's', 's', 'N', 'a', 'm', 'e'];
    proof {
        assert(v@ =~= n_class_name());
    }
    v
}

pub open spec fn n_class() -> Seq<char> {
    seq!['c', 'l', 'a', 's', 's']
}

pub fn s_class() -> (r: Vec<char>)
    ensures
        r@ == n_class(),
{
    let v: Vec<char> = vec!['c', 'l', 'a', 's', 's'];
    proof {
        assert(v@ =~= n_class());
    }
    v
}

pub open spec fn n_svg() -> Seq<char> {
    seq!['s', 'v', 'g']
}

pub fn s_svg() -> (r: Vec<char>)
    ensures
        r@ == n_svg(),
{
    let v: Vec<char> = vec!['s', 'v', 'g'];
    proof {
        assert(v@ =~= n_svg());
    }
    v
}

pub open spec fn n_map() -> Seq<char> {
    seq!['m', 'a', 'p']
}

pub fn s_map() -> (r: Vec<char>)
    ensures
        r@ == n_map(),
{
    let v: Vec<char> = vec!['m', 'a', 'p'];
    proof {
        assert(v@ =~= n_map());
    }
    v
}

pub open spec fn n_t() -> Seq<char> {
    seq!['t']
}

pub fn s_t() -> (r: Vec<char>)
    ensures
        r@ == n_t(),
{
    let v: Vec<char> = vec!['t'];
    proof {
        assert(v@ =~= n_t());
    }
    v
}

pub open spec fn n_undefined() -> Seq<char> {
    seq!['u', 'n', 'd', 'e', 'f', 'i', 'n', 'e', 'd']
}

pub fn s_undefined() -> (r: Vec<char>)
    ensures
        r@ == n_undefined(),
{
    let v: Vec<char> = vec!['u', 'n', 'd', 'e', 'f', 'i', 'n', 'e', 'd'];
    proof {
        assert(v@ =~= n_undefined());
    }
    v
}

pub open spec fn n_expect() -> Seq<char> {
    seq!['e', 'x', 'p', 'e', 'c', 't']
}

pub fn s_expect() -> (r: Vec<char>)
    ensures
        r@ == n_expect(),
{
    let v: Vec<char> = vec!['e', 'x', 'p', 'e', 'c', 't'];
    proof {
        assert(v@ =~= n_expect());
    }
    v
}

pub open spec fn n_true() -> Seq<char> {
    seq!['t', 'r', 'u', 'e']
}

pub fn s_true() -> (r: Vec<char>)
    ensures
        r@ == n_true(),
{
    let v: Vec<char> = vec!['t', 'r', 'u', 'e'];
    proof {
        assert(v@ =~= n_true());
    }
    v
}

pub open spec fn n_false() -> Seq<char> {
    seq!['f', 'a', 'l', 's', 'e']
}

pub fn s_false() -> (r: Vec<char>)
    ensures
        r@ == n_false(),
{
    let v: Vec<char> = vec!['f', 'a', 'l', 's', 'e'];
    proof {
        assert(v@ =~= n_false());
    }
    v
}

pub open spec fn n_key_fn() -> Seq<char> {
    seq!['k', 'e', 'y', 'F', 'n']
}

pub fn s_key_fn() -> (r: Vec<char>)
    ensures
        r@ == n_key_fn(),
{
    let v: Vec<char> = vec!['k', 'e', 'y', 'F', 'n'];
    proof {
        assert(v@ =~= n_key_fn());
    }
    v
}

pub open spec fn n_loop() -> Seq<char> {
    seq!['l', 'o', 'o', 'p']
}

pub fn s_loop() -> (r: Vec<char>)
    ensures
        r@ == n_loop(),
{
    let v: Vec<char> = vec!['l', 'o', 'o', 'p'];
    proof {
        assert(v@ =~= n_loop());
    }
    v
}

pub open spec fn n_data() -> Seq<char> {
    seq!['d', 'a', 't', 'a']
}

pub fn s_data() -> (r: Vec<char>)
    ensures
        r@ == n_data(),
{
    let v: Vec<char> = vec!['d', 'a', 't', 'a'];
    proof {
        assert(v@ =~= n_data());
    }
    v
}

pub open spec fn n_index() -> Seq<char> {
    seq!['i', 'n', 'd', 'e', 'x']
}

pub fn s_index() -> (r: Vec<char>)
    ensures
        r@ == n_index(),
{
    let v: Vec<char> = vec!['i', 'n', 'd', 'e', 'x'];
    proof {
        assert(v@ =~= n_index());
    }
    v
}

pub open spec fn n_push() -> Seq<char> {
    seq!['p', 'u', 's', 'h']
}

pub fn s_push() -> (r: Vec<char>)
    ensures
        r@ == n_push(),
{
    let v: Vec<char> = vec!['p', 'u', 's', 'h'];
    proof {
        assert(v@ =~= n_push());
    }
    v
}

pub open spec fn n_each() -> Seq<char> {
    seq!['e', 'a', 'c', 'h', '$', 'j', 'g', '$']
}

pub fn s_each() -> (r: Vec<char>)
    ensures
        r@ == n_each(),
{
    let v: Vec<char> = vec!['e', 'a', 'c', 'h', '$', 'j', 'g', '$'];
    proof {
        assert(v@ =~= n_each());
    }
    v
}

pub open spec fn n_use_intl() -> Seq<char> {
    seq!['u', 's', 'e', 'I', 'n', 't', 'l']
}

pub fn s_use_intl() -> (r: Vec<char>)
    ensures
        r@ == n_use_intl(),
{
    let v: Vec<char> = vec!['u', 's', 'e', 'I', 'n', 't', 'l'];
    proof {
        assert(v@ =~= n_use_intl());
    }
    v
}

pub open spec fn n_default_message() -> Seq<char> {
    seq!['d', 'e', 'f', 'a', 'u', 'l', 't', 'M', 'e', 's', 's', 'a', 'g', 'e']
}

pub fn s_default_message() -> (r: Vec<char>)
    ensures
        r@ == n_default_message(),
{
    let v: Vec<char> = vec!['d', 'e', 'f', 'a', 'u', 'l', 't', 'M', 'e', 's', 's', 'a', 'g', 'e'];
    proof {
        assert(v@ =~= n_default_message());
    }
    v
}

pub open spec fn n_isolated() -> Seq<char> {
    seq!['i', 's', 'o', 'l', 'a', 't', 'e', 'd']
}

pub fn s_isolated() -> (r: Vec<char>)
    ensures
        r@ == n_isolated(),
{
    let v: Vec<char> = vec!['i', 's', 'o', 'l', 'a', 't', 'e', 'd'];
    proof {
        assert(v@ =~= n_isolated());
    }
    v
}

pub open spec fn n_jinge() -> Seq<char> {
    seq!['j', 'i', 'n', 'g', 'e']
}

pub fn s_jinge() -> (r: Vec<char>)
    ensures
        r@ == n_jinge(),
{
    let v: Vec<char> = vec!['j', 'i', 'n', 'g', 'e'];
    proof {
        assert(v@ =~= n_jinge());
    }
    v
}

pub open spec fn n_disabled() -> Seq<char> {
    seq!['d', 'i', 's', 'a', 'b', 'l', 'e', 'd']
}

pub fn s_disabled() -> (r: Vec<char>)
    ensures
        r@ == n_disabled(),
{
    let v: Vec<char> = vec!['d', 'i', 's', 'a', 'b', 'l', 'e', 'd'];
    proof {
        assert(v@ =~= n_disabled());
    }
    v
}

pub open spec fn n_read_only() -> Seq<char> {
    seq!['r', 'e', 'a', 'd', 'O', 'n', 'l', 'y']
}

pub fn s_read_only() -> (r: Vec<char>)
    ensures
        r@ == n_read_only(),
{
    let v: Vec<char> = vec!['r', 'e', 'a', 'd', 'O', 'n', 'l', 'y'];
    proof {
        assert(v@ =~= n_read_only());
    }
    v
}

pub open spec fn n_auto_focus() -> Seq<char> {
    seq!['a', 'u', 't', 'o', 'F', 'o', 'c', 'u', 's']
}

pub fn s_auto_focus() -> (r: Vec<char>)
    ensures
        r@ == n_auto_focus(),
{
    let v: Vec<char> = vec!['a', 'u', 't', 'o', 'F', 'o', 'c', 'u', 's'];
    proof {
        assert(v@ =~= n_auto_focus());
    }
    v
}

pub open spec fn n_auto_complete() -> Seq<char> {
    seq!['a', 'u', 't', 'o', 'C', 'o', 'm', 'p', 'l', 'e', 't', 'e']
}

pub fn s_auto_complete() -> (r: Vec<char>)
    ensures
        r@ == n_auto_complete(),
{
    let v: Vec<char> = vec!['a', 'u', 't', 'o', 'C', 'o', 'm', 'p', 'l', 'e', 't', 'e'];
    proof {
        assert(v@ =~= n_auto_complete());
    }
    v
}

pub open spec fn n_auto_play() -> Seq<char> {
    seq!['a', 'u', 't', 'o', 'P', 'l', 'a', 'y']
}

pub fn s_auto_play() -> (r: Vec<char>)
    ensures
        r@ == n_auto_play(),
{
    let v: Vec<char> = vec!['a', 'u', 't', 'o', 'P', 'l', 'a', 'y'];
    proof {
        assert(v@ =~= n_auto_play());
    }
    v
}

pub open spec fn n_controls() -> Seq<char> {
    seq!['c', 'o', 'n', 't', 'r', 'o', 'l', 's']
}

pub fn s_controls() -> (r: Vec<char>)
    ensures
        r@ == n_controls(),
{
    let v: Vec<char> = vec!['c', 'o', 'n', 't', 'r', 'o', 'l', 's'];
    proof {
        assert(v@ =~= n_controls());
    }
    v
}

pub open spec fn n_required() -> Seq<char> {
    seq!['r', 'e', 'q', 'u', 'i', 'r', 'e', 'd']
}

pub fn s_required() -> (r: Vec<char>)
    ensures
        r@ == n_required(),
{
    let v: Vec<char> = vec!['r', 'e', 'q', 'u', 'i', 'r', 'e', 'd'];
    proof {
        assert(v@ =~= n_required());
    }
    v
}

pub open spec fn n_checked() -> Seq<char> {
    seq!['c', 'h', 'e', 'c', 'k', 'e', 'd']
}

pub fn s_checked() -> (r: Vec<char>)
    ensures
        r@ == n_checked(),
{
    let v: Vec<char> = vec!['c', 'h', 'e', 'c', 'k', 'e', 'd'];
    proof {
        assert(v@ =~= n_checked());
    }
    v
}

pub open spec fn n_selected() -> Seq<char> {
    seq!['s', 'e', 'l', 'e', 'c', 't', 'e', 'd']
}

pub fn s_selected() -> (r: Vec<char>)
    ensures
        r@ == n_selected(),
{
    let v: Vec<char> = vec!['s', 'e', 'l', 'e', 'c', 't', 'e', 'd'];
    proof {
        assert(v@ =~= n_selected());
    }
    v
}

pub open spec fn n_multiple() -> Seq<char> {
    seq!['m', 'u', 'l', 't', 'i', 'p', 'l', 'e']
}

pub fn s_multiple() -> (r: Vec<char>)
    ensures
        r@ == n_multiple(),
{
    let v: Vec<char> = vec!['m', 'u', 'l', 't', 'i', 'p', 'l', 'e'];
    proof {
        assert(v@ =~= n_multiple());
    }
    v
}

pub open spec fn n_muted() -> Seq<char> {
    seq!['m', 'u', 't', 'e', 'd']
}

pub fn s_muted() -> (r: Vec<char>)
    ensures
        r@ == n_muted(),
{
    let v: Vec<char> = vec!['m', 'u', 't', 'e', 'd'];
    proof {
        assert(v@ =~= n_muted());
    }
    v
}

pub open spec fn n_draggable() -> Seq<char> {
    seq!['d', 'r', 'a', 'g', 'g', 'a', 'b', 'l', 'e']
}

pub fn s_draggable() -> (r: Vec<char>)
    ensures
        r@ == n_draggable(),
{
    let v: Vec<char> = vec!['d', 'r', 'a', 'g', 'g', 'a', 'b', 'l', 'e'];
    proof {
        assert(v@ =~= n_draggable());
    }
    v
}

pub open spec fn n_local_text_render_fn() -> Seq<char> {
    seq!['t', 'e', 'x', 't', 'R', 'e', 'n', 'd', 'e', 'r', 'F', 'n', '$', 'j', 'g', '$']
}

pub fn s_local_text_render_fn() -> (r: Vec<char>)
    ensures
        r@ == n_local_text_render_fn(),
{
    let v: Vec<char> = vec!['t', 'e', 'x', 't', 'R', 'e', 'n', 'd', 'e', 'r', 'F', 'n', '$', 'j', 'g', '$'];
    proof {
        assert(v@ =~= n_local_text_render_fn());
    }
    v
}

pub open spec fn n_pub_text_render_fn() -> Seq<char> {
    seq!['t', 'e', 'x', 't', 'R', 'e', 'n', 'd', 'e', 'r', 'F', 'n']
}

pub fn s_pub_text_render_fn() -> (r: Vec<char>)
    ensures
        r@ == n_pub_text_render_fn(),
{
    let v: Vec<char> = vec!['t', 'e', 'x', 't', 'R', 'e', 'n', 'd', 'e', 'r', 'F', 'n'];
    proof {
        assert(v@ =~= n_pub_text_render_fn());
    }
    v
}

pub open spec fn n_local_create_ele() -> Seq<char> {
    seq!['c', 'r', 'e', 'a', 't', 'e', 'E', 'l', 'e', '$', 'j', 'g', '$']
}

pub fn s_local_create_ele() -> (r: Vec<char>)
    ensures
        r@ == n_local_create_ele(),
{
    let v: Vec<char> = vec!['c', 'r', 'e', 'a', 't', 'e', 'E', 'l', 'e', '$', 'j', 'g', '$'];
    proof {
        assert(v@ =~= n_local_create_ele());
    }
    v
}

pub open spec fn n_pub_create_ele() -> Seq<char> {
    seq!['c', 'r', 'e', 'a', 't', 'e', 'E', 'l', 'e']
}

pub fn s_pub_create_ele() -> (r: Vec<char>)
    ensures
        r@ == n_pub_create_ele(),
{
    let v: Vec<char> = vec!['c', 'r', 'e', 'a', 't', 'e', 'E', 'l', 'e'];
    proof {
        assert(v@ =~= n_pub_create_ele());
    }
    v
}

pub open spec fn n_local_create_ele_a() -> Seq<char> {
    seq!['c', 'r', 'e', 'a', 't', 'e', 'E', 'l', 'e', 'A', '$', 'j', 'g', '$']
}

pub fn s_local_create_ele_a() -> (r: Vec<char>)
    ensures
        r@ == n_local_create_ele_a(),
{
    let v: Vec<char> = vec!['c', 'r', 'e', 'a', 't', 'e', 'E', 'l', 'e', 'A', '$', 'j', 'g', '$'];
    proof {
        assert(v@ =~= n_local_create_ele_a());
    }
    v
}

pub open spec fn n_pub_create_ele_a() -> Seq<char> {
    seq!['c', 'r', 'e', 'a', 't', 'e', 'E', 'l', 'e', 'A']
}

pub fn s_pub_create_ele_a() -> (r: Vec<char>)
    ensures
        r@ == n_pub_create_ele_a(),
{
    let v: Vec<char> = vec!['c', 'r', 'e', 'a', 't', 'e', 'E', 'l', 'e', 'A'];
    proof {
        assert(v@ =~= n_pub_create_ele_a());
    }
    v
}

pub open spec fn n_local_create_text_node() -> Seq<char> {
    seq!['c', 'r', 'e', 'a', 't', 'e', 'T', 'e', 'x', 't', 'N', 'o', 'd', 'e', '$', 'j', 'g', '$']
}

pub fn s_local_create_text_node() -> (r: Vec<char>)
    ensures
        r@ == n_local_create_text_node(),
{
    let v: Vec<char> = vec!['c', 'r', 'e', 'a', 't', 'e', 'T', 'e', 'x', 't', 'N', 'o', 'd', 'e', '$', 'j', 'g', '$'];
    proof {
        assert(v@ =~= n_local_create_text_node());
    }
    v
}

pub open spec fn n_pub_create_text_node() -> Seq<char> {
    seq!['c', 'r', 'e', 'a', 't', 'e', 'T', 'e', 'x', 't', 'N', 'o', 'd', 'e']
}

pub fn s_pub_create_text_node() -> (r: Vec<char>)
    ensures
        r@ == n_pub_create_text_node(),
{
    let v: Vec<char> = vec!['c', 'r', 'e', 'a', 't', 'e', 'T', 'e', 'x', 't', 'N', 'o', 'd', 'e'];
    proof {
        assert(v@ =~= n_pub_create_text_node());
    }
    v
}

pub open spec fn n_local_set_text_content() -> Seq<char> {
    seq!['s', 'e', 't', 'T', 'e', 'x', 't', 'C', 'o', 'n', 't', 'e', 'n', 't', '$', 'j', 'g', '$']
}

pub fn s_local_set_text_content() -> (r: Vec<char>)
    ensures
        r@ == n_local_set_text_content(),
{
    let v: Vec<char> = vec!['s', 'e', 't', 'T', 'e', 'x', 't', 'C', 'o', 'n', 't', 'e', 'n', 't', '$', 'j', 'g', '$'];
    proof {
        assert(v@ =~= n_local_set_text_content());
    }
    v
}

pub open spec fn n_pub_set_text_content() -> Seq<char> {
    seq!['s', 'e', 't', 'T', 'e', 'x', 't', 'C', 'o', 'n', 't', 'e', 'n', 't']
}

pub fn s_pub_set_text_content() -> (r: Vec<char>)
    ensures
        r@ == n_pub_set_text_content(),
{
    let v: Vec<char> = vec!['s', 'e', 't', 'T', 'e', 'x', 't', 'C', 'o', 'n', 't', 'e', 'n', 't'];
    proof {
        assert(v@ =~= n_pub_set_text_content());
    }
    v
}

pub open spec fn n_local_add_event() -> Seq<char> {
    seq!['a', 'd', 'd', 'E', 'v', 'e', 'n', 't', '$', 'j', 'g', '$']
}

pub fn s_local_add_event() -> (r: Vec<char>)
    ensures
        r@ == n_local_add_event(),
{
    let v: Vec<char> = vec!['a', 'd', 'd', 'E', 'v', 'e', 'n', 't', '$', 'j', 'g', '$'];
    proof {
        assert(v@ =~= n_local_add_event());
    }
    v
}

pub open spec fn n_pub_add_event() -> Seq<char> {
    seq!['a', 'd', 'd', 'E', 'v', 'e', 'n', 't']
}

pub fn s_pub_add_event() -> (r: Vec<char>)
    ensures
        r@ == n_pub_add_event(),
{
    let v: Vec<char> = vec!['a', 'd', 'd', 'E', 'v', 'e', 'n', 't'];
    proof {
        assert(v@ =~= n_pub_add_event());
    }
    v
}

pub open spec fn n_local_set_attribute() -> Seq<char> {
    seq!['s', 'e', 't', 'A', 't', 't', 'r', 'i', 'b', 'u', 't', 'e', '$', 'j', 'g', '$']
}

pub fn s_local_set_attribute() -> (r: Vec<char>)
    ensures
        r@ == n_local_set_attribute(),
{
    let v: Vec<char> = vec!['s', 'e', 't', 'A', 't', 't', 'r', 'i', 'b', 'u', 't', 'e', '$', 'j', 'g', '$'];
    proof {
        assert(v@ =~= n_local_set_attribute());
    }
    v
}

pub open spec fn n_pub_set_attribute() -> Seq<char> {
    seq!['s', 'e', 't', 'A', 't', 't', 'r', 'i', 'b', 'u', 't', 'e']
}

pub fn s_pub_set_attribute() -> (r: Vec<char>)
    ensures
        r@ == n_pub_set_attribute(),
{
    let v: Vec<char> = vec!['s', 'e', 't', 'A', 't', 't', 'r', 'i', 'b', 'u', 't', 'e'];
    proof {
        assert(v@ =~= n_pub_set_attribute());
    }
    v
}

pub open spec fn n_local_if() -> Seq<char> {
    seq!['I', 'f', '$', 'j', 'g', '$']
}

pub fn s_local_if() -> (r: Vec<char>)
    ensures
        r@ == n_local_if(),
{
    let v: Vec<char> = vec!['I', 'f', '$', 'j', 'g', '$'];
    proof {
        assert(v@ =~= n_local_if());
    }
    v
}

pub open spec fn n_pub_if() -> Seq<char> {
    seq!['I', 'f']
}

pub fn s_pub_if() -> (r: Vec<char>)
    ensures
        r@ == n_pub_if(),
{
    let v: Vec<char> = vec!['I', 'f'];
    proof {
        assert(v@ =~= n_pub_if());
    }
    v
}

pub open spec fn n_local_for() -> Seq<char> {
    seq!['F', 'o', 'r', '$', 'j', 'g', '$']
}

pub fn s_local_for() -> (r: Vec<char>)
    ensures
        r@ == n_local_for(),
{
    let v: Vec<char> = vec!['F', 'o', 'r', '$', 'j', 'g', '$'];
    proof {
        assert(v@ =~= n_local_for());
    }
    v
}

pub open spec fn n_pub_for() -> Seq<char> {
    seq!['F', 'o', 'r']
}

pub fn s_pub_for() -> (r: Vec<char>)
    ensures
        r@ == n_pub_for(),
{
    let v: Vec<char> = vec!['F', 'o', 'r'];
    proof {
        assert(v@ =~= n_pub_for());
    }
    v
}

pub open spec fn n_local_path_watcher() -> Seq<char> {
    seq!['P', 'a', 't', 'h', 'W', 'a', 't', 'c', 'h', 'e', 'r', '$', 'j', 'g', '$']
}

pub fn s_local_path_watcher() -> (r: Vec<char>)
    ensures
        r@ == n_local_path_watcher(),
{
    let v: Vec<char> = vec!['P', 'a', 't', 'h', 'W', 'a', 't', 'c', 'h', 'e', 'r', '$', 'j', 'g', '$'];
    proof {
        assert(v@ =~= n_local_path_watcher());
    }
    v
}

pub open spec fn n_pub_path_watcher() -> Seq<char> {
    seq!['P', 'a', 't', 'h', 'W', 'a', 't', 'c', 'h', 'e', 'r']
}

pub fn s_pub_path_watcher() -> (r: Vec<char>)
    ensures
        r@ == n_pub_path_watcher(),
{
    let v: Vec<char> = vec!['P', 'a', 't', 'h', 'W', 'a', 't', 'c', 'h', 'e', 'r'];
    proof {
        assert(v@ =~= n_pub_path_watcher());
    }
    v
}

pub open spec fn n_local_dym_path_watcher() -> Seq<char> {
    seq!['D', 'y', 'm', 'P', 'a', 't', 'h', 'W', 'a', 't', 'c', 'h', 'e', 'r', '$', 'j', 'g', '$']
}

pub fn s_local_dym_path_watcher() -> (r: Vec<char>)
    ensures
        r@ == n_local_dym_path_watcher(),
{
    let v: Vec<char> = vec!['D', 'y', 'm', 'P', 'a', 't', 'h', 'W', 'a', 't', 'c', 'h', 'e', 'r', '$', 'j', 'g', '$'];
    proof {
        assert(v@ =~= n_local_dym_path_watcher());
    }
    v
}

pub open spec fn n_pub_dym_path_watcher() -> Seq<char> {
    seq!['D', 'y', 'm', 'P', 'a', 't', 'h', 'W', 'a', 't', 'c', 'h', 'e', 'r']
}

pub fn s_pub_dym_path_watcher() -> (r: Vec<char>)
    ensures
        r@ == n_pub_dym_path_watcher(),
{
    let v: Vec<char> = vec!['D', 'y', 'm', 'P', 'a', 't', 'h', 'W', 'a', 't', 'c', 'h', 'e', 'r'];
    proof {
        assert(v@ =~= n_pub_dym_path_watcher());
    }
    v
}

pub open spec fn n_local_expr_watcher() -> Seq<char> {
    seq!['E', 'x', 'p', 'r', 'W', 'a', 't', 'c', 'h', 'e', 'r', '$', 'j', 'g', '$']
}

pub fn s_local_expr_watcher() -> (r: Vec<char>)
    ensures
        r@ == n_local_expr_watcher(),
{
    let v: Vec<char> = vec!['E', 'x', 'p', 'r', 'W', 'a', 't', 'c', 'h', 'e', 'r', '$', 'j', 'g', '$'];
    proof {
        assert(v@ =~= n_local_expr_watcher());
    }
    v
}

pub open spec fn n_pub_expr_watcher() -> Seq<char> {
    seq!['E', 'x', 'p', 'r', 'W', 'a', 't', 'c', 'h', 'e', 'r']
}

pub fn s_pub_expr_watcher() -> (r: Vec<char>)
    ensures
        r@ == n_pub_expr_watcher(),
{
    let v: Vec<char> = vec!['E', 'x', 'p', 'r', 'W', 'a', 't', 'c', 'h', 'e', 'r'];
    proof {
        assert(v@ =~= n_pub_expr_watcher());
    }
    v
}

pub open spec fn n_local_watch_for_render() -> Seq<char> {
    seq!['w', 'a', 't', 'c', 'h', 'F', 'o', 'r', 'R', 'e', 'n', 'd', 'e', 'r', '$', 'j', 'g', '$']
}

pub fn s_local_watch_for_render() -> (r: Vec<char>)
    ensures
        r@ == n_local_watch_for_render(),
{
    let v: Vec<char> = vec!['w', 'a', 't', 'c', 'h', 'F', 'o', 'r', 'R', 'e', 'n', 'd', 'e', 'r', '$', 'j', 'g', '$'];
    proof {
        assert(v@ =~= n_local_watch_for_render());
    }
    v
}

pub open spec fn n_pub_watch_for_render() -> Seq<char> {
    seq!['w', 'a', 't', 'c', 'h', 'F', 'o', 'r', 'R', 'e', 'n', 'd', 'e', 'r']
}

pub fn s_pub_watch_for_render() -> (r: Vec<char>)
    ensures
        r@ == n_pub_watch_for_render(),
{
    let v: Vec<char> = vec!['w', 'a', 't', 'c', 'h', 'F', 'o', 'r', 'R', 'e', 'n', 'd', 'e', 'r'];
    proof {
        assert(v@ =~= n_pub_watch_for_render());
    }
    v
}

pub open spec fn n_local_watch_path_for_render() -> Seq<char> {
    seq!['w', 'a', 't', 'c', 'h', 'P', 'a', 't', 'h', 'F', 'o', 'r', 'R', 'e', 'n', 'd', 'e', 'r', '$', 'j', 'g', '$']
}

pub fn s_local_watch_path_for_render() -> (r: Vec<char>)
    ensures
        r@ == n_local_watch_path_for_render(),
{
    let v: Vec<char> = vec!['w', 'a', 't', 'c', 'h', 'P', 'a', 't', 'h', 'F', 'o', 'r', 'R', 'e', 'n', 'd', 'e', 'r', '$', 'j', 'g', '$'];
    proof {
        assert(v@ =~= n_local_watch_path_for_render());
    }
    v
}

pub open spec fn n_pub_watch_path_for_render() -> Seq<char> {
    seq!['w', 'a', 't', 'c', 'h', 'P', 'a', 't', 'h', 'F', 'o', 'r', 'R', 'e', 'n', 'd', 'e', 'r']
}

pub fn s_pub_watch_path_for_render() -> (r: Vec<char>)
    ensures
        r@ == n_pub_watch_path_for_render(),
{
    let v: Vec<char> = vec!['w', 'a', 't', 'c', 'h', 'P', 'a', 't', 'h', 'F', 'o', 'r', 'R', 'e', 'n', 'd', 'e', 'r'];
    proof {
        assert(v@ =~= n_pub_watch_path_for_render());
    }
    v
}

pub open spec fn n_local_watch_path_for_render2() -> Seq<char> {
    seq!['w', 'a', 't', 'c', 'h', 'P', 'a', 't', 'h', 'F', 'o', 'r', 'R', 'e', 'n', 'd', 'e', 'r', '2', '$', 'j', 'g', '$']
}

pub fn s_local_watch_path_for_render2() -> (r: Vec<char>)
    ensures
        r@ == n_local_watch_path_for_render2(),
{
    let v: Vec<char> = vec!['w', 'a', 't', 'c', 'h', 'P', 'a', 't', 'h', 'F', 'o', 'r', 'R', 'e', 'n', 'd', 'e', 'r', '2', '$', 'j', 'g', '$'];
    proof {
        assert(v@ =~= n_local_watch_path_for_render2());
    }
    v
}

pub open spec fn n_pub_watch_path_for_render2() -> Seq<char> {
    seq!['w', 'a', 't', 'c', 'h', 'P', 'a', 't', 'h', 'F', 'o', 'r', 'R', 'e', 'n', 'd', 'e', 'r', '2']
}

pub fn s_pub_watch_path_for_render2() -> (r: Vec<char>)
    ensures
        r@ == n_pub_watch_path_for_render2(),
{
    let v: Vec<char> = vec!['w', 'a', 't', 'c', 'h', 'P', 'a', 't', 'h', 'F', 'o', 'r', 'R', 'e', 'n', 'd', 'e', 'r', '2'];
    proof {
        assert(v@ =~= n_pub_watch_path_for_render2());
    }
    v
}

pub open spec fn n_local_context() -> Seq<char> {
    seq!['C', 'O', 'N', 'T', 'E', 'X', 'T', '$', 'j', 'g', '$']
}

pub fn s_local_context() -> (r: Vec<char>)
    ensures
        r@ == n_local_context(),
{
    let v: Vec<char> = vec!['C', 'O', 'N', 'T', 'E', 'X', 'T', '$', 'j', 'g', '$'];
    proof {
        assert(v@ =~= n_local_context());
    }
    v
}

pub open spec fn n_pub_context() -> Seq<char> {
    seq!['C', 'O', 'N', 'T', 'E', 'X', 'T']
}

pub fn s_pub_context() -> (r: Vec<char>)
    ensures
        r@ == n_pub_context(),
{
    let v: Vec<char> = vec!['C', 'O', 'N', 'T', 'E', 'X', 'T'];
    proof {
        assert(v@ =~= n_pub_context());
    }
    v
}

pub open spec fn n_local_vm() -> Seq<char> {
    seq!['v', 'm', '$', 'j', 'g', '$']
}

pub fn s_local_vm() -> (r: Vec<char>)
    ensures
        r@ == n_local_vm(),
{
    let v: Vec<char> = vec!['v', 'm', '$', 'j', 'g', '$'];
    proof {
        assert(v@ =~= n_local_vm());
    }
    v
}

pub open spec fn n_pub_vm() -> Seq<char> {
    seq!['v', 'm']
}

pub fn s_pub_vm() -> (r: Vec<char>)
    ensures
        r@ == n_pub_vm(),
{
    let v: Vec<char> = vec!['v', 'm'];
    proof {
        assert(v@ =~= n_pub_vm());
    }
    v
}

pub open spec fn n_local_set_ref_for_component() -> Seq<char> {
    seq!['s', 'e', 't', 'R', 'e', 'f', 'F', 'o', 'r', 'C', 'o', 'm', 'p', 'o', 'n', 'e', 'n', 't', '$', 'j', 'g', '$']
}

pub fn s_local_set_ref_for_component() -> (r: Vec<char>)
    ensures
        r@ == n_local_set_ref_for_component(),
{
    let v: Vec<char> = vec!['s', 'e', 't', 'R', 'e', 'f', 'F', 'o', 'r', 'C', 'o', 'm', 'p', 'o', 'n', 'e', 'n', 't', '$', 'j', 'g', '$'];
    proof {
        assert(v@ =~= n_local_set_ref_for_component());
    }
    v
}

pub open spec fn n_pub_set_ref_for_component() -> Seq<char> {
    seq!['s', 'e', 't', 'R', 'e', 'f', 'F', 'o', 'r', 'C', 'o', 'm', 'p', 'o', 'n', 'e', 'n', 't']
}

pub fn s_pub_set_ref_for_component() -> (r: Vec<char>)
    ensures
        r@ == n_pub_set_ref_for_component(),
{
    let v: Vec<char> = vec!['s', 'e', 't', 'R', 'e', 'f', 'F', 'o', 'r', 'C', 'o', 'm', 'p', 'o', 'n', 'e', 'n', 't'];
    proof {
        assert(v@ =~= n_pub_set_ref_for_component());
    }
    v
}

pub open spec fn n_local_root_nodes() -> Seq<char> {
    seq!['R', 'O', 'O', 'T', '_', 'N', 'O', 'D', 'E', 'S', '$', 'j', 'g', '$']
}

pub fn s_local_root_nodes() -> (r: Vec<char>)
    ensures
        r@ == n_local_root_nodes(),
{
    let v: Vec<char> = vec!['R', 'O', 'O', 'T', '_', 'N', 'O', 'D', 'E', 'S', '$', 'j', 'g', '$'];
    proof {
        assert(v@ =~= n_local_root_nodes());
    }
    v
}

pub open spec fn n_pub_root_nodes() -> Seq<char> {
    seq!['R', 'O', 'O', 'T', '_', 'N', 'O', 'D', 'E', 'S']
}

pub fn s_pub_root_nodes() -> (r: Vec<char>)
    ensures
        r@ == n_pub_root_nodes(),
{
    let v: Vec<char> = vec!['R', 'O', 'O', 'T', '_', 'N', 'O', 'D', 'E', 'S'];
    proof {
        assert(v@ =~= n_pub_root_nodes());
    }
    v
}

pub open spec fn n_local_slots() -> Seq<char> {
    seq!['S', 'L', 'O', 'T', 'S', '$', 'j', 'g', '$']
}

pub fn s_local_slots() -> (r: Vec<char>)
    ensures
        r@ == n_local_slots(),
{
    let v: Vec<char> = vec!['S', 'L', 'O', 'T', 'S', '$', 'j', 'g', '$'];
    proof {
        assert(v@ =~= n_local_slots());
    }
    v
}

pub open spec fn n_pub_slots() -> Seq<char> {
    seq!['S', 'L', 'O', 'T', 'S']
}

pub fn s_pub_slots() -> (r: Vec<char>)
    ensures
        r@ == n_pub_slots(),
{
    let v: Vec<char> = vec!['S', 'L', 'O', 'T', 'S'];
    proof {
        assert(v@ =~= n_pub_slots());
    }
    v
}

pub open spec fn n_local_default_slot() -> Seq<char> {
    seq!['D', 'E', 'F', 'A', 'U', 'L', 'T', '_', 'S', 'L', 'O', 'T', '$', 'j', 'g', '$']
}

pub fn s_local_default_slot() -> (r: Vec<char>)
    ensures
        r@ == n_local_default_slot(),
{
    let v: Vec<char> = vec!['D', 'E', 'F', 'A', 'U', 'L', 'T', '_', 'S', 'L', 'O', 'T', '$', 'j', 'g', '$'];
    proof {
        assert(v@ =~= n_local_default_slot());
    }
    v
}

pub open spec fn n_pub_default_slot() -> Seq<char> {
    seq!['D', 'E', 'F', 'A', 'U', 'L', 'T', '_', 'S', 'L', 'O', 'T']
}

pub fn s_pub_default_slot() -> (r: Vec<char>)
    ensures
        r@ == n_pub_default_slot(),
{
    let v: Vec<char> = vec!['D', 'E', 'F', 'A', 'U', 'L', 'T', '_', 'S', 'L', 'O', 'T'];
    proof {
        assert(v@ =~= n_pub_default_slot());
    }
    v
}

pub open spec fn n_local_non_root_component_nodes() -> Seq<char> {
    seq!['N', 'O', 'N', '_', 'R', 'O', 'O', 'T', '_', 'C', 'O', 'M', 'P', 'O', 'N', 'E', 'N', 'T', '_', 'N', 'O', 'D', 'E', 'S', '$', 'j', 'g', '$']
}

pub fn s_local_non_root_component_nodes() -> (r: Vec<char>)
    ensures
        r@ == n_local_non_root_component_nodes(),
{
    let v: Vec<char> = vec!['N', 'O', 'N', '_', 'R', 'O', 'O', 'T', '_', 'C', 'O', 'M', 'P', 'O', 'N', 'E', 'N', 'T', '_', 'N', 'O', 'D', 'E', 'S', '$', 'j', 'g', '$'];
    proof {
        assert(v@ =~= n_local_non_root_component_nodes());
    }
    v
}

pub open spec fn n_pub_non_root_component_nodes() -> Seq<char> {
    seq!['N', 'O', 'N', '_', 'R', 'O', 'O', 'T', '_', 'C', 'O', 'M', 'P', 'O', 'N', 'E', 'N', 'T', '_', 'N', 'O', 'D', 'E', 'S']
}

pub fn s_pub_non_root_component_nodes() -> (r: Vec<char>)
    ensures
        r@ == n_pub_non_root_component_nodes(),
{
    let v: Vec<char> = vec!['N', 'O', 'N', '_', 'R', 'O', 'O', 'T', '_', 'C', 'O', 'M', 'P', 'O', 'N', 'E', 'N', 'T', '_', 'N', 'O', 'D', 'E', 'S'];
    proof {
        assert(v@ =~= n_pub_non_root_component_nodes());
    }
    v
}

pub open spec fn n_local_new_component_with_slots() -> Seq<char> {
    seq!['n', 'e', 'w', 'C', 'o', 'm', 'p', 'o', 'n', 'e', 'n', 't', 'W', 'i', 't', 'h', 'S', 'l', 'o', 't', 's', '$', 'j', 'g', '$']
}

pub fn s_local_new_component_with_slots() -> (r: Vec<char>)
    ensures
        r@ == n_local_new_component_with_slots(),
{
    let v: Vec<char> = vec!['n', 'e', 'w', 'C', 'o', 'm', 'p', 'o', 'n', 'e', 'n', 't', 'W', 'i', 't', 'h', 'S', 'l', 'o', 't', 's', '$', 'j', 'g', '$'];
    proof {
        assert(v@ =~= n_local_new_component_with_slots());
    }
    v
}

pub open spec fn n_pub_new_component_with_slots() -> Seq<char> {
    seq!['n', 'e', 'w', 'C', 'o', 'm', 'p', 'o', 'n', 'e', 'n', 't', 'W', 'i', 't', 'h', 'S', 'l', 'o', 't', 's']
}

pub fn s_pub_new_component_with_slots() -> (r: Vec<char>)
    ensures
        r@ == n_pub_new_component_with_slots(),
{
    let v: Vec<char> = vec!['n', 'e', 'w', 'C', 'o', 'm', 'p', 'o', 'n', 'e', 'n', 't', 'W', 'i', 't', 'h', 'S', 'l', 'o', 't', 's'];
    proof {
        assert(v@ =~= n_pub_new_component_with_slots());
    }
    v
}

pub open spec fn n_local_new_component_with_default_slot() -> Seq<char> {
    seq!['n', 'e', 'w', 'C', 'o', 'm', 'p', 'o', 'n', 'e', 'n', 't', 'W', 'i', 't', 'h', 'D', 'e', 'f', 'a', 'u', 'l', 't', 'S', 'l', 'o', 't', '$', 'j', 'g', '$']
}

pub fn s_local_new_component_with_default_slot() -> (r: Vec<char>)
    ensures
        r@ == n_local_new_component_with_default_slot(),
{
    let v: Vec<char> = vec!['n', 'e', 'w', 'C', 'o', 'm', 'p', 'o', 'n', 'e', 'n', 't', 'W', 'i', 't', 'h', 'D', 'e', 'f', 'a', 'u', 'l', 't', 'S', 'l', 'o', 't', '$', 'j', 'g', '$'];
    proof {
        assert(v@ =~= n_local_new_component_with_default_slot());
    }
    v
}

pub open spec fn n_pub_new_component_with_default_slot() -> Seq<char> {
    seq!['n', 'e', 'w', 'C', 'o', 'm', 'p', 'o', 'n', 'e', 'n', 't', 'W', 'i', 't', 'h', 'D', 'e', 'f', 'a', 'u', 'l', 't', 'S', 'l', 'o', 't']
}

pub fn s_pub_new_component_with_default_slot() -> (r: Vec<char>)
    ensures
        r@ == n_pub_new_component_with_default_slot(),
{
    let v: Vec<char> = vec!['n', 'e', 'w', 'C', 'o', 'm', 'p', 'o', 'n', 'e', 'n', 't', 'W', 'i', 't', 'h', 'D', 'e', 'f', 'a', 'u', 'l', 't', 'S', 'l', 'o', 't'];
    proof {
        assert(v@ =~= n_pub_new_component_with_default_slot());
    }
    v
}

pub open spec fn n_local_new_slot_render_component() -> Seq<char> {
    seq!['n', 'e', 'w', 'S', 'l', 'o', 't', 'R', 'e', 'n', 'd', 'e', 'r', 'C', 'o', 'm', 'p', 'o', 'n', 'e', 'n', 't', '$', 'j', 'g', '$']
}

pub fn s_local_new_slot_render_component() -> (r: Vec<char>)
    ensures
        r@ == n_local_new_slot_render_component(),
{
    let v: Vec<char> = vec!['n', 'e', 'w', 'S', 'l', 'o', 't', 'R', 'e', 'n', 'd', 'e', 'r', 'C', 'o', 'm', 'p', 'o', 'n', 'e', 'n', 't', '$', 'j', 'g', '$'];
    proof {
        assert(v@ =~= n_local_new_slot_render_component());
    }
    v
}

pub open spec fn n_pub_new_slot_render_component() -> Seq<char> {
    seq!['n', 'e', 'w', 'S', 'l', 'o', 't', 'R', 'e', 'n', 'd', 'e', 'r', 'C', 'o', 'm', 'p', 'o', 'n', 'e', 'n', 't']
}

pub fn s_pub_new_slot_render_component() -> (r: Vec<char>)
    ensures
        r@ == n_pub_new_slot_render_component(),
{
    let v: Vec<char> = vec!['n', 'e', 'w', 'S', 'l', 'o', 't', 'R', 'e', 'n', 'd', 'e', 'r', 'C', 'o', 'm', 'p', 'o', 'n', 'e', 'n', 't'];
    proof {
        assert(v@ =~= n_pub_new_slot_render_component());
    }
    v
}

pub open spec fn n_local_render_slot() -> Seq<char> {
    seq!['r', 'e', 'n', 'd', 'e', 'r', 'S', 'l', 'o', 't', '$', 'j', 'g', '$']
}

pub fn s_local_render_slot() -> (r: Vec<char>)
    ensures
        r@ == n_local_render_slot(),
{
    let v: Vec<char> = vec!['r', 'e', 'n', 'd', 'e', 'r', 'S', 'l', 'o', 't', '$', 'j', 'g', '$'];
    proof {
        assert(v@ =~= n_local_render_slot());
    }
    v
}

pub open spec fn n_pub_render_slot() -> Seq<char> {
    seq!['r', 'e', 'n', 'd', 'e', 'r', 'S', 'l', 'o', 't']
}

pub fn s_pub_render_slot() -> (r: Vec<char>)
    ensures
        r@ == n_pub_render_slot(),
{
    let v: Vec<char> = vec!['r', 'e', 'n', 'd', 'e', 'r', 'S', 'l', 'o', 't'];
    proof {
        assert(v@ =~= n_pub_render_slot());
    }
    v
}

pub open spec fn n_local_render_fc() -> Seq<char> {
    seq!['r', 'e', 'n', 'd', 'e', 'r', 'F', 'c', '$', 'j', 'g', '$']
}

pub fn s_local_render_fc() -> (r: Vec<char>)
    ensures
        r@ == n_local_render_fc(),
{
    let v: Vec<char> = vec!['r', 'e', 'n', 'd', 'e', 'r', 'F', 'c', '$', 'j', 'g', '$'];
    proof {
        assert(v@ =~= n_local_render_fc());
    }
    v
}

pub open spec fn n_pub_render_fc() -> Seq<char> {
    seq!['r', 'e', 'n', 'd', 'e', 'r', 'F', 'c']
}

pub fn s_pub_render_fc() -> (r: Vec<char>)
    ensures
        r@ == n_pub_render_fc(),
{
    let v: Vec<char> = vec!['r', 'e', 'n', 'd', 'e', 'r', 'F', 'c'];
    proof {
        assert(v@ =~= n_pub_render_fc());
    }
    v
}

pub open spec fn n_local_render_intl_text() -> Seq<char> {
    seq!['r', 'e', 'n', 'd', 'e', 'r', 'I', 'n', 't', 'l', 'T', 'e', 'x', 't', '$', 'j', 'g', '$']
}

pub fn s_local_render_intl_text() -> (r: Vec<char>)
    ensures
        r@ == n_local_render_intl_text(),
{
    let v: Vec<char> = vec!['r', 'e', 'n', 'd', 'e', 'r', 'I', 'n', 't', 'l', 'T', 'e', 'x', 't', '$', 'j', 'g', '$'];
    proof {
        assert(v@ =~= n_local_render_intl_text());
    }
    v
}

pub open spec fn n_pub_render_intl_text() -> Seq<char> {
    seq!['r', 'e', 'n', 'd', 'e', 'r', 'I', 'n', 't', 'l', 'T', 'e', 'x', 't']
}

pub fn s_pub_render_intl_text() -> (r: Vec<char>)
    ensures
        r@ == n_pub_render_intl_text(),
{
    let v: Vec<char> = vec!['r', 'e', 'n', 'd', 'e', 'r', 'I', 'n', 't', 'l', 'T', 'e', 'x', 't'];
    proof {
        assert(v@ =~= n_pub_render_intl_text());
    }
    v
}

pub open spec fn n_local_render_intl_rich_text() -> Seq<char> {
    seq!['r', 'e', 'n', 'd', 'e', 'r', 'I', 'n', 't', 'l', 'R', 'i', 'c', 'h', 'T', 'e', 'x', 't', '$', 'j', 'g', '$']
}

pub fn s_local_render_intl_rich_text() -> (r: Vec<char>)
    ensures
        r@ == n_local_render_intl_rich_text(),
{
    let v: Vec<char> = vec!['r', 'e', 'n', 'd', 'e', 'r', 'I', 'n', 't', 'l', 'R', 'i', 'c', 'h', 'T', 'e', 'x', 't', '$', 'j', 'g', '$'];
    proof {
        assert(v@ =~= n_local_render_intl_rich_text());
    }
    v
}

pub open spec fn n_pub_render_intl_rich_text() -> Seq<char> {
    seq!['r', 'e', 'n', 'd', 'e', 'r', 'I', 'n', 't', 'l', 'R', 'i', 'c', 'h', 'T', 'e', 'x', 't']
}

pub fn s_pub_render_intl_rich_text() -> (r: Vec<char>)
    ensures
        r@ == n_pub_render_intl_rich_text(),
{
    let v: Vec<char> = vec!['r', 'e', 'n', 'd', 'e', 'r', 'I', 'n', 't', 'l', 'R', 'i', 'c', 'h', 'T', 'e', 'x', 't'];
    proof {
        assert(v@ =~= n_pub_render_intl_rich_text());
    }
    v
}

/// One runtime helper: its public name in the runtime module and the
/// mangled local alias generated code binds it under.
pub struct JingeImport {
    pub imported: Vec<char>,
    pub local: Vec<char>,
}

impl JingeImport {
    /// The local alias generated code refers to.
    pub fn local(&self) -> (r: Vec<char>)
        ensures
            r@ == self.local@,
    {
        crate::sym::sym_dup(&self.local)
    }

    /// The public name to import from the runtime module.
    pub fn imported(&self) -> (r: Vec<char>)
        ensures
            r@ == self.imported@,
    {
        crate::sym::sym_dup(&self.imported)
    }
}

pub open spec fn n_and() -> Seq<char> {
    seq!['&', '&']
}

pub fn s_and() -> (r: Vec<char>)
    ensures
        r@ == n_and(),
{
    let v: Vec<char> = vec!['&', '&'];
    proof {
        assert(v@ =~= n_and());
    }
    v
}

/// The fixed allow-list of attributes assigned through their DOM
/// properties rather than `setAttribute`.
pub open spec fn spec_is_idl_attr(n: Seq<char>) -> bool {
    n == n_disabled() || n == n_read_only() || n == n_auto_focus() || n == n_auto_complete() || n == n_auto_play() || n == n_controls() || n == n_required() || n == n_checked() || n == n_selected() || n == n_multiple() || n == n_muted() || n == n_draggable()
}

pub fn is_idl_attr(name: &Vec<char>) -> (r: bool)
    ensures
        r == spec_is_idl_attr(name@),
{
    crate::sym::sym_eq(name, &s_disabled())
    || crate::sym::sym_eq(name, &s_read_only())
    || crate::sym::sym_eq(name, &s_auto_focus())
    || crate::sym::sym_eq(name, &s_auto_complete())
    || crate::sym::sym_eq(name, &s_auto_play())
    || crate::sym::sym_eq(name, &s_controls())
    || crate::sym::sym_eq(name, &s_required())
    || crate::sym::sym_eq(name, &s_checked())
    || crate::sym::sym_eq(name, &s_selected())
    || crate::sym::sym_eq(name, &s_multiple())
    || crate::sym::sym_eq(name, &s_muted())
    || crate::sym::sym_eq(name, &s_draggable())
}

} // verus!
