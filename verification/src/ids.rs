//! Identifiers of the virtual accessibility nodes that menus and tool palettes
//! publish for their rows and buttons. A widget identifier is a `u64`.
use vstd::prelude::*;
use vstd::arithmetic::div_mod::{lemma_add_mod_noop, lemma_mod_mod, lemma_small_mod};

verus! {

/// 2^64, the modulus of wrapping `u64` arithmetic.
pub open spec fn u64_modulus() -> int {
    0x1_0000_0000_0000_0000
}

/// The running hash of a menu path: starting from the parent identifier, each
/// index `i` maps the value `v` to `(v * 257 + i + 1) mod 2^64`.
pub open spec fn menu_path_hash(parent: u64, path: Seq<usize>) -> int
    decreases path.len(),
{
    if path.len() == 0 {
        parent as int
    } else {
        (menu_path_hash(parent, path.drop_last()) * 257 + path.last() + 1) % u64_modulus()
    }
}

/// The identifier of the menu row reached by `path` below `parent`: the path
/// hash with the top bit set.
pub open spec fn spec_menu_path_id(parent: u64, path: Seq<usize>) -> u64 {
    (menu_path_hash(parent, path) as u64) | 0x8000_0000_0000_0000u64
}

/// The identifier of button `index` of the tool palette `parent`: bit 52 set,
/// over the low 50 bits of `parent * 397 + index + 1`.
pub open spec fn spec_tool_palette_item_id(parent: u64, index: usize) -> u64 {
    (0x10_0000_0000_0000int + (parent * 397 + index + 1) % 0x4_0000_0000_0000int) as u64
}

/// Every index of the path fits the `+ 1` step of the hash.
pub open spec fn menu_path_fits(path: Seq<usize>) -> bool {
    forall|i: int| 0 <= i < path.len() ==> #[trigger] path[i] < u64::MAX
}

proof fn lemma_menu_path_hash_bounded(parent: u64, path: Seq<usize>)
    ensures
        0 <= menu_path_hash(parent, path) < u64_modulus(),
    decreases path.len(),
{
    if path.len() > 0 {
        lemma_menu_path_hash_bounded(parent, path.drop_last());
    }
}

/// `value * factor + index + 1` computed with wrapping machine arithmetic.
fn wrapping_mix(value: u64, factor: u64, index: usize) -> (r: u64)
    requires
        index < u64::MAX,
    ensures
        r as int == (value * factor + index + 1) % u64_modulus(),
{
    let scaled = value.wrapping_mul(factor);
    let step = index as u64 + 1;
    let r = scaled.wrapping_add(step);
    proof {
        let m = u64_modulus();
        assert(scaled as int == (value * factor) % m);
        assert(r as int == (scaled + step) % m) by {
            if scaled + step > u64::MAX {
                lemma_small_mod((scaled + step - m) as nat, m as nat);
                assert(((scaled + step - m) + m) % m == (scaled + step - m) % m) by {
                    vstd::arithmetic::div_mod::lemma_mod_add_multiples_vanish(
                        scaled + step - m,
                        m,
                    );
                }
            } else {
                lemma_small_mod((scaled + step) as nat, m as nat);
            }
        }
        lemma_small_mod(step as nat, m as nat);
        lemma_add_mod_noop(value * factor, step as int, m);
    }
    r
}

/// Identifier of the virtual node for the row at `path` (one index per menu
/// level) of the menu owned by `parent`.
pub fn virtual_menu_item_path_id(parent: u64, path: &[usize]) -> (r: u64)
    requires
        menu_path_fits(path@),
    ensures
        r == spec_menu_path_id(parent, path@),
{
    let mut value = parent;
    let mut i: usize = 0;
    while i < path.len()
        invariant
            i <= path.len(),
            menu_path_fits(path@),
            value as int == menu_path_hash(parent, path@.subrange(0, i as int)),
        decreases path.len() - i,
    {
        assert(path@.subrange(0, i + 1).drop_last() == path@.subrange(0, i as int));
        value = wrapping_mix(value, 257, path[i]);
        i = i + 1;
    }
    assert(path@.subrange(0, path.len() as int) == path@);
    value | 0x8000_0000_0000_0000u64
}

/// Identifier of the virtual node for row `index` of the menu owned by
/// `parent`; the same as the path identifier of the one-level path `[index]`.
pub fn virtual_menu_item_id(parent: u64, index: usize) -> (r: u64)
    requires
        index < u64::MAX,
    ensures
        r == spec_menu_path_id(parent, seq![index]),
{
    let path = [index];
    proof {
        assert(path@ == seq![index]);
    }
    virtual_menu_item_path_id(parent, &path)
}

/// Identifier of the virtual node for button `index` of the tool palette
/// `parent`.
pub fn tool_palette_item_id(parent: u64, index: usize) -> (r: u64)
    requires
        index < u64::MAX,
    ensures
        r == spec_tool_palette_item_id(parent, index),
{
    let tag: u64 = 4u64 << 50u64;
    let low_bound: u64 = 1u64 << 50u64;
    assert(low_bound == 0x4_0000_0000_0000u64) by (bit_vector)
        requires low_bound == 1u64 << 50u64;
    let low_mask: u64 = low_bound - 1;
    let mixed = wrapping_mix(parent, 397, index);
    let r = tag | (mixed & low_mask);
    proof {
        assert(tag == 0x10_0000_0000_0000u64) by (bit_vector)
            requires tag == 4u64 << 50u64;
        let low = mixed & low_mask;
        assert(low == mixed % 0x4_0000_0000_0000u64) by (bit_vector)
            requires low == mixed & low_mask, low_mask == 0x3_FFFF_FFFF_FFFFu64;
        assert(r == tag + low) by (bit_vector)
            requires
                r == tag | low,
                tag == 0x10_0000_0000_0000u64,
                low == mixed % 0x4_0000_0000_0000u64;
        lemma_mod_mod(parent * 397 + index + 1, 0x4_0000_0000_0000int, 0x4000int);
        assert(0x4_0000_0000_0000int * 0x4000int == u64_modulus());
    }
    r
}

proof fn lemma_mod_window_injective(x: int, y: int, m: int)
    requires
        0 < m,
        x <= y < x + m,
        x % m == y % m,
    ensures
        x == y,
{
    vstd::arithmetic::div_mod::lemma_fundamental_div_mod(x, m);
    vstd::arithmetic::div_mod::lemma_fundamental_div_mod(y, m);
    let qx = x / m;
    let qy = y / m;
    assert(y - x == m * (qy - qx)) by (nonlinear_arith)
        requires
            x == m * qx + x % m,
            y == m * qy + y % m,
            x % m == y % m;
    assert(qy - qx == 0) by (nonlinear_arith)
        requires
            0 < m,
            0 <= y - x < m,
            y - x == m * (qy - qx);
}

/// Every menu row identifier has its top bit set.
pub proof fn lemma_menu_ids_have_top_bit(parent: u64, path: Seq<usize>)
    ensures
        spec_menu_path_id(parent, path) >= 0x8000_0000_0000_0000u64,
{
    let h = menu_path_hash(parent, path) as u64;
    assert((h | 0x8000_0000_0000_0000u64) >= 0x8000_0000_0000_0000u64) by (bit_vector);
}

/// Tool palette button identifiers never coincide with menu row identifiers.
pub proof fn lemma_tool_and_menu_ids_disjoint(
    palette: u64,
    index: usize,
    menu: u64,
    path: Seq<usize>,
)
    ensures
        spec_tool_palette_item_id(palette, index) != spec_menu_path_id(menu, path),
{
    lemma_menu_ids_have_top_bit(menu, path);
    assert((palette * 397 + index + 1) % 0x4_0000_0000_0000int < 0x4_0000_0000_0000int);
}

/// Two buttons of one tool palette whose indices differ (and stay below 2^50)
/// get different identifiers.
pub proof fn lemma_tool_palette_item_ids_distinct(parent: u64, i: usize, j: usize)
    requires
        i != j,
        i < 0x4_0000_0000_0000int,
        j < 0x4_0000_0000_0000int,
    ensures
        spec_tool_palette_item_id(parent, i) != spec_tool_palette_item_id(parent, j),
{
    let m = 0x4_0000_0000_0000int;
    let a = parent * 397 + 1;
    if spec_tool_palette_item_id(parent, i) == spec_tool_palette_item_id(parent, j) {
        assert((a + i) % m == (a + j) % m);
        if i < j {
            lemma_mod_window_injective(a + i, a + j, m);
        } else {
            lemma_mod_window_injective(a + j, a + i, m);
        }
    }
}

proof fn lemma_single_hash(parent: u64, i: usize)
    ensures
        menu_path_hash(parent, seq![i]) == (parent * 257 + i + 1) % u64_modulus(),
        0 <= menu_path_hash(parent, seq![i]) < u64_modulus(),
{
    assert(seq![i].drop_last() == Seq::<usize>::empty());
    assert(seq![i].last() == i);
    assert(menu_path_hash(parent, Seq::<usize>::empty()) == parent as int);
    assert(menu_path_hash(parent, seq![i].drop_last()) == parent as int);
    assert(menu_path_hash(parent, seq![i]) == (menu_path_hash(parent, seq![i].drop_last()) * 257
        + seq![i].last() + 1) % u64_modulus());
    lemma_menu_path_hash_bounded(parent, seq![i]);
}

proof fn lemma_reduce_top(v: int)
    ensures
        (v % u64_modulus()) % 0x8000_0000_0000_0000int == v % 0x8000_0000_0000_0000int,
{
    lemma_mod_mod(v, 0x8000_0000_0000_0000int, 2);
    assert(0x8000_0000_0000_0000int * 2 == u64_modulus());
}

proof fn lemma_or_top_low_bits(x: u64, y: u64)
    requires
        (x | 0x8000_0000_0000_0000u64) == (y | 0x8000_0000_0000_0000u64),
    ensures
        x % 0x8000_0000_0000_0000u64 == y % 0x8000_0000_0000_0000u64,
{
    assert(x % 0x8000_0000_0000_0000u64 == y % 0x8000_0000_0000_0000u64) by (bit_vector)
        requires
            (x | 0x8000_0000_0000_0000u64) == (y | 0x8000_0000_0000_0000u64);
}

/// Two rows of one menu level whose indices differ (and stay below 2^63) get
/// different identifiers.
pub proof fn lemma_menu_item_ids_distinct(parent: u64, i: usize, j: usize)
    requires
        i != j,
        i < 0x8000_0000_0000_0000int,
        j < 0x8000_0000_0000_0000int,
    ensures
        spec_menu_path_id(parent, seq![i]) != spec_menu_path_id(parent, seq![j]),
{
    let top = 0x8000_0000_0000_0000int;
    let a = parent * 257 + 1;
    lemma_single_hash(parent, i);
    lemma_single_hash(parent, j);
    let hi = menu_path_hash(parent, seq![i]);
    let hj = menu_path_hash(parent, seq![j]);
    if spec_menu_path_id(parent, seq![i]) == spec_menu_path_id(parent, seq![j]) {
        lemma_or_top_low_bits(hi as u64, hj as u64);
        assert(hi % top == hj % top);
        lemma_reduce_top(a + i);
        lemma_reduce_top(a + j);
        assert((a + i) % top == (a + j) % top);
        if i < j {
            lemma_mod_window_injective(a + i, a + j, top);
        } else {
            lemma_mod_window_injective(a + j, a + i, top);
        }
    }
}

} // verus!
