//! Runtime address resolution: the engine image is loaded at one contiguous
//! base, found from the observed address of one known symbol.
use vstd::prelude::*;

verus! {

/// The base of the image: the symbol's observed address less its recorded
/// offset, modulo the address space.
pub open spec fn base_of(symbol_address: usize, reference_offset: usize) -> usize {
    vstd::wrapping::usize_specs::wrapping_sub(symbol_address, reference_offset)
}

/// The address of an entry point recorded at `offset` from the image base,
/// modulo the address space.
pub open spec fn entry_of(base: usize, offset: usize) -> usize {
    vstd::wrapping::usize_specs::wrapping_add(base, offset)
}

/// The image base from the observed address of the reference symbol.
pub fn relocation_base(symbol_address: usize, reference_offset: usize) -> (r: usize)
    ensures
        r == base_of(symbol_address, reference_offset),
{
    symbol_address.wrapping_sub(reference_offset)
}

/// The runtime address of the entry point recorded at `offset`.
pub fn entry_address(base: usize, offset: usize) -> (r: usize)
    ensures
        r == entry_of(base, offset),
{
    base.wrapping_add(offset)
}

/// Resolves every target offset against the base found from the reference
/// symbol; returns the base and the target addresses, in order.
pub fn resolve(symbol_address: usize, reference_offset: usize, target_offsets: &Vec<usize>) -> (r: (
    usize,
    Vec<usize>,
))
    ensures
        r.0 == base_of(symbol_address, reference_offset),
        r.1@.len() == target_offsets@.len(),
        forall|i: int|
            0 <= i < target_offsets@.len() ==> #[trigger] r.1@[i] == entry_of(
                r.0,
                target_offsets@[i],
            ),
{
    let base = relocation_base(symbol_address, reference_offset);
    let mut addresses: Vec<usize> = Vec::new();
    let mut i: usize = 0;
    while i < target_offsets.len()
        invariant
            i <= target_offsets@.len(),
            addresses@.len() == i,
            forall|j: int| 0 <= j < i ==> #[trigger] addresses@[j] == entry_of(base, target_offsets@[j]),
        decreases target_offsets@.len() - i,
    {
        let a = entry_address(base, target_offsets[i]);
        addresses.push(a);
        i = i + 1;
    }
    (base, addresses)
}

/// With a symbol address `a` at or above its recorded offset `r`, and no
/// wrap past the top of the address space, the entry point recorded at `t`
/// resolves to exactly `(a - r) + t`.
pub proof fn lemma_resolution_exact(a: usize, r: usize, t: usize)
    requires
        0 < r <= a,
        0 < t,
        (a - r) + t <= usize::MAX,
    ensures
        entry_of(base_of(a, r), t) == (a - r) + t,
{
}

/// For every symbol address `a`, reference offset `r` and target offset `t`,
/// the resolved target is `(a - r) + t` taken modulo the size of the address
/// space.
pub proof fn lemma_resolution_modular(a: usize, r: usize, t: usize)
    ensures
        entry_of(base_of(a, r), t) as int == ((a - r) + t) % (usize::MAX + 1),
{
    let m = usize::MAX + 1;
    let x = (a - r) + t;
    let b = base_of(a, r) as int;
    let e = entry_of(base_of(a, r), t) as int;
    if a >= r {
        if b + t > usize::MAX {
            vstd::arithmetic::div_mod::lemma_fundamental_div_mod_converse(x, m, 1, e);
        } else {
            vstd::arithmetic::div_mod::lemma_fundamental_div_mod_converse(x, m, 0, e);
        }
    } else {
        if b + t > usize::MAX {
            vstd::arithmetic::div_mod::lemma_fundamental_div_mod_converse(x, m, 0, e);
        } else {
            vstd::arithmetic::div_mod::lemma_fundamental_div_mod_converse(x, m, -1, e);
        }
    }
}

} // verus!
