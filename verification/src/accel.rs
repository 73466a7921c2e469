//! Global accelerator registration.
//!
//! Hotkeys are registered with the OS through a native handler; what
//! this layer decides is the fixed integer encoding of the modifier
//! bitmask (shift 512, super 256, alt 2048, control 4096) and the fan
//! out of one hotkey to a registration per scan code, since one logical
//! key may answer to several scan codes.  The native registration calls
//! themselves happen at the shell edge, one per entry returned here.

use vstd::prelude::*;

verus! {

/// Which modifier keys a hotkey requires.
#[derive(Clone, Copy, Debug, PartialEq, Eq, Structural)]
pub struct ModifiersState {
    pub shift: bool,
    pub control: bool,
    pub alt: bool,
    pub super_key: bool,
}

/// The native handler's integer encoding of a modifier set.
pub open spec fn spec_modifier_mask(m: ModifiersState) -> u32 {
    spec_modifier_sum(m) as u32
}

/// The mask as a plain sum; the four addends are disjoint bits, so the
/// sum never exceeds 6912 and the cast above is exact.
pub open spec fn spec_modifier_sum(m: ModifiersState) -> int {
    (if m.shift {
        512int
    } else {
        0int
    }) + (if m.super_key {
        256int
    } else {
        0int
    }) + (if m.alt {
        2048int
    } else {
        0int
    }) + (if m.control {
        4096int
    } else {
        0int
    })
}

/// Converts a modifier set to the native handler's bitmask encoding.
pub fn convert_modifiers(m: &ModifiersState) -> (mask: u32)
    ensures
        mask == spec_modifier_mask(*m),
{
    let mut mask: u32 = 0;
    if m.shift {
        mask = mask + 512;
    }
    if m.super_key {
        mask = mask + 256;
    }
    if m.alt {
        mask = mask + 2048;
    }
    if m.control {
        mask = mask + 4096;
    }
    mask
}

/// A hotkey to register: its identifier, its modifiers, and the
/// platform scan codes of its key.
#[derive(Clone, Debug, PartialEq)]
pub struct HotKey {
    pub id: i32,
    pub mods: ModifiersState,
    pub scan_codes: Vec<i32>,
}

/// One native registration request: the arguments of one hotkey
/// registration call.
#[derive(Clone, Copy, Debug, PartialEq, Eq, Structural)]
pub struct Registration {
    pub id: i32,
    pub modifiers: u32,
    pub scan_code: i32,
}

/// The registrations one hotkey expands to: one per scan code, all
/// bound to the same identifier.
pub open spec fn spec_hotkey_registrations(h: HotKey) -> Seq<Registration> {
    h.scan_codes@.map_values(
        |sc: i32| Registration { id: h.id, modifiers: spec_modifier_mask(h.mods), scan_code: sc },
    )
}

/// The registrations a whole hotkey list expands to, in order.
pub open spec fn spec_all_registrations(hs: Seq<HotKey>) -> Seq<Registration>
    decreases hs.len(),
{
    if hs.len() == 0 {
        Seq::empty()
    } else {
        spec_all_registrations(hs.drop_last()) + spec_hotkey_registrations(hs.last())
    }
}

/// Expands one hotkey: a registration per scan code, same identifier
/// and mask throughout.
pub fn hotkey_registrations(h: &HotKey) -> (r: Vec<Registration>)
    ensures
        r@ == spec_hotkey_registrations(*h),
{
    let mask = convert_modifiers(&h.mods);
    let mut out: Vec<Registration> = Vec::new();
    let n = h.scan_codes.len();
    for i in 0..n
        invariant
            n == h.scan_codes@.len(),
            mask == spec_modifier_mask(h.mods),
            out@.len() == i,
            forall|j: int|
                0 <= j < i ==> out@[j] == (Registration {
                    id: h.id,
                    modifiers: spec_modifier_mask(h.mods),
                    scan_code: h.scan_codes@[j],
                }),
    {
        out.push(Registration { id: h.id, modifiers: mask, scan_code: h.scan_codes[i] });
    }
    proof {
        assert(out@ =~= spec_hotkey_registrations(*h));
    }
    out
}

/// Expands every hotkey into its native registration requests, in
/// order; the shell edge performs one registration call per entry.
pub fn register_global_accelerators(all_hotkeys: Vec<HotKey>) -> (r: Vec<Registration>)
    ensures
        r@ == spec_all_registrations(all_hotkeys@),
{
    let mut out: Vec<Registration> = Vec::new();
    let n = all_hotkeys.len();
    for i in 0..n
        invariant
            n == all_hotkeys@.len(),
            out@ == spec_all_registrations(all_hotkeys@.take(i as int)),
    {
        let mut regs = hotkey_registrations(&all_hotkeys[i]);
        proof {
            assert(all_hotkeys@.take(i as int + 1).drop_last() =~= all_hotkeys@.take(i as int));
            assert(all_hotkeys@.take(i as int + 1).last() == all_hotkeys@[i as int]);
        }
        out.append(&mut regs);
    }
    proof {
        assert(all_hotkeys@.take(n as int) =~= all_hotkeys@);
    }
    out
}

} // verus!
