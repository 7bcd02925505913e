//! Station kinds and per-slot rules.
//!
//! `StationKind` is stored on the wire as a `u8`. [`SlotRole`] decides whether
//! a stack may land in a given slot (furnace input vs fuel vs output).
use vstd::prelude::*;

use super::catalog::{spec_def, CHEST_SLOTS, FURNACE_SLOTS};
use super::recipe::{smelt_of, spec_smelt_of, CraftStation};
use super::stack::{is_empty_stack, Stack};

verus! {

#[derive(Clone, Copy, Debug, PartialEq, Eq, Structural)]
pub enum StationKind {
    Chest,
    Furnace,
    Workbench,
}

/// What a single station (or bag) slot may hold.
#[derive(Clone, Copy, Debug, PartialEq, Eq, Structural)]
pub enum SlotRole {
    /// Player bag or chest: any stack.
    Any,
    /// Furnace input: only items with a smelt recipe.
    SmeltInput,
    /// Furnace fuel: items whose catalog fuel is positive.
    Fuel,
    /// Furnace output: take only, placing is refused.
    Output,
}

pub open spec fn spec_kind_from_u8(v: u8) -> StationKind {
    if v == 1 {
        StationKind::Furnace
    } else if v == 2 {
        StationKind::Workbench
    } else {
        StationKind::Chest
    }
}

pub open spec fn spec_kind_as_u8(k: StationKind) -> u8 {
    match k {
        StationKind::Chest => 0,
        StationKind::Furnace => 1,
        StationKind::Workbench => 2,
    }
}

pub open spec fn spec_kind_slots(k: StationKind) -> usize {
    match k {
        StationKind::Chest => CHEST_SLOTS,
        StationKind::Furnace => FURNACE_SLOTS,
        StationKind::Workbench => 0,
    }
}

pub open spec fn spec_craft_station(k: StationKind) -> Option<CraftStation> {
    match k {
        StationKind::Workbench => Some(CraftStation::Workbench),
        StationKind::Furnace => Some(CraftStation::Furnace),
        StationKind::Chest => None,
    }
}

pub open spec fn spec_slot_role(k: StationKind, i: usize) -> SlotRole {
    match k {
        StationKind::Furnace => if i == 0 {
            SlotRole::SmeltInput
        } else if i == 1 {
            SlotRole::Fuel
        } else {
            SlotRole::Output
        },
        _ => SlotRole::Any,
    }
}

pub open spec fn spec_accepts(role: SlotRole, s: Stack) -> bool {
    if is_empty_stack(s) {
        true
    } else {
        match role {
            SlotRole::Any => true,
            SlotRole::SmeltInput => spec_smelt_of(s.item) is Some,
            SlotRole::Fuel => spec_def(s.item).fuel > 0,
            SlotRole::Output => false,
        }
    }
}

impl StationKind {
    /// Decode a wire value; unknown values read as a chest.
    pub fn from_u8(v: u8) -> (k: StationKind)
        ensures
            k == spec_kind_from_u8(v),
    {
        match v {
            1 => StationKind::Furnace,
            2 => StationKind::Workbench,
            _ => StationKind::Chest,
        }
    }

    pub fn as_u8(self) -> (v: u8)
        ensures
            v == spec_kind_as_u8(self),
    {
        match self {
            StationKind::Chest => 0,
            StationKind::Furnace => 1,
            StationKind::Workbench => 2,
        }
    }

    /// Number of storage slots.
    pub fn slots(self) -> (n: usize)
        ensures
            n == spec_kind_slots(self),
    {
        match self {
            StationKind::Chest => CHEST_SLOTS,
            StationKind::Furnace => FURNACE_SLOTS,
            StationKind::Workbench => 0,
        }
    }

    pub fn name(self) -> (s: &'static str)
        ensures
            s == (match self {
                StationKind::Chest => "Chest",
                StationKind::Furnace => "Furnace",
                StationKind::Workbench => "Workbench",
            }),
    {
        match self {
            StationKind::Chest => "Chest",
            StationKind::Furnace => "Furnace",
            StationKind::Workbench => "Workbench",
        }
    }

    /// The crafting station this kind offers, if any.
    pub fn craft_station(self) -> (c: Option<CraftStation>)
        ensures
            c == spec_craft_station(self),
    {
        match self {
            StationKind::Workbench => Some(CraftStation::Workbench),
            StationKind::Furnace => Some(CraftStation::Furnace),
            StationKind::Chest => None,
        }
    }

    /// Role of station slot `i`. Bag slots are always [`SlotRole::Any`].
    pub fn slot_role(self, i: usize) -> (r: SlotRole)
        ensures
            r == spec_slot_role(self, i),
    {
        match self {
            StationKind::Chest => SlotRole::Any,
            StationKind::Workbench => SlotRole::Any,
            StationKind::Furnace => if i == 0 {
                SlotRole::SmeltInput
            } else if i == 1 {
                SlotRole::Fuel
            } else {
                SlotRole::Output
            },
        }
    }
}

impl SlotRole {
    /// True if `stack` may be put here. Empty stacks are always accepted.
    pub fn accepts(self, stack: Stack) -> (r: bool)
        ensures
            r == spec_accepts(self, stack),
    {
        if stack.is_empty() {
            return true;
        }
        match self {
            SlotRole::Any => true,
            SlotRole::SmeltInput => smelt_of(stack.item).is_some(),
            SlotRole::Fuel => stack.item.def().fuel > 0,
            SlotRole::Output => false,
        }
    }

    pub fn label(self) -> (s: &'static str)
        ensures
            s == (match self {
                SlotRole::Any => "",
                SlotRole::SmeltInput => "in",
                SlotRole::Fuel => "fuel",
                SlotRole::Output => "out",
            }),
    {
        match self {
            SlotRole::Any => "",
            SlotRole::SmeltInput => "in",
            SlotRole::Fuel => "fuel",
            SlotRole::Output => "out",
        }
    }
}

/// Reading back a written station kind gives the same kind.
pub proof fn law_kind_wire_roundtrip(k: StationKind)
    ensures
        spec_kind_from_u8(spec_kind_as_u8(k)) == k,
{
}

} // verus!
