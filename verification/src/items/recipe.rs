//! Crafting and smelting recipes.
use vstd::prelude::*;

use super::catalog::{
    ItemId, AXE, COOKED_MEAT, COPPER_BAR, COPPER_NUGGET, GOLD_BAR, GOLD_NUGGET, IRON, ORE, PICKAXE,
    RAW_MEAT, SILVER_BAR, SILVER_NUGGET, STICK, STONE, STONE_BRICK, SWORD, WOOD, WOOD_PLANK,
};
use super::stack::{new_stack, Stack};

verus! {

/// Where a recipe is made.
#[derive(Clone, Copy, Debug, PartialEq, Eq, Structural)]
pub enum CraftStation {
    Hand,
    Workbench,
    Furnace,
}

#[derive(Clone, Copy, Debug, PartialEq, Eq, Structural)]
pub struct Ingredient {
    pub item: ItemId,
    pub count: u16,
}

impl Ingredient {
    /// The ingredient as a stack (`Stack::from(ingredient)`).
    pub fn to_stack(self) -> (s: Stack)
        ensures
            s == new_stack(self.item, self.count as int),
    {
        Stack::new(self.item, self.count)
    }
}

#[derive(Clone, Copy, Debug)]
pub struct Recipe {
    pub id: u16,
    pub name: &'static str,
    pub station: CraftStation,
    pub inputs: &'static [Ingredient],
    pub output: Ingredient,
    /// Furnace only: 50 ms ticks of fuel and time per item.
    pub smelt_ticks: u32,
}

/// The recipe book, in its fixed order.
pub open spec fn recipe_table() -> Seq<Recipe> {
    seq![
        Recipe { id: 1, name: "Stick x2", station: CraftStation::Hand,
            inputs: &[Ingredient { item: ItemId(WOOD), count: 1 }],
            output: Ingredient { item: ItemId(STICK), count: 2 }, smelt_ticks: 0 },
        Recipe { id: 2, name: "Wooden pickaxe", station: CraftStation::Workbench,
            inputs: &[Ingredient { item: ItemId(STONE), count: 3 },
                Ingredient { item: ItemId(STICK), count: 2 }],
            output: Ingredient { item: ItemId(PICKAXE), count: 1 }, smelt_ticks: 0 },
        Recipe { id: 3, name: "Axe", station: CraftStation::Workbench,
            inputs: &[Ingredient { item: ItemId(STONE), count: 3 },
                Ingredient { item: ItemId(STICK), count: 2 }],
            output: Ingredient { item: ItemId(AXE), count: 1 }, smelt_ticks: 0 },
        Recipe { id: 4, name: "Iron sword", station: CraftStation::Workbench,
            inputs: &[Ingredient { item: ItemId(IRON), count: 2 },
                Ingredient { item: ItemId(STICK), count: 1 }],
            output: Ingredient { item: ItemId(SWORD), count: 1 }, smelt_ticks: 0 },
        Recipe { id: 10, name: "Smelt iron", station: CraftStation::Furnace,
            inputs: &[Ingredient { item: ItemId(ORE), count: 1 }],
            output: Ingredient { item: ItemId(IRON), count: 1 }, smelt_ticks: 80 },
        Recipe { id: 11, name: "Cook meat", station: CraftStation::Furnace,
            inputs: &[Ingredient { item: ItemId(RAW_MEAT), count: 1 }],
            output: Ingredient { item: ItemId(COOKED_MEAT), count: 1 }, smelt_ticks: 50 },
        Recipe { id: 12, name: "Smelt copper", station: CraftStation::Furnace,
            inputs: &[Ingredient { item: ItemId(COPPER_NUGGET), count: 1 }],
            output: Ingredient { item: ItemId(COPPER_BAR), count: 1 }, smelt_ticks: 60 },
        Recipe { id: 13, name: "Smelt silver", station: CraftStation::Furnace,
            inputs: &[Ingredient { item: ItemId(SILVER_NUGGET), count: 1 }],
            output: Ingredient { item: ItemId(SILVER_BAR), count: 1 }, smelt_ticks: 70 },
        Recipe { id: 14, name: "Smelt gold", station: CraftStation::Furnace,
            inputs: &[Ingredient { item: ItemId(GOLD_NUGGET), count: 1 }],
            output: Ingredient { item: ItemId(GOLD_BAR), count: 1 }, smelt_ticks: 90 },
        Recipe { id: 15, name: "Fire brick", station: CraftStation::Furnace,
            inputs: &[Ingredient { item: ItemId(STONE), count: 1 }],
            output: Ingredient { item: ItemId(STONE_BRICK), count: 1 }, smelt_ticks: 40 },
        Recipe { id: 16, name: "Saw planks", station: CraftStation::Workbench,
            inputs: &[Ingredient { item: ItemId(WOOD), count: 1 }],
            output: Ingredient { item: ItemId(WOOD_PLANK), count: 2 }, smelt_ticks: 0 }
    ]
}

/// Index of the first recipe in `rs` that satisfies `p`, if any.
pub open spec fn first_index(rs: Seq<Recipe>, p: spec_fn(Recipe) -> bool) -> Option<int>
    decreases rs.len(),
{
    if rs.len() == 0 {
        None
    } else if p(rs[0]) {
        Some(0)
    } else {
        match first_index(rs.drop_first(), p) {
            Some(k) => Some(k + 1),
            None => None,
        }
    }
}

pub open spec fn first_match(rs: Seq<Recipe>, p: spec_fn(Recipe) -> bool) -> Option<Recipe> {
    match first_index(rs, p) {
        Some(k) => Some(rs[k]),
        None => None,
    }
}

/// A furnace recipe whose first input is `input`.
pub open spec fn smelts(r: Recipe, input: ItemId) -> bool {
    r.station == CraftStation::Furnace && r.inputs@.len() > 0 && r.inputs@[0].item == input
}

pub open spec fn spec_recipe_by_id(id: u16) -> Option<Recipe> {
    first_match(recipe_table(), |r: Recipe| r.id == id)
}

pub open spec fn spec_smelt_of(input: ItemId) -> Option<Recipe> {
    first_match(recipe_table(), |r: Recipe| smelts(r, input))
}

/// The recipe book in its fixed order.
pub fn recipes() -> (r: Vec<Recipe>)
    ensures
        r@ == recipe_table(),
{
    let v = vec![
        Recipe { id: 1, name: "Stick x2", station: CraftStation::Hand,
            inputs: &[Ingredient { item: ItemId(WOOD), count: 1 }],
            output: Ingredient { item: ItemId(STICK), count: 2 }, smelt_ticks: 0 },
        Recipe { id: 2, name: "Wooden pickaxe", station: CraftStation::Workbench,
            inputs: &[Ingredient { item: ItemId(STONE), count: 3 },
                Ingredient { item: ItemId(STICK), count: 2 }],
            output: Ingredient { item: ItemId(PICKAXE), count: 1 }, smelt_ticks: 0 },
        Recipe { id: 3, name: "Axe", station: CraftStation::Workbench,
            inputs: &[Ingredient { item: ItemId(STONE), count: 3 },
                Ingredient { item: ItemId(STICK), count: 2 }],
            output: Ingredient { item: ItemId(AXE), count: 1 }, smelt_ticks: 0 },
        Recipe { id: 4, name: "Iron sword", station: CraftStation::Workbench,
            inputs: &[Ingredient { item: ItemId(IRON), count: 2 },
                Ingredient { item: ItemId(STICK), count: 1 }],
            output: Ingredient { item: ItemId(SWORD), count: 1 }, smelt_ticks: 0 },
        Recipe { id: 10, name: "Smelt iron", station: CraftStation::Furnace,
            inputs: &[Ingredient { item: ItemId(ORE), count: 1 }],
            output: Ingredient { item: ItemId(IRON), count: 1 }, smelt_ticks: 80 },
        Recipe { id: 11, name: "Cook meat", station: CraftStation::Furnace,
            inputs: &[Ingredient { item: ItemId(RAW_MEAT), count: 1 }],
            output: Ingredient { item: ItemId(COOKED_MEAT), count: 1 }, smelt_ticks: 50 },
        Recipe { id: 12, name: "Smelt copper", station: CraftStation::Furnace,
            inputs: &[Ingredient { item: ItemId(COPPER_NUGGET), count: 1 }],
            output: Ingredient { item: ItemId(COPPER_BAR), count: 1 }, smelt_ticks: 60 },
        Recipe { id: 13, name: "Smelt silver", station: CraftStation::Furnace,
            inputs: &[Ingredient { item: ItemId(SILVER_NUGGET), count: 1 }],
            output: Ingredient { item: ItemId(SILVER_BAR), count: 1 }, smelt_ticks: 70 },
        Recipe { id: 14, name: "Smelt gold", station: CraftStation::Furnace,
            inputs: &[Ingredient { item: ItemId(GOLD_NUGGET), count: 1 }],
            output: Ingredient { item: ItemId(GOLD_BAR), count: 1 }, smelt_ticks: 90 },
        Recipe { id: 15, name: "Fire brick", station: CraftStation::Furnace,
            inputs: &[Ingredient { item: ItemId(STONE), count: 1 }],
            output: Ingredient { item: ItemId(STONE_BRICK), count: 1 }, smelt_ticks: 40 },
        Recipe { id: 16, name: "Saw planks", station: CraftStation::Workbench,
            inputs: &[Ingredient { item: ItemId(WOOD), count: 1 }],
            output: Ingredient { item: ItemId(WOOD_PLANK), count: 2 }, smelt_ticks: 0 },
    ];
    assert(v@ =~= recipe_table());
    v
}

/// The recipe with this id.
pub fn recipe_by_id(id: u16) -> (r: Option<Recipe>)
    ensures
        r == spec_recipe_by_id(id),
{
    let all = recipes();
    let mut i: usize = 0;
    while i < all.len()
        invariant
            all@ == recipe_table(),
            i <= all@.len(),
            forall|k: int| 0 <= k < i ==> all@[k].id != id,
        decreases all@.len() - i,
    {
        if all[i].id == id {
            proof { lemma_first_match(all@, |r: Recipe| r.id == id, i as int); }
            return Some(all[i]);
        }
        i += 1;
    }
    proof { lemma_no_match(all@, |r: Recipe| r.id == id); }
    None
}

/// The recipes made at `station`, in book order.
pub fn recipes_for(station: CraftStation) -> (r: Vec<Recipe>)
    ensures
        r@ == recipe_table().filter(|x: Recipe| x.station == station),
{
    let all = recipes();
    let mut out: Vec<Recipe> = Vec::new();
    let mut i: usize = 0;
    while i < all.len()
        invariant
            all@ == recipe_table(),
            i <= all@.len(),
            out@ == all@.take(i as int).filter(|x: Recipe| x.station == station),
        decreases all@.len() - i,
    {
        let r = all[i];
        proof {
            reveal_with_fuel(Seq::<_>::filter, 1);
            assert(all@.take(i + 1).drop_last() =~= all@.take(i as int));
        }
        if r.station == station {
            out.push(r);
        }
        i += 1;
    }
    assert(all@.take(i as int) =~= all@);
    out
}

/// The furnace recipe that smelts `input`, if any.
pub fn smelt_of(input: ItemId) -> (r: Option<Recipe>)
    ensures
        r == spec_smelt_of(input),
{
    let all = recipes();
    let mut i: usize = 0;
    while i < all.len()
        invariant
            all@ == recipe_table(),
            i <= all@.len(),
            forall|k: int| 0 <= k < i ==> !smelts(#[trigger] all@[k], input),
        decreases all@.len() - i,
    {
        let r = all[i];
        if r.station == CraftStation::Furnace && r.inputs.len() > 0 && r.inputs[0].item == input {
            proof { lemma_first_match(all@, |r: Recipe| smelts(r, input), i as int); }
            return Some(r);
        }
        i += 1;
    }
    proof { lemma_no_match(all@, |r: Recipe| smelts(r, input)); }
    None
}

proof fn lemma_first_match(rs: Seq<Recipe>, p: spec_fn(Recipe) -> bool, i: int)
    requires
        0 <= i < rs.len(),
        p(rs[i]),
        forall|k: int| 0 <= k < i ==> !p(#[trigger] rs[k]),
    ensures
        first_index(rs, p) == Some(i),
        first_match(rs, p) == Some(rs[i]),
    decreases i,
{
    if i > 0 {
        lemma_first_match(rs.drop_first(), p, i - 1);
    }
}

proof fn lemma_no_match(rs: Seq<Recipe>, p: spec_fn(Recipe) -> bool)
    requires
        forall|k: int| 0 <= k < rs.len() ==> !p(#[trigger] rs[k]),
    ensures
        first_index(rs, p) == None::<int>,
        first_match(rs, p) == None::<Recipe>,
    decreases rs.len(),
{
    if rs.len() > 0 {
        lemma_no_match(rs.drop_first(), p);
    }
}

proof fn lemma_first_index_in(rs: Seq<Recipe>, p: spec_fn(Recipe) -> bool)
    ensures
        first_index(rs, p) matches Some(k) ==> 0 <= k < rs.len() && p(rs[k]),
    decreases rs.len(),
{
    if rs.len() > 0 && !p(rs[0]) {
        lemma_first_index_in(rs.drop_first(), p);
    }
}

/// A recipe found by id is one of the book's, and its ingredients name
/// pairwise different items.
pub proof fn lemma_recipe_by_id_distinct(id: u16)
    ensures
        spec_recipe_by_id(id) matches Some(r) ==> crate::items::laws::distinct_items(r.inputs@),
{
    let t = recipe_table();
    lemma_first_index_in(t, |r: Recipe| r.id == id);
    assert forall|i: int| 0 <= i < t.len() implies crate::items::laws::distinct_items(#[trigger] t[i].inputs@) by {
    }
}
} // verus!
