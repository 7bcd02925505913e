//! Hero sheet: attributes, skills, levels and equipment slots.
//!
//! Hit points are fractional and live with the caller; this module keeps the
//! integer sheet and its rules (stat caps, skill experience, level-ups).
use vstd::prelude::*;

use crate::items::catalog::{
    ItemId, COAL, COPPER_NUGGET, GOLD_NUGGET, ORE, SILVER_NUGGET, STICK, STONE, STONE_BRICK, WOOD,
    WOOD_PLANK,
};
use crate::items::stack::{empty_stack, Stack};

verus! {

pub const EQUIP_SLOTS: usize = 6;
pub const STAT_CAP: u8 = 20;
pub const SKILL_CAP: u8 = 50;

#[derive(Clone, Copy, Debug, PartialEq, Eq, Structural)]
pub enum StatId {
    Str,
    Dex,
    Int,
    Vit,
    End,
}

impl StatId {
    pub fn from_u8(v: u8) -> (r: Option<StatId>)
        ensures
            r == (if v == 0 {
                Some(StatId::Str)
            } else if v == 1 {
                Some(StatId::Dex)
            } else if v == 2 {
                Some(StatId::Int)
            } else if v == 3 {
                Some(StatId::Vit)
            } else if v == 4 {
                Some(StatId::End)
            } else {
                None
            }),
    {
        match v {
            0 => Some(StatId::Str),
            1 => Some(StatId::Dex),
            2 => Some(StatId::Int),
            3 => Some(StatId::Vit),
            4 => Some(StatId::End),
            _ => None,
        }
    }

    pub fn name(self) -> (s: &'static str)
        ensures
            s == (match self {
                StatId::Str => "STR",
                StatId::Dex => "DEX",
                StatId::Int => "INT",
                StatId::Vit => "VIT",
                StatId::End => "END",
            }),
    {
        match self {
            StatId::Str => "STR",
            StatId::Dex => "DEX",
            StatId::Int => "INT",
            StatId::Vit => "VIT",
            StatId::End => "END",
        }
    }

    pub fn label(self) -> (s: &'static str)
        ensures
            s == (match self {
                StatId::Str => "STRENGTH",
                StatId::Dex => "DEXTERITY",
                StatId::Int => "INTELLECT",
                StatId::Vit => "VITALITY",
                StatId::End => "ENDURANCE",
            }),
    {
        match self {
            StatId::Str => "STRENGTH",
            StatId::Dex => "DEXTERITY",
            StatId::Int => "INTELLECT",
            StatId::Vit => "VITALITY",
            StatId::End => "ENDURANCE",
        }
    }

    pub fn hint(self) -> (s: &'static str)
        ensures
            s == (match self {
                StatId::Str => "MELEE DAMAGE AND CARRY",
                StatId::Dex => "MOVE SPEED AND AIM",
                StatId::Int => "CRAFT YIELD AND XP",
                StatId::Vit => "HIT POINTS",
                StatId::End => "STAMINA POOL",
            }),
    {
        match self {
            StatId::Str => "MELEE DAMAGE AND CARRY",
            StatId::Dex => "MOVE SPEED AND AIM",
            StatId::Int => "CRAFT YIELD AND XP",
            StatId::Vit => "HIT POINTS",
            StatId::End => "STAMINA POOL",
        }
    }
}

#[derive(Clone, Copy, Debug, PartialEq, Eq, Structural)]
pub enum SkillId {
    Mining,
    Woodcutting,
    Combat,
    Crafting,
    Building,
}

pub open spec fn skill_index(id: SkillId) -> int {
    match id {
        SkillId::Mining => 0,
        SkillId::Woodcutting => 1,
        SkillId::Combat => 2,
        SkillId::Crafting => 3,
        SkillId::Building => 4,
    }
}

impl SkillId {
    pub fn from_u8(v: u8) -> (r: Option<SkillId>)
        ensures
            r == (if v == 0 {
                Some(SkillId::Mining)
            } else if v == 1 {
                Some(SkillId::Woodcutting)
            } else if v == 2 {
                Some(SkillId::Combat)
            } else if v == 3 {
                Some(SkillId::Crafting)
            } else if v == 4 {
                Some(SkillId::Building)
            } else {
                None
            }),
    {
        match v {
            0 => Some(SkillId::Mining),
            1 => Some(SkillId::Woodcutting),
            2 => Some(SkillId::Combat),
            3 => Some(SkillId::Crafting),
            4 => Some(SkillId::Building),
            _ => None,
        }
    }

    pub fn name(self) -> (s: &'static str)
        ensures
            s == (match self {
                SkillId::Mining => "MINING",
                SkillId::Woodcutting => "WOODCUTTING",
                SkillId::Combat => "COMBAT",
                SkillId::Crafting => "CRAFTING",
                SkillId::Building => "BUILDING",
            }),
    {
        match self {
            SkillId::Mining => "MINING",
            SkillId::Woodcutting => "WOODCUTTING",
            SkillId::Combat => "COMBAT",
            SkillId::Crafting => "CRAFTING",
            SkillId::Building => "BUILDING",
        }
    }

    pub fn hint(self) -> (s: &'static str)
        ensures
            s == (match self {
                SkillId::Mining => "BREAK STONE AND ORE",
                SkillId::Woodcutting => "FELL TREES AND HAUL LOGS",
                SkillId::Combat => "SWING WEAPONS",
                SkillId::Crafting => "RECIPES AT HAND AND BENCH",
                SkillId::Building => "PLACE BLOCKS IN THE WORLD",
            }),
    {
        match self {
            SkillId::Mining => "BREAK STONE AND ORE",
            SkillId::Woodcutting => "FELL TREES AND HAUL LOGS",
            SkillId::Combat => "SWING WEAPONS",
            SkillId::Crafting => "RECIPES AT HAND AND BENCH",
            SkillId::Building => "PLACE BLOCKS IN THE WORLD",
        }
    }

    fn index(self) -> (i: usize)
        ensures
            i == skill_index(self),
    {
        match self {
            SkillId::Mining => 0,
            SkillId::Woodcutting => 1,
            SkillId::Combat => 2,
            SkillId::Crafting => 3,
            SkillId::Building => 4,
        }
    }
}

#[derive(Clone, Copy, Debug)]
pub struct Skill {
    pub id: SkillId,
    pub level: u8,
    pub xp: u32,
}

/// Experience a skill at `level` needs for the next level.
pub open spec fn skill_next(level: u8) -> u32 {
    (40 + level * 25) as u32
}

/// Experience the hero at `level` needs for the next level.
pub open spec fn hero_next(level: u8) -> u32 {
    (80 + level * 40) as u32
}

impl Skill {
    pub fn new(id: SkillId) -> (s: Skill)
        ensures
            s.id == id && s.level == 1 && s.xp == 0,
    {
        Skill { id, level: 1, xp: 0 }
    }

    /// Experience needed for the next level.
    pub fn next(self) -> (n: u32)
        ensures
            n == skill_next(self.level),
    {
        40 + self.level as u32 * 25
    }
}

/// Skill level-ups: while below the cap and holding enough experience,
/// pay the next level's price; every fifth level grants a point (saturating).
/// Gives `(level, xp, unspent)`.
pub open spec fn skill_levels(level: u8, xp: u32, unspent: u8) -> (u8, u32, u8)
    decreases SKILL_CAP - level,
{
    if level < SKILL_CAP && xp >= skill_next(level) {
        let l = (level + 1) as u8;
        let u = if l % 5 == 0 { if unspent < 255 { (unspent + 1) as u8 } else { 255u8 } } else { unspent };
        skill_levels(l, (xp - skill_next(level)) as u32, u)
    } else {
        (level, xp, unspent)
    }
}

/// Hero level-ups: each grants one point (saturating).
pub open spec fn hero_levels(level: u8, xp: u32, unspent: u8) -> (u8, u32, u8)
    decreases SKILL_CAP - level,
{
    if level < SKILL_CAP && xp >= hero_next(level) {
        let u = if unspent < 255 { (unspent + 1) as u8 } else { 255u8 };
        hero_levels((level + 1) as u8, (xp - hero_next(level)) as u32, u)
    } else {
        (level, xp, unspent)
    }
}

/// `x` capped at what a `u8` holds.
pub open spec fn capped(x: int) -> int {
    if x > 255 { 255 } else { x }
}

/// Hero level-ups stop only at the cap or short of the next price, never
/// lower the level, and grant one point per level gained (saturating).
pub proof fn law_hero_level_points(level: u8, xp: u32, unspent: u8)
    ensures
        level <= hero_levels(level, xp, unspent).0,
        hero_levels(level, xp, unspent).0 >= SKILL_CAP || hero_levels(level, xp, unspent).1 < hero_next(
            hero_levels(level, xp, unspent).0,
        ),
        hero_levels(level, xp, unspent).2 == capped(unspent + hero_levels(level, xp, unspent).0 - level),
    decreases SKILL_CAP - level,
{
    if level < SKILL_CAP && xp >= hero_next(level) {
        let u = if unspent < 255 { (unspent + 1) as u8 } else { 255u8 };
        law_hero_level_points((level + 1) as u8, (xp - hero_next(level)) as u32, u);
    }
}

/// Skill level-ups stop only at the cap or short of the next price, never
/// lower the level, and grant one point for every fifth level reached
/// (saturating).
pub proof fn law_skill_level_points(level: u8, xp: u32, unspent: u8)
    ensures
        level <= skill_levels(level, xp, unspent).0,
        skill_levels(level, xp, unspent).0 >= SKILL_CAP || skill_levels(level, xp, unspent).1 < skill_next(
            skill_levels(level, xp, unspent).0,
        ),
        skill_levels(level, xp, unspent).2 == capped(
            unspent + skill_levels(level, xp, unspent).0 / 5 - level / 5,
        ),
    decreases SKILL_CAP - level,
{
    if level < SKILL_CAP && xp >= skill_next(level) {
        let l = (level + 1) as u8;
        let u = if l % 5 == 0 { if unspent < 255 { (unspent + 1) as u8 } else { 255u8 } } else { unspent };
        law_skill_level_points(l, (xp - skill_next(level)) as u32, u);
        assert(l / 5 == level / 5 + (if l % 5 == 0 { 1int } else { 0 }));
    }
}

/// The integer hero sheet.
#[derive(Clone, Copy, Debug)]
pub struct Hero {
    pub str: u8,
    pub dex: u8,
    pub int: u8,
    pub vit: u8,
    pub end: u8,
    pub unspent: u8,
    pub skills: [Skill; 5],
    pub level: u8,
    pub xp: u32,
}

pub open spec fn spec_stat(h: Hero, id: StatId) -> u8 {
    match id {
        StatId::Str => h.str,
        StatId::Dex => h.dex,
        StatId::Int => h.int,
        StatId::Vit => h.vit,
        StatId::End => h.end,
    }
}

/// The hero with stat `id` set to `v`.
pub open spec fn with_stat(h: Hero, id: StatId, v: u8) -> Hero {
    match id {
        StatId::Str => Hero { str: v, ..h },
        StatId::Dex => Hero { dex: v, ..h },
        StatId::Int => Hero { int: v, ..h },
        StatId::Vit => Hero { vit: v, ..h },
        StatId::End => Hero { end: v, ..h },
    }
}

/// Experience after the intellect bonus (one per point above 5).
pub open spec fn boosted(intellect: u8, amount: u32) -> int {
    if intellect > 5 { amount + (intellect - 5) } else { amount as int }
}

impl Hero {
    /// A fresh level-1 hero: 5 in every stat, 8 points to spend.
    pub fn new() -> (h: Hero)
        ensures
            h.str == 5 && h.dex == 5 && h.int == 5 && h.vit == 5 && h.end == 5,
            h.unspent == 8,
            h.level == 1,
            h.xp == 0,
            forall|i: int| 0 <= i < 5 ==> (#[trigger] h.skills@[i]).level == 1 && h.skills@[i].xp == 0,
            h.skills@[0].id == SkillId::Mining,
            h.skills@[1].id == SkillId::Woodcutting,
            h.skills@[2].id == SkillId::Combat,
            h.skills@[3].id == SkillId::Crafting,
            h.skills@[4].id == SkillId::Building,
    {
        Hero {
            str: 5,
            dex: 5,
            int: 5,
            vit: 5,
            end: 5,
            unspent: 8,
            skills: [
                Skill::new(SkillId::Mining),
                Skill::new(SkillId::Woodcutting),
                Skill::new(SkillId::Combat),
                Skill::new(SkillId::Crafting),
                Skill::new(SkillId::Building),
            ],
            level: 1,
            xp: 0,
        }
    }

    pub fn stat(&self, id: StatId) -> (v: u8)
        ensures
            v == spec_stat(*self, id),
    {
        match id {
            StatId::Str => self.str,
            StatId::Dex => self.dex,
            StatId::Int => self.int,
            StatId::Vit => self.vit,
            StatId::End => self.end,
        }
    }

    /// Maximum hit points: 80 plus 8 per point of vitality.
    pub fn max_hp(&self) -> (hp: u32)
        ensures
            hp == 80 + 8 * self.vit,
    {
        80 + self.vit as u32 * 8
    }

    /// Maximum stamina: 40 plus 7 per point of endurance.
    pub fn max_stam(&self) -> (st: u32)
        ensures
            st == 40 + 7 * self.end,
    {
        40 + self.end as u32 * 7
    }

    /// Carry capacity: 40 plus 4 per point of strength.
    pub fn carry(&self) -> (c: u16)
        ensures
            c == 40 + 4 * self.str,
    {
        40 + self.str as u16 * 4
    }

    /// Experience needed for the next hero level.
    pub fn next_level(&self) -> (n: u32)
        ensures
            n == hero_next(self.level),
    {
        80 + self.level as u32 * 40
    }

    /// Spend one point on a stat. Refused without points or at the cap.
    /// (The caller grants 8 hit points when vitality was raised.)
    pub fn spend(&mut self, id: StatId) -> (ok: bool)
        ensures
            ok == (old(self).unspent > 0 && spec_stat(*old(self), id) < STAT_CAP),
            ok ==> *final(self) == (Hero {
                unspent: (old(self).unspent - 1) as u8,
                ..with_stat(*old(self), id, (spec_stat(*old(self), id) + 1) as u8)
            }),
            !ok ==> *final(self) == *old(self),
    {
        if self.unspent == 0 {
            return false;
        }
        let v = self.stat(id);
        if v >= STAT_CAP {
            return false;
        }
        match id {
            StatId::Str => self.str = v + 1,
            StatId::Dex => self.dex = v + 1,
            StatId::Int => self.int = v + 1,
            StatId::Vit => self.vit = v + 1,
            StatId::End => self.end = v + 1,
        }
        self.unspent = self.unspent - 1;
        true
    }

    /// Train a skill: intellect above 5 adds to the amount; the skill levels
    /// up while it can (every fifth level grants a point), and the hero gains
    /// a third of the amount (at least 1) and levels up likewise.
    pub fn add_skill_xp(&mut self, id: SkillId, amount: u32)
        requires
            old(self).skills@[skill_index(id)].xp + boosted(old(self).int, amount) <= u32::MAX,
            old(self).xp + boosted(old(self).int, amount) / 3 + 1 <= u32::MAX,
        ensures
            ({
                let a = boosted(old(self).int, amount) as u32;
                let s = old(self).skills@[skill_index(id)];
                let sk = skill_levels(s.level, (s.xp + a) as u32, old(self).unspent);
                let gain = if a / 3 > 1 { a / 3 } else { 1 };
                let hero = hero_levels(old(self).level, (old(self).xp + gain) as u32, sk.2);
                &&& final(self).skills@ == old(self).skills@.update(
                    skill_index(id),
                    Skill { id: s.id, level: sk.0, xp: sk.1 },
                )
                &&& final(self).level == hero.0
                &&& final(self).xp == hero.1
                &&& final(self).unspent == hero.2
                &&& final(self).str == old(self).str && final(self).dex == old(self).dex
                &&& final(self).int == old(self).int && final(self).vit == old(self).vit
                &&& final(self).end == old(self).end
            }),
    {
        let boost: u32 = if self.int > 5 { amount + (self.int as u32 - 5) } else { amount };
        let i = id.index();
        let mut s = self.skills[i];
        s.xp = s.xp + boost;
        let mut unspent = self.unspent;
        while s.level < SKILL_CAP && s.xp >= s.next()
            invariant
                skill_levels(s.level, s.xp, unspent) == skill_levels(
                    old(self).skills@[skill_index(id)].level,
                    (old(self).skills@[skill_index(id)].xp + boost) as u32,
                    old(self).unspent,
                ),
                i == skill_index(id),
                boost == boosted(old(self).int, amount),
                s.id == old(self).skills@[skill_index(id)].id,
                *self == *old(self),
            decreases SKILL_CAP - s.level,
        {
            s.xp = s.xp - s.next();
            s.level = s.level + 1;
            if s.level % 5 == 0 {
                unspent = if unspent < 255 { unspent + 1 } else { 255 };
            }
        }
        self.skills[i] = s;
        let third = boost / 3;
        self.xp = self.xp + if third > 1 { third } else { 1 };
        while self.level < SKILL_CAP && self.xp >= self.next_level()
            invariant
                hero_levels(self.level, self.xp, unspent) == hero_levels(
                    old(self).level,
                    (old(self).xp + (if boost / 3 > 1 { boost / 3 } else { 1 })) as u32,
                    skill_levels(
                        old(self).skills@[skill_index(id)].level,
                        (old(self).skills@[skill_index(id)].xp + boost) as u32,
                        old(self).unspent,
                    ).2,
                ),
                self.skills@ == old(self).skills@.update(skill_index(id), s),
                s.id == old(self).skills@[skill_index(id)].id,
                skill_levels(s.level, s.xp, 0) == (s.level, s.xp, 0u8),
                self.str == old(self).str && self.dex == old(self).dex && self.int == old(self).int,
                self.vit == old(self).vit && self.end == old(self).end,
            decreases SKILL_CAP - self.level,
        {
            self.xp = self.xp - self.next_level();
            self.level = self.level + 1;
            unspent = if unspent < 255 { unspent + 1 } else { 255 };
        }
        self.unspent = unspent;
    }
}

/// What the equipment slot `slot` holds.
#[derive(Clone, Copy, Debug, PartialEq, Eq, Structural)]
pub enum EquipKind {
    /// Not an equipment slot.
    Nothing,
    Head,
    Chest,
    Hands,
    Legs,
    Weapon,
    Offhand,
}

pub fn equip_kind(slot: usize) -> (k: EquipKind)
    ensures
        k == (if slot == 0 {
            EquipKind::Head
        } else if slot == 1 {
            EquipKind::Chest
        } else if slot == 2 {
            EquipKind::Hands
        } else if slot == 3 {
            EquipKind::Legs
        } else if slot == 4 {
            EquipKind::Weapon
        } else if slot == 5 {
            EquipKind::Offhand
        } else {
            EquipKind::Nothing
        }),
{
    match slot {
        0 => EquipKind::Head,
        1 => EquipKind::Chest,
        2 => EquipKind::Hands,
        3 => EquipKind::Legs,
        4 => EquipKind::Weapon,
        5 => EquipKind::Offhand,
        _ => EquipKind::Nothing,
    }
}

pub fn equip_label(slot: usize) -> (s: &'static str)
    ensures
        s == (if slot == 0 {
            "HEAD"
        } else if slot == 1 {
            "CHEST"
        } else if slot == 2 {
            "HANDS"
        } else if slot == 3 {
            "LEGS"
        } else if slot == 4 {
            "WEAPON"
        } else if slot == 5 {
            "OFFHAND"
        } else {
            ""
        }),
{
    match slot {
        0 => "HEAD",
        1 => "CHEST",
        2 => "HANDS",
        3 => "LEGS",
        4 => "WEAPON",
        5 => "OFFHAND",
        _ => "",
    }
}

/// Six empty equipment slots.
pub fn empty_equip() -> (r: [Stack; EQUIP_SLOTS])
    ensures
        forall|i: int| 0 <= i < EQUIP_SLOTS ==> #[trigger] r@[i] == empty_stack(),
{
    [Stack::empty(), Stack::empty(), Stack::empty(), Stack::empty(), Stack::empty(), Stack::empty()]
}

/// Which skill harvesting `item` trains, and how much.
pub fn harvest_skill(item: ItemId) -> (r: Option<(SkillId, u32)>)
    ensures
        r == (if item.0 == STONE || item.0 == ORE || item.0 == COAL || item.0 == STONE_BRICK
            || item.0 == COPPER_NUGGET || item.0 == SILVER_NUGGET || item.0 == GOLD_NUGGET {
            Some((SkillId::Mining, 4u32))
        } else if item.0 == WOOD || item.0 == STICK || item.0 == WOOD_PLANK {
            Some((SkillId::Woodcutting, 4u32))
        } else {
            None
        }),
{
    let n = item.0;
    if n == STONE || n == ORE || n == COAL || n == STONE_BRICK || n == COPPER_NUGGET || n == SILVER_NUGGET
        || n == GOLD_NUGGET {
        Some((SkillId::Mining, 4))
    } else if n == WOOD || n == STICK || n == WOOD_PLANK {
        Some((SkillId::Woodcutting, 4))
    } else {
        None
    }
}

impl Default for Hero {
    fn default() -> (h: Self)
        ensures
            h.str == 5 && h.dex == 5 && h.int == 5 && h.vit == 5 && h.end == 5,
            h.unspent == 8,
            h.level == 1,
            h.xp == 0,
            forall|i: int| 0 <= i < 5 ==> (#[trigger] h.skills@[i]).level == 1 && h.skills@[i].xp == 0,
            h.skills@[0].id == SkillId::Mining,
            h.skills@[1].id == SkillId::Woodcutting,
            h.skills@[2].id == SkillId::Combat,
            h.skills@[3].id == SkillId::Crafting,
            h.skills@[4].id == SkillId::Building,
    {
        Hero::new()
    }
}

} // verus!
