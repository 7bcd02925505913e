//! Gameplay animation clips and the clip names they play in the pack.
use vstd::prelude::*;

use crate::settings::same_str;

verus! {

/// Logical clip names used by gameplay.
#[derive(Clone, Copy, Debug, PartialEq, Eq, Structural)]
pub enum ClipId {
    Idle,
    Walk,
    Run,
    JumpStart,
    JumpAir,
    JumpLand,
    JumpFull,
    Attack,
    Interact,
    Hit,
}

pub open spec fn spec_clip_key(c: ClipId) -> &'static str {
    match c {
        ClipId::Idle => "Idle_A",
        ClipId::Walk => "Walking_A",
        ClipId::Run => "Running_A",
        ClipId::JumpStart => "Jump_Start",
        ClipId::JumpAir => "Jump_Idle",
        ClipId::JumpLand => "Jump_Land",
        ClipId::JumpFull => "Jump_Full_Short",
        ClipId::Attack => "Use_Item",
        ClipId::Interact => "Interact",
        ClipId::Hit => "Hit_A",
    }
}

impl ClipId {
    /// The clip's name in the character pack's animation files.
    pub fn key(self) -> (s: &'static str)
        ensures
            s == spec_clip_key(self),
    {
        match self {
            ClipId::Idle => "Idle_A",
            ClipId::Walk => "Walking_A",
            ClipId::Run => "Running_A",
            ClipId::JumpStart => "Jump_Start",
            ClipId::JumpAir => "Jump_Idle",
            ClipId::JumpLand => "Jump_Land",
            ClipId::JumpFull => "Jump_Full_Short",
            ClipId::Attack => "Use_Item",
            ClipId::Interact => "Interact",
            ClipId::Hit => "Hit_A",
        }
    }
}

/// A character's animation state between ticks.
#[derive(Clone, Copy, Debug, PartialEq, Eq, Structural)]
pub struct ClipState {
    pub sitting: bool,
    pub attacking: bool,
    pub interacting: bool,
    /// The one-shot clip playing has run to its end.
    pub oneshot_done: bool,
    pub was_grounded: bool,
}

/// How the character moves over the ground, as the window layer reads it
/// from its velocity and facing: standing, sprinting ahead, backing off,
/// sidestepping left or right, or walking.
#[derive(Clone, Copy, Debug, PartialEq, Eq, Structural)]
pub enum Motion {
    Still,
    Run,
    Back,
    StrafeLeft,
    StrafeRight,
    Walk,
}

/// One tick's input to the clip choice.
#[derive(Clone, Copy, Debug)]
pub struct ClipInput {
    /// The character is the local player (remote ones only idle or jump).
    pub is_local: bool,
    pub sit_toggle: bool,
    pub attack: bool,
    pub interact: bool,
    pub grounded: bool,
    /// The clip the animator is playing.
    pub current: Option<ClipId>,
    pub motion: Motion,
}

/// A clip to start: whether it loops, its playback rate in thousandths
/// (negative plays backwards) and its blend-in time in milliseconds.
#[derive(Clone, Copy, Debug, PartialEq, Eq, Structural)]
pub struct ClipPlay {
    pub clip: ClipId,
    pub looping: bool,
    pub rate_milli: i32,
    pub blend_ms: u32,
}

pub open spec fn play(clip: ClipId, looping: bool, rate_milli: i32, blend_ms: u32) -> Option<ClipPlay> {
    Some(ClipPlay { clip, looping, rate_milli, blend_ms })
}

/// The clip a grounded local character moving like `m` walks with.
pub open spec fn motion_clip(m: Motion) -> Option<ClipPlay> {
    match m {
        Motion::Still => play(ClipId::Idle, true, 1000, 150),
        Motion::Run => play(ClipId::Run, true, 1000, 120),
        Motion::Back => play(ClipId::Walk, true, -1000i32, 120),
        Motion::StrafeLeft => play(ClipId::Walk, true, 900, 120),
        Motion::StrafeRight => play(ClipId::Walk, true, 1050, 120),
        Motion::Walk => play(ClipId::Walk, true, 1000, 120),
    }
}

/// One tick of clip choice: the new state and the clip to start, if any.
/// Sitting toggles (and cancels one-shots); a finished one-shot ends; an
/// attack or interaction starts a one-shot unless sitting or already in
/// it; one-shots and sitting hold; then leaving the ground, landing, the
/// air and the landing clip, remote characters idling, and the ground
/// motion, in this order.
pub open spec fn clip_step(st: ClipState, i: ClipInput) -> (ClipState, Option<ClipPlay>) {
    let sitting = if i.is_local && i.sit_toggle { !st.sitting } else { st.sitting };
    let toggled_on = i.is_local && i.sit_toggle && sitting;
    let attacking = if toggled_on { false } else { st.attacking };
    let interacting = if toggled_on { false } else { st.interacting };
    let attacking = if attacking && st.oneshot_done { false } else { attacking };
    let interacting = if interacting && st.oneshot_done { false } else { interacting };
    let s1 = ClipState { sitting, attacking, interacting, ..st };
    if i.is_local && i.attack && !sitting && !attacking {
        (ClipState { attacking: true, oneshot_done: false, ..s1 }, play(ClipId::Attack, false, 1000, 80))
    } else if i.is_local && i.interact && !sitting && !interacting {
        (ClipState { interacting: true, oneshot_done: false, ..s1 }, play(ClipId::Interact, false, 1000, 80))
    } else if attacking || interacting {
        (s1, None)
    } else if sitting {
        (s1, play(ClipId::Idle, true, 1000, 200))
    } else {
        let grounded = if i.is_local { i.grounded } else { true };
        let s2 = ClipState { was_grounded: grounded, ..s1 };
        if !grounded && st.was_grounded {
            (s2, play(ClipId::JumpStart, false, 1000, 60))
        } else if grounded && !st.was_grounded {
            (s2, play(ClipId::JumpLand, false, 1000, 50))
        } else if !grounded {
            if i.current != Some(ClipId::JumpStart) || st.oneshot_done {
                (s2, play(ClipId::JumpAir, true, 1000, 100))
            } else {
                (s2, None)
            }
        } else if i.current == Some(ClipId::JumpLand) && !st.oneshot_done {
            (s2, None)
        } else if !i.is_local {
            (s2, play(ClipId::Idle, true, 1000, 200))
        } else {
            (s2, motion_clip(i.motion))
        }
    }
}

fn motion_play(m: Motion) -> (r: Option<ClipPlay>)
    ensures
        r == motion_clip(m),
{
    let (clip, rate_milli, blend_ms) = match m {
        Motion::Still => (ClipId::Idle, 1000, 150),
        Motion::Run => (ClipId::Run, 1000, 120),
        Motion::Back => (ClipId::Walk, -1000, 120),
        Motion::StrafeLeft => (ClipId::Walk, 900, 120),
        Motion::StrafeRight => (ClipId::Walk, 1050, 120),
        Motion::Walk => (ClipId::Walk, 1000, 120),
    };
    Some(ClipPlay { clip, looping: true, rate_milli, blend_ms })
}

fn is_clip(current: Option<ClipId>, clip: ClipId) -> (r: bool)
    ensures
        r == (current == Some(clip)),
{
    match current {
        Some(c) => c == clip,
        None => false,
    }
}

impl ClipState {
    /// A character standing on the ground, nothing playing.
    pub fn new() -> (s: ClipState)
        ensures
            !s.sitting && !s.attacking && !s.interacting && s.oneshot_done && s.was_grounded,
    {
        ClipState { sitting: false, attacking: false, interacting: false, oneshot_done: true, was_grounded: true }
    }

    /// Choose this tick's clip: update the state and give the clip to start.
    pub fn choose_clip(&mut self, i: ClipInput) -> (r: Option<ClipPlay>)
        ensures
            (*final(self), r) == clip_step(*old(self), i),
    {
        let st = *self;
        if i.is_local && i.sit_toggle {
            self.sitting = !self.sitting;
            if self.sitting {
                self.attacking = false;
                self.interacting = false;
            }
        }
        if self.attacking && st.oneshot_done {
            self.attacking = false;
        }
        if self.interacting && st.oneshot_done {
            self.interacting = false;
        }
        if i.is_local && i.attack && !self.sitting && !self.attacking {
            self.attacking = true;
            self.oneshot_done = false;
            return Some(ClipPlay { clip: ClipId::Attack, looping: false, rate_milli: 1000, blend_ms: 80 });
        }
        if i.is_local && i.interact && !self.sitting && !self.interacting {
            self.interacting = true;
            self.oneshot_done = false;
            return Some(ClipPlay { clip: ClipId::Interact, looping: false, rate_milli: 1000, blend_ms: 80 });
        }
        if self.attacking || self.interacting {
            return None;
        }
        if self.sitting {
            return Some(ClipPlay { clip: ClipId::Idle, looping: true, rate_milli: 1000, blend_ms: 200 });
        }
        let grounded = if i.is_local { i.grounded } else { true };
        let landed = grounded && !st.was_grounded;
        let left_ground = !grounded && st.was_grounded;
        self.was_grounded = grounded;
        if left_ground {
            return Some(ClipPlay { clip: ClipId::JumpStart, looping: false, rate_milli: 1000, blend_ms: 60 });
        }
        if landed {
            return Some(ClipPlay { clip: ClipId::JumpLand, looping: false, rate_milli: 1000, blend_ms: 50 });
        }
        if !grounded {
            if !is_clip(i.current, ClipId::JumpStart) || st.oneshot_done {
                return Some(ClipPlay { clip: ClipId::JumpAir, looping: true, rate_milli: 1000, blend_ms: 100 });
            }
            return None;
        }
        if is_clip(i.current, ClipId::JumpLand) && !st.oneshot_done {
            return None;
        }
        if !i.is_local {
            return Some(ClipPlay { clip: ClipId::Idle, looping: true, rate_milli: 1000, blend_ms: 200 });
        }
        motion_play(i.motion)
    }

    /// The animator reports whether the one-shot playing has ended.
    pub fn set_oneshot_done(&mut self, done: bool)
        ensures
            *final(self) == (ClipState { oneshot_done: done, ..*old(self) }),
    {
        self.oneshot_done = done;
    }
}

/// Sitting down cancels any attack or interaction and plays the idle clip.
pub proof fn law_sitting_cancels_oneshots(st: ClipState, i: ClipInput)
    requires
        i.is_local && i.sit_toggle && !st.sitting,
    ensures
        clip_step(st, i).0.sitting,
        !clip_step(st, i).0.attacking,
        !clip_step(st, i).0.interacting,
        clip_step(st, i).1 == play(ClipId::Idle, true, 1000, 200),
{
}

/// An attack still playing is not restarted, whatever is pressed.
pub proof fn law_oneshot_not_restarted(st: ClipState, i: ClipInput)
    requires
        st.attacking && !st.oneshot_done,
        !(i.is_local && i.sit_toggle),
    ensures
        clip_step(st, i).0.attacking,
        clip_step(st, i).1 != play(ClipId::Attack, false, 1000, 80),
{
}

/// A seated character only ever idles.
pub proof fn law_seated_idles(st: ClipState, i: ClipInput)
    requires
        st.sitting,
        !(i.is_local && i.sit_toggle),
    ensures
        clip_step(st, i).1 is None || clip_step(st, i).1 == play(ClipId::Idle, true, 1000, 200),
{
}

/// The clips tried in place of `name` when the pack lacks it, in order.
pub open spec fn clip_fallbacks(name: Seq<char>) -> Seq<Seq<char>> {
    if name == "Walking_A"@ {
        seq!["Walking_B"@, "Walking_C"@]
    } else if name == "Running_A"@ {
        seq!["Running_B"@]
    } else if name == "Idle_A"@ {
        seq!["Idle_B"@, "T-Pose"@]
    } else if name == "Use_Item"@ {
        seq!["Throw"@, "Interact"@]
    } else if name == "Jump_Idle"@ {
        seq!["Jump_Full_Short"@]
    } else {
        Seq::empty()
    }
}

/// The place of the clip called `name` among `names`.
pub open spec fn name_index(names: Seq<Seq<char>>, name: Seq<char>) -> Option<int>
    decreases names.len(),
{
    if names.len() == 0 {
        None
    } else if names.last() == name {
        match name_index(names.drop_last(), name) {
            Some(i) => Some(i),
            None => Some(names.len() - 1),
        }
    } else {
        name_index(names.drop_last(), name)
    }
}

/// The first of `tries` that is loaded.
pub open spec fn first_loaded(names: Seq<Seq<char>>, tries: Seq<Seq<char>>) -> Option<int>
    decreases tries.len(),
{
    if tries.len() == 0 {
        None
    } else {
        match name_index(names, tries[0]) {
            Some(i) => Some(i),
            None => first_loaded(names, tries.drop_first()),
        }
    }
}

/// The clip played for `name`: itself if loaded, else its first loaded
/// stand-in.
pub open spec fn resolve_clip(names: Seq<Seq<char>>, name: Seq<char>) -> Option<int> {
    match name_index(names, name) {
        Some(i) => Some(i),
        None => first_loaded(names, clip_fallbacks(name)),
    }
}

/// The names of the loaded animation clips, each once, in load order; the
/// clip data is kept by the animator at the same places.
pub struct AnimLibrary {
    names: Vec<String>,
}

impl AnimLibrary {
    /// The loaded clip names.
    pub closed spec fn names(&self) -> Seq<Seq<char>> {
        self.names@.map_values(|s: String| s@)
    }

    pub fn new() -> (l: AnimLibrary)
        ensures
            l.names() == Seq::<Seq<char>>::empty(),
    {
        let l = AnimLibrary { names: Vec::new() };
        assert(l.names() =~= Seq::<Seq<char>>::empty());
        l
    }

    /// The place of the clip called `name`.
    pub fn index_of(&self, name: &str) -> (r: Option<usize>)
        ensures
            r == (match name_index(self.names(), name@) {
                Some(i) => Some(i as usize),
                None => None,
            }),
            r matches Some(i) ==> i < self.names().len() && name_index(self.names(), name@) == Some(i as int),
            r is None ==> name_index(self.names(), name@) is None,
    {
        let mut i: usize = 0;
        while i < self.names.len()
            invariant
                i <= self.names@.len(),
                forall|k: int| 0 <= k < i ==> self.names()[k] != name@,
            decreases self.names@.len() - i,
        {
            if same_str(self.names[i].as_str(), name) {
                proof {
                    lemma_name_index_first(self.names(), name@, i as int);
                }
                return Some(i);
            }
            i += 1;
        }
        proof {
            lemma_name_index_none(self.names(), name@);
        }
        None
    }

    /// Record a clip called `name` and give its place: a new place at the
    /// end, or the place of the clip it replaces.
    pub fn add(&mut self, name: &str) -> (r: usize)
        ensures
            match name_index(old(self).names(), name@) {
                Some(i) => r == i && final(self).names() == old(self).names(),
                None => r == old(self).names().len() && final(self).names() == old(self).names().push(name@),
            },
    {
        match self.index_of(name) {
            Some(i) => i,
            None => {
                let ghost before = self.names();
                self.names.push(String::from_str(name));
                assert(self.names() =~= before.push(name@));
                self.names.len() - 1
            },
        }
    }

    /// The clip played for `name`, standing in a variant the pack has when
    /// it lacks the one asked for.
    pub fn get(&self, name: &str) -> (r: Option<usize>)
        ensures
            r == (match resolve_clip(self.names(), name@) {
                Some(i) => Some(i as usize),
                None => None,
            }),
    {
        if let Some(i) = self.index_of(name) {
            return Some(i);
        }
        proof {
            reveal_strlit("Walking_A");
            reveal_strlit("Running_A");
            reveal_strlit("Idle_A");
            reveal_strlit("Use_Item");
            reveal_strlit("Jump_Idle");
        }
        if same_str(name, "Walking_A") {
            proof {
                lemma_first_loaded_two(self.names(), "Walking_B"@, "Walking_C"@);
            }
            self.either("Walking_B", "Walking_C")
        } else if same_str(name, "Running_A") {
            proof {
                lemma_first_loaded_one(self.names(), "Running_B"@);
            }
            self.index_of("Running_B")
        } else if same_str(name, "Idle_A") {
            proof {
                lemma_first_loaded_two(self.names(), "Idle_B"@, "T-Pose"@);
            }
            self.either("Idle_B", "T-Pose")
        } else if same_str(name, "Use_Item") {
            proof {
                lemma_first_loaded_two(self.names(), "Throw"@, "Interact"@);
            }
            self.either("Throw", "Interact")
        } else if same_str(name, "Jump_Idle") {
            proof {
                lemma_first_loaded_one(self.names(), "Jump_Full_Short"@);
            }
            self.index_of("Jump_Full_Short")
        } else {
            None
        }
    }

    /// The place of `a`, else of `b`.
    fn either(&self, a: &str, b: &str) -> (r: Option<usize>)
        ensures
            r == (match name_index(self.names(), a@) {
                Some(i) => Some(i as usize),
                None => match name_index(self.names(), b@) {
                    Some(i) => Some(i as usize),
                    None => None,
                },
            }),
    {
        match self.index_of(a) {
            Some(i) => Some(i),
            None => self.index_of(b),
        }
    }

    /// The clip played for a gameplay clip.
    pub fn get_id(&self, id: ClipId) -> (r: Option<usize>)
        ensures
            r == (match resolve_clip(self.names(), spec_clip_key(id)@) {
                Some(i) => Some(i as usize),
                None => None,
            }),
    {
        self.get(id.key())
    }

    /// Whether `name` (or a stand-in) is loaded.
    pub fn contains(&self, name: &str) -> (r: bool)
        ensures
            r == resolve_clip(self.names(), name@) is Some,
    {
        self.get(name).is_some()
    }

    /// How many clips are loaded.
    pub fn len(&self) -> (n: usize)
        ensures
            n == self.names().len(),
    {
        self.names.len()
    }
}

proof fn lemma_first_loaded_one(names: Seq<Seq<char>>, a: Seq<char>)
    ensures
        first_loaded(names, seq![a]) == name_index(names, a),
{
    assert(seq![a].drop_first() =~= Seq::<Seq<char>>::empty());
    assert(seq![a][0] == a);
    assert(first_loaded(names, Seq::<Seq<char>>::empty()) is None);
}

proof fn lemma_first_loaded_two(names: Seq<Seq<char>>, a: Seq<char>, b: Seq<char>)
    ensures
        first_loaded(names, seq![a, b]) == match name_index(names, a) {
            Some(i) => Some(i),
            None => name_index(names, b),
        },
{
    assert(seq![a, b].drop_first() =~= seq![b]);
    assert(seq![a, b][0] == a);
    lemma_first_loaded_one(names, b);
}

proof fn lemma_name_index_first(names: Seq<Seq<char>>, name: Seq<char>, i: int)
    requires
        0 <= i < names.len(),
        names[i] == name,
        forall|k: int| 0 <= k < i ==> names[k] != name,
    ensures
        name_index(names, name) == Some(i),
    decreases names.len(),
{
    if names.len() - 1 > i {
        lemma_name_index_first(names.drop_last(), name, i);
    } else {
        lemma_name_index_none(names.drop_last(), name);
    }
}


proof fn lemma_name_index_none(names: Seq<Seq<char>>, name: Seq<char>)
    requires
        forall|k: int| 0 <= k < names.len() ==> names[k] != name,
    ensures
        name_index(names, name) is None,
    decreases names.len(),
{
    if names.len() > 0 {
        lemma_name_index_none(names.drop_last(), name);
    }
}

} // verus!
