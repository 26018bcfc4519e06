//! The clock: from a timestamp in nanoseconds since the epoch to the kitty's
//! mood. The quantum state turns every four hours, the zen mood every six,
//! the energy level every half hour.

use vstd::prelude::*;

verus! {

/// Nanoseconds in a second.
pub const NANOS_PER_SECOND: u64 = 1_000_000_000;

/// Seconds in an hour.
pub const SECONDS_PER_HOUR: u64 = 3_600;

/// Hours that one quantum state lasts.
pub const QUANTUM_STATE_HOURS: u64 = 4;

/// Hours that one zen mood lasts.
pub const ZEN_MOOD_HOURS: u64 = 6;

/// Seconds that one energy level lasts.
pub const ENERGY_SECONDS: u64 = 1_800;

/// The lowest energy level.
pub const MIN_ENERGY: u8 = 1;

/// The highest energy level.
pub const MAX_ENERGY: u8 = 10;

/// A mood older than this many nanoseconds, half an hour, is stale.
pub const STALE_AFTER_NANOS: u64 = 1_800_000_000_000;

/// The names of the five quantum states.
pub const SUPERPOSITION: &'static str = "Superposition";

pub const ENTANGLED: &'static str = "Entangled";

pub const COHERENT: &'static str = "Coherent";

pub const RESONATING: &'static str = "Resonating";

pub const FOLDED: &'static str = "Folded";

/// The names of the five zen moods.
pub const TRANQUIL: &'static str = "Tranquil";

pub const CONTEMPLATIVE: &'static str = "Contemplative";

pub const PLAYFUL: &'static str = "Playful";

pub const MYSTERIOUS: &'static str = "Mysterious";

pub const ENLIGHTENED: &'static str = "Enlightened";

/// The slow state of the kitty, in the order in which the clock walks it.
#[derive(Clone, Copy, Debug, PartialEq, Eq, Structural)]
pub enum QuantumState {
    Superposition,
    Entangled,
    Coherent,
    Resonating,
    Folded,
}

/// The tone in which the kitty speaks, in the order in which the clock walks
/// it.
#[derive(Clone, Copy, Debug, PartialEq, Eq, Structural)]
pub enum ZenMood {
    Tranquil,
    Contemplative,
    Playful,
    Mysterious,
    Enlightened,
}

impl QuantumState {
    /// The state at place `index` of the cycle of five.
    pub open spec fn nth(index: int) -> QuantumState {
        if index == 0 {
            QuantumState::Superposition
        } else if index == 1 {
            QuantumState::Entangled
        } else if index == 2 {
            QuantumState::Coherent
        } else if index == 3 {
            QuantumState::Resonating
        } else {
            QuantumState::Folded
        }
    }

    /// The place of this state in the cycle, from 0.
    pub open spec fn place(self) -> int {
        match self {
            QuantumState::Superposition => 0,
            QuantumState::Entangled => 1,
            QuantumState::Coherent => 2,
            QuantumState::Resonating => 3,
            QuantumState::Folded => 4,
        }
    }

    /// The name of this state, as text.
    pub open spec fn label(self) -> Seq<char> {
        match self {
            QuantumState::Superposition => SUPERPOSITION@,
            QuantumState::Entangled => ENTANGLED@,
            QuantumState::Coherent => COHERENT@,
            QuantumState::Resonating => RESONATING@,
            QuantumState::Folded => FOLDED@,
        }
    }

    /// The state that a name stands for, if it is the name of one.
    pub open spec fn labelled(name: Seq<char>) -> Option<QuantumState> {
        if name == SUPERPOSITION@ {
            Some(QuantumState::Superposition)
        } else if name == ENTANGLED@ {
            Some(QuantumState::Entangled)
        } else if name == COHERENT@ {
            Some(QuantumState::Coherent)
        } else if name == RESONATING@ {
            Some(QuantumState::Resonating)
        } else if name == FOLDED@ {
            Some(QuantumState::Folded)
        } else {
            None
        }
    }

    /// The state that the cycle has reached after `turns` turns.
    pub fn after(turns: u64) -> (state: QuantumState)
        ensures
            state == QuantumState::nth(turns as int % 5),
    {
        let place: u64 = turns % 5;
        if place == 0 {
            QuantumState::Superposition
        } else if place == 1 {
            QuantumState::Entangled
        } else if place == 2 {
            QuantumState::Coherent
        } else if place == 3 {
            QuantumState::Resonating
        } else {
            QuantumState::Folded
        }
    }

    /// The place of this state in the cycle, from 0.
    pub fn index(&self) -> (place: u8)
        ensures
            place == self.place(),
            QuantumState::nth(place as int) == *self,
    {
        match self {
            QuantumState::Superposition => 0,
            QuantumState::Entangled => 1,
            QuantumState::Coherent => 2,
            QuantumState::Resonating => 3,
            QuantumState::Folded => 4,
        }
    }

    /// The name of this state.
    pub fn name(&self) -> (name: &'static str)
        ensures
            name@ == self.label(),
    {
        match self {
            QuantumState::Superposition => SUPERPOSITION,
            QuantumState::Entangled => ENTANGLED,
            QuantumState::Coherent => COHERENT,
            QuantumState::Resonating => RESONATING,
            QuantumState::Folded => FOLDED,
        }
    }

    /// Reads a state from its name.
    pub fn from_name(name: &String) -> (state: Option<QuantumState>)
        ensures
            state == QuantumState::labelled(name@),
    {
        if *name == String::from_str(SUPERPOSITION) {
            Some(QuantumState::Superposition)
        } else if *name == String::from_str(ENTANGLED) {
            Some(QuantumState::Entangled)
        } else if *name == String::from_str(COHERENT) {
            Some(QuantumState::Coherent)
        } else if *name == String::from_str(RESONATING) {
            Some(QuantumState::Resonating)
        } else if *name == String::from_str(FOLDED) {
            Some(QuantumState::Folded)
        } else {
            None
        }
    }
}

impl ZenMood {
    /// The mood at place `index` of the cycle of five.
    pub open spec fn nth(index: int) -> ZenMood {
        if index == 0 {
            ZenMood::Tranquil
        } else if index == 1 {
            ZenMood::Contemplative
        } else if index == 2 {
            ZenMood::Playful
        } else if index == 3 {
            ZenMood::Mysterious
        } else {
            ZenMood::Enlightened
        }
    }

    /// The place of this mood in the cycle, from 0.
    pub open spec fn place(self) -> int {
        match self {
            ZenMood::Tranquil => 0,
            ZenMood::Contemplative => 1,
            ZenMood::Playful => 2,
            ZenMood::Mysterious => 3,
            ZenMood::Enlightened => 4,
        }
    }

    /// The name of this mood, as text.
    pub open spec fn label(self) -> Seq<char> {
        match self {
            ZenMood::Tranquil => TRANQUIL@,
            ZenMood::Contemplative => CONTEMPLATIVE@,
            ZenMood::Playful => PLAYFUL@,
            ZenMood::Mysterious => MYSTERIOUS@,
            ZenMood::Enlightened => ENLIGHTENED@,
        }
    }

    /// The mood that a name stands for, if it is the name of one.
    pub open spec fn labelled(name: Seq<char>) -> Option<ZenMood> {
        if name == TRANQUIL@ {
            Some(ZenMood::Tranquil)
        } else if name == CONTEMPLATIVE@ {
            Some(ZenMood::Contemplative)
        } else if name == PLAYFUL@ {
            Some(ZenMood::Playful)
        } else if name == MYSTERIOUS@ {
            Some(ZenMood::Mysterious)
        } else if name == ENLIGHTENED@ {
            Some(ZenMood::Enlightened)
        } else {
            None
        }
    }

    /// The mood that the cycle has reached after `turns` turns.
    pub fn after(turns: u64) -> (mood: ZenMood)
        ensures
            mood == ZenMood::nth(turns as int % 5),
    {
        let place: u64 = turns % 5;
        if place == 0 {
            ZenMood::Tranquil
        } else if place == 1 {
            ZenMood::Contemplative
        } else if place == 2 {
            ZenMood::Playful
        } else if place == 3 {
            ZenMood::Mysterious
        } else {
            ZenMood::Enlightened
        }
    }

    /// The place of this mood in the cycle, from 0.
    pub fn index(&self) -> (place: u8)
        ensures
            place == self.place(),
            ZenMood::nth(place as int) == *self,
    {
        match self {
            ZenMood::Tranquil => 0,
            ZenMood::Contemplative => 1,
            ZenMood::Playful => 2,
            ZenMood::Mysterious => 3,
            ZenMood::Enlightened => 4,
        }
    }

    /// The name of this mood.
    pub fn name(&self) -> (name: &'static str)
        ensures
            name@ == self.label(),
    {
        match self {
            ZenMood::Tranquil => TRANQUIL,
            ZenMood::Contemplative => CONTEMPLATIVE,
            ZenMood::Playful => PLAYFUL,
            ZenMood::Mysterious => MYSTERIOUS,
            ZenMood::Enlightened => ENLIGHTENED,
        }
    }

    /// Reads a mood from its name.
    pub fn from_name(name: &String) -> (mood: Option<ZenMood>)
        ensures
            mood == ZenMood::labelled(name@),
    {
        if *name == String::from_str(TRANQUIL) {
            Some(ZenMood::Tranquil)
        } else if *name == String::from_str(CONTEMPLATIVE) {
            Some(ZenMood::Contemplative)
        } else if *name == String::from_str(PLAYFUL) {
            Some(ZenMood::Playful)
        } else if *name == String::from_str(MYSTERIOUS) {
            Some(ZenMood::Mysterious)
        } else if *name == String::from_str(ENLIGHTENED) {
            Some(ZenMood::Enlightened)
        } else {
            None
        }
    }
}

/// The whole seconds that `now` holds.
pub open spec fn seconds_of(now: u64) -> int {
    now as int / NANOS_PER_SECOND as int
}

/// The whole hours that `now` holds.
pub open spec fn hours_of(now: u64) -> int {
    seconds_of(now) / SECONDS_PER_HOUR as int
}

/// The quantum state at `now`.
pub open spec fn quantum_state_at(now: u64) -> QuantumState {
    QuantumState::nth((hours_of(now) / QUANTUM_STATE_HOURS as int) % 5)
}

/// The zen mood at `now`.
pub open spec fn zen_mood_at(now: u64) -> ZenMood {
    ZenMood::nth((hours_of(now) / ZEN_MOOD_HOURS as int) % 5)
}

/// The energy level at `now`.
pub open spec fn energy_level_at(now: u64) -> int {
    (seconds_of(now) / ENERGY_SECONDS as int) % 10 + 1
}

/// What a kitty state says: the mathematical record behind `KittyState`.
pub struct Mood {
    pub quantum_state: QuantumState,
    pub energy_level: int,
    pub zen_mood: ZenMood,
    pub last_updated: u64,
}

/// The mood that the clock shows at `now`.
pub open spec fn mood_at(now: u64) -> Mood {
    Mood {
        quantum_state: quantum_state_at(now),
        energy_level: energy_level_at(now),
        zen_mood: zen_mood_at(now),
        last_updated: now,
    }
}

/// The mood of a kitty that no clock has touched yet.
pub open spec fn first_mood() -> Mood {
    Mood {
        quantum_state: QuantumState::Superposition,
        energy_level: 5,
        zen_mood: ZenMood::Tranquil,
        last_updated: 0,
    }
}

/// True where a mood taken at `last_updated` is more than half an hour old at
/// `now`.
pub open spec fn stale(last_updated: u64, now: u64) -> bool {
    now - last_updated > STALE_AFTER_NANOS
}

/// The state of the kitty: its quantum state, its energy level from 1 to 10,
/// its zen mood, and the time at which the clock last set them.
#[derive(Clone, Copy, Debug, PartialEq, Eq)]
pub struct KittyState {
    quantum_state: QuantumState,
    energy_level: u8,
    zen_mood: ZenMood,
    last_updated: u64,
}

impl View for KittyState {
    type V = Mood;

    closed spec fn view(&self) -> Mood {
        Mood {
            quantum_state: self.quantum_state,
            energy_level: self.energy_level as int,
            zen_mood: self.zen_mood,
            last_updated: self.last_updated,
        }
    }
}

impl KittyState {
    #[verifier::type_invariant]
    spec fn inv(self) -> bool {
        MIN_ENERGY <= self.energy_level <= MAX_ENERGY
    }

    /// A state made of the given parts, where the energy level is one from 1
    /// to 10; none otherwise.
    pub fn from_parts(
        quantum_state: QuantumState,
        energy_level: u8,
        zen_mood: ZenMood,
        last_updated: u64,
    ) -> (state: Option<KittyState>)
        ensures
            state is Some <==> MIN_ENERGY <= energy_level <= MAX_ENERGY,
            state matches Some(s) ==> s@ == (Mood {
                quantum_state,
                energy_level: energy_level as int,
                zen_mood,
                last_updated,
            }),
    {
        if MIN_ENERGY <= energy_level && energy_level <= MAX_ENERGY {
            Some(KittyState { quantum_state, energy_level, zen_mood, last_updated })
        } else {
            None
        }
    }

    /// The quantum state.
    pub fn quantum_state(&self) -> (quantum_state: QuantumState)
        ensures
            quantum_state == self@.quantum_state,
    {
        self.quantum_state
    }

    /// The energy level, from 1 to 10.
    pub fn energy_level(&self) -> (energy_level: u8)
        ensures
            energy_level == self@.energy_level,
            MIN_ENERGY <= energy_level <= MAX_ENERGY,
    {
        proof {
            use_type_invariant(self);
        }
        self.energy_level
    }

    /// The zen mood.
    pub fn zen_mood(&self) -> (zen_mood: ZenMood)
        ensures
            zen_mood == self@.zen_mood,
    {
        self.zen_mood
    }

    /// The time, in nanoseconds since the epoch, at which the clock set this
    /// state; 0 where it never did.
    pub fn last_updated(&self) -> (last_updated: u64)
        ensures
            last_updated == self@.last_updated,
    {
        self.last_updated
    }

    /// Whether this state is stale at `now`: set more than half an hour
    /// before it. A state set at `now` or later is fresh.
    pub fn is_stale(&self, now: u64) -> (is_stale: bool)
        ensures
            is_stale == stale(self@.last_updated, now),
    {
        now > self.last_updated && now - self.last_updated > STALE_AFTER_NANOS
    }
}

impl Default for KittyState {
    /// The state before the clock first sets it: stale at every time later
    /// than half an hour after the epoch.
    fn default() -> (state: KittyState)
        ensures
            state@ == first_mood(),
    {
        KittyState {
            quantum_state: QuantumState::Superposition,
            energy_level: 5,
            zen_mood: ZenMood::Tranquil,
            last_updated: 0,
        }
    }
}

/// The state that the clock shows at `now`, nanoseconds since the epoch.
pub fn derive_state(now: u64) -> (state: KittyState)
    ensures
        state@ == mood_at(now),
        MIN_ENERGY <= state@.energy_level <= MAX_ENERGY,
{
    let seconds: u64 = now / NANOS_PER_SECOND;
    let hours: u64 = seconds / SECONDS_PER_HOUR;
    let quantum_state = QuantumState::after(hours / QUANTUM_STATE_HOURS);
    let zen_mood = ZenMood::after(hours / ZEN_MOOD_HOURS);
    let energy: u64 = (seconds / ENERGY_SECONDS) % 10 + 1;
    KittyState { quantum_state, energy_level: energy as u8, zen_mood, last_updated: now }
}

/// The five quantum states have five different names, and each name leads back to
/// its own.
pub proof fn lemma_quantum_state_names_distinct()
    ensures
        SUPERPOSITION@ != ENTANGLED@,
        SUPERPOSITION@ != COHERENT@,
        SUPERPOSITION@ != RESONATING@,
        SUPERPOSITION@ != FOLDED@,
        ENTANGLED@ != COHERENT@,
        ENTANGLED@ != RESONATING@,
        ENTANGLED@ != FOLDED@,
        COHERENT@ != RESONATING@,
        COHERENT@ != FOLDED@,
        RESONATING@ != FOLDED@,
        forall|a: QuantumState| QuantumState::labelled(#[trigger] a.label()) == Some(a),
{
    reveal_strlit("Superposition");
    reveal_strlit("Entangled");
    reveal_strlit("Coherent");
    reveal_strlit("Resonating");
    reveal_strlit("Folded");
    assert(SUPERPOSITION@.len() != ENTANGLED@.len());
    assert(SUPERPOSITION@.len() != COHERENT@.len());
    assert(SUPERPOSITION@.len() != RESONATING@.len());
    assert(SUPERPOSITION@.len() != FOLDED@.len());
    assert(ENTANGLED@.len() != COHERENT@.len());
    assert(ENTANGLED@.len() != RESONATING@.len());
    assert(ENTANGLED@.len() != FOLDED@.len());
    assert(COHERENT@.len() != RESONATING@.len());
    assert(COHERENT@.len() != FOLDED@.len());
    assert(RESONATING@.len() != FOLDED@.len());
}

/// The five zen moods have five different names, and each name leads back to
/// its own.
pub proof fn lemma_zen_mood_names_distinct()
    ensures
        TRANQUIL@ != CONTEMPLATIVE@,
        TRANQUIL@ != PLAYFUL@,
        TRANQUIL@ != MYSTERIOUS@,
        TRANQUIL@ != ENLIGHTENED@,
        CONTEMPLATIVE@ != PLAYFUL@,
        CONTEMPLATIVE@ != MYSTERIOUS@,
        CONTEMPLATIVE@ != ENLIGHTENED@,
        PLAYFUL@ != MYSTERIOUS@,
        PLAYFUL@ != ENLIGHTENED@,
        MYSTERIOUS@ != ENLIGHTENED@,
        forall|a: ZenMood| ZenMood::labelled(#[trigger] a.label()) == Some(a),
{
    reveal_strlit("Tranquil");
    reveal_strlit("Contemplative");
    reveal_strlit("Playful");
    reveal_strlit("Mysterious");
    reveal_strlit("Enlightened");
    assert(TRANQUIL@.len() != CONTEMPLATIVE@.len());
    assert(TRANQUIL@.len() != PLAYFUL@.len());
    assert(TRANQUIL@.len() != MYSTERIOUS@.len());
    assert(TRANQUIL@.len() != ENLIGHTENED@.len());
    assert(CONTEMPLATIVE@.len() != PLAYFUL@.len());
    assert(CONTEMPLATIVE@.len() != MYSTERIOUS@.len());
    assert(CONTEMPLATIVE@.len() != ENLIGHTENED@.len());
    assert(PLAYFUL@.len() != MYSTERIOUS@.len());
    assert(PLAYFUL@.len() != ENLIGHTENED@.len());
    assert(MYSTERIOUS@.len() != ENLIGHTENED@.len());
}

/// The energy level lies between 1 and 10 at every time.
pub proof fn lemma_energy_level_in_range(now: u64)
    ensures
        MIN_ENERGY <= energy_level_at(now) <= MAX_ENERGY,
        MIN_ENERGY <= mood_at(now).energy_level <= MAX_ENERGY,
{
}

/// The clock is a function of the time alone: the same time shows the same
/// mood.
pub proof fn lemma_same_time_same_mood(first: u64, second: u64)
    requires
        first == second,
    ensures
        mood_at(first) == mood_at(second),
{
}

/// The quantum state is the same at two times that lie in the same stretch of
/// four hours, counted from the epoch.
pub proof fn lemma_quantum_state_steady(first: u64, second: u64)
    requires
        hours_of(first) / 4 == hours_of(second) / 4,
    ensures
        quantum_state_at(first) == quantum_state_at(second),
{
}

/// The zen mood is the same at two times that lie in the same stretch of six
/// hours, counted from the epoch.
pub proof fn lemma_zen_mood_steady(first: u64, second: u64)
    requires
        hours_of(first) / 6 == hours_of(second) / 6,
    ensures
        zen_mood_at(first) == zen_mood_at(second),
{
}

/// The energy level is the same at two times that lie in the same half hour,
/// counted from the epoch.
pub proof fn lemma_energy_level_steady(first: u64, second: u64)
    requires
        seconds_of(first) / 1800 == seconds_of(second) / 1800,
    ensures
        energy_level_at(first) == energy_level_at(second),
{
}

/// A stretch of four hours is 14 400 seconds, one of six hours 21 600: the
/// stretches of the two cycles, in seconds.
pub proof fn lemma_stretches_in_seconds(now: u64)
    ensures
        hours_of(now) / 4 == seconds_of(now) / 14_400,
        hours_of(now) / 6 == seconds_of(now) / 21_600,
{
}

/// A state is stale from one nanosecond past the half hour on, and not before.
pub proof fn lemma_stale_edge(last_updated: u64, now: u64)
    ensures
        now <= last_updated + STALE_AFTER_NANOS ==> !stale(last_updated, now),
        now > last_updated + STALE_AFTER_NANOS ==> stale(last_updated, now),
        stale(0, now) <==> now > STALE_AFTER_NANOS,
{
}

} // verus!
