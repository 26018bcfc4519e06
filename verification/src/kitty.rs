//! The kitty as a whole: its state, its template store and its bonds in one
//! value, and the operations that callers reach it by. Every operation takes
//! the kitty and, where it needs the time, the time in nanoseconds since the
//! epoch; none reads a clock or keeps anything outside the kitty. A host
//! that serves several callers keeps one kitty and lets one operation run at
//! a time.

use vstd::prelude::*;
use crate::bonds::{KittyBonds, Names};
use crate::catalog::listed;
use crate::clock::{derive_state, first_mood, mood_at, stale, KittyState, Mood};
use crate::corpus::GENERAL;
use crate::greeting::{greeting_text, mood_greeting};
use crate::store::{
    default_corpus, empty_corpus, lemma_default_corpus_loaded, loaded, unloaded, with_adjective,
    with_phrase, with_template, WisdomTemplateStore,
};
use crate::text::text_views;
use crate::wisdom::{craft_wisdom, wisdom_text};

verus! {

/// The kitty: its state, its store and its bonds.
pub struct QuantumKitty {
    /// The state that the clock set last.
    pub state: KittyState,
    /// The templates, adjectives and phrases.
    pub templates: WisdomTemplateStore,
    /// The names that callers gave to the kitty.
    pub bonds: KittyBonds,
}

/// The answer to a greeting: the greeting and the state it was given in.
pub struct QuantumResponse {
    pub greeting: String,
    pub quantum_state: String,
    pub energy_level: u8,
    pub zen_mood: String,
}

/// The answer to a request for wisdom: the wisdom and the state it was given
/// in.
pub struct WisdomResponse {
    pub content: String,
    pub quantum_state: String,
    pub energy_level: u8,
    pub zen_mood: String,
}

/// True where the three fields of an answer say what `mood` is.
pub open spec fn tells(quantum_state: Seq<char>, energy_level: u8, zen_mood: Seq<char>, mood: Mood) -> bool {
    &&& quantum_state == mood.quantum_state.label()
    &&& energy_level == mood.energy_level
    &&& zen_mood == mood.zen_mood.label()
}

/// `mood` as a greeting leaves it at `now`: set anew where it was stale.
pub open spec fn refreshed(mood: Mood, now: u64) -> Mood {
    if stale(mood.last_updated, now) {
        mood_at(now)
    } else {
        mood
    }
}

/// The context that a request for wisdom is about: the first of those it
/// names, or the general one where it names none.
pub open spec fn first_context(contexts: Seq<String>) -> Seq<char> {
    if contexts.len() > 0 {
        contexts[0]@
    } else {
        GENERAL@
    }
}

impl QuantumKitty {
    /// A kitty that no clock has touched, with an empty store and no bonds.
    pub fn new() -> (kitty: QuantumKitty)
        ensures
            kitty.state@ == first_mood(),
            kitty.templates@ == empty_corpus(),
            kitty.bonds@ == Names::empty(),
    {
        QuantumKitty {
            state: KittyState::default(),
            templates: WisdomTemplateStore::new(),
            bonds: KittyBonds::new(),
        }
    }
}

impl Default for QuantumKitty {
    /// A kitty that no clock has touched, with an empty store and no bonds.
    fn default() -> (kitty: QuantumKitty)
        ensures
            kitty.state@ == first_mood(),
            kitty.templates@ == empty_corpus(),
            kitty.bonds@ == Names::empty(),
    {
        QuantumKitty::new()
    }
}

/// Makes sure that the store is loaded: a store without templates gets the
/// default corpus, any other stays as it is. A second call changes nothing.
pub fn ensure_templates_loaded(kitty: &mut QuantumKitty)
    ensures
        final(kitty).templates@ == loaded(old(kitty).templates@),
        !unloaded(final(kitty).templates@),
        final(kitty).state@ == old(kitty).state@,
        final(kitty).bonds@ == old(kitty).bonds@,
{
    kitty.templates.ensure_loaded();
}

/// Sets the kitty up: loads the default corpus in place of whatever the
/// store holds, and sets the state by the clock.
pub fn init(kitty: &mut QuantumKitty, now: u64)
    ensures
        final(kitty).templates@ == default_corpus(),
        final(kitty).state@ == mood_at(now),
        final(kitty).bonds@ == old(kitty).bonds@,
{
    kitty.templates = WisdomTemplateStore::with_defaults();
    proof {
        lemma_default_corpus_loaded();
    }
    update_kitty_state(kitty, now);
}

/// Sets the kitty up again after an upgrade, as `init` does.
pub fn post_upgrade(kitty: &mut QuantumKitty, now: u64)
    ensures
        final(kitty).templates@ == default_corpus(),
        final(kitty).state@ == mood_at(now),
        final(kitty).bonds@ == old(kitty).bonds@,
{
    init(kitty, now);
}

/// Sets the state by the clock, whether it was stale or not, and returns it.
/// Makes sure first that the store is loaded.
pub fn update_kitty_state(kitty: &mut QuantumKitty, now: u64) -> (state: KittyState)
    ensures
        state@ == mood_at(now),
        final(kitty).state@ == mood_at(now),
        final(kitty).templates@ == loaded(old(kitty).templates@),
        final(kitty).bonds@ == old(kitty).bonds@,
{
    ensure_templates_loaded(kitty);
    let state = derive_state(now);
    kitty.state = state;
    state
}

/// Adds `template` to the templates of `context`, unless it is among them.
/// Makes sure first that the store is loaded.
pub fn add_wisdom_template(kitty: &mut QuantumKitty, context: String, template: String)
    ensures
        final(kitty).templates@ == with_template(loaded(old(kitty).templates@), context@, template@),
        final(kitty).state@ == old(kitty).state@,
        final(kitty).bonds@ == old(kitty).bonds@,
{
    ensure_templates_loaded(kitty);
    kitty.templates.add_template(context, template);
}

/// Adds `adjective` to the adjectives of the quantum state named `state`,
/// unless it is among them. Makes sure first that the store is loaded.
pub fn add_quantum_adjective(kitty: &mut QuantumKitty, state: String, adjective: String)
    ensures
        final(kitty).templates@ == with_adjective(loaded(old(kitty).templates@), state@, adjective@),
        final(kitty).state@ == old(kitty).state@,
        final(kitty).bonds@ == old(kitty).bonds@,
{
    ensure_templates_loaded(kitty);
    kitty.templates.add_quantum_adjective(state, adjective);
}

/// Adds `phrase` to the phrases of the zen mood named `mood`, unless it is
/// among them. Makes sure first that the store is loaded.
pub fn add_zen_phrase(kitty: &mut QuantumKitty, mood: String, phrase: String)
    ensures
        final(kitty).templates@ == with_phrase(loaded(old(kitty).templates@), mood@, phrase@),
        final(kitty).state@ == old(kitty).state@,
        final(kitty).bonds@ == old(kitty).bonds@,
{
    ensure_templates_loaded(kitty);
    kitty.templates.add_zen_phrase(mood, phrase);
}

/// The templates of `context`, in the order in which they were added; none
/// where the context is unknown. Makes sure first that the store is loaded.
pub fn get_templates_for_context(kitty: &mut QuantumKitty, context: String) -> (templates: Vec<String>)
    ensures
        text_views(templates@) == listed(loaded(old(kitty).templates@).templates, context@),
        text_views(templates@).no_duplicates(),
        final(kitty).templates@ == loaded(old(kitty).templates@),
        final(kitty).state@ == old(kitty).state@,
        final(kitty).bonds@ == old(kitty).bonds@,
{
    ensure_templates_loaded(kitty);
    kitty.templates.templates_of(&context)
}

/// Wisdom for the first of `contexts`, or for the general context where there
/// is none, in the state that the kitty is in: the state is read, not set
/// anew. Makes sure first that the store is loaded.
pub fn generate_kitty_wisdom(
    kitty: &mut QuantumKitty,
    kitty_name: String,
    contexts: Vec<String>,
    now: u64,
) -> (response: WisdomResponse)
    ensures
        response.content@ == wisdom_text(
            loaded(old(kitty).templates@),
            old(kitty).state@,
            first_context(contexts@),
            Some(kitty_name@),
            now,
        ),
        tells(
            response.quantum_state@,
            response.energy_level,
            response.zen_mood@,
            old(kitty).state@,
        ),
        final(kitty).templates@ == loaded(old(kitty).templates@),
        final(kitty).state@ == old(kitty).state@,
        final(kitty).bonds@ == old(kitty).bonds@,
{
    ensure_templates_loaded(kitty);
    let state = kitty.state;
    let content = if contexts.len() > 0 {
        craft_wisdom(&kitty.templates, &state, contexts[0].as_str(), Some(kitty_name.as_str()), now)
    } else {
        craft_wisdom(&kitty.templates, &state, GENERAL, Some(kitty_name.as_str()), now)
    };
    WisdomResponse {
        content,
        quantum_state: String::from_str(state.quantum_state().name()),
        energy_level: state.energy_level(),
        zen_mood: String::from_str(state.zen_mood().name()),
    }
}

/// Greets `name` in the tone of the kitty's zen mood. A stale state is set
/// anew first, as `update_kitty_state` does; a fresh one is left alone, and
/// then the store is not touched either.
pub fn quantum_greet(kitty: &mut QuantumKitty, name: String, now: u64) -> (response: QuantumResponse)
    ensures
        final(kitty).state@ == refreshed(old(kitty).state@, now),
        final(kitty).templates@ == if stale(old(kitty).state@.last_updated, now) {
            loaded(old(kitty).templates@)
        } else {
            old(kitty).templates@
        },
        final(kitty).bonds@ == old(kitty).bonds@,
        response.greeting@ == greeting_text(refreshed(old(kitty).state@, now).zen_mood, name@, now),
        tells(
            response.quantum_state@,
            response.energy_level,
            response.zen_mood@,
            refreshed(old(kitty).state@, now),
        ),
{
    let state = if kitty.state.is_stale(now) {
        update_kitty_state(kitty, now)
    } else {
        kitty.state
    };
    QuantumResponse {
        greeting: mood_greeting(state.zen_mood(), name.as_str(), now),
        quantum_state: String::from_str(state.quantum_state().name()),
        energy_level: state.energy_level(),
        zen_mood: String::from_str(state.zen_mood().name()),
    }
}

/// Binds `caller`, known by the bytes of its identity, to the name it gives
/// the kitty, in place of the name it gave before, if any.
pub fn save_kitty_name(kitty: &mut QuantumKitty, caller: Vec<u8>, name: String)
    ensures
        final(kitty).bonds@ == old(kitty).bonds@.insert(caller@, name@),
        final(kitty).state@ == old(kitty).state@,
        final(kitty).templates@ == old(kitty).templates@,
{
    kitty.bonds.save(caller, name);
}

/// The name that `caller` gave the kitty; none where it gave none.
pub fn get_kitty_name(kitty: &QuantumKitty, caller: &Vec<u8>) -> (name: Option<String>)
    ensures
        match name {
            Some(n) => kitty.bonds@.contains_key(caller@) && n@ == kitty.bonds@[caller@],
            None => !kitty.bonds@.contains_key(caller@),
        },
{
    kitty.bonds.name_of(caller)
}

} // verus!
