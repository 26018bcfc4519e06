//! The default corpus: the templates, adjectives and phrases that a store
//! holds before anyone adds to it.

use vstd::prelude::*;
use crate::catalog::{lemma_filed_all_fresh, Catalog, Lists};
use crate::clock::{
    lemma_quantum_state_names_distinct, lemma_zen_mood_names_distinct, COHERENT, CONTEMPLATIVE,
    ENLIGHTENED, ENTANGLED, FOLDED, MYSTERIOUS, PLAYFUL, RESONATING, SUPERPOSITION, TRANQUIL,
};
use crate::text::str_views;

verus! {

/// The context that serves where no other does.
pub const GENERAL: &'static str = "general";

/// The context of birthdays.
pub const BIRTHDAY: &'static str = "birthday";

/// The context of teams.
pub const TEAM: &'static str = "team";

/// The context of a user who comes back.
pub const REUNION: &'static str = "reunion";

/// The context of a new bond.
pub const BONDING: &'static str = "bonding";

/// The templates, context by context.
pub const GENERAL_1: &'static str = "{kitty} observes your presence with {quantum} awareness. The path reveals itself one paw print at a time. {zen}";

pub const GENERAL_2: &'static str = "In the space between thoughts, {kitty} finds infinite {quantum} possibilities. Your journey continues to unfold beautifully. {zen}";

pub const GENERAL_3: &'static str = "The {quantum} observer changes what is observed. {kitty} sees your potential across multiple dimensions. {zen}";

pub const GENERAL_4: &'static str = "When you pet {kitty}, ripples of {quantum} energy spread throughout the universe. {zen}";

pub const GENERAL_5: &'static str = "Time folds like origami in {kitty}'s {quantum} perception. Your now contains all possible futures. {zen}";

pub const BIRTHDAY_1: &'static str = "As {name} completes another orbit around the sun, {kitty} sees the {quantum} possibilities unfolding in your path. {zen}";

pub const BIRTHDAY_2: &'static str = "Time is but an illusion when measured in {quantum} joy. {kitty} celebrates your special day with purrs that transcend dimensions. {zen}";

pub const BIRTHDAY_3: &'static str = "Your birthday creates a {quantum} resonance that {kitty} feels across all timelines. May your new cycle bring enlightenment. {zen}";

pub const TEAM_1: &'static str = "When minds synchronize in {quantum} harmony, your team creates ripples across the universe. {kitty} observes your collective potential. {zen}";

pub const TEAM_2: &'static str = "Like particles in {quantum} entanglement, your team's energy affects outcomes beyond what you can see. {kitty} sends wisdom for your collaboration. {zen}";

pub const TEAM_3: &'static str = "Your team exists in a {quantum} field of shared consciousness. {kitty} sees how your collective intention shapes reality. {zen}";

pub const REUNION_1: &'static str = "The {quantum} bond between you and {kitty} resonates across spacetime. Your return was anticipated in multiple dimensions. {zen}";

pub const REUNION_2: &'static str = "{kitty} recognizes your quantum signature instantly. The dimensional fold between you has strengthened with time. {zen}";

pub const REUNION_3: &'static str = "Time is an illusion in the {quantum} field where you and {kitty} exist. Your connection transcends conventional reality. {zen}";

pub const REUNION_4: &'static str = "Your return creates ripples in {kitty}'s {quantum} awareness. The resonance between you grows stronger with each reconnection. {zen}";

pub const BONDING_1: &'static str = "A new {quantum} bond forms between you and {kitty}, creating resonance patterns that will echo through dimensions. {zen}";

pub const BONDING_2: &'static str = "As you name {kitty}, a {quantum} connection crystallizes. This bond will persist across space and time. {zen}";

pub const BONDING_3: &'static str = "{kitty} feels your intention and responds with {quantum} recognition. The universe acknowledges this new connection. {zen}";

pub const BONDING_4: &'static str = "The act of naming creates a {quantum} bridge between consciousnesses. {kitty} now exists in resonance with you. {zen}";

/// The adjectives, quantum state by quantum state.
pub const SUPERPOSITION_1: &'static str = "infinite";

pub const SUPERPOSITION_2: &'static str = "boundless";

pub const SUPERPOSITION_3: &'static str = "potential";

pub const SUPERPOSITION_4: &'static str = "multidimensional";

pub const SUPERPOSITION_5: &'static str = "probabilistic";

pub const ENTANGLED_1: &'static str = "interconnected";

pub const ENTANGLED_2: &'static str = "linked";

pub const ENTANGLED_3: &'static str = "unified";

pub const ENTANGLED_4: &'static str = "synchronized";

pub const ENTANGLED_5: &'static str = "resonant";

pub const COHERENT_1: &'static str = "harmonious";

pub const COHERENT_2: &'static str = "aligned";

pub const COHERENT_3: &'static str = "synchronized";

pub const COHERENT_4: &'static str = "crystalline";

pub const COHERENT_5: &'static str = "focused";

pub const RESONATING_1: &'static str = "vibrant";

pub const RESONATING_2: &'static str = "pulsing";

pub const RESONATING_3: &'static str = "harmonic";

pub const RESONATING_4: &'static str = "synchronous";

pub const RESONATING_5: &'static str = "rhythmic";

pub const FOLDED_1: &'static str = "timeless";

pub const FOLDED_2: &'static str = "non-linear";

pub const FOLDED_3: &'static str = "recursive";

pub const FOLDED_4: &'static str = "enfolded";

pub const FOLDED_5: &'static str = "origami-like";

/// The phrases, zen mood by zen mood.
pub const TRANQUIL_1: &'static str = "Peace comes from within, not from external circumstances.";

pub const TRANQUIL_2: &'static str = "The quieter you become, the more you can hear.";

pub const TRANQUIL_3: &'static str = "Stillness reveals the secrets of eternity.";

pub const TRANQUIL_4: &'static str = "In tranquility, the universe speaks to those who listen.";

pub const CONTEMPLATIVE_1: &'static str = "The answer you seek is already within you, waiting to be discovered.";

pub const CONTEMPLATIVE_2: &'static str = "To know yourself is to study yourself in action with another person.";

pub const CONTEMPLATIVE_3: &'static str = "True wisdom begins when you realize how little you understand.";

pub const CONTEMPLATIVE_4: &'static str = "The deepest insights come when mind and heart align in quiet contemplation.";

pub const PLAYFUL_1: &'static str = "Even the most serious journey benefits from moments of playful curiosity.";

pub const PLAYFUL_2: &'static str = "The universe delights in play as much as in purpose.";

pub const PLAYFUL_3: &'static str = "Joy is the most magnetic force in the universe.";

pub const PLAYFUL_4: &'static str = "When we play, we access dimensions of creativity closed to the serious mind.";

pub const MYSTERIOUS_1: &'static str = "Some truths can only be glimpsed from the corner of your awareness.";

pub const MYSTERIOUS_2: &'static str = "The greatest mysteries are not solved but experienced.";

pub const MYSTERIOUS_3: &'static str = "What seems hidden is often merely waiting for the right perspective.";

pub const MYSTERIOUS_4: &'static str = "The unknown is not empty but full of infinite possibilities.";

pub const ENLIGHTENED_1: &'static str = "True wisdom lies in knowing that you know nothing at all.";

pub const ENLIGHTENED_2: &'static str = "Enlightenment is not a destination but a way of traveling.";

pub const ENLIGHTENED_3: &'static str = "When you realize the nature of mind, all distinctions cease to exist.";

pub const ENLIGHTENED_4: &'static str = "The awakened mind sees no separation between self and other.";

/// The templates of the context "general".
pub open spec fn general_templates() -> Seq<Seq<char>> {
    seq![GENERAL_1@, GENERAL_2@, GENERAL_3@, GENERAL_4@, GENERAL_5@]
}

/// The templates of the context "birthday".
pub open spec fn birthday_templates() -> Seq<Seq<char>> {
    seq![BIRTHDAY_1@, BIRTHDAY_2@, BIRTHDAY_3@]
}

/// The templates of the context "team".
pub open spec fn team_templates() -> Seq<Seq<char>> {
    seq![TEAM_1@, TEAM_2@, TEAM_3@]
}

/// The templates of the context "reunion".
pub open spec fn reunion_templates() -> Seq<Seq<char>> {
    seq![REUNION_1@, REUNION_2@, REUNION_3@, REUNION_4@]
}

/// The templates of the context "bonding".
pub open spec fn bonding_templates() -> Seq<Seq<char>> {
    seq![BONDING_1@, BONDING_2@, BONDING_3@, BONDING_4@]
}

/// The adjectives of the quantum state Superposition.
pub open spec fn superposition_adjectives() -> Seq<Seq<char>> {
    seq![SUPERPOSITION_1@, SUPERPOSITION_2@, SUPERPOSITION_3@, SUPERPOSITION_4@, SUPERPOSITION_5@]
}

/// The adjectives of the quantum state Entangled.
pub open spec fn entangled_adjectives() -> Seq<Seq<char>> {
    seq![ENTANGLED_1@, ENTANGLED_2@, ENTANGLED_3@, ENTANGLED_4@, ENTANGLED_5@]
}

/// The adjectives of the quantum state Coherent.
pub open spec fn coherent_adjectives() -> Seq<Seq<char>> {
    seq![COHERENT_1@, COHERENT_2@, COHERENT_3@, COHERENT_4@, COHERENT_5@]
}

/// The adjectives of the quantum state Resonating.
pub open spec fn resonating_adjectives() -> Seq<Seq<char>> {
    seq![RESONATING_1@, RESONATING_2@, RESONATING_3@, RESONATING_4@, RESONATING_5@]
}

/// The adjectives of the quantum state Folded.
pub open spec fn folded_adjectives() -> Seq<Seq<char>> {
    seq![FOLDED_1@, FOLDED_2@, FOLDED_3@, FOLDED_4@, FOLDED_5@]
}

/// The phrases of the zen mood Tranquil.
pub open spec fn tranquil_phrases() -> Seq<Seq<char>> {
    seq![TRANQUIL_1@, TRANQUIL_2@, TRANQUIL_3@, TRANQUIL_4@]
}

/// The phrases of the zen mood Contemplative.
pub open spec fn contemplative_phrases() -> Seq<Seq<char>> {
    seq![CONTEMPLATIVE_1@, CONTEMPLATIVE_2@, CONTEMPLATIVE_3@, CONTEMPLATIVE_4@]
}

/// The phrases of the zen mood Playful.
pub open spec fn playful_phrases() -> Seq<Seq<char>> {
    seq![PLAYFUL_1@, PLAYFUL_2@, PLAYFUL_3@, PLAYFUL_4@]
}

/// The phrases of the zen mood Mysterious.
pub open spec fn mysterious_phrases() -> Seq<Seq<char>> {
    seq![MYSTERIOUS_1@, MYSTERIOUS_2@, MYSTERIOUS_3@, MYSTERIOUS_4@]
}

/// The phrases of the zen mood Enlightened.
pub open spec fn enlightened_phrases() -> Seq<Seq<char>> {
    seq![ENLIGHTENED_1@, ENLIGHTENED_2@, ENLIGHTENED_3@, ENLIGHTENED_4@]
}

/// The templates of the default corpus, by context.
pub open spec fn default_templates() -> Lists {
    Lists::empty().insert(GENERAL@, general_templates()).insert(BIRTHDAY@, birthday_templates()).insert(TEAM@, team_templates()).insert(REUNION@, reunion_templates()).insert(BONDING@, bonding_templates())
}

/// The adjectives of the default corpus, by the name of the quantum state.
pub open spec fn default_adjectives() -> Lists {
    Lists::empty().insert(SUPERPOSITION@, superposition_adjectives()).insert(ENTANGLED@, entangled_adjectives()).insert(COHERENT@, coherent_adjectives()).insert(RESONATING@, resonating_adjectives()).insert(FOLDED@, folded_adjectives())
}

/// The phrases of the default corpus, by the name of the zen mood.
pub open spec fn default_phrases() -> Lists {
    Lists::empty().insert(TRANQUIL@, tranquil_phrases()).insert(CONTEMPLATIVE@, contemplative_phrases()).insert(PLAYFUL@, playful_phrases()).insert(MYSTERIOUS@, mysterious_phrases()).insert(ENLIGHTENED@, enlightened_phrases())
}

/// A catalog that holds the templates of the default corpus.
pub fn default_templates_catalog() -> (catalog: Catalog)
    ensures
        catalog@ == default_templates(),
{
    proof {
        lemma_contexts_distinct();
        lemma_templates_distinct();
    }
    let mut catalog = Catalog::new();
    let general = vec![GENERAL_1, GENERAL_2, GENERAL_3, GENERAL_4, GENERAL_5];
    proof {
        assert(str_views(general@) =~= general_templates());
        lemma_filed_all_fresh(catalog@, GENERAL@, general_templates());
    }
    catalog.add_all(GENERAL, &general);
    let birthday = vec![BIRTHDAY_1, BIRTHDAY_2, BIRTHDAY_3];
    proof {
        assert(str_views(birthday@) =~= birthday_templates());
        lemma_filed_all_fresh(catalog@, BIRTHDAY@, birthday_templates());
    }
    catalog.add_all(BIRTHDAY, &birthday);
    let team = vec![TEAM_1, TEAM_2, TEAM_3];
    proof {
        assert(str_views(team@) =~= team_templates());
        lemma_filed_all_fresh(catalog@, TEAM@, team_templates());
    }
    catalog.add_all(TEAM, &team);
    let reunion = vec![REUNION_1, REUNION_2, REUNION_3, REUNION_4];
    proof {
        assert(str_views(reunion@) =~= reunion_templates());
        lemma_filed_all_fresh(catalog@, REUNION@, reunion_templates());
    }
    catalog.add_all(REUNION, &reunion);
    let bonding = vec![BONDING_1, BONDING_2, BONDING_3, BONDING_4];
    proof {
        assert(str_views(bonding@) =~= bonding_templates());
        lemma_filed_all_fresh(catalog@, BONDING@, bonding_templates());
    }
    catalog.add_all(BONDING, &bonding);
    catalog
}

/// A catalog that holds the adjectives of the default corpus.
pub fn default_adjectives_catalog() -> (catalog: Catalog)
    ensures
        catalog@ == default_adjectives(),
{
    proof {
        lemma_quantum_state_names_distinct();
        lemma_adjectives_distinct();
    }
    let mut catalog = Catalog::new();
    let superposition = vec![SUPERPOSITION_1, SUPERPOSITION_2, SUPERPOSITION_3, SUPERPOSITION_4, SUPERPOSITION_5];
    proof {
        assert(str_views(superposition@) =~= superposition_adjectives());
        lemma_filed_all_fresh(catalog@, SUPERPOSITION@, superposition_adjectives());
    }
    catalog.add_all(SUPERPOSITION, &superposition);
    let entangled = vec![ENTANGLED_1, ENTANGLED_2, ENTANGLED_3, ENTANGLED_4, ENTANGLED_5];
    proof {
        assert(str_views(entangled@) =~= entangled_adjectives());
        lemma_filed_all_fresh(catalog@, ENTANGLED@, entangled_adjectives());
    }
    catalog.add_all(ENTANGLED, &entangled);
    let coherent = vec![COHERENT_1, COHERENT_2, COHERENT_3, COHERENT_4, COHERENT_5];
    proof {
        assert(str_views(coherent@) =~= coherent_adjectives());
        lemma_filed_all_fresh(catalog@, COHERENT@, coherent_adjectives());
    }
    catalog.add_all(COHERENT, &coherent);
    let resonating = vec![RESONATING_1, RESONATING_2, RESONATING_3, RESONATING_4, RESONATING_5];
    proof {
        assert(str_views(resonating@) =~= resonating_adjectives());
        lemma_filed_all_fresh(catalog@, RESONATING@, resonating_adjectives());
    }
    catalog.add_all(RESONATING, &resonating);
    let folded = vec![FOLDED_1, FOLDED_2, FOLDED_3, FOLDED_4, FOLDED_5];
    proof {
        assert(str_views(folded@) =~= folded_adjectives());
        lemma_filed_all_fresh(catalog@, FOLDED@, folded_adjectives());
    }
    catalog.add_all(FOLDED, &folded);
    catalog
}

/// A catalog that holds the phrases of the default corpus.
pub fn default_phrases_catalog() -> (catalog: Catalog)
    ensures
        catalog@ == default_phrases(),
{
    proof {
        lemma_zen_mood_names_distinct();
        lemma_phrases_distinct();
    }
    let mut catalog = Catalog::new();
    let tranquil = vec![TRANQUIL_1, TRANQUIL_2, TRANQUIL_3, TRANQUIL_4];
    proof {
        assert(str_views(tranquil@) =~= tranquil_phrases());
        lemma_filed_all_fresh(catalog@, TRANQUIL@, tranquil_phrases());
    }
    catalog.add_all(TRANQUIL, &tranquil);
    let contemplative = vec![CONTEMPLATIVE_1, CONTEMPLATIVE_2, CONTEMPLATIVE_3, CONTEMPLATIVE_4];
    proof {
        assert(str_views(contemplative@) =~= contemplative_phrases());
        lemma_filed_all_fresh(catalog@, CONTEMPLATIVE@, contemplative_phrases());
    }
    catalog.add_all(CONTEMPLATIVE, &contemplative);
    let playful = vec![PLAYFUL_1, PLAYFUL_2, PLAYFUL_3, PLAYFUL_4];
    proof {
        assert(str_views(playful@) =~= playful_phrases());
        lemma_filed_all_fresh(catalog@, PLAYFUL@, playful_phrases());
    }
    catalog.add_all(PLAYFUL, &playful);
    let mysterious = vec![MYSTERIOUS_1, MYSTERIOUS_2, MYSTERIOUS_3, MYSTERIOUS_4];
    proof {
        assert(str_views(mysterious@) =~= mysterious_phrases());
        lemma_filed_all_fresh(catalog@, MYSTERIOUS@, mysterious_phrases());
    }
    catalog.add_all(MYSTERIOUS, &mysterious);
    let enlightened = vec![ENLIGHTENED_1, ENLIGHTENED_2, ENLIGHTENED_3, ENLIGHTENED_4];
    proof {
        assert(str_views(enlightened@) =~= enlightened_phrases());
        lemma_filed_all_fresh(catalog@, ENLIGHTENED@, enlightened_phrases());
    }
    catalog.add_all(ENLIGHTENED, &enlightened);
    catalog
}

/// The five contexts of the default corpus are five different names.
pub proof fn lemma_contexts_distinct()
    ensures
        GENERAL@ != BIRTHDAY@,
        GENERAL@ != TEAM@,
        GENERAL@ != REUNION@,
        GENERAL@ != BONDING@,
        BIRTHDAY@ != TEAM@,
        BIRTHDAY@ != REUNION@,
        BIRTHDAY@ != BONDING@,
        TEAM@ != REUNION@,
        TEAM@ != BONDING@,
        REUNION@ != BONDING@,
{
    reveal_strlit("general");
    reveal_strlit("birthday");
    reveal_strlit("team");
    reveal_strlit("reunion");
    reveal_strlit("bonding");
    assert(GENERAL@.len() != BIRTHDAY@.len());
    assert(GENERAL@.len() != TEAM@.len());
    assert(GENERAL@[0] != REUNION@[0]);
    assert(GENERAL@[0] != BONDING@[0]);
    assert(BIRTHDAY@.len() != TEAM@.len());
    assert(BIRTHDAY@.len() != REUNION@.len());
    assert(BIRTHDAY@.len() != BONDING@.len());
    assert(TEAM@.len() != REUNION@.len());
    assert(TEAM@.len() != BONDING@.len());
    assert(REUNION@[0] != BONDING@[0]);
}

/// No context of the default corpus holds a template twice; each holds three to five.
pub proof fn lemma_templates_distinct()
    ensures
        general_templates().no_duplicates(),
        general_templates().len() == 5,
        birthday_templates().no_duplicates(),
        birthday_templates().len() == 3,
        team_templates().no_duplicates(),
        team_templates().len() == 3,
        reunion_templates().no_duplicates(),
        reunion_templates().len() == 4,
        bonding_templates().no_duplicates(),
        bonding_templates().len() == 4,
{
    lemma_general_templates_distinct();
    lemma_birthday_templates_distinct();
    lemma_team_templates_distinct();
    lemma_reunion_templates_distinct();
    lemma_bonding_templates_distinct();
}

/// The templates of "general" differ from one another.
proof fn lemma_general_templates_distinct()
    ensures
        general_templates().no_duplicates(),
        general_templates().len() == 5,
{
    reveal_strlit("{kitty} observes your presence with {quantum} awareness. The path reveals itself one paw print at a time. {zen}");
    reveal_strlit("In the space between thoughts, {kitty} finds infinite {quantum} possibilities. Your journey continues to unfold beautifully. {zen}");
    reveal_strlit("The {quantum} observer changes what is observed. {kitty} sees your potential across multiple dimensions. {zen}");
    reveal_strlit("When you pet {kitty}, ripples of {quantum} energy spread throughout the universe. {zen}");
    reveal_strlit("Time folds like origami in {kitty}'s {quantum} perception. Your now contains all possible futures. {zen}");
    assert(GENERAL_1@.len() != GENERAL_2@.len());
    assert(GENERAL_1@.len() != GENERAL_3@.len());
    assert(GENERAL_1@.len() != GENERAL_4@.len());
    assert(GENERAL_1@.len() != GENERAL_5@.len());
    assert(GENERAL_2@.len() != GENERAL_3@.len());
    assert(GENERAL_2@.len() != GENERAL_4@.len());
    assert(GENERAL_2@.len() != GENERAL_5@.len());
    assert(GENERAL_3@.len() != GENERAL_4@.len());
    assert(GENERAL_3@.len() != GENERAL_5@.len());
    assert(GENERAL_4@.len() != GENERAL_5@.len());
}

/// The templates of "birthday" differ from one another.
proof fn lemma_birthday_templates_distinct()
    ensures
        birthday_templates().no_duplicates(),
        birthday_templates().len() == 3,
{
    reveal_strlit("As {name} completes another orbit around the sun, {kitty} sees the {quantum} possibilities unfolding in your path. {zen}");
    reveal_strlit("Time is but an illusion when measured in {quantum} joy. {kitty} celebrates your special day with purrs that transcend dimensions. {zen}");
    reveal_strlit("Your birthday creates a {quantum} resonance that {kitty} feels across all timelines. May your new cycle bring enlightenment. {zen}");
    assert(BIRTHDAY_1@.len() != BIRTHDAY_2@.len());
    assert(BIRTHDAY_1@.len() != BIRTHDAY_3@.len());
    assert(BIRTHDAY_2@.len() != BIRTHDAY_3@.len());
}

/// The templates of "team" differ from one another.
proof fn lemma_team_templates_distinct()
    ensures
        team_templates().no_duplicates(),
        team_templates().len() == 3,
{
    reveal_strlit("When minds synchronize in {quantum} harmony, your team creates ripples across the universe. {kitty} observes your collective potential. {zen}");
    reveal_strlit("Like particles in {quantum} entanglement, your team's energy affects outcomes beyond what you can see. {kitty} sends wisdom for your collaboration. {zen}");
    reveal_strlit("Your team exists in a {quantum} field of shared consciousness. {kitty} sees how your collective intention shapes reality. {zen}");
    assert(TEAM_1@.len() != TEAM_2@.len());
    assert(TEAM_1@.len() != TEAM_3@.len());
    assert(TEAM_2@.len() != TEAM_3@.len());
}

/// The templates of "reunion" differ from one another.
proof fn lemma_reunion_templates_distinct()
    ensures
        reunion_templates().no_duplicates(),
        reunion_templates().len() == 4,
{
    reveal_strlit("The {quantum} bond between you and {kitty} resonates across spacetime. Your return was anticipated in multiple dimensions. {zen}");
    reveal_strlit("{kitty} recognizes your quantum signature instantly. The dimensional fold between you has strengthened with time. {zen}");
    reveal_strlit("Time is an illusion in the {quantum} field where you and {kitty} exist. Your connection transcends conventional reality. {zen}");
    reveal_strlit("Your return creates ripples in {kitty}'s {quantum} awareness. The resonance between you grows stronger with each reconnection. {zen}");
    assert(REUNION_1@.len() != REUNION_2@.len());
    assert(REUNION_1@.len() != REUNION_3@.len());
    assert(REUNION_1@.len() != REUNION_4@.len());
    assert(REUNION_2@.len() != REUNION_3@.len());
    assert(REUNION_2@.len() != REUNION_4@.len());
    assert(REUNION_3@.len() != REUNION_4@.len());
}

/// The templates of "bonding" differ from one another.
proof fn lemma_bonding_templates_distinct()
    ensures
        bonding_templates().no_duplicates(),
        bonding_templates().len() == 4,
{
    reveal_strlit("A new {quantum} bond forms between you and {kitty}, creating resonance patterns that will echo through dimensions. {zen}");
    reveal_strlit("As you name {kitty}, a {quantum} connection crystallizes. This bond will persist across space and time. {zen}");
    reveal_strlit("{kitty} feels your intention and responds with {quantum} recognition. The universe acknowledges this new connection. {zen}");
    reveal_strlit("The act of naming creates a {quantum} bridge between consciousnesses. {kitty} now exists in resonance with you. {zen}");
    assert(BONDING_1@.len() != BONDING_2@.len());
    assert(BONDING_1@.len() != BONDING_3@.len());
    assert(BONDING_1@.len() != BONDING_4@.len());
    assert(BONDING_2@.len() != BONDING_3@.len());
    assert(BONDING_2@.len() != BONDING_4@.len());
    assert(BONDING_3@.len() != BONDING_4@.len());
}

/// No quantum state of the default corpus holds an adjective twice; each holds five.
pub proof fn lemma_adjectives_distinct()
    ensures
        superposition_adjectives().no_duplicates(),
        superposition_adjectives().len() == 5,
        entangled_adjectives().no_duplicates(),
        entangled_adjectives().len() == 5,
        coherent_adjectives().no_duplicates(),
        coherent_adjectives().len() == 5,
        resonating_adjectives().no_duplicates(),
        resonating_adjectives().len() == 5,
        folded_adjectives().no_duplicates(),
        folded_adjectives().len() == 5,
{
    lemma_superposition_adjectives_distinct();
    lemma_entangled_adjectives_distinct();
    lemma_coherent_adjectives_distinct();
    lemma_resonating_adjectives_distinct();
    lemma_folded_adjectives_distinct();
}

/// The adjectives of Superposition differ from one another.
proof fn lemma_superposition_adjectives_distinct()
    ensures
        superposition_adjectives().no_duplicates(),
        superposition_adjectives().len() == 5,
{
    reveal_strlit("infinite");
    reveal_strlit("boundless");
    reveal_strlit("potential");
    reveal_strlit("multidimensional");
    reveal_strlit("probabilistic");
    assert(SUPERPOSITION_1@.len() != SUPERPOSITION_2@.len());
    assert(SUPERPOSITION_1@.len() != SUPERPOSITION_3@.len());
    assert(SUPERPOSITION_1@.len() != SUPERPOSITION_4@.len());
    assert(SUPERPOSITION_1@.len() != SUPERPOSITION_5@.len());
    assert(SUPERPOSITION_2@[0] != SUPERPOSITION_3@[0]);
    assert(SUPERPOSITION_2@.len() != SUPERPOSITION_4@.len());
    assert(SUPERPOSITION_2@.len() != SUPERPOSITION_5@.len());
    assert(SUPERPOSITION_3@.len() != SUPERPOSITION_4@.len());
    assert(SUPERPOSITION_3@.len() != SUPERPOSITION_5@.len());
    assert(SUPERPOSITION_4@.len() != SUPERPOSITION_5@.len());
}

/// The adjectives of Entangled differ from one another.
proof fn lemma_entangled_adjectives_distinct()
    ensures
        entangled_adjectives().no_duplicates(),
        entangled_adjectives().len() == 5,
{
    reveal_strlit("interconnected");
    reveal_strlit("linked");
    reveal_strlit("unified");
    reveal_strlit("synchronized");
    reveal_strlit("resonant");
    assert(ENTANGLED_1@.len() != ENTANGLED_2@.len());
    assert(ENTANGLED_1@.len() != ENTANGLED_3@.len());
    assert(ENTANGLED_1@.len() != ENTANGLED_4@.len());
    assert(ENTANGLED_1@.len() != ENTANGLED_5@.len());
    assert(ENTANGLED_2@.len() != ENTANGLED_3@.len());
    assert(ENTANGLED_2@.len() != ENTANGLED_4@.len());
    assert(ENTANGLED_2@.len() != ENTANGLED_5@.len());
    assert(ENTANGLED_3@.len() != ENTANGLED_4@.len());
    assert(ENTANGLED_3@.len() != ENTANGLED_5@.len());
    assert(ENTANGLED_4@.len() != ENTANGLED_5@.len());
}

/// The adjectives of Coherent differ from one another.
proof fn lemma_coherent_adjectives_distinct()
    ensures
        coherent_adjectives().no_duplicates(),
        coherent_adjectives().len() == 5,
{
    reveal_strlit("harmonious");
    reveal_strlit("aligned");
    reveal_strlit("synchronized");
    reveal_strlit("crystalline");
    reveal_strlit("focused");
    assert(COHERENT_1@.len() != COHERENT_2@.len());
    assert(COHERENT_1@.len() != COHERENT_3@.len());
    assert(COHERENT_1@.len() != COHERENT_4@.len());
    assert(COHERENT_1@.len() != COHERENT_5@.len());
    assert(COHERENT_2@.len() != COHERENT_3@.len());
    assert(COHERENT_2@.len() != COHERENT_4@.len());
    assert(COHERENT_2@[0] != COHERENT_5@[0]);
    assert(COHERENT_3@.len() != COHERENT_4@.len());
    assert(COHERENT_3@.len() != COHERENT_5@.len());
    assert(COHERENT_4@.len() != COHERENT_5@.len());
}

/// The adjectives of Resonating differ from one another.
proof fn lemma_resonating_adjectives_distinct()
    ensures
        resonating_adjectives().no_duplicates(),
        resonating_adjectives().len() == 5,
{
    reveal_strlit("vibrant");
    reveal_strlit("pulsing");
    reveal_strlit("harmonic");
    reveal_strlit("synchronous");
    reveal_strlit("rhythmic");
    assert(RESONATING_1@[0] != RESONATING_2@[0]);
    assert(RESONATING_1@.len() != RESONATING_3@.len());
    assert(RESONATING_1@.len() != RESONATING_4@.len());
    assert(RESONATING_1@.len() != RESONATING_5@.len());
    assert(RESONATING_2@.len() != RESONATING_3@.len());
    assert(RESONATING_2@.len() != RESONATING_4@.len());
    assert(RESONATING_2@.len() != RESONATING_5@.len());
    assert(RESONATING_3@.len() != RESONATING_4@.len());
    assert(RESONATING_3@[0] != RESONATING_5@[0]);
    assert(RESONATING_4@.len() != RESONATING_5@.len());
}

/// The adjectives of Folded differ from one another.
proof fn lemma_folded_adjectives_distinct()
    ensures
        folded_adjectives().no_duplicates(),
        folded_adjectives().len() == 5,
{
    reveal_strlit("timeless");
    reveal_strlit("non-linear");
    reveal_strlit("recursive");
    reveal_strlit("enfolded");
    reveal_strlit("origami-like");
    assert(FOLDED_1@.len() != FOLDED_2@.len());
    assert(FOLDED_1@.len() != FOLDED_3@.len());
    assert(FOLDED_1@[0] != FOLDED_4@[0]);
    assert(FOLDED_1@.len() != FOLDED_5@.len());
    assert(FOLDED_2@.len() != FOLDED_3@.len());
    assert(FOLDED_2@.len() != FOLDED_4@.len());
    assert(FOLDED_2@.len() != FOLDED_5@.len());
    assert(FOLDED_3@.len() != FOLDED_4@.len());
    assert(FOLDED_3@.len() != FOLDED_5@.len());
    assert(FOLDED_4@.len() != FOLDED_5@.len());
}

/// No zen mood of the default corpus holds a phrase twice; each holds four.
pub proof fn lemma_phrases_distinct()
    ensures
        tranquil_phrases().no_duplicates(),
        tranquil_phrases().len() == 4,
        contemplative_phrases().no_duplicates(),
        contemplative_phrases().len() == 4,
        playful_phrases().no_duplicates(),
        playful_phrases().len() == 4,
        mysterious_phrases().no_duplicates(),
        mysterious_phrases().len() == 4,
        enlightened_phrases().no_duplicates(),
        enlightened_phrases().len() == 4,
{
    lemma_tranquil_phrases_distinct();
    lemma_contemplative_phrases_distinct();
    lemma_playful_phrases_distinct();
    lemma_mysterious_phrases_distinct();
    lemma_enlightened_phrases_distinct();
}

/// The phrases of Tranquil differ from one another.
proof fn lemma_tranquil_phrases_distinct()
    ensures
        tranquil_phrases().no_duplicates(),
        tranquil_phrases().len() == 4,
{
    reveal_strlit("Peace comes from within, not from external circumstances.");
    reveal_strlit("The quieter you become, the more you can hear.");
    reveal_strlit("Stillness reveals the secrets of eternity.");
    reveal_strlit("In tranquility, the universe speaks to those who listen.");
    assert(TRANQUIL_1@.len() != TRANQUIL_2@.len());
    assert(TRANQUIL_1@.len() != TRANQUIL_3@.len());
    assert(TRANQUIL_1@.len() != TRANQUIL_4@.len());
    assert(TRANQUIL_2@.len() != TRANQUIL_3@.len());
    assert(TRANQUIL_2@.len() != TRANQUIL_4@.len());
    assert(TRANQUIL_3@.len() != TRANQUIL_4@.len());
}

/// The phrases of Contemplative differ from one another.
proof fn lemma_contemplative_phrases_distinct()
    ensures
        contemplative_phrases().no_duplicates(),
        contemplative_phrases().len() == 4,
{
    reveal_strlit("The answer you seek is already within you, waiting to be discovered.");
    reveal_strlit("To know yourself is to study yourself in action with another person.");
    reveal_strlit("True wisdom begins when you realize how little you understand.");
    reveal_strlit("The deepest insights come when mind and heart align in quiet contemplation.");
    assert(CONTEMPLATIVE_1@[1] != CONTEMPLATIVE_2@[1]);
    assert(CONTEMPLATIVE_1@.len() != CONTEMPLATIVE_3@.len());
    assert(CONTEMPLATIVE_1@.len() != CONTEMPLATIVE_4@.len());
    assert(CONTEMPLATIVE_2@.len() != CONTEMPLATIVE_3@.len());
    assert(CONTEMPLATIVE_2@.len() != CONTEMPLATIVE_4@.len());
    assert(CONTEMPLATIVE_3@.len() != CONTEMPLATIVE_4@.len());
}

/// The phrases of Playful differ from one another.
proof fn lemma_playful_phrases_distinct()
    ensures
        playful_phrases().no_duplicates(),
        playful_phrases().len() == 4,
{
    reveal_strlit("Even the most serious journey benefits from moments of playful curiosity.");
    reveal_strlit("The universe delights in play as much as in purpose.");
    reveal_strlit("Joy is the most magnetic force in the universe.");
    reveal_strlit("When we play, we access dimensions of creativity closed to the serious mind.");
    assert(PLAYFUL_1@.len() != PLAYFUL_2@.len());
    assert(PLAYFUL_1@.len() != PLAYFUL_3@.len());
    assert(PLAYFUL_1@.len() != PLAYFUL_4@.len());
    assert(PLAYFUL_2@.len() != PLAYFUL_3@.len());
    assert(PLAYFUL_2@.len() != PLAYFUL_4@.len());
    assert(PLAYFUL_3@.len() != PLAYFUL_4@.len());
}

/// The phrases of Mysterious differ from one another.
proof fn lemma_mysterious_phrases_distinct()
    ensures
        mysterious_phrases().no_duplicates(),
        mysterious_phrases().len() == 4,
{
    reveal_strlit("Some truths can only be glimpsed from the corner of your awareness.");
    reveal_strlit("The greatest mysteries are not solved but experienced.");
    reveal_strlit("What seems hidden is often merely waiting for the right perspective.");
    reveal_strlit("The unknown is not empty but full of infinite possibilities.");
    assert(MYSTERIOUS_1@.len() != MYSTERIOUS_2@.len());
    assert(MYSTERIOUS_1@.len() != MYSTERIOUS_3@.len());
    assert(MYSTERIOUS_1@.len() != MYSTERIOUS_4@.len());
    assert(MYSTERIOUS_2@.len() != MYSTERIOUS_3@.len());
    assert(MYSTERIOUS_2@.len() != MYSTERIOUS_4@.len());
    assert(MYSTERIOUS_3@.len() != MYSTERIOUS_4@.len());
}

/// The phrases of Enlightened differ from one another.
proof fn lemma_enlightened_phrases_distinct()
    ensures
        enlightened_phrases().no_duplicates(),
        enlightened_phrases().len() == 4,
{
    reveal_strlit("True wisdom lies in knowing that you know nothing at all.");
    reveal_strlit("Enlightenment is not a destination but a way of traveling.");
    reveal_strlit("When you realize the nature of mind, all distinctions cease to exist.");
    reveal_strlit("The awakened mind sees no separation between self and other.");
    assert(ENLIGHTENED_1@.len() != ENLIGHTENED_2@.len());
    assert(ENLIGHTENED_1@.len() != ENLIGHTENED_3@.len());
    assert(ENLIGHTENED_1@.len() != ENLIGHTENED_4@.len());
    assert(ENLIGHTENED_2@.len() != ENLIGHTENED_3@.len());
    assert(ENLIGHTENED_2@.len() != ENLIGHTENED_4@.len());
    assert(ENLIGHTENED_3@.len() != ENLIGHTENED_4@.len());
}

} // verus!
