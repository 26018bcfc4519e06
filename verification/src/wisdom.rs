//! The composer: picks a template by the kitty's state and the time, and
//! fills its placeholders with an adjective, a phrase and the kitty's name.

use vstd::prelude::*;
use crate::catalog::{listed, Lists};
use crate::clock::{seconds_of, KittyState, Mood, NANOS_PER_SECOND};
use crate::corpus::GENERAL;
use crate::fill::{fill, filled, has_token, lemma_no_token_without_opener, rules_of, Binding, Rule};
use crate::store::{Corpus, WisdomTemplateStore};
use crate::text::text_views;

verus! {

/// The placeholder for the adjective of the quantum state.
pub const QUANTUM_TOKEN: &'static str = "{quantum}";

/// The placeholder for the phrase of the zen mood.
pub const ZEN_TOKEN: &'static str = "{zen}";

/// The placeholder for the one who is spoken to.
pub const NAME_TOKEN: &'static str = "{name}";

/// The placeholder for the kitty's name.
pub const KITTY_TOKEN: &'static str = "{kitty}";

/// What stands for the one who is spoken to.
pub const YOU: &'static str = "you";

/// The kitty's name where none is given.
pub const DEFAULT_KITTY: &'static str = "Quantum Kitty";

/// The adjective of a quantum state that has none on file.
pub const FALLBACK_ADJECTIVE: &'static str = "quantum";

/// The phrase of a zen mood that has none on file.
pub const FALLBACK_PHRASE: &'static str = "The present moment is all we ever truly have.";

/// What the kitty says where there is no template to fill.
pub const MEDITATING: &'static str = "Quantum Kitty is meditating deeply...";

/// The templates to choose from for `context`: its own, or those of the
/// general context where it has none.
pub open spec fn templates_for(templates: Lists, context: Seq<char>) -> Seq<Seq<char>> {
    if listed(templates, context).len() > 0 {
        listed(templates, context)
    } else {
        listed(templates, GENERAL@)
    }
}

/// `list`, or the one text `fallback` where the list is empty.
pub open spec fn or_only(list: Seq<Seq<char>>, fallback: Seq<char>) -> Seq<Seq<char>> {
    if list.len() > 0 {
        list
    } else {
        seq![fallback]
    }
}

/// The text at place `turn` of `list`, counted round and round.
pub open spec fn picked(list: Seq<Seq<char>>, turn: int) -> Seq<char> {
    list[turn % list.len() as int]
}

/// The four placeholders of a wisdom template with what takes their place.
pub open spec fn wisdom_rules(adjective: Seq<char>, phrase: Seq<char>, kitty: Seq<char>) -> Seq<Rule> {
    seq![
        (QUANTUM_TOKEN@, adjective),
        (ZEN_TOKEN@, phrase),
        (NAME_TOKEN@, YOU@),
        (KITTY_TOKEN@, kitty),
    ]
}

/// The adjective for `mood` at `now`.
pub open spec fn adjective_for(corpus: Corpus, mood: Mood, now: u64) -> Seq<char> {
    picked(
        or_only(listed(corpus.quantum_adjectives, mood.quantum_state.label()), FALLBACK_ADJECTIVE@),
        seconds_of(now),
    )
}

/// The phrase for `mood` at `now`.
pub open spec fn phrase_for(corpus: Corpus, mood: Mood, now: u64) -> Seq<char> {
    picked(or_only(listed(corpus.zen_phrases, mood.zen_mood.label()), FALLBACK_PHRASE@), seconds_of(now))
}

/// The name by which the kitty goes.
pub open spec fn kitty_called(kitty_name: Option<Seq<char>>) -> Seq<char> {
    match kitty_name {
        Some(name) => name,
        None => DEFAULT_KITTY@,
    }
}

/// The wisdom that `corpus` gives for `context` in `mood` at `now`.
pub open spec fn wisdom_text(
    corpus: Corpus,
    mood: Mood,
    context: Seq<char>,
    kitty_name: Option<Seq<char>>,
    now: u64,
) -> Seq<char> {
    let templates = templates_for(corpus.templates, context);
    if templates.len() == 0 {
        MEDITATING@
    } else {
        filled(
            picked(templates, mood.energy_level + seconds_of(now)),
            wisdom_rules(
                adjective_for(corpus, mood, now),
                phrase_for(corpus, mood, now),
                kitty_called(kitty_name),
            ),
        )
    }
}

/// The characters of an optional string slice.
pub open spec fn opt_view(text: Option<&str>) -> Option<Seq<char>> {
    match text {
        Some(t) => Some(t@),
        None => None,
    }
}

/// The text of `list` whose turn it is at `turn`; `fallback` where the list
/// is empty.
fn pick(list: &Vec<String>, fallback: &'static str, turn: u64) -> (text: String)
    ensures
        text@ == picked(or_only(text_views(list@), fallback@), turn as int),
{
    if list.len() == 0 {
        String::from_str(fallback)
    } else {
        let place: u64 = turn % (list.len() as u64);
        list[place as usize].clone()
    }
}

/// Crafts the wisdom for `context`: takes the templates of the context, or
/// those of the general context where it has none; picks one by the energy
/// level and the second; picks the adjective of the quantum state and the
/// phrase of the zen mood by the second; and fills the template's
/// placeholders. Without any template the kitty meditates.
pub fn craft_wisdom(
    store: &WisdomTemplateStore,
    state: &KittyState,
    context: &str,
    kitty_name: Option<&str>,
    now: u64,
) -> (wisdom: String)
    ensures
        wisdom@ == wisdom_text(store@, state@, context@, opt_view(kitty_name), now),
{
    let mut templates = store.templates_of(&String::from_str(context));
    if templates.len() == 0 {
        templates = store.templates_of(&String::from_str(GENERAL));
    }
    if templates.len() == 0 {
        return String::from_str(MEDITATING);
    }
    let seconds: u64 = now / NANOS_PER_SECOND;
    let turn: u64 = state.energy_level() as u64 + seconds;
    let place: u64 = turn % (templates.len() as u64);
    let adjectives = store.quantum_adjectives_of(&String::from_str(state.quantum_state().name()));
    let phrases = store.zen_phrases_of(&String::from_str(state.zen_mood().name()));
    let adjective = pick(&adjectives, FALLBACK_ADJECTIVE, seconds);
    let phrase = pick(&phrases, FALLBACK_PHRASE, seconds);
    let kitty = match kitty_name {
        Some(name) => String::from_str(name),
        None => String::from_str(DEFAULT_KITTY),
    };
    let bindings = vec![
        Binding { token: String::from_str(QUANTUM_TOKEN), value: adjective },
        Binding { token: String::from_str(ZEN_TOKEN), value: phrase },
        Binding { token: String::from_str(NAME_TOKEN), value: String::from_str(YOU) },
        Binding { token: String::from_str(KITTY_TOKEN), value: kitty },
    ];
    assert(rules_of(bindings@) =~= wisdom_rules(adjective@, phrase@, kitty@));
    fill(templates[place as usize].as_str(), &bindings)
}

/// A context without templates of its own gets the wisdom of the general
/// context.
pub proof fn lemma_unknown_context_is_general(
    corpus: Corpus,
    mood: Mood,
    context: Seq<char>,
    kitty_name: Option<Seq<char>>,
    now: u64,
)
    requires
        listed(corpus.templates, context).len() == 0,
    ensures
        wisdom_text(corpus, mood, context, kitty_name, now) == wisdom_text(
            corpus,
            mood,
            GENERAL@,
            kitty_name,
            now,
        ),
{
}

/// Where neither the context nor the general context has a template, the
/// kitty meditates, and what it says holds no placeholder.
pub proof fn lemma_meditating(
    corpus: Corpus,
    mood: Mood,
    context: Seq<char>,
    kitty_name: Option<Seq<char>>,
    now: u64,
)
    requires
        listed(corpus.templates, context).len() == 0,
        listed(corpus.templates, GENERAL@).len() == 0,
    ensures
        wisdom_text(corpus, mood, context, kitty_name, now) == MEDITATING@,
        forall|adjective: Seq<char>, phrase: Seq<char>, kitty: Seq<char>|
            !has_token(MEDITATING@, #[trigger] wisdom_rules(adjective, phrase, kitty)),
{
    assert forall|adjective: Seq<char>, phrase: Seq<char>, kitty: Seq<char>|
        !has_token(MEDITATING@, #[trigger] wisdom_rules(adjective, phrase, kitty)) by {
        lemma_meditating_is_plain(adjective, phrase, kitty);
    }
}

/// Every placeholder of a wisdom template opens with a brace, and the
/// kitty's words while it meditates hold none.
proof fn lemma_meditating_is_plain(adjective: Seq<char>, phrase: Seq<char>, kitty: Seq<char>)
    ensures
        !has_token(MEDITATING@, wisdom_rules(adjective, phrase, kitty)),
{
    reveal_strlit("Quantum Kitty is meditating deeply...");
    reveal_strlit("{quantum}");
    reveal_strlit("{zen}");
    reveal_strlit("{name}");
    reveal_strlit("{kitty}");
    let rules = wisdom_rules(adjective, phrase, kitty);
    assert(QUANTUM_TOKEN@[0] == '{');
    assert(ZEN_TOKEN@[0] == '{');
    assert(NAME_TOKEN@[0] == '{');
    assert(KITTY_TOKEN@[0] == '{');
    assert forall|i: int| 0 <= i < MEDITATING@.len() implies MEDITATING@[i] != '{' by {
        lemma_meditating_chars(i);
    }
    lemma_no_token_without_opener(MEDITATING@, rules, '{');
}

proof fn lemma_meditating_chars(i: int)
    requires
        0 <= i < MEDITATING@.len(),
    ensures
        MEDITATING@[i] != '{',
{
    reveal_strlit("Quantum Kitty is meditating deeply...");
    let text = MEDITATING@;
    assert(text.len() == 37);
    if i < 10 {
        assert(text[0] != '{' && text[1] != '{' && text[2] != '{' && text[3] != '{' && text[4] != '{');
        assert(text[5] != '{' && text[6] != '{' && text[7] != '{' && text[8] != '{' && text[9] != '{');
    } else if i < 20 {
        assert(text[10] != '{' && text[11] != '{' && text[12] != '{' && text[13] != '{' && text[14] != '{');
        assert(text[15] != '{' && text[16] != '{' && text[17] != '{' && text[18] != '{' && text[19] != '{');
    } else if i < 30 {
        assert(text[20] != '{' && text[21] != '{' && text[22] != '{' && text[23] != '{' && text[24] != '{');
        assert(text[25] != '{' && text[26] != '{' && text[27] != '{' && text[28] != '{' && text[29] != '{');
    } else {
        assert(text[30] != '{' && text[31] != '{' && text[32] != '{' && text[33] != '{' && text[34] != '{');
        assert(text[35] != '{' && text[36] != '{');
    }
}

} // verus!
