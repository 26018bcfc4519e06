use csmcl_qkitty_backend::{
    add_quantum_adjective, add_wisdom_template, add_zen_phrase, craft_wisdom, derive_state,
    generate_kitty_wisdom, init, post_upgrade, quantum_greet, update_kitty_state, KittyState,
    QuantumKitty, QuantumState, WisdomTemplateStore, ZenMood,
};

const SECOND: u64 = 1_000_000_000;
const HOUR: u64 = 3_600 * SECOND;
const MEDITATING: &str = "Quantum Kitty is meditating deeply...";
const TOKENS: [&str; 4] = ["{quantum}", "{zen}", "{kitty}", "{name}"];

fn s(text: &str) -> String {
    text.to_string()
}

fn state(quantum_state: QuantumState, energy_level: u8, zen_mood: ZenMood) -> KittyState {
    KittyState::from_parts(quantum_state, energy_level, zen_mood, 0).expect("a level from 1 to 10")
}

#[test]
fn an_empty_store_meditates() {
    let store = WisdomTemplateStore::new();
    let calm = state(QuantumState::Coherent, 5, ZenMood::Contemplative);
    let wisdom = craft_wisdom(&store, &calm, "general", Some("Mochi"), 30_007 * SECOND);
    assert_eq!(wisdom, MEDITATING);
    assert_eq!(craft_wisdom(&store, &calm, "birthday", None, 0), MEDITATING);
    for token in TOKENS {
        assert!(!wisdom.contains(token));
    }
}

#[test]
fn a_store_without_general_meditates_on_an_unknown_topic() {
    let mut store = WisdomTemplateStore::new();
    store.add_template(s("custom"), s("Hi {kitty}"));
    let calm = state(QuantumState::Coherent, 5, ZenMood::Contemplative);
    assert_eq!(craft_wisdom(&store, &calm, "other", Some("Mochi"), SECOND), MEDITATING);
    assert_eq!(craft_wisdom(&store, &calm, "general", Some("Mochi"), SECOND), MEDITATING);
    assert_eq!(craft_wisdom(&store, &calm, "custom", Some("Mochi"), SECOND), "Hi Mochi");
}

#[test]
fn an_unknown_topic_falls_back_to_general() {
    let store = WisdomTemplateStore::with_defaults();
    let now = 1_700_000_003 * SECOND;
    let shown = derive_state(now);
    let unknown = craft_wisdom(&store, &shown, "nonexistent_category", Some("Mochi"), now);
    let general = craft_wisdom(&store, &shown, "general", Some("Mochi"), now);
    assert_eq!(unknown, general);
    assert_eq!(
        unknown,
        "When you pet Mochi, ripples of multidimensional energy spread throughout the universe. The unknown is not empty but full of infinite possibilities."
    );
}

#[test]
fn a_known_topic_uses_its_own_templates() {
    let store = WisdomTemplateStore::with_defaults();
    let now = 1_700_000_003 * SECOND;
    let shown = derive_state(now);
    assert_eq!(
        craft_wisdom(&store, &shown, "birthday", Some("Mochi"), now),
        "Time is but an illusion when measured in multidimensional joy. Mochi celebrates your special day with purrs that transcend dimensions. The unknown is not empty but full of infinite possibilities."
    );
}

#[test]
fn without_a_name_the_kitty_is_quantum_kitty() {
    let store = WisdomTemplateStore::with_defaults();
    let now = 1_700_000_003 * SECOND;
    let shown = derive_state(now);
    assert_eq!(
        craft_wisdom(&store, &shown, "team", None, now),
        "Like particles in multidimensional entanglement, your team's energy affects outcomes beyond what you can see. Quantum Kitty sends wisdom for your collaboration. The unknown is not empty but full of infinite possibilities."
    );
}

#[test]
fn the_name_placeholder_is_always_you() {
    let store = WisdomTemplateStore::with_defaults();
    let calm = state(QuantumState::Superposition, 1, ZenMood::Tranquil);
    // second 2: template (1 + 2) % 3 = 0, adjective 2 % 5 = 2, phrase 2 % 4 = 2
    assert_eq!(
        craft_wisdom(&store, &calm, "birthday", Some("Mochi"), 2 * SECOND),
        "As you completes another orbit around the sun, Mochi sees the potential possibilities unfolding in your path. Stillness reveals the secrets of eternity."
    );
}

#[test]
fn missing_adjectives_and_phrases_have_fallbacks() {
    let mut store = WisdomTemplateStore::new();
    store.add_template(s("general"), s("{quantum} / {zen} / {name} / {kitty}"));
    let folded = state(QuantumState::Folded, 3, ZenMood::Playful);
    assert_eq!(
        craft_wisdom(&store, &folded, "general", None, 5 * SECOND),
        "quantum / The present moment is all we ever truly have. / you / Quantum Kitty"
    );
    store.add_quantum_adjective(s("Folded"), s("creased"));
    store.add_zen_phrase(s("Tranquil"), s("Hush."));
    assert_eq!(
        craft_wisdom(&store, &folded, "general", Some(""), 5 * SECOND),
        "creased / The present moment is all we ever truly have. / you / "
    );
}

#[test]
fn templates_adjectives_and_phrases_turn_with_the_second() {
    let mut store = WisdomTemplateStore::new();
    store.add_template(s("t"), s("0 {quantum} {zen}"));
    store.add_template(s("t"), s("1 {quantum} {zen}"));
    store.add_template(s("t"), s("2 {quantum} {zen}"));
    store.add_quantum_adjective(s("Entangled"), s("a0"));
    store.add_quantum_adjective(s("Entangled"), s("a1"));
    store.add_zen_phrase(s("Mysterious"), s("z0"));
    store.add_zen_phrase(s("Mysterious"), s("z1"));
    store.add_zen_phrase(s("Mysterious"), s("z2"));
    store.add_zen_phrase(s("Mysterious"), s("z3"));
    let tangled = state(QuantumState::Entangled, 4, ZenMood::Mysterious);
    // template (4 + second) % 3, adjective second % 2, phrase second % 4
    assert_eq!(craft_wisdom(&store, &tangled, "t", None, 0), "1 a0 z0");
    assert_eq!(craft_wisdom(&store, &tangled, "t", None, SECOND - 1), "1 a0 z0");
    assert_eq!(craft_wisdom(&store, &tangled, "t", None, SECOND), "2 a1 z1");
    assert_eq!(craft_wisdom(&store, &tangled, "t", None, 2 * SECOND), "0 a0 z2");
    assert_eq!(craft_wisdom(&store, &tangled, "t", None, 3 * SECOND), "1 a1 z3");
    assert_eq!(craft_wisdom(&store, &tangled, "t", None, 4 * SECOND), "2 a0 z0");
    let livelier = state(QuantumState::Entangled, 5, ZenMood::Mysterious);
    assert_eq!(craft_wisdom(&store, &livelier, "t", None, 0), "2 a0 z0");
}

#[test]
fn the_largest_time_is_no_trouble() {
    let store = WisdomTemplateStore::with_defaults();
    let brim = state(QuantumState::Resonating, 10, ZenMood::Tranquil);
    // second 18446744073: template (10 + 18446744073) % 5 = 3, adjective 3, phrase 1
    assert_eq!(
        craft_wisdom(&store, &brim, "general", Some("Mochi"), u64::MAX),
        "When you pet Mochi, ripples of synchronous energy spread throughout the universe. The quieter you become, the more you can hear."
    );
}

#[test]
fn a_value_with_a_placeholder_in_it_is_not_filled_again() {
    let mut store = WisdomTemplateStore::new();
    store.add_template(s("general"), s("{quantum}|{zen}|{kitty}"));
    store.add_quantum_adjective(s("Coherent"), s("{zen}"));
    store.add_zen_phrase(s("Contemplative"), s("{kitty} and {name}"));
    let calm = state(QuantumState::Coherent, 5, ZenMood::Contemplative);
    assert_eq!(
        craft_wisdom(&store, &calm, "general", Some("{quantum}"), 0),
        "{zen}|{kitty} and {name}|{quantum}"
    );
}

#[test]
fn end_to_end_wisdom() {
    let mut kitty = QuantumKitty::new();
    let now = 30_007 * SECOND;
    assert_eq!(now / HOUR, 8);
    kitty.state = state(QuantumState::Coherent, 5, ZenMood::Contemplative);
    let response = generate_kitty_wisdom(&mut kitty, s("Mochi"), vec![s("general")], now);
    // template (5 + 30007) % 5 = 2, adjective 30007 % 5 = 2, phrase 30007 % 4 = 3
    assert_eq!(
        response.content,
        "The synchronized observer changes what is observed. Mochi sees your potential across multiple dimensions. The deepest insights come when mind and heart align in quiet contemplation."
    );
    assert_eq!(response.quantum_state, "Coherent");
    assert_eq!(response.energy_level, 5);
    assert_eq!(response.zen_mood, "Contemplative");
    for token in TOKENS {
        assert!(!response.content.contains(token), "{}", token);
    }
    assert!(!response.content.contains('{'));
    assert!(!response.content.contains('}'));
}

#[test]
fn end_to_end_wisdom_in_the_state_of_the_ninth_hour() {
    let mut kitty = QuantumKitty::new();
    let now = 30_007 * SECOND;
    let shown = update_kitty_state(&mut kitty, now);
    assert_eq!(shown.quantum_state(), QuantumState::Coherent);
    assert_eq!(shown.zen_mood(), ZenMood::Contemplative);
    assert_eq!(shown.energy_level(), 7);
    let response = generate_kitty_wisdom(&mut kitty, s("Mochi"), vec![s("general")], now);
    // template (7 + 30007) % 5 = 4
    assert_eq!(
        response.content,
        "Time folds like origami in Mochi's synchronized perception. Your now contains all possible futures. The deepest insights come when mind and heart align in quiet contemplation."
    );
    assert_eq!(response.quantum_state, "Coherent");
    assert_eq!(response.energy_level, 7);
    assert_eq!(response.zen_mood, "Contemplative");
}

#[test]
fn wisdom_reads_the_state_and_does_not_set_it() {
    let mut kitty = QuantumKitty::new();
    let now = 1_700_000_003 * SECOND;
    assert!(kitty.state.is_stale(now));
    let response = generate_kitty_wisdom(&mut kitty, s("Mochi"), vec![s("team"), s("birthday")], now);
    assert_eq!(response.quantum_state, "Superposition");
    assert_eq!(response.energy_level, 5);
    assert_eq!(response.zen_mood, "Tranquil");
    assert_eq!(kitty.state, KittyState::default());
    assert!(!kitty.templates.is_empty());
    // template (5 + 1700000003) % 3 = 1, adjective 3, phrase 3
    assert_eq!(
        response.content,
        "Like particles in multidimensional entanglement, your team's energy affects outcomes beyond what you can see. Mochi sends wisdom for your collaboration. In tranquility, the universe speaks to those who listen."
    );
}

#[test]
fn wisdom_without_a_context_is_general() {
    let mut kitty = QuantumKitty::new();
    let now = 30_007 * SECOND;
    let bare = generate_kitty_wisdom(&mut kitty, s("Mochi"), Vec::new(), now);
    let general = generate_kitty_wisdom(&mut kitty, s("Mochi"), vec![s("general")], now);
    let unknown = generate_kitty_wisdom(&mut kitty, s("Mochi"), vec![s("no such")], now);
    assert_eq!(bare.content, general.content);
    assert_eq!(unknown.content, general.content);
    // the first state has level 5: template (5 + 30007) % 5 = 2
    assert_eq!(
        bare.content,
        "The potential observer changes what is observed. Mochi sees your potential across multiple dimensions. In tranquility, the universe speaks to those who listen."
    );
}

#[test]
fn wisdom_takes_up_what_was_added() {
    let mut kitty = QuantumKitty::new();
    add_wisdom_template(&mut kitty, s("custom"), s("Hi {kitty}, {zen} ({quantum})"));
    add_quantum_adjective(&mut kitty, s("Superposition"), s("sixth"));
    add_zen_phrase(&mut kitty, s("Tranquil"), s("Fifth."));
    // adjective 5 % 6 = 5, phrase 5 % 5 = 0
    let five = generate_kitty_wisdom(&mut kitty, s("Mochi"), vec![s("custom")], 5 * SECOND);
    assert_eq!(
        five.content,
        "Hi Mochi, Peace comes from within, not from external circumstances. (sixth)"
    );
    // adjective 4 % 6 = 4, phrase 4 % 5 = 4
    let four = generate_kitty_wisdom(&mut kitty, s("Mochi"), vec![s("custom")], 4 * SECOND);
    assert_eq!(four.content, "Hi Mochi, Fifth. (probabilistic)");
}

#[test]
fn update_kitty_state_sets_the_state_and_loads_the_store() {
    let mut kitty = QuantumKitty::new();
    let now = 1_700_000_000 * SECOND;
    let shown = update_kitty_state(&mut kitty, now);
    assert_eq!(shown, derive_state(now));
    assert_eq!(kitty.state, shown);
    assert_eq!(shown.last_updated(), now);
    assert!(!kitty.templates.is_empty());
    let again = update_kitty_state(&mut kitty, now + 1);
    assert_eq!(again.last_updated(), now + 1);
    assert_eq!(kitty.state, again);
}

#[test]
fn update_kitty_state_keeps_a_store_with_templates() {
    let mut kitty = QuantumKitty::new();
    kitty.templates.add_template(s("custom"), s("Hi {kitty}"));
    update_kitty_state(&mut kitty, 5 * HOUR);
    assert_eq!(kitty.templates.templates_of(&s("custom")), vec![s("Hi {kitty}")]);
    assert!(kitty.templates.templates_of(&s("general")).is_empty());
}

#[test]
fn init_loads_the_default_corpus_over_what_was_there() {
    let mut kitty = QuantumKitty::new();
    kitty.templates.add_template(s("custom"), s("Hi {kitty}"));
    kitty.bonds.save(vec![1], s("Mochi"));
    init(&mut kitty, 8 * HOUR);
    assert!(kitty.templates.templates_of(&s("custom")).is_empty());
    assert_eq!(kitty.templates.templates_of(&s("general")).len(), 5);
    assert_eq!(kitty.state, derive_state(8 * HOUR));
    assert_eq!(kitty.bonds.name_of(&vec![1]), Some(s("Mochi")));
    add_wisdom_template(&mut kitty, s("custom"), s("Again {kitty}"));
    post_upgrade(&mut kitty, 9 * HOUR);
    assert!(kitty.templates.templates_of(&s("custom")).is_empty());
    assert_eq!(kitty.state, derive_state(9 * HOUR));
    assert_eq!(kitty.bonds.name_of(&vec![1]), Some(s("Mochi")));
}

#[test]
fn quantum_greet_sets_a_stale_state_anew() {
    let mut kitty = QuantumKitty::new();
    let now = 1_700_000_000 * SECOND;
    let response = quantum_greet(&mut kitty, s("Ada"), now);
    assert_eq!(response.quantum_state, "Superposition");
    assert_eq!(response.energy_level, 5);
    assert_eq!(response.zen_mood, "Mysterious");
    assert_eq!(
        response.greeting,
        "*enigmatic purr* Ah, it's Ada... I've been waiting for you across dimensions."
    );
    assert_eq!(kitty.state, derive_state(now));
    assert!(!kitty.templates.is_empty());
}

#[test]
fn quantum_greet_keeps_a_fresh_state() {
    let mut kitty = QuantumKitty::new();
    let then = 6 * HOUR - 1_000 * SECOND;
    update_kitty_state(&mut kitty, then);
    let kept = kitty.state;
    assert_eq!(kept.zen_mood(), ZenMood::Tranquil);
    // the mood turns at six hours, the state is not yet stale
    let now = 6 * HOUR + 1;
    assert_eq!(derive_state(now).zen_mood(), ZenMood::Contemplative);
    let response = quantum_greet(&mut kitty, s("Ada"), now);
    assert_eq!(kitty.state, kept);
    assert_eq!(response.zen_mood, "Tranquil");
    assert_eq!(response.quantum_state, "Entangled");
    assert_eq!(response.energy_level, kept.energy_level());
    assert_eq!(
        response.greeting,
        "Meow there, Ada! The quantum kitty purrs peacefully in your dimension."
    );
    let at_the_edge = quantum_greet(&mut kitty, s("Ada"), then + 1_800 * SECOND);
    assert_eq!(at_the_edge.zen_mood, "Tranquil");
    assert_eq!(kitty.state, kept);
    let past_it = quantum_greet(&mut kitty, s("Ada"), then + 1_800 * SECOND + 1);
    assert_eq!(past_it.zen_mood, "Contemplative");
    assert_eq!(kitty.state, derive_state(then + 1_800 * SECOND + 1));
}

#[test]
fn quantum_greet_leaves_the_store_alone_while_the_state_is_fresh() {
    let mut kitty = QuantumKitty::new();
    let response = quantum_greet(&mut kitty, s("Ada"), 1_000 * SECOND);
    assert!(kitty.templates.is_empty());
    assert_eq!(kitty.state, KittyState::default());
    assert_eq!(response.quantum_state, "Superposition");
    assert_eq!(response.energy_level, 5);
    assert_eq!(response.zen_mood, "Tranquil");
    assert_eq!(
        response.greeting,
        "Meow there, Ada! The quantum kitty purrs peacefully in your dimension."
    );
}
