use csmcl_qkitty_backend::text::{copy_texts, holds_text, to_chars};
use csmcl_qkitty_backend::{Catalog, WisdomTemplateStore};

fn s(text: &str) -> String {
    text.to_string()
}

#[test]
fn to_chars_takes_a_text_apart() {
    assert_eq!(to_chars(""), Vec::<char>::new());
    assert_eq!(to_chars("a{b}"), vec!['a', '{', 'b', '}']);
    assert_eq!(to_chars("é猫🐱"), vec!['é', '猫', '🐱']);
}

#[test]
fn holds_text_looks_for_the_whole_text() {
    let texts = vec![s("one"), s("two"), s("")];
    assert!(holds_text(&texts, &s("one")));
    assert!(holds_text(&texts, &s("two")));
    assert!(holds_text(&texts, &s("")));
    assert!(!holds_text(&texts, &s("on")));
    assert!(!holds_text(&texts, &s("One")));
    assert!(!holds_text(&Vec::new(), &s("one")));
}

#[test]
fn copy_texts_copies_in_order() {
    let texts = vec![s("b"), s("a"), s("b")];
    assert_eq!(copy_texts(&texts), texts);
    assert_eq!(copy_texts(&Vec::new()), Vec::<String>::new());
}

#[test]
fn keys_lists_each_key_once() {
    let mut catalog = Catalog::new();
    assert!(catalog.keys().is_empty());
    catalog.add(s("one"), s("x"));
    catalog.add(s("two"), s("x"));
    catalog.add(s("one"), s("y"));
    let mut keys = catalog.keys();
    keys.sort();
    assert_eq!(keys, vec![s("one"), s("two")]);
}

#[test]
fn the_default_corpus_lists_its_keys() {
    let store = WisdomTemplateStore::with_defaults();
    let mut contexts = store.contexts();
    contexts.sort();
    assert_eq!(contexts, vec![s("birthday"), s("bonding"), s("general"), s("reunion"), s("team")]);
    let mut states = store.adjective_states();
    states.sort();
    assert_eq!(
        states,
        vec![s("Coherent"), s("Entangled"), s("Folded"), s("Resonating"), s("Superposition")]
    );
    let mut moods = store.phrase_moods();
    moods.sort();
    assert_eq!(
        moods,
        vec![s("Contemplative"), s("Enlightened"), s("Mysterious"), s("Playful"), s("Tranquil")]
    );
    assert!(WisdomTemplateStore::new().contexts().is_empty());
}
