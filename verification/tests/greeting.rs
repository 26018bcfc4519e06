use csmcl_qkitty_backend::{greet, mood_greeting, ZenMood};

const SECOND: u64 = 1_000_000_000;

#[test]
fn greet_is_a_fixed_sentence() {
    assert_eq!(
        greet("Ada".to_string()),
        "Hello, Ada! (The quantum kitty is sleeping in this function)"
    );
    assert_eq!(greet(String::new()), "Hello, ! (The quantum kitty is sleeping in this function)");
    assert_eq!(
        greet("{name}".to_string()),
        "Hello, {name}! (The quantum kitty is sleeping in this function)"
    );
}

#[test]
fn tranquil_greetings() {
    assert_eq!(
        mood_greeting(ZenMood::Tranquil, "Ada", 0),
        "Meow there, Ada! The quantum kitty purrs peacefully in your dimension."
    );
    assert_eq!(
        mood_greeting(ZenMood::Tranquil, "Ada", SECOND),
        "*gentle paw tap* Hello Ada. I exist in a state of tranquil awareness."
    );
}

#[test]
fn contemplative_greetings() {
    assert_eq!(
        mood_greeting(ZenMood::Contemplative, "Ada", 2 * SECOND),
        "Greetings Ada. This kitty ponders the nature of your quantum signature."
    );
    assert_eq!(
        mood_greeting(ZenMood::Contemplative, "Ada", 3 * SECOND),
        "*thoughtful gaze* Hello Ada. I'm contemplating the patterns of our meeting across timelines."
    );
}

#[test]
fn playful_greetings() {
    assert_eq!(
        mood_greeting(ZenMood::Playful, "Ada", 10 * SECOND),
        "*playful pounce* Hi Ada! Ready to explore quantum possibilities together?"
    );
    assert_eq!(
        mood_greeting(ZenMood::Playful, "Ada", 11 * SECOND),
        "Meow! Ada! The quantum kitty is feeling especially bouncy in this timeline!"
    );
}

#[test]
fn mysterious_greetings() {
    assert_eq!(
        mood_greeting(ZenMood::Mysterious, "Ada", 1_700_000_000 * SECOND),
        "*enigmatic purr* Ah, it's Ada... I've been waiting for you across dimensions."
    );
    assert_eq!(
        mood_greeting(ZenMood::Mysterious, "Ada", 1_700_000_001 * SECOND),
        "The shadows between realities part as you approach, Ada. How curious."
    );
}

#[test]
fn enlightened_greetings() {
    assert_eq!(
        mood_greeting(ZenMood::Enlightened, "Ada", 4 * SECOND),
        "*wise nod* Welcome, Ada. Your arrival was both unexpected and inevitable."
    );
    assert_eq!(
        mood_greeting(ZenMood::Enlightened, "Ada", 5 * SECOND),
        "The quantum field shifts with your presence, Ada. All is as it should be."
    );
}

#[test]
fn the_greeting_turns_with_the_whole_second() {
    let even = mood_greeting(ZenMood::Tranquil, "Ada", 0);
    let odd = mood_greeting(ZenMood::Tranquil, "Ada", SECOND);
    assert_ne!(even, odd);
    assert_eq!(mood_greeting(ZenMood::Tranquil, "Ada", SECOND - 1), even);
    assert_eq!(mood_greeting(ZenMood::Tranquil, "Ada", 2 * SECOND - 1), odd);
    assert_eq!(mood_greeting(ZenMood::Tranquil, "Ada", 2 * SECOND), even);
    assert_eq!(mood_greeting(ZenMood::Tranquil, "Ada", u64::MAX), odd);
}

#[test]
fn a_name_with_a_slot_in_it_is_put_in_once() {
    assert_eq!(
        mood_greeting(ZenMood::Contemplative, "{}", 2 * SECOND),
        "Greetings {}. This kitty ponders the nature of your quantum signature."
    );
    assert_eq!(
        mood_greeting(ZenMood::Contemplative, "", 2 * SECOND),
        "Greetings . This kitty ponders the nature of your quantum signature."
    );
}
