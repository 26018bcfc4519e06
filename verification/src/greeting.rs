//! Greetings: a plain one, and one in the tone of the kitty's zen mood.

use vstd::prelude::*;
use crate::clock::{seconds_of, ZenMood, NANOS_PER_SECOND};
use crate::fill::{fill, filled, rules_of, Binding, Rule};

verus! {

/// The placeholder for the name of the one who is greeted.
pub const SLOT: &'static str = "{}";

/// What the plain greeting says before the name.
pub const HELLO_BEFORE: &'static str = "Hello, ";

/// What the plain greeting says after the name.
pub const HELLO_AFTER: &'static str = "! (The quantum kitty is sleeping in this function)";

/// The greeting templates, two for each zen mood.
pub const TRANQUIL_GREETING_1: &'static str = "Meow there, {}! The quantum kitty purrs peacefully in your dimension.";

pub const TRANQUIL_GREETING_2: &'static str = "*gentle paw tap* Hello {}. I exist in a state of tranquil awareness.";

pub const CONTEMPLATIVE_GREETING_1: &'static str = "Greetings {}. This kitty ponders the nature of your quantum signature.";

pub const CONTEMPLATIVE_GREETING_2: &'static str = "*thoughtful gaze* Hello {}. I'm contemplating the patterns of our meeting across timelines.";

pub const PLAYFUL_GREETING_1: &'static str = "*playful pounce* Hi {}! Ready to explore quantum possibilities together?";

pub const PLAYFUL_GREETING_2: &'static str = "Meow! {}! The quantum kitty is feeling especially bouncy in this timeline!";

pub const MYSTERIOUS_GREETING_1: &'static str = "*enigmatic purr* Ah, it's {}... I've been waiting for you across dimensions.";

pub const MYSTERIOUS_GREETING_2: &'static str = "The shadows between realities part as you approach, {}. How curious.";

pub const ENLIGHTENED_GREETING_1: &'static str = "*wise nod* Welcome, {}. Your arrival was both unexpected and inevitable.";

pub const ENLIGHTENED_GREETING_2: &'static str = "The quantum field shifts with your presence, {}. All is as it should be.";

/// The plain greeting for `name`.
pub open spec fn hello_text(name: Seq<char>) -> Seq<char> {
    HELLO_BEFORE@ + name + HELLO_AFTER@
}

/// The greeting template of `mood` in second `second`: the first of the
/// mood's two in an even second, the second in an odd one.
pub open spec fn greeting_template(mood: ZenMood, second: int) -> Seq<char> {
    let first = second % 2 == 0;
    match mood {
        ZenMood::Tranquil => if first {
            TRANQUIL_GREETING_1@
        } else {
            TRANQUIL_GREETING_2@
        },
        ZenMood::Contemplative => if first {
            CONTEMPLATIVE_GREETING_1@
        } else {
            CONTEMPLATIVE_GREETING_2@
        },
        ZenMood::Playful => if first {
            PLAYFUL_GREETING_1@
        } else {
            PLAYFUL_GREETING_2@
        },
        ZenMood::Mysterious => if first {
            MYSTERIOUS_GREETING_1@
        } else {
            MYSTERIOUS_GREETING_2@
        },
        ZenMood::Enlightened => if first {
            ENLIGHTENED_GREETING_1@
        } else {
            ENLIGHTENED_GREETING_2@
        },
    }
}

/// The one placeholder of a greeting template with the name that takes its
/// place.
pub open spec fn greeting_rules(name: Seq<char>) -> Seq<Rule> {
    seq![(SLOT@, name)]
}

/// The greeting for `name` in the tone of `mood` at `now`.
pub open spec fn greeting_text(mood: ZenMood, name: Seq<char>, now: u64) -> Seq<char> {
    filled(greeting_template(mood, seconds_of(now)), greeting_rules(name))
}

/// A greeting that does not look at the kitty's state.
pub fn greet(name: String) -> (greeting: String)
    ensures
        greeting@ == hello_text(name@),
{
    let mut greeting = String::from_str(HELLO_BEFORE);
    greeting.append(name.as_str());
    greeting.append(HELLO_AFTER);
    greeting
}

/// The greeting template of `mood` in second `second`.
pub fn greeting_template_at(mood: ZenMood, second: u64) -> (template: &'static str)
    ensures
        template@ == greeting_template(mood, second as int),
{
    let first = second % 2 == 0;
    match mood {
        ZenMood::Tranquil => if first {
            TRANQUIL_GREETING_1
        } else {
            TRANQUIL_GREETING_2
        },
        ZenMood::Contemplative => if first {
            CONTEMPLATIVE_GREETING_1
        } else {
            CONTEMPLATIVE_GREETING_2
        },
        ZenMood::Playful => if first {
            PLAYFUL_GREETING_1
        } else {
            PLAYFUL_GREETING_2
        },
        ZenMood::Mysterious => if first {
            MYSTERIOUS_GREETING_1
        } else {
            MYSTERIOUS_GREETING_2
        },
        ZenMood::Enlightened => if first {
            ENLIGHTENED_GREETING_1
        } else {
            ENLIGHTENED_GREETING_2
        },
    }
}

/// Greets `name` in the tone of `mood`: takes the mood's template for the
/// second that `now` lies in and puts the name in its place.
pub fn mood_greeting(mood: ZenMood, name: &str, now: u64) -> (greeting: String)
    ensures
        greeting@ == greeting_text(mood, name@, now),
{
    let template = greeting_template_at(mood, now / NANOS_PER_SECOND);
    let bindings = vec![Binding { token: String::from_str(SLOT), value: String::from_str(name) }];
    assert(rules_of(bindings@) =~= greeting_rules(name@));
    fill(template, &bindings)
}

} // verus!
