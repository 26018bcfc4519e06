//! A time-driven text engine: a clock that turns a timestamp into a mood, and
//! a composer that picks a template by that mood and fills its placeholders.

pub mod bonds;
pub mod catalog;
pub mod clock;
pub mod corpus;
pub mod fill;
pub mod greeting;
pub mod kitty;
pub mod store;
pub mod text;
pub mod wisdom;

pub use bonds::KittyBonds;
pub use catalog::Catalog;
pub use clock::{derive_state, KittyState, QuantumState, ZenMood};
pub use fill::{fill, Binding};
pub use greeting::{greet, mood_greeting};
pub use kitty::{
    add_quantum_adjective, add_wisdom_template, add_zen_phrase, ensure_templates_loaded,
    generate_kitty_wisdom, get_kitty_name, get_templates_for_context, init, post_upgrade,
    quantum_greet, save_kitty_name, update_kitty_state, QuantumKitty, QuantumResponse,
    WisdomResponse,
};
pub use store::WisdomTemplateStore;
pub use wisdom::craft_wisdom;
