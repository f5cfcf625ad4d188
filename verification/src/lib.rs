//! Text cleaning engine: an ordered pipeline that rewrites a text buffer's
//! contents according to user-defined rules. It strips quote/bracket noise
//! around dialogue, applies pattern-based substitutions with per-rule limits,
//! and collapses accidentally duplicated leading phrases.

mod laws;
mod pattern;
mod repetition;
mod text;
mod utils;

pub use laws::lemma_clean_never_returns_input;
pub use laws::lemma_clean_noop;
pub use laws::lemma_repetition_aware_composition;
pub use laws::lemma_round_trip;
pub use laws::lemma_rules_chain;
pub use laws::lemma_substitute_chain;
pub use pattern::capture1_of;
pub use pattern::compiles_of;
pub use pattern::replacen_of;
pub use pattern::Pattern;

pub use repetition::collapse_repetition;
pub use repetition::collapse_spec;
pub use repetition::has_rep;
pub use repetition::is_last_occurrence;
pub use repetition::is_prefix_of;
pub use repetition::is_shortest_rep;
pub use repetition::occurs_at;
pub use repetition::rep_at;
pub use text::apply_from;
pub use text::apply_spec;
pub use text::clean_spec;
pub use text::default_dialogue_pattern;
pub use text::dialogue_of;
pub use text::extract;
pub use text::is_jp;
pub use text::is_jp_char;
pub use text::pipeline_spec;
pub use text::rules_of;
pub use text::substitute_spec;
pub use text::Cleaner;
pub use text::Config;
pub use text::Replace;
pub use utils::ResultExt;
