//! Pipeline-wide laws, proved once over the engine's specification.

use vstd::prelude::*;

use crate::pattern::capture1_of;
use crate::pattern::replacen_of;
use crate::repetition::collapse_spec;
use crate::repetition::has_rep;
use crate::text::apply_from;
use crate::text::apply_spec;
use crate::text::clean_spec;
use crate::text::substitute_spec;

verus! {

/// No-op detection: when no enabled stage would alter `text` — every
/// substitution rule leaves it unchanged, with repetition removal enabled no
/// leading segment of it is duplicated, and a configured dialogue pattern
/// either finds no payload or yields the whole text — the pipeline reports
/// "no change needed".
pub proof fn lemma_clean_noop(
    rules: Seq<(Seq<char>, Seq<char>, nat)>,
    dialogue: Option<Seq<char>>,
    text_repetitions: bool,
    text: Seq<char>,
)
    requires
        apply_spec(rules, text) == text,
        dialogue is None && text_repetitions ==> !has_rep(text),
        dialogue matches Some(p) ==> capture1_of(p, text) is None || capture1_of(p, text) == Some(
            text,
        ),
    ensures
        clean_spec(rules, dialogue, text_repetitions, text) is None,
{
}

/// Rules chain: running two rules applies the second to the output of the
/// first, not to the original text.
pub proof fn lemma_rules_chain(
    r1: (Seq<char>, Seq<char>, nat),
    r2: (Seq<char>, Seq<char>, nat),
    text: Seq<char>,
)
    ensures
        apply_spec(seq![r1, r2], text) == replacen_of(
            r2.0,
            replacen_of(r1.0, text, r1.2, r1.1),
            r2.2,
            r2.1,
        ),
{
    let rules = seq![r1, r2];
    let t1 = replacen_of(r1.0, text, r1.2, r1.1);
    let t2 = replacen_of(r2.0, t1, r2.2, r2.1);
    assert(apply_from(rules, 2, t2) == t2);
    assert(apply_from(rules, 1, t1) == apply_from(rules, 2, t2));
    assert(apply_from(rules, 0, text) == apply_from(rules, 1, t1));
}

/// Rules chain, at the substitution stage: under two rules, the stage's
/// result is the second rule's rewrite of the first rule's output — not of
/// the original text — reported as a change exactly when it differs from
/// that text.
pub proof fn lemma_substitute_chain(
    r1: (Seq<char>, Seq<char>, nat),
    r2: (Seq<char>, Seq<char>, nat),
    text: Seq<char>,
)
    ensures
        ({
            let t2 = replacen_of(r2.0, replacen_of(r1.0, text, r1.2, r1.1), r2.2, r2.1);
            substitute_spec(seq![r1, r2], text) == (if t2 == text {
                None
            } else {
                Some(t2)
            })
        }),
{
    lemma_rules_chain(r1, r2, text);
}

/// Repetition-aware composition: with repetition removal enabled and no
/// dialogue pattern, when the substitution stage changes the text and
/// repetition collapse further changes the substitution output, one call
/// yields both effects. In the corner where collapsing the substitution
/// output recreates the input, the pipeline's net invariant prevails and
/// "no change needed" is reported instead.
pub proof fn lemma_repetition_aware_composition(
    rules: Seq<(Seq<char>, Seq<char>, nat)>,
    text: Seq<char>,
    t1: Seq<char>,
    t2: Seq<char>,
)
    requires
        substitute_spec(rules, text) == Some(t1),
        collapse_spec(t1) == Some(t2),
    ensures
        clean_spec(rules, None, true, text) == (if t2 == text {
            None
        } else {
            Some(t2)
        }),
{
}

/// Round-trip stability: when cleaning changed `text` into `out` and no
/// enabled stage would alter `out` any further, cleaning `out` reports "no
/// change needed".
pub proof fn lemma_round_trip(
    rules: Seq<(Seq<char>, Seq<char>, nat)>,
    dialogue: Option<Seq<char>>,
    text_repetitions: bool,
    text: Seq<char>,
    out: Seq<char>,
)
    requires
        clean_spec(rules, dialogue, text_repetitions, text) == Some(out),
        apply_spec(rules, out) == out,
        dialogue is None && text_repetitions ==> !has_rep(out),
        dialogue matches Some(p) ==> capture1_of(p, out) is None || capture1_of(p, out) == Some(
            out,
        ),
    ensures
        clean_spec(rules, dialogue, text_repetitions, out) is None,
{
    lemma_clean_noop(rules, dialogue, text_repetitions, out);
}

/// The pipeline never hands back the input as a change: a returned text
/// always differs from the one given.
pub proof fn lemma_clean_never_returns_input(
    rules: Seq<(Seq<char>, Seq<char>, nat)>,
    dialogue: Option<Seq<char>>,
    text_repetitions: bool,
    text: Seq<char>,
)
    ensures
        clean_spec(rules, dialogue, text_repetitions, text) matches Some(s) ==> s != text,
{
}

} // verus!
