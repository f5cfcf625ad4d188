//! The text cleaning engine: substitution rules, dialogue extraction and the
//! composed cleaning pipeline.

use vstd::prelude::*;

use crate::pattern::capture1;
use crate::pattern::capture1_of;
use crate::pattern::compiles_of;
use crate::pattern::replacen;
use crate::pattern::replacen_of;
use crate::pattern::Pattern;
use crate::repetition::collapse_repetition;
use crate::repetition::collapse_spec;

verus! {

/// `c` lies in one of the Japanese script blocks the cleaner watches for:
/// punctuation, hiragana, katakana, fullwidth forms, or common or rare kanji.
pub open spec fn is_jp_char(c: char) -> bool {
    let u = c as u32;
    (0x3000 <= u && u <= 0x303f) || (0x3040 <= u && u <= 0x309f) || (0x30a0 <= u && u <= 0x30ff)
        || (0xff00 <= u && u <= 0xffef) || (0x4e00 <= u && u <= 0x9faf) || (0x3400 <= u && u
        <= 0x4dbf)
}

/// Determines whether `text` contains Japanese: true exactly when some
/// character of it lies in one of the watched Japanese script blocks.
pub fn is_jp(text: &str) -> (r: bool)
    ensures
        r == exists|i: int| 0 <= i < text@.len() && is_jp_char(text@[i]),
{
    let n = text.unicode_len();
    let mut i: usize = 0;
    while i < n
        invariant
            n == text@.len(),
            i <= n,
            forall|j: int| 0 <= j < i ==> !is_jp_char(text@[j]),
        decreases n - i,
    {
        let c = text.get_char(i);
        let u = c as u32;
        if (0x3000 <= u && u <= 0x303f) || (0x3040 <= u && u <= 0x309f) || (0x30a0 <= u && u
            <= 0x30ff) || (0xff00 <= u && u <= 0xffef) || (0x4e00 <= u && u <= 0x9faf) || (0x3400
            <= u && u <= 0x4dbf) {
            assert(is_jp_char(text@[i as int]));
            return true;
        }
        i += 1;
    }
    false
}

/// One substitution rule: rewrite matches of `pattern` by `replacement`,
/// at most `limit` of them (`limit == 0` means all).
pub struct Replace {
    pub pattern: Pattern,
    pub replacement: String,
    pub limit: usize,
}

impl View for Replace {
    /// A rule as (pattern text, replacement template, limit).
    type V = (Seq<char>, Seq<char>, nat);

    open spec fn view(&self) -> (Seq<char>, Seq<char>, nat) {
        (self.pattern@, self.replacement@, self.limit as nat)
    }
}

impl Replace {
    /// Builds a rule, compiling `pattern`; fails exactly when the pattern
    /// text is not a valid regular expression.
    pub fn new(pattern: &str, replacement: String, limit: usize) -> (r: Result<Replace, String>)
        ensures
            r matches Ok(rule) ==> rule@ == (pattern@, replacement@, limit as nat),
            r is Ok <==> compiles_of(pattern@),
    {
        match Pattern::new(pattern) {
            Ok(p) => Ok(Replace { pattern: p, replacement, limit }),
            Err(e) => Err(e),
        }
    }
}

/// The rule set the engine is constructed with: ordered substitution rules,
/// an optional dialogue-extraction pattern, and the repetition toggle.
///
/// The mode of the cleaning pipeline follows from the fields: a configured
/// `dialogue` pattern selects dialogue-first cleaning; otherwise
/// `text_repetitions` selects repetition-aware cleaning; otherwise only the
/// substitution rules run.
pub struct Config {
    pub replace: Option<Vec<Replace>>,
    pub dialogue: Option<Pattern>,
    pub text_repetitions: bool,
}

/// The substitution rules of `c`, as (pattern, replacement, limit) triples.
pub open spec fn rules_of(c: &Config) -> Seq<(Seq<char>, Seq<char>, nat)> {
    match c.replace {
        Some(v) => v@.map_values(|r: Replace| r@),
        None => Seq::empty(),
    }
}

/// The dialogue pattern text of `c`, if one is configured.
pub open spec fn dialogue_of(c: &Config) -> Option<Seq<char>> {
    match c.dialogue {
        Some(p) => Some(p@),
        None => None,
    }
}

/// `text` after the rules from position `i` on, each applied to the output
/// of the one before it.
pub open spec fn apply_from(
    rules: Seq<(Seq<char>, Seq<char>, nat)>,
    i: int,
    text: Seq<char>,
) -> Seq<char>
    decreases rules.len() - i,
{
    if i < 0 || i >= rules.len() {
        text
    } else {
        apply_from(rules, i + 1, replacen_of(rules[i].0, text, rules[i].2, rules[i].1))
    }
}

/// `text` after every rule ran in declared order, each applied to the output
/// of the previous rule.
pub open spec fn apply_spec(rules: Seq<(Seq<char>, Seq<char>, nat)>, text: Seq<char>) -> Seq<char> {
    apply_from(rules, 0, text)
}

/// The substitution stage: the rewritten text, or `None` when running every
/// rule leaves `text` unchanged.
pub open spec fn substitute_spec(
    rules: Seq<(Seq<char>, Seq<char>, nat)>,
    text: Seq<char>,
) -> Option<Seq<char>> {
    if apply_spec(rules, text) == text {
        None
    } else {
        Some(apply_spec(rules, text))
    }
}

/// The candidate output of the pipeline, before the final no-change check.
///
/// With a dialogue pattern, extraction runs first; an extracted payload is
/// passed through the substitution rules and counts as a change by itself,
/// while on no match the rules run on the raw text. Without one, the rules
/// run first, and with `text_repetitions` set, repetition collapse runs on
/// their output (or, when they changed nothing, on the raw text).
pub open spec fn pipeline_spec(
    rules: Seq<(Seq<char>, Seq<char>, nat)>,
    dialogue: Option<Seq<char>>,
    text_repetitions: bool,
    text: Seq<char>,
) -> Option<Seq<char>> {
    match dialogue {
        Some(p) => match capture1_of(p, text) {
            Some(payload) => Some(apply_spec(rules, payload)),
            None => substitute_spec(rules, text),
        },
        None => if text_repetitions {
            match substitute_spec(rules, text) {
                Some(t1) => match collapse_spec(t1) {
                    Some(t2) => Some(t2),
                    None => Some(t1),
                },
                None => collapse_spec(text),
            }
        } else {
            substitute_spec(rules, text)
        },
    }
}

/// The pipeline result: the candidate output, except that a candidate equal
/// to the input is reported as "no change needed".
pub open spec fn clean_spec(
    rules: Seq<(Seq<char>, Seq<char>, nat)>,
    dialogue: Option<Seq<char>>,
    text_repetitions: bool,
    text: Seq<char>,
) -> Option<Seq<char>> {
    match pipeline_spec(rules, dialogue, text_repetitions, text) {
        Some(t) => if t == text {
            None
        } else {
            Some(t)
        },
        None => None,
    }
}

/// The dialogue extraction stage: the text of capture group 1 when `pattern`
/// matches `text`, `None` when it does not match at all.
pub fn extract(pattern: &Pattern, text: &str) -> (r: Option<String>)
    ensures
        match r {
            Some(s) => capture1_of(pattern@, text@) == Some(s@),
            None => capture1_of(pattern@, text@) is None,
        },
{
    capture1(pattern, text)
}

/// The default dialogue pattern: a `「` or `（` opening bracket, optional
/// whitespace, then a capture of one or more characters that are none of
/// `」`, plain space and `）`.
pub fn default_dialogue_pattern() -> (r: Result<Pattern, String>)
    ensures
        r matches Ok(p) ==> p@ == "[「（]\\s*([^」 ）]+)"@,
        r is Ok <==> compiles_of("[「（]\\s*([^」 ）]+)"@),
{
    Pattern::new("[「（]\\s*([^」 ）]+)")
}

/// The cleaning engine: a rule set fixed at construction and a pure `clean`
/// operation on it.
pub struct Cleaner {
    config: Config,
}

impl Cleaner {
    /// The rule set this engine was constructed with.
    pub closed spec fn config(&self) -> &Config {
        &self.config
    }

    pub fn new(config: Config) -> (r: Cleaner)
        ensures
            rules_of(r.config()) == rules_of(&config),
            dialogue_of(r.config()) == dialogue_of(&config),
            r.config().text_repetitions == config.text_repetitions,
    {
        Cleaner { config }
    }

    /// The substitution stage: applies each rule in declared order to the
    /// output of the previous one, each capped by its own limit; reports
    /// `None` when the final text is identical to the input.
    fn replace(&self, text: &str) -> (r: Option<String>)
        ensures
            match r {
                Some(s) => substitute_spec(rules_of(self.config()), text@) == Some(s@) && s@
                    != text@,
                None => substitute_spec(rules_of(self.config()), text@) is None,
            },
    {
        let rules = match self.config.replace.as_ref() {
            Some(rules) => rules,
            None => {
                return None;
            },
        };
        let ghost models = rules_of(self.config());
        proof {
            assert(models.len() == rules@.len());
        }
        let mut cur: String = text.to_owned();
        let mut i: usize = 0;
        while i < rules.len()
            invariant
                models == rules@.map_values(|r: Replace| r@),
                models.len() == rules@.len(),
                i <= rules@.len(),
                apply_from(models, 0, text@) == apply_from(models, i as int, cur@),
            decreases rules@.len() - i,
        {
            let rule = &rules[i];
            proof {
                assert(models[i as int] == rule@);
            }
            let next = replacen(&rule.pattern, cur.as_str(), rule.limit, rule.replacement.as_str());
            proof {
                assert(apply_from(models, i as int, cur@) == apply_from(
                    models,
                    i + 1,
                    replacen_of(models[i as int].0, cur@, models[i as int].2, models[i as int].1),
                ));
            }
            cur = next;
            i += 1;
        }
        if cur == text.to_owned() {
            None
        } else {
            Some(cur)
        }
    }

    /// The repetition collapse stage on its own: see `collapse_repetition`.
    pub fn remove_text_reps(&self, text: &str) -> (r: Option<String>)
        ensures
            match r {
                None => collapse_spec(text@) is None,
                Some(out) => collapse_spec(text@) == Some(out@) && out@ != text@,
            },
    {
        collapse_repetition(text)
    }

    /// The cleaning pipeline: returns the cleaned text, or `None` when no
    /// enabled stage alters `text`. Never returns the input unchanged.
    pub fn clean(&self, text: &str) -> (r: Option<String>)
        ensures
            ({
                let cs = clean_spec(
                    rules_of(self.config()),
                    dialogue_of(self.config()),
                    self.config().text_repetitions,
                    text@,
                );
                match r {
                    Some(s) => cs == Some(s@),
                    None => cs is None,
                }
            }),
            r matches Some(s) ==> s@ != text@,
    {
        let candidate: Option<String> = match self.config.dialogue.as_ref() {
            Some(p) => match extract(p, text) {
                Some(payload) => match self.replace(payload.as_str()) {
                    Some(t) => Some(t),
                    None => Some(payload),
                },
                None => self.replace(text),
            },
            None => if self.config.text_repetitions {
                match self.replace(text) {
                    Some(t1) => match self.remove_text_reps(t1.as_str()) {
                        Some(t2) => Some(t2),
                        None => Some(t1),
                    },
                    None => self.remove_text_reps(text),
                }
            } else {
                self.replace(text)
            },
        };
        match candidate {
            Some(s) => if s == text.to_owned() {
                None
            } else {
                Some(s)
            },
            None => None,
        }
    }
}

} // verus!
