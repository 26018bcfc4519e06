//! Filling a template: one pass over the text from left to right, in which
//! each placeholder token found is replaced by its value. A value that has
//! been put in is never read again, so a token inside a value stays as it is.

use vstd::prelude::*;
use crate::text::to_chars;

verus! {

/// A placeholder token and the text that takes its place.
pub struct Binding {
    pub token: String,
    pub value: String,
}

/// A binding as the pair of its token and its value.
pub type Rule = (Seq<char>, Seq<char>);

/// The rules that a list of bindings stands for, in order.
pub open spec fn rules_of(bindings: Seq<Binding>) -> Seq<Rule> {
    bindings.map_values(|b: Binding| (b.token@, b.value@))
}

/// True where `token` stands in `text` at position `at`.
pub open spec fn stands_at(text: Seq<char>, at: int, token: Seq<char>) -> bool {
    &&& 0 <= at
    &&& at + token.len() <= text.len()
    &&& text.subrange(at, at + token.len()) == token
}

/// The first rule from place `from` on whose token is not empty and stands in
/// `text` at `at`; none where there is no such rule.
pub open spec fn rule_at(text: Seq<char>, at: int, rules: Seq<Rule>, from: int) -> Option<int>
    decreases rules.len() - from,
{
    if from < 0 || from >= rules.len() {
        None
    } else if rules[from].0.len() > 0 && stands_at(text, at, rules[from].0) {
        Some(from)
    } else {
        rule_at(text, at, rules, from + 1)
    }
}

/// How far the pass moves on from `at`: over the token that stands there, or
/// over one character.
pub open spec fn stride(text: Seq<char>, at: int, rules: Seq<Rule>) -> int {
    match rule_at(text, at, rules, 0) {
        Some(k) => rules[k].0.len() as int,
        None => 1,
    }
}

/// What the pass puts out at `at`: the value of the token that stands there,
/// or the character itself.
pub open spec fn output_at(text: Seq<char>, at: int, rules: Seq<Rule>) -> Seq<char> {
    match rule_at(text, at, rules, 0) {
        Some(k) => rules[k].1,
        None => seq![text[at]],
    }
}

/// The text that the pass puts out from position `at` to the end of `text`.
pub open spec fn filled_from(text: Seq<char>, at: int, rules: Seq<Rule>) -> Seq<char>
    decreases text.len() - at,
    via filled_from_ends
{
    if at < 0 || at >= text.len() {
        Seq::empty()
    } else {
        output_at(text, at, rules) + filled_from(text, at + stride(text, at, rules), rules)
    }
}

#[via_fn]
proof fn filled_from_ends(text: Seq<char>, at: int, rules: Seq<Rule>) {
    lemma_rule_at(text, at, rules, 0);
}

/// `text` with every token replaced by its value, in one pass from the left.
pub open spec fn filled(text: Seq<char>, rules: Seq<Rule>) -> Seq<char> {
    filled_from(text, 0, rules)
}

/// True where some rule's token stands somewhere in `text`.
pub open spec fn has_token(text: Seq<char>, rules: Seq<Rule>) -> bool {
    exists|at: int| 0 <= at < text.len() && (#[trigger] rule_at(text, at, rules, 0)) is Some
}

/// The rule that `rule_at` finds is one of the rules, not before `from`, and
/// its token is not empty and stands at `at`; no earlier rule from `from` on
/// is such a rule.
pub proof fn lemma_rule_at(text: Seq<char>, at: int, rules: Seq<Rule>, from: int)
    requires
        0 <= from,
    ensures
        match rule_at(text, at, rules, from) {
            Some(k) => {
                &&& from <= k < rules.len()
                &&& rules[k].0.len() > 0
                &&& stands_at(text, at, rules[k].0)
                &&& forall|j: int|
                    from <= j < k ==> !(rules[j].0.len() > 0 && stands_at(text, at, #[trigger] rules[j].0))
            },
            None => forall|j: int|
                from <= j < rules.len() ==> !(rules[j].0.len() > 0 && stands_at(
                    text,
                    at,
                    #[trigger] rules[j].0,
                )),
        },
    decreases rules.len() - from,
{
    if from < rules.len() && !(rules[from].0.len() > 0 && stands_at(text, at, rules[from].0)) {
        lemma_rule_at(text, at, rules, from + 1);
    }
}

/// A text in which no token stands comes out of the pass as it went in.
pub proof fn lemma_filled_plain(text: Seq<char>, rules: Seq<Rule>)
    requires
        !has_token(text, rules),
    ensures
        filled(text, rules) == text,
{
    lemma_filled_plain_from(text, 0, rules);
    assert(text.subrange(0, text.len() as int) =~= text);
}

proof fn lemma_filled_plain_from(text: Seq<char>, at: int, rules: Seq<Rule>)
    requires
        !has_token(text, rules),
        0 <= at <= text.len(),
    ensures
        filled_from(text, at, rules) == text.subrange(at, text.len() as int),
    decreases text.len() - at,
{
    if at < text.len() {
        assert(rule_at(text, at, rules, 0) is None);
        lemma_filled_plain_from(text, at + 1, rules);
        assert(seq![text[at]] + text.subrange(at + 1, text.len() as int) =~= text.subrange(
            at,
            text.len() as int,
        ));
    } else {
        assert(text.subrange(at, text.len() as int) =~= Seq::<char>::empty());
    }
}

/// A text that nowhere holds the first character of any token holds no token.
pub proof fn lemma_no_token_without_opener(text: Seq<char>, rules: Seq<Rule>, opener: char)
    requires
        forall|i: int| 0 <= i < text.len() ==> text[i] != opener,
        forall|k: int| 0 <= k < rules.len() && (#[trigger] rules[k]).0.len() > 0 ==> rules[k].0[0] == opener,
    ensures
        !has_token(text, rules),
{
    assert forall|at: int| 0 <= at < text.len() implies (#[trigger] rule_at(text, at, rules, 0)) is None by {
        lemma_rule_at(text, at, rules, 0);
        if rule_at(text, at, rules, 0) is Some {
            let k = rule_at(text, at, rules, 0)->0;
            let token = rules[k].0;
            assert(text.subrange(at, at + token.len())[0] == token[0]);
        }
    }
}

/// Tells whether `token` stands in `text` at `at`.
fn stands(text: &Vec<char>, at: usize, token: &Vec<char>) -> (found: bool)
    requires
        at <= text.len(),
    ensures
        found == stands_at(text@, at as int, token@),
{
    if token.len() > text.len() - at {
        return false;
    }
    let mut i: usize = 0;
    while i < token.len()
        invariant
            i <= token.len(),
            at + token.len() <= text.len(),
            forall|j: int| 0 <= j < i ==> text@[at + j] == token@[j],
        decreases token.len() - i,
    {
        if text[at + i] != token[i] {
            assert(text@.subrange(at as int, at + token.len())[i as int] != token@[i as int]);
            return false;
        }
        i += 1;
    }
    assert(text@.subrange(at as int, at + token.len()) =~= token@);
    true
}

/// The first rule whose token is not empty and stands in `text` at `at`.
fn find_rule(text: &Vec<char>, at: usize, tokens: &Vec<Vec<char>>, Ghost(rules): Ghost<Seq<Rule>>) -> (hit:
    Option<usize>)
    requires
        at <= text.len(),
        tokens.len() == rules.len(),
        forall|k: int| 0 <= k < rules.len() ==> (#[trigger] tokens@[k])@ == rules[k].0,
    ensures
        match hit {
            Some(k) => rule_at(text@, at as int, rules, 0) == Some(k as int),
            None => rule_at(text@, at as int, rules, 0) is None,
        },
{
    let mut k: usize = 0;
    while k < tokens.len()
        invariant
            k <= tokens.len(),
            at <= text.len(),
            tokens.len() == rules.len(),
            forall|j: int| 0 <= j < rules.len() ==> (#[trigger] tokens@[j])@ == rules[j].0,
            rule_at(text@, at as int, rules, 0) == rule_at(text@, at as int, rules, k as int),
        decreases tokens.len() - k,
    {
        assert(tokens@[k as int]@ == rules[k as int].0);
        if tokens[k].len() > 0 && stands(text, at, &tokens[k]) {
            return Some(k);
        }
        k += 1;
    }
    None
}

/// The tokens of `bindings`, each as a vector of characters.
fn tokens_of(bindings: &Vec<Binding>) -> (tokens: Vec<Vec<char>>)
    ensures
        tokens.len() == bindings.len(),
        forall|k: int| 0 <= k < bindings.len() ==> (#[trigger] tokens@[k])@ == rules_of(bindings@)[k].0,
{
    let mut tokens: Vec<Vec<char>> = Vec::new();
    let mut k: usize = 0;
    while k < bindings.len()
        invariant
            k <= bindings.len(),
            tokens.len() == k,
            forall|j: int| 0 <= j < k ==> (#[trigger] tokens@[j])@ == bindings@[j].token@,
        decreases bindings.len() - k,
    {
        tokens.push(to_chars(bindings[k].token.as_str()));
        k += 1;
    }
    tokens
}

/// Fills `template`: replaces, in one pass from the left, each token of
/// `bindings` that stands in it by the token's value. Where the tokens of
/// several bindings stand at one position, the first binding wins; a binding
/// with an empty token never applies.
pub fn fill(template: &str, bindings: &Vec<Binding>) -> (out: String)
    ensures
        out@ == filled(template@, rules_of(bindings@)),
{
    let text = to_chars(template);
    let tokens = tokens_of(bindings);
    let ghost rules = rules_of(bindings@);
    let mut out = String::new();
    let mut start: usize = 0;
    let mut at: usize = 0;
    assert(out@ + text@.subrange(0, 0) + filled_from(text@, 0, rules) =~= filled(text@, rules));
    while at < text.len()
        invariant
            start <= at <= text.len(),
            text@ == template@,
            rules == rules_of(bindings@),
            tokens.len() == bindings.len(),
            forall|k: int| 0 <= k < rules.len() ==> (#[trigger] tokens@[k])@ == rules[k].0,
            out@ + text@.subrange(start as int, at as int) + filled_from(text@, at as int, rules)
                == filled(text@, rules),
        decreases text.len() - at,
    {
        proof {
            lemma_rule_at(text@, at as int, rules, 0);
        }
        let ghost run = text@.subrange(start as int, at as int);
        let ghost done = out@;
        match find_rule(&text, at, &tokens, Ghost(rules)) {
            Some(k) => {
                out.append(template.substring_char(start, at));
                out.append(bindings[k].value.as_str());
                at = at + tokens[k].len();
                start = at;
                assert(out@ + text@.subrange(start as int, at as int) + filled_from(
                    text@,
                    at as int,
                    rules,
                ) =~= done + run + (rules[k as int].1 + filled_from(text@, at as int, rules)));
            },
            None => {
                at = at + 1;
                assert(text@.subrange(start as int, at as int) =~= run + seq![text@[at - 1]]);
                assert(out@ + text@.subrange(start as int, at as int) + filled_from(
                    text@,
                    at as int,
                    rules,
                ) =~= done + run + (seq![text@[at - 1]] + filled_from(text@, at as int, rules)));
            },
        }
    }
    out.append(template.substring_char(start, at));
    assert(out@ =~= out@ + filled_from(text@, at as int, rules));
    out
}

} // verus!
