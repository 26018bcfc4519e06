//! The template store: three catalogs, of templates by context, of adjectives
//! by quantum state and of phrases by zen mood.

use vstd::prelude::*;
use crate::catalog::{filed, listed, Catalog, Lists};
use crate::corpus::{
    default_adjectives, default_adjectives_catalog, default_phrases, default_phrases_catalog,
    default_templates, default_templates_catalog, GENERAL,
};
use crate::text::text_views;

verus! {

/// What a store holds: the mathematical record behind `WisdomTemplateStore`.
pub struct Corpus {
    pub templates: Lists,
    pub quantum_adjectives: Lists,
    pub zen_phrases: Lists,
}

/// The corpus with nothing in it.
pub open spec fn empty_corpus() -> Corpus {
    Corpus {
        templates: Lists::empty(),
        quantum_adjectives: Lists::empty(),
        zen_phrases: Lists::empty(),
    }
}

/// The corpus that a store starts from.
pub open spec fn default_corpus() -> Corpus {
    Corpus {
        templates: default_templates(),
        quantum_adjectives: default_adjectives(),
        zen_phrases: default_phrases(),
    }
}

/// A corpus that holds no template counts as not loaded.
pub open spec fn unloaded(corpus: Corpus) -> bool {
    corpus.templates == Lists::empty()
}

/// `corpus` once it is loaded: the default corpus where it holds no template,
/// itself otherwise.
pub open spec fn loaded(corpus: Corpus) -> Corpus {
    if unloaded(corpus) {
        default_corpus()
    } else {
        corpus
    }
}

/// `corpus` after `template` has been filed under `context`.
pub open spec fn with_template(corpus: Corpus, context: Seq<char>, template: Seq<char>) -> Corpus {
    Corpus { templates: filed(corpus.templates, context, template), ..corpus }
}

/// `corpus` after `adjective` has been filed under the quantum state named
/// `state`.
pub open spec fn with_adjective(corpus: Corpus, state: Seq<char>, adjective: Seq<char>) -> Corpus {
    Corpus { quantum_adjectives: filed(corpus.quantum_adjectives, state, adjective), ..corpus }
}

/// `corpus` after `phrase` has been filed under the zen mood named `mood`.
pub open spec fn with_phrase(corpus: Corpus, mood: Seq<char>, phrase: Seq<char>) -> Corpus {
    Corpus { zen_phrases: filed(corpus.zen_phrases, mood, phrase), ..corpus }
}

/// The templates, adjectives and phrases from which wisdom is made.
pub struct WisdomTemplateStore {
    templates: Catalog,
    quantum_adjectives: Catalog,
    zen_phrases: Catalog,
}

impl View for WisdomTemplateStore {
    type V = Corpus;

    closed spec fn view(&self) -> Corpus {
        Corpus {
            templates: self.templates@,
            quantum_adjectives: self.quantum_adjectives@,
            zen_phrases: self.zen_phrases@,
        }
    }
}

impl WisdomTemplateStore {
    /// A store with nothing in it.
    pub fn new() -> (store: WisdomTemplateStore)
        ensures
            store@ == empty_corpus(),
    {
        WisdomTemplateStore {
            templates: Catalog::new(),
            quantum_adjectives: Catalog::new(),
            zen_phrases: Catalog::new(),
        }
    }

    /// A store that holds the default corpus.
    pub fn with_defaults() -> (store: WisdomTemplateStore)
        ensures
            store@ == default_corpus(),
    {
        WisdomTemplateStore {
            templates: default_templates_catalog(),
            quantum_adjectives: default_adjectives_catalog(),
            zen_phrases: default_phrases_catalog(),
        }
    }

    /// True where the store holds no template.
    pub fn is_empty(&self) -> (empty: bool)
        ensures
            empty == unloaded(self@),
    {
        self.templates.is_empty()
    }

    /// Loads the default corpus into a store that holds no template, in place
    /// of what it holds; leaves any other store as it is.
    pub fn ensure_loaded(&mut self)
        ensures
            final(self)@ == loaded(old(self)@),
            !unloaded(final(self)@),
    {
        proof {
            lemma_default_corpus_loaded();
        }
        if self.is_empty() {
            *self = WisdomTemplateStore::with_defaults();
        }
    }

    /// Files `template` under `context`, unless it is there already.
    pub fn add_template(&mut self, context: String, template: String)
        ensures
            final(self)@ == with_template(old(self)@, context@, template@),
    {
        self.templates.add(context, template);
    }

    /// Files `adjective` under the quantum state named `state`, unless it is
    /// there already.
    pub fn add_quantum_adjective(&mut self, state: String, adjective: String)
        ensures
            final(self)@ == with_adjective(old(self)@, state@, adjective@),
    {
        self.quantum_adjectives.add(state, adjective);
    }

    /// Files `phrase` under the zen mood named `mood`, unless it is there
    /// already.
    pub fn add_zen_phrase(&mut self, mood: String, phrase: String)
        ensures
            final(self)@ == with_phrase(old(self)@, mood@, phrase@),
    {
        self.zen_phrases.add(mood, phrase);
    }

    /// The contexts that have templates, each once.
    pub fn contexts(&self) -> (contexts: Vec<String>)
        ensures
            text_views(contexts@).no_duplicates(),
            forall|context: Seq<char>|
                text_views(contexts@).contains(context) <==> self@.templates.contains_key(context),
    {
        self.templates.keys()
    }

    /// The names under which adjectives are filed, each once.
    pub fn adjective_states(&self) -> (states: Vec<String>)
        ensures
            text_views(states@).no_duplicates(),
            forall|state: Seq<char>|
                text_views(states@).contains(state) <==> self@.quantum_adjectives.contains_key(state),
    {
        self.quantum_adjectives.keys()
    }

    /// The names under which phrases are filed, each once.
    pub fn phrase_moods(&self) -> (moods: Vec<String>)
        ensures
            text_views(moods@).no_duplicates(),
            forall|mood: Seq<char>|
                text_views(moods@).contains(mood) <==> self@.zen_phrases.contains_key(mood),
    {
        self.zen_phrases.keys()
    }

    /// The templates of `context`, in the order in which they were added;
    /// none where the context is unknown.
    pub fn templates_of(&self, context: &String) -> (templates: Vec<String>)
        ensures
            text_views(templates@) == listed(self@.templates, context@),
            text_views(templates@).no_duplicates(),
    {
        self.templates.get(context)
    }

    /// The adjectives of the quantum state named `state`, in the order in
    /// which they were added; none where the name is unknown.
    pub fn quantum_adjectives_of(&self, state: &String) -> (adjectives: Vec<String>)
        ensures
            text_views(adjectives@) == listed(self@.quantum_adjectives, state@),
            text_views(adjectives@).no_duplicates(),
    {
        self.quantum_adjectives.get(state)
    }

    /// The phrases of the zen mood named `mood`, in the order in which they
    /// were added; none where the name is unknown.
    pub fn zen_phrases_of(&self, mood: &String) -> (phrases: Vec<String>)
        ensures
            text_views(phrases@) == listed(self@.zen_phrases, mood@),
            text_views(phrases@).no_duplicates(),
    {
        self.zen_phrases.get(mood)
    }
}

impl Default for WisdomTemplateStore {
    /// A store with nothing in it.
    fn default() -> (store: WisdomTemplateStore)
        ensures
            store@ == empty_corpus(),
    {
        WisdomTemplateStore::new()
    }
}

/// The default corpus holds templates, so a store that has been loaded stays
/// as it is when it is loaded again.
pub proof fn lemma_default_corpus_loaded()
    ensures
        !unloaded(default_corpus()),
        forall|corpus: Corpus| !unloaded(#[trigger] loaded(corpus)),
        forall|corpus: Corpus| loaded(#[trigger] loaded(corpus)) == loaded(corpus),
{
    assert(default_templates().contains_key(GENERAL@));
    assert(!Lists::empty().contains_key(GENERAL@));
}

/// Adding a template, an adjective or a phrase to a store a second time
/// changes nothing.
pub proof fn lemma_add_twice(corpus: Corpus, key: Seq<char>, text: Seq<char>)
    ensures
        with_template(with_template(corpus, key, text), key, text) == with_template(corpus, key, text),
        with_adjective(with_adjective(corpus, key, text), key, text) == with_adjective(
            corpus,
            key,
            text,
        ),
        with_phrase(with_phrase(corpus, key, text), key, text) == with_phrase(corpus, key, text),
{
    crate::catalog::lemma_filed_twice(corpus.templates, key, text);
    crate::catalog::lemma_filed_twice(corpus.quantum_adjectives, key, text);
    crate::catalog::lemma_filed_twice(corpus.zen_phrases, key, text);
}

/// A template added under a context that held none is, afterwards, the one
/// template of that context.
pub proof fn lemma_first_template(corpus: Corpus, context: Seq<char>, template: Seq<char>)
    requires
        !corpus.templates.contains_key(context),
    ensures
        listed(with_template(corpus, context, template).templates, context) == seq![template],
{
    assert(listed(with_template(corpus, context, template).templates, context) =~= seq![template]);
}

/// A store with templates is not unloaded, whatever is added to it.
pub proof fn lemma_added_is_loaded(corpus: Corpus, key: Seq<char>, text: Seq<char>)
    ensures
        !unloaded(with_template(corpus, key, text)),
        unloaded(with_adjective(corpus, key, text)) == unloaded(corpus),
        unloaded(with_phrase(corpus, key, text)) == unloaded(corpus),
{
    assert(with_template(corpus, key, text).templates.contains_key(key));
    assert(!Lists::empty().contains_key(key));
}

} // verus!
