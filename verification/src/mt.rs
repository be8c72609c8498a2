//! Machine-translation collaborator.
//!
//! Consumed through a fixed contract: initialize, translate text between two
//! language tags, and keep a bounded rolling context of recent translations
//! (default depth 3). The translation itself is a deterministic placeholder;
//! any compliant engine may be substituted.

use vstd::prelude::*;

use crate::clock::now_millis;
use crate::errors::TranslatorError;

verus! {

/// What the placeholder engine returns for a source text: the source text
/// behind a fixed marker, so the output is never empty.
pub open spec fn translated_view(source: Seq<char>) -> Seq<char> {
    "simulated translation: "@ + source
}

/// One translation result. `confidence` is in thousandths (0..=1000).
#[derive(Debug)]
pub struct MtResult {
    pub source_text: String,
    pub translated_text: String,
    pub source_language: String,
    pub target_language: String,
    pub confidence: u32,
    pub is_success: bool,
    pub timestamp: u64,
}

/// One remembered (source, translation) pair.
#[derive(Debug)]
pub struct Context {
    pub source_text: String,
    pub translated_text: String,
    pub timestamp: u64,
}

/// A context entry as contracts see it: the pair of texts.
pub open spec fn context_view(c: Context) -> (Seq<char>, Seq<char>) {
    (c.source_text@, c.translated_text@)
}

/// A whole context history as contracts see it.
pub open spec fn contexts_of(s: Seq<Context>) -> Seq<(Seq<char>, Seq<char>)> {
    Seq::new(s.len(), |i: int| context_view(s[i]))
}

/// The views of a sequence of texts.
pub open spec fn text_views(s: Seq<String>) -> Seq<Seq<char>> {
    Seq::new(s.len(), |i: int| s[i]@)
}

/// Appending to a rolling history bounded at `max` entries: the oldest
/// entries beyond the bound are dropped from the front.
pub open spec fn bounded_push(
    history: Seq<(Seq<char>, Seq<char>)>,
    entry: (Seq<char>, Seq<char>),
    max: int,
) -> Seq<(Seq<char>, Seq<char>)> {
    if history.len() + 1 <= max {
        history.push(entry)
    } else {
        history.push(entry).skip(history.len() + 1 - max)
    }
}

/// The rolling context after translating each of `texts` in order, every
/// entry paired with its placeholder translation.
pub open spec fn bounded_push_all(
    history: Seq<(Seq<char>, Seq<char>)>,
    texts: Seq<Seq<char>>,
    max: int,
) -> Seq<(Seq<char>, Seq<char>)>
    decreases texts.len(),
{
    if texts.len() == 0 {
        history
    } else {
        bounded_push(
            bounded_push_all(history, texts.drop_last(), max),
            (texts.last(), translated_view(texts.last())),
            max,
        )
    }
}

/// Machine translator.
pub struct Mt {
    pub model_path: String,
    pub model_type: String,
    pub default_source_lang: String,
    pub default_target_lang: String,
    pub initialized: bool,
    pub model_loaded: bool,
    pub context_history: Vec<Context>,
    pub max_context_size: usize,
    pub parameters: Vec<(String, String)>,
}

impl Mt {
    /// The rolling context as contracts see it.
    pub open spec fn contexts(&self) -> Seq<(Seq<char>, Seq<char>)> {
        contexts_of(self.context_history@)
    }

    /// Well-formedness: the rolling context respects its bound and the
    /// model is loaded exactly when initialized.
    pub open spec fn wf(&self) -> bool {
        &&& self.max_context_size >= 1
        &&& self.contexts().len() <= self.max_context_size
        &&& self.initialized == self.model_loaded
    }

    /// Creates a translator that has not yet loaded its model, with default
    /// languages auto -> en and a context depth of 3.
    pub fn new(model_path: String, model_type: String) -> (r: Mt)
        ensures
            r.model_path@ == model_path@,
            r.model_type@ == model_type@,
            r.default_source_lang@ == "auto"@,
            r.default_target_lang@ == "en"@,
            !r.initialized,
            !r.model_loaded,
            r.contexts() == Seq::<(Seq<char>, Seq<char>)>::empty(),
            r.max_context_size == 3,
            r.wf(),
    {
        let r = Mt {
            model_path,
            model_type,
            default_source_lang: String::from_str("auto"),
            default_target_lang: String::from_str("en"),
            initialized: false,
            model_loaded: false,
            context_history: Vec::new(),
            max_context_size: 3,
            parameters: Vec::new(),
        };
        proof {
            assert(r.contexts() =~= Seq::<(Seq<char>, Seq<char>)>::empty());
        }
        r
    }

    /// Loads the model. Succeeds at once if already initialized; fails with
    /// a configuration error exactly when the model path is empty.
    pub fn initialize(&mut self) -> (r: Result<(), TranslatorError>)
        requires
            old(self).wf(),
        ensures
            final(self).wf(),
            r is Ok <==> (old(self).initialized || old(self).model_path@.len() > 0),
            r is Ok ==> final(self).initialized && final(self).model_loaded,
            r is Err ==> r->Err_0 == TranslatorError::Configuration && *final(self) == *old(self),
            old(self).initialized ==> *final(self) == *old(self),
            !old(self).initialized && old(self).model_path@.len() > 0 ==> *final(self) == (Mt {
                initialized: true,
                model_loaded: true,
                ..*old(self)
            }),
    {
        if self.initialized {
            return Ok(());
        }
        if self.model_path.as_str().is_empty() {
            return Err(TranslatorError::Configuration);
        }
        self.model_loaded = true;
        self.initialized = true;
        Ok(())
    }

    /// Translates one text.
    ///
    /// The result carries the source text, the placeholder translation of it
    /// (never empty), the language tags used (the given ones, or the stored
    /// defaults where none is given), confidence 850 and a success flag; the
    /// pair is remembered in the rolling context, dropping the oldest entry
    /// beyond the bound.
    pub fn translate(
        &mut self,
        source_text: &str,
        source_lang: Option<&str>,
        target_lang: Option<&str>,
    ) -> (r: MtResult)
        requires
            old(self).wf(),
        ensures
            final(self).wf(),
            r.source_text@ == source_text@,
            r.translated_text@ == translated_view(source_text@),
            r.translated_text@.len() > source_text@.len(),
            r.source_language@ == (if source_lang is Some {
                source_lang->Some_0@
            } else {
                old(self).default_source_lang@
            }),
            r.target_language@ == (if target_lang is Some {
                target_lang->Some_0@
            } else {
                old(self).default_target_lang@
            }),
            r.confidence == 850,
            r.is_success,
            final(self).contexts() == bounded_push(
                old(self).contexts(),
                (source_text@, translated_view(source_text@)),
                old(self).max_context_size as int,
            ),
            *final(self) == (Mt { context_history: final(self).context_history, ..*old(self) }),
    {
        proof {
            reveal_strlit("simulated translation: ");
        }
        let source_language = match source_lang {
            Some(s) => String::from_str(s),
            None => self.default_source_lang.clone(),
        };
        let target_language = match target_lang {
            Some(s) => String::from_str(s),
            None => self.default_target_lang.clone(),
        };
        let translated_text = String::from_str("simulated translation: ").concat(source_text);
        let result = MtResult {
            source_text: String::from_str(source_text),
            translated_text: translated_text.clone(),
            source_language,
            target_language,
            confidence: 850,
            is_success: true,
            timestamp: now_millis(),
        };
        let context = Context {
            source_text: String::from_str(source_text),
            translated_text,
            timestamp: now_millis(),
        };
        self.add_context(context);
        result
    }

    /// Translates each text in order: every result carries the placeholder
    /// translation, the language tags used and confidence 850, and the
    /// rolling context ends as if each pair had been remembered in turn.
    pub fn batch_translate(
        &mut self,
        texts: &Vec<String>,
        source_lang: Option<&str>,
        target_lang: Option<&str>,
    ) -> (r: Vec<MtResult>)
        requires
            old(self).wf(),
        ensures
            final(self).wf(),
            r@.len() == texts@.len(),
            forall|i: int| #![trigger r@[i]] 0 <= i < r@.len() ==> {
                &&& r@[i].source_text@ == texts@[i]@
                &&& r@[i].translated_text@ == translated_view(texts@[i]@)
                &&& r@[i].is_success
                &&& r@[i].confidence == 850
                &&& r@[i].source_language@ == (if source_lang is Some {
                    source_lang->Some_0@
                } else {
                    old(self).default_source_lang@
                })
                &&& r@[i].target_language@ == (if target_lang is Some {
                    target_lang->Some_0@
                } else {
                    old(self).default_target_lang@
                })
            },
            final(self).contexts() == bounded_push_all(
                old(self).contexts(),
                text_views(texts@),
                old(self).max_context_size as int,
            ),
            *final(self) == (Mt { context_history: final(self).context_history, ..*old(self) }),
    {
        let mut results: Vec<MtResult> = Vec::new();
        let mut i: usize = 0;
        while i < texts.len()
            invariant
                i <= texts@.len(),
                results@.len() == i,
                self.wf(),
                forall|j: int| #![trigger results@[j]] 0 <= j < i ==> {
                    &&& results@[j].source_text@ == texts@[j]@
                    &&& results@[j].translated_text@ == translated_view(texts@[j]@)
                    &&& results@[j].is_success
                    &&& results@[j].confidence == 850
                    &&& results@[j].source_language@ == (if source_lang is Some {
                        source_lang->Some_0@
                    } else {
                        old(self).default_source_lang@
                    })
                    &&& results@[j].target_language@ == (if target_lang is Some {
                        target_lang->Some_0@
                    } else {
                        old(self).default_target_lang@
                    })
                },
                self.contexts() == bounded_push_all(
                    old(self).contexts(),
                    text_views(texts@).take(i as int),
                    old(self).max_context_size as int,
                ),
                *self == (Mt { context_history: self.context_history, ..*old(self) }),
            decreases texts@.len() - i,
        {
            let r = self.translate(texts[i].as_str(), source_lang, target_lang);
            results.push(r);
            proof {
                assert(text_views(texts@).take(i + 1 as int).drop_last() =~= text_views(
                    texts@,
                ).take(i as int));
                assert(text_views(texts@).take(i + 1 as int).last() == texts@[i as int]@);
            }
            i = i + 1;
        }
        proof {
            assert(text_views(texts@).take(texts@.len() as int) =~= text_views(texts@));
        }
        results
    }

    /// Remembers one translation, dropping the oldest entry beyond the bound.
    fn add_context(&mut self, context: Context)
        requires
            old(self).wf(),
        ensures
            final(self).wf(),
            final(self).contexts() == bounded_push(
                old(self).contexts(),
                context_view(context),
                old(self).max_context_size as int,
            ),
            *final(self) == (Mt { context_history: final(self).context_history, ..*old(self) }),
    {
        let ghost old_contexts = self.contexts();
        self.context_history.push(context);
        proof {
            assert(self.contexts() =~= old_contexts.push(context_view(context)));
        }
        if self.context_history.len() > self.max_context_size {
            let ghost pushed = self.contexts();
            self.context_history.remove(0);
            proof {
                assert(self.contexts() =~= pushed.skip(1));
            }
        }
    }

    /// The most recent `count` context entries, oldest first.
    pub fn get_context_history(&self, count: usize) -> (r: Vec<Context>)
        ensures
            contexts_of(r@) == self.contexts().skip(
                self.contexts().len() - vstd::math::min(count as int, self.contexts().len() as int),
            ),
    {
        let len = self.context_history.len();
        let n = if count < len {
            count
        } else {
            len
        };
        let start = len - n;
        let mut r: Vec<Context> = Vec::new();
        let mut i: usize = start;
        while i < len
            invariant
                start <= i <= len,
                len == self.context_history@.len(),
                r@.len() == i - start,
                contexts_of(r@) =~= self.contexts().subrange(start as int, i as int),
            decreases len - i,
        {
            let c = &self.context_history[i];
            let copy = Context {
                source_text: c.source_text.clone(),
                translated_text: c.translated_text.clone(),
                timestamp: c.timestamp,
            };
            let ghost prev = r@;
            r.push(copy);
            proof {
                assert(r@ == prev.push(copy));
                assert(context_view(copy) == self.contexts()[i as int]);
                assert forall|j: int| 0 <= j < r@.len() implies #[trigger] contexts_of(r@)[j]
                    == self.contexts().subrange(start as int, i + 1 as int)[j] by {
                    assert(contexts_of(r@)[j] == context_view(r@[j]));
                    assert(self.contexts().subrange(start as int, i + 1 as int)[j]
                        == self.contexts()[start + j]);
                    assert(self.contexts()[start + j] == context_view(
                        self.context_history@[start + j],
                    ));
                    if j < prev.len() {
                        assert(r@[j] == prev[j]);
                        assert(contexts_of(prev)[j] == context_view(prev[j]));
                        assert(contexts_of(prev)[j] == self.contexts().subrange(
                            start as int,
                            i as int,
                        )[j]);
                    } else {
                        assert(r@[j] == copy);
                    }
                }
                assert(contexts_of(r@) =~= self.contexts().subrange(start as int, i + 1 as int));
            }
            i = i + 1;
        }
        proof {
            assert(self.contexts().subrange(start as int, len as int) =~= self.contexts().skip(
                start as int,
            ));
        }
        r
    }

    /// Forgets every context entry.
    pub fn clear_context(&mut self)
        ensures
            final(self).contexts() == Seq::<(Seq<char>, Seq<char>)>::empty(),
            *final(self) == (Mt { context_history: final(self).context_history, ..*old(self) }),
            old(self).wf() ==> final(self).wf(),
    {
        self.context_history = Vec::new();
        proof {
            assert(self.contexts() =~= Seq::<(Seq<char>, Seq<char>)>::empty());
        }
    }

    /// Records a named tuning parameter.
    pub fn set_parameter(&mut self, key: String, value: String)
        ensures
            final(self).parameters@ == old(self).parameters@.push((key, value)),
            *final(self) == (Mt { parameters: final(self).parameters, ..*old(self) }),
    {
        self.parameters.push((key, value));
    }

    /// Whether the engine supports a language pair. The placeholder engine
    /// accepts every pair.
    pub fn is_language_pair_supported(&self, source_lang: &str, target_lang: &str) -> (r: bool)
        ensures
            r,
    {
        true
    }

    /// Clears the rolling context; initialization is kept.
    pub fn reset(&mut self)
        ensures
            final(self).contexts() == Seq::<(Seq<char>, Seq<char>)>::empty(),
            *final(self) == (Mt { context_history: final(self).context_history, ..*old(self) }),
            old(self).wf() ==> final(self).wf(),
    {
        self.clear_context();
    }

    /// Whether `initialize` has succeeded.
    pub fn is_initialized(&self) -> (r: bool)
        ensures
            r == self.initialized,
    {
        self.initialized
    }

    /// Whether the model has been loaded.
    pub fn is_model_loaded(&self) -> (r: bool)
        ensures
            r == self.model_loaded,
    {
        self.model_loaded
    }
}

} // verus!
