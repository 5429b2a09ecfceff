//! The generator pipeline: which generators apply to an entry, and how the
//! outcomes of their commands fold into the entry's final content.
use vstd::prelude::*;
use crate::marker::stamped;
use crate::overrides::override_content;
use crate::filter::{filter_matches, pattern_is_valid, pattern_matches};

verus! {

/// A filter-plus-command pair that may transform an entry's content.
pub struct Generator {
    /// Regular expression matched against the entry's file name.
    pub filter: String,
    /// Identifier used in diagnostics.
    pub name: String,
    /// The executable followed by its arguments.
    pub command: Vec<String>,
}

/// The parsed configuration: generators in the order they are applied.
pub struct Config {
    pub version: String,
    pub generators: Vec<Generator>,
}

/// A configuration that cannot be used.
#[derive(Clone, Copy, Debug, PartialEq, Eq, Structural)]
pub enum ConfigError {
    /// The filter of the generator at `index` is not a valid regular expression.
    InvalidFilter { index: usize },
    /// The generator at `index` has an empty command.
    EmptyCommand { index: usize },
}

/// What became of one generator for one entry.
pub enum GeneratorOutcome {
    /// Its filter did not match the file name: no command ran.
    NotMatched,
    /// Its command exited with a failure status: the output is discarded.
    Failed,
    /// Its command succeeded with this output.
    Succeeded(String),
}

/// The generator's filter is a valid regular expression.
pub open spec fn filter_valid(g: Generator) -> bool {
    pattern_is_valid(g.filter@)
}

/// The generator's filter selects the file name.
pub open spec fn selects(g: Generator, file_name: Seq<char>) -> bool {
    pattern_matches(g.filter@, file_name)
}

/// A generator is usable: a valid filter and a non-empty command.
pub open spec fn generator_ok(g: Generator) -> bool {
    filter_valid(g) && g.command@.len() > 0
}

/// One generator's effect on the content and the changed flag.
pub open spec fn step(content: Seq<char>, changed: bool, outcome: GeneratorOutcome) -> (Seq<char>, bool) {
    match outcome {
        GeneratorOutcome::Succeeded(out) => if out@ != content {
            (out@, true)
        } else {
            (content, changed)
        },
        _ => (content, changed),
    }
}

/// The outcomes applied in order, starting from the original content.
pub open spec fn fold_outcomes(original: Seq<char>, outcomes: Seq<GeneratorOutcome>) -> (Seq<char>, bool)
    decreases outcomes.len(),
{
    if outcomes.len() == 0 {
        (original, false)
    } else {
        let prev = fold_outcomes(original, outcomes.drop_last());
        step(prev.0, prev.1, outcomes.last())
    }
}

/// Checks every generator, in order; the first unusable one is reported.
pub fn validate_generators(generators: &Vec<Generator>) -> (r: Result<(), ConfigError>)
    ensures
        r is Ok <==> forall|i: int| 0 <= i < generators@.len() ==> generator_ok(#[trigger] generators@[i]),
        r matches Err(ConfigError::InvalidFilter { index }) ==> index < generators@.len()
            && !filter_valid(generators@[index as int])
            && forall|j: int| 0 <= j < index ==> generator_ok(#[trigger] generators@[j]),
        r matches Err(ConfigError::EmptyCommand { index }) ==> index < generators@.len()
            && filter_valid(generators@[index as int])
            && generators@[index as int].command@.len() == 0
            && forall|j: int| 0 <= j < index ==> generator_ok(#[trigger] generators@[j]),
{
    for i in 0..generators.len()
        invariant
            forall|j: int| 0 <= j < i ==> generator_ok(#[trigger] generators@[j]),
    {
        let g = &generators[i];
        if filter_matches(g.filter.as_str(), "").is_none() {
            return Err(ConfigError::InvalidFilter { index: i });
        }
        if g.command.len() == 0 {
            return Err(ConfigError::EmptyCommand { index: i });
        }
    }
    Ok(())
}

/// The first generator at or after `from` whose filter selects `file_name`.
/// Generators passed over are exactly those whose filter does not select it,
/// so no command is run for them. An invalid filter met on the way is an error.
pub fn next_matching(generators: &Vec<Generator>, from: usize, file_name: &str) -> (r: Result<Option<usize>, ConfigError>)
    ensures
        r matches Ok(Some(k)) ==> from <= k < generators@.len()
            && filter_valid(generators@[k as int])
            && selects(generators@[k as int], file_name@)
            && forall|j: int| from <= j < k ==> filter_valid(#[trigger] generators@[j]) && !selects(generators@[j], file_name@),
        r matches Ok(None) ==> forall|j: int| from <= j < generators@.len() ==>
            filter_valid(#[trigger] generators@[j]) && !selects(generators@[j], file_name@),
        r matches Err(e) ==> (e matches ConfigError::InvalidFilter { index } && from <= index < generators@.len()
            && !filter_valid(generators@[index as int])
            && forall|j: int| from <= j < index ==> filter_valid(#[trigger] generators@[j]) && !selects(generators@[j], file_name@)),
{
    let mut i = from;
    while i < generators.len()
        invariant
            from <= i,
            forall|j: int| from <= j < i ==> filter_valid(#[trigger] generators@[j]) && !selects(generators@[j], file_name@),
        decreases generators@.len() - i,
    {
        match filter_matches(generators[i].filter.as_str(), file_name) {
            None => {
                return Err(ConfigError::InvalidFilter { index: i });
            },
            Some(true) => {
                return Ok(Some(i));
            },
            Some(false) => {},
        }
        i = i + 1;
    }
    Ok(None)
}

/// The content of one entry as it passes through the pipeline.
pub struct PipelineState {
    /// The current content.
    pub content: String,
    /// Whether some generator has changed the content.
    pub changed: bool,
}

impl PipelineState {
    /// The state before any generator: the original content, unchanged.
    pub fn new(original: String) -> (r: PipelineState)
        ensures
            r.content@ == original@,
            !r.changed,
    {
        PipelineState { content: original, changed: false }
    }

    /// Applies one generator's outcome: a successful output that differs
    /// from the current content replaces it and sets the changed flag;
    /// anything else leaves the state as it is.
    pub fn record(&mut self, outcome: &GeneratorOutcome)
        ensures
            (final(self).content@, final(self).changed) == step(old(self).content@, old(self).changed, *outcome),
    {
        match outcome {
            GeneratorOutcome::Succeeded(out) => {
                if *out != self.content {
                    self.content = out.clone();
                    self.changed = true;
                }
            },
            _ => {},
        }
    }
}

impl PipelineState {
    /// What the writer stores for this entry: nothing when no generator
    /// changed it or when its target already exists, else the stamped content.
    pub fn override_content(&self, target_exists: bool) -> (r: Option<String>)
        ensures
            r is None <==> (!self.changed || target_exists),
            r matches Some(s) ==> s@ == stamped(self.content@),
    {
        if !self.changed {
            return None;
        }
        override_content(target_exists, self.content.as_str())
    }
}

/// Folds the outcomes of a generator chain, in order, over the original
/// content: the final content and whether it changed.
pub fn apply_outcomes(original: &str, outcomes: &Vec<GeneratorOutcome>) -> (r: (String, bool))
    ensures
        (r.0@, r.1) == fold_outcomes(original@, outcomes@),
{
    let mut state = PipelineState::new(original.to_string());
    for i in 0..outcomes.len()
        invariant
            (state.content@, state.changed) == fold_outcomes(original@, outcomes@.take(i as int)),
    {
        assert(outcomes@.take(i + 1).drop_last() =~= outcomes@.take(i as int));
        state.record(&outcomes[i]);
    }
    assert(outcomes@.take(outcomes@.len() as int) =~= outcomes@);
    (state.content, state.changed)
}

/// A generator whose filter does not select the file name leaves the
/// content and the changed flag exactly as they were, wherever it stands in
/// the chain.
pub proof fn lemma_unmatched_generator_is_identity(original: Seq<char>, outcomes: Seq<GeneratorOutcome>)
    ensures
        fold_outcomes(original, outcomes.push(GeneratorOutcome::NotMatched)) == fold_outcomes(original, outcomes),
{
    assert(outcomes.push(GeneratorOutcome::NotMatched).drop_last() =~= outcomes);
}

/// When every generator of the chain fails, the final content is the
/// original content and it is reported as unchanged.
pub proof fn lemma_all_failed_keeps_original(original: Seq<char>, outcomes: Seq<GeneratorOutcome>)
    requires
        forall|i: int| 0 <= i < outcomes.len() ==> #[trigger] outcomes[i] is Failed,
    ensures
        fold_outcomes(original, outcomes) == (original, false),
    decreases outcomes.len(),
{
    if outcomes.len() > 0 {
        let prefix = outcomes.drop_last();
        assert forall|i: int| 0 <= i < prefix.len() implies #[trigger] prefix[i] is Failed by {
            assert(prefix[i] == outcomes[i]);
        }
        lemma_all_failed_keeps_original(original, prefix);
        assert(outcomes.last() is Failed);
    }
}

} // verus!
