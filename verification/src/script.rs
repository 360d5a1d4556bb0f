//! The recitation script: immutable configuration data and the pure emission
//! algorithm.
//!
//! A script is emitted as a sequence of *units*: one unit per mantra syllable
//! (with a terminating newline) and one unit per character of the preparation
//! and conclusion texts.  The worker writes each unit to the sink and then
//! sleeps for the configured delay; planning which units are emitted, and in
//! what order, is pure and is fully specified here.

use vstd::prelude::*;

verus! {

/// The mathematical value of a [`Mantra`]: its syllables as character
/// sequences, and its repeat count.
#[verifier::ext_equal]
pub ghost struct MantraView {
    pub syllables: Seq<Seq<char>>,
    pub repeats: Option<usize>,
}

/// A mantra to be "recited" by the miner.  Since a computer cannot actually
/// recite a mantra, the term refers to writing the mantra syllable by
/// syllable to an output sink.
#[derive(Debug, PartialEq, Eq)]
pub struct Mantra {
    /// The syllables of the mantra.  The mantra is recited syllable by
    /// syllable, each syllable emitted as one unit.
    pub syllables: Vec<String>,

    /// The number of times to repeat the mantra.  `None` means once.
    pub repeats: Option<usize>,
}

impl View for Mantra {
    type V = MantraView;

    open spec fn view(&self) -> MantraView {
        MantraView { syllables: self.syllables.deep_view(), repeats: self.repeats }
    }
}

impl DeepView for Mantra {
    type V = MantraView;

    open spec fn deep_view(&self) -> MantraView {
        self.view()
    }
}

/// The mathematical value of an [`Options`]: every field of the
/// configuration as a plain mathematical value.
#[verifier::ext_equal]
pub ghost struct OptionsView {
    pub preparation: Option<Seq<char>>,
    pub preparation_repeats: Option<usize>,
    pub mantras: Seq<MantraView>,
    pub conclusion: Option<Seq<char>>,
    pub conclusion_repeats: Option<usize>,
    pub repeats: Option<usize>,
    pub rate_ns: u64,
}

/// The options used to configure the mantra miner.
#[derive(Debug, PartialEq, Eq)]
pub struct Options {
    /// Traditional Buddhist sadhanas, or ritual practices, consist of three
    /// parts.  The first part, preparation, consists of taking refuge in the
    /// Three Jewels and arising bodhicitta, the desire to attain
    /// enlightenment for the benefit of all sentient beings.  Emitted
    /// character by character.
    pub preparation: Option<String>,

    /// The number of times to repeat the preparation.  `None` means once.
    pub preparation_repeats: Option<usize>,

    /// The second part of the sadhana is the main body of the practice:
    /// reciting the given mantras, each in full before the next begins.
    pub mantras: Vec<Mantra>,

    /// The third part of the sadhana is the conclusion, which traditionally
    /// dedicates the merit of the practice to all sentient beings.  Emitted
    /// character by character.
    pub conclusion: Option<String>,

    /// The number of times to repeat the conclusion.  `None` means once.
    pub conclusion_repeats: Option<usize>,

    /// The number of times to repeat the entire sadhana.  `None` means
    /// indefinitely, until the miner is stopped or the program terminates.
    pub repeats: Option<usize>,

    /// The number of nanoseconds the worker sleeps after each emitted unit:
    /// each syllable of a mantra, and each character of the preparation or
    /// conclusion.
    pub rate_ns: u64,
}

impl View for Options {
    type V = OptionsView;

    open spec fn view(&self) -> OptionsView {
        OptionsView {
            preparation: self.preparation.deep_view(),
            preparation_repeats: self.preparation_repeats,
            mantras: self.mantras.deep_view(),
            conclusion: self.conclusion.deep_view(),
            conclusion_repeats: self.conclusion_repeats,
            repeats: self.repeats,
            rate_ns: self.rate_ns,
        }
    }
}

/// The number of repetitions an optional repeat count asks for: the given
/// count, or one when it is absent.
pub open spec fn effective_repeats(repeats: Option<usize>) -> nat {
    match repeats {
        Some(n) => n as nat,
        None => 1,
    }
}

/// A syllable as emitted: the syllable's characters followed by the
/// line terminator that separates consecutive syllables on the sink.
pub open spec fn terminated(syllable: Seq<char>) -> Seq<char> {
    syllable.push('\n')
}

/// The units of one pass over a sequence of syllables: each syllable,
/// terminated, in order.
pub open spec fn syllable_units(syllables: Seq<Seq<char>>) -> Seq<Seq<char>> {
    syllables.map_values(|s: Seq<char>| terminated(s))
}

/// `n` passes over a fixed cycle of units, in order.
pub open spec fn repeat_units(cycle: Seq<Seq<char>>, n: nat) -> Seq<Seq<char>>
    decreases n,
{
    if n == 0 {
        Seq::empty()
    } else {
        repeat_units(cycle, (n - 1) as nat) + cycle
    }
}

impl MantraView {
    /// The exact sequence of units reciting this mantra emits: its
    /// terminated syllables, in order, repeated `effective_repeats` times.
    pub open spec fn units(self) -> Seq<Seq<char>> {
        repeat_units(syllable_units(self.syllables), effective_repeats(self.repeats))
    }
}

/// The units of one pass over a text emitted character by character: one
/// unit per character, in order, with nothing added.
pub open spec fn char_units(text: Seq<char>) -> Seq<Seq<char>> {
    text.map_values(|c: char| seq![c])
}

/// The units an optional text emits: one per character when the text is
/// present, none at all when it is absent.
pub open spec fn string_units(text: Option<Seq<char>>) -> Seq<Seq<char>> {
    match text {
        Some(t) => char_units(t),
        None => Seq::empty(),
    }
}

/// The units of reciting a sequence of mantras, each in full before the
/// next begins.
pub open spec fn mantras_units(mantras: Seq<MantraView>) -> Seq<Seq<char>>
    decreases mantras.len(),
{
    if mantras.len() == 0 {
        Seq::empty()
    } else {
        mantras_units(mantras.drop_last()) + mantras.last().units()
    }
}

impl OptionsView {
    /// The exact sequence of units one full iteration of the script emits:
    /// the preparation (with its repeats), then every mantra in order, then
    /// the conclusion (with its repeats).
    pub open spec fn iteration_units(self) -> Seq<Seq<char>> {
        repeat_units(string_units(self.preparation), effective_repeats(self.preparation_repeats))
            + mantras_units(self.mantras) + repeat_units(
            string_units(self.conclusion),
            effective_repeats(self.conclusion_repeats),
        )
    }

    /// Whether a worker that has completed `count` full iterations should
    /// perform another one: always when the script is unbounded, and exactly
    /// while `count` is below the bound otherwise.
    pub open spec fn should_repeat(self, count: usize) -> bool {
        match self.repeats {
            Some(repeats) => count < repeats,
            None => true,
        }
    }
}

impl Options {
    /// Returns whether the mantra miner should perform another iteration
    /// after `count` completed ones.
    pub fn should_repeat(&self, count: usize) -> (r: bool)
        ensures
            r == self@.should_repeat(count),
    {
        match self.repeats {
            Some(repeats) => count < repeats,
            None => true,
        }
    }
}

impl Default for Options {
    /// The empty configuration: no preparation, no mantras, no conclusion,
    /// an unbounded script, and no delay between units.
    fn default() -> (r: Options)
        ensures
            r@.preparation is None,
            r@.preparation_repeats is None,
            r@.mantras == Seq::<MantraView>::empty(),
            r@.conclusion is None,
            r@.conclusion_repeats is None,
            r@.repeats is None,
            r@.rate_ns == 0,
    {
        let r = Options {
            preparation: None,
            preparation_repeats: None,
            mantras: Vec::new(),
            conclusion: None,
            conclusion_repeats: None,
            repeats: None,
            rate_ns: 0,
        };
        proof {
            assert(r@.mantras =~= Seq::<MantraView>::empty());
        }
        r
    }
}

impl Clone for Mantra {
    /// A clone carries the same syllables and repeat count.
    fn clone(&self) -> (r: Self)
        ensures
            r@ == self@,
    {
        let mut syllables: Vec<String> = Vec::new();
        let mut i: usize = 0;
        while i < self.syllables.len()
            invariant
                i <= self.syllables.len(),
                syllables.deep_view() == self.syllables.deep_view().take(i as int),
            decreases self.syllables.len() - i,
        {
            let ghost pre = syllables;
            syllables.push(self.syllables[i].clone());
            proof {
                lemma_deep_view_push(pre, syllables, self.syllables[i as int]);
                assert(syllables.deep_view() =~= self.syllables.deep_view().take(i + 1));
            }
            i = i + 1;
        }
        proof {
            assert(self.syllables.deep_view().take(self.syllables@.len() as int)
                =~= self.syllables.deep_view());
        }
        let r = Mantra { syllables, repeats: self.repeats };
        proof {
            assert(r@ =~= self@);
        }
        r
    }
}

impl Clone for Options {
    /// A clone carries the same configuration, field for field; a running
    /// worker's snapshot is therefore exactly the configuration it was
    /// started with.
    fn clone(&self) -> (r: Self)
        ensures
            r@ == self@,
    {
        let preparation: Option<String> = match &self.preparation {
            Some(text) => Some(text.clone()),
            None => None,
        };
        let conclusion: Option<String> = match &self.conclusion {
            Some(text) => Some(text.clone()),
            None => None,
        };
        let mut mantras: Vec<Mantra> = Vec::new();
        let mut i: usize = 0;
        while i < self.mantras.len()
            invariant
                i <= self.mantras.len(),
                mantras.deep_view() == self.mantras.deep_view().take(i as int),
            decreases self.mantras.len() - i,
        {
            let m = self.mantras[i].clone();
            let ghost pre = mantras;
            mantras.push(m);
            proof {
                lemma_deep_view_push(pre, mantras, m);
                assert(mantras.deep_view() =~= self.mantras.deep_view().take(i + 1));
            }
            i = i + 1;
        }
        proof {
            assert(self.mantras.deep_view().take(self.mantras@.len() as int)
                =~= self.mantras.deep_view());
        }
        let r = Options {
            preparation,
            preparation_repeats: self.preparation_repeats,
            mantras,
            conclusion,
            conclusion_repeats: self.conclusion_repeats,
            repeats: self.repeats,
            rate_ns: self.rate_ns,
        };
        proof {
            assert(r@ =~= self@);
        }
        r
    }
}

/// Pushing one element onto a vector appends its deep view to the vector's
/// deep view.
pub(crate) proof fn lemma_deep_view_push<T: DeepView>(pre: Vec<T>, post: Vec<T>, x: T)
    requires
        post@ == pre@.push(x),
    ensures
        post.deep_view() == pre.deep_view().push(x.deep_view()),
{
    assert(post.deep_view() =~= pre.deep_view().push(x.deep_view()));
}

/// Moving one vector's elements onto the end of another concatenates their
/// deep views.
pub(crate) proof fn lemma_deep_view_concat<T: DeepView>(pre: Vec<T>, post: Vec<T>, tail: Vec<T>)
    requires
        post@ == pre@ + tail@,
    ensures
        post.deep_view() == pre.deep_view() + tail.deep_view(),
{
    assert(post.deep_view() =~= pre.deep_view() + tail.deep_view());
}

impl Mantra {
    /// Plans the recitation of this mantra: the units to write to the sink,
    /// in emission order, one per syllable occurrence.  The worker writes
    /// each unit and then sleeps for the configured delay.
    pub fn recite(&self) -> (units: Vec<String>)
        ensures
            units.deep_view() == self@.units(),
    {
        let repeats: usize = match self.repeats {
            Some(n) => n,
            None => 1,
        };
        let mut units: Vec<String> = Vec::new();
        proof {
            assert(units.deep_view() =~= Seq::<Seq<char>>::empty());
        }
        for r in 0..repeats
            invariant
                units.deep_view() == repeat_units(syllable_units(self@.syllables), r as nat),
        {
            let ghost cycle = syllable_units(self@.syllables);
            for i in 0..self.syllables.len()
                invariant
                    units.deep_view() == repeat_units(cycle, r as nat) + cycle.take(i as int),
                    cycle == syllable_units(self@.syllables),
            {
                let mut unit: String = self.syllables[i].clone();
                unit.append("\n");
                let ghost pre = units;
                units.push(unit);
                proof {
                    reveal_strlit("\n");
                    lemma_deep_view_push(pre, units, unit);
                    assert(unit@ =~= terminated(self@.syllables[i as int]));
                    assert(pre.deep_view().push(unit@) =~= repeat_units(cycle, r as nat)
                        + cycle.take(i + 1));
                }
            }
            proof {
                assert(cycle.take(self.syllables@.len() as int) =~= cycle);
                assert(units.deep_view() =~= repeat_units(cycle, (r + 1) as nat));
            }
        }
        units
    }
}

/// Repeating a one-unit cycle `n` times yields `n` copies of the unit.
proof fn lemma_repeat_singleton(unit: Seq<char>, n: nat)
    ensures
        repeat_units(seq![unit], n) == Seq::new(n, |i: int| unit),
    decreases n,
{
    if n == 0 {
        assert(repeat_units(seq![unit], 0) =~= Seq::new(0, |i: int| unit));
    } else {
        lemma_repeat_singleton(unit, (n - 1) as nat);
        assert(repeat_units(seq![unit], n) =~= Seq::new(n, |i: int| unit));
    }
}

/// A single-syllable mantra with `repeats = Some(n)` emits that syllable,
/// followed by its terminator, exactly `n` times and nothing else.
pub proof fn lemma_single_syllable_repeats(syllable: Seq<char>, n: usize)
    ensures
        (MantraView { syllables: seq![syllable], repeats: Some(n) }).units() == Seq::new(
            n as nat,
            |i: int| terminated(syllable),
        ),
{
    assert(syllable_units(seq![syllable]) =~= seq![terminated(syllable)]);
    lemma_repeat_singleton(terminated(syllable), n as nat);
}

} // verus!
