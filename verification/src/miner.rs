//! The mantra miner: the runner state machine around a background worker.
//!
//! The miner owns a shared completed-iteration counter and, while a worker is
//! active, the sending end of a single-use cancellation channel.  Starting a
//! run snapshots the configuration, installs a fresh channel, and hands back
//! a [`WorkerTask`]; the embedding spawns the thread that drives it.  The
//! worker's own logic — what one iteration emits and when the loop runs
//! another — is verified here and in [`crate::script`]; the thread, the
//! sleeps, and the sink writes are the embedding's.

use vstd::prelude::*;

use crate::script::char_units;
use crate::script::effective_repeats;
use crate::script::mantras_units;
use crate::script::repeat_units;
use crate::script::string_units;
use crate::script::Options;
use crate::script::OptionsView;

use std::sync::mpsc::Receiver;
use std::sync::mpsc::Sender;
use std::sync::Arc;

verus! {

/// Declares lock_api's `Mutex` — `parking_lot::Mutex<T>` is this type with
/// parking_lot's raw lock — so the shared counter can stand in fields and
/// signatures.  The value behind the lock is opaque here: it changes under a
/// shared reference, so nothing is stated of it.
#[verifier::external_type_specification]
#[verifier::external_body]
#[verifier::reject_recursive_types(R)]
#[verifier::reject_recursive_types(T)]
pub struct ExMutex<R, T: ?Sized>(lock_api::Mutex<R, T>);

/// Declares parking_lot's raw lock, which instantiates the mutex above.
#[verifier::external_type_specification]
#[verifier::external_body]
pub struct ExRawMutex(parking_lot::RawMutex);

/// Declares mpsc's `Sender`, the miner's handle on the active worker's
/// cancellation channel.
#[verifier::external_type_specification]
#[verifier::external_body]
#[verifier::reject_recursive_types(T)]
pub struct ExSender<T>(Sender<T>);

/// Declares mpsc's `Receiver`, the worker's end of the same channel.
#[verifier::external_type_specification]
#[verifier::external_body]
#[verifier::reject_recursive_types(T)]
pub struct ExReceiver<T>(Receiver<T>);

/// Relies on parking_lot's `Mutex::new`: wraps the given value in a fresh,
/// unlocked mutex, here the zero starting value of the shared counter.
#[verifier::external_body]
fn counter_new() -> Arc<parking_lot::Mutex<usize>> {
    Arc::new(parking_lot::Mutex::new(0))
}

/// Relies on `Arc::clone`: the clone shares the original's allocation, so
/// its mathematical value is the original's.
#[verifier::external_body]
fn counter_share(counter: &Arc<parking_lot::Mutex<usize>>) -> (r: Arc<
    parking_lot::Mutex<usize>,
>)
    ensures
        r == *counter,
{
    Arc::clone(counter)
}

/// Relies on lock_api's `Mutex::lock`: blocks until the lock is free and
/// reads the guarded value, holding the lock only for the read.  What is
/// read depends on how far a concurrent worker has come, so nothing is
/// promised of the value.
#[verifier::external_body]
fn counter_read(counter: &Arc<parking_lot::Mutex<usize>>) -> usize {
    *counter.lock()
}

/// Relies on std's `mpsc::channel`: a fresh asynchronous channel whose two
/// ends are connected to each other and to nothing else.
#[verifier::external_body]
fn channel_new() -> (Sender<()>, Receiver<()>) {
    std::sync::mpsc::channel()
}

/// Relies on mpsc's `Sender::send`: delivers one unit on the channel unless
/// the receiver has already disconnected; a worker polling the other end
/// observes either the signal or, once this sender is dropped, the
/// disconnection, and both tell it to exit.
#[verifier::external_body]
fn send_stop(sender: &Sender<()>) {
    let _ = sender.send(());
}

/// The failure kind the miner's operations reserve.  The control operations
/// acquire no fallible resource and always return `Ok`; the one failure the
/// design admits is the output sink rejecting a write, which aborts the
/// worker's iteration inside the embedding.
#[derive(Clone, Copy, Debug, PartialEq, Eq)]
pub enum MinerError {
    /// The output sink rejected a write.
    Io,
}

/// A mantra miner: runs the configured recitation script on a background
/// worker while exposing a live count of completed iterations.
pub struct MantraMiner {
    /// The options used to configure the mantra miner.
    options: Options,

    /// The number of completed recitations of the entire sadhana, shared
    /// with the active worker for the lifetime of that worker.
    count: Arc<parking_lot::Mutex<usize>>,

    /// The sending end of the active worker's cancellation channel; `None`
    /// while the miner is idle.
    stop_channel: Option<Sender<()>>,
}

impl MantraMiner {
    /// The configuration this miner was constructed with.
    pub closed spec fn spec_options(&self) -> OptionsView {
        self.options@
    }

    /// Whether a worker has been started and not yet stopped.
    pub closed spec fn is_running(&self) -> bool {
        self.stop_channel is Some
    }

    /// The shared completed-iteration counter, created once with the miner
    /// and kept across start/stop cycles.
    pub closed spec fn counter(&self) -> Arc<parking_lot::Mutex<usize>> {
        self.count
    }

    /// Returns a new, idle miner with the given options and a fresh shared
    /// counter.
    pub fn new(options: Options) -> (miner: MantraMiner)
        ensures
            miner.spec_options() == options@,
            !miner.is_running(),
    {
        MantraMiner { options, count: counter_new(), stop_channel: None }
    }

    /// Returns the options used to configure this mantra miner, equal in
    /// value to the configuration passed at construction.
    pub fn options(&self) -> (r: Options)
        ensures
            r@ == self.spec_options(),
    {
        self.options.clone()
    }

    /// Returns the number of completed full-script iterations.  Safe to call
    /// from any thread at any time; while a worker is running, the value is
    /// a momentary snapshot that only that worker advances.
    pub fn count(&self) -> usize {
        counter_read(&self.count)
    }

    /// Stops the active worker by sending one cancellation signal and
    /// dropping the channel; the worker exits at its next iteration
    /// boundary.  Never errors, and on an idle miner it is a no-op.
    pub fn stop(&mut self) -> (r: Result<(), MinerError>)
        ensures
            r is Ok,
            final(self).spec_options() == old(self).spec_options(),
            final(self).counter() == old(self).counter(),
            !final(self).is_running(),
            !old(self).is_running() ==> *final(self) == *old(self),
    {
        match self.stop_channel.take() {
            Some(sender) => send_stop(&sender),
            None => (),
        }
        Ok(())
    }

    /// Starts a new run: signals any previous worker (without waiting for
    /// it), snapshots the current configuration, installs a fresh single-use
    /// cancellation channel, and hands back everything the new worker needs.
    /// Spawning the thread that drives the returned task is left to the
    /// embedding, so a stale signal from an earlier run can never reach the
    /// new worker.
    pub fn start(&mut self) -> (task: WorkerTask)
        ensures
            final(self).spec_options() == old(self).spec_options(),
            final(self).counter() == old(self).counter(),
            final(self).is_running(),
            task.options@ == old(self).spec_options(),
            task.count == old(self).counter(),
    {
        let _ = self.stop();
        let (sender, receiver) = channel_new();
        let options = self.options.clone();
        let count = counter_share(&self.count);
        self.stop_channel = Some(sender);
        WorkerTask { options, count, cancel: receiver }
    }
}

/// Everything one worker runs with: its own snapshot of the configuration,
/// the counter it shares with the miner, and the receiving end of its
/// cancellation channel.
pub struct WorkerTask {
    /// The configuration cloned at start time; later caller-side changes
    /// cannot affect an in-flight run.
    pub options: Options,

    /// The completed-iteration counter, shared with the miner that started
    /// this worker.
    pub count: Arc<parking_lot::Mutex<usize>>,

    /// The receiving end of this run's cancellation channel.
    pub cancel: Receiver<()>,
}

/// What the worker observed on its cancellation channel at an iteration
/// boundary: a stop signal, a channel whose sender is gone, or nothing yet.
#[derive(Clone, Copy, Debug, PartialEq, Eq)]
pub enum BoundaryCheck {
    /// A cancellation signal was received.
    Signal,
    /// The sending end has been dropped.
    Closed,
    /// The channel was empty.
    Quiet,
}

/// Whether the worker runs one more full iteration: the repeat budget must
/// allow another one, and the cancellation channel must have been quiet — a
/// received signal and a disconnected channel both terminate the loop.
pub open spec fn spec_boundary_decision(
    options: OptionsView,
    completed: usize,
    check: BoundaryCheck,
) -> bool {
    options.should_repeat(completed) && check is Quiet
}

impl MantraMiner {
    /// The worker's decision at an iteration boundary, taken before each
    /// full iteration and never within one.
    pub fn boundary_decision(options: &Options, completed: usize, check: BoundaryCheck) -> (run:
        bool)
        ensures
            run == spec_boundary_decision(options@, completed, check),
    {
        options.should_repeat(completed) && (matches!(check, BoundaryCheck::Quiet))
    }

    /// Plans the recitation of an optional text, used for the preparation
    /// and the conclusion: one unit per character, in order, with nothing
    /// added; no units at all when the text is absent.
    pub fn recite_string(input: &Option<String>) -> (units: Vec<String>)
        ensures
            units.deep_view() == string_units(input.deep_view()),
    {
        match input {
            None => {
                let units: Vec<String> = Vec::new();
                proof {
                    assert(units.deep_view() =~= string_units(input.deep_view()));
                }
                units
            },
            Some(text) => {
                let n = text.as_str().unicode_len();
                let mut units: Vec<String> = Vec::new();
                proof {
                    assert(units.deep_view() =~= char_units(text@.take(0)));
                }
                let mut i: usize = 0;
                while i < n
                    invariant
                        n == text@.len(),
                        i <= n,
                        units.deep_view() == char_units(text@.take(i as int)),
                    decreases n - i,
                {
                    let unit = text.as_str().substring_char(i, i + 1).to_owned();
                    let ghost pre = units;
                    units.push(unit);
                    proof {
                        crate::script::lemma_deep_view_push(pre, units, unit);
                        assert(unit@ =~= seq![text@[i as int]]);
                        assert(units.deep_view() =~= char_units(text@.take(i + 1)));
                    }
                    i = i + 1;
                }
                proof {
                    assert(text@.take(n as int) =~= text@);
                }
                units
            },
        }
    }

    /// Plans an optional text repeated: its character units, emitted in full
    /// `effective_repeats` times.
    fn repeat_string(text: &Option<String>, repeats: Option<usize>) -> (units: Vec<String>)
        ensures
            units.deep_view() == repeat_units(
                string_units(text.deep_view()),
                effective_repeats(repeats),
            ),
    {
        let n: usize = match repeats {
            Some(n) => n,
            None => 1,
        };
        let mut units: Vec<String> = Vec::new();
        proof {
            assert(units.deep_view() =~= Seq::<Seq<char>>::empty());
        }
        for r in 0..n
            invariant
                units.deep_view() == repeat_units(string_units(text.deep_view()), r as nat),
        {
            let mut pass = Self::recite_string(text);
            let ghost pre = units;
            let ghost tail = pass;
            units.append(&mut pass);
            proof {
                crate::script::lemma_deep_view_concat(pre, units, tail);
                assert(units.deep_view() =~= repeat_units(
                    string_units(text.deep_view()),
                    (r + 1) as nat,
                ));
            }
        }
        units
    }

    /// Plans one full iteration of the script: the units the worker writes,
    /// in emission order — the preparation with its repeats, every mantra in
    /// order, then the conclusion with its repeats.  The worker sleeps for
    /// the configured delay after each unit, increments the shared counter
    /// once the whole iteration is out, and only then checks for
    /// cancellation again.
    pub fn iteration(options: &Options) -> (units: Vec<String>)
        ensures
            units.deep_view() == options@.iteration_units(),
    {
        let ghost prep = repeat_units(
            string_units(options@.preparation),
            effective_repeats(options@.preparation_repeats),
        );
        let mut units = Self::repeat_string(&options.preparation, options.preparation_repeats);
        let mut i: usize = 0;
        while i < options.mantras.len()
            invariant
                i <= options.mantras.len(),
                units.deep_view() == prep + mantras_units(options@.mantras.take(i as int)),
                prep == repeat_units(
                    string_units(options@.preparation),
                    effective_repeats(options@.preparation_repeats),
                ),
            decreases options.mantras.len() - i,
        {
            let mut pass = options.mantras[i].recite();
            let ghost pre = units;
            let ghost tail = pass;
            units.append(&mut pass);
            proof {
                crate::script::lemma_deep_view_concat(pre, units, tail);
                assert(options@.mantras.take(i + 1).drop_last() =~= options@.mantras.take(
                    i as int,
                ));
                assert(units.deep_view() =~= prep + mantras_units(options@.mantras.take(i + 1)));
            }
            i = i + 1;
        }
        proof {
            assert(options@.mantras.take(options.mantras@.len() as int) =~= options@.mantras);
        }
        let mut tail_units = Self::repeat_string(&options.conclusion, options.conclusion_repeats);
        let ghost pre = units;
        let ghost tail = tail_units;
        units.append(&mut tail_units);
        proof {
            crate::script::lemma_deep_view_concat(pre, units, tail);
            assert(units.deep_view() =~= options@.iteration_units());
        }
        units
    }
}

/// A bounded script stabilizes: with `repeats = Some(n)`, the boundary
/// decision admits another iteration at every completed count below `n`
/// while the channel is quiet, and refuses one at `n` and beyond whatever
/// the channel shows — so a worker that is never cancelled completes
/// exactly `n` iterations, and the count stabilizes at `n` and never
/// exceeds it.
pub proof fn lemma_bounded_repeats_stabilize(options: OptionsView, n: usize)
    requires
        options.repeats == Some(n),
    ensures
        forall|completed: usize|
            completed < n ==> spec_boundary_decision(options, completed, BoundaryCheck::Quiet),
        forall|completed: usize, check: BoundaryCheck|
            completed >= n ==> !spec_boundary_decision(options, completed, check),
{
}

/// An unbounded script never stops on its own: with `repeats = None` the
/// boundary decision admits another iteration at every completed count while
/// the channel stays quiet, so, given enough time, the count exceeds any
/// finite bound.
pub proof fn lemma_unbounded_never_stops(options: OptionsView)
    requires
        options.repeats is None,
    ensures
        forall|completed: usize|
            spec_boundary_decision(options, completed, BoundaryCheck::Quiet),
{
}

/// Cancellation halts the worker: once `stop` has signalled the channel, or
/// the channel's sender is gone, the boundary decision refuses every further
/// iteration whatever the completed count — the count thereafter is
/// non-increasing.
pub proof fn lemma_cancellation_halts(options: OptionsView, completed: usize)
    ensures
        !spec_boundary_decision(options, completed, BoundaryCheck::Signal),
        !spec_boundary_decision(options, completed, BoundaryCheck::Closed),
{
}

/// A configuration round-tripped through construction and `options` compares
/// equal in value to the configuration passed at construction: `new` stores
/// exactly what it was given, and `options` returns exactly what is stored.
pub proof fn lemma_options_round_trip(original: Options, miner: MantraMiner, returned: Options)
    requires
        miner.spec_options() == original@,
        returned@ == miner.spec_options(),
    ensures
        returned@ == original@,
{
}

} // verus!
