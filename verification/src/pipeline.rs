//! The driver's decisions: change detection, the notification payload,
//! the per-check step, and a model of a whole pass over the baseline
//! store.
//!
//! The caller runs the loop — it fetches, reads files, delivers and
//! persists — and this module decides.  For one check the decision is
//! [`plan_step`]: given the stored baseline and the render outcome it
//! says whether to notify and with what payload; the baseline is to be
//! overwritten with that payload only after the delivery succeeded.
//! A whole pass is modelled by [`store_after`] and [`notified_in`],
//! over which the pass-level laws at the end of the module are proved.

use vstd::prelude::*;
use vstd::seq_lib::*;
use vstd::string::StringExecFns;
use crate::render::RenderError;

verus! {

/// The prefix that marks a render failure reported through the normal
/// notification path.
pub open spec fn error_prefix() -> Seq<char> {
    "*Unhandled error:*\n"@
}

/// The text that flows to change detection for a render outcome: the
/// rendering itself, or the marked error description.
pub open spec fn payload_of(outcome: Result<String, RenderError>) -> Seq<char> {
    match outcome {
        Ok(s) => s@,
        Err(e) => error_prefix() + e.desc(),
    }
}

/// Converts a render outcome into the text that is compared and, when
/// changed, notified.  A failure is reported through the same path as
/// a successful rendering, under a distinct prefix.
pub fn notification_payload(outcome: Result<String, RenderError>) -> (r: String)
    ensures
        r@ == payload_of(outcome),
{
    match outcome {
        Ok(s) => s,
        Err(e) => String::from_str("*Unhandled error:*\n").concat(e.description().as_str()),
    }
}

/// The view of an optional stored baseline.
pub open spec fn opt_view(baseline: Option<String>) -> Option<Seq<char>> {
    match baseline {
        Some(b) => Some(b@),
        None => None,
    }
}

/// Whether a candidate text counts as changed against a baseline: it
/// does when no baseline exists, and otherwise exactly when the two
/// texts differ.
pub open spec fn changed_from(baseline: Option<Seq<char>>, candidate: Seq<char>) -> bool {
    match baseline {
        Some(b) => b != candidate,
        None => true,
    }
}

/// Decides whether a freshly rendered text differs from the stored
/// baseline.  Absence of a baseline counts as changed; otherwise the
/// comparison is exact text equality.  Read-only.
pub fn has_changed(baseline: &Option<String>, candidate: &String) -> (r: bool)
    ensures
        r == changed_from(opt_view(*baseline), candidate@),
{
    match baseline {
        Some(b) => !b.eq(candidate),
        None => true,
    }
}

/// What the driver is to do for one check.
pub enum StepAction {
    /// The rendering matches the baseline: deliver nothing, write
    /// nothing.
    Skip,
    /// Deliver this payload and, once delivery succeeded, persist it
    /// as the new baseline.
    Notify(String),
}

/// Decides one check's step from its stored baseline and its render
/// outcome: notify with the payload exactly when the payload counts as
/// changed against the baseline.
pub fn plan_step(baseline: &Option<String>, outcome: Result<String, RenderError>) -> (r:
    StepAction)
    ensures
        changed_from(opt_view(*baseline), payload_of(outcome)) ==> (r matches
            StepAction::Notify(p) && p@ == payload_of(outcome)),
        !changed_from(opt_view(*baseline), payload_of(outcome)) ==> r is Skip,
{
    let payload = notification_payload(outcome);
    if has_changed(baseline, &payload) {
        StepAction::Notify(payload)
    } else {
        StepAction::Skip
    }
}

/// The destination for a changed rendering.
pub enum Sink {
    /// Deliver over HTTP POST to this webhook destination.
    Webhook(String),
    /// Write to the process's standard output.
    Stdout,
}

/// Chooses the delivery sink: the configured webhook when present,
/// standard output otherwise.
pub fn choose_sink(webhook: &Option<String>) -> (r: Sink)
    ensures
        webhook matches Some(u) ==> (r matches Sink::Webhook(u2) && u2@ == u@),
        webhook is None ==> r is Stdout,
{
    match webhook {
        Some(u) => Sink::Webhook(u.clone()),
        None => Sink::Stdout,
    }
}

/// One check as a pass observes it: its baseline key and the payload
/// its rendering produced.
pub ghost struct CheckRun {
    pub key: Seq<char>,
    pub payload: Seq<char>,
}

/// What the store holds for a key, or absence.
pub open spec fn store_lookup(store: Map<Seq<char>, Seq<char>>, key: Seq<char>) -> Option<
    Seq<char>,
> {
    if store.contains_key(key) {
        Some(store[key])
    } else {
        None
    }
}

/// The store after one pass over the checks: each check whose payload
/// counts as changed overwrites its baseline, in order.  The model
/// describes a pass whose deliveries all succeeded — the driver
/// overwrites a baseline only after its payload was delivered, so a
/// failed delivery leaves the old baseline and the change is detected
/// again on the next pass.
pub open spec fn store_after(
    store: Map<Seq<char>, Seq<char>>,
    runs: Seq<CheckRun>,
) -> Map<Seq<char>, Seq<char>>
    decreases runs.len(),
{
    if runs.len() == 0 {
        store
    } else {
        let first = runs[0];
        let store1 = if changed_from(store_lookup(store, first.key), first.payload) {
            store.insert(first.key, first.payload)
        } else {
            store
        };
        store_after(store1, runs.drop_first())
    }
}

/// Which checks a pass notifies, in configuration order.
pub open spec fn notified_in(store: Map<Seq<char>, Seq<char>>, runs: Seq<CheckRun>) -> Seq<
    bool,
>
    decreases runs.len(),
{
    if runs.len() == 0 {
        Seq::<bool>::empty()
    } else {
        let first = runs[0];
        let c = changed_from(store_lookup(store, first.key), first.payload);
        let store1 = if c {
            store.insert(first.key, first.payload)
        } else {
            store
        };
        seq![c] + notified_in(store1, runs.drop_first())
    }
}

/// Whether the checks of a pass have pairwise distinct baseline keys —
/// the collision freedom the configuration owes the store.
pub open spec fn distinct_keys(runs: Seq<CheckRun>) -> bool {
    forall|i: int, j: int|
        0 <= i < j < runs.len() ==> (#[trigger] runs[i]).key != (#[trigger] runs[j]).key
}

/// A pass answers for exactly the checks it was given.
pub proof fn lemma_notified_len(store: Map<Seq<char>, Seq<char>>, runs: Seq<CheckRun>)
    ensures
        notified_in(store, runs).len() == runs.len(),
    decreases runs.len(),
{
    if runs.len() > 0 {
        let first = runs[0];
        let c = changed_from(store_lookup(store, first.key), first.payload);
        let store1 = if c {
            store.insert(first.key, first.payload)
        } else {
            store
        };
        lemma_notified_len(store1, runs.drop_first());
    }
}

/// A pass touches no key outside its checks.
proof fn lemma_store_untouched(
    store: Map<Seq<char>, Seq<char>>,
    runs: Seq<CheckRun>,
    key: Seq<char>,
)
    requires
        forall|i: int| 0 <= i < runs.len() ==> (#[trigger] runs[i]).key != key,
    ensures
        store_lookup(store_after(store, runs), key) == store_lookup(store, key),
    decreases runs.len(),
{
    if runs.len() > 0 {
        let first = runs[0];
        let store1 = if changed_from(store_lookup(store, first.key), first.payload) {
            store.insert(first.key, first.payload)
        } else {
            store
        };
        assert(forall|i: int|
            0 <= i < runs.drop_first().len() ==> (#[trigger] runs.drop_first()[i]).key != key);
        lemma_store_untouched(store1, runs.drop_first(), key);
    }
}

/// Failure isolation: with distinct keys, whether a pass notifies a
/// check depends only on that check's own baseline and payload — how
/// any other check fared, earlier or later in the pass, cannot change
/// it.
pub proof fn lemma_isolation(store: Map<Seq<char>, Seq<char>>, runs: Seq<CheckRun>, i: int)
    requires
        distinct_keys(runs),
        0 <= i < runs.len(),
    ensures
        notified_in(store, runs)[i] == changed_from(
            store_lookup(store, runs[i].key),
            runs[i].payload,
        ),
    decreases runs.len(),
{
    lemma_notified_len(store, runs);
    let first = runs[0];
    let c = changed_from(store_lookup(store, first.key), first.payload);
    let store1 = if c {
        store.insert(first.key, first.payload)
    } else {
        store
    };
    if i == 0 {
        assert(notified_in(store, runs)[0] == c);
    } else {
        assert(distinct_keys(runs.drop_first()));
        lemma_isolation(store1, runs.drop_first(), i - 1);
        lemma_notified_len(store1, runs.drop_first());
        assert(notified_in(store, runs)[i] == notified_in(store1, runs.drop_first())[i - 1]);
        assert(runs.drop_first()[i - 1] == runs[i]);
        assert(runs[0].key != runs[i].key);
        assert(store_lookup(store1, runs[i].key) == store_lookup(store, runs[i].key));
    }
}

/// After a pass with distinct keys, every check's baseline is its
/// payload — a first sighting wrote it, a changed rendering
/// overwrote it, an unchanged one already matched.
pub proof fn lemma_pass_settles(store: Map<Seq<char>, Seq<char>>, runs: Seq<CheckRun>, i: int)
    requires
        distinct_keys(runs),
        0 <= i < runs.len(),
    ensures
        store_lookup(store_after(store, runs), runs[i].key) == Some(runs[i].payload),
    decreases runs.len(),
{
    let first = runs[0];
    let c = changed_from(store_lookup(store, first.key), first.payload);
    let store1 = if c {
        store.insert(first.key, first.payload)
    } else {
        store
    };
    if i == 0 {
        assert(store_lookup(store1, first.key) == Some(first.payload));
        assert(forall|j: int|
            0 <= j < runs.drop_first().len() ==> (#[trigger] runs.drop_first()[j]).key
                != first.key);
        lemma_store_untouched(store1, runs.drop_first(), first.key);
    } else {
        assert(distinct_keys(runs.drop_first()));
        assert(runs.drop_first()[i - 1] == runs[i]);
        lemma_pass_settles(store1, runs.drop_first(), i - 1);
    }
}

/// Idempotence: a second pass over the same checks, with the same
/// payloads and distinct keys, notifies nothing.
pub proof fn lemma_second_pass_quiet(store: Map<Seq<char>, Seq<char>>, runs: Seq<CheckRun>)
    requires
        distinct_keys(runs),
    ensures
        forall|i: int|
            0 <= i < runs.len() ==> !(#[trigger] notified_in(store_after(store, runs), runs)[i]),
{
    let store1 = store_after(store, runs);
    assert forall|i: int| 0 <= i < runs.len() implies !(#[trigger] notified_in(
        store1,
        runs,
    )[i]) by {
        lemma_pass_settles(store, runs, i);
        lemma_isolation(store1, runs, i);
    }
}

/// First sight always notifies: against an absent baseline every
/// payload counts as changed, the empty text included.
pub proof fn lemma_first_sight_notifies(payload: Seq<char>)
    ensures
        changed_from(None, payload),
{
}

/// First sight in a pass: a check with no stored baseline is notified
/// by the pass, and the pass leaves its payload as the baseline.
pub proof fn lemma_first_sight_pass(
    store: Map<Seq<char>, Seq<char>>,
    runs: Seq<CheckRun>,
    i: int,
)
    requires
        distinct_keys(runs),
        0 <= i < runs.len(),
        store_lookup(store, runs[i].key) is None,
    ensures
        notified_in(store, runs)[i],
        store_lookup(store_after(store, runs), runs[i].key) == Some(runs[i].payload),
{
    lemma_isolation(store, runs, i);
    lemma_pass_settles(store, runs, i);
}

/// Change detection is exact: against an existing baseline a payload
/// counts as changed exactly when the two texts differ anywhere — one
/// differing character suffices, and equal texts never count.
pub proof fn lemma_change_exact(baseline: Seq<char>, candidate: Seq<char>)
    ensures
        changed_from(Some(baseline), candidate) == (baseline != candidate),
{
}

} // verus!
