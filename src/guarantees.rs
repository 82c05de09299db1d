use vstd::prelude::*;

use crate::materialize::{outcome_of, path_parent, ActionView, Event, Job, Phase};
use crate::privilege::is_root_uid;
use crate::status::MaterializeError;
use crate::target::{lemma_staging_differs, staging_path_of, TargetType};
use crate::worker::Worker;

verus! {

/// A finished materialization stays finished, whatever is reported after.
pub proof fn lemma_finished_is_final(job: Job, p: Phase, e: Event)
    requires
        outcome_of(p).is_some(),
    ensures
        job.next(p, e) == p,
{
}

/// A property that holds at `p` and that every step keeps holds after any
/// sequence of events.
pub proof fn lemma_run_keeps(job: Job, holds: spec_fn(Phase) -> bool, p: Phase, events: Seq<Event>)
    requires
        holds(p),
        forall|q: Phase, e: Event| holds(q) ==> #[trigger] holds(job.next(q, e)),
    ensures
        holds(job.run(p, events)),
    decreases events.len(),
{
    if events.len() > 0 {
        lemma_run_keeps(job, holds, p, events.drop_last());
    }
}

/// Every phase a run reaches asks for an action it can name.
pub proof fn lemma_run_phase_ok(job: Job, events: Seq<Event>)
    ensures
        job.phase_ok(job.run(Phase::CheckExists, events)),
{
    let ok = |q: Phase| job.phase_ok(q);
    assert forall|q: Phase, e: Event| ok(q) implies #[trigger] ok(job.next(q, e)) by {
        job.lemma_next_phase_ok(q, e);
    }
    lemma_run_keeps(job, ok, Phase::CheckExists, events);
}

/// A set of phases that a step can enter only from phase `gate` on event
/// `pass`: a run that ends inside it went through `gate` and got `pass`.
pub proof fn lemma_run_passes_gate(
    job: Job,
    inside: spec_fn(Phase) -> bool,
    gate: Phase,
    pass: Event,
    events: Seq<Event>,
)
    requires
        !inside(Phase::CheckExists),
        forall|q: Phase, e: Event|
            job.phase_ok(q) && #[trigger] inside(job.next(q, e)) ==> inside(q) || (q == gate && e
                == pass),
    ensures
        inside(job.run(Phase::CheckExists, events)) ==> exists|j: int|
            0 <= j < events.len() && job.run(Phase::CheckExists, #[trigger] events.take(j)) == gate
                && events[j] == pass,
    decreases events.len(),
{
    if events.len() > 0 {
        let prefix = events.drop_last();
        let n = events.len() - 1;
        assert(events.take(n) =~= prefix);
        lemma_run_passes_gate(job, inside, gate, pass, prefix);
        lemma_run_phase_ok(job, prefix);
        if inside(job.run(Phase::CheckExists, events)) {
            let q = job.run(Phase::CheckExists, prefix);
            if inside(q) {
                let j = choose|j: int|
                    0 <= j < prefix.len() && job.run(Phase::CheckExists, #[trigger] prefix.take(j))
                        == gate && prefix[j] == pass;
                assert(prefix.take(j) =~= events.take(j));
            } else {
                assert(job.run(Phase::CheckExists, events.take(n)) == gate && events[n] == pass);
            }
        }
    } else {
        assert(job.run(Phase::CheckExists, events) == Phase::CheckExists);
    }
}

/// Idempotence: when the first check finds the destination present, the run
/// finishes with success at once and asks for nothing more than to report it,
/// whatever is reported afterwards.
pub proof fn lemma_present_destination_is_untouched(job: Job, events: Seq<Event>)
    requires
        events.len() > 0,
        events[0] == Event::Exists(true),
    ensures
        job.action(Phase::CheckExists) == (ActionView::CheckExists { path: job.to }),
        forall|i: int|
            0 < i <= events.len() ==> job.run(Phase::CheckExists, #[trigger] events.take(i))
                == Phase::Finished,
        forall|i: int|
            0 < i <= events.len() ==> job.action(
                job.run(Phase::CheckExists, #[trigger] events.take(i)),
            ) == (ActionView::Finish { result: Ok(()) }),
{
    assert forall|i: int| 0 < i <= events.len() implies job.run(
        Phase::CheckExists,
        #[trigger] events.take(i),
    ) == Phase::Finished by {
        assert(events.take(1).drop_last() =~= Seq::<Event>::empty());
        assert(events.take(1).last() == events[0]);
        assert(job.run(Phase::CheckExists, events.take(1).drop_last()) == Phase::CheckExists);
        assert(job.run(Phase::CheckExists, events.take(1)) == Phase::Finished);
        let rest = events.subrange(1, i);
        lemma_run_keeps(job, |q: Phase| q == Phase::Finished, Phase::Finished, rest);
        lemma_run_split(job, events.take(1), rest);
        assert(events.take(1) + rest =~= events.take(i));
    }
}

/// Running two sequences one after the other is running their concatenation.
pub proof fn lemma_run_split(job: Job, a: Seq<Event>, b: Seq<Event>)
    ensures
        job.run(job.run(Phase::CheckExists, a), b) == job.run(Phase::CheckExists, a + b),
    decreases b.len(),
{
    if b.len() > 0 {
        lemma_run_split(job, a, b.drop_last());
        assert((a + b).drop_last() =~= a + b.drop_last());
    } else {
        assert(a + b =~= a);
    }
}

/// An entry already at the destination of a directory target, of whatever
/// kind, counts as the directory: the run succeeds and creates nothing.
pub proof fn lemma_existing_entry_blocks_directory(job: Job)
    requires
        job.target_type == TargetType::Directory,
    ensures
        job.next(Phase::CheckExists, Event::Exists(true)) == Phase::Finished,
        job.action(Phase::Finished) == (ActionView::Finish { result: Ok(()) }),
{
}

/// The phases of a file target that come after its body was fetched.
pub open spec fn after_fetch(job: Job, p: Phase) -> bool {
    job.target_type == TargetType::File && (p == Phase::CheckPrivilege || p == Phase::SetOwner
        || p == Phase::Publish)
}

/// Atomic publish: a file is written only under its staging name, which is
/// never the destination; the one action that puts anything at the
/// destination is the rename, and a run reaches it only after the whole body
/// was fetched. A failed fetch ends the run before any rename.
pub proof fn lemma_publish_after_complete_fetch(job: Job, events: Seq<Event>)
    requires
        job.target_type == TargetType::File,
    ensures
        staging_path_of(job.to) != job.to,
        forall|p: Phase| #[trigger] job.action(p) is Rename ==> p == Phase::Publish,
        job.action(Phase::Publish) == (ActionView::Rename {
            from: staging_path_of(job.to),
            to: job.to,
        }),
        job.next(Phase::Fetch, Event::Failed) == Phase::Failed(MaterializeError::Transport),
        job.run(Phase::CheckExists, events) == Phase::Publish ==> exists|j: int|
            0 <= j < events.len() && job.run(Phase::CheckExists, #[trigger] events.take(j))
                == Phase::Fetch && events[j] == Event::Succeeded,
{
    lemma_staging_differs(job.to);
    let inside = |p: Phase| after_fetch(job, p);
    lemma_run_passes_gate(job, inside, Phase::Fetch, Event::Succeeded, events);
}

/// The phases of a file target from the creation of its staging file on.
pub open spec fn from_staging(job: Job, p: Phase) -> bool {
    job.target_type == TargetType::File && (p == Phase::CreateStaging || p == Phase::Fetch
        || p == Phase::CheckPrivilege || p == Phase::SetOwner || p == Phase::Publish)
}

/// Parent creation: for a file target whose destination has a parent
/// directory, the run asks to create that directory and all above it, and
/// it reaches the staging file only after that succeeded.
pub proof fn lemma_parents_before_staging(job: Job, events: Seq<Event>)
    requires
        job.target_type == TargetType::File,
        path_parent(job.to).is_some(),
    ensures
        job.next(Phase::CheckExists, Event::Exists(false)) == Phase::CreateParents,
        job.action(Phase::CreateParents) == (ActionView::CreateDirAll {
            path: path_parent(job.to).unwrap(),
        }),
        from_staging(job, job.run(Phase::CheckExists, events)) ==> exists|j: int|
            0 <= j < events.len() && job.run(Phase::CheckExists, #[trigger] events.take(j))
                == Phase::CreateParents && events[j] == Event::Succeeded,
{
    let inside = |p: Phase| from_staging(job, p);
    lemma_run_passes_gate(job, inside, Phase::CreateParents, Event::Succeeded, events);
}

/// The phases a file target without a source can be in.
pub open spec fn sourceless_phase(p: Phase) -> bool {
    p == Phase::CheckExists || p == Phase::CreateParents || p == Phase::Finished || p
        is Failed
}

/// A missing source is a hard failure: a file target without a source never
/// creates a staging file, fetches, or renames anything to its destination;
/// once the destination is found absent, the run fails with
/// `MissingSource` (or earlier, when creating the parents fails).
pub proof fn lemma_missing_source_fails(job: Job, events: Seq<Event>)
    requires
        job.target_type == TargetType::File,
        job.from.is_none(),
    ensures
        sourceless_phase(job.run(Phase::CheckExists, events)),
        !(job.action(job.run(Phase::CheckExists, events)) is CreateStaging),
        !(job.action(job.run(Phase::CheckExists, events)) is Fetch),
        !(job.action(job.run(Phase::CheckExists, events)) is Rename),
        job.next(Phase::CheckExists, Event::Exists(false)) == if path_parent(job.to).is_some() {
            Phase::CreateParents
        } else {
            Phase::Failed(MaterializeError::MissingSource)
        },
        job.next(Phase::CreateParents, Event::Succeeded) == Phase::Failed(
            MaterializeError::MissingSource,
        ),
{
    lemma_run_keeps(job, |q: Phase| sourceless_phase(q), Phase::CheckExists, events);
}

/// Ownership: after a directory is created or a file fetched, the run asks
/// for the privilege of the process. With administrative rights it hands the
/// entry to the configured user; without them it asks for no change of
/// owner at all. A change of owner is asked for in no other way.
pub proof fn lemma_ownership_follows_privilege(
    job: Job,
    p: Phase,
    e: Event,
    euid: u32,
    events: Seq<Event>,
)
    ensures
        job.next(Phase::CreateDir, Event::Succeeded) == Phase::CheckPrivilege,
        job.next(Phase::Fetch, Event::Succeeded) == Phase::CheckPrivilege,
        (job.next(Phase::CheckPrivilege, Event::EffectiveUid(euid)) == Phase::SetOwner)
            == is_root_uid(euid),
        job.action(Phase::SetOwner) == (ActionView::SetOwner {
            path: job.owned_path(),
            uid: job.uid,
        }),
        job.target_type == TargetType::File ==> job.owned_path() == staging_path_of(job.to),
        job.target_type == TargetType::Directory ==> job.owned_path() == job.to,
        job.next(p, e) == Phase::SetOwner && p != Phase::SetOwner ==> p == Phase::CheckPrivilege
            && e == Event::EffectiveUid(0),
        job.action(p) is SetOwner ==> p == Phase::SetOwner,
        job.run(Phase::CheckExists, events) == Phase::SetOwner ==> exists|j: int|
            0 <= j < events.len() && job.run(Phase::CheckExists, #[trigger] events.take(j))
                == Phase::CheckPrivilege && events[j] == Event::EffectiveUid(0),
{
    let inside = |q: Phase| q == Phase::SetOwner;
    lemma_run_passes_gate(job, inside, Phase::CheckPrivilege, Event::EffectiveUid(0), events);
}

/// What a run of workers has taken off the queue, in all.
pub open spec fn total_received(ws: Seq<Worker>) -> nat
    decreases ws.len(),
{
    if ws.len() == 0 {
        0
    } else {
        total_received(ws.drop_last()) + ws.last().received()
    }
}

/// What a run of workers has replied, in all.
pub open spec fn total_replied(ws: Seq<Worker>) -> nat
    decreases ws.len(),
{
    if ws.len() == 0 {
        0
    } else {
        total_replied(ws.drop_last()) + ws.last().replied()
    }
}

/// Fan-out: across a pool whose workers are all idle, every message taken
/// off the queue got exactly one reply.
pub proof fn lemma_pool_replies_once(ws: Seq<Worker>)
    requires
        forall|i: int| 0 <= i < ws.len() ==> #[trigger] ws[i].inv() && !ws[i].is_busy(),
    ensures
        total_replied(ws) == total_received(ws),
    decreases ws.len(),
{
    if ws.len() > 0 {
        let prefix = ws.drop_last();
        assert forall|i: int| 0 <= i < prefix.len() implies #[trigger] prefix[i].inv()
            && !prefix[i].is_busy() by {
            assert(prefix[i] == ws[i]);
        }
        lemma_pool_replies_once(prefix);
        assert(ws[ws.len() - 1].inv());
    }
}

} // verus!
