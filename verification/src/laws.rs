//! Properties of whole runs of the orchestrator, proved over the model of
//! [`crate::machine`].

use vstd::prelude::*;

use crate::descriptor::{
    spec_artifact_path, spec_post_fetch_text, spec_pre_fetch_text, spec_url, SpecArtifact,
};
use crate::errors::{FetchError, InstallError};
use crate::events::{SpecAction, SpecCommand, SpecEvent, SpecNote};
use crate::machine::{
    exit_code_of, is_success_status, run_from, run_model, start_model, step_model, SpecPhase,
    SpecState,
};

verus! {

/// Once a run is over, every further event is ignored: the state stays as it
/// is and no action — in particular no notification — is ever issued again.
pub proof fn lemma_done_stable(s: SpecState, evs: Seq<SpecEvent>, i: int)
    requires
        s.phase is Done,
    ensures
        run_from(s, evs, i) == (s, Seq::<SpecAction>::empty()),
    decreases evs.len() - i,
{
    if i < 0 || i >= evs.len() {
    } else {
        assert(step_model(s, evs[i]) == (s, Seq::<SpecAction>::empty()));
        lemma_done_stable(s, evs, i + 1);
        assert(run_from(s, evs, i).1 =~= Seq::<SpecAction>::empty());
    }
}

/// Running over a concatenation, starting past the first part, is running
/// over the second part alone.
proof fn lemma_run_from_offset(s: SpecState, evs1: Seq<SpecEvent>, evs2: Seq<SpecEvent>, i: int)
    requires
        0 <= i <= evs2.len(),
    ensures
        run_from(s, evs1 + evs2, evs1.len() + i) == run_from(s, evs2, i),
    decreases evs2.len() - i,
{
    let cat = evs1 + evs2;
    if i >= evs2.len() {
        assert(run_from(s, cat, evs1.len() + i) == (s, Seq::<SpecAction>::empty()));
    } else {
        assert(cat[evs1.len() + i] == evs2[i]);
        let s1 = step_model(s, evs2[i]).0;
        lemma_run_from_offset(s1, evs1, evs2, i + 1);
    }
}

/// A run over `evs1 + evs2` is the run over `evs1` followed by the run over
/// `evs2` from where the first one left off, with the action traces
/// concatenated.
pub proof fn lemma_run_split(s: SpecState, evs1: Seq<SpecEvent>, evs2: Seq<SpecEvent>, i: int)
    requires
        0 <= i <= evs1.len(),
    ensures
        ({
            let a = run_from(s, evs1, i);
            let b = run_from(a.0, evs2, 0);
            run_from(s, evs1 + evs2, i) == (b.0, a.1 + b.1)
        }),
    decreases evs1.len() - i,
{
    let cat = evs1 + evs2;
    let a = run_from(s, evs1, i);
    let b = run_from(a.0, evs2, 0);
    if i == evs1.len() {
        assert(a == (s, Seq::<SpecAction>::empty()));
        lemma_run_from_offset(s, evs1, evs2, 0);
        assert(run_from(s, cat, i) == b);
        assert(a.1 + b.1 =~= b.1);
    } else {
        assert(cat[i] == evs1[i]);
        let first = step_model(s, evs1[i]);
        lemma_run_split(first.0, evs1, evs2, i + 1);
        let a2 = run_from(first.0, evs1, i + 1);
        let b2 = run_from(a2.0, evs2, 0);
        assert(run_from(first.0, cat, i + 1) == (b2.0, a2.1 + b2.1));
        assert(first.1 + (a2.1 + b2.1) =~= (first.1 + a2.1) + b2.1);
        assert(a.1 == first.1 + a2.1);
        assert(a.0 == a2.0);
    }
}

/// A run never changes what was asked of it: the identifier, the temporary
/// directory and the fetch-or-install mode stay as they started.
pub proof fn lemma_run_preserves_request(s: SpecState, evs: Seq<SpecEvent>, i: int)
    ensures
        run_from(s, evs, i).0.identifier == s.identifier,
        run_from(s, evs, i).0.tmp_dir == s.tmp_dir,
        run_from(s, evs, i).0.install == s.install,
    decreases evs.len() - i,
{
    if i < 0 || i >= evs.len() {
    } else {
        let first = step_model(s, evs[i]);
        assert(first.0.identifier == s.identifier);
        assert(first.0.tmp_dir == s.tmp_dir);
        assert(first.0.install == s.install);
        lemma_run_preserves_request(first.0, evs, i + 1);
    }
}

/// The canonical successful fetch: the remote answers a 2xx status with body
/// `body`, persisting succeeds, both notifications go through. The run ends
/// with the artifact at its deterministic path holding exactly `body`, the
/// action trace is exactly the five expected actions, and exactly two of
/// them are notifications: the pre-fetch one first, the post-fetch one —
/// carrying the path — last.
pub proof fn lemma_fetch_success(id: Seq<char>, tmp_dir: Seq<char>, status: u16, body: Seq<char>)
    requires
        id.len() > 0,
        tmp_dir.len() > 0,
        is_success_status(status),
    ensures
        ({
            let evs = seq![
                SpecEvent::Notified(true),
                SpecEvent::Response(Some(status)),
                SpecEvent::Body(Some(body)),
                SpecEvent::Persisted(true),
                SpecEvent::Notified(true),
            ];
            let r = run_model(id, tmp_dir, false, evs);
            let url = spec_url(id);
            let path = spec_artifact_path(tmp_dir, id);
            &&& r.0.phase == SpecPhase::Done(
                Ok(SpecArtifact { identifier: id, path: path, content: body }),
            )
            &&& r.1 =~= seq![
                SpecAction::Emit(SpecNote::Output(spec_pre_fetch_text(url))),
                SpecAction::Get(url),
                SpecAction::ReadBody,
                SpecAction::Persist(path, body),
                SpecAction::Emit(SpecNote::Output(spec_post_fetch_text(path))),
            ]
            &&& forall|j: int| 0 <= j < r.1.len() && r.1[j] is Emit ==> j == 0 || j == 4
        }),
{
    let evs = seq![
        SpecEvent::Notified(true),
        SpecEvent::Response(Some(status)),
        SpecEvent::Body(Some(body)),
        SpecEvent::Persisted(true),
        SpecEvent::Notified(true),
    ];
    let s0 = start_model(id, tmp_dir, false).0;
    let st1 = step_model(s0, evs[0]);
    let st2 = step_model(st1.0, evs[1]);
    let st3 = step_model(st2.0, evs[2]);
    let st4 = step_model(st3.0, evs[3]);
    let st5 = step_model(st4.0, evs[4]);
    assert(st1.0.phase is AwaitResponse);
    assert(st2.0.phase is AwaitBody);
    assert(st3.0.phase is AwaitPersist);
    assert(st4.0.phase is PostFetchNotify);
    assert(st5.0.phase is Done);
    assert(run_from(st5.0, evs, 5) == (st5.0, Seq::<SpecAction>::empty()));
    assert(run_from(st4.0, evs, 4).0 == st5.0);
    assert(run_from(st4.0, evs, 4).1 =~= st5.1);
    assert(run_from(st3.0, evs, 3).0 == st5.0);
    assert(run_from(st3.0, evs, 3).1 =~= st4.1 + st5.1);
    assert(run_from(st2.0, evs, 2).0 == st5.0);
    assert(run_from(st2.0, evs, 2).1 =~= st3.1 + st4.1 + st5.1);
    assert(run_from(st1.0, evs, 1).0 == st5.0);
    assert(run_from(st1.0, evs, 1).1 =~= st2.1 + st3.1 + st4.1 + st5.1);
    assert(run_from(s0, evs, 0).0 == st5.0);
    assert(run_from(s0, evs, 0).1 =~= st1.1 + st2.1 + st3.1 + st4.1 + st5.1);
    assert(run_model(id, tmp_dir, false, evs).1 =~= start_model(id, tmp_dir, false).1 + run_from(
        s0,
        evs,
        0,
    ).1);
}

/// A fetch against a remote that answers any non-2xx status `status` fails
/// with exactly `HttpStatus(status)`, and the run never asks for the
/// artifact to be written.
pub proof fn lemma_fetch_http_error(id: Seq<char>, tmp_dir: Seq<char>, status: u16)
    requires
        id.len() > 0,
        tmp_dir.len() > 0,
        !is_success_status(status),
    ensures
        ({
            let evs = seq![SpecEvent::Notified(true), SpecEvent::Response(Some(status))];
            let r = run_model(id, tmp_dir, false, evs);
            &&& r.0.phase == SpecPhase::Done(
                Err(InstallError::Fetch(FetchError::HttpStatus(status))),
            )
            &&& forall|j: int| 0 <= j < r.1.len() ==> !(r.1[j] is Persist)
        }),
{
    let evs = seq![SpecEvent::Notified(true), SpecEvent::Response(Some(status))];
    let s0 = start_model(id, tmp_dir, false).0;
    let st1 = step_model(s0, evs[0]);
    let st2 = step_model(st1.0, evs[1]);
    assert(st1.0.phase is AwaitResponse);
    assert(st2.0.phase is Done);
    assert(run_from(st2.0, evs, 2) == (st2.0, Seq::<SpecAction>::empty()));
    assert(run_from(st1.0, evs, 1).0 == st2.0);
    assert(run_from(st1.0, evs, 1).1 =~= st2.1);
    assert(run_from(s0, evs, 0).0 == st2.0);
    assert(run_from(s0, evs, 0).1 =~= st1.1 + st2.1);
    let r = run_model(id, tmp_dir, false, evs);
    assert(r.1 =~= start_model(id, tmp_dir, false).1 + run_from(s0, evs, 0).1);
    assert(forall|j: int| 0 <= j < r.1.len() ==> !(r.1[j] is Persist)) by {
        assert(r.1.len() == 2);
        assert(!(r.1[0] is Persist));
        assert(!(r.1[1] is Persist));
    }
}

/// A single step orders the artifact removed only when the event it consumes
/// reports that the installer terminated.
proof fn lemma_step_remove_needs_termination(s: SpecState, ev: SpecEvent, j: int)
    requires
        0 <= j < step_model(s, ev).1.len(),
        step_model(s, ev).1[j] is Remove,
    ensures
        ev matches SpecEvent::Command(SpecCommand::Terminated(_)),
{
}

/// The artifact is deleted only after the installer has terminated: a run
/// whose events never report a termination never issues a `Remove` action.
/// In particular, a run in which spawning the installer failed — or that
/// failed before the spawn — leaves the artifact in place.
pub proof fn lemma_no_delete_without_termination(
    id: Seq<char>,
    tmp_dir: Seq<char>,
    install: bool,
    evs: Seq<SpecEvent>,
    j: int,
)
    requires
        0 <= j < run_model(id, tmp_dir, install, evs).1.len(),
        run_model(id, tmp_dir, install, evs).1[j] is Remove,
    ensures
        exists|k: int|
            #![trigger evs[k]]
            0 <= k < evs.len() && evs[k] matches SpecEvent::Command(SpecCommand::Terminated(_)),
{
    let st = start_model(id, tmp_dir, install);
    let tr = run_model(id, tmp_dir, install, evs).1;
    assert(tr == st.1 + run_from(st.0, evs, 0).1);
    assert(st.1.len() == 1 && !(st.1[0] is Remove));
    assert(run_from(st.0, evs, 0).1[j - 1] is Remove);
    lemma_run_remove_needs_termination(st.0, evs, 0, j - 1);
}

/// The inductive core of [`lemma_no_delete_without_termination`], over the
/// tail of a run.
proof fn lemma_run_remove_needs_termination(s: SpecState, evs: Seq<SpecEvent>, i: int, j: int)
    requires
        0 <= i,
        0 <= j < run_from(s, evs, i).1.len(),
        run_from(s, evs, i).1[j] is Remove,
    ensures
        exists|k: int|
            #![trigger evs[k]]
            i <= k < evs.len() && evs[k] matches SpecEvent::Command(SpecCommand::Terminated(_)),
    decreases evs.len() - i,
{
    let first = step_model(s, evs[i]);
    let rest = run_from(first.0, evs, i + 1);
    assert(run_from(s, evs, i).1 == first.1 + rest.1);
    if j < first.1.len() {
        lemma_step_remove_needs_termination(s, evs[i], j);
        assert(evs[i] matches SpecEvent::Command(SpecCommand::Terminated(_)));
    } else {
        assert(rest.1[j - first.1.len()] is Remove);
        lemma_run_remove_needs_termination(first.0, evs, i + 1, j - first.1.len());
    }
}

/// When the installer terminates — with any exit code, or none — the machine
/// orders the artifact deleted, and only then the completion notification
/// emitted, whatever the code was.
pub proof fn lemma_termination_deletes(s: SpecState, code: Option<i32>)
    requires
        s.phase is Streaming,
    ensures
        ({
            let r = step_model(s, SpecEvent::Command(SpecCommand::Terminated(code)));
            let path = spec_artifact_path(s.tmp_dir, s.identifier);
            &&& r.0.phase is FinalNotify
            &&& r.1 =~= seq![
                SpecAction::Remove(path),
                SpecAction::Emit(SpecNote::Completed(exit_code_of(code))),
            ]
        }),
{
}

/// For an installation that ends because the installer terminated, the
/// completion notification is the very last action of the whole run: no
/// output or error notification — indeed nothing at all — follows it, no
/// matter what events arrive afterwards.
pub proof fn lemma_completion_is_last(
    id: Seq<char>,
    tmp_dir: Seq<char>,
    evs: Seq<SpecEvent>,
    code: Option<i32>,
    more: Seq<SpecEvent>,
)
    requires
        run_model(id, tmp_dir, true, evs).0.phase is Streaming,
    ensures
        ({
            let tail = seq![
                SpecEvent::Command(SpecCommand::Terminated(code)),
                SpecEvent::Notified(true),
            ] + more;
            let r = run_model(id, tmp_dir, true, evs + tail);
            let base = run_model(id, tmp_dir, true, evs);
            let path = spec_artifact_path(tmp_dir, id);
            &&& r.0.phase matches SpecPhase::Done(res) && res is Ok
            &&& r.1 =~= base.1 + seq![
                SpecAction::Remove(path),
                SpecAction::Emit(SpecNote::Completed(exit_code_of(code))),
            ]
            &&& r.1.len() > 0
            &&& r.1.last() == SpecAction::Emit(SpecNote::Completed(exit_code_of(code)))
        }),
{
    let st = start_model(id, tmp_dir, true);
    let tail = seq![
        SpecEvent::Command(SpecCommand::Terminated(code)),
        SpecEvent::Notified(true),
    ] + more;
    let mid = run_from(st.0, evs, 0).0;
    assert(mid == run_model(id, tmp_dir, true, evs).0);
    lemma_run_split(st.0, evs, tail, 0);
    lemma_run_preserves_request(st.0, evs, 0);
    assert(mid.identifier == id && mid.tmp_dir == tmp_dir);
    assert(tail[0] == SpecEvent::Command(SpecCommand::Terminated(code)));
    assert(tail[1] == SpecEvent::Notified(true));
    let s1 = step_model(mid, tail[0]);
    let s2 = step_model(s1.0, tail[1]);
    assert(s1.0.phase is FinalNotify);
    assert(s2.0.phase matches SpecPhase::Done(res) && res is Ok);
    lemma_done_stable(s2.0, tail, 2);
    assert(run_from(s1.0, tail, 1).0 == s2.0);
    assert(run_from(s1.0, tail, 1).1 =~= s2.1);
    assert(run_from(mid, tail, 0).0 == s2.0);
    assert(run_from(mid, tail, 0).1 =~= s1.1 + s2.1);
    let r = run_model(id, tmp_dir, true, evs + tail);
    assert(r.0 == s2.0);
    assert(r.1 =~= st.1 + (run_from(st.0, evs, 0).1 + run_from(mid, tail, 0).1));
    assert(r.1 =~= (st.1 + run_from(st.0, evs, 0).1) + (s1.1 + s2.1));
    let base = run_model(id, tmp_dir, true, evs);
    let path = spec_artifact_path(tmp_dir, id);
    let closing = seq![
        SpecAction::Remove(path),
        SpecAction::Emit(SpecNote::Completed(exit_code_of(code))),
    ];
    assert(s1.1 + s2.1 =~= closing);
    assert(r.1 =~= base.1 + closing);
    assert(r.1[r.1.len() - 1] == closing[1]);
}

/// Fetching the same identifier twice against an unchanged remote answer is
/// idempotent: the runs are action-for-action identical, and in particular
/// both persist exactly the same content to exactly the same path — the
/// second write overwrites the first, leaving no second file behind.
pub proof fn lemma_fetch_idempotent(
    id: Seq<char>,
    tmp_dir: Seq<char>,
    status: u16,
    body: Seq<char>,
)
    requires
        id.len() > 0,
        tmp_dir.len() > 0,
        is_success_status(status),
    ensures
        ({
            let evs = seq![
                SpecEvent::Notified(true),
                SpecEvent::Response(Some(status)),
                SpecEvent::Body(Some(body)),
                SpecEvent::Persisted(true),
                SpecEvent::Notified(true),
            ];
            let first = run_model(id, tmp_dir, false, evs);
            let second = run_model(id, tmp_dir, false, evs);
            let path = spec_artifact_path(tmp_dir, id);
            &&& second.1 =~= first.1
            &&& first.1[3] == SpecAction::Persist(path, body)
            &&& second.1[3] == SpecAction::Persist(path, body)
            &&& first.0.phase == second.0.phase
        }),
{
    lemma_fetch_success(id, tmp_dir, status, body);
}

} // verus!
