//! A start of the runtime: the versions are tried one after the other until one
//! of them runs.

use vstd::prelude::*;

use crate::host::Platform;
use crate::paths::FoundPaths;
use crate::runtime::{
    candidates, launch_candidates, law_candidates, lemma_with_version, location, with_version,
    PathsView, RuntimeManager, RuntimeManagerView, RuntimeStateView, RuntimeUpdatePhase,
    RuntimeUpdateSnapshotView, StartupInfo, StartupInfoView,
};
use crate::text::{
    cat2, cat3, cat4, has_text, is_text, join, joined, lemma_joined_holds, lemma_part_of, occurs_at,
};

verus! {

/// A start under way: the versions to try, how many of them were taken, the
/// version that waited when it began, and what went wrong so far.
pub struct StartRun {
    pub candidates: Vec<String>,
    pub taken: usize,
    pub pending: Option<String>,
    pub failures: Vec<String>,
}

/// The value of a [`StartRun`].
#[verifier::ext_equal]
pub struct StartRunView {
    pub candidates: Seq<Seq<char>>,
    pub taken: int,
    pub pending: Option<Seq<char>>,
    pub failures: Seq<Seq<char>>,
}

impl View for StartRun {
    type V = StartRunView;

    open spec fn view(&self) -> StartRunView {
        StartRunView {
            candidates: self.candidates.deep_view(),
            taken: self.taken as int,
            pending: self.pending.deep_view(),
            failures: self.failures.deep_view(),
        }
    }
}

impl StartRunView {
    /// No more versions were taken than there are.
    pub open spec fn wf(self) -> bool {
        0 <= self.taken <= self.candidates.len()
    }
}

/// The run with which a start begins.
pub open spec fn first_run(state: RuntimeStateView, bundled: Seq<char>) -> StartRunView {
    StartRunView {
        candidates: candidates(state, bundled),
        taken: 0,
        pending: state.pending,
        failures: Seq::empty(),
    }
}

/// How a start goes on.
pub enum StartDecision {
    /// The runtime runs already.
    Running(StartupInfo),
    /// The state is to be saved, and then the versions are tried.
    Try(StartRun),
}

/// What is tried next.
pub enum LaunchChoice {
    /// This version, at this place.
    Launch { version: String, path: String },
    /// Nothing is left; this is the error of the start.
    Failed(String),
}

/// A version that could not be started, and why.
pub open spec fn failure_line(version: Seq<char>, reason: Seq<char>) -> Seq<char> {
    "DSH "@ + version + ": "@ + reason
}

/// The error of a start in which every version failed.
pub open spec fn start_error(failures: Seq<Seq<char>>) -> Seq<char> {
    "没有可启动的 DSH 版本。\n"@ + joined(failures, "\n"@)
}

/// The run after the versions that are not on disk were passed over, each with
/// its line among the failures. The version that stopped the passing is the
/// last one taken.
pub open spec fn passed_over(
    run: StartRunView,
    paths: PathsView,
    bundled: Seq<char>,
    found: FoundPaths,
    platform: Platform,
) -> (StartRunView, Option<(Seq<char>, Seq<char>)>)
    decreases run.candidates.len() - run.taken,
{
    if 0 <= run.taken < run.candidates.len() {
        let version = run.candidates[run.taken];
        match location(paths, bundled, version, found, platform) {
            Some(path) => (StartRunView { taken: run.taken + 1, ..run }, Some((version, path))),
            None => passed_over(
                StartRunView {
                    taken: run.taken + 1,
                    failures: run.failures.push(failure_line(version, "安装目录不存在"@)),
                    ..run
                },
                paths,
                bundled,
                found,
                platform,
            ),
        }
    } else {
        (run, None)
    }
}

/// The state after a version was started. A version that ran before becomes the
/// previous one, and a version that waited and was not the one that started is
/// given up.
pub open spec fn launched(
    state: RuntimeStateView,
    pending: Option<Seq<char>>,
    version: Seq<char>,
) -> RuntimeStateView {
    let previous = if state.active == Some(version) {
        None
    } else {
        state.active
    };
    let moved = if state.pending == Some(version) {
        RuntimeStateView { previous, active: Some(version), pending: None, ..state }
    } else if state.active != Some(version) {
        RuntimeStateView { previous, active: Some(version), ..state }
    } else {
        state
    };
    if pending is Some && pending != Some(version) {
        RuntimeStateView { pending: None, ..moved }
    } else {
        moved
    }
}

/// The title of the main window for a version.
pub fn running_title(version: &str) -> (title: String)
    ensures
        title@ == "DSH Desktop · DSH "@ + version@,
{
    cat2("DSH Desktop · DSH ", version)
}

/// The title of the main window while a version waits.
pub fn staged_title(version: &str) -> (title: String)
    ensures
        title@ == "DSH Desktop · DSH "@ + version@ + " 可在重启后使用"@,
{
    cat3("DSH Desktop · DSH ", version, " 可在重启后使用")
}

impl RuntimeManager {
    /// Begins a start. A runtime that runs and is known is left alone; otherwise
    /// the state is brought in line with the disk and the versions to try are
    /// listed.
    pub fn start(&mut self, process_running: bool, found: &FoundPaths) -> (decision: StartDecision)
        ensures
            final(self).same_setup(*old(self)),
            if process_running && old(self)@.startup is Some {
                &&& decision matches StartDecision::Running(info)
                &&& info@ == old(self)@.startup->0
                &&& final(self)@ == (RuntimeManagerView { shutting_down: false, ..old(self)@ })
            } else {
                &&& decision matches StartDecision::Try(run)
                &&& final(self)@ == (RuntimeManagerView {
                    shutting_down: false,
                    state: old(self).reconciled_state(*found),
                    ..old(self)@
                })
                &&& run@ == first_run(
                    old(self).reconciled_state(*found),
                    old(self).manifest.dsh_version@,
                )
            },
    {
        self.shutting_down = false;
        if process_running {
            if let Some(info) = &self.startup {
                return StartDecision::Running(info.clone());
            }
        }
        self.reconcile_state(found);
        let run = StartRun {
            candidates: launch_candidates(&self.state, self.manifest.dsh_version.as_str()),
            taken: 0,
            pending: self.state.pending.clone(),
            failures: Vec::new(),
        };
        assert(run@.failures =~= Seq::empty());
        StartDecision::Try(run)
    }

    /// The version to try next. Versions that are not on disk are passed over.
    pub fn next_launch(&self, run: &mut StartRun, found: &FoundPaths) -> (choice: LaunchChoice)
        requires
            old(run)@.wf(),
        ensures
            final(run)@.wf(),
            ({
                let (after, chosen) = passed_over(
                    old(run)@,
                    self.paths@,
                    self.manifest.dsh_version@,
                    *found,
                    self.platform,
                );
                &&& final(run)@ == after
                &&& match chosen {
                    Some((version, path)) => choice matches LaunchChoice::Launch {
                        version: tried,
                        path: at,
                    } && tried@ == version && at@ == path,
                    None => choice matches LaunchChoice::Failed(error) && error@ == start_error(
                        after.failures,
                    ),
                }
            }),
    {
        let ghost wanted = passed_over(
            run@,
            self.paths@,
            self.manifest.dsh_version@,
            *found,
            self.platform,
        );
        while run.taken < run.candidates.len()
            invariant
                run@.wf(),
                wanted == passed_over(
                    old(run)@,
                    self.paths@,
                    self.manifest.dsh_version@,
                    *found,
                    self.platform,
                ),
                wanted == passed_over(
                    run@,
                    self.paths@,
                    self.manifest.dsh_version@,
                    *found,
                    self.platform,
                ),
            decreases run@.candidates.len() - run@.taken,
        {
            let ghost before = run@;
            let version: String = run.candidates[run.taken].clone();
            run.taken = run.taken + 1;
            assert(version@ == before.candidates[before.taken]);
            match self.runtime_path(version.as_str(), found) {
                Some(path) => {
                    assert(run@ == (StartRunView { taken: before.taken + 1, ..before }));
                    return LaunchChoice::Launch { version, path };
                },
                None => {
                    run.failures.push(cat4("DSH ", version.as_str(), ": ", "安装目录不存在"));
                    proof {
                        assert(run@.failures =~= before.failures.push(
                            failure_line(version@, "安装目录不存在"@),
                        ));
                    }
                },
            }
        }
        LaunchChoice::Failed(cat2("没有可启动的 DSH 版本。\n", join(&run.failures, "\n").as_str()))
    }

    /// Takes note that a version could not be started.
    pub fn launch_failed(&self, run: &mut StartRun, version: &str, error: &str)
        ensures
            final(run)@ == (StartRunView {
                failures: old(run)@.failures.push(failure_line(version@, error@)),
                ..old(run)@
            }),
    {
        run.failures.push(cat4("DSH ", version, ": ", error));
        assert(run@.failures =~= old(run)@.failures.push(failure_line(version@, error@)));
    }

    /// Takes a version that was started into the state, which is to be saved then.
    pub fn commit_launch(&mut self, run: &StartRun, version: &str)
        ensures
            final(self).same_setup(*old(self)),
            final(self)@ == (RuntimeManagerView {
                state: launched(old(self)@.state, run@.pending, version@),
                ..old(self)@
            }),
    {
        let is_pending = is_text(&self.state.pending, version);
        let is_active = is_text(&self.state.active, version);
        if is_pending || !is_active {
            let old_active: Option<String> = if is_active {
                None
            } else {
                self.state.active.clone()
            };
            self.state.previous = old_active;
            self.state.active = Some(version.to_string());
        }
        if is_pending {
            self.state.pending = None;
        }
        if run.pending.is_some() && !is_text(&run.pending, version) {
            self.state.pending = None;
        }
    }

    /// Takes note of the runtime that runs, once the state is saved.
    pub fn finish_launch(&mut self, version: &str, url: String) -> (info: StartupInfo)
        ensures
            final(self).same_setup(*old(self)),
            info@ == (StartupInfoView { url: url@, dsh_version: version@ }),
            final(self)@ == (RuntimeManagerView {
                startup: Some(info@),
                update_status: RuntimeUpdateSnapshotView {
                    phase: RuntimeUpdatePhase::Idle,
                    target_version: None,
                    detail: Some("当前版本已就绪"@),
                },
                ..old(self)@
            }),
    {
        let info = StartupInfo { url, dsh_version: version.to_string() };
        self.startup = Some(info.clone());
        self.set_update_status(
            RuntimeUpdatePhase::Idle,
            None,
            Some("当前版本已就绪".to_string()),
        );
        info
    }
}

/// Whichever version started is active, nothing waits any more, and the version
/// that was active before is the one to fall back to. `pending` is what waited
/// when the start began.
pub proof fn law_launched_version_is_active(state: RuntimeStateView, version: Seq<char>)
    ensures
        ({
            let after = launched(state, state.pending, version);
            &&& after.active == Some(version)
            &&& after.pending is None
            &&& state.active != Some(version) ==> after.previous == state.active
            &&& after.update_channel == state.update_channel
            &&& after.last_update_attempt == state.last_update_attempt
            &&& after.last_successful_check == state.last_successful_check
        }),
{
}

/// Where the version that waited fails and the active one starts in its place,
/// the active and the previous version stay what they were and the failed one is
/// given up.
pub proof fn law_failed_update_is_rolled_back(
    state: RuntimeStateView,
    active: Seq<char>,
    pending: Seq<char>,
)
    requires
        state.active == Some(active),
        state.pending == Some(pending),
        pending != active,
    ensures
        launched(state, Some(pending), active) == (RuntimeStateView { pending: None, ..state }),
{
}

/// Taking a version never skips one: the versions are taken in order, each of
/// those passed over is not on disk and has a line among the failures, and the
/// one that is tried is on disk.
pub proof fn law_versions_are_tried_in_order(
    run: StartRunView,
    paths: PathsView,
    bundled: Seq<char>,
    found: FoundPaths,
    platform: Platform,
)
    requires
        run.wf(),
    ensures
        ({
            let (after, chosen) = passed_over(run, paths, bundled, found, platform);
            let stop = if chosen is Some {
                after.taken - 1
            } else {
                after.taken
            };
            &&& after.wf()
            &&& after.candidates == run.candidates
            &&& after.pending == run.pending
            &&& run.taken <= stop <= run.candidates.len()
            &&& chosen is None ==> stop == run.candidates.len()
            &&& chosen matches Some((version, path)) ==> stop < run.candidates.len() && version
                == run.candidates[stop] && location(paths, bundled, version, found, platform)
                == Some(path)
            &&& forall|i: int|
                run.taken <= i < stop ==> location(
                    paths,
                    bundled,
                    #[trigger] run.candidates[i],
                    found,
                    platform,
                ) is None
            &&& after.failures.len() == run.failures.len() + (stop - run.taken)
            &&& forall|i: int|
                run.taken <= i < stop ==> after.failures[run.failures.len() + (i - run.taken)]
                    == failure_line(#[trigger] run.candidates[i], "安装目录不存在"@)
            &&& run.failures.is_prefix_of(after.failures)
        }),
    decreases run.candidates.len() - run.taken,
{
    if run.taken < run.candidates.len() {
        let version = run.candidates[run.taken];
        if location(paths, bundled, version, found, platform) is None {
            let line = failure_line(version, "安装目录不存在"@);
            let next = StartRunView {
                taken: run.taken + 1,
                failures: run.failures.push(line),
                ..run
            };
            law_versions_are_tried_in_order(next, paths, bundled, found, platform);
            let after = passed_over(run, paths, bundled, found, platform).0;
            assert(after == passed_over(next, paths, bundled, found, platform).0);
            assert(next.failures =~= after.failures.take(next.failures.len() as int));
            assert(after.failures[run.failures.len() as int] == next.failures[run.failures.len() as int]);
            assert(run.failures =~= after.failures.take(run.failures.len() as int));
        }
    }
}

/// A start from a list of versions, where `starts` says which of them come up and
/// `reasons` why the others do not: the version that runs in the end, or the
/// error.
pub open spec fn start_result(
    run: StartRunView,
    paths: PathsView,
    bundled: Seq<char>,
    found: FoundPaths,
    platform: Platform,
    starts: spec_fn(Seq<char>) -> bool,
    reasons: spec_fn(Seq<char>) -> Seq<char>,
) -> Result<Seq<char>, Seq<char>>
    decreases run.candidates.len() - run.taken,
{
    let (after, chosen) = passed_over(run, paths, bundled, found, platform);
    match chosen {
        Some((version, path)) if run.taken < after.taken <= run.candidates.len()
            && after.candidates == run.candidates => if starts(version) {
            Ok(version)
        } else {
            start_result(
                StartRunView {
                    failures: after.failures.push(failure_line(version, reasons(version))),
                    ..after
                },
                paths,
                bundled,
                found,
                platform,
                starts,
                reasons,
            )
        },
        _ => Err(start_error(after.failures)),
    }
}

/// A version is on disk and comes up.
pub open spec fn works(
    version: Seq<char>,
    paths: PathsView,
    bundled: Seq<char>,
    found: FoundPaths,
    platform: Platform,
    starts: spec_fn(Seq<char>) -> bool,
) -> bool {
    location(paths, bundled, version, found, platform) is Some && starts(version)
}

/// A start ends with the first version that is on disk and comes up, and fails
/// only where there is none.
pub proof fn law_start_takes_the_first_version_that_works(
    run: StartRunView,
    paths: PathsView,
    bundled: Seq<char>,
    found: FoundPaths,
    platform: Platform,
    starts: spec_fn(Seq<char>) -> bool,
    reasons: spec_fn(Seq<char>) -> Seq<char>,
)
    requires
        run.wf(),
    ensures
        match start_result(run, paths, bundled, found, platform, starts, reasons) {
            Ok(version) => exists|at: int|
                run.taken <= at < run.candidates.len() && #[trigger] run.candidates[at] == version
                    && works(version, paths, bundled, found, platform, starts) && forall|
                    earlier: int,
                |
                    run.taken <= earlier < at ==> !works(
                        #[trigger] run.candidates[earlier],
                        paths,
                        bundled,
                        found,
                        platform,
                        starts,
                    ),
            Err(_) => forall|at: int|
                run.taken <= at < run.candidates.len() ==> !works(
                    #[trigger] run.candidates[at],
                    paths,
                    bundled,
                    found,
                    platform,
                    starts,
                ),
        },
    decreases run.candidates.len() - run.taken,
{
    law_versions_are_tried_in_order(run, paths, bundled, found, platform);
    let (after, chosen) = passed_over(run, paths, bundled, found, platform);
    if let Some((version, path)) = chosen {
        let stop = after.taken - 1;
        assert(run.candidates[stop] == version);
        if !starts(version) {
            let next = StartRunView {
                failures: after.failures.push(failure_line(version, reasons(version))),
                ..after
            };
            law_start_takes_the_first_version_that_works(
                next,
                paths,
                bundled,
                found,
                platform,
                starts,
                reasons,
            );
            match start_result(next, paths, bundled, found, platform, starts, reasons) {
                Ok(taken) => {
                    let at = choose|at: int|
                        next.taken <= at < next.candidates.len() && #[trigger] next.candidates[at]
                            == taken && works(taken, paths, bundled, found, platform, starts)
                            && forall|earlier: int|
                            next.taken <= earlier < at ==> !works(
                                #[trigger] next.candidates[earlier],
                                paths,
                                bundled,
                                found,
                                platform,
                                starts,
                            );
                    assert(run.candidates[at] == taken);
                    assert forall|earlier: int| run.taken <= earlier < at implies !works(
                        #[trigger] run.candidates[earlier],
                        paths,
                        bundled,
                        found,
                        platform,
                        starts,
                    ) by {
                        if earlier >= next.taken {
                            assert(next.candidates[earlier] == run.candidates[earlier]);
                        }
                    }
                },
                Err(_) => {
                    assert forall|at: int| run.taken <= at < run.candidates.len() implies !works(
                        #[trigger] run.candidates[at],
                        paths,
                        bundled,
                        found,
                        platform,
                        starts,
                    ) by {
                        if at >= next.taken {
                            assert(next.candidates[at] == run.candidates[at]);
                        }
                    }
                },
            }
        }
    }
}

/// A start succeeds wherever the version that came with the application is on
/// disk and comes up, whatever the state names.
pub proof fn law_bundled_version_is_the_last_resort(
    state: RuntimeStateView,
    paths: PathsView,
    bundled: Seq<char>,
    found: FoundPaths,
    platform: Platform,
    starts: spec_fn(Seq<char>) -> bool,
    reasons: spec_fn(Seq<char>) -> Seq<char>,
)
    requires
        works(bundled, paths, bundled, found, platform, starts),
    ensures
        start_result(
            first_run(state, bundled),
            paths,
            bundled,
            found,
            platform,
            starts,
            reasons,
        ) is Ok,
{
    let run = first_run(state, bundled);
    law_candidates(state, bundled);
    law_start_takes_the_first_version_that_works(
        run,
        paths,
        bundled,
        found,
        platform,
        starts,
        reasons,
    );
    let at = choose|at: int| 0 <= at < run.candidates.len() && run.candidates[at] == bundled;
    assert(run.candidates[at] == bundled);
}

/// A version that waits is started where it comes up; where it does not, the
/// version that ran last is, and the state then names it as before, with nothing
/// waiting.
pub proof fn law_failed_update_falls_back(
    state: RuntimeStateView,
    pending: Seq<char>,
    active: Seq<char>,
    paths: PathsView,
    bundled: Seq<char>,
    found: FoundPaths,
    platform: Platform,
    starts: spec_fn(Seq<char>) -> bool,
    reasons: spec_fn(Seq<char>) -> Seq<char>,
)
    requires
        state.pending == Some(pending),
        state.active == Some(active),
        pending != active,
        works(active, paths, bundled, found, platform, starts),
    ensures
        ({
            let result = start_result(
                first_run(state, bundled),
                paths,
                bundled,
                found,
                platform,
                starts,
                reasons,
            );
            if works(pending, paths, bundled, found, platform, starts) {
                &&& result == Ok::<Seq<char>, Seq<char>>(pending)
                &&& launched(state, state.pending, pending) == (RuntimeStateView {
                    active: Some(pending),
                    previous: Some(active),
                    pending: None,
                    ..state
                })
            } else {
                &&& result == Ok::<Seq<char>, Seq<char>>(active)
                &&& launched(state, state.pending, active) == (RuntimeStateView {
                    pending: None,
                    ..state
                })
            }
        }),
{
    let run = first_run(state, bundled);
    let none: Seq<Seq<char>> = Seq::empty();
    let first = with_version(none, state.pending);
    let second = with_version(first, state.active);
    let third = with_version(second, state.previous);
    law_candidates(state, bundled);
    lemma_with_version(none, state.pending);
    lemma_with_version(first, state.active);
    lemma_with_version(second, state.previous);
    lemma_with_version(third, Some(bundled));
    assert(first =~= seq![pending]);
    assert(!first.contains(active)) by {
        if first.contains(active) {
            assert(active == pending);
        }
    }
    assert(second =~= seq![pending, active]);
    assert(third.take(2) =~= second) by {
        assert(second =~= third.take(second.len() as int));
    }
    assert(run.candidates.take(third.len() as int) =~= third);
    assert(run.candidates[0] == third[0] && run.candidates[1] == third[1]);
    assert(third[0] == third.take(2)[0] && third[1] == third.take(2)[1]);
    assert(run.candidates[0] == pending);
    assert(run.candidates[1] == active);
    law_start_takes_the_first_version_that_works(
        run,
        paths,
        bundled,
        found,
        platform,
        starts,
        reasons,
    );
    let result = start_result(run, paths, bundled, found, platform, starts, reasons);
    assert(result is Ok);
    let version = result->Ok_0;
    let at = choose|at: int|
        run.taken <= at < run.candidates.len() && #[trigger] run.candidates[at] == version && works(
            version,
            paths,
            bundled,
            found,
            platform,
            starts,
        ) && forall|earlier: int|
            run.taken <= earlier < at ==> !works(
                #[trigger] run.candidates[earlier],
                paths,
                bundled,
                found,
                platform,
                starts,
            );
    if at > 1 {
        assert(!works(run.candidates[1], paths, bundled, found, platform, starts));
    }
    if works(pending, paths, bundled, found, platform, starts) && at > 0 {
        assert(!works(run.candidates[0], paths, bundled, found, platform, starts));
    }
}

/// Where the active version starts and nothing waited, the state stays as it was: in
/// particular the version to fall back to is kept.
pub proof fn law_ordinary_restart_changes_nothing(state: RuntimeStateView, active: Seq<char>)
    requires
        state.active == Some(active),
        state.pending is None,
    ensures
        launched(state, None, active) == state,
{
}

/// Where any version but the active one starts, the active one is the one to fall
/// back to. Where the active one starts again, the version to fall back to stays,
/// unless the version that waited was the active one itself.
pub proof fn law_fall_back_follows_the_active_version(
    state: RuntimeStateView,
    pending: Option<Seq<char>>,
    version: Seq<char>,
)
    ensures
        launched(state, pending, version).active == Some(version),
        state.active != Some(version) ==> launched(state, pending, version).previous
            == state.active,
        state.active == Some(version) && state.pending != Some(version) ==> launched(
            state,
            pending,
            version,
        ).previous == state.previous,
        launched(state, pending, version).previous != Some(version) || state.previous == Some(
            version,
        ),
{
}

/// A version that began to wait while a start was under way goes on waiting. One that
/// waited when the start began waits no more, whether it started or not.
pub proof fn law_start_ends_the_waiting_it_began_with(
    state: RuntimeStateView,
    pending: Option<Seq<char>>,
    version: Seq<char>,
)
    ensures
        pending is None && state.pending != Some(version) ==> launched(
            state,
            pending,
            version,
        ).pending == state.pending,
        pending is Some && pending != Some(version) ==> launched(state, pending, version).pending
            is None,
        state.pending == Some(version) ==> launched(state, pending, version).pending is None,
        pending == Some(version) && state.pending != Some(version) ==> launched(
            state,
            pending,
            version,
        ).pending == state.pending,
{
}

/// Starting a version keeps the channel and the times of the checks.
pub proof fn law_start_keeps_the_checks(
    state: RuntimeStateView,
    pending: Option<Seq<char>>,
    version: Seq<char>,
)
    ensures
        launched(state, pending, version).update_channel == state.update_channel,
        launched(state, pending, version).last_update_attempt == state.last_update_attempt,
        launched(state, pending, version).last_successful_check == state.last_successful_check,
{
}

/// Once a version was started, starting it again changes nothing more.
pub proof fn law_second_start_changes_nothing(state: RuntimeStateView, version: Seq<char>)
    ensures
        ({
            let once = launched(state, state.pending, version);
            launched(once, once.pending, version) == once
        }),
{
}

/// A start begins with the first of its versions, knows which one waited, and has no
/// failures yet.
pub proof fn law_start_begins_afresh(state: RuntimeStateView, bundled: Seq<char>)
    ensures
        first_run(state, bundled).wf(),
        first_run(state, bundled).taken == 0,
        first_run(state, bundled).pending == state.pending,
        first_run(state, bundled).failures.len() == 0,
        first_run(state, bundled).candidates == candidates(state, bundled),
{
}

/// The error of a start that failed names every failure, and a failure names its
/// version and its reason.
pub proof fn law_start_error_names_every_failure(
    failures: Seq<Seq<char>>,
    at: int,
    version: Seq<char>,
    reason: Seq<char>,
)
    requires
        0 <= at < failures.len(),
    ensures
        has_text(start_error(failures), failures[at]),
        has_text(failure_line(version, reason), version),
        has_text(failure_line(version, reason), reason),
        "没有可启动的 DSH 版本。\n"@.is_prefix_of(start_error(failures)),
{
    let first = "没有可启动的 DSH 版本。\n"@;
    lemma_joined_holds(failures, "\n"@, at);
    let rest = joined(failures, "\n"@);
    lemma_part_of(first, rest, Seq::empty(), failures[at]);
    assert(first + rest + Seq::<char>::empty() =~= start_error(failures));
    let line = failure_line(version, reason);
    assert(occurs_at(line, version, "DSH "@.len() as int)) by {
        assert(line.subrange("DSH "@.len() as int, "DSH "@.len() as int + version.len())
            =~= version);
    }
    let behind = ("DSH "@ + version + ": "@).len() as int;
    assert(occurs_at(line, reason, behind)) by {
        assert(line.subrange(behind, behind + reason.len()) =~= reason);
    }
    assert(start_error(failures).take(first.len() as int) =~= first);
}

/// What contracts say of a [`StartRun`] they say of every part of it.
pub proof fn law_value_of_start_run(value: StartRun)
    ensures
        value@.candidates == value.candidates.deep_view(),
        value@.taken == value.taken as int,
        value@.pending == value.pending.deep_view(),
        value@.failures == value.failures.deep_view(),
{
}

/// Where the active version started before and stops starting, the version before it is
/// started, not the one that came with the application; and the state then names it as
/// active, with the other to fall back to.
pub proof fn law_previous_version_is_the_fall_back(
    state: RuntimeStateView,
    active: Seq<char>,
    previous: Seq<char>,
    paths: PathsView,
    bundled: Seq<char>,
    found: FoundPaths,
    platform: Platform,
    starts: spec_fn(Seq<char>) -> bool,
    reasons: spec_fn(Seq<char>) -> Seq<char>,
)
    requires
        state.active == Some(active),
        state.previous == Some(previous),
        state.pending is None,
        active != previous,
        !works(active, paths, bundled, found, platform, starts),
        works(previous, paths, bundled, found, platform, starts),
    ensures
        ({
            let kept = launched(state, None, active);
            let result = start_result(
                first_run(kept, bundled),
                paths,
                bundled,
                found,
                platform,
                starts,
                reasons,
            );
            &&& result == Ok::<Seq<char>, Seq<char>>(previous)
            &&& launched(kept, kept.pending, previous) == (RuntimeStateView {
                active: Some(previous),
                previous: Some(active),
                ..state
            })
        }),
{
    let kept = launched(state, None, active);
    assert(kept == state);
    let run = first_run(kept, bundled);
    let none: Seq<Seq<char>> = Seq::empty();
    let second = with_version(none, state.active);
    let third = with_version(second, state.previous);
    lemma_with_version(none, state.active);
    lemma_with_version(second, state.previous);
    lemma_with_version(third, Some(bundled));
    assert(second =~= seq![active]);
    assert(!second.contains(previous));
    assert(third =~= seq![active, previous]);
    assert(third =~= run.candidates.take(2));
    assert(run.candidates[0] == third[0] && run.candidates[1] == third[1]);
    law_start_takes_the_first_version_that_works(
        run,
        paths,
        bundled,
        found,
        platform,
        starts,
        reasons,
    );
    let result = start_result(run, paths, bundled, found, platform, starts, reasons);
    if result is Err {
        assert(!works(run.candidates[1], paths, bundled, found, platform, starts));
    }
    let version = result->Ok_0;
    let at = choose|at: int|
        run.taken <= at < run.candidates.len() && #[trigger] run.candidates[at] == version && works(
            version,
            paths,
            bundled,
            found,
            platform,
            starts,
        ) && forall|earlier: int|
            run.taken <= earlier < at ==> !works(
                #[trigger] run.candidates[earlier],
                paths,
                bundled,
                found,
                platform,
                starts,
            );
    if at > 1 {
        assert(!works(run.candidates[1], paths, bundled, found, platform, starts));
    }
}

} // verus!
