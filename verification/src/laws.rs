//! What holds of every run, whatever the caller observes.
//!
//! A run is described by the events handed to the driver, in order. The
//! statements here are about the stage reached after any such sequence.

use vstd::prelude::*;
use crate::checks::VerificationVerdict;
use crate::error::{ErrorKind, HarnessErrorView};
use crate::pipeline::{
    action_of, next_stage, ActionView, EventView, HarnessConfigView, RunReportView, StageView,
};
use crate::runner::ElapsedView;

verus! {

/// The stage reached from a fresh run after `events`, taken in order.
pub open spec fn stage_after(config: HarnessConfigView, events: Seq<EventView>) -> StageView
    decreases events.len(),
{
    if events.len() == 0 {
        StageView::Load
    } else {
        next_stage(config, stage_after(config, events.drop_last()), events.last())
    }
}

/// The run has ended, with a report or with a failure.
pub open spec fn has_ended(stage: StageView) -> bool {
    stage is Reported || stage is Stopped
}

/// How far along the line a stage is.
pub open spec fn position(stage: StageView) -> nat {
    match stage {
        StageView::Load => 0,
        StageView::Build { .. } => 1,
        StageView::Run { .. } => 2,
        StageView::VerifyData { .. } => 3,
        StageView::VerifyHelper { .. } => 4,
        StageView::Reported { .. } => 5,
        StageView::Stopped { .. } => 5,
    }
}

/// The measured time that a stage carries, once the program has run.
pub open spec fn time_in(stage: StageView) -> Option<ElapsedView> {
    match stage {
        StageView::VerifyData { elapsed, .. } => Some(elapsed),
        StageView::VerifyHelper { elapsed, .. } => Some(elapsed),
        StageView::Reported { report } => Some(report.elapsed),
        _ => None,
    }
}

/// The verdicts of a run that went through.
pub open spec fn verdict_in(stage: StageView) -> Option<VerificationVerdict> {
    match stage {
        StageView::Reported { report } => Some(report.verdict),
        _ => None,
    }
}

/// The failure of a run that stopped.
pub open spec fn failure_in(stage: StageView) -> Option<HarnessErrorView> {
    match stage {
        StageView::Stopped { error } => Some(error),
        _ => None,
    }
}

/// The event `events[at]` is a compiler run without diagnostics, observed
/// while the run was waiting for the compiler.
pub open spec fn clean_build_at(config: HarnessConfigView, events: Seq<EventView>, at: int) -> bool {
    &&& 0 <= at < events.len()
    &&& stage_after(config, events.take(at)) is Build
    &&& events[at] matches EventView::CompilerExited { diagnostics }
    &&& diagnostics.len() == 0
}

/// An event with its measured time set to nothing.
pub open spec fn untimed_event(event: EventView) -> EventView {
    match event {
        EventView::ProgramExited { success, output, .. } => EventView::ProgramExited {
            success,
            elapsed: ElapsedView { secs: 0, subsec_nanos: 0 },
            output,
        },
        _ => event,
    }
}

/// A stage with its measured time set to nothing.
pub open spec fn untimed(stage: StageView) -> StageView {
    let zero = ElapsedView { secs: 0, subsec_nanos: 0 };
    match stage {
        StageView::VerifyData { output, .. } => StageView::VerifyData { elapsed: zero, output },
        StageView::VerifyHelper { output, case, .. } => StageView::VerifyHelper {
            elapsed: zero,
            output,
            case,
        },
        StageView::Reported { report } => StageView::Reported {
            report: RunReportView { elapsed: zero, verdict: report.verdict },
        },
        _ => stage,
    }
}

proof fn lemma_take_drop_last(events: Seq<EventView>, n: int)
    requires
        0 < n <= events.len(),
    ensures
        events.take(n).drop_last() == events.take(n - 1),
        events.take(n).last() == events[n - 1],
        events.take(events.len() as int) == events,
{
    assert(events.take(n).drop_last() =~= events.take(n - 1));
    assert(events.take(events.len() as int) =~= events);
}

/// A run that has ended takes no further step: nothing is retried and
/// nothing is resumed.
pub proof fn ended_run_stays(config: HarnessConfigView, stage: StageView, event: EventView)
    requires
        has_ended(stage),
    ensures
        next_stage(config, stage, event) == stage,
        action_of(config, stage) == ActionView::Stop,
{
}

/// Each step leaves the run where it is, moves it to the stage next in
/// line, or stops it. No stage is skipped and none is entered twice.
pub proof fn stages_follow_in_line(config: HarnessConfigView, stage: StageView, event: EventView)
    ensures
        ({
            let next = next_stage(config, stage, event);
            ||| next == stage
            ||| next is Stopped
            ||| position(next) == position(stage) + 1
        }),
{
}

/// Once a run has ended after the first `i` events, it is in the same
/// stage after any longer prefix of the events.
pub proof fn ended_run_ignores_events(
    config: HarnessConfigView,
    events: Seq<EventView>,
    i: int,
    j: int,
)
    requires
        0 <= i <= j <= events.len(),
        has_ended(stage_after(config, events.take(i))),
    ensures
        stage_after(config, events.take(j)) == stage_after(config, events.take(i)),
    decreases j - i,
{
    if i < j {
        ended_run_ignores_events(config, events, i, j - 1);
        lemma_take_drop_last(events, j);
    }
}

/// When the compiler writes any diagnostic text while the run waits for
/// it, the run stops with a compile error that holds that text, and stays
/// stopped: at no later point is the caller asked to execute anything.
pub proof fn failed_build_never_runs(
    config: HarnessConfigView,
    events: Seq<EventView>,
    i: int,
    j: int,
    diagnostics: Seq<char>,
)
    requires
        0 <= i < j <= events.len(),
        stage_after(config, events.take(i)) is Build,
        events[i] == (EventView::CompilerExited { diagnostics }),
        diagnostics.len() > 0,
    ensures
        stage_after(config, events.take(j)) == (StageView::Stopped {
            error: HarnessErrorView::Compile { diagnostics },
        }),
        stage_after(config, events.take(j))->error.kind() == ErrorKind::CompileError,
        action_of(config, stage_after(config, events.take(j))) == ActionView::Stop,
{
    lemma_take_drop_last(events, i + 1);
    ended_run_ignores_events(config, events, i + 1, j);
}

/// A run is stopped by the compiler only with its diagnostics in hand: the
/// text of a compile error is never empty.
pub proof fn compile_failure_has_text(config: HarnessConfigView, events: Seq<EventView>)
    ensures
        failure_in(stage_after(config, events)) matches Some(error) ==> (error is Compile
            ==> error->diagnostics.len() > 0),
    decreases events.len(),
{
    if events.len() > 0 {
        compile_failure_has_text(config, events.drop_last());
    }
}

/// Whenever the caller is asked to execute an artifact, a compiler run
/// without diagnostics was observed before, while the run waited for the
/// compiler, and the artifact is the one that build was asked to write.
pub proof fn execution_follows_clean_build(config: HarnessConfigView, events: Seq<EventView>)
    requires
        stage_after(config, events) is Run,
    ensures
        exists|at: int| clean_build_at(config, events, at),
        action_of(config, stage_after(config, events)) == (ActionView::Execute {
            artifact_path: config.artifact_path,
        }),
    decreases events.len(),
{
    if events.len() > 0 {
        let before = events.drop_last();
        let last = events.len() - 1;
        assert(events.take(last) =~= before);
        if stage_after(config, before) is Run {
            execution_follows_clean_build(config, before);
            let at = choose|at: int| clean_build_at(config, before, at);
            assert(before.take(at) =~= events.take(at));
            assert(clean_build_at(config, events, at));
        } else {
            assert(clean_build_at(config, events, last));
        }
    }
}

/// Once the program has run, the time that was measured for it is carried
/// unchanged through every later stage of the run, up to the report. It
/// is a count of nanoseconds and so never negative.
pub proof fn measured_time_is_kept(config: HarnessConfigView, stage: StageView, event: EventView)
    ensures
        stage is Run && event is ProgramExited && event->success ==> time_in(
            next_stage(config, stage, event),
        ) == Some(event->elapsed),
        time_in(stage) is Some && !(next_stage(config, stage, event) is Stopped) ==> time_in(
            next_stage(config, stage, event),
        ) == time_in(stage),
        time_in(stage) is Some ==> time_in(stage)->0.total_nanos() >= 0,
{
}

proof fn lemma_step_untimed(
    config: HarnessConfigView,
    first: StageView,
    second: StageView,
    a: EventView,
    b: EventView,
)
    requires
        untimed(first) == untimed(second),
        untimed_event(a) == untimed_event(b),
    ensures
        untimed(next_stage(config, first, a)) == untimed(next_stage(config, second, b)),
{
}

/// Two runs under the same configuration whose observations agree in
/// everything but the measured time end in the same stage with the same
/// verdicts, or with the same failure. Only the reported time may differ.
pub proof fn verdicts_repeat(
    config: HarnessConfigView,
    first: Seq<EventView>,
    second: Seq<EventView>,
)
    requires
        first.len() == second.len(),
        forall|i: int|
            0 <= i < first.len() ==> untimed_event(#[trigger] first[i]) == untimed_event(
                second[i],
            ),
    ensures
        untimed(stage_after(config, first)) == untimed(stage_after(config, second)),
        verdict_in(stage_after(config, first)) == verdict_in(stage_after(config, second)),
        failure_in(stage_after(config, first)) == failure_in(stage_after(config, second)),
    decreases first.len(),
{
    if first.len() > 0 {
        let a = first.drop_last();
        let b = second.drop_last();
        assert forall|i: int| 0 <= i < a.len() implies untimed_event(#[trigger] a[i])
            == untimed_event(b[i]) by {
            assert(a[i] == first[i]);
            assert(b[i] == second[i]);
        }
        verdicts_repeat(config, a, b);
        assert(untimed_event(first.last()) == untimed_event(second.last())) by {
            assert(first.last() == first[first.len() - 1]);
        }
        lemma_step_untimed(
            config,
            stage_after(config, a),
            stage_after(config, b),
            first.last(),
            second.last(),
        );
    }
}

} // verus!
