//! The run of the generator as a fail-fast pipeline.
//!
//! A run walks a fixed sequence of steps: load the template set, parse the
//! command line, create the output directory, fetch the latest release,
//! render the index page, write it, then copy the two asset trees. Each step
//! either succeeds, moving the run to the next step, or fails, halting the
//! whole run at once — there is no retry and no recovery. The caller performs
//! the work of each step and reports its outcome to [`advance`]; everything
//! about the order of a run is decided here.

use vstd::prelude::*;
use crate::errors::ErrorKind;

verus! {

/// One step of a run, in the order the run attempts them; `Done` is the state
/// after every step succeeded and `Failed` the state after any step failed.
#[derive(PartialEq, Eq, Structural, Clone, Copy, Debug)]
pub enum Step {
    LoadTemplates,
    ParseArgs,
    CreateOutDir,
    FetchRelease,
    RenderIndex,
    WriteIndex,
    CopyAssets,
    CopyWellKnown,
    Done,
    Failed,
}

/// A step that still performs work, as opposed to the two final states.
pub open spec fn is_working(s: Step) -> bool {
    s != Step::Done && s != Step::Failed
}

/// The step attempted after a successful one.
pub open spec fn spec_next(s: Step) -> Step {
    match s {
        Step::LoadTemplates => Step::ParseArgs,
        Step::ParseArgs => Step::CreateOutDir,
        Step::CreateOutDir => Step::FetchRelease,
        Step::FetchRelease => Step::RenderIndex,
        Step::RenderIndex => Step::WriteIndex,
        Step::WriteIndex => Step::CopyAssets,
        Step::CopyAssets => Step::CopyWellKnown,
        Step::CopyWellKnown => Step::Done,
        Step::Done => Step::Done,
        Step::Failed => Step::Failed,
    }
}

/// Where a run stands after a step's outcome: on success the next step, on
/// failure the halted state; the two final states never change.
pub open spec fn spec_advance(s: Step, ok: bool) -> Step {
    if !is_working(s) {
        s
    } else if ok {
        spec_next(s)
    } else {
        Step::Failed
    }
}

/// Advances a run by one step outcome.
pub fn advance(s: Step, ok: bool) -> (r: Step)
    ensures
        r == spec_advance(s, ok),
{
    if s == Step::Done || s == Step::Failed {
        s
    } else if ok {
        match s {
            Step::LoadTemplates => Step::ParseArgs,
            Step::ParseArgs => Step::CreateOutDir,
            Step::CreateOutDir => Step::FetchRelease,
            Step::FetchRelease => Step::RenderIndex,
            Step::RenderIndex => Step::WriteIndex,
            Step::WriteIndex => Step::CopyAssets,
            Step::CopyAssets => Step::CopyWellKnown,
            Step::CopyWellKnown => Step::Done,
            Step::Done => Step::Done,
            Step::Failed => Step::Failed,
        }
    } else {
        Step::Failed
    }
}

/// How many working steps a run has.
pub open spec fn working_step_count() -> int {
    8
}

/// The step a run stands at after `i` successful outcomes.
pub open spec fn step_at(i: int) -> Step {
    if i == 0 {
        Step::LoadTemplates
    } else if i == 1 {
        Step::ParseArgs
    } else if i == 2 {
        Step::CreateOutDir
    } else if i == 3 {
        Step::FetchRelease
    } else if i == 4 {
        Step::RenderIndex
    } else if i == 5 {
        Step::WriteIndex
    } else if i == 6 {
        Step::CopyAssets
    } else if i == 7 {
        Step::CopyWellKnown
    } else {
        Step::Done
    }
}

/// Every outcome before position `i` that belongs to a working step succeeded.
pub open spec fn all_ok_before(outcomes: Seq<bool>, i: int) -> bool {
    forall|j: int| 0 <= j < i && j < working_step_count() ==> outcomes[j]
}

/// The steps a run visits, given the outcomes of the work it attempts: the
/// run starts at the first step and advances once per outcome.
pub open spec fn trace(outcomes: Seq<bool>) -> Seq<Step>
    decreases outcomes.len(),
{
    if outcomes.len() == 0 {
        seq![Step::LoadTemplates]
    } else {
        let prev = trace(outcomes.drop_last());
        prev.push(spec_advance(prev.last(), outcomes.last()))
    }
}

/// A run visits its steps strictly in order, and only as long as every
/// earlier step succeeded: the step after `i` all-successful outcomes is the
/// `i`-th of the fixed sequence, and the first failure moves the run to the
/// halted state for good.
pub proof fn lemma_trace_steps(outcomes: Seq<bool>)
    ensures
        trace(outcomes).len() == outcomes.len() + 1,
        forall|i: int|
            0 <= i <= outcomes.len() ==> trace(outcomes)[i] == (if all_ok_before(outcomes, i) {
                step_at(i)
            } else {
                Step::Failed
            }),
    decreases outcomes.len(),
{
    if outcomes.len() > 0 {
        let prefix = outcomes.drop_last();
        let m = prefix.len() as int;
        lemma_trace_steps(prefix);
        let prev = trace(prefix);
        assert(forall|j: int| 0 <= j < m ==> prefix[j] == outcomes[j]);
        assert forall|i: int| 0 <= i <= m implies all_ok_before(outcomes, i) == all_ok_before(
            prefix,
            i,
        ) by {
            assert(forall|j: int| 0 <= j < i && j < m ==> prefix[j] == outcomes[j]);
        }
        assert(trace(outcomes) == prev.push(spec_advance(prev.last(), outcomes.last())));
        assert(prev.last() == prev[m]);
        if all_ok_before(outcomes, m + 1) {
            assert(all_ok_before(outcomes, m));
            assert(prev[m] == step_at(m));
            if m < working_step_count() {
                assert(outcomes[m]);
                assert(spec_advance(step_at(m), true) == step_at(m + 1));
            } else {
                assert(step_at(m) == Step::Done);
            }
        } else {
            if all_ok_before(outcomes, m) {
                assert(m < working_step_count() && !outcomes[m]);
                assert(prev[m] == step_at(m));
                assert(is_working(step_at(m)));
            } else {
                assert(prev[m] == Step::Failed);
            }
        }
    }
}

/// Bad command line arguments stop the run before the output directory is
/// created: no run whose argument parsing failed ever reaches that step.
pub proof fn lemma_usage_failure_creates_nothing(outcomes: Seq<bool>)
    requires
        outcomes.len() > 1,
        !outcomes[1],
    ensures
        forall|i: int| 0 <= i < trace(outcomes).len() ==> trace(outcomes)[i] != Step::CreateOutDir,
{
    lemma_trace_steps(outcomes);
    assert forall|i: int| 0 <= i < trace(outcomes).len() implies trace(outcomes)[i]
        != Step::CreateOutDir by {
        if all_ok_before(outcomes, i) && i >= 2 {
            assert(outcomes[1]);
        }
    }
}

/// A template set that fails to load stops the run at once: the release
/// fetch step is never reached, so no network call is ever attempted.
pub proof fn lemma_template_failure_blocks_fetch(outcomes: Seq<bool>)
    requires
        outcomes.len() > 0,
        !outcomes[0],
    ensures
        forall|i: int| 0 <= i < trace(outcomes).len() ==> trace(outcomes)[i] != Step::FetchRelease,
{
    lemma_trace_steps(outcomes);
    assert forall|i: int| 0 <= i < trace(outcomes).len() implies trace(outcomes)[i]
        != Step::FetchRelease by {
        if all_ok_before(outcomes, i) && i >= 1 {
            assert(outcomes[0]);
        }
    }
}

/// A run whose release fetch fails never reaches the step that writes the
/// index page — but it did already attempt to create the output directory,
/// two steps earlier, so the directory may exist even though no page does.
pub proof fn lemma_fetch_failure_writes_no_page(outcomes: Seq<bool>)
    requires
        outcomes.len() > 3,
        outcomes[0],
        outcomes[1],
        outcomes[2],
        !outcomes[3],
    ensures
        trace(outcomes)[2] == Step::CreateOutDir,
        trace(outcomes)[3] == Step::FetchRelease,
        forall|i: int| 0 <= i < trace(outcomes).len() ==> trace(outcomes)[i] != Step::WriteIndex,
{
    lemma_trace_steps(outcomes);
    assert(all_ok_before(outcomes, 2));
    assert(all_ok_before(outcomes, 3));
    assert forall|i: int| 0 <= i < trace(outcomes).len() implies trace(outcomes)[i]
        != Step::WriteIndex by {
        if all_ok_before(outcomes, i) && i >= 4 {
            assert(outcomes[3]);
        }
    }
}

/// The context string a failure of the given step is reported with.
pub open spec fn spec_step_context(s: Step) -> Seq<char> {
    match s {
        Step::LoadTemplates => "Failed to load templates"@,
        Step::ParseArgs => "Invalid command line arguments"@,
        Step::CreateOutDir => "Failed creating output directory"@,
        Step::FetchRelease => "Failed to generate index page"@,
        Step::RenderIndex => "Failed to generate index page"@,
        Step::WriteIndex => "Failed to generate index page"@,
        Step::CopyAssets => "Failed to copy assets"@,
        Step::CopyWellKnown => "Failed to copy well-known files"@,
        Step::Done => ""@,
        Step::Failed => ""@,
    }
}

/// The context string naming the step that failed; the three parts of
/// generating the index page — fetch, render, write — share one context.
pub fn step_context(s: Step) -> (r: String)
    ensures
        r@ == spec_step_context(s),
{
    match s {
        Step::LoadTemplates => "Failed to load templates".to_owned(),
        Step::ParseArgs => "Invalid command line arguments".to_owned(),
        Step::CreateOutDir => "Failed creating output directory".to_owned(),
        Step::FetchRelease => "Failed to generate index page".to_owned(),
        Step::RenderIndex => "Failed to generate index page".to_owned(),
        Step::WriteIndex => "Failed to generate index page".to_owned(),
        Step::CopyAssets => "Failed to copy assets".to_owned(),
        Step::CopyWellKnown => "Failed to copy well-known files".to_owned(),
        Step::Done => "".to_owned(),
        Step::Failed => "".to_owned(),
    }
}

/// The error kind a failure of the given working step belongs to.
pub open spec fn spec_step_error_kind(s: Step) -> ErrorKind {
    match s {
        Step::LoadTemplates => ErrorKind::TemplateLoad,
        Step::ParseArgs => ErrorKind::Usage,
        Step::CreateOutDir => ErrorKind::Io,
        Step::FetchRelease => ErrorKind::Fetch,
        Step::RenderIndex => ErrorKind::Render,
        Step::WriteIndex => ErrorKind::Io,
        Step::CopyAssets => ErrorKind::Io,
        Step::CopyWellKnown => ErrorKind::Io,
        Step::Done => ErrorKind::Io,
        Step::Failed => ErrorKind::Io,
    }
}

/// The error kind a failure of the given step is reported as.
pub fn step_error_kind(s: Step) -> (r: ErrorKind)
    requires
        is_working(s),
    ensures
        r == spec_step_error_kind(s),
{
    match s {
        Step::LoadTemplates => ErrorKind::TemplateLoad,
        Step::ParseArgs => ErrorKind::Usage,
        Step::CreateOutDir => ErrorKind::Io,
        Step::FetchRelease => ErrorKind::Fetch,
        Step::RenderIndex => ErrorKind::Render,
        Step::WriteIndex => ErrorKind::Io,
        Step::CopyAssets => ErrorKind::Io,
        Step::CopyWellKnown => ErrorKind::Io,
        Step::Done => ErrorKind::Io,
        Step::Failed => ErrorKind::Io,
    }
}

} // verus!
