use katvan_homepage::errors::ErrorKind;
use katvan_homepage::pipeline::{advance, step_context, step_error_kind, Step};

fn run_with_outcomes(outcomes: &[bool]) -> Vec<Step> {
    let mut visited = vec![Step::LoadTemplates];
    let mut step = Step::LoadTemplates;
    for ok in outcomes {
        step = advance(step, *ok);
        visited.push(step);
    }
    visited
}

#[test]
fn successful_run_visits_every_step_in_order() {
    let visited = run_with_outcomes(&[true; 8]);
    assert_eq!(
        visited,
        vec![
            Step::LoadTemplates,
            Step::ParseArgs,
            Step::CreateOutDir,
            Step::FetchRelease,
            Step::RenderIndex,
            Step::WriteIndex,
            Step::CopyAssets,
            Step::CopyWellKnown,
            Step::Done,
        ]
    );
}

#[test]
fn done_is_final() {
    assert_eq!(advance(Step::Done, true), Step::Done);
    assert_eq!(advance(Step::Done, false), Step::Done);
}

#[test]
fn any_failure_halts_the_run() {
    for failing in 0..8 {
        let mut outcomes = vec![true; 8];
        outcomes[failing] = false;
        let visited = run_with_outcomes(&outcomes);
        assert_eq!(visited[failing + 1], Step::Failed);
        assert_eq!(*visited.last().unwrap(), Step::Failed);
    }
}

#[test]
fn template_failure_blocks_the_fetch() {
    let visited = run_with_outcomes(&[false, true, true, true]);
    assert!(!visited.contains(&Step::FetchRelease));
    assert_eq!(visited[1], Step::Failed);
}

#[test]
fn fetch_failure_happens_after_dir_creation_and_before_write() {
    let visited = run_with_outcomes(&[true, true, true, false, true]);
    assert_eq!(visited[2], Step::CreateOutDir);
    assert_eq!(visited[3], Step::FetchRelease);
    assert!(!visited.contains(&Step::WriteIndex));
}

#[test]
fn usage_failure_precedes_dir_creation() {
    let visited = run_with_outcomes(&[true, false, true]);
    assert!(!visited.contains(&Step::CreateOutDir));
}

#[test]
fn context_strings_name_the_failing_step() {
    assert_eq!(step_context(Step::LoadTemplates), "Failed to load templates");
    assert_eq!(
        step_context(Step::ParseArgs),
        "Invalid command line arguments"
    );
    assert_eq!(
        step_context(Step::CreateOutDir),
        "Failed creating output directory"
    );
    assert_eq!(
        step_context(Step::FetchRelease),
        "Failed to generate index page"
    );
    assert_eq!(
        step_context(Step::RenderIndex),
        "Failed to generate index page"
    );
    assert_eq!(
        step_context(Step::WriteIndex),
        "Failed to generate index page"
    );
    assert_eq!(step_context(Step::CopyAssets), "Failed to copy assets");
    assert_eq!(
        step_context(Step::CopyWellKnown),
        "Failed to copy well-known files"
    );
}

#[test]
fn error_kinds_follow_the_taxonomy() {
    assert_eq!(step_error_kind(Step::LoadTemplates), ErrorKind::TemplateLoad);
    assert_eq!(step_error_kind(Step::ParseArgs), ErrorKind::Usage);
    assert_eq!(step_error_kind(Step::CreateOutDir), ErrorKind::Io);
    assert_eq!(step_error_kind(Step::FetchRelease), ErrorKind::Fetch);
    assert_eq!(step_error_kind(Step::RenderIndex), ErrorKind::Render);
    assert_eq!(step_error_kind(Step::WriteIndex), ErrorKind::Io);
    assert_eq!(step_error_kind(Step::CopyAssets), ErrorKind::Io);
    assert_eq!(step_error_kind(Step::CopyWellKnown), ErrorKind::Io);
}
