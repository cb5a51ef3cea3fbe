use crossbundle::pipeline::{copy_of, Failure, Pipeline, StageOutcome};

#[test]
fn pipeline_runs_its_stages_in_order() {
    let mut pipeline = Pipeline::new(vec!['a', 'b', 'c']);
    assert_eq!(pipeline.current(), Some('a'));
    assert!(!pipeline.is_done());
    pipeline.advance(StageOutcome::Succeeded);
    assert_eq!(pipeline.current(), Some('b'));
    pipeline.advance(StageOutcome::Succeeded);
    assert_eq!(pipeline.current(), Some('c'));
    assert!(!pipeline.is_done());
    pipeline.advance(StageOutcome::Succeeded);
    assert_eq!(pipeline.current(), None);
    assert!(pipeline.is_done());
    assert_eq!(pipeline.failure(), None);
    pipeline.advance(StageOutcome::ToolFailed);
    assert!(pipeline.is_done());
    assert_eq!(pipeline.failure(), None);
}

#[test]
fn a_failed_stage_ends_the_pipeline() {
    let mut pipeline = Pipeline::new(vec![1u8, 2, 3]);
    pipeline.advance(StageOutcome::Succeeded);
    pipeline.advance(StageOutcome::ToolFailed);
    assert_eq!(pipeline.current(), None);
    assert!(!pipeline.is_done());
    assert_eq!(pipeline.failure(), Some((Failure::ToolFailed, 2)));
    pipeline.advance(StageOutcome::Succeeded);
    pipeline.advance(StageOutcome::OutputMissing);
    assert_eq!(pipeline.current(), None);
    assert!(!pipeline.is_done());
    assert_eq!(pipeline.failure(), Some((Failure::ToolFailed, 2)));
}

#[test]
fn a_missing_output_is_told_from_a_failed_tool() {
    let mut pipeline = Pipeline::new(vec![1u8, 2, 3]);
    pipeline.advance(StageOutcome::OutputMissing);
    assert_eq!(pipeline.failure(), Some((Failure::OutputMissing, 1)));
    assert_eq!(pipeline.current(), None);
}

#[test]
fn an_empty_pipeline_is_done() {
    let mut pipeline: Pipeline<u8> = Pipeline::new(vec![]);
    assert!(pipeline.is_done());
    assert_eq!(pipeline.current(), None);
    pipeline.advance(StageOutcome::ToolFailed);
    assert!(pipeline.is_done());
    assert_eq!(pipeline.failure(), None);
}

#[test]
fn copies_of_lists() {
    assert_eq!(copy_of(&[3u8, 1, 2]), vec![3, 1, 2]);
    assert_eq!(copy_of::<u8>(&[]), Vec::<u8>::new());
}
