use minishell::parser::Parser;
use minishell::pipeline::{plan_line, ErrSink, StageInput, StageOutput};

#[test]
fn two_stage_pipeline_is_chained() {
    let parsed = Parser::parse("printf 'b\\na\\nc\\n' | sort").unwrap();
    let plan = plan_line(&parsed);
    assert_eq!(plan.stages.len(), 2);
    assert_eq!(plan.stages[0].input, StageInput::Empty);
    assert_eq!(plan.stages[0].output, StageOutput::PipeToNext);
    assert_eq!(plan.stages[1].input, StageInput::FromPrev);
    assert_eq!(plan.stages[1].output, StageOutput::Inherit);
    assert_eq!(plan.err, ErrSink::Inherit);
    assert_eq!(plan.stages[0].argv, vec!["printf".to_string(), "b\\na\\nc\\n".to_string()]);
    assert_eq!(plan.stages[1].argv, vec!["sort".to_string()]);
}

#[test]
fn middle_stages_always_pipe() {
    let parsed = Parser::parse("a x | b | c").unwrap();
    let plan = plan_line(&parsed);
    assert_eq!(plan.stages.len(), 3);
    assert_eq!(plan.stages[0].output, StageOutput::PipeToNext);
    assert_eq!(plan.stages[1].output, StageOutput::PipeToNext);
    assert_eq!(plan.stages[2].output, StageOutput::Inherit);
    assert_eq!(plan.stages[1].input, StageInput::FromPrev);
}

#[test]
fn only_last_stage_gets_the_stdout_target() {
    let parsed = Parser::parse("a | b > out.txt").unwrap();
    let plan = plan_line(&parsed);
    assert_eq!(plan.stages.len(), 2);
    assert_eq!(plan.stages[0].output, StageOutput::PipeToNext);
    assert_eq!(plan.stages[1].output, StageOutput::ToFile("out.txt".to_string(), false));
}

#[test]
fn append_flag_reaches_the_plan() {
    let parsed = Parser::parse("echo foo >> /tmp/x.txt").unwrap();
    let plan = plan_line(&parsed);
    assert_eq!(plan.stages.len(), 1);
    assert_eq!(plan.stages[0].output, StageOutput::ToFile("/tmp/x.txt".to_string(), true));
    let parsed = Parser::parse("echo foo > /tmp/x.txt").unwrap();
    let plan = plan_line(&parsed);
    assert_eq!(plan.stages[0].output, StageOutput::ToFile("/tmp/x.txt".to_string(), false));
}

#[test]
fn stderr_target_is_shared() {
    let parsed = Parser::parse("a | b 2> err.txt").unwrap();
    let plan = plan_line(&parsed);
    assert_eq!(plan.err, ErrSink::ToFile("err.txt".to_string()));
    assert_eq!(plan.stages.len(), 2);
}

#[test]
fn blank_line_plans_nothing() {
    let parsed = Parser::parse("   ").unwrap();
    let plan = plan_line(&parsed);
    assert!(plan.stages.is_empty());
    assert_eq!(plan.err, ErrSink::Inherit);
}
