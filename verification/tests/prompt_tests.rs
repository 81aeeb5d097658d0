use zeit_tui::prompt::{
    finish_args_from_answers, start_args_from_answers, validate_project, FinishAnswers,
    StartAnswers,
};

#[test]
fn blank_project_is_rejected_at_the_prompt() {
    assert_eq!(validate_project(""), Err("Project name cannot be empty".to_string()));
    assert_eq!(validate_project("   \t"), Err("Project name cannot be empty".to_string()));
    assert_eq!(validate_project("Website"), Ok(()));
}

#[test]
fn blank_project_never_yields_an_invocation() {
    let blank = StartAnswers { project: "   ".to_string(), task: None, begin: None };
    assert_eq!(start_args_from_answers(&blank), None);

    let empty = StartAnswers {
        project: String::new(),
        task: Some("t".to_string()),
        begin: Some("16:00".to_string()),
    };
    assert_eq!(start_args_from_answers(&empty), None);
}

#[test]
fn valid_start_answers_yield_the_start_invocation() {
    let answers = StartAnswers {
        project: "Website".to_string(),
        task: None,
        begin: None,
    };
    assert_eq!(
        start_args_from_answers(&answers),
        Some(vec![
            "track".to_string(),
            "--project".to_string(),
            "Website".to_string(),
            "--no-colors".to_string(),
        ])
    );
}

#[test]
fn finish_answers_yield_the_finish_invocation() {
    let answers = FinishAnswers { task: None, begin: Some("-0:15".to_string()), finish: None };
    assert_eq!(
        finish_args_from_answers(&answers),
        vec!["finish", "--begin", "-0:15", "--no-colors"]
    );
}
