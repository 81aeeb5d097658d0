use zeit_tui::gateway::{
    finish_args, finish_failure_text, is_blank, list_args, list_text, start_args,
    start_failure_text, stats_args, stats_text, status_args, tracking_status_text, ToolOutput,
};

fn ok_output(stdout: &str) -> ToolOutput {
    ToolOutput { success: true, stdout: stdout.to_string(), stderr: String::new() }
}

fn failed_output(stderr: &str) -> ToolOutput {
    ToolOutput { success: false, stdout: String::new(), stderr: stderr.to_string() }
}

#[test]
fn blankness_is_trim_emptiness() {
    assert!(is_blank(""));
    assert!(is_blank("   "));
    assert!(is_blank(" \t\r\n "));
    assert!(!is_blank("a"));
    assert!(!is_blank("  a  "));
}

#[test]
fn query_args_are_exactly_operation_and_no_color_flag() {
    assert_eq!(status_args(), vec!["tracking", "--no-colors"]);
    assert_eq!(list_args(), vec!["list", "--no-colors"]);
    assert_eq!(stats_args(), vec!["stats", "--no-colors"]);
}

#[test]
fn start_args_without_optionals_has_no_task_or_begin_tokens() {
    let args = start_args("Website", &None, &None);
    assert_eq!(args, vec!["track", "--project", "Website", "--no-colors"]);
}

#[test]
fn start_args_with_all_answers_passes_them_through() {
    let args = start_args(
        "Website",
        &Some("homepage".to_string()),
        &Some("-0:15".to_string()),
    );
    assert_eq!(
        args,
        vec!["track", "--project", "Website", "--task", "homepage", "--begin", "-0:15", "--no-colors"]
    );
}

#[test]
fn start_args_drops_blank_optionals() {
    let args = start_args("Website", &Some("   ".to_string()), &Some("".to_string()));
    assert_eq!(args, vec!["track", "--project", "Website", "--no-colors"]);
}

#[test]
fn finish_args_without_answers_is_bare() {
    let args = finish_args(&None, &None, &None);
    assert_eq!(args, vec!["finish", "--no-colors"]);
}

#[test]
fn finish_args_passes_given_answers_in_order() {
    let args = finish_args(
        &Some("review".to_string()),
        &Some("16:00".to_string()),
        &Some("17:30".to_string()),
    );
    assert_eq!(
        args,
        vec!["finish", "--task", "review", "--begin", "16:00", "--finish", "17:30", "--no-colors"]
    );
}

#[test]
fn empty_status_output_becomes_the_no_tracking_sentinel() {
    assert_eq!(tracking_status_text(&ok_output("")), "No active tracking.");
    assert_eq!(tracking_status_text(&ok_output(" \n\t")), "No active tracking.");
}

#[test]
fn failed_status_query_becomes_the_error_sentinel_whatever_stderr_held() {
    assert_eq!(
        tracking_status_text(&failed_output("some stderr noise")),
        "Error getting tracking status."
    );
    assert_eq!(tracking_status_text(&failed_output("")), "Error getting tracking status.");
}

#[test]
fn successful_status_output_is_shown_verbatim() {
    assert_eq!(
        tracking_status_text(&ok_output("Website: since 14:00")),
        "Website: since 14:00"
    );
}

#[test]
fn list_text_passes_output_through_or_embeds_stderr() {
    assert_eq!(list_text(&ok_output("ProjectA: 2h")), "ProjectA: 2h");
    assert_eq!(list_text(&failed_output("no database")), "Error getting list: no database");
}

#[test]
fn stats_text_passes_output_through_or_embeds_stderr() {
    assert_eq!(stats_text(&ok_output("total 3h")), "total 3h");
    assert_eq!(stats_text(&failed_output("no database")), "Error getting stats: no database");
}

#[test]
fn start_failure_text_reports_only_failure() {
    assert_eq!(start_failure_text(&ok_output("started")), None);
    assert_eq!(
        start_failure_text(&failed_output("already tracking")),
        Some("Failed to start tracking: already tracking".to_string())
    );
}

#[test]
fn finish_failure_text_reports_only_failure() {
    assert_eq!(finish_failure_text(&ok_output("done")), None);
    assert_eq!(
        finish_failure_text(&failed_output("nothing to finish")),
        Some("Failed to finish tracking: nothing to finish".to_string())
    );
}
