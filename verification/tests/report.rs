use ws63_starter::resource_report::{
    check_report_args, report_file_contents, ReportUsageError, EVENT_CAPACITY,
    WRITE_FAILURE_EXIT_CODE,
};

#[test]
fn exactly_one_output_path_is_accepted() {
    assert_eq!(check_report_args(1), Ok(()));
    assert_eq!(check_report_args(0), Err(ReportUsageError::MissingOutputPath));
    assert_eq!(check_report_args(2), Err(ReportUsageError::ExtraArguments));
}

#[test]
fn usage_errors_exit_with_two() {
    assert_eq!(ReportUsageError::MissingOutputPath.exit_code(), 2);
    assert_eq!(ReportUsageError::ExtraArguments.exit_code(), 2);
    assert_eq!(
        ReportUsageError::MissingOutputPath.message(),
        "usage: rf-resource-report <output.json>"
    );
    assert_eq!(
        ReportUsageError::ExtraArguments.message(),
        "rf-resource-report accepts exactly one output path"
    );
    assert_eq!(WRITE_FAILURE_EXIT_CODE, 1);
    assert_eq!(EVENT_CAPACITY, 8);
}

#[test]
fn report_file_ends_with_newline() {
    assert_eq!(report_file_contents("{\"a\":1}".to_string()), "{\"a\":1}\n");
    assert_eq!(report_file_contents(String::new()), "\n");
}
