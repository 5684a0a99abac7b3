//! The host-side resource report tool: its command line and its output file.
use vstd::prelude::*;

verus! {

/// Event capacity of the radio storage the report describes; the firmware
/// uses the same capacity.
pub const EVENT_CAPACITY: usize = 8;

/// Exit status of the tool when the report file cannot be written.
pub const WRITE_FAILURE_EXIT_CODE: i32 = 1;

/// Why the command line was refused.
#[derive(Clone, Copy, Debug, PartialEq, Eq, Structural)]
pub enum ReportUsageError {
    /// No output path was given.
    MissingOutputPath,
    /// More than one argument was given.
    ExtraArguments,
}

impl ReportUsageError {
    /// The message printed on standard error.
    pub fn message(&self) -> (s: &'static str)
        ensures
            s@ == match *self {
                ReportUsageError::MissingOutputPath => "usage: rf-resource-report <output.json>"@,
                ReportUsageError::ExtraArguments => "rf-resource-report accepts exactly one output path"@,
            },
    {
        match self {
            ReportUsageError::MissingOutputPath => "usage: rf-resource-report <output.json>",
            ReportUsageError::ExtraArguments => "rf-resource-report accepts exactly one output path",
        }
    }

    /// The exit status: 2 for every usage error.
    pub fn exit_code(&self) -> (code: i32)
        ensures
            code == 2,
    {
        2
    }
}

/// Checks the command line, given how many arguments follow the program
/// name: exactly one (the output path) is accepted.
pub fn check_report_args(argument_count: usize) -> (r: Result<(), ReportUsageError>)
    ensures
        r is Ok <==> argument_count == 1,
        r == Err::<(), ReportUsageError>(ReportUsageError::MissingOutputPath) <==> argument_count == 0,
        r == Err::<(), ReportUsageError>(ReportUsageError::ExtraArguments) <==> argument_count > 1,
{
    if argument_count == 0 {
        Err(ReportUsageError::MissingOutputPath)
    } else if argument_count > 1 {
        Err(ReportUsageError::ExtraArguments)
    } else {
        Ok(())
    }
}

/// The report file's contents: the JSON report followed by a newline.
pub fn report_file_contents(report_json: String) -> (contents: String)
    ensures
        contents@ == report_json@ + "\n"@,
{
    let mut contents = report_json;
    contents.append("\n");
    contents
}

} // verus!
