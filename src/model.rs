//! The report model: devices, tests, log entries and aggregate counts.
use vstd::prelude::*;
use crate::text::same_text;

verus! {

/// Severity of one log entry.
#[derive(Clone, Copy, Debug, PartialEq, Eq, Structural)]
pub enum EntryType {
    Info,
    Warning,
    Error,
}

/// Outcome of one automated test.
#[derive(Clone, Copy, Debug, PartialEq, Eq, Structural)]
pub enum TestResult {
    NotRun,
    InProcess,
    Fail,
    Success,
    NotEnoughParticipants,
}

/// The three display groups of a test.
#[derive(Clone, Copy, Debug, PartialEq, Eq, Structural)]
pub enum Bucket {
    Pass,
    Fail,
    Other,
}

/// Failures of the report pipeline that the library detects.
#[derive(Clone, Copy, Debug, PartialEq, Eq, Structural)]
pub enum ReportError {
    /// The report does not follow the schema (an unknown literal among others).
    MalformedReport,
    /// The ignore pattern at this position of the list does not compile.
    InvalidIgnorePattern(usize),
}

#[derive(Debug)]
pub struct Event {
    pub entry_type: EntryType,
    pub message: String,
    pub context: String,
    pub artifact: String,
}

#[derive(Debug)]
pub struct Entry {
    pub event: Event,
    pub filename: String,
    pub line_number: i32,
    pub timestamp: String,
}

#[derive(Debug)]
pub struct Test {
    pub test_display_name: String,
    pub full_test_path: String,
    pub state: TestResult,
    pub entries: Vec<Entry>,
    pub warnings: i32,
    pub errors: i32,
    pub artifacts: Vec<String>,
}

#[derive(Debug)]
pub struct Device {
    pub device_name: String,
    pub instance: String,
    pub platform: String,
    pub os_version: String,
    pub model: String,
    pub gpu: String,
    pub cpu_model: String,
    pub ram_in_gb: i32,
    pub render_mode: String,
    pub rhi: String,
}

/// One test pass. The total duration is a float and stays with the caller.
#[derive(Debug)]
pub struct TestPass {
    pub devices: Option<Vec<Device>>,
    pub report_created_on: String,
    pub succeeded: i32,
    pub succeeded_with_warnings: i32,
    pub failed: i32,
    pub not_run: i32,
    pub in_process: Option<i32>,
    pub comparison_exported: bool,
    pub comparison_export_directory: String,
    pub tests: Vec<Test>,
}

/// The entry type that a report literal names, if any.
pub open spec fn entry_type_of(s: Seq<char>) -> Option<EntryType> {
    if s == "Info"@ {
        Some(EntryType::Info)
    } else if s == "Warning"@ {
        Some(EntryType::Warning)
    } else if s == "Error"@ {
        Some(EntryType::Error)
    } else {
        None
    }
}

/// The test result that a report literal names, if any.
pub open spec fn test_result_of(s: Seq<char>) -> Option<TestResult> {
    if s == "NotRun"@ {
        Some(TestResult::NotRun)
    } else if s == "InProcess"@ {
        Some(TestResult::InProcess)
    } else if s == "Fail"@ {
        Some(TestResult::Fail)
    } else if s == "Success"@ {
        Some(TestResult::Success)
    } else if s == "NotEnoughParticipants"@ {
        Some(TestResult::NotEnoughParticipants)
    } else {
        None
    }
}

impl EntryType {
    /// Reads the literal of an entry type; any other text is a malformed report.
    pub fn from_literal(s: &str) -> (r: Result<EntryType, ReportError>)
        ensures
            entry_type_of(s@) is Some ==> r == Ok::<EntryType, ReportError>(entry_type_of(s@)->Some_0),
            entry_type_of(s@) is None ==> r == Err::<EntryType, ReportError>(ReportError::MalformedReport),
    {
        if same_text(s, "Info") {
            Ok(EntryType::Info)
        } else if same_text(s, "Warning") {
            Ok(EntryType::Warning)
        } else if same_text(s, "Error") {
            Ok(EntryType::Error)
        } else {
            Err(ReportError::MalformedReport)
        }
    }
}

impl TestResult {
    /// Reads the literal of a test result; any other text is a malformed report.
    pub fn from_literal(s: &str) -> (r: Result<TestResult, ReportError>)
        ensures
            test_result_of(s@) is Some ==> r == Ok::<TestResult, ReportError>(test_result_of(s@)->Some_0),
            test_result_of(s@) is None ==> r == Err::<TestResult, ReportError>(ReportError::MalformedReport),
    {
        if same_text(s, "NotRun") {
            Ok(TestResult::NotRun)
        } else if same_text(s, "InProcess") {
            Ok(TestResult::InProcess)
        } else if same_text(s, "Fail") {
            Ok(TestResult::Fail)
        } else if same_text(s, "Success") {
            Ok(TestResult::Success)
        } else if same_text(s, "NotEnoughParticipants") {
            Ok(TestResult::NotEnoughParticipants)
        } else {
            Err(ReportError::MalformedReport)
        }
    }
}

/// The display group of a test result.
pub open spec fn bucket_spec(s: TestResult) -> Bucket {
    match s {
        TestResult::Success => Bucket::Pass,
        TestResult::Fail => Bucket::Fail,
        TestResult::NotRun => Bucket::Other,
        TestResult::InProcess => Bucket::Other,
        TestResult::NotEnoughParticipants => Bucket::Other,
    }
}

/// Classifies a test result into its display group.
pub fn bucket_of(s: TestResult) -> (r: Bucket)
    ensures
        r == bucket_spec(s),
{
    match s {
        TestResult::Success => Bucket::Pass,
        TestResult::Fail => Bucket::Fail,
        TestResult::NotRun => Bucket::Other,
        TestResult::InProcess => Bucket::Other,
        TestResult::NotEnoughParticipants => Bucket::Other,
    }
}

} // verus!
