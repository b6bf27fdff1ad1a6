use vstd::prelude::*;

use crate::msg::{optional_str_view, optional_string_view};

verus! {

/// A report of one action that a process took for a request: what it did,
/// which process did it, the request's number, how long it took in
/// nanoseconds, and the command it ran, if any.
#[derive(Debug, PartialEq, Eq)]
pub struct Report {
    pub action: String,
    pub process: String,
    pub request_number: u64,
    pub duration_nanos: u64,
    pub command: Option<String>,
}

/// The mathematical value of a [`Report`]: its texts as characters and its
/// numbers as they are.
pub struct ReportView {
    pub action: Seq<char>,
    pub process: Seq<char>,
    pub request_number: u64,
    pub duration_nanos: u64,
    pub command: Option<Seq<char>>,
}

impl View for Report {
    type V = ReportView;

    open spec fn view(&self) -> ReportView {
        ReportView {
            action: self.action@,
            process: self.process@,
            request_number: self.request_number,
            duration_nanos: self.duration_nanos,
            command: optional_string_view(self.command),
        }
    }
}

impl ReportView {
    /// The report a fresh one starts as: empty texts, zero numbers and no
    /// command.
    pub open spec fn empty() -> ReportView {
        ReportView {
            action: Seq::empty(),
            process: Seq::empty(),
            request_number: 0,
            duration_nanos: 0,
            command: None,
        }
    }

    pub open spec fn with_action(self, action: Seq<char>) -> ReportView {
        ReportView { action, ..self }
    }

    pub open spec fn with_process(self, process: Seq<char>) -> ReportView {
        ReportView { process, ..self }
    }

    pub open spec fn with_request_number(self, request_number: u64) -> ReportView {
        ReportView { request_number, ..self }
    }

    pub open spec fn with_duration_nanos(self, duration_nanos: u64) -> ReportView {
        ReportView { duration_nanos, ..self }
    }

    pub open spec fn with_command(self, command: Option<Seq<char>>) -> ReportView {
        ReportView { command, ..self }
    }
}

/// Makes a report with empty texts, zero numbers and no command.
pub fn report_new() -> (report: Report)
    ensures
        report@ == ReportView::empty(),
{
    Report {
        action: String::new(),
        process: String::new(),
        request_number: 0,
        duration_nanos: 0,
        command: None,
    }
}

/// Sets the action of `report` to `action`.
pub fn report_set_action(report: &mut Report, action: &str)
    ensures
        final(report)@ == old(report)@.with_action(action@),
{
    report.action = action.to_owned();
}

/// The action of `report`.
pub fn report_get_action(report: &Report) -> (action: &str)
    ensures
        action@ == report@.action,
{
    report.action.as_str()
}

/// Sets the process of `report` to `process`.
pub fn report_set_process(report: &mut Report, process: &str)
    ensures
        final(report)@ == old(report)@.with_process(process@),
{
    report.process = process.to_owned();
}

/// The process of `report`.
pub fn report_get_process(report: &Report) -> (process: &str)
    ensures
        process@ == report@.process,
{
    report.process.as_str()
}

/// Sets the request number of `report` to `reqno`.
pub fn report_set_request_number(report: &mut Report, reqno: u64)
    ensures
        final(report)@ == old(report)@.with_request_number(reqno),
{
    report.request_number = reqno;
}

/// The request number of `report`.
pub fn report_get_request_number(report: &Report) -> (reqno: u64)
    ensures
        reqno == report@.request_number,
{
    report.request_number
}

/// Sets the duration of `report`, in nanoseconds, to `duration_nanos`.
pub fn report_set_duration_nanos(report: &mut Report, duration_nanos: u64)
    ensures
        final(report)@ == old(report)@.with_duration_nanos(duration_nanos),
{
    report.duration_nanos = duration_nanos;
}

/// The duration of `report`, in nanoseconds.
pub fn report_get_duration_nanos(report: &Report) -> (duration_nanos: u64)
    ensures
        duration_nanos == report@.duration_nanos,
{
    report.duration_nanos
}

/// Sets the command of `report` to `command`; `None` removes it.
pub fn report_set_command(report: &mut Report, command: Option<&str>)
    ensures
        final(report)@ == old(report)@.with_command(optional_str_view(command)),
{
    report.command = match command {
        None => None,
        Some(c) => Some(c.to_owned()),
    };
}

/// The command of `report`, if it has one.
pub fn report_get_command(report: &Report) -> (command: Option<&str>)
    ensures
        optional_str_view(command) == report@.command,
{
    match &report.command {
        None => None,
        Some(c) => Some(c.as_str()),
    }
}

/// The parts of a report that its setters write.
pub enum ReportPart {
    Action,
    Process,
    RequestNumber,
    DurationNanos,
    Command,
}

/// Whether `a` and `b` agree on every part but `part`.
pub open spec fn report_agree_except(a: ReportView, b: ReportView, part: ReportPart) -> bool {
    &&& (part !is Action ==> a.action == b.action)
    &&& (part !is Process ==> a.process == b.process)
    &&& (part !is RequestNumber ==> a.request_number == b.request_number)
    &&& (part !is DurationNanos ==> a.duration_nanos == b.duration_nanos)
    &&& (part !is Command ==> a.command == b.command)
}

/// What a setter of a report writes, the matching getter gives back; of two
/// writes to the same part the last one wins; a fresh report has no command.
pub proof fn law_report_read_gives_back_write(
    r: ReportView,
    action: Seq<char>,
    process: Seq<char>,
    reqno: u64,
    nanos: u64,
    command: Option<Seq<char>>,
    action2: Seq<char>,
    command2: Option<Seq<char>>,
)
    ensures
        r.with_action(action).action == action,
        r.with_process(process).process == process,
        r.with_request_number(reqno).request_number == reqno,
        r.with_duration_nanos(nanos).duration_nanos == nanos,
        r.with_command(command).command == command,
        r.with_command(command).with_command(command2) == r.with_command(command2),
        r.with_action(action2).with_action(action) == r.with_action(action),
        ReportView::empty().command is None,
{
}

/// A write to one part of a report leaves every other part as it was.
pub proof fn law_report_write_keeps_other_parts(
    r: ReportView,
    action: Seq<char>,
    process: Seq<char>,
    reqno: u64,
    nanos: u64,
    command: Option<Seq<char>>,
)
    ensures
        report_agree_except(r.with_action(action), r, ReportPart::Action),
        report_agree_except(r.with_process(process), r, ReportPart::Process),
        report_agree_except(r.with_request_number(reqno), r, ReportPart::RequestNumber),
        report_agree_except(r.with_duration_nanos(nanos), r, ReportPart::DurationNanos),
        report_agree_except(r.with_command(command), r, ReportPart::Command),
{
}

} // verus!
