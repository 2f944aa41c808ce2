//! One diagnostic: a message and its labels.

use super::label::{copy_labels, Label};
use super::span::Span;
use vstd::prelude::*;
use vstd::string::StringExecFns;

verus! {

/// Whether a report is an error or a warning.
#[derive(Debug, Clone, Copy, PartialEq, Eq, Structural, PartialOrd, Ord)]
pub enum ReportType {
    Error,
    Warning,
}

/// A diagnostic. `common_span` encloses everything the report speaks of: it
/// decides which lines are shown and how wide the line numbers are.
#[derive(Debug)]
pub struct Report {
    pub tag: String,
    pub common_span: Span,
    pub labels: Vec<Label>,
    pub report_type: ReportType,
    pub message: String,
}

/// What a report says: its texts as sequences of characters, its labels as
/// a sequence.
pub struct ReportView {
    pub tag: Seq<char>,
    pub common_span: Span,
    pub labels: Seq<Label>,
    pub report_type: ReportType,
    pub message: Seq<char>,
}

impl View for Report {
    type V = ReportView;

    open spec fn view(&self) -> ReportView {
        ReportView {
            tag: self.tag@,
            common_span: self.common_span,
            labels: self.labels@,
            report_type: self.report_type,
            message: self.message@,
        }
    }
}

/// What each report of a list says.
pub open spec fn spec_views(reports: Seq<Report>) -> Seq<ReportView> {
    reports.map_values(|report: Report| report@)
}

impl Clone for Report {
    fn clone(&self) -> (copy: Self)
        ensures
            copy@ == self@,
    {
        Report {
            tag: self.tag.clone(),
            common_span: self.common_span,
            labels: copy_labels(&self.labels),
            report_type: self.report_type,
            message: self.message.clone(),
        }
    }
}

impl Report {
    /// A report without labels. Without a tag, the tag is empty.
    pub fn new(tag: Option<String>, span: Span, report_type: ReportType, message: String) -> (report:
        Report)
        ensures
            report@ == (ReportView {
                tag: match tag {
                    Some(text) => text@,
                    None => Seq::<char>::empty(),
                },
                common_span: span,
                labels: Seq::<Label>::empty(),
                report_type,
                message: message@,
            }),
    {
        let tag = match tag {
            Some(text) => text,
            None => String::new(),
        };
        Report { tag, common_span: span, labels: Vec::new(), report_type, message }
    }

    /// An error with the tag `error`.
    pub fn error(span: Span, message: String) -> (report: Report)
        ensures
            report@ == (ReportView {
                tag: "error"@,
                common_span: span,
                labels: Seq::<Label>::empty(),
                report_type: ReportType::Error,
                message: message@,
            }),
    {
        Report::new(Some(String::from_str("error")), span, ReportType::Error, message)
    }

    /// A warning with the tag `warning`.
    pub fn warning(span: Span, message: String) -> (report: Report)
        ensures
            report@ == (ReportView {
                tag: "warning"@,
                common_span: span,
                labels: Seq::<Label>::empty(),
                report_type: ReportType::Warning,
                message: message@,
            }),
    {
        Report::new(Some(String::from_str("warning")), span, ReportType::Warning, message)
    }

    /// Adds a label after those that the report has.
    pub fn add_label(&mut self, label: Label)
        ensures
            final(self)@ == (ReportView { labels: old(self)@.labels.push(label), ..old(self)@ }),
    {
        self.labels.push(label);
    }
}

} // verus!
