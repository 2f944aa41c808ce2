//! One annotation of a report.

use super::color::Color;
use super::span::Span;
use vstd::prelude::*;

verus! {

/// A message attached to a span, with an optional hint and an optional
/// colour.
#[derive(Debug, PartialEq, Eq, PartialOrd, Ord, Hash)]
pub struct Label {
    pub format: Option<Color>,
    pub span: Span,
    pub message: String,
    pub hint: Option<String>,
}

/// A copy of an optional text.
pub fn copy_text(text: &Option<String>) -> (copy: Option<String>)
    ensures
        copy == *text,
{
    match text {
        Some(inner) => Some(inner.clone()),
        None => None,
    }
}

impl Clone for Label {
    fn clone(&self) -> (copy: Self)
        ensures
            copy == *self,
    {
        Label {
            format: self.format,
            span: self.span,
            message: self.message.clone(),
            hint: copy_text(&self.hint),
        }
    }
}

impl Label {
    /// A label without hint and without colour.
    pub fn new(span: Span, message: String) -> (label: Label)
        ensures
            label == (Label { format: None, span, message, hint: None }),
    {
        Label { format: None, span, message, hint: None }
    }

    /// Sets or removes the hint, and returns a copy of the label.
    pub fn set_hint(&mut self, hint: Option<String>) -> (copy: Label)
        ensures
            *final(self) == (Label { hint, ..*old(self) }),
            copy == *final(self),
    {
        self.hint = hint;
        self.clone()
    }

    /// Sets or removes the colour, and returns a copy of the label.
    pub fn set_format(&mut self, format: Option<Color>) -> (copy: Label)
        ensures
            *final(self) == (Label { format, ..*old(self) }),
            copy == *final(self),
    {
        self.format = format;
        self.clone()
    }

    pub fn is_multiline(&self) -> (multiline: bool)
        ensures
            multiline == self.span.spec_is_multiline(),
    {
        self.span.is_multiline()
    }

    pub fn is_in(&self, line: usize) -> (inside: bool)
        ensures
            inside == self.span.spec_is_in(line as int),
    {
        self.span.is_in(line)
    }
}

/// A copy of a list of labels.
pub fn copy_labels(labels: &Vec<Label>) -> (copy: Vec<Label>)
    ensures
        copy@ == labels@,
{
    let mut copy: Vec<Label> = Vec::new();
    let mut at: usize = 0;
    while at < labels.len()
        invariant
            at <= labels.len(),
            copy@ == labels@.take(at as int),
        decreases labels.len() - at,
    {
        copy.push(labels[at].clone());
        assert(labels@.take(at + 1) =~= labels@.take(at as int).push(labels@[at as int]));
        at += 1;
    }
    assert(labels@.take(at as int) =~= labels@);
    copy
}

} // verus!
