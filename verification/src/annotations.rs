//! This module describes a span of text that can have annotations
//! overlaid on top of it.

use vstd::prelude::*;
use vstd::string::StrSliceExecFns;
use std::rc::Rc;
use crate::support::Timestamp;
use crate::support::now;
use crate::support::rc_clone;

verus! {

/// Raw text content that can be annotated
pub struct Content {
    pub text: String,
}

/// The types of annotations that can be added on top of the text in `Content`
#[derive(Debug, PartialEq)]
pub enum AnnotationType {
    Highlight,
    Comment(String),
}

/// An annotation on top of the text in `Content`
pub struct Annotation {
    /// Index where the `Annotation` starts in `Content.text`, counted in
    /// characters.
    pub start: usize,
    /// Length of the `Annotation`, counted in characters.
    pub length: usize,
    pub overlay: AnnotationType,
    /// Time at which the `Annotation` was created
    pub timestamp: Timestamp,
    /// The `Content` on which this annotation is overlaid
    pub parent: Rc<Content>,
}

impl Annotation {
    /// The text of the parent content, as a sequence of characters.
    pub open spec fn parent_text(&self) -> Seq<char> {
        self.parent.text@
    }

    /// The span `[start, start + length)` lies within the parent text.
    pub open spec fn in_bounds(&self) -> bool {
        self.start + self.length <= self.parent_text().len()
    }

    /// The characters that the annotation covers.
    pub open spec fn span_text(&self) -> Seq<char> {
        self.parent_text().subrange(self.start as int, self.start + self.length)
    }

    pub fn new(start: usize, length: usize, overlay: AnnotationType, parent: &Rc<Content>) -> (r:
        Annotation)
        ensures
            r.start == start,
            r.length == length,
            r.overlay == overlay,
            r.parent_text() == parent.text@,
    {
        let timestamp = now();
        Annotation { start, length, overlay, timestamp, parent: rc_clone(parent) }
    }

    /// Gets the span of text that is being annotated.
    pub fn text(&self) -> (r: &str)
        requires
            self.in_bounds(),
        ensures
            r@ == self.span_text(),
    {
        // the character count is at most usize::MAX, so the addition fits
        let n: usize = self.parent.text.as_str().unicode_len();
        let end: usize = self.start + self.length;
        self.parent.text.as_str().substring_char(self.start, end)
    }

    /// Gets the span of text, or `None` when the span runs past the end
    /// of the parent text.
    pub fn try_text(&self) -> (r: Option<&str>)
        ensures
            r is Some <==> self.in_bounds(),
            r matches Some(s) ==> s@ == self.span_text(),
    {
        let n: usize = self.parent.text.as_str().unicode_len();
        if self.length <= n && self.start <= n - self.length {
            let end: usize = self.start + self.length;
            Some(self.parent.text.as_str().substring_char(self.start, end))
        } else {
            None
        }
    }
}

} // verus!
