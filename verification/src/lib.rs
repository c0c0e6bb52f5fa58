//! A text buffer that carries an overlaid set of annotations: metadata
//! spans that reference substrings of the buffer without copying them.

pub mod annotation;
pub mod annotations;
pub mod content;
pub mod support;

use vstd::prelude::*;
use std::collections::HashMap;
use std::rc::Rc;
use crate::annotations::Annotation;
use crate::annotations::Content;

verus! {

broadcast use vstd::std_specs::hash::group_hash_axioms;

/// Raw text and the annotations overlaid on top of it. An annotation can
/// be retrieved using the starting index of the text onto which it is
/// overlaid; an insert at an occupied start offset overwrites the
/// annotation stored there.
pub struct AnnotatedContent {
    pub content: Rc<Content>,
    pub annotations: HashMap<usize, Annotation>,
}

impl AnnotatedContent {
    /// Every annotation is stored under its own start offset.
    pub open spec fn wf(&self) -> bool {
        forall|k: usize| #[trigger]
            self.annotations@.contains_key(k) ==> self.annotations@[k].start == k
    }

    pub fn new(text: String) -> (r: AnnotatedContent)
        ensures
            r.content.text@ == text@,
            r.annotations@ == Map::<usize, Annotation>::empty(),
            r.wf(),
    {
        let content = Rc::new(Content { text });
        let annotations: HashMap<usize, Annotation> = HashMap::new();
        AnnotatedContent { content, annotations }
    }

    pub fn add_annotation(&mut self, a: Annotation)
        ensures
            final(self).annotations@ == old(self).annotations@.insert(a.start, a),
            final(self).content == old(self).content,
            old(self).wf() ==> final(self).wf(),
    {
        self.annotations.insert(a.start, a);
    }
}

} // verus!
