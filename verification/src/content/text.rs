//! This module describes a span of text that can have annotations overlaid
//! on top of it, together with the aggregate that indexes those annotations
//! by their start offset.

use vstd::prelude::*;
use vstd::string::StrSliceExecFns;
use std::rc::Rc;
use std::collections::HashMap;
use crate::support::Timestamp;
use crate::support::now;
use crate::support::rc_clone;

verus! {

broadcast use vstd::std_specs::hash::group_hash_axioms;

/// Text that can be annotated
pub struct Content {
    pub text: String,
}

/// The types of annotations that can be added to `Content`
#[derive(Debug, PartialEq)]
pub enum AnnotationType {
    Highlight,
    Comment(String),
    Boldface,
    Underline,
}

/// An annotation on top of `Content`
pub struct Annotation {
    /// Index where the `Annotation` starts in `Content.text`, counted in
    /// characters.
    pub start: usize,
    /// Length of the `Annotation`, counted in characters.
    pub length: usize,
    pub overlay: AnnotationType,
    /// Time at which the `Annotation` was created
    pub timestamp: Timestamp,
    /// The `Content` on which this annotation is overlaid
    pub parent: Rc<Content>,
}

impl Annotation {
    /// The text of the parent content, as a sequence of characters.
    pub open spec fn parent_text(&self) -> Seq<char> {
        self.parent.text@
    }

    /// The span `[start, start + length)` lies within the parent text.
    pub open spec fn in_bounds(&self) -> bool {
        self.start + self.length <= self.parent_text().len()
    }

    /// The characters that the annotation covers.
    pub open spec fn span_text(&self) -> Seq<char> {
        self.parent_text().subrange(self.start as int, self.start + self.length)
    }

    pub fn new(start: usize, length: usize, overlay: AnnotationType, parent: &Rc<Content>) -> (r:
        Annotation)
        ensures
            r.start == start,
            r.length == length,
            r.overlay == overlay,
            r.parent_text() == parent.text@,
    {
        let timestamp = now();
        Annotation { start, length, overlay, timestamp, parent: rc_clone(parent) }
    }

    /// Gets the span of text that is being annotated.
    pub fn text(&self) -> (r: &str)
        requires
            self.in_bounds(),
        ensures
            r@ == self.span_text(),
    {
        // the character count is at most usize::MAX, so the addition fits
        let n: usize = self.parent.text.as_str().unicode_len();
        let end: usize = self.start + self.length;
        self.parent.text.as_str().substring_char(self.start, end)
    }

    /// Gets the span of text, or `None` when the span runs past the end
    /// of the parent text.
    pub fn try_text(&self) -> (r: Option<&str>)
        ensures
            r is Some <==> self.in_bounds(),
            r matches Some(s) ==> s@ == self.span_text(),
    {
        let n: usize = self.parent.text.as_str().unicode_len();
        if self.length <= n && self.start <= n - self.length {
            let end: usize = self.start + self.length;
            Some(self.parent.text.as_str().substring_char(self.start, end))
        } else {
            None
        }
    }
}

/// Raw text and a collection of annotations overlaid on top of the text.
/// An annotation can be retrieved using the start index of the text onto
/// which it is overlaid; an insert at an occupied start offset overwrites
/// the annotation stored there.
pub struct AnnotatedContent {
    pub content: Rc<Content>,
    pub annotations: HashMap<usize, Annotation>,
}

impl AnnotatedContent {
    /// Every annotation is stored under its own start offset.
    pub open spec fn wf(&self) -> bool {
        forall|k: usize| #[trigger]
            self.annotations@.contains_key(k) ==> self.annotations@[k].start == k
    }

    pub fn new(text: String) -> (r: AnnotatedContent)
        ensures
            r.content.text@ == text@,
            r.annotations@ == Map::<usize, Annotation>::empty(),
            r.wf(),
    {
        let content = Rc::new(Content { text });
        let annotations: HashMap<usize, Annotation> = HashMap::new();
        AnnotatedContent { content, annotations }
    }

    pub fn add_annotation(&mut self, a: Annotation)
        ensures
            final(self).annotations@ == old(self).annotations@.insert(a.start, a),
            final(self).content == old(self).content,
            old(self).wf() ==> final(self).wf(),
    {
        self.annotations.insert(a.start, a);
    }

    /// How many annotations are currently stored.
    pub fn annotation_count(&self) -> (n: usize)
        ensures
            n == self.annotations@.len(),
    {
        self.annotations.len()
    }

    /// The annotation stored at the given start offset, if any.
    pub fn get_annotation(&self, start: usize) -> (r: Option<&Annotation>)
        ensures
            match r {
                Some(a) => self.annotations@.contains_key(start) && *a == self.annotations@[start],
                None => !self.annotations@.contains_key(start),
            },
    {
        self.annotations.get(&start)
    }
}

/// The mapping that results from a sequence of `add_annotation` calls on
/// an initial mapping, one call per element, in order.
pub open spec fn map_after_adds(m: Map<usize, Annotation>, s: Seq<Annotation>) -> Map<
    usize,
    Annotation,
>
    decreases s.len(),
{
    if s.len() == 0 {
        m
    } else {
        map_after_adds(m, s.drop_last()).insert(s.last().start, s.last())
    }
}

/// The set of distinct start offsets that appear in a sequence of
/// annotations.
pub open spec fn distinct_starts(s: Seq<Annotation>) -> Set<usize> {
    Set::new(|k: usize| exists|i: int| 0 <= i < s.len() && s[i].start == k)
}

/// Law: a sequence of `add_annotation` calls leaves the mapping's domain
/// equal to the set of start offsets used, joined with the domain the
/// mapping had before.
pub proof fn lemma_adds_domain(m: Map<usize, Annotation>, s: Seq<Annotation>)
    ensures
        map_after_adds(m, s).dom() =~= m.dom() + distinct_starts(s),
    decreases s.len(),
{
    if s.len() == 0 {
        assert(distinct_starts(s) =~= Set::<usize>::empty());
    } else {
        let s0 = s.drop_last();
        let a = s.last();
        lemma_adds_domain(m, s0);
        assert forall|k: usize| distinct_starts(s).contains(k) implies distinct_starts(
            s0,
        ).insert(a.start).contains(k) by {
            let i = choose|i: int| 0 <= i < s.len() && s[i].start == k;
            if i < s.len() - 1 {
                assert(s0[i].start == k);
            }
        }
        assert forall|k: usize| distinct_starts(s0).insert(a.start).contains(k)
            implies distinct_starts(s).contains(k) by {
            if k == a.start {
                assert(s[s.len() - 1].start == k);
            } else {
                let i = choose|i: int| 0 <= i < s0.len() && s0[i].start == k;
                assert(s[i].start == k);
            }
        }
        assert(distinct_starts(s) =~= distinct_starts(s0).insert(a.start));
    }
}

/// Law: for every sequence of `add_annotation` calls on a freshly made
/// `AnnotatedContent`, the final mapping's size equals the number of
/// distinct start offsets used, not the number of calls: a call at an
/// occupied start offset overwrites the entry stored there.
pub proof fn lemma_add_count_is_distinct_starts(s: Seq<Annotation>)
    ensures
        map_after_adds(Map::<usize, Annotation>::empty(), s).len() == distinct_starts(s).len(),
{
    lemma_adds_domain(Map::<usize, Annotation>::empty(), s);
    assert(map_after_adds(Map::<usize, Annotation>::empty(), s).dom() =~= distinct_starts(s));
}

} // verus!
