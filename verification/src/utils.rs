//! Rendering as text: the trait that every field type implements, and the
//! two generic containers, an optional value and a joined list.

use crate::text::{decimal, join, join_strings, render_decimal, texts};
use std::marker::PhantomData;
use vstd::prelude::*;

verus! {

/// A value with a textual form in the daemon's configuration grammar.
pub trait Render {
    /// The text that stands for this value.
    spec fn rendered(&self) -> Seq<char>;

    /// Writes this value as text.
    fn render(&self) -> (out: String)
        ensures
            out@ == self.rendered(),
    ;
}

impl Render for String {
    open spec fn rendered(&self) -> Seq<char> {
        self@
    }

    fn render(&self) -> (out: String) {
        self.clone()
    }
}

impl Render for u16 {
    open spec fn rendered(&self) -> Seq<char> {
        decimal(*self as nat)
    }

    fn render(&self) -> (out: String) {
        render_decimal(*self as u64)
    }
}

impl Render for u32 {
    open spec fn rendered(&self) -> Seq<char> {
        decimal(*self as nat)
    }

    fn render(&self) -> (out: String) {
        render_decimal(*self as u64)
    }
}

impl Render for usize {
    open spec fn rendered(&self) -> Seq<char> {
        decimal(*self as nat)
    }

    fn render(&self) -> (out: String) {
        render_decimal(*self as u64)
    }
}

/// The fixed separator that a joined list puts between its elements.
pub trait Joiner {
    /// The separator.
    spec fn separator() -> Seq<char>;

    /// The separator, as a string.
    fn joiner() -> (sep: &'static str)
        ensures
            sep@ == Self::separator(),
    ;
}

/// Joins with a comma.
#[derive(Debug, Clone, Copy)]
pub struct CommaJoiner {}

impl Joiner for CommaJoiner {
    open spec fn separator() -> Seq<char> {
        ","@
    }

    fn joiner() -> (sep: &'static str) {
        ","
    }
}

/// Joins with a single space.
#[derive(Debug, Clone, Copy)]
pub struct SpaceJoiner {}

impl Joiner for SpaceJoiner {
    open spec fn separator() -> Seq<char> {
        " "@
    }

    fn joiner() -> (sep: &'static str) {
        " "
    }
}

/// An ordered list whose text is the texts of its elements, joined by the
/// separator of `J`. An empty list has the empty text.
#[derive(Debug)]
pub struct DisplayVec<T: Render, J: Joiner> {
    pub vec: Vec<T>,
    pub joiner: PhantomData<J>,
}

impl<T: Render, J: Joiner> DisplayVec<T, J> {
    /// The text of each element, in order.
    pub open spec fn pieces(&self) -> Seq<Seq<char>> {
        Seq::new(self.vec@.len(), |i: int| self.vec@[i].rendered())
    }

    /// A list of the elements of `vec`, in their order.
    pub fn new(vec: Vec<T>) -> (list: Self)
        ensures
            list.vec == vec,
    {
        DisplayVec { vec, joiner: PhantomData }
    }
}

impl<T: Render, J: Joiner> Render for DisplayVec<T, J> {
    open spec fn rendered(&self) -> Seq<char> {
        join(self.pieces(), J::separator())
    }

    fn render(&self) -> (out: String) {
        let mut parts: Vec<String> = Vec::new();
        let mut i: usize = 0;
        while i < self.vec.len()
            invariant
                i <= self.vec.len(),
                parts@.len() == i,
                forall|k: int| 0 <= k < i ==> (#[trigger] parts@[k])@ == self.vec@[k].rendered(),
            decreases self.vec.len() - i,
        {
            parts.push(self.vec[i].render());
            i = i + 1;
        }
        assert(texts(parts@) =~= self.pieces());
        join_strings(&parts, J::joiner())
    }
}

impl<T: Render + Clone, J: Joiner> Clone for DisplayVec<T, J> {
    fn clone(&self) -> (copy: Self)
        ensures
            copy.vec@.len() == self.vec@.len(),
            forall|i: int|
                0 <= i < self.vec@.len() ==> cloned::<T>(self.vec@[i], #[trigger] copy.vec@[i]),
    {
        DisplayVec { vec: self.vec.clone(), joiner: PhantomData }
    }
}

impl<T: Render, J: Joiner> From<Vec<T>> for DisplayVec<T, J> {
    fn from(vec: Vec<T>) -> (list: Self) {
        DisplayVec { vec, joiner: PhantomData }
    }
}

impl<T: Render, J: Joiner> vstd::std_specs::convert::FromSpecImpl<Vec<T>> for DisplayVec<T, J> {
    open spec fn obeys_from_spec() -> bool {
        true
    }

    open spec fn from_spec(vec: Vec<T>) -> Self {
        DisplayVec { vec, joiner: PhantomData }
    }
}

/// A value that may be absent. Absent, its text is empty; present, its text
/// is that of the value, with nothing added.
#[derive(Debug, Clone)]
pub struct DisplayOption<T: Render> {
    pub option: Option<T>,
}

impl<T: Render> DisplayOption<T> {
    /// Wraps `option`.
    pub fn new(option: Option<T>) -> (wrapped: Self)
        ensures
            wrapped.option == option,
    {
        DisplayOption { option }
    }
}

impl<T: Render> Render for DisplayOption<T> {
    open spec fn rendered(&self) -> Seq<char> {
        match self.option {
            Some(value) => value.rendered(),
            None => Seq::empty(),
        }
    }

    fn render(&self) -> (out: String) {
        match &self.option {
            Some(value) => value.render(),
            None => String::new(),
        }
    }
}

impl<T: Render> From<Option<T>> for DisplayOption<T> {
    fn from(option: Option<T>) -> (wrapped: Self) {
        DisplayOption { option }
    }
}

impl<T: Render> vstd::std_specs::convert::FromSpecImpl<Option<T>> for DisplayOption<T> {
    open spec fn obeys_from_spec() -> bool {
        true
    }

    open spec fn from_spec(option: Option<T>) -> Self {
        DisplayOption { option }
    }
}

/// An absent value has the empty text.
pub proof fn absent_renders_empty<T: Render>(wrapped: DisplayOption<T>)
    requires
        wrapped.option is None,
    ensures
        wrapped.rendered() == Seq::<char>::empty(),
{
}

/// A present value has exactly the text of the value inside.
pub proof fn present_renders_inner<T: Render>(wrapped: DisplayOption<T>)
    requires
        wrapped.option is Some,
    ensures
        wrapped.rendered() == wrapped.option->Some_0.rendered(),
{
}

/// An empty list has the empty text.
pub proof fn empty_list_renders_empty<T: Render, J: Joiner>(list: DisplayVec<T, J>)
    requires
        list.vec@.len() == 0,
    ensures
        list.rendered() == Seq::<char>::empty(),
{
}

/// A list of one element has that element's text, with no separator.
pub proof fn single_element_renders_alone<T: Render, J: Joiner>(list: DisplayVec<T, J>)
    requires
        list.vec@.len() == 1,
    ensures
        list.rendered() == list.vec@[0].rendered(),
{
}

/// A list of `n >= 1` elements has, as its text, every element's text once
/// and the separator `n - 1` times, beginning with the first element's text
/// and ending with the last one's.
pub proof fn list_renders_joined<T: Render, J: Joiner>(list: DisplayVec<T, J>)
    requires
        list.vec@.len() >= 1,
    ensures
        list.rendered().len() == crate::text::total_len(list.pieces()) + (list.vec@.len() - 1)
            * J::separator().len(),
        list.vec@[0].rendered().is_prefix_of(list.rendered()),
        list.vec@.last().rendered().is_suffix_of(list.rendered()),
{
    crate::text::join_counts_separators(list.pieces(), J::separator());
    crate::text::join_has_no_outer_separator(list.pieces(), J::separator());
}

} // verus!
