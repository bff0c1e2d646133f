//! The buffer: the one piece of state that the contract keeps.

use crate::views::{lemma_views_drop_last, lemma_views_push, views};
use vstd::prelude::*;

verus! {

/// An ordered stack of strings. The last element is the one pushed most
/// recently.
#[derive(Clone, Debug, PartialEq, Eq)]
pub struct Buffer(Vec<String>);

impl View for Buffer {
    type V = Seq<Seq<char>>;

    /// The stored strings, oldest first.
    closed spec fn view(&self) -> Seq<Seq<char>> {
        views(self.0@)
    }
}

impl Buffer {
    /// An empty buffer.
    pub fn new() -> (buffer: Buffer)
        ensures
            buffer@ == Seq::<Seq<char>>::empty(),
    {
        Buffer(Vec::new())
    }

    /// Appends `value` on top of the stack.
    pub fn push(&mut self, value: String)
        ensures
            final(self)@ == old(self)@.push(value@),
    {
        proof {
            lemma_views_push(self.0@, value);
        }
        self.0.push(value);
    }

    /// Removes the element pushed most recently and returns it, or returns
    /// `None` and leaves the buffer as it is when there is none.
    pub fn pop(&mut self) -> (value: Option<String>)
        ensures
            match value {
                Some(s) => old(self)@.len() > 0 && s@ == old(self)@.last() && final(self)@ == old(
                    self,
                )@.drop_last(),
                None => old(self)@.len() == 0 && final(self)@ == old(self)@,
            },
    {
        proof {
            if self.0@.len() > 0 {
                lemma_views_drop_last(self.0@);
            }
        }
        self.0.pop()
    }

    /// A copy of this buffer, element by element.
    pub fn duplicate(&self) -> (copy: Buffer)
        ensures
            copy@ == self@,
    {
        let mut items: Vec<String> = Vec::new();
        let mut i: usize = 0;
        while i < self.0.len()
            invariant
                i <= self.0.len(),
                items@ == self.0@.subrange(0, i as int),
            decreases self.0.len() - i,
        {
            items.push(self.0[i].clone());
            i += 1;
        }
        Buffer(items)
    }
}

} // verus!
