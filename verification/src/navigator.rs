//! The stack of pages. Only the page on top is drawn and receives input.

use vstd::prelude::*;

verus! {

/// An ordered stack of pages, the last one on top. While a session runs the
/// stack is never empty.
#[derive(Debug)]
pub struct Navigator<P> {
    pages: Vec<P>,
}

impl<P> View for Navigator<P> {
    type V = Seq<P>;

    closed spec fn view(&self) -> Seq<P> {
        self.pages@
    }
}

/// The stack after a push.
pub open spec fn pushed<P>(pages: Seq<P>, page: P) -> Seq<P> {
    pages.push(page)
}

/// The stack after a pop: the last page of a stack stays.
pub open spec fn popped<P>(pages: Seq<P>) -> Seq<P> {
    if pages.len() > 1 {
        pages.drop_last()
    } else {
        pages
    }
}

/// The stack after the top page was replaced.
pub open spec fn replaced<P>(pages: Seq<P>, page: P) -> Seq<P> {
    pages.drop_last().push(page)
}

impl<P> Navigator<P> {
    /// The invariant of a navigator: there is a page to show.
    pub open spec fn wf(&self) -> bool {
        self@.len() > 0
    }

    /// A stack that holds `root` alone.
    pub fn new(root: P) -> (navigator: Navigator<P>)
        ensures
            navigator.wf(),
            navigator@ == seq![root],
    {
        let mut pages = Vec::new();
        pages.push(root);
        assert(pages@ =~= seq![root]);
        Navigator { pages }
    }

    /// The number of pages.
    pub fn len(&self) -> (n: usize)
        ensures
            n == self@.len(),
    {
        self.pages.len()
    }

    /// Puts `page` on top.
    pub fn push(&mut self, page: P)
        requires
            old(self).wf(),
        ensures
            final(self).wf(),
            final(self)@ == pushed(old(self)@, page),
    {
        self.pages.push(page);
    }

    /// Takes the top page off and hands it back. The last page of a stack is
    /// not taken off: the stack then stays as it is.
    pub fn pop(&mut self) -> (page: Option<P>)
        requires
            old(self).wf(),
        ensures
            final(self).wf(),
            final(self)@ == popped(old(self)@),
            page == (if old(self)@.len() > 1 { Some(old(self)@.last()) } else { None }),
    {
        if self.pages.len() > 1 {
            self.pages.pop()
        } else {
            None
        }
    }

    /// Puts `page` in the place of the top page and hands the old one back.
    pub fn replace(&mut self, page: P) -> (previous: P)
        requires
            old(self).wf(),
        ensures
            final(self).wf(),
            final(self)@ == replaced(old(self)@, page),
            previous == old(self)@.last(),
    {
        let previous = self.pages.pop();
        self.pages.push(page);
        previous.unwrap()
    }

    /// The page on top.
    pub fn top(&self) -> (page: &P)
        requires
            self.wf(),
        ensures
            *page == self@.last(),
    {
        &self.pages[self.pages.len() - 1]
    }

    /// The page on top, to be changed in place. No other page changes.
    pub fn top_mut(&mut self) -> (page: &mut P)
        requires
            old(self).wf(),
        ensures
            *page == old(self)@.last(),
            final(self)@ == old(self)@.update(old(self)@.len() - 1, *final(page)),
    {
        let last = self.pages.len() - 1;
        &mut self.pages[last]
    }
}

/// Pushing and then popping gives back the stack as it was.
pub proof fn lemma_pop_undoes_push<P>(pages: Seq<P>, page: P)
    requires
        pages.len() > 0,
    ensures
        popped(pushed(pages, page)) == pages,
{
    assert(pages.push(page).drop_last() =~= pages);
}

/// No operation empties a stack, and only the top of it ever changes: the
/// pages below the top are the same after a push, a pop or a replacement.
pub proof fn lemma_stack_never_empty<P>(pages: Seq<P>, page: P)
    requires
        pages.len() > 0,
    ensures
        pushed(pages, page).len() == pages.len() + 1,
        popped(pages).len() > 0,
        replaced(pages, page).len() == pages.len(),
        pushed(pages, page).last() == page,
        replaced(pages, page).last() == page,
        forall|i: int| 0 <= i < pages.len() ==> pushed(pages, page)[i] == pages[i],
        forall|i: int| 0 <= i < popped(pages).len() ==> popped(pages)[i] == pages[i],
        forall|i: int| 0 <= i < pages.len() - 1 ==> replaced(pages, page)[i] == pages[i],
{
}

} // verus!
