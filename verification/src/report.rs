//! Walking the pages of a document and adding up how much text they gave.

use crate::bits::{low_bits_i32, usize_as_i32};
use crate::ocr::OcrError;
use crate::render::RenderError;
use vstd::prelude::*;
use vstd::utf8::encode_utf8;

verus! {

/// Why a page gave no text.
#[derive(Debug, PartialEq, Eq)]
pub enum PageError {
    /// The page could not be rendered.
    Render(RenderError),
    /// The rendered page could not be read.
    Ocr(OcrError),
}

/// A page of the document: its index, counted from zero, and the number
/// under which it is shown to the user, counted from one.
#[derive(Clone, Copy, Debug, PartialEq, Eq, Structural)]
pub struct PageRef {
    pub index: i32,
    pub number: i32,
}

/// What became of one page: the size of its text in bytes, or why it has
/// none.
#[derive(Debug, PartialEq, Eq)]
pub struct PageNote {
    pub page: PageRef,
    pub outcome: Result<usize, PageError>,
}

/// Size in bytes of a text in UTF-8.
pub open spec fn byte_len(text: Seq<char>) -> nat {
    encode_utf8(text).len()
}

/// What a page's outcome adds to the tally: the size of its text, and
/// nothing where it failed.
pub open spec fn chars_of(outcome: Result<String, PageError>) -> nat {
    match outcome {
        Ok(text) => byte_len(text@),
        Err(_) => 0,
    }
}

/// What is noted of a page's outcome: the size in place of the text.
pub open spec fn noted(outcome: Result<String, PageError>) -> Result<nat, PageError> {
    match outcome {
        Ok(text) => Ok(byte_len(text@)),
        Err(e) => Err(e),
    }
}

/// A noted outcome with its size as a natural number.
pub open spec fn note_view(outcome: Result<usize, PageError>) -> Result<nat, PageError> {
    match outcome {
        Ok(chars) => Ok(chars as nat),
        Err(e) => Err(e),
    }
}

/// The texts of `next` pages take at most `next` times the largest `usize`,
/// and with one page more this still is a `u128`.
proof fn lemma_room_for_a_page(next: int, chars: int, added: int)
    requires
        0 <= next < i32::MAX,
        0 <= chars <= next * usize::MAX,
        0 <= added <= usize::MAX,
    ensures
        chars + added <= (next + 1) * usize::MAX,
        (next + 1) * usize::MAX <= u128::MAX,
{
    let max = usize::MAX as int;
    assert((next + 1) * max == next * max + max) by (nonlinear_arith);
    assert((next + 1) * max <= 0x8000_0000 * 0xFFFF_FFFF_FFFF_FFFF) by (nonlinear_arith)
        requires
            0 <= next + 1 <= 0x8000_0000,
            0 <= max <= 0xFFFF_FFFF_FFFF_FFFF,
    ;
}

/// The pages of one document, taken in order, and the size of the text that
/// the pages taken so far gave.
///
/// The size is kept in 128 bits, which the texts of all the pages that an
/// `i32` can count never fill.
#[derive(Debug)]
pub struct Tally {
    pages: i32,
    next: i32,
    chars: u128,
}

/// What a tally is: how many pages there are, the index of the next page to
/// take, and the bytes of text counted so far.
pub struct TallyView {
    pub pages: int,
    pub next: int,
    pub chars: nat,
}

impl TallyView {
    /// Whether a page is left to take.
    pub open spec fn pending(self) -> bool {
        self.next < self.pages
    }
}

impl View for Tally {
    type V = TallyView;

    closed spec fn view(&self) -> TallyView {
        TallyView { pages: self.pages as int, next: self.next as int, chars: self.chars as nat }
    }
}

impl Tally {
    #[verifier::type_invariant]
    spec fn inv(self) -> bool {
        &&& 0 <= self.next
        &&& self.next == 0 || self.next <= self.pages
        &&& self.chars <= self.next * usize::MAX
    }

    /// A tally for a document of `pages` pages, with no page taken yet. The
    /// count is read as an `i32`: one that comes out negative leaves no page
    /// to take.
    pub fn new(pages: usize) -> (tally: Tally)
        ensures
            tally@ == (TallyView { pages: low_bits_i32(pages), next: 0, chars: 0 }),
    {
        Tally { pages: usize_as_i32(pages), next: 0, chars: 0 }
    }

    /// The next page to take, or `None` when every page was taken.
    pub fn next_page(&self) -> (page: Option<PageRef>)
        ensures
            page is Some <==> self@.pending(),
            page matches Some(p) ==> p.index == self@.next && p.number == self@.next + 1,
    {
        proof {
            use_type_invariant(self);
        }
        if self.next < self.pages {
            Some(PageRef { index: self.next, number: self.next + 1 })
        } else {
            None
        }
    }

    /// Bytes of text that the pages taken so far gave.
    pub fn total_chars(&self) -> (chars: u128)
        ensures
            chars == self@.chars,
    {
        self.chars
    }

    /// Takes the outcome of the next page: adds the size of its text, if it
    /// has one, and moves on to the page after it. With no page left, nothing
    /// changes and the result is `None`.
    pub fn record(&mut self, outcome: Result<String, PageError>) -> (note: Option<PageNote>)
        ensures
            final(self)@.pages == old(self)@.pages,
            old(self)@.pending() ==> {
                &&& final(self)@.next == old(self)@.next + 1
                &&& final(self)@.chars == old(self)@.chars + chars_of(outcome)
                &&& note matches Some(n)
                &&& n.page.index == old(self)@.next
                &&& n.page.number == old(self)@.next + 1
                &&& note_view(n.outcome) == noted(outcome)
            },
            !old(self)@.pending() ==> final(self)@ == old(self)@ && note is None,
    {
        proof {
            use_type_invariant(&*self);
        }
        if self.next >= self.pages {
            return None;
        }
        let page = PageRef { index: self.next, number: self.next + 1 };
        let (added, outcome): (usize, Result<usize, PageError>) = match outcome {
            Ok(text) => {
                let chars = text.as_str().as_bytes().len();
                (chars, Ok(chars))
            },
            Err(e) => (0, Err(e)),
        };
        proof {
            lemma_room_for_a_page(self.next as int, self.chars as int, added as int);
        }
        *self = Tally {
            pages: self.pages,
            next: self.next + 1,
            chars: self.chars + added as u128,
        };
        Some(PageNote { page, outcome })
    }
}

} // verus!
