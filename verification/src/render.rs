//! Rendering one page of a document to an RGB raster: what to ask of the
//! PDF library, and what to make of each answer.
//!
//! The session holds no document. The caller performs each [`RenderAction`]
//! and reports what came of it as a [`RenderEvent`].

use crate::bits::{low_bits_i32, usize_as_i32};
use crate::raster::{rgb_fits, RasterView, RgbRaster};
use vstd::prelude::*;

verus! {

/// Factor by which a page is enlarged, in both directions, when rendered.
pub const ZOOM: i32 = 2;

/// Why a page gave no raster.
#[derive(Debug, PartialEq, Eq)]
pub enum RenderError {
    /// The PDF library reported this.
    Document(String),
    /// The document has no page of that index.
    PageOutOfRange,
    /// The samples of the rendered page are too few for its size.
    RgbBuffer,
}

/// A [`RenderError`] with its text as a sequence.
pub enum RenderErrorView {
    Document(Seq<char>),
    PageOutOfRange,
    RgbBuffer,
}

impl View for RenderError {
    type V = RenderErrorView;

    open spec fn view(&self) -> RenderErrorView {
        match *self {
            RenderError::Document(message) => RenderErrorView::Document(message@),
            RenderError::PageOutOfRange => RenderErrorView::PageOutOfRange,
            RenderError::RgbBuffer => RenderErrorView::RgbBuffer,
        }
    }
}

impl RenderError {
    /// The text of [`RenderError::message`].
    pub open spec fn spec_message(self) -> Seq<char> {
        match self {
            RenderError::Document(message) => message@,
            RenderError::PageOutOfRange => "Número da página fora do intervalo"@,
            RenderError::RgbBuffer => "Falha ao criar imagem RGB"@,
        }
    }

    /// What to tell the user: the PDF library's own words, or the library's.
    pub fn message(&self) -> (s: String)
        ensures
            s@ == self.spec_message(),
    {
        match self {
            RenderError::Document(message) => message.clone(),
            RenderError::PageOutOfRange => "Número da página fora do intervalo".to_owned(),
            RenderError::RgbBuffer => "Falha ao criar imagem RGB".to_owned(),
        }
    }
}

/// How far a session has come.
#[derive(Clone, Copy, Debug, PartialEq, Eq, Structural)]
pub enum RenderStage {
    /// The number of pages was asked for.
    Document,
    /// The page was asked for.
    Page,
    /// The outcome was handed out.
    Done,
}

/// What came of the last action.
#[derive(Debug, PartialEq, Eq)]
pub enum RenderEvent {
    /// The document was opened and has `pages` pages.
    Counted { pages: usize },
    /// The page was rendered: its size in pixels and its samples, row by row.
    Rendered { width: u32, height: u32, samples: Vec<u8> },
    /// The PDF library reported an error.
    Failed { message: String },
}

/// What to do next.
#[derive(Debug, PartialEq, Eq)]
pub enum RenderAction {
    /// Open the document and count its pages.
    CountPages,
    /// Load the page and render it, enlarged by `zoom`, in device RGB without
    /// an alpha channel.
    RenderPage { page_index: i32, zoom: i32 },
    /// Nothing more: this is the page's raster, or why there is none.
    Finish { outcome: Result<RgbRaster, RenderError> },
}

/// A [`RenderEvent`] with its bytes and text as sequences.
pub enum RenderEventView {
    Counted { pages: usize },
    Rendered { width: u32, height: u32, samples: Seq<u8> },
    Failed { message: Seq<char> },
}

/// A [`RenderAction`] with its raster and text as sequences.
pub enum RenderActionView {
    CountPages,
    RenderPage { page_index: int, zoom: int },
    Finish { outcome: Result<RasterView, RenderErrorView> },
}

/// The view of a raster or an error.
pub open spec fn outcome_view(outcome: Result<RgbRaster, RenderError>) -> Result<
    RasterView,
    RenderErrorView,
> {
    match outcome {
        Ok(raster) => Ok(raster@),
        Err(e) => Err(e@),
    }
}

impl View for RenderEvent {
    type V = RenderEventView;

    open spec fn view(&self) -> RenderEventView {
        match *self {
            RenderEvent::Counted { pages } => RenderEventView::Counted { pages },
            RenderEvent::Rendered { width, height, samples } => RenderEventView::Rendered {
                width,
                height,
                samples: samples@,
            },
            RenderEvent::Failed { message } => RenderEventView::Failed { message: message@ },
        }
    }
}

impl View for RenderAction {
    type V = RenderActionView;

    open spec fn view(&self) -> RenderActionView {
        match *self {
            RenderAction::CountPages => RenderActionView::CountPages,
            RenderAction::RenderPage { page_index, zoom } => RenderActionView::RenderPage {
                page_index: page_index as int,
                zoom: zoom as int,
            },
            RenderAction::Finish { outcome } => RenderActionView::Finish {
                outcome: outcome_view(outcome),
            },
        }
    }
}

/// Whether a document of `pages` pages has a page of index `page_index`, as
/// far as the count tells: the index must be below the count, read as an
/// `i32`. A negative index passes here and is left to the PDF library.
pub open spec fn below_page_count(page_index: int, pages: usize) -> bool {
    page_index < low_bits_i32(pages)
}

/// What an event leads to, in a session for the page `page_index` that has
/// come to `stage`: the next stage and the next action, or `None` where the
/// event answers no action that is under way.
pub open spec fn transition(stage: RenderStage, page_index: int, event: RenderEventView) -> Option<
    (RenderStage, RenderActionView),
> {
    match (stage, event) {
        (RenderStage::Document, RenderEventView::Counted { pages }) => if below_page_count(
            page_index,
            pages,
        ) {
            Some((RenderStage::Page, RenderActionView::RenderPage { page_index, zoom: ZOOM as int }))
        } else {
            Some(
                (
                    RenderStage::Done,
                    RenderActionView::Finish { outcome: Err(RenderErrorView::PageOutOfRange) },
                ),
            )
        },
        (RenderStage::Page, RenderEventView::Rendered { width, height, samples }) => if rgb_fits(
            width,
            height,
            samples.len(),
        ) {
            Some(
                (
                    RenderStage::Done,
                    RenderActionView::Finish {
                        outcome: Ok(RasterView { width, height, bytes: samples }),
                    },
                ),
            )
        } else {
            Some(
                (
                    RenderStage::Done,
                    RenderActionView::Finish { outcome: Err(RenderErrorView::RgbBuffer) },
                ),
            )
        },
        (RenderStage::Document, RenderEventView::Failed { message }) | (
            RenderStage::Page,
            RenderEventView::Failed { message },
        ) => Some(
            (
                RenderStage::Done,
                RenderActionView::Finish { outcome: Err(RenderErrorView::Document(message)) },
            ),
        ),
        _ => None,
    }
}

/// The place of a stage in the order in which a session passes them.
pub open spec fn stage_rank(stage: RenderStage) -> nat {
    match stage {
        RenderStage::Document => 0,
        RenderStage::Page => 1,
        RenderStage::Done => 2,
    }
}

/// Every event that is answered moves the session on to a later stage; the
/// session is over exactly when the answer is `Finish`, and once it is over
/// no event is answered. A raster comes only from the stage that waits for
/// the page, and it fits its buffer.
pub proof fn lemma_transition_moves_on(stage: RenderStage, page_index: int, event: RenderEventView)
    ensures
        transition(stage, page_index, event) matches Some((next, action)) ==> {
            &&& stage_rank(next) > stage_rank(stage)
            &&& next == RenderStage::Done <==> action is Finish
            &&& action matches RenderActionView::Finish { outcome: Ok(raster) } ==> {
                &&& stage == RenderStage::Page
                &&& rgb_fits(raster.width, raster.height, raster.bytes.len())
            }
        },
        stage == RenderStage::Done ==> transition(stage, page_index, event) is None,
{
}

/// The rendering of one page, from its index to its raster.
#[derive(Debug)]
pub struct RenderSession {
    stage: RenderStage,
    page_index: i32,
}

/// What a session is: the page it renders and the stage it has come to.
pub struct RenderSessionView {
    pub stage: RenderStage,
    pub page_index: int,
}

impl View for RenderSession {
    type V = RenderSessionView;

    closed spec fn view(&self) -> RenderSessionView {
        RenderSessionView { stage: self.stage, page_index: self.page_index as int }
    }
}

impl RenderSession {
    /// Opens a session for the page of index `page_index`, counted from
    /// zero, and asks for the number of pages.
    pub fn start(page_index: i32) -> (r: (RenderSession, RenderAction))
        ensures
            r.0@ == (RenderSessionView { stage: RenderStage::Document, page_index: page_index as int }),
            r.1@ == RenderActionView::CountPages,
    {
        (RenderSession { stage: RenderStage::Document, page_index }, RenderAction::CountPages)
    }

    /// The stage that the session has come to.
    pub fn stage(&self) -> (stage: RenderStage)
        ensures
            stage == self@.stage,
    {
        self.stage
    }

    /// Takes what came of the last action and says what to do next. An event
    /// that answers no action under way changes nothing and gives `None`.
    pub fn step(&mut self, event: RenderEvent) -> (action: Option<RenderAction>)
        ensures
            final(self)@.page_index == old(self)@.page_index,
            match transition(old(self)@.stage, old(self)@.page_index, event@) {
                Some((stage, expected)) => {
                    &&& final(self)@.stage == stage
                    &&& action matches Some(a)
                    &&& a@ == expected
                },
                None => final(self)@.stage == old(self)@.stage && action is None,
            },
    {
        match (self.stage, event) {
            (RenderStage::Document, RenderEvent::Counted { pages }) => {
                if self.page_index >= usize_as_i32(pages) {
                    self.stage = RenderStage::Done;
                    Some(RenderAction::Finish { outcome: Err(RenderError::PageOutOfRange) })
                } else {
                    self.stage = RenderStage::Page;
                    Some(RenderAction::RenderPage { page_index: self.page_index, zoom: ZOOM })
                }
            },
            (RenderStage::Page, RenderEvent::Rendered { width, height, samples }) => {
                self.stage = RenderStage::Done;
                match RgbRaster::from_raw(width, height, samples) {
                    Some(raster) => Some(RenderAction::Finish { outcome: Ok(raster) }),
                    None => Some(RenderAction::Finish { outcome: Err(RenderError::RgbBuffer) }),
                }
            },
            (RenderStage::Document, RenderEvent::Failed { message }) | (
                RenderStage::Page,
                RenderEvent::Failed { message },
            ) => {
                self.stage = RenderStage::Done;
                Some(RenderAction::Finish { outcome: Err(RenderError::Document(message)) })
            },
            _ => None,
        }
    }
}

} // verus!
