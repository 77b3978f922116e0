//! Recognising the text of one page: what to ask of the bitmap library and
//! of the recognition engine, in which order, and what to make of each
//! answer.
//!
//! The session owns no handle of either library. The caller performs each
//! [`OcrAction`] and reports what came of it as an [`OcrEvent`].

use crate::bits::{same_bits_i32, u32_as_i32};
use crate::pix::{pack_rows, packed_words, rows_fit, BITS_PER_PIXEL};
use crate::raster::{GrayRaster, RasterView};
use vstd::prelude::*;
use vstd::utf8::{decode_utf8, valid_utf8};

verus! {

/// Resolution, in dots per inch, that the engine is told the page has.
pub const SOURCE_DPI: i32 = 300;

/// Why a page gave no text.
#[derive(Clone, Copy, Debug, PartialEq, Eq, Structural)]
pub enum OcrError {
    /// The bitmap library gave no bitmap, or one too small for the page.
    PixCreate,
    /// The engine did not start.
    EngineInit,
    /// The engine's text is not UTF-8.
    InvalidText,
}

impl OcrError {
    /// The text of [`OcrError::message`].
    pub open spec fn spec_message(self) -> Seq<char> {
        match self {
            OcrError::PixCreate => "Falha ao criar PIX"@,
            OcrError::EngineInit => "Falha ao inicializar Tesseract"@,
            OcrError::InvalidText => "Texto OCR inválido"@,
        }
    }

    /// What to tell the user.
    pub fn message(&self) -> (s: String)
        ensures
            s@ == self.spec_message(),
    {
        match self {
            OcrError::PixCreate => "Falha ao criar PIX".to_owned(),
            OcrError::EngineInit => "Falha ao inicializar Tesseract".to_owned(),
            OcrError::InvalidText => "Texto OCR inválido".to_owned(),
        }
    }
}

/// The language that the engine is started for.
pub open spec fn spec_language() -> Seq<char> {
    "por"@
}

/// The language that the engine is started for.
pub fn language() -> (s: String)
    ensures
        s@ == spec_language(),
{
    "por".to_owned()
}

/// Calls `String::from_utf8` and drops the error's detail.
///
/// Trusted: the call succeeds exactly on well-formed UTF-8, and the string
/// then holds the characters that the bytes encode.
#[verifier::external_body]
fn string_from_utf8(bytes: Vec<u8>) -> (r: Option<String>)
    ensures
        r is Some <==> valid_utf8(bytes@),
        r matches Some(s) ==> s@ == decode_utf8(bytes@),
{
    String::from_utf8(bytes).ok()
}

/// What [`decode_text`] makes of the engine's answer: no text at all counts
/// as empty text, bytes that are UTF-8 are their characters, other bytes are
/// an error.
pub open spec fn decoded(bytes: Option<Seq<u8>>) -> Result<Seq<char>, OcrError> {
    match bytes {
        None => Ok(Seq::empty()),
        Some(b) => if valid_utf8(b) {
            Ok(decode_utf8(b))
        } else {
            Err(OcrError::InvalidText)
        },
    }
}

/// The view of an optional byte buffer.
pub open spec fn bytes_view(bytes: Option<Vec<u8>>) -> Option<Seq<u8>> {
    match bytes {
        None => None,
        Some(b) => Some(b@),
    }
}

/// The view of a text or an error.
pub open spec fn outcome_view(outcome: Result<String, OcrError>) -> Result<Seq<char>, OcrError> {
    match outcome {
        Ok(s) => Ok(s@),
        Err(e) => Err(e),
    }
}

/// Turns the engine's answer into text: `bytes` is what the engine handed
/// out, without the terminating zero, or `None` where it handed out nothing.
pub fn decode_text(bytes: Option<Vec<u8>>) -> (r: Result<String, OcrError>)
    ensures
        outcome_view(r) == decoded(bytes_view(bytes)),
{
    match bytes {
        None => Ok(String::new()),
        Some(b) => match string_from_utf8(b) {
            Some(s) => Ok(s),
            None => Err(OcrError::InvalidText),
        },
    }
}

/// How far a session has come.
#[derive(Clone, Copy, Debug, PartialEq, Eq, Structural)]
pub enum OcrStage {
    /// The bitmap was asked for.
    Bitmap,
    /// The engine was asked to start.
    Engine,
    /// The text was asked for.
    Text,
    /// The outcome was handed out.
    Done,
}

/// What came of the last action.
#[derive(Debug, PartialEq, Eq)]
pub enum OcrEvent {
    /// The bitmap library made a bitmap whose rows are `words_per_line`
    /// 32-bit words long.
    PixCreated { words_per_line: i32 },
    /// The bitmap library made no bitmap.
    PixRefused,
    /// The engine's start returned `status`.
    EngineStarted { status: i32 },
    /// The engine handed out these bytes, or nothing.
    TextRead { bytes: Option<Vec<u8>> },
}

/// What to do next.
#[derive(Debug, PartialEq, Eq)]
pub enum OcrAction {
    /// Ask the bitmap library for a bitmap of this size and depth.
    CreatePix { width: i32, height: i32, depth: i32 },
    /// Copy `rows`, word for word, over the bitmap's data, then start the
    /// engine for `language`.
    StartEngine { rows: Vec<u32>, language: String },
    /// Give the bitmap to the engine, tell it the resolution and ask for the
    /// text.
    Recognize { dpi: i32 },
    /// Nothing more: this is the page's text, or why there is none.
    Finish { outcome: Result<String, OcrError> },
}

/// An [`OcrEvent`] with its bytes as a sequence.
pub enum OcrEventView {
    PixCreated { words_per_line: int },
    PixRefused,
    EngineStarted { status: int },
    TextRead { bytes: Option<Seq<u8>> },
}

/// An [`OcrAction`] with its words and texts as sequences.
pub enum OcrActionView {
    CreatePix { width: int, height: int, depth: int },
    StartEngine { rows: Seq<u32>, language: Seq<char> },
    Recognize { dpi: int },
    Finish { outcome: Result<Seq<char>, OcrError> },
}

impl View for OcrEvent {
    type V = OcrEventView;

    open spec fn view(&self) -> OcrEventView {
        match *self {
            OcrEvent::PixCreated { words_per_line } => OcrEventView::PixCreated {
                words_per_line: words_per_line as int,
            },
            OcrEvent::PixRefused => OcrEventView::PixRefused,
            OcrEvent::EngineStarted { status } => OcrEventView::EngineStarted {
                status: status as int,
            },
            OcrEvent::TextRead { bytes } => OcrEventView::TextRead { bytes: bytes_view(bytes) },
        }
    }
}

impl View for OcrAction {
    type V = OcrActionView;

    open spec fn view(&self) -> OcrActionView {
        match *self {
            OcrAction::CreatePix { width, height, depth } => OcrActionView::CreatePix {
                width: width as int,
                height: height as int,
                depth: depth as int,
            },
            OcrAction::StartEngine { rows, language } => OcrActionView::StartEngine {
                rows: rows@,
                language: language@,
            },
            OcrAction::Recognize { dpi } => OcrActionView::Recognize { dpi: dpi as int },
            OcrAction::Finish { outcome } => OcrActionView::Finish {
                outcome: outcome_view(outcome),
            },
        }
    }
}

/// The request that opens a session on the raster `b`: a bitmap of the
/// raster's size, each size with its 32 bits read as a signed number.
pub open spec fn first_action(b: RasterView) -> OcrActionView {
    OcrActionView::CreatePix {
        width: same_bits_i32(b.width),
        height: same_bits_i32(b.height),
        depth: BITS_PER_PIXEL as int,
    }
}

/// What an event leads to, in a session on the raster `b` that has come to
/// `stage`: the next stage and the next action, or `None` where the event
/// answers no action that is under way.
///
/// A bitmap whose rows cannot take the raster counts as no bitmap.
pub open spec fn transition(stage: OcrStage, b: RasterView, event: OcrEventView) -> Option<
    (OcrStage, OcrActionView),
> {
    match (stage, event) {
        (OcrStage::Bitmap, OcrEventView::PixRefused) => Some(
            (OcrStage::Done, OcrActionView::Finish { outcome: Err(OcrError::PixCreate) }),
        ),
        (OcrStage::Bitmap, OcrEventView::PixCreated { words_per_line }) => if rows_fit(
            b,
            words_per_line,
        ) {
            Some(
                (
                    OcrStage::Engine,
                    OcrActionView::StartEngine {
                        rows: packed_words(b, words_per_line),
                        language: spec_language(),
                    },
                ),
            )
        } else {
            Some((OcrStage::Done, OcrActionView::Finish { outcome: Err(OcrError::PixCreate) }))
        },
        (OcrStage::Engine, OcrEventView::EngineStarted { status }) => if status == 0 {
            Some((OcrStage::Text, OcrActionView::Recognize { dpi: SOURCE_DPI as int }))
        } else {
            Some((OcrStage::Done, OcrActionView::Finish { outcome: Err(OcrError::EngineInit) }))
        },
        (OcrStage::Text, OcrEventView::TextRead { bytes }) => Some(
            (OcrStage::Done, OcrActionView::Finish { outcome: decoded(bytes) }),
        ),
        _ => None,
    }
}

/// The place of a stage in the order in which a session passes them.
pub open spec fn stage_rank(stage: OcrStage) -> nat {
    match stage {
        OcrStage::Bitmap => 0,
        OcrStage::Engine => 1,
        OcrStage::Text => 2,
        OcrStage::Done => 3,
    }
}

/// Every event that is answered moves the session on to a later stage; the
/// session is over exactly when the answer is `Finish`, and once it is over
/// no event is answered. Text comes only from the stage that waits for it.
pub proof fn lemma_transition_moves_on(stage: OcrStage, b: RasterView, event: OcrEventView)
    ensures
        transition(stage, b, event) matches Some((next, action)) ==> {
            &&& stage_rank(next) > stage_rank(stage)
            &&& next == OcrStage::Done <==> action is Finish
            &&& action matches OcrActionView::Finish { outcome: Ok(_) } ==> stage == OcrStage::Text
        },
        stage == OcrStage::Done ==> transition(stage, b, event) is None,
{
}

/// The recognition of one page, from the luma raster to the text.
#[derive(Debug)]
pub struct OcrSession {
    stage: OcrStage,
    gray: GrayRaster,
}

/// What a session is: the raster it works on and the stage it has come to.
pub struct OcrSessionView {
    pub stage: OcrStage,
    pub raster: RasterView,
}

impl View for OcrSession {
    type V = OcrSessionView;

    closed spec fn view(&self) -> OcrSessionView {
        OcrSessionView { stage: self.stage, raster: self.gray@ }
    }
}

impl OcrSession {
    /// Opens a session on `gray` and asks for the bitmap.
    pub fn start(gray: GrayRaster) -> (r: (OcrSession, OcrAction))
        ensures
            r.0@ == (OcrSessionView { stage: OcrStage::Bitmap, raster: gray@ }),
            r.1@ == first_action(gray@),
    {
        let action = OcrAction::CreatePix {
            width: u32_as_i32(gray.width()),
            height: u32_as_i32(gray.height()),
            depth: BITS_PER_PIXEL,
        };
        (OcrSession { stage: OcrStage::Bitmap, gray }, action)
    }

    /// The stage that the session has come to.
    pub fn stage(&self) -> (stage: OcrStage)
        ensures
            stage == self@.stage,
    {
        self.stage
    }

    /// Takes what came of the last action and says what to do next. An event
    /// that answers no action under way changes nothing and gives `None`.
    pub fn step(&mut self, event: OcrEvent) -> (action: Option<OcrAction>)
        ensures
            final(self)@.raster == old(self)@.raster,
            match transition(old(self)@.stage, old(self)@.raster, event@) {
                Some((stage, expected)) => {
                    &&& final(self)@.stage == stage
                    &&& action matches Some(a)
                    &&& a@ == expected
                },
                None => final(self)@.stage == old(self)@.stage && action is None,
            },
    {
        match (self.stage, event) {
            (OcrStage::Bitmap, OcrEvent::PixRefused) => {
                self.stage = OcrStage::Done;
                Some(OcrAction::Finish { outcome: Err(OcrError::PixCreate) })
            },
            (OcrStage::Bitmap, OcrEvent::PixCreated { words_per_line }) => {
                match pack_rows(&self.gray, words_per_line) {
                    Some(rows) => {
                        self.stage = OcrStage::Engine;
                        Some(OcrAction::StartEngine { rows, language: language() })
                    },
                    None => {
                        self.stage = OcrStage::Done;
                        Some(OcrAction::Finish { outcome: Err(OcrError::PixCreate) })
                    },
                }
            },
            (OcrStage::Engine, OcrEvent::EngineStarted { status }) => {
                if status == 0 {
                    self.stage = OcrStage::Text;
                    Some(OcrAction::Recognize { dpi: SOURCE_DPI })
                } else {
                    self.stage = OcrStage::Done;
                    Some(OcrAction::Finish { outcome: Err(OcrError::EngineInit) })
                }
            },
            (OcrStage::Text, OcrEvent::TextRead { bytes }) => {
                self.stage = OcrStage::Done;
                Some(OcrAction::Finish { outcome: decode_text(bytes) })
            },
            _ => None,
        }
    }
}

} // verus!
