use pdf_ocr::raster::RgbRaster;
use pdf_ocr::render::{
    RenderAction, RenderError, RenderEvent, RenderSession, RenderStage, ZOOM,
};

#[test]
fn each_render_error_has_its_message() {
    assert_eq!(RenderError::PageOutOfRange.message(), "Número da página fora do intervalo");
    assert_eq!(RenderError::RgbBuffer.message(), "Falha ao criar imagem RGB");
    assert_eq!(RenderError::Document("no such file".to_string()).message(), "no such file");
    assert_eq!(RenderError::Document(String::new()).message(), "");
}

#[test]
fn pages_are_rendered_at_twice_their_size() {
    assert_eq!(ZOOM, 2);
}

#[test]
fn a_render_session_opens_by_counting_the_pages() {
    let (session, action) = RenderSession::start(4);
    assert_eq!(session.stage(), RenderStage::Document);
    assert_eq!(action, RenderAction::CountPages);
}

#[test]
fn a_page_below_the_count_is_rendered() {
    let (mut session, _) = RenderSession::start(2);
    let action = session.step(RenderEvent::Counted { pages: 3 });
    assert_eq!(action, Some(RenderAction::RenderPage { page_index: 2, zoom: 2 }));
    assert_eq!(session.stage(), RenderStage::Page);
    let (mut session, _) = RenderSession::start(0);
    let action = session.step(RenderEvent::Counted { pages: 1 });
    assert_eq!(action, Some(RenderAction::RenderPage { page_index: 0, zoom: 2 }));
}

#[test]
fn a_page_at_or_above_the_count_is_out_of_range() {
    let (mut session, _) = RenderSession::start(3);
    let action = session.step(RenderEvent::Counted { pages: 3 });
    assert_eq!(action, Some(RenderAction::Finish { outcome: Err(RenderError::PageOutOfRange) }));
    assert_eq!(session.stage(), RenderStage::Done);
    let (mut session, _) = RenderSession::start(0);
    let action = session.step(RenderEvent::Counted { pages: 0 });
    assert_eq!(action, Some(RenderAction::Finish { outcome: Err(RenderError::PageOutOfRange) }));
    let (mut session, _) = RenderSession::start(i32::MAX);
    let action = session.step(RenderEvent::Counted { pages: 0x7FFF_FFFF });
    assert_eq!(action, Some(RenderAction::Finish { outcome: Err(RenderError::PageOutOfRange) }));
}

#[test]
fn a_negative_page_index_is_left_to_the_pdf_library() {
    let (mut session, _) = RenderSession::start(-1);
    let action = session.step(RenderEvent::Counted { pages: 3 });
    assert_eq!(action, Some(RenderAction::RenderPage { page_index: -1, zoom: 2 }));
    let (mut session, _) = RenderSession::start(-1);
    let action = session.step(RenderEvent::Counted { pages: 0 });
    assert_eq!(action, Some(RenderAction::RenderPage { page_index: -1, zoom: 2 }));
}

#[test]
fn a_count_is_read_as_a_signed_number() {
    let (mut session, _) = RenderSession::start(0);
    let action = session.step(RenderEvent::Counted { pages: 0xFFFF_FFFF });
    assert_eq!(action, Some(RenderAction::Finish { outcome: Err(RenderError::PageOutOfRange) }));
    let (mut session, _) = RenderSession::start(-2);
    let action = session.step(RenderEvent::Counted { pages: 0xFFFF_FFFF });
    assert_eq!(action, Some(RenderAction::RenderPage { page_index: -2, zoom: 2 }));
}

#[test]
fn a_document_that_does_not_open_ends_the_session() {
    let (mut session, _) = RenderSession::start(0);
    let action = session.step(RenderEvent::Failed { message: "invalid pdf document".to_string() });
    assert_eq!(
        action,
        Some(RenderAction::Finish {
            outcome: Err(RenderError::Document("invalid pdf document".to_string())),
        })
    );
    assert_eq!(session.stage(), RenderStage::Done);
}

#[test]
fn a_page_that_does_not_render_ends_the_session() {
    let (mut session, _) = RenderSession::start(1);
    session.step(RenderEvent::Counted { pages: 2 });
    let action = session.step(RenderEvent::Failed { message: "cannot load page".to_string() });
    assert_eq!(
        action,
        Some(RenderAction::Finish {
            outcome: Err(RenderError::Document("cannot load page".to_string())),
        })
    );
    assert_eq!(session.stage(), RenderStage::Done);
}

#[test]
fn a_rendered_page_becomes_a_raster() {
    let (mut session, _) = RenderSession::start(1);
    session.step(RenderEvent::Counted { pages: 2 });
    let samples = vec![1, 2, 3, 4, 5, 6, 7, 8, 9, 10, 11, 12];
    let action =
        session.step(RenderEvent::Rendered { width: 2, height: 2, samples: samples.clone() });
    let expected = RgbRaster::from_raw(2, 2, samples).unwrap();
    assert_eq!(action, Some(RenderAction::Finish { outcome: Ok(expected) }));
    assert_eq!(session.stage(), RenderStage::Done);
}

#[test]
fn samples_too_few_for_the_page_are_an_error() {
    let (mut session, _) = RenderSession::start(0);
    session.step(RenderEvent::Counted { pages: 1 });
    let action = session.step(RenderEvent::Rendered { width: 2, height: 2, samples: vec![0; 11] });
    assert_eq!(action, Some(RenderAction::Finish { outcome: Err(RenderError::RgbBuffer) }));
    assert_eq!(session.stage(), RenderStage::Done);
}

#[test]
fn a_render_event_out_of_turn_changes_nothing() {
    let (mut session, _) = RenderSession::start(0);
    let early = RenderEvent::Rendered { width: 1, height: 1, samples: vec![0; 3] };
    assert_eq!(session.step(early), None);
    assert_eq!(session.stage(), RenderStage::Document);
    session.step(RenderEvent::Counted { pages: 1 });
    assert_eq!(session.step(RenderEvent::Counted { pages: 1 }), None);
    assert_eq!(session.stage(), RenderStage::Page);
}

#[test]
fn a_finished_render_session_takes_no_event() {
    let (mut session, _) = RenderSession::start(5);
    session.step(RenderEvent::Counted { pages: 1 });
    assert_eq!(session.stage(), RenderStage::Done);
    assert_eq!(session.step(RenderEvent::Counted { pages: 9 }), None);
    assert_eq!(session.step(RenderEvent::Failed { message: String::new() }), None);
    let late = RenderEvent::Rendered { width: 1, height: 1, samples: vec![0; 3] };
    assert_eq!(session.step(late), None);
    assert_eq!(session.stage(), RenderStage::Done);
}
