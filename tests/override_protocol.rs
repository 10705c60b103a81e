use saturated_surface::{
    frame_view, Backend, DrawAction, DrawEvent, DrawSession, DrawState, FrameView,
};

#[derive(Debug, PartialEq, Eq)]
enum Call {
    Install(FrameView),
    InnerDraw { overridden: bool },
    Clear(FrameView),
}

/// A frame that records every override install and clear, and a wrapped
/// element whose draw returns `inner_result`.
struct RecordingFrame {
    calls: Vec<Call>,
    overridden: bool,
}

fn draw(backend: Backend, inner_result: Result<(), String>) -> (Result<(), String>, Vec<Call>, bool) {
    let mut frame = RecordingFrame { calls: Vec::new(), overridden: false };
    let mut session: DrawSession<String> = DrawSession::new(backend);
    let mut event = DrawEvent::Begin;
    let mut pending = Some(inner_result);
    loop {
        match session.on_event(event).expect("event in order") {
            DrawAction::InstallOverride(view) => {
                frame.calls.push(Call::Install(view));
                frame.overridden = true;
                event = DrawEvent::OverrideInstalled;
            }
            DrawAction::DrawInner => {
                frame.calls.push(Call::InnerDraw { overridden: frame.overridden });
                assert!(session.is_overridden());
                event = DrawEvent::InnerDrawn(pending.take().unwrap());
            }
            DrawAction::ClearOverride(view) => {
                frame.calls.push(Call::Clear(view));
                frame.overridden = false;
                event = DrawEvent::OverrideCleared;
            }
            DrawAction::Finish(result) => {
                assert!(!session.is_overridden());
                assert!(matches!(session.state, DrawState::Finished));
                return (result, frame.calls, frame.overridden);
            }
        }
    }
}

#[test]
fn successful_draw_installs_once_before_and_clears_once_after() {
    let (result, calls, overridden) = draw(Backend::Generic, Ok(()));
    assert_eq!(result, Ok(()));
    assert_eq!(
        calls,
        vec![
            Call::Install(FrameView::Frame),
            Call::InnerDraw { overridden: true },
            Call::Clear(FrameView::Frame),
        ]
    );
    assert!(!overridden);
}

#[test]
fn failed_draw_clears_once_before_the_error_is_returned() {
    let (result, calls, overridden) = draw(Backend::Generic, Err(String::from("texture lost")));
    assert_eq!(result, Err(String::from("texture lost")));
    assert_eq!(
        calls,
        vec![
            Call::Install(FrameView::Frame),
            Call::InnerDraw { overridden: true },
            Call::Clear(FrameView::Frame),
        ]
    );
    assert!(!overridden);
}

#[test]
fn direct_display_draw_goes_through_the_embedded_frame() {
    for inner in [Ok(()), Err(String::from("drm"))] {
        let (result, calls, overridden) = draw(Backend::DirectDisplay, inner.clone());
        assert_eq!(result, inner);
        assert_eq!(
            calls,
            vec![
                Call::Install(FrameView::EmbeddedFrame),
                Call::InnerDraw { overridden: true },
                Call::Clear(FrameView::EmbeddedFrame),
            ]
        );
        assert!(!overridden);
    }
}

#[test]
fn frame_view_per_backend() {
    assert_eq!(frame_view(Backend::Generic), FrameView::Frame);
    assert_eq!(frame_view(Backend::DirectDisplay), FrameView::EmbeddedFrame);
}

#[test]
fn out_of_order_events_are_refused_and_change_nothing() {
    let mut session: DrawSession<u8> = DrawSession::new(Backend::Generic);
    assert!(!session.is_overridden());
    assert!(session.on_event(DrawEvent::OverrideCleared).is_none());
    assert!(matches!(session.state, DrawState::Default));
    assert!(session.on_event(DrawEvent::InnerDrawn(Ok(()))).is_none());
    assert!(matches!(session.state, DrawState::Default));

    assert!(matches!(session.on_event(DrawEvent::Begin), Some(DrawAction::InstallOverride(FrameView::Frame))));
    assert!(session.on_event(DrawEvent::Begin).is_none());
    assert!(matches!(session.state, DrawState::Installing));
    assert!(!session.is_overridden());

    assert!(matches!(session.on_event(DrawEvent::OverrideInstalled), Some(DrawAction::DrawInner)));
    assert!(session.is_overridden());
    assert!(session.on_event(DrawEvent::OverrideCleared).is_none());
    assert!(session.is_overridden());

    assert!(matches!(session.on_event(DrawEvent::InnerDrawn(Err(3))), Some(DrawAction::ClearOverride(FrameView::Frame))));
    assert!(matches!(session.state, DrawState::Restoring(Err(3))));
    assert!(session.is_overridden());

    assert!(matches!(session.on_event(DrawEvent::OverrideCleared), Some(DrawAction::Finish(Err(3)))));
    assert!(session.on_event(DrawEvent::Begin).is_none());
    assert!(matches!(session.state, DrawState::Finished));
}
