use vstd::prelude::*;

verus! {

/// The renderer backends that can draw the decorator.
#[derive(Clone, Copy, Debug, PartialEq, Eq, Structural)]
pub enum Backend {
    /// A GPU renderer whose frame is the draw context itself.
    Generic,
    /// A renderer that writes straight to a display; its frame embeds the
    /// generic GPU frame that carries the program override.
    DirectDisplay,
}

/// Where the program override is installed and cleared.
#[derive(Clone, Copy, Debug, PartialEq, Eq, Structural)]
pub enum FrameView {
    /// The frame handed to the draw call.
    Frame,
    /// The generic frame embedded in the frame handed to the draw call.
    EmbeddedFrame,
}

/// The phase of one draw call.
#[derive(Debug)]
pub enum DrawState<E> {
    /// The frame samples textures with its default program.
    Default,
    /// The override has been requested and not yet reported installed.
    Installing,
    /// The override is installed; the wrapped element draws.
    Overridden,
    /// The wrapped element finished with the held outcome; the override is
    /// being cleared.
    Restoring(Result<(), E>),
    /// The override is cleared and the outcome has been handed back.
    Finished,
}

/// What the backend reports after carrying out an action.
#[derive(Debug)]
pub enum DrawEvent<E> {
    /// The draw call starts.
    Begin,
    /// The override has been installed.
    OverrideInstalled,
    /// The wrapped element's draw returned this outcome.
    InnerDrawn(Result<(), E>),
    /// The override has been cleared.
    OverrideCleared,
}

/// What the backend is to do next.
#[derive(Debug)]
pub enum DrawAction<E> {
    /// Install the decorator's program and uniforms as the default texture
    /// program of the given frame.
    InstallOverride(FrameView),
    /// Draw the wrapped element with the caller's rectangles, unchanged.
    DrawInner,
    /// Clear the program override of the given frame.
    ClearOverride(FrameView),
    /// Return this outcome to the caller of the draw.
    Finish(Result<(), E>),
}

pub open spec fn frame_view_of(backend: Backend) -> FrameView {
    match backend {
        Backend::Generic => FrameView::Frame,
        Backend::DirectDisplay => FrameView::EmbeddedFrame,
    }
}

/// The frame that carries the override on a backend.
pub fn frame_view(backend: Backend) -> (r: FrameView)
    ensures
        r == frame_view_of(backend),
{
    match backend {
        Backend::Generic => FrameView::Frame,
        Backend::DirectDisplay => FrameView::EmbeddedFrame,
    }
}

/// Whether the decorator's program is installed on the frame in a state.
pub open spec fn override_active<E>(state: DrawState<E>) -> bool {
    state is Overridden || state is Restoring
}

/// One step of the override protocol: the next state and action, or `None`
/// where the event does not belong to the state.
pub open spec fn transition<E>(backend: Backend, state: DrawState<E>, event: DrawEvent<E>) -> Option<
    (DrawState<E>, DrawAction<E>),
> {
    match (state, event) {
        (DrawState::Default, DrawEvent::Begin) => Some(
            (DrawState::Installing, DrawAction::InstallOverride(frame_view_of(backend))),
        ),
        (DrawState::Installing, DrawEvent::OverrideInstalled) => Some(
            (DrawState::Overridden, DrawAction::DrawInner),
        ),
        (DrawState::Overridden, DrawEvent::InnerDrawn(outcome)) => Some(
            (DrawState::Restoring(outcome), DrawAction::ClearOverride(frame_view_of(backend))),
        ),
        (DrawState::Restoring(outcome), DrawEvent::OverrideCleared) => Some(
            (DrawState::Finished, DrawAction::Finish(outcome)),
        ),
        _ => None,
    }
}

/// The states and actions that a sequence of events produces from a state,
/// or `None` where one of the events is refused.
pub open spec fn run<E>(backend: Backend, state: DrawState<E>, events: Seq<DrawEvent<E>>) -> Option<
    Seq<(DrawState<E>, DrawAction<E>)>,
>
    decreases events.len(),
{
    if events.len() == 0 {
        Some(Seq::empty())
    } else {
        match transition(backend, state, events[0]) {
            Some((next, action)) => match run(backend, next, events.drop_first()) {
                Some(rest) => Some(seq![(next, action)] + rest),
                None => None,
            },
            None => None,
        }
    }
}

/// The events of a complete draw whose wrapped element returned `outcome`.
pub open spec fn draw_events<E>(outcome: Result<(), E>) -> Seq<DrawEvent<E>> {
    seq![
        DrawEvent::Begin,
        DrawEvent::OverrideInstalled,
        DrawEvent::InnerDrawn(outcome),
        DrawEvent::OverrideCleared,
    ]
}

/// The states and actions of a complete draw whose wrapped element returned
/// `outcome`.
pub open spec fn draw_steps<E>(backend: Backend, outcome: Result<(), E>) -> Seq<
    (DrawState<E>, DrawAction<E>),
> {
    run(backend, DrawState::Default, draw_events(outcome)).unwrap()
}

/// A complete draw installs the decorator's program once, on the backend's
/// frame, before the wrapped element draws, and clears it once, after the
/// wrapped element has returned. Then, and only then, it hands back the
/// wrapped element's outcome unchanged. The override is active while the
/// wrapped element draws and is gone when the draw has finished.
pub proof fn lemma_override_lifecycle<E>(backend: Backend, outcome: Result<(), E>)
    ensures
        run(backend, DrawState::Default, draw_events(outcome)) == Some(
            seq![
                (DrawState::Installing, DrawAction::InstallOverride(frame_view_of(backend))),
                (DrawState::Overridden, DrawAction::DrawInner),
                (DrawState::Restoring(outcome), DrawAction::ClearOverride(frame_view_of(backend))),
                (DrawState::<E>::Finished, DrawAction::Finish(outcome)),
            ],
        ),
        draw_steps(backend, outcome).len() == 4,
        forall|i: int|
            0 <= i < 4 ==> (#[trigger] draw_steps(backend, outcome)[i].1 is InstallOverride
                <==> i == 0),
        forall|i: int|
            0 <= i < 4 ==> (#[trigger] draw_steps(backend, outcome)[i].1 is ClearOverride
                <==> i == 2),
        forall|i: int|
            0 <= i < 4 ==> (#[trigger] draw_steps(backend, outcome)[i].1 is DrawInner <==> i
                == 1),
        override_active(draw_steps(backend, outcome)[1].0),
        !override_active(draw_steps(backend, outcome)[3].0),
        draw_steps(backend, outcome)[3].1 == DrawAction::Finish(outcome),
{
    let ev = draw_events(outcome);
    let v = frame_view_of(backend);
    let s3 = run(backend, DrawState::<E>::Finished, ev.drop_first().drop_first().drop_first().drop_first());
    assert(ev.drop_first().drop_first().drop_first().drop_first().len() == 0);
    assert(s3 == Some(Seq::<(DrawState<E>, DrawAction<E>)>::empty()));
    let t3 = ev.drop_first().drop_first().drop_first();
    assert(t3[0] == DrawEvent::<E>::OverrideCleared);
    let t2 = ev.drop_first().drop_first();
    assert(t2[0] == DrawEvent::InnerDrawn(outcome));
    assert(t2.drop_first() == t3);
    let t1 = ev.drop_first();
    assert(t1[0] == DrawEvent::<E>::OverrideInstalled);
    assert(t1.drop_first() == t2);
    assert(ev[0] == DrawEvent::<E>::Begin);
    let r3 = run(backend, DrawState::Restoring(outcome), t3);
    assert(r3 == Some(seq![(DrawState::<E>::Finished, DrawAction::Finish(outcome))]));
    let r2 = run(backend, DrawState::<E>::Overridden, t2);
    assert(r2 == Some(
        seq![(DrawState::Restoring(outcome), DrawAction::ClearOverride(v))] + r3.unwrap(),
    ));
    let r1 = run(backend, DrawState::<E>::Installing, t1);
    assert(r1 == Some(seq![(DrawState::<E>::Overridden, DrawAction::DrawInner)] + r2.unwrap()));
    let r0 = run(backend, DrawState::<E>::Default, ev);
    assert(r0 == Some(
        seq![(DrawState::<E>::Installing, DrawAction::InstallOverride(v))] + r1.unwrap(),
    ));
    assert(r0.unwrap() =~= seq![
        (DrawState::Installing, DrawAction::InstallOverride(v)),
        (DrawState::Overridden, DrawAction::DrawInner),
        (DrawState::Restoring(outcome), DrawAction::ClearOverride(v)),
        (DrawState::<E>::Finished, DrawAction::Finish(outcome)),
    ]);
}

/// When the wrapped element's draw fails, the override is cleared exactly
/// once, and the error is handed back to the caller, unchanged, only after
/// that clear.
pub proof fn lemma_error_propagated_after_restore<E>(backend: Backend, error: E)
    ensures
        ({
            let steps = draw_steps(backend, Err(error));
            &&& steps.len() == 4
            &&& steps[2].1 == DrawAction::<E>::ClearOverride(frame_view_of(backend))
            &&& forall|i: int| 0 <= i < 4 && #[trigger] steps[i].1 is ClearOverride ==> i == 2
            &&& steps[3].1 == DrawAction::<E>::Finish(Err(error))
            &&& forall|i: int| 0 <= i < 4 && #[trigger] steps[i].1 is Finish ==> i == 3
            &&& !override_active(steps[3].0)
        }),
{
    lemma_override_lifecycle(backend, Err::<(), E>(error));
}

/// The state machine of one draw call on one backend.
#[derive(Debug)]
pub struct DrawSession<E> {
    pub backend: Backend,
    pub state: DrawState<E>,
}

impl<E> DrawSession<E> {
    /// A draw call on `backend` that has not started: the frame carries no
    /// override of this decorator.
    pub fn new(backend: Backend) -> (r: Self)
        ensures
            r.backend == backend,
            r.state is Default,
    {
        DrawSession { backend, state: DrawState::Default }
    }

    /// Whether the decorator's program is installed on the frame.
    pub fn is_overridden(&self) -> (r: bool)
        ensures
            r == override_active(self.state),
    {
        match self.state {
            DrawState::Overridden | DrawState::Restoring(_) => true,
            _ => false,
        }
    }

    /// Takes the next event and returns the action to carry out. An event that
    /// does not belong to the current state is refused with `None` and changes
    /// nothing.
    pub fn on_event(&mut self, event: DrawEvent<E>) -> (r: Option<DrawAction<E>>)
        ensures
            final(self).backend == old(self).backend,
            match transition(old(self).backend, old(self).state, event) {
                Some((next, action)) => final(self).state == next && r == Some(action),
                None => r is None && final(self).state == old(self).state,
            },
    {
        let mut state = DrawState::Finished;
        core::mem::swap(&mut state, &mut self.state);
        match (state, event) {
            (DrawState::Default, DrawEvent::Begin) => {
                self.state = DrawState::Installing;
                Some(DrawAction::InstallOverride(frame_view(self.backend)))
            },
            (DrawState::Installing, DrawEvent::OverrideInstalled) => {
                self.state = DrawState::Overridden;
                Some(DrawAction::DrawInner)
            },
            (DrawState::Overridden, DrawEvent::InnerDrawn(outcome)) => {
                self.state = DrawState::Restoring(outcome);
                Some(DrawAction::ClearOverride(frame_view(self.backend)))
            },
            (DrawState::Restoring(outcome), DrawEvent::OverrideCleared) => {
                self.state = DrawState::Finished;
                Some(DrawAction::Finish(outcome))
            },
            (state, _) => {
                self.state = state;
                None
            },
        }
    }
}

} // verus!
