use vstd::prelude::*;

verus! {

/// The events of the host run loop that the application reacts to.
#[derive(Clone, Copy, Debug, PartialEq, Eq, Structural)]
pub enum LoopEvent {
    /// The loop is idle and a frame may be drawn.
    Idle,
    /// The window was asked to close.
    CloseRequested,
    /// Anything else.
    Other,
}

/// What the run loop does in response to an event.
#[derive(Clone, Copy, Debug, PartialEq, Eq, Structural)]
pub enum LoopAction {
    Render,
    DestroyAndExit,
    Nothing,
}

/// The run loop's own state: whether teardown has begun.
#[derive(Clone, Copy, Debug, PartialEq, Eq, Structural)]
pub struct RunLoop {
    pub destroying: bool,
}

/// The action for an event, given whether teardown has begun.
pub open spec fn loop_action(destroying: bool, e: LoopEvent) -> LoopAction {
    match e {
        LoopEvent::Idle => if destroying {
            LoopAction::Nothing
        } else {
            LoopAction::Render
        },
        LoopEvent::CloseRequested => if destroying {
            LoopAction::Nothing
        } else {
            LoopAction::DestroyAndExit
        },
        LoopEvent::Other => LoopAction::Nothing,
    }
}

impl RunLoop {
    pub fn new() -> (r: RunLoop)
        ensures
            !r.destroying,
    {
        RunLoop { destroying: false }
    }

    /// Decides what to do with an event; the destroying flag is set in the same
    /// step that issues the teardown, and no frame is rendered after it.
    pub fn on_event(&mut self, e: LoopEvent) -> (r: LoopAction)
        ensures
            r == loop_action(old(self).destroying, e),
            final(self).destroying == (old(self).destroying || e == LoopEvent::CloseRequested),
    {
        let r = match e {
            LoopEvent::Idle => if self.destroying {
                LoopAction::Nothing
            } else {
                LoopAction::Render
            },
            LoopEvent::CloseRequested => if self.destroying {
                LoopAction::Nothing
            } else {
                LoopAction::DestroyAndExit
            },
            LoopEvent::Other => LoopAction::Nothing,
        };
        if e == LoopEvent::CloseRequested {
            self.destroying = true;
        }
        r
    }
}

/// Once teardown has begun, no event leads to a render or a second teardown.
pub proof fn lemma_no_render_after_destroy(e: LoopEvent)
    ensures
        loop_action(true, e) == LoopAction::Nothing,
{
}

} // verus!
