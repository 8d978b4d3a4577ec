//! The engine: one platform and one window manager, driven one tick at a
//! time.

use vstd::prelude::*;

use crate::exit::{ExitManager, ExitState};
use crate::manager::{CreateWindowError, WindowManager};
use crate::platform::{OsLoopInputs, Platform};
use crate::window::{WindowAttributes, WindowId};

verus! {

/// Owns the platform backend, the window manager and the exit signal
/// channel.
#[verifier::reject_recursive_types(P)]
pub struct Engine<P: Platform> {
    platform: P,
    loop_inputs: OsLoopInputs<P::NativeWindow>,
}

impl<P: Platform> Engine<P> {
    /// The engine's window manager.
    pub closed spec fn manager(&self) -> WindowManager<P::NativeWindow> {
        self.loop_inputs.window_manager
    }

    /// The engine's exit signal channel.
    pub closed spec fn exit(&self) -> ExitManager {
        self.loop_inputs.exit_manager
    }

    /// The engine's platform backend.
    pub closed spec fn backend(&self) -> P {
        self.platform
    }

    /// The window manager is well formed.
    pub open spec fn wf(&self) -> bool {
        self.manager().wf()
    }

    /// An engine over `platform`, with no window and a `Running` channel.
    pub fn new(platform: P) -> (r: Self)
        ensures
            r.wf(),
            r.backend() == platform,
            r.manager().next_id() == 0,
            r.manager().alive() == Set::<u32>::empty(),
            r.exit().state() is Running,
    {
        let r = Engine {
            platform,
            loop_inputs: OsLoopInputs { window_manager: WindowManager::new(), exit_manager: ExitManager::new() },
        };
        proof {
            assert(r.manager().alive() =~= Set::<u32>::empty());
        }
        r
    }

    /// The platform backend.
    pub fn platform(&self) -> (r: &P)
        ensures
            *r == self.backend(),
    {
        &self.platform
    }

    /// The window manager.
    pub fn window_manager(&self) -> (r: &WindowManager<P::NativeWindow>)
        ensures
            *r == self.manager(),
    {
        &self.loop_inputs.window_manager
    }

    /// Creates a window through the window manager (see
    /// `WindowManager::create_window`).
    pub fn create_window(&mut self, window_attributes: WindowAttributes) -> (r: Result<WindowId, CreateWindowError>)
        requires
            old(self).wf(),
        ensures
            final(self).wf(),
            WindowManager::creates(&old(self).manager(), &final(self).manager(), r),
            final(self).exit() == old(self).exit(),
    {
        self.loop_inputs.window_manager.create_window(window_attributes, &self.platform)
    }

    /// One tick: pump the platform's native events, make one teardown
    /// attempt on every window left dying by the pump (see
    /// `WindowManager::reconciles`), then read and reset the exit state.
    /// The result is what the pump left in the channel, with an error's
    /// diagnostic dropped; the channel is left `Running`.
    pub fn process_events(&mut self) -> (r: ExitState)
        requires
            old(self).wf(),
        ensures
            final(self).wf(),
            final(self).exit().state() is Running,
            final(self).manager().next_id() >= old(self).manager().next_id(),
            exists|pumped: WindowManager<P::NativeWindow>|
                {
                    &&& pumped.wf()
                    &&& pumped.next_id() >= old(self).manager().next_id()
                    &&& #[trigger] WindowManager::reconciles(&pumped, &final(self).manager())
                },
            !(r is ExitError),
    {
        self.platform.process_events(&mut self.loop_inputs);
        let ghost pumped = self.loop_inputs.window_manager;
        self.loop_inputs.window_manager.update();
        proof {
            assert(WindowManager::reconciles(&pumped, &self.manager()));
        }
        self.loop_inputs.exit_manager.take_exit_state()
    }
}

} // verus!
