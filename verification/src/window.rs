use vstd::prelude::*;
use crate::application::{create_window_post, count_creates, AppState, NativeEnv};
use crate::error::WindowError;
use crate::instruction::Instruction;

verus! {

/// The client-facing handle to one registry entry: a plain identifier,
/// resolved through the registry at operation time. Holding a handle gives
/// a client thread no access to the window itself — every operation goes
/// through an enqueued instruction — so a handle can be carried and copied
/// freely across threads. After a destroy request the identifier is stale:
/// anything that still names it is answered with `UnknownWindow`.
#[derive(Debug, Clone, Copy, PartialEq, Eq, Structural)]
pub struct Window {
    managed_window_id: i32,
}

impl Window {
    /// The identifier this handle names.
    pub closed spec fn id_spec(self) -> i32 {
        self.managed_window_id
    }

    /// Create a window: enqueue the request and wait until the owner thread
    /// has executed it, then wrap the fresh identifier it answered with.
    /// Synchronous from the client's point of view; see
    /// [`AppState::create_window`] for the full contract.
    pub fn new(
        app: &mut AppState,
        width: u32,
        height: u32,
        title: &str,
        fullscreen: bool,
        env: NativeEnv,
    ) -> (result: Result<Window, WindowError>)
        requires
            old(app)@.running,
            old(app)@.registry.wf(),
            old(app)@.registry.next_id + count_creates(old(app)@.queue) + 1 <= i32::MAX,
        ensures
            match result {
                Ok(window) => create_window_post(
                    old(app)@,
                    final(app)@,
                    Ok(window.id_spec()),
                    width,
                    height,
                    title@,
                    fullscreen,
                    env,
                ),
                Err(e) => create_window_post(
                    old(app)@,
                    final(app)@,
                    Err(e),
                    width,
                    height,
                    title@,
                    fullscreen,
                    env,
                ),
            },
    {
        match app.create_window(width, height, title, fullscreen, env) {
            Ok(id) => Ok(Window { managed_window_id: id }),
            Err(e) => Err(e),
        }
    }

    /// The identifier this handle names.
    pub fn id(&self) -> (id: i32)
        ensures
            id == self.id_spec(),
    {
        self.managed_window_id
    }

    /// Destroy the window behind this handle, fire-and-forget: the consumed
    /// handle's identifier joins the queue as a destroy request. Idempotent
    /// at execution time, and safe after the owner thread has already torn
    /// the window down: a stale identifier makes the request a no-op.
    pub fn kill(self, app: &mut AppState)
        ensures
            final(app)@.queue == old(app)@.queue.push(
                Instruction::DestroyWindow { id: self.id_spec() },
            ),
            final(app)@.registry == old(app)@.registry,
            final(app)@.phase == old(app)@.phase,
            final(app)@.running == old(app)@.running,
    {
        app.destroy_window(self.managed_window_id);
    }
}

} // verus!
