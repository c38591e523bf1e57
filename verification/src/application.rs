use vstd::prelude::*;
use crate::error::WindowError;
use crate::instruction::{mode_spec, resolve_mode, Instruction};
use crate::queue::InstructionQueue;
use crate::registry::{RegistryView, WindowRecord, WindowRegistry};

verus! {

/// The lifecycle of the application loop.
#[derive(Debug, Clone, Copy, PartialEq, Eq, Structural)]
pub enum Phase {
    /// The loop has not been entered yet.
    NotStarted,
    /// The loop is polling the native context and draining the queue.
    Running,
    /// Shutdown was requested; the loop will observe it at the top of its
    /// next iteration.
    Stopping,
    /// The loop has exited and the native context was torn down.
    Terminated,
}

/// What the native windowing capability answers during one drain pass: its
/// replies enter the verified code as these plain values. The unverified
/// runtime reads them off the real context; the model keeps them fixed for
/// the instructions of a single pass.
#[derive(Debug, Clone, Copy, PartialEq, Eq, Structural)]
pub struct NativeEnv {
    /// Whether a primary monitor is available.
    pub monitor_available: bool,
    /// Whether the native call that creates a window succeeds.
    pub window_creation_succeeds: bool,
}

/// What executing one instruction reports back to its originator.
#[derive(Debug, Clone, Copy, PartialEq, Eq, Structural)]
pub enum Outcome {
    /// A window was created and registered under this fresh identifier.
    Created { id: i32 },
    /// The native call that creates a window failed; nothing was registered.
    CreationFailed,
    /// The identifier was removed from the registry (a no-op if absent).
    Destroyed { id: i32 },
    /// The custom action ran against a live window.
    Used { id: i32, action: u64 },
    /// The custom action named an identifier with no live entry.
    Missing { id: i32, action: u64 },
}

/// The record a create request leaves in the registry.
pub open spec fn record_spec(
    width: u32,
    height: u32,
    title: String,
    fullscreen: bool,
    env: NativeEnv,
) -> WindowRecord {
    WindowRecord { width, height, title, mode: mode_spec(fullscreen, env.monitor_available) }
}

/// Executing one instruction performs exactly one state transition on the
/// registry and reports one outcome.
pub open spec fn step_spec(s: RegistryView, instruction: Instruction, env: NativeEnv) -> (
    RegistryView,
    Outcome,
) {
    match instruction {
        Instruction::CreateWindow { width, height, title, fullscreen } => {
            if env.window_creation_succeeds {
                let id = s.next_id as i32;
                (
                    RegistryView {
                        windows: s.windows.insert(
                            id,
                            record_spec(width, height, title, fullscreen, env),
                        ),
                        next_id: s.next_id + 1,
                    },
                    Outcome::Created { id },
                )
            } else {
                (s, Outcome::CreationFailed)
            }
        },
        Instruction::DestroyWindow { id } => {
            (
                RegistryView { windows: s.windows.remove(id), next_id: s.next_id },
                Outcome::Destroyed { id },
            )
        },
        Instruction::UseWindow { id, action } => {
            (
                s,
                if s.windows.contains_key(id) {
                    Outcome::Used { id, action }
                } else {
                    Outcome::Missing { id, action }
                },
            )
        },
    }
}

/// The registry after executing a whole sequence of instructions in order.
pub open spec fn run_spec(s: RegistryView, instructions: Seq<Instruction>, env: NativeEnv) -> RegistryView
    decreases instructions.len(),
{
    if instructions.len() == 0 {
        s
    } else {
        run_spec(step_spec(s, instructions[0], env).0, instructions.drop_first(), env)
    }
}

/// The outcomes of a whole sequence, one per instruction, in execution order.
pub open spec fn outcomes_spec(s: RegistryView, instructions: Seq<Instruction>, env: NativeEnv) -> Seq<Outcome>
    decreases instructions.len(),
{
    if instructions.len() == 0 {
        Seq::<Outcome>::empty()
    } else {
        seq![step_spec(s, instructions[0], env).1] + outcomes_spec(
            step_spec(s, instructions[0], env).0,
            instructions.drop_first(),
            env,
        )
    }
}

/// How many create requests a sequence of instructions holds.
pub open spec fn count_creates(instructions: Seq<Instruction>) -> nat
    decreases instructions.len(),
{
    if instructions.len() == 0 {
        0
    } else {
        (if instructions[0] is CreateWindow {
            1nat
        } else {
            0nat
        }) + count_creates(instructions.drop_first())
    }
}

/// The identifier counter has room for every create request still queued:
/// the machine limit under which identifiers stay faithful `i32` values.
pub open spec fn creates_fit(s: RegistryView, instructions: Seq<Instruction>) -> bool {
    s.next_id + count_creates(instructions) <= i32::MAX
}

/// The contract of a synchronous create request. `pending` is the registry
/// once everything queued ahead of the request has executed; the request
/// itself then either registers a fresh window under the counter's value and
/// returns that identifier, or fails natively and returns the error with the
/// registry untouched beyond the pending work. Either way the queue has been
/// fully drained when the caller's wait ends.
pub open spec fn create_window_post(
    pre: AppView,
    post: AppView,
    result: Result<i32, WindowError>,
    width: u32,
    height: u32,
    title: Seq<char>,
    fullscreen: bool,
    env: NativeEnv,
) -> bool {
    let pending = run_spec(pre.registry, pre.queue, env);
    let id = pending.next_id as i32;
    &&& post.phase == pre.phase
    &&& post.running == pre.running
    &&& post.queue == Seq::<Instruction>::empty()
    &&& post.registry.wf()
    &&& if env.window_creation_succeeds {
        &&& result == Ok::<i32, WindowError>(id)
        &&& !pending.windows.contains_key(id)
        &&& post.registry.next_id == pending.next_id + 1
        &&& post.registry.windows.contains_key(id)
        &&& post.registry.windows.remove(id) == pending.windows
        &&& post.registry.windows[id].width == width
        &&& post.registry.windows[id].height == height
        &&& post.registry.windows[id].title@ == title
        &&& post.registry.windows[id].mode == mode_spec(fullscreen, env.monitor_available)
    } else {
        &&& result == Err::<i32, WindowError>(WindowError::NativeWindowCreationFailure)
        &&& post.registry == pending
    }
}

/// Appending one instruction adds its create request, if it is one, to the
/// count of the queue.
pub proof fn lemma_count_creates_snoc(q: Seq<Instruction>, i: Instruction)
    ensures
        count_creates(q.push(i)) == count_creates(q) + (if i is CreateWindow {
            1nat
        } else {
            0nat
        }),
    decreases q.len(),
{
    if q.len() == 0 {
        assert(q.push(i)[0] == i);
        assert(q.push(i).drop_first() =~= Seq::<Instruction>::empty());
        assert(count_creates(Seq::<Instruction>::empty()) == 0);
    } else {
        assert(q.push(i)[0] == q[0]);
        assert(q.push(i).drop_first() =~= q.drop_first().push(i));
        lemma_count_creates_snoc(q.drop_first(), i);
    }
}

/// Executing a sequence with one more instruction appended at the tail is
/// executing the sequence and then that instruction: the tail of the queue
/// runs last.
pub proof fn lemma_run_snoc(s: RegistryView, q: Seq<Instruction>, i: Instruction, env: NativeEnv)
    ensures
        run_spec(s, q.push(i), env) == step_spec(run_spec(s, q, env), i, env).0,
        outcomes_spec(s, q.push(i), env) == outcomes_spec(s, q, env) + seq![
            step_spec(run_spec(s, q, env), i, env).1,
        ],
    decreases q.len(),
{
    if q.len() == 0 {
        assert(q.push(i)[0] == i);
        assert(q.push(i).drop_first() =~= Seq::<Instruction>::empty());
        assert(run_spec(step_spec(s, i, env).0, Seq::<Instruction>::empty(), env) == step_spec(
            s,
            i,
            env,
        ).0);
        assert(outcomes_spec(step_spec(s, i, env).0, Seq::<Instruction>::empty(), env)
            == Seq::<Outcome>::empty());
        assert(outcomes_spec(s, q.push(i), env) =~= outcomes_spec(s, q, env) + seq![
            step_spec(run_spec(s, q, env), i, env).1,
        ]);
    } else {
        assert(q.push(i)[0] == q[0]);
        assert(q.push(i).drop_first() =~= q.drop_first().push(i));
        lemma_run_snoc(step_spec(s, q[0], env).0, q.drop_first(), i, env);
        assert(outcomes_spec(s, q.push(i), env) =~= outcomes_spec(s, q, env) + seq![
            step_spec(run_spec(s, q, env), i, env).1,
        ]);
    }
}

/// One step started from a well-formed registry with room for its create
/// request keeps the registry well formed, and the counter never moves
/// backwards or skips: it grows by exactly 1 on a successful create and
/// stays put otherwise.
pub proof fn lemma_step_preserves_wf(s: RegistryView, i: Instruction, env: NativeEnv)
    requires
        s.wf(),
        i is CreateWindow ==> s.next_id < i32::MAX,
    ensures
        step_spec(s, i, env).0.wf(),
        s.next_id <= step_spec(s, i, env).0.next_id <= s.next_id + (if i is CreateWindow {
            1int
        } else {
            0int
        }),
{
}

/// Running a whole sequence from a well-formed registry with room for all
/// its create requests keeps the registry well formed, and the counter ends
/// between its old value and that value plus the number of create requests.
pub proof fn lemma_run_preserves_wf(s: RegistryView, q: Seq<Instruction>, env: NativeEnv)
    requires
        s.wf(),
        creates_fit(s, q),
    ensures
        run_spec(s, q, env).wf(),
        s.next_id <= run_spec(s, q, env).next_id <= s.next_id + count_creates(q),
    decreases q.len(),
{
    if q.len() > 0 {
        lemma_step_preserves_wf(s, q[0], env);
        lemma_run_preserves_wf(step_spec(s, q[0], env).0, q.drop_first(), env);
    }
}

/// Execute one instruction against the registry, on the owner thread. The
/// returned outcome carries what the originator of the instruction is told.
pub fn execute_instruction(
    registry: &mut WindowRegistry,
    instruction: Instruction,
    env: NativeEnv,
) -> (outcome: Outcome)
    requires
        old(registry)@.wf(),
        instruction is CreateWindow ==> old(registry)@.next_id < i32::MAX,
    ensures
        final(registry)@.wf(),
        final(registry)@ == step_spec(old(registry)@, instruction, env).0,
        outcome == step_spec(old(registry)@, instruction, env).1,
        final(registry)@.next_id >= old(registry)@.next_id,
{
    match instruction {
        Instruction::CreateWindow { width, height, title, fullscreen } => {
            if env.window_creation_succeeds {
                let mode = resolve_mode(fullscreen, env.monitor_available);
                let record = WindowRecord { width, height, title, mode };
                let id = registry.insert(record);
                Outcome::Created { id }
            } else {
                Outcome::CreationFailed
            }
        },
        Instruction::DestroyWindow { id } => {
            registry.remove(id);
            Outcome::Destroyed { id }
        },
        Instruction::UseWindow { id, action } => {
            if registry.contains(id) {
                Outcome::Used { id, action }
            } else {
                Outcome::Missing { id, action }
            }
        },
    }
}

/// The explicit application context: the running flag, the loop phase, the
/// shared instruction queue, and the owner-thread window registry. One value
/// of this type models the whole process-wide state of the marshaling
/// system; in the threaded runtime its pieces live behind one lock (the
/// queue), one atomic flag, and the owner thread's exclusive ownership (the
/// registry).
pub struct AppState {
    phase: Phase,
    running: bool,
    queue: InstructionQueue,
    registry: WindowRegistry,
}

/// The abstract state of an [`AppState`].
#[verifier::ext_equal]
pub struct AppView {
    pub phase: Phase,
    pub running: bool,
    pub queue: Seq<Instruction>,
    pub registry: RegistryView,
}

impl View for AppState {
    type V = AppView;

    closed spec fn view(&self) -> AppView {
        AppView {
            phase: self.phase,
            running: self.running,
            queue: self.queue@,
            registry: self.registry@,
        }
    }
}

impl AppState {
    /// A fresh application: nothing queued, no windows, the running flag
    /// raised, the loop not yet entered.
    pub fn new() -> (app: Self)
        ensures
            app@.phase == Phase::NotStarted,
            app@.running,
            app@.queue == Seq::<Instruction>::empty(),
            app@.registry.windows == Map::<i32, WindowRecord>::empty(),
            app@.registry.next_id == 0,
            app@.registry.wf(),
    {
        AppState {
            phase: Phase::NotStarted,
            running: true,
            queue: InstructionQueue::new(),
            registry: WindowRegistry::new(),
        }
    }

    /// Drain the queue on the owner thread: repeatedly take the head
    /// instruction and execute it, until the queue is empty. Instructions
    /// run strictly in enqueue order, and the outcomes come back in that
    /// same order, one per instruction.
    pub fn drain(&mut self, env: NativeEnv) -> (outcomes: Vec<Outcome>)
        requires
            old(self)@.registry.wf(),
            creates_fit(old(self)@.registry, old(self)@.queue),
        ensures
            final(self)@.registry.wf(),
            final(self)@.queue == Seq::<Instruction>::empty(),
            final(self)@.registry == run_spec(old(self)@.registry, old(self)@.queue, env),
            outcomes@ == outcomes_spec(old(self)@.registry, old(self)@.queue, env),
            final(self)@.phase == old(self)@.phase,
            final(self)@.running == old(self)@.running,
    {
        let mut outcomes: Vec<Outcome> = Vec::new();
        loop
            invariant
                self@.registry.wf(),
                creates_fit(self@.registry, self@.queue),
                run_spec(self@.registry, self@.queue, env) == run_spec(
                    old(self)@.registry,
                    old(self)@.queue,
                    env,
                ),
                outcomes@ + outcomes_spec(self@.registry, self@.queue, env) == outcomes_spec(
                    old(self)@.registry,
                    old(self)@.queue,
                    env,
                ),
                self@.phase == old(self)@.phase,
                self@.running == old(self)@.running,
            ensures
                self@.queue.len() == 0,
            decreases self@.queue.len(),
        {
            let ghost pre = self@;
            let ghost outcomes_pre = outcomes@;
            match self.queue.dequeue() {
                None => {
                    break ;
                },
                Some(instruction) => {
                    proof {
                        assert(pre.queue[0] == instruction);
                        assert(pre.queue.drop_first() == self@.queue);
                        if instruction is CreateWindow {
                            assert(count_creates(pre.queue) >= 1);
                        }
                    }
                    let outcome = execute_instruction(&mut self.registry, instruction, env);
                    outcomes.push(outcome);
                    proof {
                        assert(outcomes@ + outcomes_spec(self@.registry, self@.queue, env)
                            =~= outcomes_pre + outcomes_spec(pre.registry, pre.queue, env));
                    }
                },
            }
        }
        outcomes
    }

    /// One iteration of the application loop, run on the owner thread after
    /// it has polled the native context for OS events. While the running
    /// flag is up, the iteration drains the queue and asks for another
    /// iteration. Once the flag is down, the iteration executes nothing: it
    /// reports termination and the native teardown empties the registry,
    /// transitively destroying every window still registered. Queued
    /// instructions are left unexecuted, and the identifier counter keeps
    /// its value.
    pub fn loop_cycle(&mut self, env: NativeEnv) -> (r: (bool, Vec<Outcome>))
        requires
            old(self)@.registry.wf(),
            creates_fit(old(self)@.registry, old(self)@.queue),
        ensures
            final(self)@.registry.wf(),
            final(self)@.running == old(self)@.running,
            r.0 == old(self)@.running,
            old(self)@.running ==> {
                &&& final(self)@.queue == Seq::<Instruction>::empty()
                &&& final(self)@.registry == run_spec(old(self)@.registry, old(self)@.queue, env)
                &&& r.1@ == outcomes_spec(old(self)@.registry, old(self)@.queue, env)
                &&& final(self)@.phase == old(self)@.phase
            },
            !old(self)@.running ==> {
                &&& r.1@ == Seq::<Outcome>::empty()
                &&& final(self)@.queue == old(self)@.queue
                &&& final(self)@.phase == Phase::Terminated
                &&& final(self)@.registry.windows == Map::<i32, WindowRecord>::empty()
                &&& final(self)@.registry.next_id == old(self)@.registry.next_id
            },
    {
        if self.running {
            let outcomes = self.drain(env);
            (true, outcomes)
        } else {
            self.phase = Phase::Terminated;
            self.registry.clear();
            (false, Vec::new())
        }
    }

    /// Request a window, from any thread, and wait for the owner thread to
    /// answer: the request joins the tail of the queue, the owner thread
    /// works the queue off in order, and the identifier of the new window
    /// comes back over the rendezvous. On success that identifier is the
    /// counter's value once everything queued before the request has
    /// executed; on native failure the error comes back instead and the
    /// registry is left as the pending instructions put it.
    ///
    /// Callable only while the application runs: after shutdown the owner
    /// thread no longer answers, and the wait would never end.
    pub fn create_window(
        &mut self,
        width: u32,
        height: u32,
        title: &str,
        fullscreen: bool,
        env: NativeEnv,
    ) -> (result: Result<i32, WindowError>)
        requires
            old(self)@.running,
            old(self)@.registry.wf(),
            old(self)@.registry.next_id + count_creates(old(self)@.queue) + 1 <= i32::MAX,
        ensures
            create_window_post(old(self)@, final(self)@, result, width, height, title@, fullscreen, env),
    {
        let instruction = Instruction::CreateWindow {
            width,
            height,
            title: title.to_string(),
            fullscreen,
        };
        let ghost request = instruction;
        self.queue.enqueue(instruction);
        proof {
            lemma_count_creates_snoc(old(self)@.queue, request);
            lemma_run_snoc(old(self)@.registry, old(self)@.queue, request, env);
            lemma_run_preserves_wf(old(self)@.registry, old(self)@.queue, env);
        }
        let ghost pending = run_spec(old(self)@.registry, old(self)@.queue, env);
        let mut outcomes = self.drain(env);
        proof {
            if env.window_creation_succeeds {
                assert(pending.windows.insert(
                    pending.next_id as i32,
                    record_spec(width, height, request->CreateWindow_title, fullscreen, env),
                ).remove(pending.next_id as i32) =~= pending.windows);
            }
        }
        match outcomes.pop() {
            Some(Outcome::Created { id }) => Ok(id),
            _ => Err(WindowError::NativeWindowCreationFailure),
        }
    }

    /// Request destruction of the window under `id`, from any thread,
    /// fire-and-forget: the request joins the tail of the queue and the
    /// caller does not wait. The identifier is logically dead for the
    /// caller the instant this returns, even though removal happens when
    /// the owner thread next drains the queue; destroying an identifier
    /// that is already gone is a no-op there, never an error.
    pub fn destroy_window(&mut self, id: i32)
        ensures
            final(self)@.queue == old(self)@.queue.push(Instruction::DestroyWindow { id }),
            final(self)@.registry == old(self)@.registry,
            final(self)@.phase == old(self)@.phase,
            final(self)@.running == old(self)@.running,
    {
        self.queue.enqueue(Instruction::DestroyWindow { id });
    }

    /// Request a custom owner-thread action, named by `action`, against the
    /// window under `id`, fire-and-forget. When the owner thread reaches the
    /// request it runs the action only if the identifier is still live;
    /// otherwise it reports the identifier missing.
    pub fn use_window(&mut self, id: i32, action: u64)
        ensures
            final(self)@.queue == old(self)@.queue.push(Instruction::UseWindow { id, action }),
            final(self)@.registry == old(self)@.registry,
            final(self)@.phase == old(self)@.phase,
            final(self)@.running == old(self)@.running,
    {
        self.queue.enqueue(Instruction::UseWindow { id, action });
    }

    /// Enter the loop: the native context has been initialized on the
    /// calling (owner) thread and iterations may begin.
    pub fn start(&mut self)
        requires
            old(self)@.phase == Phase::NotStarted,
        ensures
            final(self)@.phase == Phase::Running,
            final(self)@.running == old(self)@.running,
            final(self)@.queue == old(self)@.queue,
            final(self)@.registry == old(self)@.registry,
    {
        self.phase = Phase::Running;
    }

    /// The loop phase.
    pub fn phase(&self) -> (phase: Phase)
        ensures
            phase == self@.phase,
    {
        self.phase
    }

    /// Whether the running flag is up.
    pub fn is_running(&self) -> (running: bool)
        ensures
            running == self@.running,
    {
        self.running
    }

    /// How many instructions are waiting in the queue.
    pub fn queue_len(&self) -> (n: usize)
        ensures
            n == self@.queue.len(),
    {
        self.queue.len()
    }

    /// How many windows are live in the registry.
    pub fn window_count(&self) -> (n: usize)
        ensures
            n == self@.registry.windows.len(),
    {
        self.registry.len()
    }

    /// Whether `id` names a live window.
    pub fn has_window(&self, id: i32) -> (present: bool)
        ensures
            present == self@.registry.windows.contains_key(id),
    {
        self.registry.contains(id)
    }

    /// Look a window's record up; absent identifiers surface as
    /// `UnknownWindow`.
    pub fn window(&self, id: i32) -> (result: Result<&WindowRecord, WindowError>)
        ensures
            match result {
                Ok(record) => self@.registry.windows.contains_key(id) && *record
                    == self@.registry.windows[id],
                Err(e) => e == WindowError::UnknownWindow && !self@.registry.windows.contains_key(
                    id,
                ),
            },
    {
        self.registry.get(id)
    }
}

/// Request cooperative shutdown, from any thread: the running flag drops and
/// the loop observes it at the top of its next iteration. Nothing else
/// changes; queued instructions are neither executed nor discarded here.
pub fn end_application(app: &mut AppState)
    ensures
        !final(app)@.running,
        final(app)@.phase == (if old(app)@.phase is Running {
            Phase::Stopping
        } else {
            old(app)@.phase
        }),
        final(app)@.queue == old(app)@.queue,
        final(app)@.registry == old(app)@.registry,
{
    app.running = false;
    if matches!(app.phase, Phase::Running) {
        app.phase = Phase::Stopping;
    }
}

} // verus!
