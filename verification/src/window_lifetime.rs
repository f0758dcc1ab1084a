//! The owner of a native window outlives the complete native window tree. The
//! states below decide when a window may be destroyed and when its callback
//! allocation may be released.
use vstd::prelude::*;

verus! {

/// A native window handle.
pub type WindowHandle = isize;

#[derive(Clone, Copy, Debug, PartialEq, Eq, Structural)]
pub enum Phase {
    NotAttached,
    Alive(WindowHandle),
    Destroying(WindowHandle),
    Destroyed,
}

#[derive(Clone, Copy, Debug, PartialEq, Eq, Structural)]
pub enum WindowRole {
    Root,
    Content,
}

/// What became of a window that asks to be attached.
#[derive(Clone, Copy, Debug, PartialEq, Eq, Structural)]
pub enum Attachment {
    /// The native userdata slot refused the callback state: creation fails.
    Rejected,
    Attached,
    /// A second root was attached to one owner: the process must stop.
    Fatal,
}

/// What the owner has to do to end its window.
#[derive(Clone, Copy, Debug, PartialEq, Eq, Structural)]
pub enum Teardown {
    /// There is no native window left.
    Done,
    /// Destroy this root now, then ask [`WindowLifetime::destroy_finished`].
    Destroy(WindowHandle),
    /// Destruction is already running: the process must stop.
    Fatal,
}

/// The lifetime of one root window.
#[derive(Clone, Copy, Debug, PartialEq, Eq, Structural)]
pub struct WindowLifetime {
    pub phase: Phase,
}

/// Whether storing the callback state in the window failed: the call returned
/// zero and left an error code.
pub open spec fn userdata_refused(previous: isize, last_error: u32) -> bool {
    previous == 0 && last_error != 0
}

/// The phase after a window of this role was attached, and what that means.
pub open spec fn attachment(
    phase: Phase,
    window: WindowHandle,
    role: WindowRole,
    refused: bool,
) -> (Phase, Attachment) {
    if refused {
        (phase, Attachment::Rejected)
    } else if role == WindowRole::Content {
        (phase, Attachment::Attached)
    } else if phase != Phase::NotAttached {
        (phase, Attachment::Fatal)
    } else {
        (Phase::Alive(window), Attachment::Attached)
    }
}

/// The phase after a native window of the tree has ended.
pub open spec fn termination(phase: Phase, window: WindowHandle) -> Phase {
    if phase == Phase::Alive(window) || phase == Phase::Destroying(window) {
        Phase::Destroyed
    } else {
        phase
    }
}

/// The phase after the owner asked for teardown, and what it has to do.
pub open spec fn teardown(phase: Phase) -> (Phase, Teardown) {
    match phase {
        Phase::NotAttached => (phase, Teardown::Done),
        Phase::Destroyed => (phase, Teardown::Done),
        Phase::Alive(window) => (Phase::Destroying(window), Teardown::Destroy(window)),
        Phase::Destroying(_) => (phase, Teardown::Fatal),
    }
}

impl Default for WindowLifetime {
    fn default() -> (r: Self)
        ensures
            r.phase == Phase::NotAttached,
    {
        WindowLifetime { phase: Phase::NotAttached }
    }
}

impl WindowLifetime {
    /// Records a window during its creation. `previous` and `last_error` are what
    /// storing the callback state in the window reported.
    pub fn attach(
        &mut self,
        window: WindowHandle,
        role: WindowRole,
        previous: isize,
        last_error: u32,
    ) -> (r: Attachment)
        ensures
            (final(self).phase, r) == attachment(
                old(self).phase,
                window,
                role,
                userdata_refused(previous, last_error),
            ),
    {
        if previous == 0 && last_error != 0 {
            return Attachment::Rejected;
        }
        match role {
            WindowRole::Content => Attachment::Attached,
            WindowRole::Root => {
                if self.phase != Phase::NotAttached {
                    return Attachment::Fatal;
                }
                self.phase = Phase::Alive(window);
                Attachment::Attached
            },
        }
    }

    /// Called at the end of the native destruction of a window, after its callback
    /// state was cleared. Child termination cannot finish a root.
    pub fn terminated(&mut self, window: WindowHandle)
        ensures
            final(self).phase == termination(old(self).phase, window),
    {
        if self.phase == Phase::Alive(window) || self.phase == Phase::Destroying(window) {
            self.phase = Phase::Destroyed;
        }
    }

    /// Creation can fail after the callback was attached. Resolves that native
    /// lifetime while the allocation and every dependency still exist.
    pub fn creation_result(&mut self, created: bool) -> (r: Teardown)
        ensures
            created ==> *final(self) == *old(self) && r == Teardown::Done,
            !created ==> (final(self).phase, r) == teardown(old(self).phase),
    {
        if created {
            Teardown::Done
        } else {
            self.destroy()
        }
    }

    pub fn is_alive(&self) -> (r: bool)
        ensures
            r == (self.phase is Alive),
    {
        match self.phase {
            Phase::Alive(_) => true,
            _ => false,
        }
    }

    /// Begins teardown, before the caller lets callback-dependent fields drop.
    pub fn destroy(&mut self) -> (r: Teardown)
        ensures
            (final(self).phase, r) == teardown(old(self).phase),
    {
        match self.phase {
            Phase::NotAttached => Teardown::Done,
            Phase::Destroyed => Teardown::Done,
            Phase::Alive(window) => {
                self.phase = Phase::Destroying(window);
                Teardown::Destroy(window)
            },
            Phase::Destroying(_) => Teardown::Fatal,
        }
    }

    /// Whether the native destruction that was asked for has run to its end. A
    /// root that is still there afterwards must stop the process.
    pub fn destroy_finished(&self) -> (r: bool)
        ensures
            r == (self.phase == Phase::Destroyed),
    {
        self.phase == Phase::Destroyed
    }
}

/// Only the root itself can finish a root: the end of any other window of the
/// tree leaves the phase alone.
pub proof fn child_termination_cannot_finish_a_root(
    phase: Phase,
    root: WindowHandle,
    child: WindowHandle,
)
    requires
        phase == Phase::Alive(root) || phase == Phase::Destroying(root),
        child != root,
    ensures
        termination(phase, child) == phase,
{
}

/// An attached root that is destroyed, and whose native end is reported, is
/// destroyed for good: asking again does nothing, and no later event revives it.
pub proof fn destroyed_roots_stay_destroyed(
    root: WindowHandle,
    window: WindowHandle,
    role: WindowRole,
    refused: bool,
)
    ensures
        teardown(Phase::Alive(root)).1 == Teardown::Destroy(root),
        termination(teardown(Phase::Alive(root)).0, root) == Phase::Destroyed,
        teardown(Phase::Destroyed) == (Phase::Destroyed, Teardown::Done),
        termination(Phase::Destroyed, window) == Phase::Destroyed,
        attachment(Phase::Destroyed, window, role, refused).0 == Phase::Destroyed,
{
}

/// One owner asks for at most one native destruction: whatever windows end in
/// between, a second request never names a window again.
pub proof fn destruction_is_requested_once(phase: Phase, ended: Seq<WindowHandle>)
    ensures
        !(teardown(after_endings(teardown(phase).0, ended)).1 is Destroy),
    decreases ended.len(),
{
    if ended.len() > 0 {
        destruction_is_requested_once(phase, ended.drop_last());
        lemma_ending_never_revives(after_endings(teardown(phase).0, ended.drop_last()), ended.last());
    }
}

proof fn lemma_ending_never_revives(phase: Phase, window: WindowHandle)
    requires
        !(teardown(phase).1 is Destroy),
    ensures
        !(teardown(termination(phase, window)).1 is Destroy),
{
}

/// The phase after these windows ended, in order.
pub open spec fn after_endings(phase: Phase, ended: Seq<WindowHandle>) -> Phase
    decreases ended.len(),
{
    if ended.len() == 0 {
        phase
    } else {
        termination(after_endings(phase, ended.drop_last()), ended.last())
    }
}

/// Desktop isolation for fixtures; ordinary programs use the default, which
/// shows every window.
#[derive(Clone, Copy, Debug, PartialEq, Eq, Structural)]
pub struct WindowFixtures {
    pub hidden: bool,
}

impl Default for WindowFixtures {
    fn default() -> (r: Self)
        ensures
            !r.hidden,
    {
        WindowFixtures { hidden: false }
    }
}

/// Whether native windows become visible.
pub fn show_native_windows(fixtures: &WindowFixtures) -> (r: bool)
    ensures
        r == !fixtures.hidden,
{
    !fixtures.hidden
}

/// Put a window in its place without giving it the focus.
pub const NO_ACTIVATE: u32 = 0x10;

/// Show a window as it is put in its place.
pub const SHOW: u32 = 0x40;

/// How an overlay is put in its place: it never takes the focus, and it is shown
/// unless windows are hidden.
pub fn position_flags(fixtures: &WindowFixtures) -> (r: u32)
    ensures
        r == (if fixtures.hidden {
            NO_ACTIVATE as int
        } else {
            NO_ACTIVATE + SHOW
        }),
{
    if show_native_windows(fixtures) {
        NO_ACTIVATE + SHOW
    } else {
        NO_ACTIVATE
    }
}

/// Runs `run` with every native window hidden. The caller's own setting is not
/// touched, so it is in force again afterwards.
pub fn with_hidden_windows<R, F: FnOnce(WindowFixtures) -> R>(run: F) -> (r: R)
    requires
        call_requires(run, (WindowFixtures { hidden: true },)),
    ensures
        call_ensures(run, (WindowFixtures { hidden: true },), r),
{
    run(WindowFixtures { hidden: true })
}

/// Counts native creations and root lifetimes while a creation failure is
/// being injected.
#[derive(Clone, Copy, Debug, PartialEq, Eq, Structural)]
pub struct CreationCounter {
    /// Creations up to and including the one that fails; zero injects nothing.
    pub remaining: usize,
    pub attached: usize,
    pub terminated: usize,
}

impl CreationCounter {
    /// Whether this creation is the one that fails, before any native call.
    pub fn create_window_fails(&mut self) -> (r: bool)
        ensures
            r == (old(self).remaining == 1),
            final(self).remaining == if old(self).remaining == 0 {
                0int
            } else {
                old(self).remaining - 1
            },
            final(self).attached == old(self).attached,
            final(self).terminated == old(self).terminated,
    {
        let fails = self.remaining == 1;
        if self.remaining > 0 {
            self.remaining = self.remaining - 1;
        }
        fails
    }

    pub fn root_attached(&mut self)
        requires
            old(self).attached < usize::MAX,
        ensures
            final(self).attached == old(self).attached + 1,
            final(self).remaining == old(self).remaining,
            final(self).terminated == old(self).terminated,
    {
        self.attached = self.attached + 1;
    }

    pub fn root_terminated(&mut self)
        requires
            old(self).terminated < usize::MAX,
        ensures
            final(self).terminated == old(self).terminated + 1,
            final(self).remaining == old(self).remaining,
            final(self).attached == old(self).attached,
    {
        self.terminated = self.terminated + 1;
    }
}

/// How a run with an injected creation failure ended.
#[derive(Clone, Copy, Debug, PartialEq, Eq, Structural)]
pub enum CreationVerdict {
    Passed,
    /// The creation that was to fail never happened.
    NotReached,
    /// An attached root outlived the failed construction.
    RootsLeft,
    /// A root was attached although the first creation failed, or the reverse.
    UnexpectedRoots,
}

/// The verdict on the counters left by a run whose `nth` creation failed.
pub open spec fn creation_verdict(nth: usize, end: CreationCounter) -> CreationVerdict {
    if end.remaining != 0 {
        CreationVerdict::NotReached
    } else if end.attached != end.terminated {
        CreationVerdict::RootsLeft
    } else if end.attached != (if nth > 1 {
        1int
    } else {
        0int
    }) {
        CreationVerdict::UnexpectedRoots
    } else {
        CreationVerdict::Passed
    }
}

/// Runs a construction whose `nth` native creation fails and judges what it left:
/// the failure was reached, and every attached root finished.
pub fn creation_failure_test<F: FnOnce(CreationCounter) -> CreationCounter>(
    nth: usize,
    run: F,
) -> (r: CreationVerdict)
    requires
        call_requires(run, (CreationCounter { remaining: nth, attached: 0, terminated: 0 },)),
    ensures
        exists|end: CreationCounter|
            #[trigger] call_ensures(
                run,
                (CreationCounter { remaining: nth, attached: 0, terminated: 0 },),
                end,
            ) && r == creation_verdict(nth, end),
{
    let end = run(CreationCounter { remaining: nth, attached: 0, terminated: 0 });
    let expected: usize = if nth > 1 {
        1
    } else {
        0
    };
    if end.remaining != 0 {
        CreationVerdict::NotReached
    } else if end.attached != end.terminated {
        CreationVerdict::RootsLeft
    } else if end.attached != expected {
        CreationVerdict::UnexpectedRoots
    } else {
        CreationVerdict::Passed
    }
}

/// A tree has one root: the first one attached lives under its own handle, and a
/// second is an error that changes nothing. A refused window and one of the content
/// never change the phase. Storing is refused only by a zero with an error code.
pub proof fn only_one_root_is_attached(
    phase: Phase,
    window: WindowHandle,
    previous: isize,
    last_error: u32,
)
    ensures
        ({
            let refused = userdata_refused(previous, last_error);
            let (root, said) = attachment(phase, window, WindowRole::Root, refused);
            let (content, told) = attachment(phase, window, WindowRole::Content, refused);
            &&& previous != 0 || last_error == 0 ==> said != Attachment::Rejected && told
                == Attachment::Attached
            &&& previous == 0 && last_error != 0 ==> said == Attachment::Rejected && told
                == Attachment::Rejected
            &&& content == phase
            &&& root != phase ==> phase == Phase::NotAttached && root == Phase::Alive(window)
            &&& said == Attachment::Attached <==> phase == Phase::NotAttached && root
                == Phase::Alive(window)
            &&& said == Attachment::Fatal ==> phase != Phase::NotAttached
        }),
{
}

/// A run passes exactly where its failure was reached and every root that it attached
/// has ended: one root, unless the first creation failed.
pub proof fn clean_failures_pass(nth: usize, end: CreationCounter)
    ensures
        creation_verdict(nth, end) == CreationVerdict::Passed <==> end.remaining == 0
            && end.terminated == end.attached && (nth <= 1 && end.attached == 0 || nth > 1
            && end.attached == 1),
        creation_verdict(nth, end) == CreationVerdict::NotReached <==> end.remaining > 0,
        creation_verdict(nth, end) == CreationVerdict::RootsLeft ==> end.attached
            != end.terminated,
        creation_verdict(nth, end) == CreationVerdict::UnexpectedRoots ==> end.attached
            == end.terminated,
{
}

} // verus!
