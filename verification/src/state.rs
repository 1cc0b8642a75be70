use vstd::prelude::*;

verus! {

/// Where the compute pass stands in its lifecycle.
///
/// The pass starts in `Loading`, moves to `Init` once the init kernel has
/// compiled, and to `Update` once the update kernel has compiled too. It never
/// moves back.
#[derive(Clone, Copy, Debug, PartialEq, Eq, Structural)]
pub enum RtState {
    Loading,
    Init,
    Update,
}

/// One of the two entry points of the shader program.
#[derive(Clone, Copy, Debug, PartialEq, Eq, Structural)]
pub enum Kernel {
    Init,
    Update,
}

/// What the pipeline-compile service answers when it is polled for a kernel.
#[derive(Clone, Copy, Debug, PartialEq, Eq, Structural)]
pub enum CompileStatus {
    /// Still queued or compiling.
    Pending,
    /// Compiled: the kernel can be dispatched.
    Ready,
    /// Compilation ended in an error: the kernel will never be ready.
    Failed,
}

/// What the compile service reports of the two kernels when a frame polls
/// it.
#[derive(Clone, Copy, Debug, PartialEq, Eq, Structural)]
pub struct Poll {
    pub init: CompileStatus,
    pub update: CompileStatus,
}

impl Poll {
    /// What the poll reports of `kernel`.
    pub open spec fn spec_status(&self, kernel: Kernel) -> CompileStatus {
        match kernel {
            Kernel::Init => self.init,
            Kernel::Update => self.update,
        }
    }

    /// Picks the status of `kernel` out of the poll.
    #[verifier::when_used_as_spec(spec_status)]
    pub fn status(&self, kernel: Kernel) -> (status: CompileStatus)
        ensures
            status == self.spec_status(kernel),
    {
        match kernel {
            Kernel::Init => self.init,
            Kernel::Update => self.update,
        }
    }
}

impl Kernel {
    /// The name of the kernel's entry point in the shader source.
    pub open spec fn entry_point_name(self) -> Seq<char> {
        match self {
            Kernel::Init => "init"@,
            Kernel::Update => "update"@,
        }
    }

    /// Gives the name under which the shader source declares the kernel.
    pub fn entry_point(self) -> (name: &'static str)
        ensures
            name@ == self.entry_point_name(),
    {
        match self {
            Kernel::Init => "init",
            Kernel::Update => "update",
        }
    }
}

impl RtState {
    /// How far along the lifecycle a state is: 0, 1 or 2.
    pub open spec fn rank(self) -> nat {
        match self {
            RtState::Loading => 0,
            RtState::Init => 1,
            RtState::Update => 2,
        }
    }

    /// The kernel that this state waits for: the one whose compilation lets
    /// the state move on. `Update` waits for none.
    pub open spec fn spec_awaited(&self) -> Option<Kernel> {
        match self {
            RtState::Loading => Some(Kernel::Init),
            RtState::Init => Some(Kernel::Update),
            RtState::Update => None,
        }
    }

    /// The state that follows this one. Nothing follows `Update`.
    pub open spec fn successor(self) -> RtState {
        match self {
            RtState::Loading => RtState::Init,
            RtState::Init => RtState::Update,
            RtState::Update => RtState::Update,
        }
    }

    /// The kernel that a frame in this state runs, if it runs one.
    pub open spec fn spec_kernel(&self) -> Option<Kernel> {
        match self {
            RtState::Loading => None,
            RtState::Init => Some(Kernel::Init),
            RtState::Update => Some(Kernel::Update),
        }
    }

    /// The state after the awaited kernel was asked for and `status` was
    /// the answer: the successor if the kernel is ready, the same state
    /// otherwise.
    pub open spec fn step(self, status: CompileStatus) -> RtState {
        if status == CompileStatus::Ready {
            self.successor()
        } else {
            self
        }
    }

    /// The state after one poll: the step that the awaited kernel's status
    /// allows. What the poll reports of the other kernel is not read.
    pub open spec fn next(self, poll: Poll) -> RtState {
        match self.spec_awaited() {
            Some(kernel) => self.step(poll.spec_status(kernel)),
            None => self,
        }
    }

    /// Whether the state can never be left: whether the awaited kernel is
    /// reported to have failed.
    pub open spec fn spec_is_stalled(&self, poll: Poll) -> bool {
        match self.spec_awaited() {
            Some(kernel) => poll.spec_status(kernel) == CompileStatus::Failed,
            None => false,
        }
    }

    /// Names the kernel that this state waits for.
    #[verifier::when_used_as_spec(spec_awaited)]
    pub fn awaited(&self) -> (kernel: Option<Kernel>)
        ensures
            kernel == self.spec_awaited(),
    {
        match self {
            RtState::Loading => Some(Kernel::Init),
            RtState::Init => Some(Kernel::Update),
            RtState::Update => None,
        }
    }

    /// Names the kernel that a frame in this state runs.
    #[verifier::when_used_as_spec(spec_kernel)]
    pub fn kernel(&self) -> (kernel: Option<Kernel>)
        ensures
            kernel == self.spec_kernel(),
    {
        match self {
            RtState::Loading => None,
            RtState::Init => Some(Kernel::Init),
            RtState::Update => Some(Kernel::Update),
        }
    }

    /// Takes the step that `status` allows, `status` being what the compile
    /// service answered for the awaited kernel.
    pub fn advance_on(self, status: CompileStatus) -> (next: RtState)
        ensures
            next == self.step(status),
    {
        match status {
            CompileStatus::Ready => match self {
                RtState::Loading => RtState::Init,
                RtState::Init => RtState::Update,
                RtState::Update => RtState::Update,
            },
            _ => self,
        }
    }

    /// Takes the step that one poll allows.
    pub fn advance(self, poll: Poll) -> (next: RtState)
        ensures
            next == self.next(poll),
    {
        match self.awaited() {
            Some(kernel) => self.advance_on(poll.status(kernel)),
            None => self,
        }
    }

    /// Tells a stall from a wait: a state whose awaited kernel has failed
    /// stays as it is in every later frame.
    #[verifier::when_used_as_spec(spec_is_stalled)]
    pub fn is_stalled(&self, poll: Poll) -> (stalled: bool)
        ensures
            stalled == self.spec_is_stalled(poll),
    {
        match self.awaited() {
            Some(kernel) => match poll.status(kernel) {
                CompileStatus::Failed => true,
                _ => false,
            },
            None => false,
        }
    }
}

} // verus!
