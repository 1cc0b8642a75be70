use crate::pipeline::RtPipeline;
use crate::resource::CachedComputePipelineId;
use crate::state::{CompileStatus, Poll, RtState};
use crate::WORKGROUP_SIZE;
use vstd::prelude::*;

verus! {

/// The compute pass of the render graph: it follows the compilation of the
/// two kernels and says each frame what the pass records.
#[derive(Clone, Copy, Debug, PartialEq, Eq, Structural)]
pub struct RtNode {
    pub state: RtState,
}

/// One command of a compute pass.
#[derive(Clone, Copy, Debug, PartialEq, Eq, Structural)]
pub enum PassCommand {
    /// Bind the frame's bind group at `index`.
    SetBindGroup { index: u32 },
    /// Select a kernel's pipeline.
    SetPipeline { pipeline: CachedComputePipelineId },
    /// Run the selected pipeline on a grid of `x` by `y` by `z` workgroups.
    DispatchWorkgroups { x: u32, y: u32, z: u32 },
}

/// How many workgroups cover `extent` pixels along one axis: `extent / 8`,
/// rounded up.
pub open spec fn spec_workgroups(extent: u32) -> int {
    (extent + WORKGROUP_SIZE - 1) / (WORKGROUP_SIZE as int)
}

/// Counts the workgroups that cover `extent` pixels along one axis.
pub fn workgroups(extent: u32) -> (count: u32)
    ensures
        count == spec_workgroups(extent),
{
    if extent % WORKGROUP_SIZE == 0 {
        extent / WORKGROUP_SIZE
    } else {
        extent / WORKGROUP_SIZE + 1
    }
}

/// What a frame's pass records in `state` for an image of `width` by
/// `height` pixels: the bind group is bound in any state; a kernel is
/// selected and dispatched, over a grid that covers the image, once the
/// state has one.
pub open spec fn pass_commands(state: RtState, pipeline: RtPipeline, width: u32, height: u32) -> Seq<
    PassCommand,
> {
    match state.spec_kernel() {
        None => seq![PassCommand::SetBindGroup { index: 0 }],
        Some(kernel) => seq![
            PassCommand::SetBindGroup { index: 0 },
            PassCommand::SetPipeline { pipeline: pipeline.spec_pipeline(kernel) },
            PassCommand::DispatchWorkgroups {
                x: spec_workgroups(width) as u32,
                y: spec_workgroups(height) as u32,
                z: 1,
            },
        ],
    }
}

/// Whether a pass runs a kernel: whether one of its commands dispatches
/// workgroups.
pub open spec fn dispatches(commands: Seq<PassCommand>) -> bool {
    exists|i: int| 0 <= i < commands.len() && #[trigger] commands[i] is DispatchWorkgroups
}

/// The state that `start` has become after the polls of `polls`, one frame
/// after the other.
pub open spec fn state_after(start: RtState, polls: Seq<Poll>) -> RtState
    decreases polls.len(),
{
    if polls.len() == 0 {
        start
    } else {
        state_after(start, polls.drop_last()).next(polls.last())
    }
}

impl Default for RtNode {
    fn default() -> (node: Self)
        ensures
            node.state == RtState::Loading,
    {
        RtNode { state: RtState::Loading }
    }
}

impl RtNode {
    /// Takes in the frame's poll, before the frame's pass is recorded. The
    /// state moves on by one step at most.
    pub fn update(&mut self, poll: Poll)
        ensures
            final(self).state == old(self).state.next(poll),
    {
        self.state = self.state.advance(poll);
    }

    /// Takes in what the compile service answered for the awaited kernel,
    /// the only one that a frame needs to ask for. In `Update`, where no
    /// kernel is awaited, no answer changes the state.
    pub fn update_on(&mut self, status: CompileStatus)
        ensures
            final(self).state == old(self).state.step(status),
            old(self).state.spec_awaited() is None ==> final(self).state == old(self).state,
    {
        self.state = self.state.advance_on(status);
    }

    /// The commands of the frame's pass, for an image of `width` by `height`
    /// pixels.
    pub fn run(&self, pipeline: &RtPipeline, width: u32, height: u32) -> (commands: Vec<
        PassCommand,
    >)
        ensures
            commands@ == pass_commands(self.state, *pipeline, width, height),
    {
        let mut commands: Vec<PassCommand> = Vec::with_capacity(3);
        commands.push(PassCommand::SetBindGroup { index: 0 });
        match self.state.kernel() {
            None => {},
            Some(kernel) => {
                commands.push(PassCommand::SetPipeline { pipeline: pipeline.pipeline(kernel) });
                commands.push(
                    PassCommand::DispatchWorkgroups {
                        x: workgroups(width),
                        y: workgroups(height),
                        z: 1,
                    },
                );
            },
        }
        assert(commands@ =~= pass_commands(self.state, *pipeline, width, height));
        commands
    }
}

/// The number of workgroups along an axis is the least number of groups of
/// eight pixels that cover the axis.
pub proof fn lemma_workgroups_cover(extent: u32)
    ensures
        0 <= spec_workgroups(extent) <= u32::MAX,
        spec_workgroups(extent) * WORKGROUP_SIZE >= extent,
        extent > 0 ==> (spec_workgroups(extent) - 1) * WORKGROUP_SIZE < extent,
        extent % WORKGROUP_SIZE == 0 ==> spec_workgroups(extent) * WORKGROUP_SIZE == extent,
{
}

/// A poll moves the state forward by one step or leaves it where it is.
pub proof fn lemma_next_steps_once(state: RtState, poll: Poll)
    ensures
        state.rank() <= state.next(poll).rank() <= state.rank() + 1,
{
}

/// Asking for the awaited kernel alone is as good as a full poll: the state
/// that follows is the same.
pub proof fn lemma_poll_reads_awaited_kernel(state: RtState, poll: Poll)
    ensures
        match state.spec_awaited() {
            Some(kernel) => state.next(poll) == state.step(poll.spec_status(kernel)),
            None => state.next(poll) == state && forall|status: CompileStatus|
                #[trigger] state.step(status) == state,
        },
{
}

/// A state whose awaited kernel has failed is not left by that poll.
pub proof fn lemma_stalled_state_stays(state: RtState, poll: Poll)
    requires
        state.spec_is_stalled(poll),
    ensures
        state.next(poll) == state,
{
}

/// Over any run of frames the state moves forward or stays: it never goes
/// back, and `Update`, once reached, is kept.
pub proof fn lemma_state_never_regresses(start: RtState, polls: Seq<Poll>)
    ensures
        start.rank() <= state_after(start, polls).rank(),
        start != RtState::Loading ==> state_after(start, polls) != RtState::Loading,
        start == RtState::Update ==> state_after(start, polls) == RtState::Update,
    decreases polls.len(),
{
    if polls.len() > 0 {
        lemma_state_never_regresses(start, polls.drop_last());
    }
}

/// For as long as the init kernel has not been reported ready, the state is
/// `Loading` and the frame's pass runs no kernel.
pub proof fn lemma_loading_until_init_ready(
    polls: Seq<Poll>,
    pipeline: RtPipeline,
    width: u32,
    height: u32,
)
    requires
        forall|i: int| 0 <= i < polls.len() ==> polls[i].init != CompileStatus::Ready,
    ensures
        state_after(RtState::Loading, polls) == RtState::Loading,
        !dispatches(pass_commands(state_after(RtState::Loading, polls), pipeline, width, height)),
    decreases polls.len(),
{
    if polls.len() > 0 {
        lemma_loading_until_init_ready(polls.drop_last(), pipeline, width, height);
    }
}

/// The poll that finds the init kernel ready takes `Loading` to `Init`, and
/// to `Init` only, whatever it finds of the update kernel; no later frame
/// brings `Loading` back.
pub proof fn lemma_init_ready_leaves_loading(poll: Poll, later: Seq<Poll>)
    requires
        poll.init == CompileStatus::Ready,
    ensures
        RtState::Loading.next(poll) == RtState::Init,
        state_after(RtState::Loading.next(poll), later) != RtState::Loading,
{
    lemma_state_never_regresses(RtState::Init, later);
}

/// The poll that finds the update kernel ready takes `Init` to `Update`, and
/// every later frame finds the state at `Update`.
pub proof fn lemma_update_ready_leaves_init(poll: Poll, later: Seq<Poll>)
    requires
        poll.update == CompileStatus::Ready,
    ensures
        RtState::Init.next(poll) == RtState::Update,
        state_after(RtState::Init.next(poll), later) == RtState::Update,
{
    lemma_state_never_regresses(RtState::Update, later);
}

/// No kernel runs before a poll has found it ready: a pass that started at
/// `Loading` selects a kernel's pipeline only if, in one of the frames so
/// far, that kernel was reported ready.
pub proof fn lemma_kernel_ready_before_run(polls: Seq<Poll>)
    ensures
        state_after(RtState::Loading, polls) != RtState::Loading ==> exists|i: int|
            0 <= i < polls.len() && (#[trigger] polls[i]).init == CompileStatus::Ready,
        state_after(RtState::Loading, polls) == RtState::Update ==> exists|i: int|
            0 <= i < polls.len() && (#[trigger] polls[i]).update == CompileStatus::Ready,
    decreases polls.len(),
{
    if polls.len() > 0 {
        let before = polls.drop_last();
        lemma_kernel_ready_before_run(before);
        let last = polls.len() - 1;
        if state_after(RtState::Loading, before) != RtState::Loading {
            let i = choose|i: int|
                0 <= i < before.len() && (#[trigger] before[i]).init == CompileStatus::Ready;
            assert(polls[i] == before[i]);
        } else if state_after(RtState::Loading, polls) != RtState::Loading {
            assert(polls[last].init == CompileStatus::Ready);
        }
        if state_after(RtState::Loading, before) == RtState::Update {
            let j = choose|j: int|
                0 <= j < before.len() && (#[trigger] before[j]).update == CompileStatus::Ready;
            assert(polls[j] == before[j]);
        } else if state_after(RtState::Loading, polls) == RtState::Update {
            assert(polls[last].update == CompileStatus::Ready);
        }
    }
}

/// A pass runs a kernel exactly when the state has one: it then selects that
/// kernel's pipeline and dispatches it over the grid that covers the image.
pub proof fn lemma_pass_runs_state_kernel(
    state: RtState,
    pipeline: RtPipeline,
    width: u32,
    height: u32,
)
    ensures
        dispatches(pass_commands(state, pipeline, width, height)) <==> state != RtState::Loading,
        state == RtState::Init ==> pass_commands(state, pipeline, width, height)[1]
            == (PassCommand::SetPipeline { pipeline: pipeline.init_pipeline }),
        state == RtState::Update ==> pass_commands(state, pipeline, width, height)[1]
            == (PassCommand::SetPipeline { pipeline: pipeline.update_pipeline }),
        state != RtState::Loading ==> pass_commands(state, pipeline, width, height)[2]
            == (PassCommand::DispatchWorkgroups {
            x: spec_workgroups(width) as u32,
            y: spec_workgroups(height) as u32,
            z: 1,
        }),
{
    let commands = pass_commands(state, pipeline, width, height);
    if state != RtState::Loading {
        assert(commands[2] is DispatchWorkgroups);
    }
}

} // verus!
