use vstd::prelude::*;

verus! {

/// Index of the subpass in which the application draws its scene.
pub const VIEWPORT_SUBPASS: u32 = 0;

/// Index of the subpass in which the user interface is drawn over the scene.
pub const UI_SUBPASS: u32 = 1;

/// Number of subpasses of the final render pass.
pub const SUBPASS_COUNT: u32 = 2;

/// Number of steps of one frame.
pub const FRAME_STEPS: usize = 10;

/// One step of a frame, in the order in which the orchestrator takes them.
#[derive(Clone, Copy, Debug, PartialEq, Eq, Structural)]
pub enum FrameStep {
    /// Acquire the next swapchain image.
    AcquireImage,
    /// Build a framebuffer around the acquired image and the render pass.
    CreateFramebuffer,
    /// Begin the render pass, clearing the color attachment; subpass 0 starts.
    BeginRenderPass,
    /// Hand the scene subpass to the application's draw callback.
    DrawScene,
    /// Advance from the scene subpass to the UI subpass.
    NextSubpass,
    /// Execute the UI's pre-recorded command buffer in the UI subpass.
    ExecuteUi,
    /// End the render pass.
    EndRenderPass,
    /// Finish the primary command buffer.
    BuildCommandBuffer,
    /// Submit the command buffer after the image-acquire wait.
    Submit,
    /// Present the image after the submission completes.
    Present,
}

/// The steps of one frame.
pub open spec fn frame_steps() -> Seq<FrameStep> {
    seq![
        FrameStep::AcquireImage,
        FrameStep::CreateFramebuffer,
        FrameStep::BeginRenderPass,
        FrameStep::DrawScene,
        FrameStep::NextSubpass,
        FrameStep::ExecuteUi,
        FrameStep::EndRenderPass,
        FrameStep::BuildCommandBuffer,
        FrameStep::Submit,
        FrameStep::Present,
    ]
}

/// How many times `x` occurs in `s`.
pub open spec fn occurrences(s: Seq<FrameStep>, x: FrameStep) -> nat
    decreases s.len(),
{
    if s.len() == 0 {
        0
    } else {
        (if s[0] == x {
            1nat
        } else {
            0nat
        }) + occurrences(s.drop_first(), x)
    }
}

/// The subpass that is current once the first `done` steps of a frame were
/// taken, or `None` outside the render pass.
pub open spec fn subpass_after(done: nat) -> Option<u32> {
    if 3 <= done && done <= 4 {
        Some(VIEWPORT_SUBPASS)
    } else if 5 <= done && done <= 6 {
        Some(UI_SUBPASS)
    } else {
        None
    }
}

/// Each frame records exactly one render pass, begun once and ended once, with
/// exactly one subpass transition between them: the scene is drawn in the
/// scene subpass, then the UI is drawn in the UI subpass, which no frame skips.
pub proof fn lemma_frame_render_pass_structure()
    ensures
        frame_steps().len() == FRAME_STEPS,
        occurrences(frame_steps(), FrameStep::BeginRenderPass) == 1,
        occurrences(frame_steps(), FrameStep::NextSubpass) == 1,
        occurrences(frame_steps(), FrameStep::EndRenderPass) == 1,
        occurrences(frame_steps(), FrameStep::DrawScene) == 1,
        occurrences(frame_steps(), FrameStep::ExecuteUi) == 1,
        frame_steps()[2] == FrameStep::BeginRenderPass,
        frame_steps()[4] == FrameStep::NextSubpass,
        frame_steps()[6] == FrameStep::EndRenderPass,
        subpass_after(4) == Some(VIEWPORT_SUBPASS) && frame_steps()[3] == FrameStep::DrawScene,
        subpass_after(6) == Some(UI_SUBPASS) && frame_steps()[5] == FrameStep::ExecuteUi,
{
    reveal_with_fuel(occurrences, 11);
    let s = frame_steps();
    assert(s.drop_first() =~= s.subrange(1, 10));
    assert(s.subrange(1, 10).drop_first() =~= s.subrange(2, 10));
    assert(s.subrange(2, 10).drop_first() =~= s.subrange(3, 10));
    assert(s.subrange(3, 10).drop_first() =~= s.subrange(4, 10));
    assert(s.subrange(4, 10).drop_first() =~= s.subrange(5, 10));
    assert(s.subrange(5, 10).drop_first() =~= s.subrange(6, 10));
    assert(s.subrange(6, 10).drop_first() =~= s.subrange(7, 10));
    assert(s.subrange(7, 10).drop_first() =~= s.subrange(8, 10));
    assert(s.subrange(8, 10).drop_first() =~= s.subrange(9, 10));
    assert(s.subrange(9, 10).drop_first() =~= s.subrange(10, 10));
}

/// Hands out the steps of frame after frame, in order.
pub struct FrameRecorder {
    done: usize,
}

impl FrameRecorder {
    /// Steps of the current frame already taken.
    pub closed spec fn taken(&self) -> nat {
        self.done as nat
    }

    pub closed spec fn wf(&self) -> bool {
        self.done < FRAME_STEPS
    }

    /// A recorder at the start of a frame.
    pub fn new() -> (r: FrameRecorder)
        ensures
            r.wf(),
            r.taken() == 0,
    {
        FrameRecorder { done: 0 }
    }

    /// Takes the next step; after the last step of a frame the next frame
    /// begins.
    pub fn next_step(&mut self) -> (step: FrameStep)
        requires
            old(self).wf(),
        ensures
            final(self).wf(),
            step == frame_steps()[old(self).taken() as int],
            final(self).taken() == (old(self).taken() + 1) % (FRAME_STEPS as nat),
    {
        let step = match self.done {
            0 => FrameStep::AcquireImage,
            1 => FrameStep::CreateFramebuffer,
            2 => FrameStep::BeginRenderPass,
            3 => FrameStep::DrawScene,
            4 => FrameStep::NextSubpass,
            5 => FrameStep::ExecuteUi,
            6 => FrameStep::EndRenderPass,
            7 => FrameStep::BuildCommandBuffer,
            8 => FrameStep::Submit,
            _ => FrameStep::Present,
        };
        self.done = if self.done + 1 == FRAME_STEPS {
            0
        } else {
            self.done + 1
        };
        step
    }

    /// The subpass that is current, or `None` outside the render pass.
    pub fn current_subpass(&self) -> (r: Option<u32>)
        requires
            self.wf(),
        ensures
            r == subpass_after(self.taken()),
    {
        if 3 <= self.done && self.done <= 4 {
            Some(VIEWPORT_SUBPASS)
        } else if 5 <= self.done && self.done <= 6 {
            Some(UI_SUBPASS)
        } else {
            None
        }
    }

    /// Whether the recorder stands at the start of a frame.
    pub fn at_frame_start(&self) -> (r: bool)
        ensures
            r == (self.taken() == 0),
    {
        self.done == 0
    }
}

/// The steps of one whole frame, in order.
pub fn frame_plan() -> (steps: Vec<FrameStep>)
    ensures
        steps@ == frame_steps(),
{
    let mut rec = FrameRecorder::new();
    let mut steps: Vec<FrameStep> = Vec::new();
    let mut i: usize = 0;
    while i < FRAME_STEPS
        invariant
            i <= FRAME_STEPS,
            rec.wf(),
            rec.taken() == i % FRAME_STEPS,
            steps@ == frame_steps().subrange(0, i as int),
        decreases FRAME_STEPS - i,
    {
        let s = rec.next_step();
        steps.push(s);
        assert(steps@ =~= frame_steps().subrange(0, i + 1));
        i = i + 1;
    }
    assert(frame_steps().subrange(0, FRAME_STEPS as int) =~= frame_steps());
    steps
}

} // verus!
