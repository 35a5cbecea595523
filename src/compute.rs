use vstd::prelude::*;

verus! {

/// The number of workgroups of `local` invocations each that covers `len`
/// invocations: the ceiling of `len / local`.
pub open spec fn covering_groups(len: int, local: int) -> int {
    (len + local - 1) / local
}

/// Workgroups of `local` invocations needed so that every element of a buffer
/// of `len` elements gets one invocation, and no workgroup is wholly idle.
pub fn workgroup_count(len: u32, local: u32) -> (groups: u32)
    requires
        local > 0,
    ensures
        groups as int * local as int >= len as int,
        (groups as int - 1) * (local as int) < (len as int),
        groups as int == covering_groups(len as int, local as int),
{
    let q: u32 = len / local;
    let rem: u32 = len % local;
    proof {
        vstd::arithmetic::div_mod::lemma_fundamental_div_mod(len as int, local as int);
    }
    let groups: u32 = if rem == 0 {
        q
    } else {
        assert(q < u32::MAX) by (nonlinear_arith)
            requires
                len as int == local as int * q as int + rem as int,
                0 < rem < local,
                len <= u32::MAX,
        ;
        q + 1
    };
    proof {
        let l = len as int;
        let d = local as int;
        let g = groups as int;
        assert(g * d >= l && (g - 1) * d < l) by (nonlinear_arith)
            requires
                l == d * (q as int) + rem as int,
                0 <= rem < d,
                rem == 0 ==> g == q as int,
                rem != 0 ==> g == q as int + 1,
        ;
        assert(covering_groups(l, d) == g) by (nonlinear_arith)
            requires
                g * d >= l,
                (g - 1) * d < l,
                d > 0,
        {
            let c = l + d - 1;
            assert(c == d * g + (c - d * g));
            assert(0 <= c - d * g < d);
            vstd::arithmetic::div_mod::lemma_fundamental_div_mod_converse_div(c, d, g, c - d * g);
        }
    }
    groups
}

/// The three-dimensional dispatch size of a one-dimensional job over `len`
/// elements with workgroups of `local` invocations.
pub fn dispatch_size(len: u32, local: u32) -> (size: [u32; 3])
    requires
        local > 0,
    ensures
        size@ == seq![covering_groups(len as int, local as int) as u32, 1u32, 1u32],
        size[0] as int * local as int >= len as int,
        (size[0] as int - 1) * (local as int) < (len as int),
{
    let groups = workgroup_count(len, local);
    let size: [u32; 3] = [groups, 1, 1];
    assert(size@ =~= seq![groups, 1u32, 1u32]);
    size
}

/// One command of a compute submission, in recording order.
#[derive(Debug, PartialEq, Eq)]
pub enum ComputeCommand {
    /// Bind the executor's compute pipeline.
    BindPipeline,
    /// Bind the executor's descriptor set at this set index.
    BindDescriptorSet { set: u32 },
    /// Upload the push-constant block at offset zero.
    PushConstants { bytes: Vec<u8> },
    /// Dispatch this many workgroups.
    Dispatch { groups: [u32; 3] },
    /// Build the command buffer and submit it on the queue.
    Submit,
    /// Block until the fence of the submission signals.
    WaitFence,
}

/// The commands that one execution of a compute shader records and runs:
/// the pipeline, the one descriptor set at index zero, the push constants when
/// the shader has any, the dispatch, then the submission and a blocking wait.
pub open spec fn dispatch_sequence(groups: [u32; 3], constants: Option<Seq<u8>>) -> Seq<
    ComputeCommandView,
> {
    match constants {
        Some(bytes) => seq![
            ComputeCommandView::BindPipeline,
            ComputeCommandView::BindDescriptorSet { set: 0 },
            ComputeCommandView::PushConstants { bytes },
            ComputeCommandView::Dispatch { groups },
            ComputeCommandView::Submit,
            ComputeCommandView::WaitFence,
        ],
        None => seq![
            ComputeCommandView::BindPipeline,
            ComputeCommandView::BindDescriptorSet { set: 0 },
            ComputeCommandView::Dispatch { groups },
            ComputeCommandView::Submit,
            ComputeCommandView::WaitFence,
        ],
    }
}

/// A compute command with its push-constant bytes as a sequence; the
/// variants mean what those of `ComputeCommand` mean.
pub enum ComputeCommandView {
    BindPipeline,
    BindDescriptorSet { set: u32 },
    PushConstants { bytes: Seq<u8> },
    Dispatch { groups: [u32; 3] },
    Submit,
    WaitFence,
}

impl View for ComputeCommand {
    type V = ComputeCommandView;

    open spec fn view(&self) -> ComputeCommandView {
        match self {
            ComputeCommand::BindPipeline => ComputeCommandView::BindPipeline,
            ComputeCommand::BindDescriptorSet { set } => ComputeCommandView::BindDescriptorSet {
                set: *set,
            },
            ComputeCommand::PushConstants { bytes } => ComputeCommandView::PushConstants {
                bytes: bytes@,
            },
            ComputeCommand::Dispatch { groups } => ComputeCommandView::Dispatch { groups: *groups },
            ComputeCommand::Submit => ComputeCommandView::Submit,
            ComputeCommand::WaitFence => ComputeCommandView::WaitFence,
        }
    }
}

/// The views of a list of commands.
pub open spec fn commands_view(cmds: Seq<ComputeCommand>) -> Seq<ComputeCommandView> {
    cmds.map_values(|c: ComputeCommand| c@)
}

/// The bytes of an optional push-constant block.
pub open spec fn bytes_view(constants: Option<Vec<u8>>) -> Option<Seq<u8>> {
    match constants {
        Some(b) => Some(b@),
        None => None,
    }
}

/// Records one execution of a compute shader whose dispatch size is `groups`
/// and whose push-constant block, if any, is `constants`.
pub fn record_dispatch(groups: [u32; 3], constants: Option<Vec<u8>>) -> (cmds: Vec<ComputeCommand>)
    ensures
        commands_view(cmds@) == dispatch_sequence(groups, bytes_view(constants)),
{
    let ghost want = dispatch_sequence(groups, bytes_view(constants));
    let mut cmds: Vec<ComputeCommand> = Vec::new();
    cmds.push(ComputeCommand::BindPipeline);
    cmds.push(ComputeCommand::BindDescriptorSet { set: 0 });
    match constants {
        Some(bytes) => {
            cmds.push(ComputeCommand::PushConstants { bytes });
        },
        None => {},
    }
    cmds.push(ComputeCommand::Dispatch { groups });
    cmds.push(ComputeCommand::Submit);
    cmds.push(ComputeCommand::WaitFence);
    proof {
        assert(commands_view(cmds@) =~= want);
    }
    cmds
}

/// What a command does to the contents `m` of the bound buffers, given what
/// the shader's dispatch does to them: only the dispatch runs the shader; the
/// other commands bind, upload parameters, submit or wait and write no buffer.
pub open spec fn command_effect<M>(c: ComputeCommandView, m: M, shader: spec_fn(M) -> M) -> M {
    match c {
        ComputeCommandView::Dispatch { .. } => shader(m),
        _ => m,
    }
}

/// The effect of running `cmds` in order.
pub open spec fn run_commands<M>(cmds: Seq<ComputeCommandView>, m: M, shader: spec_fn(M) -> M) -> M
    decreases cmds.len(),
{
    if cmds.len() == 0 {
        m
    } else {
        run_commands(cmds.drop_first(), command_effect(cmds[0], m, shader), shader)
    }
}

/// The effect of `n` executions of the same recorded dispatch.
pub open spec fn run_repeated<M>(
    cmds: Seq<ComputeCommandView>,
    n: nat,
    m: M,
    shader: spec_fn(M) -> M,
) -> M
    decreases n,
{
    if n == 0 {
        m
    } else {
        run_repeated(cmds, (n - 1) as nat, run_commands(cmds, m, shader), shader)
    }
}

proof fn lemma_run_commands_identity<M>(cmds: Seq<ComputeCommandView>, m: M, shader: spec_fn(M) -> M)
    requires
        forall|x: M| #[trigger] shader(x) == x,
    ensures
        run_commands(cmds, m, shader) == m,
    decreases cmds.len(),
{
    if cmds.len() > 0 {
        lemma_run_commands_identity(cmds.drop_first(), command_effect(cmds[0], m, shader), shader);
    }
}

/// Running a shader that leaves its bound buffers as they are any number of
/// times through the executor's recorded commands leaves the buffers
/// unchanged: the executor adds no write of its own.
pub proof fn lemma_noop_shader_repeats<M>(
    groups: [u32; 3],
    constants: Option<Seq<u8>>,
    n: nat,
    m: M,
    shader: spec_fn(M) -> M,
)
    requires
        forall|x: M| #[trigger] shader(x) == x,
    ensures
        run_repeated(dispatch_sequence(groups, constants), n, m, shader) == m,
    decreases n,
{
    let cmds = dispatch_sequence(groups, constants);
    if n > 0 {
        lemma_run_commands_identity(cmds, m, shader);
        lemma_noop_shader_repeats(groups, constants, (n - 1) as nat, m, shader);
    }
}

} // verus!
