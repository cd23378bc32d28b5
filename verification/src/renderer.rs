//! The renderer: an ordered list of render batches and the per-frame draw
//! plan over them.
//!
//! The renderer depends only on the `RenderBatch` contract, never on a
//! concrete module type. Each frame it walks the batches in insertion order,
//! skips the invisible ones, and emits one indexed draw command per visible
//! batch — the batch's pipeline and buffers, the full index range, and the
//! full instance range (one instance when the batch has no instance buffer).
//! The host submits the plan to the GPU and maps surface errors to the fixed
//! recovery policy below.

use vstd::prelude::*;

verus! {

/// The capability a drawable unit exposes to the renderer: handles, counts
/// and visibility. Spec-level views pin what each getter returns.
pub trait RenderBatch: Sized {
    /// Whether the batch is drawn this frame.
    spec fn batch_visible(&self) -> bool;

    /// The batch's pipeline handle, if it has one.
    spec fn batch_pipeline(&self) -> Option<u64>;

    /// The batch's vertex buffer handle.
    spec fn batch_vertex_buffer(&self) -> u64;

    /// The batch's index buffer handle.
    spec fn batch_index_buffer(&self) -> u64;

    /// The batch's instance buffer handle, if it draws instanced.
    spec fn batch_instance_buffer(&self) -> Option<u64>;

    /// How many indices the batch draws.
    spec fn batch_index_count(&self) -> u32;

    /// How many instances the batch draws, if it draws instanced.
    spec fn batch_instance_count(&self) -> Option<u32>;

    fn get_visible(&self) -> (r: bool)
        ensures
            r == self.batch_visible(),
    ;

    fn get_pipeline(&self) -> (r: Option<u64>)
        ensures
            r == self.batch_pipeline(),
    ;

    fn get_vertex_buffer(&self) -> (r: u64)
        ensures
            r == self.batch_vertex_buffer(),
    ;

    fn get_index_buffer(&self) -> (r: u64)
        ensures
            r == self.batch_index_buffer(),
    ;

    fn get_instance_buffer(&self) -> (r: Option<u64>)
        ensures
            r == self.batch_instance_buffer(),
    ;

    fn get_indices_count(&self) -> (r: u32)
        ensures
            r == self.batch_index_count(),
    ;

    fn get_instance_count(&self) -> (r: Option<u32>)
        ensures
            r == self.batch_instance_count(),
    ;
}

/// One indexed draw call of the frame plan: which pipeline and buffers to
/// bind, and the index and instance ranges to draw.
#[derive(Clone, Copy, PartialEq, Eq, Structural, Debug)]
pub struct DrawCommand {
    pub pipeline: u64,
    pub vertex_buffer: u64,
    pub index_buffer: u64,
    pub instance_buffer: Option<u64>,
    pub index_count: u32,
    pub instance_count: u32,
}

/// The draw command a visible batch produces: its handles, its full index
/// range, and its full instance range — one instance when the batch has no
/// instance buffer.
pub open spec fn command_of<B: RenderBatch>(b: B) -> DrawCommand {
    DrawCommand {
        pipeline: b.batch_pipeline()->0,
        vertex_buffer: b.batch_vertex_buffer(),
        index_buffer: b.batch_index_buffer(),
        instance_buffer: b.batch_instance_buffer(),
        index_count: b.batch_index_count(),
        instance_count: if b.batch_instance_count() is Some {
            b.batch_instance_count()->0
        } else {
            1u32
        },
    }
}

/// The frame plan over a batch list: one draw command per visible batch, in
/// list order; invisible batches contribute nothing.
pub open spec fn frame_commands<B: RenderBatch>(batches: Seq<B>) -> Seq<DrawCommand>
    decreases batches.len(),
{
    if batches.len() == 0 {
        Seq::empty()
    } else {
        let rest = frame_commands(batches.drop_last());
        if batches.last().batch_visible() {
            rest.push(command_of(batches.last()))
        } else {
            rest
        }
    }
}

/// Law: the frame plan is exactly the visible batches, in list order, each
/// turned into its one draw command — batches with the visibility flag off
/// are skipped, all others are drawn, one command per visible batch.
pub proof fn lemma_frame_commands_match_visible_batches<B: RenderBatch>(batches: Seq<B>)
    ensures
        frame_commands(batches) =~= batches.filter(|b: B| b.batch_visible()).map_values(
            |b: B| command_of(b),
        ),
        frame_commands(batches).len() == batches.filter(|b: B| b.batch_visible()).len(),
    decreases batches.len(),
{
    reveal(Seq::filter);
    if batches.len() == 0 {
        assert(batches.filter(|b: B| b.batch_visible()) =~= Seq::<B>::empty());
    } else {
        lemma_frame_commands_match_visible_batches(batches.drop_last());
        let visible = |b: B| b.batch_visible();
        let sub = batches.drop_last().filter(visible);
        if visible(batches.last()) {
            assert(batches.filter(visible) == sub.push(batches.last()));
            assert(sub.push(batches.last()).map_values(|b: B| command_of(b))
                =~= sub.map_values(|b: B| command_of(b)).push(command_of(batches.last())));
        }
    }
}

/// The renderer: the ordered batches of the current avatar.
pub struct Renderer<B: RenderBatch> {
    pub render_batches: Vec<B>,
}

impl<B: RenderBatch> Renderer<B> {
    pub fn new() -> (r: Renderer<B>)
        ensures
            r.render_batches@.len() == 0,
    {
        let render_batches: Vec<B> = Vec::new();
        Renderer { render_batches }
    }

    /// Appends one batch; later-added batches draw after earlier ones.
    pub fn add_render_batch(&mut self, render_batch: B)
        ensures
            final(self).render_batches@ == old(self).render_batches@.push(render_batch),
    {
        self.render_batches.push(render_batch);
    }

    /// Drops every batch, the first step of an avatar reload.
    pub fn clear_render_batches(&mut self)
        ensures
            final(self).render_batches@.len() == 0,
    {
        self.render_batches.clear();
    }

    /// Plans one frame: walks the batches in insertion order, skips the
    /// invisible ones, and emits one indexed draw command per visible batch.
    pub fn render(&self) -> (r: Vec<DrawCommand>)
        requires
            forall|i: int| 0 <= i < self.render_batches@.len()
                && (#[trigger] self.render_batches@[i]).batch_visible()
                ==> self.render_batches@[i].batch_pipeline() is Some,
        ensures
            r@ == frame_commands(self.render_batches@),
    {
        let mut commands: Vec<DrawCommand> = Vec::new();
        let n = self.render_batches.len();
        let mut i: usize = 0;
        while i < n
            invariant
                n == self.render_batches@.len(),
                i <= n,
                forall|k: int| 0 <= k < n
                    && (#[trigger] self.render_batches@[k]).batch_visible()
                    ==> self.render_batches@[k].batch_pipeline() is Some,
                commands@ == frame_commands(self.render_batches@.take(i as int)),
            decreases n - i,
        {
            let batch = &self.render_batches[i];
            if batch.get_visible() {
                let pipeline = match batch.get_pipeline() {
                    Some(p) => p,
                    None => unreached(),
                };
                let instance_count = match batch.get_instance_count() {
                    Some(c) => c,
                    None => 1,
                };
                commands.push(DrawCommand {
                    pipeline,
                    vertex_buffer: batch.get_vertex_buffer(),
                    index_buffer: batch.get_index_buffer(),
                    instance_buffer: batch.get_instance_buffer(),
                    index_count: batch.get_indices_count(),
                    instance_count,
                });
            }
            proof {
                assert(self.render_batches@.take(i + 1 as int).drop_last()
                    =~= self.render_batches@.take(i as int));
                assert(self.render_batches@.take(i + 1 as int).last()
                    == self.render_batches@[i as int]);
            }
            i = i + 1;
        }
        proof {
            assert(self.render_batches@.take(n as int) =~= self.render_batches@);
        }
        commands
    }
}

/// The fixed clear values every render pass starts from: a fully
/// transparent black color (four `f64` bit patterns, all zero) and depth
/// 1.0 (an `f32` bit pattern).
#[derive(Clone, Copy, PartialEq, Eq, Structural, Debug)]
pub struct ClearValues {
    pub color_r: u64,
    pub color_g: u64,
    pub color_b: u64,
    pub color_a: u64,
    pub depth: u32,
}

/// The clear values of every frame: transparent black, depth 1.0.
pub fn clear_values() -> (r: ClearValues)
    ensures
        r == (ClearValues {
            color_r: 0,
            color_g: 0,
            color_b: 0,
            color_a: 0,
            depth: crate::bits::F32_ONE,
        }),
{
    ClearValues { color_r: 0, color_g: 0, color_b: 0, color_a: 0, depth: crate::bits::F32_ONE }
}

/// Per-frame surface failures, as the swapchain reports them.
#[derive(Clone, Copy, PartialEq, Eq, Structural, Debug)]
pub enum SurfaceError {
    Lost,
    Outdated,
    OutOfMemory,
    Timeout,
}

/// What the render loop does about a surface failure.
#[derive(Clone, Copy, PartialEq, Eq, Structural, Debug)]
pub enum SurfaceErrorAction {
    /// Reconfigure the surface and retry next frame.
    Reconfigure,
    /// Out of memory: terminate.
    Terminate,
    /// Log and skip this frame.
    SkipFrame,
}

/// The fixed recovery policy: a lost or outdated surface is reconfigured,
/// running out of memory is fatal, a timeout only skips the frame.
pub fn surface_error_action(error: &SurfaceError) -> (r: SurfaceErrorAction)
    ensures
        r is Reconfigure <==> (error is Lost || error is Outdated),
        r is Terminate <==> error is OutOfMemory,
        r is SkipFrame <==> error is Timeout,
{
    match error {
        SurfaceError::Lost => SurfaceErrorAction::Reconfigure,
        SurfaceError::Outdated => SurfaceErrorAction::Reconfigure,
        SurfaceError::OutOfMemory => SurfaceErrorAction::Terminate,
        SurfaceError::Timeout => SurfaceErrorAction::SkipFrame,
    }
}

} // verus!
