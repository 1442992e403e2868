//! Batch sprites together for optimised draw calls.
//!
//! Sprites are drawn in the order in which they were added. Consecutive
//! sprites of one texture share a draw call, up to `BATCH_SIZE` sprites per
//! call.

use vstd::prelude::*;
use crate::graphics::device::GraphicDevice;
use crate::graphics::gl;
use crate::graphics::gpu::{BufferSource, GpuCommand};
use crate::graphics::shader::Shader;
use crate::graphics::texture::{Texture, TextureHandle};
use crate::graphics::vao::{UsageFrequency, UsageNature, VaoCreate, VertexArrayObject, VertexLayout};

verus! {

/// The largest number of sprites in one draw call.
pub const BATCH_SIZE: usize = 2048;

/// Uniform location of the surface size in the sprite shader.
pub const CANVAS_SIZE_LOC: u32 = 0;

/// Uniform location of the transform matrix in the sprite shader.
pub const TRANSFORM_LOC: u32 = 1;

/// Uniform location of the texture sampler in the sprite shader.
pub const SAMPLER_LOC: u32 = 2;

/// A run of consecutive sprites that one draw call draws.
#[derive(Debug, Clone, Copy, PartialEq, Eq)]
pub struct Batch {
    /// The texture of every sprite of the run.
    pub texture: u32,
    /// The position of the run's first sprite among the added sprites.
    pub first: usize,
    /// The number of sprites of the run.
    pub count: usize,
}

/// What a draw asks of the graphics context.
#[derive(Debug)]
pub struct DrawPlan {
    /// The runs, in drawing order.
    pub batches: Vec<Batch>,
    /// The commands, in order.
    pub commands: Vec<GpuCommand>,
}

/// Whether the run at position `k` is in order: it begins where the run
/// before it ends, holds between one and `BATCH_SIZE` sprites, all of its
/// texture, and the run before it ended because the texture changed or
/// because it was full.
pub open spec fn run_in_order(textures: Seq<u32>, batches: Seq<Batch>, k: int) -> bool {
    &&& 1 <= batches[k].count <= BATCH_SIZE
    &&& batches[k].first == (if k == 0 {
        0
    } else {
        batches[k - 1].first + batches[k - 1].count
    })
    &&& batches[k].first + batches[k].count <= textures.len()
    &&& forall|i: int|
        batches[k].first <= i < batches[k].first + batches[k].count ==> #[trigger] textures[i]
            == batches[k].texture
    &&& k > 0 ==> batches[k - 1].texture != batches[k].texture || batches[k - 1].count
        == BATCH_SIZE
}

/// Whether `batches` is the batching of sprites with the given textures:
/// every run is in order, and the runs reach from the first sprite to the
/// last.
pub open spec fn is_batching(textures: Seq<u32>, batches: Seq<Batch>) -> bool {
    &&& forall|k: int| 0 <= k < batches.len() ==> #[trigger] run_in_order(textures, batches, k)
    &&& covered(batches) == textures.len()
}

/// The number of sprites that the runs cover.
pub open spec fn covered(batches: Seq<Batch>) -> int {
    if batches.len() == 0 {
        0
    } else {
        batches.last().first + batches.last().count
    }
}

/// The indices of the two triangles of each of `count` quads, six per quad,
/// where quad `k` has the vertices `4k` to `4k + 3`.
pub open spec fn quad_indices(count: nat) -> Seq<u16> {
    Seq::new(
        count * 6,
        |i: int|
            {
                let corner = i % 6;
                let base = 4 * (i / 6);
                (base + (if corner == 0 || corner == 3 {
                    0int
                } else if corner == 1 {
                    1int
                } else if corner == 2 || corner == 4 {
                    2int
                } else {
                    3int
                })) as u16
            },
    )
}

/// The indices that fill the index buffer when it is allocated: six for
/// each of `BATCH_SIZE` entries, entry `k` starting from the vertex `k`.
pub open spec fn initial_indices() -> Seq<u16> {
    Seq::new(
        (BATCH_SIZE * 6) as nat,
        |i: int|
            {
                let corner = i % 6;
                let base = i / 6;
                (base + (if corner == 0 || corner == 3 {
                    0int
                } else if corner == 1 {
                    1int
                } else if corner == 2 || corner == 4 {
                    2int
                } else {
                    3int
                })) as u16
            },
    )
}

/// The commands that select a texture for the sprite shader.
pub open spec fn bind_commands(texture: u32) -> Seq<GpuCommand> {
    seq![
        GpuCommand::UniformSampler { location: SAMPLER_LOC, unit: 0 },
        GpuCommand::ActiveTexture(gl::TEXTURE0),
        GpuCommand::BindTexture(Some(texture)),
    ]
}

/// The commands that upload the vertices and indices of a run and draw it.
pub open spec fn flush_commands(vao: VertexArrayObject, batch: Batch) -> Seq<GpuCommand> {
    seq![
        GpuCommand::BindBuffer { target: gl::ARRAY_BUFFER, buffer: Some(vao.buffers().0) },
        GpuCommand::BufferSprites {
            target: gl::ARRAY_BUFFER,
            source: BufferSource::Vertices,
            first: batch.first,
            count: batch.count,
        },
        GpuCommand::BindBuffer { target: gl::ELEMENT_ARRAY_BUFFER, buffer: Some(vao.buffers().1) },
        GpuCommand::BufferSprites {
            target: gl::ELEMENT_ARRAY_BUFFER,
            source: BufferSource::Indices,
            first: batch.first,
            count: batch.count,
        },
        GpuCommand::DrawElements { count: (batch.count * 6) as usize },
    ]
}

/// The commands of the run at position `k`: the texture is selected where
/// it differs from that of the run before, then the run is drawn.
pub open spec fn batch_commands(vao: VertexArrayObject, batches: Seq<Batch>, k: int) -> Seq<
    GpuCommand,
> {
    (if k == 0 || batches[k - 1].texture != batches[k].texture {
        bind_commands(batches[k].texture)
    } else {
        Seq::<GpuCommand>::empty()
    }) + flush_commands(vao, batches[k])
}

/// The commands of the first `upto` runs.
pub open spec fn batches_commands(vao: VertexArrayObject, batches: Seq<Batch>, upto: nat) -> Seq<
    GpuCommand,
>
    decreases upto,
{
    if upto == 0 {
        Seq::<GpuCommand>::empty()
    } else {
        batches_commands(vao, batches, (upto - 1) as nat) + batch_commands(vao, batches, upto - 1)
    }
}

/// The commands that precede the runs of a draw.
pub open spec fn prologue(viewport: (u32, u32), program: u32, vao: u32) -> Seq<GpuCommand> {
    seq![
        GpuCommand::Viewport { width: viewport.0, height: viewport.1 },
        GpuCommand::UseProgram(Some(program)),
        GpuCommand::UniformCanvasSize {
            location: CANVAS_SIZE_LOC,
            width: viewport.0,
            height: viewport.1,
        },
        GpuCommand::UniformTransform { location: TRANSFORM_LOC },
        GpuCommand::BindVertexArray(Some(vao)),
    ]
}

/// The commands that follow the runs of a draw.
pub open spec fn epilogue() -> Seq<GpuCommand> {
    seq![
        GpuCommand::BindTexture(None),
        GpuCommand::BindVertexArray(None),
        GpuCommand::UseProgram(None),
    ]
}

/// The commands of a draw of the given runs; none where there is no run.
pub open spec fn draw_commands(
    viewport: (u32, u32),
    program: u32,
    vao: VertexArrayObject,
    batches: Seq<Batch>,
) -> Seq<GpuCommand> {
    if batches.len() == 0 {
        Seq::<GpuCommand>::empty()
    } else {
        prologue(viewport, program, vao.raw()) + batches_commands(vao, batches, batches.len())
            + epilogue()
    }
}

proof fn lemma_batching_extends(textures: Seq<u32>, earlier: Seq<Batch>, batch: Batch, end: int)
    requires
        0 <= batch.first < end <= textures.len(),
        batch.count == end - batch.first,
        batch.count <= BATCH_SIZE,
        is_batching(textures.take(batch.first as int), earlier),
        forall|j: int| batch.first <= j < end ==> textures[j] == batch.texture,
        earlier.len() > 0 ==> earlier.last().texture != batch.texture || earlier.last().count
            == BATCH_SIZE,
    ensures
        is_batching(textures.take(end), earlier.push(batch)),
{
    let batches = earlier.push(batch);
    let shorter = textures.take(batch.first as int);
    let longer = textures.take(end);
    assert forall|k: int| 0 <= k < batches.len() implies #[trigger] run_in_order(
        longer,
        batches,
        k,
    ) by {
        if k < earlier.len() {
            assert(run_in_order(shorter, earlier, k));
            assert(batches[k] == earlier[k]);
            if k > 0 {
                assert(batches[k - 1] == earlier[k - 1]);
            }
            assert forall|i: int|
                batches[k].first <= i < batches[k].first + batches[k].count implies #[trigger] longer[i]
                == batches[k].texture by {
                assert(shorter[i] == earlier[k].texture);
            }
        } else {
            assert(batches[k] == batch);
            if k > 0 {
                assert(batches[k - 1] == earlier.last());
            }
        }
    }
}

/// The sprites have one batching only: two batchings of the same textures
/// are the same runs.
pub proof fn lemma_batching_is_unique(textures: Seq<u32>, a: Seq<Batch>, b: Seq<Batch>)
    requires
        is_batching(textures, a),
        is_batching(textures, b),
    ensures
        a == b,
{
    lemma_batchings_agree(textures, a, b, a.len());
    lemma_batchings_agree(textures, b, a, b.len());
    if a.len() < b.len() {
        lemma_runs_advance(textures, b, a.len() as int);
        assert(run_in_order(textures, b, a.len() as int));
        if a.len() > 0 {
            assert(a.last() == b[a.len() - 1]);
        }
    } else if b.len() < a.len() {
        lemma_runs_advance(textures, a, b.len() as int);
        assert(run_in_order(textures, a, b.len() as int));
        if b.len() > 0 {
            assert(b.last() == a[b.len() - 1]);
        }
    }
    assert(a =~= b);
}

proof fn lemma_runs_advance(textures: Seq<u32>, batches: Seq<Batch>, k: int)
    requires
        is_batching(textures, batches),
        0 <= k < batches.len(),
    ensures
        batches[k].first + batches[k].count <= covered(batches),
    decreases batches.len() - k,
{
    assert(run_in_order(textures, batches, k));
    if k + 1 < batches.len() {
        lemma_runs_advance(textures, batches, k + 1);
        assert(run_in_order(textures, batches, k + 1));
    }
}

proof fn lemma_batchings_agree(textures: Seq<u32>, a: Seq<Batch>, b: Seq<Batch>, upto: nat)
    requires
        is_batching(textures, a),
        is_batching(textures, b),
        upto <= a.len(),
    ensures
        forall|k: int| 0 <= k < upto && k < b.len() ==> a[k] == b[k],
    decreases upto,
{
    if upto > 0 {
        lemma_batchings_agree(textures, a, b, (upto - 1) as nat);
        let k = upto - 1;
        if k < b.len() {
            assert(run_in_order(textures, a, k));
            assert(run_in_order(textures, b, k));
            if k > 0 {
                assert(a[k - 1] == b[k - 1]);
            }
            assert(a[k].first == b[k].first);
            let first = a[k].first as int;
            assert(textures[first] == a[k].texture);
            assert(textures[first] == b[k].texture);
            lemma_run_is_maximal(textures, a, k, b[k]);
            lemma_run_is_maximal(textures, b, k, a[k]);
        }
    }
}

/// A run of one texture that starts where a run of a batching starts is
/// no longer than that run.
proof fn lemma_run_is_maximal(textures: Seq<u32>, batches: Seq<Batch>, k: int, other: Batch)
    requires
        is_batching(textures, batches),
        0 <= k < batches.len(),
        other.first == batches[k].first,
        other.texture == batches[k].texture,
        other.count <= BATCH_SIZE,
        other.first + other.count <= textures.len(),
        forall|i: int|
            other.first <= i < other.first + other.count ==> #[trigger] textures[i]
                == other.texture,
    ensures
        other.count <= batches[k].count,
{
    assert(run_in_order(textures, batches, k));
    lemma_runs_advance(textures, batches, k);
    let next = batches[k].first + batches[k].count;
    if batches[k].count < other.count {
        if k + 1 < batches.len() {
            assert(run_in_order(textures, batches, k + 1));
            assert(textures[next] == batches[k + 1].texture);
            assert(textures[next] == other.texture);
        } else {
            assert(covered(batches) == next);
        }
    }
}

/// What the batch keeps of a sprite until the draw: the texture, and the
/// shared texture handle so that the texture's owner count covers the
/// sprite.
#[derive(Debug, Clone, Copy, PartialEq, Eq)]
pub struct BatchItem {
    pub texture_raw: u32,
    pub texture_handle: TextureHandle,
}

#[derive(Debug)]
pub struct SpriteBatch {
    items: Vec<BatchItem>,
    vao: VertexArrayObject,
}

impl SpriteBatch {
    /// The textures of the sprites added since the last draw, in order.
    pub closed spec fn textures(self) -> Seq<u32> {
        Seq::new(self.items@.len(), |i: int| self.items@[i].texture_raw)
    }

    /// The vertex array object that the batch draws with.
    pub closed spec fn vertex_array(self) -> VertexArrayObject {
        self.vao
    }

    /// Begins the allocation of the batch's vertex array object, sized for
    /// `BATCH_SIZE` sprites. The caller supplies four vertices per sprite
    /// as vertex data and `indices` as index data.
    pub fn create(layout: VertexLayout, indices: &[u16]) -> (pending: VaoCreate)
        ensures
            pending.stage() == 0,
            pending.layout() == layout,
            pending.usage() == gl::DYNAMIC_DRAW,
            pending.index_count() == indices@.len(),
    {
        VertexArrayObject::create(layout, indices, UsageFrequency::Dynamic, UsageNature::Draw)
    }

    /// An empty batch that draws with the given vertex array object.
    pub fn new(vao: VertexArrayObject) -> (batch: Self)
        ensures
            batch.textures() == Seq::<u32>::empty(),
            batch.vertex_array() == vao,
    {
        let batch = Self { items: Vec::new(), vao };
        assert(batch.textures() =~= Seq::<u32>::empty());
        batch
    }

    /// The index data with which the batch's index buffer is allocated.
    pub fn initial_indices() -> (indices: Vec<u16>)
        ensures
            indices@ == initial_indices(),
    {
        let mut indices: Vec<u16> = Vec::new();
        let mut i: u16 = 0;
        while i < 2048
            invariant
                i <= 2048,
                indices@.len() == i * 6,
                forall|j: int| 0 <= j < indices@.len() ==> indices@[j] == initial_indices()[j],
            decreases 2048 - i,
        {
            indices.push(i);
            indices.push(i + 1);
            indices.push(i + 2);
            indices.push(i);
            indices.push(i + 2);
            indices.push(i + 3);
            i += 1;
        }
        assert(indices@ =~= initial_indices());
        indices
    }

    /// The index data of a run of `count` sprites.
    pub fn quad_indices(count: usize) -> (indices: Vec<u16>)
        requires
            count <= BATCH_SIZE,
        ensures
            indices@ == quad_indices(count as nat),
    {
        let mut indices: Vec<u16> = Vec::new();
        let mut k: usize = 0;
        while k < count
            invariant
                k <= count <= BATCH_SIZE,
                indices@.len() == k * 6,
                forall|j: int|
                    0 <= j < indices@.len() ==> indices@[j] == quad_indices(count as nat)[j],
            decreases count - k,
        {
            let i: u16 = (k * 4) as u16;
            indices.push(i);
            indices.push(i + 1);
            indices.push(i + 2);
            indices.push(i);
            indices.push(i + 2);
            indices.push(i + 3);
            k += 1;
        }
        assert(indices@ =~= quad_indices(count as nat));
        indices
    }

    /// Adds a sprite with the given texture; a sprite without texture is
    /// not added. Tells whether the sprite was added.
    pub fn add(&mut self, texture: Option<&Texture>) -> (added: bool)
        ensures
            added == texture is Some,
            final(self).vertex_array() == old(self).vertex_array(),
            final(self).textures() == match texture {
                Some(t) => old(self).textures().push(t.raw()),
                None => old(self).textures(),
            },
    {
        match texture {
            Some(texture) => {
                self.items.push(
                    BatchItem { texture_raw: texture.raw_handle(), texture_handle: texture.handle() },
                );
                assert(self.textures() =~= old(self).textures().push(texture.raw()));
                true
            },
            None => false,
        }
    }

    /// The number of sprites added since the last draw.
    pub fn len(&self) -> (n: usize)
        ensures
            n == self.textures().len(),
    {
        self.items.len()
    }

    /// Splits the added sprites into runs and gives the commands that draw
    /// them; the batch is empty afterwards. Without sprites there is no
    /// command.
    pub fn draw(&mut self, device: &GraphicDevice, shader: &Shader) -> (plan: DrawPlan)
        ensures
            is_batching(old(self).textures(), plan.batches@),
            plan.commands@ == draw_commands(
                device.viewport(),
                shader.raw(),
                old(self).vertex_array(),
                plan.batches@,
            ),
            final(self).textures() == Seq::<u32>::empty(),
            final(self).vertex_array() == old(self).vertex_array(),
    {
        let batches = self.plan();
        assert forall|j: int| 0 <= j < batches@.len() implies (#[trigger] batches@[j]).count
            <= BATCH_SIZE by {
            assert(run_in_order(self.textures(), batches@, j));
        }
        let mut commands: Vec<GpuCommand> = Vec::new();
        if batches.len() > 0 {
            let size = device.viewport_size();
            commands.push(GpuCommand::Viewport { width: size[0], height: size[1] });
            commands.push(GpuCommand::UseProgram(Some(shader.program())));
            commands.push(
                GpuCommand::UniformCanvasSize {
                    location: CANVAS_SIZE_LOC,
                    width: size[0],
                    height: size[1],
                },
            );
            commands.push(GpuCommand::UniformTransform { location: TRANSFORM_LOC });
            commands.push(GpuCommand::BindVertexArray(Some(self.vao.handle())));
            let ghost head = commands@;
            assert(head =~= prologue(device.viewport(), shader.raw(), self.vao.raw()));
            let mut k: usize = 0;
            while k < batches.len()
                invariant
                    k <= batches@.len(),
                    forall|j: int| 0 <= j < batches@.len() ==> (#[trigger] batches@[j]).count <= BATCH_SIZE,
                    self.vao == old(self).vao,
                    commands@ == head + batches_commands(self.vao, batches@, k as nat),
                decreases batches@.len() - k,
            {
                let ghost before = commands@;
                Self::push_batch(&mut commands, &self.vao, &batches, k);
                assert(commands@ =~= head + batches_commands(self.vao, batches@, (k + 1) as nat))
                    by {
                    assert(batches_commands(self.vao, batches@, (k + 1) as nat)
                        == batches_commands(self.vao, batches@, k as nat) + batch_commands(
                        self.vao,
                        batches@,
                        k as int,
                    ));
                }
                k += 1;
            }
            let ghost body = commands@;
            commands.push(GpuCommand::BindTexture(None));
            commands.push(GpuCommand::BindVertexArray(None));
            commands.push(GpuCommand::UseProgram(None));
            assert(commands@ =~= body + epilogue());
        }
        self.items.clear();
        assert(self.textures() =~= Seq::<u32>::empty());
        DrawPlan { batches, commands }
    }

    fn push_batch(
        commands: &mut Vec<GpuCommand>,
        vao: &VertexArrayObject,
        batches: &Vec<Batch>,
        k: usize,
    )
        requires
            k < batches@.len(),
            batches@[k as int].count <= BATCH_SIZE,
        ensures
            final(commands)@ == old(commands)@ + batch_commands(*vao, batches@, k as int),
    {
        let batch = batches[k];
        if k == 0 || batches[k - 1].texture != batch.texture {
            commands.push(GpuCommand::UniformSampler { location: SAMPLER_LOC, unit: 0 });
            commands.push(GpuCommand::ActiveTexture(gl::TEXTURE0));
            commands.push(GpuCommand::BindTexture(Some(batch.texture)));
        }
        commands.push(
            GpuCommand::BindBuffer { target: gl::ARRAY_BUFFER, buffer: Some(vao.vertex_buf_handle()) },
        );
        commands.push(
            GpuCommand::BufferSprites {
                target: gl::ARRAY_BUFFER,
                source: BufferSource::Vertices,
                first: batch.first,
                count: batch.count,
            },
        );
        commands.push(
            GpuCommand::BindBuffer {
                target: gl::ELEMENT_ARRAY_BUFFER,
                buffer: Some(vao.index_buf_handle()),
            },
        );
        commands.push(
            GpuCommand::BufferSprites {
                target: gl::ELEMENT_ARRAY_BUFFER,
                source: BufferSource::Indices,
                first: batch.first,
                count: batch.count,
            },
        );
        commands.push(GpuCommand::DrawElements { count: batch.count * 6 });
        assert(commands@ =~= old(commands)@ + batch_commands(*vao, batches@, k as int));
    }

    /// The runs into which the added sprites fall.
    pub fn plan(&self) -> (batches: Vec<Batch>)
        ensures
            is_batching(self.textures(), batches@),
    {
        let mut batches: Vec<Batch> = Vec::new();
        let n = self.items.len();
        let mut i: usize = 0;
        while i < n
            invariant
                n == self.items@.len(),
                i <= n,
                is_batching(self.textures().take(i as int), batches@),
                i < n && batches@.len() > 0 ==> batches@.last().texture != self.textures()[i as int]
                    || batches@.last().count == BATCH_SIZE,
            decreases n - i,
        {
            let texture = self.items[i].texture_raw;
            let first = i;
            let mut count: usize = 0;
            while i < n && count < BATCH_SIZE && self.items[i].texture_raw == texture
                invariant
                    n == self.items@.len(),
                    first <= i <= n,
                    first < n,
                    texture == self.textures()[first as int],
                    count == i - first,
                    count <= BATCH_SIZE,
                    forall|j: int| first <= j < i ==> self.textures()[j] == texture,
                decreases n - i,
            {
                i += 1;
                count += 1;
            }
            let ghost earlier = batches@;
            batches.push(Batch { texture, first, count });
            proof {
                lemma_batching_extends(
                    self.textures(),
                    earlier,
                    Batch { texture, first, count },
                    i as int,
                );
            }
        }
        assert(self.textures().take(n as int) =~= self.textures());
        batches
    }
}

} // verus!
