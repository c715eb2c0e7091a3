//! Section decoding, chunk placement and world import planning.
//!
//! The importer turns a world description into a placement: the chunk
//! positions a world store has to allocate and the ordered per-voxel writes
//! it has to perform.  Decoding walks every section voxel in
//! `y * 256 + x * 16 + z` order, resolves the palette index to a block
//! state, applies the voxel's tags, and computes absolute coordinates from
//! the chunk origin and the running vertical base offset.

use vstd::arithmetic::div_mod::lemma_fundamental_div_mod_converse;
use vstd::prelude::*;

use crate::registry::{
    filler_state, kind_state_for_identifier, set_props, spec_filler_state,
    spec_kind_state_for_identifier, spec_set_props,
};
use crate::world::{
    spec_find_tags, Chunk, DanDimension, Section, VoxelWorld, CHUNK_COORD_LIMIT, SECTION_VOLUME,
};

verus! {

/// The position of a chunk a world store has to allocate.
#[derive(Clone, Copy, Debug, PartialEq, Eq, Structural)]
pub struct ChunkPos {
    pub x: i32,
    pub z: i32,
}

/// One voxel write: a block state, and for imported worlds a biome, at an
/// absolute world coordinate.
#[derive(Clone, Copy, Debug, PartialEq, Eq)]
pub struct VoxelWrite {
    pub x: i32,
    pub y: i32,
    pub z: i32,
    /// The raw block state id to write.
    pub state: u16,
    /// The biome index to write, or none when no biome write is owed.
    pub biome: Option<u16>,
}

/// Everything a world store has to perform for one import.
#[derive(Clone, Debug, PartialEq, Eq)]
pub struct Placement {
    /// Chunk positions to allocate, in order.
    pub chunk_inserts: Vec<ChunkPos>,
    /// Per-voxel writes, in order.
    pub writes: Vec<VoxelWrite>,
}

/// The outcome of planning an import: the target dimension and the
/// placement to perform in it.
#[derive(Clone, Debug, PartialEq, Eq)]
pub struct ImportPlan {
    pub dimension: DanDimension,
    pub placement: Placement,
}

/// The section-local x coordinate of the voxel at flat index `k`.
pub open spec fn voxel_x(k: int) -> int {
    (k / 16) % 16
}

/// The section-local y coordinate of the voxel at flat index `k`.
pub open spec fn voxel_y(k: int) -> int {
    k / 256
}

/// The section-local z coordinate of the voxel at flat index `k`.
pub open spec fn voxel_z(k: int) -> int {
    k % 16
}

/// The block state a palette index resolves to: the identified kind's
/// default state, or the filler state when the index is outside the
/// palette.
pub open spec fn spec_palette_state(s: Section, idx: u16) -> u16 {
    if idx < s.palette@.len() {
        spec_kind_state_for_identifier(s.palette@[idx as int]@)
    } else {
        spec_filler_state()
    }
}

/// The block state of the voxel at flat index `k`: the palette state with
/// the voxel's tags applied, or the bare palette state when the voxel has
/// no tag entry.
pub open spec fn spec_voxel_state(s: Section, k: int) -> u16 {
    let base = spec_palette_state(s, s.blocks@[k]);
    match spec_find_tags(s.data@, voxel_x(k) as u8, voxel_y(k) as u8, voxel_z(k) as u8) {
        Some(tags) => spec_set_props(base, tags),
        None => base,
    }
}

/// The write for the voxel at flat index `k` of a section whose chunk sits
/// at chunk coordinates `(cx, cz)` with vertical base offset `base_y`.
pub open spec fn spec_voxel_write(s: Section, cx: i32, cz: i32, base_y: i32, k: int) -> VoxelWrite {
    VoxelWrite {
        x: (cx * 16 + voxel_x(k)) as i32,
        y: (base_y + voxel_y(k)) as i32,
        z: (cz * 16 + voxel_z(k)) as i32,
        state: spec_voxel_state(s, k),
        biome: Some(s.biomes@[k]),
    }
}

/// The 4096 writes of one section, in `y * 256 + x * 16 + z` order.
pub open spec fn spec_section_writes(s: Section, cx: i32, cz: i32, base_y: i32) -> Seq<
    VoxelWrite,
> {
    Seq::new(SECTION_VOLUME as nat, |k: int| spec_voxel_write(s, cx, cz, base_y, k))
}

/// Decodes one section into its 4096 voxel writes.
pub fn decode_section(s: &Section, chunk_x: i32, chunk_z: i32, base_y: i32) -> (r: Vec<VoxelWrite>)
    requires
        s.wf(),
        -CHUNK_COORD_LIMIT <= chunk_x < CHUNK_COORD_LIMIT,
        -CHUNK_COORD_LIMIT <= chunk_z < CHUNK_COORD_LIMIT,
        0 <= base_y,
        base_y + 16 < i32::MAX,
    ensures
        r@ == spec_section_writes(*s, chunk_x, chunk_z, base_y),
{
    let mut out: Vec<VoxelWrite> = Vec::new();
    let mut y: usize = 0;
    while y < 16
        invariant
            y <= 16,
            s.wf(),
            -CHUNK_COORD_LIMIT <= chunk_x < CHUNK_COORD_LIMIT,
            -CHUNK_COORD_LIMIT <= chunk_z < CHUNK_COORD_LIMIT,
            0 <= base_y,
            base_y + 16 < i32::MAX,
            out@.len() == y * 256,
            forall|j: int|
                0 <= j < out@.len() ==> out@[j] == spec_voxel_write(*s, chunk_x, chunk_z, base_y, j),
        decreases 16 - y,
    {
        let mut x: usize = 0;
        while x < 16
            invariant
                y < 16,
                x <= 16,
                s.wf(),
                -CHUNK_COORD_LIMIT <= chunk_x < CHUNK_COORD_LIMIT,
                -CHUNK_COORD_LIMIT <= chunk_z < CHUNK_COORD_LIMIT,
                0 <= base_y,
                base_y + 16 < i32::MAX,
                out@.len() == y * 256 + x * 16,
                forall|j: int|
                    0 <= j < out@.len() ==> out@[j] == spec_voxel_write(
                        *s,
                        chunk_x,
                        chunk_z,
                        base_y,
                        j,
                    ),
            decreases 16 - x,
        {
            let mut z: usize = 0;
            while z < 16
                invariant
                    y < 16,
                    x < 16,
                    z <= 16,
                    s.wf(),
                    -CHUNK_COORD_LIMIT <= chunk_x < CHUNK_COORD_LIMIT,
                    -CHUNK_COORD_LIMIT <= chunk_z < CHUNK_COORD_LIMIT,
                    0 <= base_y,
                    base_y + 16 < i32::MAX,
                    out@.len() == y * 256 + x * 16 + z,
                    forall|j: int|
                        0 <= j < out@.len() ==> out@[j] == spec_voxel_write(
                            *s,
                            chunk_x,
                            chunk_z,
                            base_y,
                            j,
                        ),
                decreases 16 - z,
            {
                let k: usize = y * 256 + x * 16 + z;
                proof {
                    lemma_fundamental_div_mod_converse(
                        k as int,
                        256,
                        y as int,
                        (x * 16 + z) as int,
                    );
                    lemma_fundamental_div_mod_converse(
                        k as int,
                        16,
                        (y * 16 + x) as int,
                        z as int,
                    );
                    lemma_fundamental_div_mod_converse(
                        (y * 16 + x) as int,
                        16,
                        y as int,
                        x as int,
                    );
                    assert(voxel_y(k as int) == y);
                    assert(voxel_x(k as int) == x);
                    assert(voxel_z(k as int) == z);
                }
                let p_idx = s.blocks[k];
                let base = if (p_idx as usize) < s.palette.len() {
                    kind_state_for_identifier(s.palette[p_idx as usize].as_str())
                } else {
                    filler_state()
                };
                let state = match s.find_tags(x as u8, y as u8, z as u8) {
                    Some(tags) => set_props(base, tags),
                    None => base,
                };
                let biome = s.biomes[k];
                let write = VoxelWrite {
                    x: chunk_x * 16 + (x as i32),
                    y: base_y + (y as i32),
                    z: chunk_z * 16 + (z as i32),
                    state,
                    biome: Some(biome),
                };
                out.push(write);
                proof {
                    assert(out@[k as int] == spec_voxel_write(
                        *s,
                        chunk_x,
                        chunk_z,
                        base_y,
                        k as int,
                    ));
                }
                z = z + 1;
            }
            x = x + 1;
        }
        y = y + 1;
    }
    proof {
        assert(out@ =~= spec_section_writes(*s, chunk_x, chunk_z, base_y));
    }
    out
}

/// The initial vertical base offset used for a dimension.  This is a
/// configuration value of the importer, not derived from the file; every
/// dimension currently starts its lowest section at elevation 1.
pub open spec fn spec_base_elevation(d: DanDimension) -> int {
    match d {
        DanDimension::Overworld => 1,
        DanDimension::Nether => 1,
        DanDimension::End => 1,
    }
}

/// The initial vertical base offset a chunk of the given dimension is
/// placed at.
pub fn base_elevation(d: DanDimension) -> (r: i32)
    ensures
        r == spec_base_elevation(d),
{
    match d {
        DanDimension::Overworld => 1,
        DanDimension::Nether => 1,
        DanDimension::End => 1,
    }
}

/// The vertical base offset of the section at index `i`, counted bottom to
/// top: the dimension's base elevation plus 16 levels per section below.
pub open spec fn spec_section_base(base: int, i: int) -> int {
    base + 16 * i
}

/// The writes of the first `n` sections of a chunk, concatenated bottom to
/// top starting at base elevation `base`.
pub open spec fn spec_chunk_writes_upto(c: Chunk, base: int, n: int) -> Seq<VoxelWrite>
    decreases n,
{
    if n <= 0 {
        Seq::empty()
    } else {
        spec_chunk_writes_upto(c, base, n - 1) + spec_section_writes(
            c.sections@[n - 1],
            c.x,
            c.z,
            spec_section_base(base, n - 1) as i32,
        )
    }
}

/// All writes of a chunk, every section decoded bottom to top with the
/// vertical base offset advancing by 16 per section.
pub open spec fn spec_chunk_writes(c: Chunk, base: int) -> Seq<VoxelWrite> {
    spec_chunk_writes_upto(c, base, c.sections@.len() as int)
}

/// Emits every voxel write of one chunk, threading the vertical base
/// offset as an accumulator that advances by 16 after each section.
pub fn place_chunk(c: &Chunk, base: i32) -> (r: Vec<VoxelWrite>)
    requires
        c.wf(),
        0 <= base,
        base + 16 * c.sections@.len() + 16 <= i32::MAX,
    ensures
        r@ == spec_chunk_writes(*c, base as int),
{
    let mut out: Vec<VoxelWrite> = Vec::new();
    let mut base_y: i32 = base;
    let mut i: usize = 0;
    while i < c.sections.len()
        invariant
            i <= c.sections@.len(),
            c.wf(),
            0 <= base,
            base + 16 * c.sections@.len() + 16 <= i32::MAX,
            base_y == spec_section_base(base as int, i as int),
            out@ == spec_chunk_writes_upto(*c, base as int, i as int),
        decreases c.sections@.len() - i,
    {
        let mut section_writes = decode_section(&c.sections[i], c.x, c.z, base_y);
        out.append(&mut section_writes);
        base_y = base_y + 16;
        i = i + 1;
    }
    out
}

/// The number of chunk positions allocated for a world: a padded rectangle
/// of `2 * (width + 10)` by `2 * (depth + 10)` chunks centered on the
/// origin.
pub open spec fn spec_insert_count(width: u16, depth: u16) -> int {
    4 * (width + 10) * (depth + 10)
}

/// The chunk position at index `j` of the allocation order: x advances
/// outermost, z innermost, each from minus the padded extent up to it.
pub open spec fn spec_insert_at(width: u16, depth: u16, j: int) -> ChunkPos {
    ChunkPos {
        x: (-(width + 10) + j / (2 * (depth + 10))) as i32,
        z: (-(depth + 10) + j % (2 * (depth + 10))) as i32,
    }
}

/// Allocates the padded rectangle of chunk positions for a world of the
/// given extents.
pub fn chunk_inserts(width: u16, depth: u16) -> (r: Vec<ChunkPos>)
    ensures
        r@.len() == spec_insert_count(width, depth),
        forall|j: int| 0 <= j < r@.len() ==> r@[j] == spec_insert_at(width, depth, j),
{
    let wp: i32 = width as i32 + 10;
    let dp: i32 = depth as i32 + 10;
    let mut out: Vec<ChunkPos> = Vec::new();
    let mut cx: i32 = -wp;
    proof {
        assert((cx + wp) * (2 * dp) == 0) by (nonlinear_arith)
            requires
                cx == -wp,
        ;
    }
    while cx < wp
        invariant
            wp == width + 10,
            dp == depth + 10,
            -wp <= cx <= wp,
            out@.len() == (cx + wp) * (2 * dp),
            forall|j: int| 0 <= j < out@.len() ==> out@[j] == spec_insert_at(width, depth, j),
        decreases wp - cx,
    {
        let mut cz: i32 = -dp;
        while cz < dp
            invariant
                wp == width + 10,
                dp == depth + 10,
                -wp <= cx < wp,
                -dp <= cz <= dp,
                out@.len() == (cx + wp) * (2 * dp) + (cz + dp),
                forall|j: int| 0 <= j < out@.len() ==> out@[j] == spec_insert_at(width, depth, j),
            decreases dp - cz,
        {
            out.push(ChunkPos { x: cx, z: cz });
            proof {
                let j = out@.len() - 1;
                lemma_fundamental_div_mod_converse(
                    j,
                    2 * dp as int,
                    (cx + wp) as int,
                    (cz + dp) as int,
                );
                assert(out@[j] == spec_insert_at(width, depth, j));
            }
            cz = cz + 1;
        }
        proof {
            assert((cx + wp) * (2 * dp) + 2 * dp == (cx + 1 + wp) * (2 * dp)) by (nonlinear_arith);
        }
        cx = cx + 1;
    }
    proof {
        assert((wp + wp) * (2 * dp) == spec_insert_count(width, depth)) by (nonlinear_arith)
            requires
                wp == width + 10,
                dp == depth + 10,
        ;
    }
    out
}

/// The writes of the first `n` chunks of a world, concatenated in file
/// order.
pub open spec fn spec_world_writes_upto(w: VoxelWorld, n: int) -> Seq<VoxelWrite>
    decreases n,
{
    if n <= 0 {
        Seq::empty()
    } else {
        spec_world_writes_upto(w, n - 1) + spec_chunk_writes(
            w.chunks@[n - 1],
            spec_base_elevation(w.dimension),
        )
    }
}

/// All voxel writes of a world, chunk by chunk in file order.
pub open spec fn spec_world_writes(w: VoxelWorld) -> Seq<VoxelWrite> {
    spec_world_writes_upto(w, w.chunks@.len() as int)
}

/// What a placement for a successfully loaded world holds: the padded
/// chunk rectangle and every chunk's writes in order.
pub open spec fn is_import_placement(p: Placement, w: VoxelWorld) -> bool {
    &&& p.chunk_inserts@.len() == spec_insert_count(w.width, w.depth)
    &&& (forall|j: int|
        0 <= j < p.chunk_inserts@.len() ==> p.chunk_inserts@[j] == spec_insert_at(
            w.width,
            w.depth,
            j,
        ))
    &&& p.writes@ == spec_world_writes(w)
}

/// Plans the placement of a whole world: the padded chunk rectangle, then
/// every chunk's writes.
pub fn place_world(w: &VoxelWorld) -> (p: Placement)
    requires
        w.wf(),
    ensures
        is_import_placement(p, *w),
{
    let inserts = chunk_inserts(w.width, w.depth);
    let base = base_elevation(w.dimension);
    let mut writes: Vec<VoxelWrite> = Vec::new();
    let mut i: usize = 0;
    while i < w.chunks.len()
        invariant
            i <= w.chunks@.len(),
            w.wf(),
            base == spec_base_elevation(w.dimension),
            writes@ == spec_world_writes_upto(*w, i as int),
        decreases w.chunks@.len() - i,
    {
        let mut chunk_writes = place_chunk(&w.chunks[i], base);
        writes.append(&mut chunk_writes);
        i = i + 1;
    }
    Placement { chunk_inserts: inserts, writes }
}

/// The chunk position at index `j` of the fallback allocation order: z
/// advances outermost, x innermost, each over a 10 by 10 square.
pub open spec fn spec_fallback_insert_at(j: int) -> ChunkPos {
    ChunkPos { x: (-5 + j % 10) as i32, z: (-5 + j / 10) as i32 }
}

/// The voxel write at index `j` of the fallback platform order: a single
/// layer of the filler block at height 64 over a 50 by 50 square, z
/// advancing outermost, x innermost, with no biome write.
pub open spec fn spec_fallback_write_at(j: int) -> VoxelWrite {
    VoxelWrite {
        x: (-25 + j % 50) as i32,
        y: 64,
        z: (-25 + j / 50) as i32,
        state: spec_filler_state(),
        biome: None,
    }
}

/// What the fixed flat fallback placement holds: a 10 by 10 chunk square
/// and a 50 by 50 filler platform at height 64.
pub open spec fn is_fallback_placement(p: Placement) -> bool {
    &&& p.chunk_inserts@.len() == 100
    &&& (forall|j: int|
        0 <= j < p.chunk_inserts@.len() ==> p.chunk_inserts@[j] == spec_fallback_insert_at(j))
    &&& p.writes@.len() == 2500
    &&& (forall|j: int| 0 <= j < p.writes@.len() ==> p.writes@[j] == spec_fallback_write_at(j))
}

/// Builds the fixed-size flat fallback world placed when a world file
/// cannot be loaded.
pub fn fallback_world() -> (p: Placement)
    ensures
        is_fallback_placement(p),
{
    let filler = filler_state();
    let mut inserts: Vec<ChunkPos> = Vec::new();
    let mut cz: i32 = -5;
    while cz < 5
        invariant
            -5 <= cz <= 5,
            inserts@.len() == (cz + 5) * 10,
            forall|j: int| 0 <= j < inserts@.len() ==> inserts@[j] == spec_fallback_insert_at(j),
        decreases 5 - cz,
    {
        let mut cx: i32 = -5;
        while cx < 5
            invariant
                -5 <= cz < 5,
                -5 <= cx <= 5,
                inserts@.len() == (cz + 5) * 10 + (cx + 5),
                forall|j: int| 0 <= j < inserts@.len() ==> inserts@[j] == spec_fallback_insert_at(j),
            decreases 5 - cx,
        {
            inserts.push(ChunkPos { x: cx, z: cz });
            proof {
                let j = inserts@.len() - 1;
                lemma_fundamental_div_mod_converse(j, 10, (cz + 5) as int, (cx + 5) as int);
                assert(inserts@[j] == spec_fallback_insert_at(j));
            }
            cx = cx + 1;
        }
        cz = cz + 1;
    }
    let mut writes: Vec<VoxelWrite> = Vec::new();
    let mut bz: i32 = -25;
    while bz < 25
        invariant
            -25 <= bz <= 25,
            filler == spec_filler_state(),
            writes@.len() == (bz + 25) * 50,
            forall|j: int| 0 <= j < writes@.len() ==> writes@[j] == spec_fallback_write_at(j),
        decreases 25 - bz,
    {
        let mut bx: i32 = -25;
        while bx < 25
            invariant
                -25 <= bz < 25,
                -25 <= bx <= 25,
                filler == spec_filler_state(),
                writes@.len() == (bz + 25) * 50 + (bx + 25),
                forall|j: int| 0 <= j < writes@.len() ==> writes@[j] == spec_fallback_write_at(j),
            decreases 25 - bx,
        {
            writes.push(VoxelWrite { x: bx, y: 64, z: bz, state: filler, biome: None });
            proof {
                let j = writes@.len() - 1;
                lemma_fundamental_div_mod_converse(j, 50, (bz + 25) as int, (bx + 25) as int);
                assert(writes@[j] == spec_fallback_write_at(j));
            }
            bx = bx + 1;
        }
        bz = bz + 1;
    }
    Placement { chunk_inserts: inserts, writes }
}

/// Plans an import: a loaded world is placed in its own dimension, a world
/// that could not be loaded degrades to the flat fallback placement in the
/// overworld.
pub fn plan_import(world: Option<&VoxelWorld>) -> (p: ImportPlan)
    requires
        world matches Some(w) ==> w.wf(),
    ensures
        world matches Some(w) ==> p.dimension == w.dimension && is_import_placement(
            p.placement,
            *w,
        ),
        world is None ==> p.dimension == DanDimension::Overworld && is_fallback_placement(
            p.placement,
        ),
{
    match world {
        Some(w) => ImportPlan { dimension: w.dimension, placement: place_world(w) },
        None => ImportPlan {
            dimension: DanDimension::Overworld,
            placement: fallback_world(),
        },
    }
}

proof fn lemma_chunk_writes_upto_len(c: Chunk, base: int, n: int)
    requires
        0 <= n <= c.sections@.len(),
    ensures
        spec_chunk_writes_upto(c, base, n).len() == SECTION_VOLUME * n,
    decreases n,
{
    if n > 0 {
        lemma_chunk_writes_upto_len(c, base, n - 1);
    }
}

/// Law: placing a chunk writes every voxel of every section exactly once —
/// 4096 writes per section, sections concatenated bottom to top.
pub proof fn lemma_chunk_writes_count(c: Chunk, base: int)
    ensures
        spec_chunk_writes(c, base).len() == SECTION_VOLUME * c.sections@.len(),
{
    lemma_chunk_writes_upto_len(c, base, c.sections@.len() as int);
}

/// Law: the allocated chunk positions are exactly the padded rectangle of
/// `2 * (width + 10)` by `2 * (depth + 10)` chunks centered on the origin —
/// a position is allocated if and only if it lies inside the rectangle.
pub proof fn lemma_inserts_cover_rectangle(
    width: u16,
    depth: u16,
    inserts: Seq<ChunkPos>,
    pos: ChunkPos,
)
    requires
        inserts.len() == spec_insert_count(width, depth),
        forall|j: int| 0 <= j < inserts.len() ==> inserts[j] == spec_insert_at(width, depth, j),
    ensures
        inserts.contains(pos) <==> (-(width + 10) <= pos.x < width + 10 && -(depth + 10) <= pos.z
            < depth + 10),
{
    let wp = width + 10;
    let dp = depth + 10;
    if -wp <= pos.x < wp && -dp <= pos.z < dp {
        let j = (pos.x + wp) * (2 * dp) + (pos.z + dp);
        assert(0 <= j < 4 * wp * dp) by (nonlinear_arith)
            requires
                0 <= pos.x + wp < 2 * wp,
                0 <= pos.z + dp < 2 * dp,
                j == (pos.x + wp) * (2 * dp) + (pos.z + dp),
        ;
        lemma_fundamental_div_mod_converse(j, 2 * dp, pos.x + wp, pos.z + dp);
        assert(inserts[j] == pos);
    }
    if inserts.contains(pos) {
        let j = choose|j: int| 0 <= j < inserts.len() && inserts[j] == pos;
        vstd::arithmetic::div_mod::lemma_fundamental_div_mod(j, 2 * dp);
        vstd::arithmetic::div_mod::lemma_mod_pos_bound(j, 2 * dp);
        let q = j / (2 * dp);
        let r = j % (2 * dp);
        assert(j == (2 * dp) * q + r);
        assert(0 <= q < 2 * wp) by (nonlinear_arith)
            requires
                0 <= j < 4 * wp * dp,
                0 < 2 * dp,
                j == (2 * dp) * q + r,
                0 <= r < 2 * dp,
        ;
        assert(pos.x == -wp + q && pos.z == -dp + r);
    }
}

/// Law: a voxel whose section has no tag entry for it keeps the bare
/// palette block state, with no property applied.
pub proof fn lemma_untagged_voxel_bare_state(s: Section, k: int)
    requires
        0 <= k < SECTION_VOLUME,
        spec_find_tags(s.data@, voxel_x(k) as u8, voxel_y(k) as u8, voxel_z(k) as u8) is None,
    ensures
        spec_voxel_state(s, k) == spec_palette_state(s, s.blocks@[k]),
{
}

} // verus!
