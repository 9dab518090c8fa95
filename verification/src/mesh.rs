//! Mesh building: which blocks of a chunk get drawn, the triangle indices of a
//! block face, face culling, and the index list of the sky background.

use vstd::prelude::*;

verus! {

/// A rotation of a block model about the vertical axis.
#[derive(Clone, Copy, PartialEq, Eq, Structural)]
pub enum Rotate {
    Deg90,
    Deg180,
    Deg270,
}

/// The direction a block face looks towards.
#[derive(Clone, Copy, PartialEq, Eq, Structural)]
pub enum ViewableDirectionBitMap {
    Top,
    Bottom,
    Left,
    Right,
    Front,
    Back,
}

/// Whether a face is left out of the mesh: only faces on the edge of the block
/// are culled, and only when their direction is not viewable.
pub fn should_cull(edge: bool, direction_viewable: bool) -> (cull: bool)
    ensures
        cull == (edge && !direction_viewable),
{
    if direction_viewable || !edge {
        return false;
    }
    true
}

/// Whether the two triangles of a face with this normal are wound the other way.
pub open spec fn reversed_winding(normal: ViewableDirectionBitMap) -> bool {
    normal == ViewableDirectionBitMap::Top || normal == ViewableDirectionBitMap::Back
        || normal == ViewableDirectionBitMap::Left
}

/// The six indices of the two triangles of a face whose four vertices start at
/// `start`: `0 2 1, 0 3 2` for top, back and left faces, `0 1 2, 0 2 3` otherwise
/// (relative to `start`).
pub fn face_indices(start: u16, normal: ViewableDirectionBitMap) -> (idx: [u16; 6])
    requires
        start <= u16::MAX - 3,
    ensures
        reversed_winding(normal) ==> idx == [start, (start + 2) as u16, (start + 1) as u16, start, (start + 3) as u16, (start + 2) as u16],
        !reversed_winding(normal) ==> idx == [start, (start + 1) as u16, (start + 2) as u16, start, (start + 2) as u16, (start + 3) as u16],
{
    if normal == ViewableDirectionBitMap::Top || normal == ViewableDirectionBitMap::Back
        || normal == ViewableDirectionBitMap::Left {
        [start + 0, start + 2, start + 1, start + 0, start + 3, start + 2]
    } else {
        [start + 0, start + 1, start + 2, start + 0, start + 2, start + 3]
    }
}

/// The position of a direction in a viewable map: top, bottom, left, right,
/// front, back.
pub open spec fn direction_slot(d: ViewableDirectionBitMap) -> int {
    match d {
        ViewableDirectionBitMap::Top => 0,
        ViewableDirectionBitMap::Bottom => 1,
        ViewableDirectionBitMap::Left => 2,
        ViewableDirectionBitMap::Right => 3,
        ViewableDirectionBitMap::Front => 4,
        ViewableDirectionBitMap::Back => 5,
    }
}

fn direction_index(d: ViewableDirectionBitMap) -> (i: usize)
    ensures
        i == direction_slot(d),
{
    match d {
        ViewableDirectionBitMap::Top => 0,
        ViewableDirectionBitMap::Bottom => 1,
        ViewableDirectionBitMap::Left => 2,
        ViewableDirectionBitMap::Right => 3,
        ViewableDirectionBitMap::Front => 4,
        ViewableDirectionBitMap::Back => 5,
    }
}

/// A face of a block model, as far as culling and the index list go: the
/// direction it looks towards and whether it lies on the edge of the block.
#[derive(Clone, Copy, PartialEq, Eq, Structural)]
pub struct BlockFace {
    pub normal: ViewableDirectionBitMap,
    pub edge: bool,
}

/// The faces of a block model, in drawing order.
pub struct BlockModel {
    pub faces: Vec<BlockFace>,
}

/// Whether a face is left out where `viewable` marks the directions from which
/// the block can be seen.
pub open spec fn face_culled(face: BlockFace, viewable: [bool; 6]) -> bool {
    face.edge && !viewable[direction_slot(face.normal)]
}

/// The number of faces in `faces` that are drawn.
pub open spec fn drawn_faces(faces: Seq<BlockFace>, viewable: [bool; 6]) -> int
    decreases faces.len(),
{
    if faces.len() == 0 {
        0
    } else {
        drawn_faces(faces.drop_last(), viewable) + if face_culled(faces.last(), viewable) { 0int } else { 1int }
    }
}

/// The six indices of a face whose four vertices start at `start`.
pub open spec fn face_index_seq(start: int, normal: ViewableDirectionBitMap) -> Seq<u16> {
    if reversed_winding(normal) {
        seq![start as u16, (start + 2) as u16, (start + 1) as u16, start as u16, (start + 3) as u16, (start + 2) as u16]
    } else {
        seq![start as u16, (start + 1) as u16, (start + 2) as u16, start as u16, (start + 2) as u16, (start + 3) as u16]
    }
}

/// The indices that drawing `faces` adds when the vertex list holds `start`
/// vertices: every face that is not culled gets four vertices, numbered on from
/// those of the faces drawn before it, and the six indices of its two triangles.
pub open spec fn model_index_list(faces: Seq<BlockFace>, viewable: [bool; 6], start: int) -> Seq<u16>
    decreases faces.len(),
{
    if faces.len() == 0 {
        Seq::empty()
    } else {
        let before = model_index_list(faces.drop_last(), viewable, start);
        if face_culled(faces.last(), viewable) {
            before
        } else {
            before + face_index_seq(start + 4 * drawn_faces(faces.drop_last(), viewable), faces.last().normal)
        }
    }
}

proof fn lemma_drawn_faces_prefix(faces: Seq<BlockFace>, viewable: [bool; 6], i: int)
    requires
        0 <= i <= faces.len(),
    ensures
        0 <= drawn_faces(faces.take(i), viewable) <= drawn_faces(faces, viewable),
    decreases faces.len(),
{
    if faces.len() > 0 {
        if i == faces.len() {
            assert(faces.take(i) =~= faces);
            lemma_drawn_faces_prefix(faces.drop_last(), viewable, i - 1);
            assert(faces.drop_last().take(i - 1) =~= faces.drop_last());
        } else {
            lemma_drawn_faces_prefix(faces.drop_last(), viewable, i);
            assert(faces.drop_last().take(i) =~= faces.take(i));
        }
    }
}

/// Law: the indices of a model refer only to the vertices the model adds: each
/// lies between the vertex count before the model and the count after it, and
/// there are six for every drawn face.
pub proof fn law_model_indices_in_range(faces: Seq<BlockFace>, viewable: [bool; 6], start: int)
    requires
        0 <= start,
        start + 4 * drawn_faces(faces, viewable) <= u16::MAX + 1,
    ensures
        model_index_list(faces, viewable, start).len() == 6 * drawn_faces(faces, viewable),
        forall|k: int| 0 <= k < model_index_list(faces, viewable, start).len() ==> start <= #[trigger] model_index_list(faces, viewable, start)[k] < start + 4 * drawn_faces(faces, viewable),
    decreases faces.len(),
{
    if faces.len() > 0 {
        let rest = faces.drop_last();
        lemma_drawn_faces_prefix(faces, viewable, faces.len() - 1);
        assert(faces.take(faces.len() - 1) =~= rest);
        law_model_indices_in_range(rest, viewable, start);
        let before = model_index_list(rest, viewable, start);
        let list = model_index_list(faces, viewable, start);
        if !face_culled(faces.last(), viewable) {
            let base = start + 4 * drawn_faces(rest, viewable);
            assert forall|k: int| 0 <= k < list.len() implies start <= #[trigger] list[k] < start + 4 * drawn_faces(faces, viewable) by {
                if k < before.len() {
                    assert(list[k] == before[k]);
                } else {
                    assert(list[k] == face_index_seq(base, faces.last().normal)[k - before.len()]);
                }
            }
        }
    }
}

/// Law: the two triangles of a face with vertices `s .. s + 3` are `s, s+2, s+1`
/// and `s, s+3, s+2` for top, back and left faces, and `s, s+1, s+2` and
/// `s, s+2, s+3` for bottom, front and right faces.
pub proof fn law_face_winding(s: int)
    requires
        0 <= s <= u16::MAX - 3,
    ensures
        face_index_seq(s, ViewableDirectionBitMap::Top) == seq![s as u16, (s + 2) as u16, (s + 1) as u16, s as u16, (s + 3) as u16, (s + 2) as u16],
        face_index_seq(s, ViewableDirectionBitMap::Back) == seq![s as u16, (s + 2) as u16, (s + 1) as u16, s as u16, (s + 3) as u16, (s + 2) as u16],
        face_index_seq(s, ViewableDirectionBitMap::Left) == seq![s as u16, (s + 2) as u16, (s + 1) as u16, s as u16, (s + 3) as u16, (s + 2) as u16],
        face_index_seq(s, ViewableDirectionBitMap::Bottom) == seq![s as u16, (s + 1) as u16, (s + 2) as u16, s as u16, (s + 2) as u16, (s + 3) as u16],
        face_index_seq(s, ViewableDirectionBitMap::Front) == seq![s as u16, (s + 1) as u16, (s + 2) as u16, s as u16, (s + 2) as u16, (s + 3) as u16],
        face_index_seq(s, ViewableDirectionBitMap::Right) == seq![s as u16, (s + 1) as u16, (s + 2) as u16, s as u16, (s + 2) as u16, (s + 3) as u16],
{
}

/// Law: a face inside the block is never culled, and a face on its edge is culled
/// exactly when the viewable map does not mark the face's own direction; the map
/// lists top, bottom, left, right, front and back in that order.
pub proof fn law_face_culling(viewable: [bool; 6], edge: bool)
    ensures
        face_culled(BlockFace { normal: ViewableDirectionBitMap::Top, edge }, viewable) == (edge && !viewable[0]),
        face_culled(BlockFace { normal: ViewableDirectionBitMap::Bottom, edge }, viewable) == (edge && !viewable[1]),
        face_culled(BlockFace { normal: ViewableDirectionBitMap::Left, edge }, viewable) == (edge && !viewable[2]),
        face_culled(BlockFace { normal: ViewableDirectionBitMap::Right, edge }, viewable) == (edge && !viewable[3]),
        face_culled(BlockFace { normal: ViewableDirectionBitMap::Front, edge }, viewable) == (edge && !viewable[4]),
        face_culled(BlockFace { normal: ViewableDirectionBitMap::Back, edge }, viewable) == (edge && !viewable[5]),
{
}

impl BlockModel {
    /// Adds the triangle indices of the model's faces to `indices`, where the
    /// vertex list already holds `vertex_count` vertices; faces on the edge of the
    /// block that look in a direction `viewable` does not mark are culled. Each
    /// drawn face takes the next four vertices. Returns the vertex count after
    /// the model's vertices, which must stay within reach of `u16` indices.
    pub fn draw(&self, viewable: [bool; 6], vertex_count: usize, indices: &mut Vec<u16>) -> (next: usize)
        requires
            vertex_count + 4 * drawn_faces(self.faces@, viewable) <= u16::MAX + 1,
        ensures
            next == vertex_count + 4 * drawn_faces(self.faces@, viewable),
            final(indices)@ == old(indices)@ + model_index_list(self.faces@, viewable, vertex_count as int),
    {
        let mut count: usize = vertex_count;
        let mut i: usize = 0;
        while i < self.faces.len()
            invariant
                i <= self.faces.len(),
                vertex_count + 4 * drawn_faces(self.faces@, viewable) <= u16::MAX + 1,
                count == vertex_count + 4 * drawn_faces(self.faces@.take(i as int), viewable),
                indices@ == old(indices)@ + model_index_list(self.faces@.take(i as int), viewable, vertex_count as int),
            decreases self.faces.len() - i,
        {
            let face = self.faces[i];
            let ghost prefix = self.faces@.take(i as int);
            assert(self.faces@.take(i + 1).drop_last() =~= prefix);
            assert(self.faces@.take(i + 1).last() == face);
            proof {
                lemma_drawn_faces_prefix(self.faces@, viewable, i + 1);
            }
            let seen = viewable[direction_index(face.normal)];
            if !should_cull(face.edge, seen) {
                let idx = face_indices(count as u16, face.normal);
                let ghost before = indices@;
                indices.push(idx[0]);
                indices.push(idx[1]);
                indices.push(idx[2]);
                indices.push(idx[3]);
                indices.push(idx[4]);
                indices.push(idx[5]);
                assert(indices@ =~= before + face_index_seq(count as int, face.normal));
                count = count + 4;
            }
            i = i + 1;
        }
        assert(self.faces@.take(self.faces.len() as int) =~= self.faces@);
        count
    }
}

/// The index list of the sky background: for each colour band `k`, the two
/// triangles `4k, 4k+1, 4k+2` and `4k+1, 4k+2, 4k+3`.
pub fn background_indices(bands: usize) -> (indices: Vec<u16>)
    requires
        4 * bands <= u16::MAX,
    ensures
        indices.len() == 6 * bands,
        forall|k: int| #![trigger indices[6 * k]]
            0 <= k < bands ==> {
                &&& indices[6 * k] == 4 * k
                &&& indices[6 * k + 1] == 4 * k + 1
                &&& indices[6 * k + 2] == 4 * k + 2
                &&& indices[6 * k + 3] == 4 * k + 1
                &&& indices[6 * k + 4] == 4 * k + 2
                &&& indices[6 * k + 5] == 4 * k + 3
            },
{
    let mut indices: Vec<u16> = Vec::new();
    let mut k: usize = 0;
    while k < bands
        invariant
            4 * bands <= u16::MAX,
            k <= bands,
            indices.len() == 6 * k,
            forall|j: int| #![trigger indices[6 * j]]
                0 <= j < k ==> {
                    &&& indices[6 * j] == 4 * j
                    &&& indices[6 * j + 1] == 4 * j + 1
                    &&& indices[6 * j + 2] == 4 * j + 2
                    &&& indices[6 * j + 3] == 4 * j + 1
                    &&& indices[6 * j + 4] == 4 * j + 2
                    &&& indices[6 * j + 5] == 4 * j + 3
                },
        decreases bands - k,
    {
        let base = (4 * k) as u16;
        let ghost before = indices@;
        indices.push(base);
        indices.push(base + 1);
        indices.push(base + 2);
        indices.push(base + 1);
        indices.push(base + 2);
        indices.push(base + 3);
        assert forall|j: int| #![trigger indices[6 * j]] 0 <= j < k + 1 implies {
            &&& indices[6 * j] == 4 * j
            &&& indices[6 * j + 1] == 4 * j + 1
            &&& indices[6 * j + 2] == 4 * j + 2
            &&& indices[6 * j + 3] == 4 * j + 1
            &&& indices[6 * j + 4] == 4 * j + 2
            &&& indices[6 * j + 5] == 4 * j + 3
        } by {
            if j < k {
                assert(indices[6 * j] == before[6 * j]);
                assert(indices[6 * j + 1] == before[6 * j + 1]);
                assert(indices[6 * j + 2] == before[6 * j + 2]);
                assert(indices[6 * j + 3] == before[6 * j + 3]);
                assert(indices[6 * j + 4] == before[6 * j + 4]);
                assert(indices[6 * j + 5] == before[6 * j + 5]);
            }
        }
        k = k + 1;
    }
    indices
}

/// A block of a chunk that gets drawn: its position in the chunk and the index
/// of its definition in the chunk's block list.
#[derive(Clone, Copy, PartialEq, Eq, Structural, Debug)]
pub struct BlockDraw {
    pub x: usize,
    pub y: usize,
    pub z: usize,
    pub block: usize,
}

/// A chunk: a box of block ids indexed `[x][y][z]` (zero is air, `n` is the
/// block definition `n - 1`), the block definitions, and the list of blocks to
/// draw once the mesh has been generated.
pub struct Chunk<B> {
    pub world: Vec<Vec<Vec<u32>>>,
    pub blocks: Vec<B>,
    pub draw_list: Option<Vec<BlockDraw>>,
}

/// The ids of a chunk form a box: every column has the same height and every
/// row the same depth.
pub open spec fn is_box(world: Seq<Vec<Vec<u32>>>, ys: int, zs: int) -> bool {
    &&& forall|x: int| #![trigger world[x]] 0 <= x < world.len() ==> world[x].len() == ys
    &&& forall|x: int, y: int| #![trigger world[x][y]]
        0 <= x < world.len() && 0 <= y < ys ==> world[x][y].len() == zs
}

/// The id at `[x][y][z]`.
pub open spec fn id_at(world: Seq<Vec<Vec<u32>>>, x: int, y: int, z: int) -> u32 {
    world[x]@[y]@[z]
}

/// The blocks drawn among the first `t` cells of the box, the cells being taken
/// with `x` slowest, then `z`, then `y` fastest.
pub open spec fn draws_upto(world: Seq<Vec<Vec<u32>>>, ys: int, zs: int, t: int) -> Seq<BlockDraw>
    decreases t,
{
    if t <= 0 || ys <= 0 || zs <= 0 {
        Seq::empty()
    } else {
        let prev = draws_upto(world, ys, zs, t - 1);
        let c = t - 1;
        let x = c / (zs * ys);
        let z = (c % (zs * ys)) / ys;
        let y = (c % (zs * ys)) % ys;
        let id = id_at(world, x, y, z);
        if id != 0 {
            prev.push(BlockDraw { x: x as usize, y: y as usize, z: z as usize, block: (id - 1) as usize })
        } else {
            prev
        }
    }
}

/// The dimensions of a box of ids: its width, height and depth (zero height and
/// depth for an empty box).
pub open spec fn dims(world: Seq<Vec<Vec<u32>>>) -> (int, int) {
    if world.len() == 0 {
        (0, 0)
    } else if world[0].len() == 0 {
        (0, 0)
    } else {
        (world[0].len() as int, world[0]@[0].len() as int)
    }
}

proof fn lemma_cell_index(x: int, y: int, z: int, ys: int, zs: int)
    requires
        0 <= x,
        0 <= y < ys,
        0 <= z < zs,
    ensures
        (x * (zs * ys) + z * ys + y) / (zs * ys) == x,
        ((x * (zs * ys) + z * ys + y) % (zs * ys)) / ys == z,
        ((x * (zs * ys) + z * ys + y) % (zs * ys)) % ys == y,
{
    let zy = zs * ys;
    let r = z * ys + y;
    assert(0 <= r < zy) by (nonlinear_arith)
        requires
            r == z * ys + y,
            zy == zs * ys,
            0 <= y < ys,
            0 <= z < zs,
    ;
    assert(x * zy + z * ys + y == x * zy + r);
    vstd::arithmetic::div_mod::lemma_fundamental_div_mod_converse(x * zy + r, zy, x, r);
    vstd::arithmetic::div_mod::lemma_fundamental_div_mod_converse(r, ys, z, y);
}

impl<B> Chunk<B> {
    /// Works out which blocks of the chunk get drawn: every non-air cell, taken
    /// with `x` slowest, then `z`, then `y` fastest, with the index of its block
    /// definition.
    pub fn generate_mesh(&mut self)
        requires
            is_box(old(self).world@, dims(old(self).world@).0, dims(old(self).world@).1),
            forall|x: int, y: int, z: int|
                0 <= x < old(self).world.len() && 0 <= y < dims(old(self).world@).0
                    && 0 <= z < dims(old(self).world@).1
                    ==> #[trigger] id_at(old(self).world@, x, y, z) <= old(self).blocks.len(),
        ensures
            final(self).world == old(self).world,
            final(self).blocks == old(self).blocks,
            final(self).draw_list is Some,
            final(self).draw_list->0@ == draws_upto(
                old(self).world@,
                dims(old(self).world@).0,
                dims(old(self).world@).1,
                old(self).world.len() * dims(old(self).world@).0 * dims(old(self).world@).1,
            ),
    {
        let ghost w = self.world@;
        let xs = self.world.len();
        let mut draws: Vec<BlockDraw> = Vec::new();
        if xs == 0 || self.world[0].len() == 0 {
            assert(draws@ =~= draws_upto(w, 0, 0, 0));
            self.draw_list = Some(draws);
            return;
        }
        let ys = self.world[0].len();
        let zs = self.world[0][0].len();
        let ghost yi = ys as int;
        let ghost zi = zs as int;
        let mut x: usize = 0;
        while x < xs
            invariant
                w == self.world@,
                xs == w.len(),
                ys > 0,
                yi == ys as int,
                zi == zs as int,
                (yi, zi) == dims(w),
                is_box(w, yi, zi),
                x <= xs,
                draws@ == draws_upto(w, yi, zi, x * (zi * yi)),
            decreases xs - x,
        {
            let mut z: usize = 0;
            while z < zs
                invariant
                    w == self.world@,
                    xs == w.len(),
                    ys > 0,
                    yi == ys as int,
                    zi == zs as int,
                    (yi, zi) == dims(w),
                    is_box(w, yi, zi),
                    x < xs,
                    z <= zs,
                    draws@ == draws_upto(w, yi, zi, x * (zi * yi) + z * yi),
                decreases zs - z,
            {
                let mut y: usize = 0;
                while y < ys
                    invariant
                        w == self.world@,
                        xs == w.len(),
                        ys > 0,
                        yi == ys as int,
                        zi == zs as int,
                        (yi, zi) == dims(w),
                        is_box(w, yi, zi),
                        x < xs,
                        z < zs,
                        y <= ys,
                        draws@ == draws_upto(w, yi, zi, x * (zi * yi) + z * yi + y),
                    decreases ys - y,
                {
                    proof {
                        lemma_cell_index(x as int, y as int, z as int, yi, zi);
                        assert(w[x as int].len() == yi);
                        assert(w[x as int]@[y as int].len() == zi);
                    }
                    let ghost t = x * (zi * yi) + z * yi + y;
                    let id = self.world[x][y][z];
                    assert(id == id_at(w, x as int, y as int, z as int));
                    if id != 0 {
                        draws.push(BlockDraw { x, y, z, block: (id - 1) as usize });
                    }
                    assert(draws@ == draws_upto(w, yi, zi, t + 1));
                    y = y + 1;
                }
                assert(x * (zi * yi) + z * yi + yi == x * (zi * yi) + (z + 1) * yi) by (nonlinear_arith);
                z = z + 1;
            }
            assert(x * (zi * yi) + zi * yi == (x + 1) * (zi * yi)) by (nonlinear_arith);
            x = x + 1;
        }
        assert(xs * (zi * yi) == xs * yi * zi) by (nonlinear_arith);
        self.draw_list = Some(draws);
    }
}

/// Law: every block in the draw list sits in a cell of the box that holds its
/// definition's id: the cell is not air, and the definition index is that id
/// less one.
pub proof fn law_draws_are_solid_cells(world: Seq<Vec<Vec<u32>>>, ys: int, zs: int, t: int, i: int)
    requires
        world.len() <= usize::MAX,
        0 <= ys <= usize::MAX,
        0 <= zs <= usize::MAX,
        0 <= t <= world.len() * (zs * ys),
        0 <= i < draws_upto(world, ys, zs, t).len(),
    ensures
        ({
            let d = draws_upto(world, ys, zs, t)[i];
            &&& d.x < world.len()
            &&& d.y < ys
            &&& d.z < zs
            &&& id_at(world, d.x as int, d.y as int, d.z as int) != 0
            &&& d.block == id_at(world, d.x as int, d.y as int, d.z as int) - 1
        }),
    decreases t,
{
    if t > 0 && ys > 0 && zs > 0 {
        let prev = draws_upto(world, ys, zs, t - 1);
        let c = t - 1;
        let zy = zs * ys;
        assert(zy > 0) by (nonlinear_arith)
            requires
                zy == zs * ys,
                ys > 0,
                zs > 0,
        ;
        let x = c / zy;
        let r = c % zy;
        assert(x < world.len()) by (nonlinear_arith)
            requires
                x == c / zy,
                0 <= c < world.len() * zy,
                zy > 0,
        ;
        assert(r / ys < zs) by (nonlinear_arith)
            requires
                0 <= r < zy,
                zy == zs * ys,
                ys > 0,
        ;
        assert(0 <= r < zy);
        assert(0 <= r % ys < ys);
        assert(0 <= x) by (nonlinear_arith)
            requires
                x == c / zy,
                c >= 0,
                zy > 0,
        ;
        assert(0 <= r / ys) by (nonlinear_arith)
            requires
                r >= 0,
                ys > 0,
        ;
        assert(c <= world.len() * zy);
        let z = r / ys;
        let y = r % ys;
        let id = id_at(world, x, y, z);
        if i < prev.len() {
            assert(t - 1 <= world.len() * (zs * ys));
            law_draws_are_solid_cells(world, ys, zs, t - 1, i);
            if id != 0 {
                assert(draws_upto(world, ys, zs, t)[i] == prev[i]);
            }
        } else {
            assert(id != 0);
            let d = BlockDraw { x: x as usize, y: y as usize, z: z as usize, block: (id - 1) as usize };
            assert(draws_upto(world, ys, zs, t) == prev.push(d));
            assert(draws_upto(world, ys, zs, t)[i] == d);
            assert(d.x as int == x && d.y as int == y && d.z as int == z);
        }
    }
}

/// Law: the background indices only name vertices of the bands: each is below
/// four times the number of bands.
pub proof fn law_background_indices_in_range(bands: int, indices: Seq<u16>)
    requires
        indices.len() == 6 * bands,
        forall|k: int| #![trigger indices[6 * k]]
            0 <= k < bands ==> {
                &&& indices[6 * k] == 4 * k
                &&& indices[6 * k + 1] == 4 * k + 1
                &&& indices[6 * k + 2] == 4 * k + 2
                &&& indices[6 * k + 3] == 4 * k + 1
                &&& indices[6 * k + 4] == 4 * k + 2
                &&& indices[6 * k + 5] == 4 * k + 3
            },
    ensures
        forall|i: int| 0 <= i < indices.len() ==> indices[i] < 4 * bands,
{
    assert forall|i: int| 0 <= i < indices.len() implies indices[i] < 4 * bands by {
        let k = i / 6;
        assert(0 <= k < bands && 6 * k <= i < 6 * k + 6) by (nonlinear_arith)
            requires
                k == i / 6,
                0 <= i < 6 * bands,
        ;
        assert(indices[6 * k] == 4 * k);
    }
}

/// The frame renderer.
pub struct RenderSystem;

/// How many times the renderer tries to fetch the next swapchain texture.
pub const SWAPCHAIN_ATTEMPTS: u32 = 20;

/// What the renderer does after an attempt to fetch the next swapchain texture.
#[derive(Clone, Copy, PartialEq, Eq, Structural, Debug)]
pub enum SwapchainStep {
    /// The texture was fetched: draw the frame into it.
    Use,
    /// Wait half a second and try again.
    WaitAndRetry,
    /// Wait half a second, then report the failure and stop.
    WaitAndGiveUp,
}

impl RenderSystem {
    /// The step after attempt number `attempt` (counting from zero) to fetch the
    /// swapchain texture: a fetched texture is used; after a failure the renderer
    /// waits, then tries again until `SWAPCHAIN_ATTEMPTS` attempts have failed.
    pub fn swapchain_step(attempt: u32, fetched: bool) -> (step: SwapchainStep)
        ensures
            fetched ==> step == SwapchainStep::Use,
            !fetched && attempt + 1 < SWAPCHAIN_ATTEMPTS ==> step == SwapchainStep::WaitAndRetry,
            !fetched && attempt + 1 >= SWAPCHAIN_ATTEMPTS ==> step == SwapchainStep::WaitAndGiveUp,
    {
        if fetched {
            SwapchainStep::Use
        } else if attempt < SWAPCHAIN_ATTEMPTS - 1 {
            SwapchainStep::WaitAndRetry
        } else {
            SwapchainStep::WaitAndGiveUp
        }
    }
}

/// The visible chunks, by their position in the visible list, that have an
/// opaque model, in list order.
pub open spec fn opaque_order(models: Seq<(bool, bool)>) -> Seq<usize>
    decreases models.len(),
{
    if models.len() == 0 {
        Seq::empty()
    } else {
        let rest = opaque_order(models.drop_last());
        if models.last().0 {
            rest.push((models.len() - 1) as usize)
        } else {
            rest
        }
    }
}

/// The visible chunks, by their position in the visible list, that have a
/// translucent model, from the last to the first.
pub open spec fn translucent_order(models: Seq<(bool, bool)>) -> Seq<usize>
    decreases models.len(),
{
    if models.len() == 0 {
        Seq::empty()
    } else {
        let rest = translucent_order(models.drop_last());
        if models.last().1 {
            seq![(models.len() - 1) as usize] + rest
        } else {
            rest
        }
    }
}

/// Law: the opaque pass draws exactly the visible chunks that have an opaque
/// model, each once, in the order of the visible list: every entry of the order
/// is a chunk with an opaque model, every such chunk is in it, and the entries
/// increase.
pub proof fn law_opaque_order(models: Seq<(bool, bool)>)
    requires
        models.len() <= usize::MAX,
    ensures
        forall|p: int| 0 <= p < opaque_order(models).len() ==> {
            &&& 0 <= #[trigger] opaque_order(models)[p] < models.len()
            &&& models[opaque_order(models)[p] as int].0
        },
        forall|x: int| 0 <= x < models.len() && #[trigger] models[x].0 ==> opaque_order(models).contains(x as usize),
        forall|p: int, q: int| 0 <= p < q < opaque_order(models).len() ==> opaque_order(models)[p] < opaque_order(models)[q],
    decreases models.len(),
{
    if models.len() > 0 {
        let init = models.drop_last();
        law_opaque_order(init);
        let rest = opaque_order(init);
        let o = opaque_order(models);
        let last = (models.len() - 1) as usize;
        assert forall|p: int| 0 <= p < o.len() implies {
            &&& 0 <= #[trigger] o[p] < models.len()
            &&& models[o[p] as int].0
        } by {
            if p < rest.len() {
                assert(o[p] == rest[p]);
                assert(models[rest[p] as int] == init[rest[p] as int]);
            }
        }
        assert forall|x: int| 0 <= x < models.len() && #[trigger] models[x].0 implies o.contains(x as usize) by {
            if x < models.len() - 1 {
                assert(init[x] == models[x]);
                let p = choose|p: int| 0 <= p < rest.len() && rest[p] == x as usize;
                assert(o[p] == x as usize);
            } else {
                assert(o[o.len() - 1] == last);
            }
        }
    }
}

/// Law: the translucent pass draws exactly the visible chunks that have a
/// translucent model, each once, from the last to the first: every entry of the
/// order is a chunk with a translucent model, every such chunk is in it, and
/// the entries decrease.
pub proof fn law_translucent_order(models: Seq<(bool, bool)>)
    requires
        models.len() <= usize::MAX,
    ensures
        forall|p: int| 0 <= p < translucent_order(models).len() ==> {
            &&& 0 <= #[trigger] translucent_order(models)[p] < models.len()
            &&& models[translucent_order(models)[p] as int].1
        },
        forall|x: int| 0 <= x < models.len() && #[trigger] models[x].1 ==> translucent_order(models).contains(x as usize),
        forall|p: int, q: int| 0 <= p < q < translucent_order(models).len() ==> translucent_order(models)[p] > translucent_order(models)[q],
    decreases models.len(),
{
    if models.len() > 0 {
        let init = models.drop_last();
        law_translucent_order(init);
        let rest = translucent_order(init);
        let o = translucent_order(models);
        let last = (models.len() - 1) as usize;
        if models.last().1 {
            assert forall|p: int| 0 <= p < o.len() implies {
                &&& 0 <= #[trigger] o[p] < models.len()
                &&& models[o[p] as int].1
            } by {
                if p > 0 {
                    assert(o[p] == rest[p - 1]);
                    assert(models[rest[p - 1] as int] == init[rest[p - 1] as int]);
                }
            }
            assert forall|x: int| 0 <= x < models.len() && #[trigger] models[x].1 implies o.contains(x as usize) by {
                if x < models.len() - 1 {
                    assert(init[x] == models[x]);
                    let p = choose|p: int| 0 <= p < rest.len() && rest[p] == x as usize;
                    assert(o[p + 1] == x as usize);
                } else {
                    assert(o[0] == last);
                }
            }
            assert forall|p: int, q: int| 0 <= p < q < o.len() implies o[p] > o[q] by {
                if p > 0 {
                    assert(o[p] == rest[p - 1] && o[q] == rest[q - 1]);
                } else {
                    assert(o[q] == rest[q - 1]);
                }
            }
        } else {
            assert forall|p: int| 0 <= p < o.len() implies {
                &&& 0 <= #[trigger] o[p] < models.len()
                &&& models[o[p] as int].1
            } by {
                assert(models[rest[p] as int] == init[rest[p] as int]);
            }
            assert forall|x: int| 0 <= x < models.len() && #[trigger] models[x].1 implies o.contains(x as usize) by {
                assert(init[x] == models[x]);
            }
        }
    }
}

impl RenderSystem {
    /// The order in which the visible chunks are drawn. `models[i]` tells whether
    /// the `i`-th visible chunk has an opaque and a translucent model. Opaque
    /// models are drawn first, in the order of the visible list; translucent ones
    /// after, from the last visible chunk to the first, so that the nearer ones
    /// blend over the farther. Chunks without a model of a kind are skipped in
    /// that pass.
    pub fn chunk_draw_order(models: &Vec<(bool, bool)>) -> (order: (Vec<usize>, Vec<usize>))
        ensures
            order.0@ == opaque_order(models@),
            order.1@ == translucent_order(models@),
    {
        let mut opaque: Vec<usize> = Vec::new();
        let mut i: usize = 0;
        while i < models.len()
            invariant
                i <= models.len(),
                opaque@ == opaque_order(models@.take(i as int)),
            decreases models.len() - i,
        {
            assert(models@.take(i + 1).drop_last() =~= models@.take(i as int));
            if models[i].0 {
                opaque.push(i);
            }
            i = i + 1;
        }
        assert(models@.take(models.len() as int) =~= models@);
        let mut translucent: Vec<usize> = Vec::new();
        let mut j: usize = models.len();
        while j > 0
            invariant
                j <= models.len(),
                translucent_order(models@) == translucent@ + translucent_order(models@.take(j as int)),
            decreases j,
        {
            let k = j - 1;
            let ghost before = translucent@;
            assert(models@.take(j as int).drop_last() =~= models@.take(k as int));
            assert(models@.take(j as int).last() == models@[k as int]);
            if models[k].1 {
                translucent.push(k);
                assert(before + (seq![k] + translucent_order(models@.take(k as int)))
                    =~= translucent@ + translucent_order(models@.take(k as int)));
            } else {
            }
            j = k;
        }
        assert(translucent@ + Seq::<usize>::empty() =~= translucent@);
        (opaque, translucent)
    }
}

} // verus!
