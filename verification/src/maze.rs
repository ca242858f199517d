//! Maze generation and triangulation.
//!
//! A maze is a `(height + 1) x (width + 1)` grid of points, each holding one
//! direction drawn uniformly at random. Wall segments between neighboring
//! grid points are derived from those directions, and the walls are
//! triangulated once into whatever pair of sink containers the caller
//! supplies, so the render mesh and the physics collision mesh are guaranteed
//! to share one topology.
//!
//! Mesh coordinates are fixed-point integers in sixteenths of a world unit:
//! a grid point `(x, y)` sits at `(16*x + 8 - 8*width, 16*y + 8 - 8*height)`
//! sixteenths, and its four corner vertices are offset by one sixteenth in
//! each direction.

use vstd::prelude::*;

use crate::rng::rng_range;

verus! {

/// The direction stored at one grid point, drawn uniformly at random.
#[derive(Clone, Copy, Debug, PartialEq, Eq, Structural)]
pub enum WallStatus {
    Top,
    Right,
    Bottom,
    Left,
}

/// Wall topology of one generated maze.
pub struct Maze {
    /// Number of cells along the horizontal axis; always in `[4, 12]`.
    pub width: usize,
    /// Number of cells along the vertical axis; always in `[4, 10]`.
    pub height: usize,
    /// `(height + 1)` rows of `(width + 1)` directions each.
    pub grid: Vec<Vec<WallStatus>>,
}

/// Sink for mesh vertices: the triangulation pushes coordinate pairs into it.
/// Implementations differ only in storage layout, never in content.
pub trait VertexList<T>: Sized {
    /// The coordinate pairs pushed so far, oldest first.
    spec fn pts(&self) -> Seq<(T, T)>;

    fn new() -> (r: Self)
        ensures
            r.pts() == Seq::<(T, T)>::empty(),
    ;

    fn with_capacity(capacity: usize) -> (r: Self)
        ensures
            r.pts() == Seq::<(T, T)>::empty(),
    {
        Self::new()
    }

    fn push(&mut self, p0: T, p1: T)
        ensures
            final(self).pts() == old(self).pts().push((p0, p1)),
    ;
}

/// Sink for triangles: the triangulation pushes index triples into it.
pub trait TriangleIndexList<T>: Sized {
    /// The index triples pushed so far, oldest first.
    spec fn tris(&self) -> Seq<(T, T, T)>;

    fn new() -> (r: Self)
        ensures
            r.tris() == Seq::<(T, T, T)>::empty(),
    ;

    fn push(&mut self, p0: T, p1: T, p2: T)
        ensures
            final(self).tris() == old(self).tris().push((p0, p1, p2)),
    ;
}

/// Vertex sink that keeps coordinate pairs as pairs, as the physics trimesh
/// input expects.
pub struct PointBuffer {
    pub points: Vec<(i32, i32)>,
}

impl VertexList<i32> for PointBuffer {
    open spec fn pts(&self) -> Seq<(i32, i32)> {
        self.points@
    }

    fn new() -> (r: Self) {
        PointBuffer { points: Vec::new() }
    }

    fn push(&mut self, p0: i32, p1: i32) {
        self.points.push((p0, p1));
    }
}

/// Vertex sink that interleaves coordinates into one flat list, as a GPU
/// vertex buffer expects.
pub struct FlatVertexBuffer {
    coords: Vec<i32>,
}

impl FlatVertexBuffer {
    /// The flat list always holds whole coordinate pairs.
    #[verifier::type_invariant]
    spec fn paired(self) -> bool {
        self.coords@.len() % 2 == 0
    }

    /// The interleaved coordinate list: two entries per pushed pair.
    pub fn flat(&self) -> (r: &Vec<i32>)
        ensures
            r@.len() == 2 * self.pts().len(),
            forall|i: int|
                0 <= i < self.pts().len() ==> r@[2 * i] == (#[trigger] self.pts()[i]).0 && r@[2 * i
                    + 1] == self.pts()[i].1,
    {
        proof {
            use_type_invariant(&*self);
        }
        &self.coords
    }
}

impl VertexList<i32> for FlatVertexBuffer {
    closed spec fn pts(&self) -> Seq<(i32, i32)> {
        Seq::new(self.coords@.len() / 2, |i: int| (self.coords@[2 * i], self.coords@[2 * i + 1]))
    }

    fn new() -> (r: Self) {
        let r = FlatVertexBuffer { coords: Vec::new() };
        proof {
            assert(r.pts() =~= Seq::<(i32, i32)>::empty());
        }
        r
    }

    fn push(&mut self, p0: i32, p1: i32) {
        proof {
            use_type_invariant(&*self);
        }
        let mut c: Vec<i32> = Vec::new();
        std::mem::swap(&mut c, &mut self.coords);
        c.push(p0);
        c.push(p1);
        std::mem::swap(&mut c, &mut self.coords);
        proof {
            assert(self.pts() =~= old(self).pts().push((p0, p1)));
        }
    }
}

/// Triangle sink that keeps index triples as triples, as the physics trimesh
/// input expects.
pub struct TriangleBuffer {
    pub triangles: Vec<(u32, u32, u32)>,
}

impl TriangleIndexList<u32> for TriangleBuffer {
    open spec fn tris(&self) -> Seq<(u32, u32, u32)> {
        self.triangles@
    }

    fn new() -> (r: Self) {
        TriangleBuffer { triangles: Vec::new() }
    }

    fn push(&mut self, p0: u32, p1: u32, p2: u32) {
        self.triangles.push((p0, p1, p2));
    }
}

/// Triangle sink that flattens index triples into one list, as a GPU index
/// buffer expects.
pub struct FlatIndexBuffer {
    indexes: Vec<u32>,
}

impl FlatIndexBuffer {
    /// The flat list always holds whole triangles.
    #[verifier::type_invariant]
    spec fn whole_triangles(self) -> bool {
        self.indexes@.len() % 3 == 0
    }

    /// The flat index list: three entries per pushed triangle.
    pub fn flat(&self) -> (r: &Vec<u32>)
        ensures
            r@.len() == 3 * self.tris().len(),
            forall|i: int|
                0 <= i < self.tris().len() ==> r@[3 * i] == (#[trigger] self.tris()[i]).0 && r@[3
                    * i + 1] == self.tris()[i].1 && r@[3 * i + 2] == self.tris()[i].2,
    {
        proof {
            use_type_invariant(&*self);
        }
        &self.indexes
    }
}

impl TriangleIndexList<u32> for FlatIndexBuffer {
    closed spec fn tris(&self) -> Seq<(u32, u32, u32)> {
        Seq::new(
            self.indexes@.len() / 3,
            |i: int| (self.indexes@[3 * i], self.indexes@[3 * i + 1], self.indexes@[3 * i + 2]),
        )
    }

    fn new() -> (r: Self) {
        let r = FlatIndexBuffer { indexes: Vec::new() };
        proof {
            assert(r.tris() =~= Seq::<(u32, u32, u32)>::empty());
        }
        r
    }

    fn push(&mut self, p0: u32, p1: u32, p2: u32) {
        proof {
            use_type_invariant(&*self);
        }
        let mut c: Vec<u32> = Vec::new();
        std::mem::swap(&mut c, &mut self.indexes);
        c.push(p0);
        c.push(p1);
        c.push(p2);
        std::mem::swap(&mut c, &mut self.indexes);
        proof {
            assert(self.tris() =~= old(self).tris().push((p0, p1, p2)));
        }
    }
}

impl Maze {
    /// The direction stored at grid point `(x, y)`.
    pub open spec fn cell(&self, x: int, y: int) -> WallStatus {
        self.grid@[y]@[x]
    }

    /// Well-formedness: dimension bounds from the generator's ranges, and a
    /// fully filled grid.
    pub open spec fn wf(&self) -> bool {
        &&& 4 <= self.width <= 12
        &&& 4 <= self.height <= 10
        &&& self.grid@.len() == self.height + 1
        &&& forall|y: int|
            0 <= y < self.grid@.len() ==> (#[trigger] self.grid@[y])@.len() == self.width + 1
    }

    /// Draw a maze: `width` from `[4, 13)`, `height` from `[4, 11)`, then one
    /// direction per grid point.
    pub fn new(rng: &mut rand::rngs::StdRng) -> (m: Maze)
        ensures
            m.wf(),
            4 <= m.width <= 12,
            4 <= m.height <= 10,
    {
        let width = rng_range(rng, 4, 13) as usize;
        let height = rng_range(rng, 4, 11) as usize;

        let mut grid: Vec<Vec<WallStatus>> = Vec::new();
        for y in 0..(height + 1)
            invariant
                grid@.len() == y,
                forall|j: int| 0 <= j < y ==> (#[trigger] grid@[j])@.len() == width + 1,
                width <= 12,
                height <= 10,
        {
            let mut row: Vec<WallStatus> = Vec::new();
            for x in 0..(width + 1)
                invariant
                    row@.len() == x,
                    width <= 12,
            {
                let d = rng_range(rng, 0, 4);
                let status = if d == 0 {
                    WallStatus::Top
                } else if d == 1 {
                    WallStatus::Right
                } else if d == 2 {
                    WallStatus::Bottom
                } else {
                    WallStatus::Left
                };
                row.push(status);
            }
            grid.push(row);
        }
        Maze { width, height, grid }
    }

    /// Total number of mesh vertices: four corners per grid point.
    pub open spec fn vertex_count(&self) -> int {
        4 * (self.width + 1) * (self.height + 1)
    }

    /// A wall segment exists between grid point `(x, y)` and its right
    /// neighbor when the row is a boundary row, or when a neighboring cell's
    /// stored direction faces the segment.
    pub open spec fn hwall(&self, x: int, y: int) -> bool {
        x < self.width && (y == 0 || y == self.height || self.cell(x + 1, y) == WallStatus::Bottom
            || self.cell(x, y) == WallStatus::Top)
    }

    /// A wall segment exists between grid point `(x, y)` and its below
    /// neighbor when the column is a boundary column, or when a neighboring
    /// cell's stored direction faces the segment.
    pub open spec fn vwall(&self, x: int, y: int) -> bool {
        y < self.height && (x == 0 || x == self.width || self.cell(x, y + 1) == WallStatus::Right
            || self.cell(x, y) == WallStatus::Left)
    }

    /// Index of the first of the four corner vertices of grid point `(x, y)`.
    pub open spec fn base_index(w: int, x: int, y: int) -> int {
        4 * (x + y * (w + 1))
    }

    /// The four corner vertices of grid point `(x, y)`, in sixteenths.
    pub open spec fn quad_verts(w: int, h: int, x: int, y: int) -> Seq<(i32, i32)> {
        let cx = 16 * x + 8 - 8 * w;
        let cy = 16 * y + 8 - 8 * h;
        seq![
            (((cx - 1) as i32), ((cy - 1) as i32)),
            (((cx + 1) as i32), ((cy - 1) as i32)),
            (((cx - 1) as i32), ((cy + 1) as i32)),
            (((cx + 1) as i32), ((cy + 1) as i32)),
        ]
    }

    /// Corner vertices of the first `cols` grid points of row `y`.
    pub open spec fn row_verts(w: int, h: int, y: int, cols: nat) -> Seq<(i32, i32)>
        decreases cols,
    {
        if cols == 0 {
            Seq::empty()
        } else {
            Self::row_verts(w, h, y, (cols - 1) as nat) + Self::quad_verts(w, h, cols - 1, y)
        }
    }

    /// Corner vertices of the first `rows` rows of grid points.
    pub open spec fn rows_verts(w: int, h: int, rows: nat) -> Seq<(i32, i32)>
        decreases rows,
    {
        if rows == 0 {
            Seq::empty()
        } else {
            Self::rows_verts(w, h, (rows - 1) as nat) + Self::row_verts(
                w,
                h,
                rows - 1,
                (w + 1) as nat,
            )
        }
    }

    /// The full vertex list: all grid points in row-major order, four corner
    /// vertices each.
    pub open spec fn mesh_verts(w: int, h: int) -> Seq<(i32, i32)> {
        Self::rows_verts(w, h, (h + 1) as nat)
    }

    /// The triangles contributed by grid point `(x, y)`: two for a wall to
    /// the right neighbor, then two for a wall to the below neighbor.
    pub open spec fn cell_tris(&self, x: int, y: int) -> Seq<(u32, u32, u32)> {
        let w = self.width as int;
        let p0 = Self::base_index(w, x, y);
        let nh = Self::base_index(w, x + 1, y);
        let nv = Self::base_index(w, x, y + 1);
        (if self.hwall(x, y) {
            seq![
                ((p0 as u32), ((nh + 1) as u32), ((nh + 3) as u32)),
                ((p0 as u32), ((nh + 3) as u32), ((p0 + 2) as u32)),
            ]
        } else {
            Seq::<(u32, u32, u32)>::empty()
        }) + (if self.vwall(x, y) {
            seq![
                ((p0 as u32), ((p0 + 1) as u32), ((nv + 3) as u32)),
                ((p0 as u32), ((nv + 3) as u32), ((nv + 2) as u32)),
            ]
        } else {
            Seq::<(u32, u32, u32)>::empty()
        })
    }

    /// Triangles contributed by the first `cols` grid points of row `y`.
    pub open spec fn row_tris(&self, y: int, cols: nat) -> Seq<(u32, u32, u32)>
        decreases cols,
    {
        if cols == 0 {
            Seq::empty()
        } else {
            self.row_tris(y, (cols - 1) as nat) + self.cell_tris(cols - 1, y)
        }
    }

    /// Triangles contributed by the first `rows` rows of grid points.
    pub open spec fn rows_tris(&self, rows: nat) -> Seq<(u32, u32, u32)>
        decreases rows,
    {
        if rows == 0 {
            Seq::empty()
        } else {
            self.rows_tris((rows - 1) as nat) + self.row_tris(rows - 1, (self.width + 1) as nat)
        }
    }

    /// The full triangle list of the maze's walls, in row-major grid order.
    pub open spec fn mesh_tris(&self) -> Seq<(u32, u32, u32)> {
        self.rows_tris((self.height + 1) as nat)
    }

    /// Build a maze from explicit dimensions and grid contents, validating
    /// the same invariant the generator guarantees.
    pub fn from_grid(width: usize, height: usize, rows: Vec<Vec<WallStatus>>) -> (r: Option<Maze>)
        ensures
            r is Some <==> {
                &&& 4 <= width <= 12
                &&& 4 <= height <= 10
                &&& rows@.len() == height + 1
                &&& forall|y: int|
                    0 <= y < rows@.len() ==> (#[trigger] rows@[y])@.len() == width + 1
            },
            r matches Some(m) ==> {
                &&& m.wf()
                &&& m.width == width
                &&& m.height == height
                &&& forall|x: int, y: int|
                    0 <= y < rows@.len() && 0 <= x < rows@[y]@.len() ==> #[trigger] m.cell(x, y)
                        == rows@[y]@[x]
            },
    {
        if !(4 <= width && width <= 12 && 4 <= height && height <= 10) {
            return None;
        }
        if rows.len() != height + 1 {
            return None;
        }
        let mut y: usize = 0;
        while y < rows.len()
            invariant
                y <= rows@.len(),
                forall|j: int| 0 <= j < y ==> (#[trigger] rows@[j])@.len() == width + 1,
                width <= 12,
            decreases rows@.len() - y,
        {
            if rows[y].len() != width + 1 {
                return None;
            }
            y = y + 1;
        }
        Some(Maze { width, height, grid: rows })
    }

    /// The first vertex index of grid point `(x, y)`.
    fn grid_point_offset(&self, x: usize, y: usize) -> (r: u32)
        requires
            self.wf(),
            x <= self.width + 1,
            y <= self.height + 1,
        ensures
            r == Self::base_index(self.width as int, x as int, y as int),
            r <= 624,
    {
        proof {
            assert(y * (self.width + 1) <= 11 * 13) by (nonlinear_arith)
                requires
                    y <= 11,
                    self.width <= 12,
            ;
        }
        (4 * (x + y * (self.width + 1))) as u32
    }

    /// Triangulate the maze's walls into the given vertex and triangle
    /// sinks. Called once per consumer (render mesh, collision mesh); the
    /// result is a pure function of the maze, so every consumer receives the
    /// identical topology.
    #[verifier::rlimit(60)]
    pub fn triangle_mesh<V: VertexList<i32>, I: TriangleIndexList<u32>>(&self) -> (r: (V, I))
        requires
            self.wf(),
        ensures
            r.0.pts() == Self::mesh_verts(self.width as int, self.height as int),
            r.1.tris() == self.mesh_tris(),
            r.0.pts().len() == self.vertex_count(),
            tris_in_bounds(r.1.tris(), self.vertex_count()),
    {
        let w = self.width;
        let h = self.height;
        proof {
            assert(w * h <= 120) by (nonlinear_arith)
                requires
                    w <= 12,
                    h <= 10,
            ;
        }
        let mut vertices: V = V::with_capacity(w * h * 4);
        for y in 0..(h + 1)
            invariant
                w == self.width,
                h == self.height,
                self.wf(),
                vertices.pts() == Self::rows_verts(w as int, h as int, y as nat),
        {
            for x in 0..(w + 1)
                invariant
                    w == self.width,
                    h == self.height,
                    self.wf(),
                    y <= h,
                    vertices.pts() == Self::rows_verts(w as int, h as int, y as nat)
                        + Self::row_verts(w as int, h as int, y as int, x as nat),
            {
                let cx: i32 = 16 * (x as i32) + 8 - 8 * (w as i32);
                let cy: i32 = 16 * (y as i32) + 8 - 8 * (h as i32);
                vertices.push(cx - 1, cy - 1);
                vertices.push(cx + 1, cy - 1);
                vertices.push(cx - 1, cy + 1);
                vertices.push(cx + 1, cy + 1);
                proof {
                    assert(vertices.pts() =~= Self::rows_verts(w as int, h as int, y as nat)
                        + Self::row_verts(w as int, h as int, y as int, (x + 1) as nat));
                }
            }
        }
        proof {
            assert(vertices.pts() =~= Self::mesh_verts(self.width as int, self.height as int));
            Self::lemma_mesh_verts_len(self.width as int, self.height as int);
        }

        let mut indexes: I = I::new();
        for y in 0..(h + 1)
            invariant
                w == self.width,
                h == self.height,
                self.wf(),
                indexes.tris() == self.rows_tris(y as nat),
        {
            for x in 0..(w + 1)
                invariant
                    w == self.width,
                    h == self.height,
                    self.wf(),
                    y <= h,
                    indexes.tris() == self.rows_tris(y as nat) + self.row_tris(y as int, x as nat),
            {
                let ghost prev = indexes.tris();
                let p0 = self.grid_point_offset(x, y);
                let bh = x < w && (y == 0 || y == h || self.grid[y][x + 1] == WallStatus::Bottom
                    || self.grid[y][x] == WallStatus::Top);
                let bv = y < h && (x == 0 || x == w || self.grid[y + 1][x] == WallStatus::Right
                    || self.grid[y][x] == WallStatus::Left);
                proof {
                    assert(bh == self.hwall(x as int, y as int));
                    assert(bv == self.vwall(x as int, y as int));
                }
                if bh {
                    let n = self.grid_point_offset(x + 1, y);
                    indexes.push(p0, n + 1, n + 3);
                    indexes.push(p0, n + 3, p0 + 2);
                }
                if bv {
                    let n = self.grid_point_offset(x, y + 1);
                    indexes.push(p0, p0 + 1, n + 3);
                    indexes.push(p0, n + 3, n + 2);
                }
                proof {
                    assert(indexes.tris() =~= prev + self.cell_tris(x as int, y as int));
                    assert(indexes.tris() =~= self.rows_tris(y as nat) + self.row_tris(
                        y as int,
                        (x + 1) as nat,
                    ));
                }
            }
        }
        proof {
            assert(indexes.tris() =~= self.mesh_tris());
            self.lemma_mesh_tris_in_bounds();
        }
        (vertices, indexes)
    }

    /// Every row of grid points contributes four vertices per grid point.
    proof fn lemma_row_verts_len(w: int, h: int, y: int, cols: nat)
        ensures
            Self::row_verts(w, h, y, cols).len() == 4 * cols,
        decreases cols,
    {
        if cols > 0 {
            Self::lemma_row_verts_len(w, h, y, (cols - 1) as nat);
        }
    }

    proof fn lemma_rows_verts_len(w: int, h: int, rows: nat)
        requires
            w >= 0,
        ensures
            Self::rows_verts(w, h, rows).len() == rows * (4 * (w + 1)),
        decreases rows,
    {
        if rows > 0 {
            Self::lemma_rows_verts_len(w, h, (rows - 1) as nat);
            Self::lemma_row_verts_len(w, h, rows - 1, (w + 1) as nat);
            assert((rows - 1) * (4 * (w + 1)) + 4 * (w + 1) == rows * (4 * (w + 1)))
                by (nonlinear_arith);
        } else {
            assert(rows * (4 * (w + 1)) == 0) by (nonlinear_arith)
                requires
                    rows == 0,
            ;
        }
    }

    /// The vertex list has exactly `4 * (width + 1) * (height + 1)` entries.
    pub proof fn lemma_mesh_verts_len(w: int, h: int)
        requires
            w >= 0,
            h >= 0,
        ensures
            Self::mesh_verts(w, h).len() == 4 * (w + 1) * (h + 1),
    {
        Self::lemma_rows_verts_len(w, h, (h + 1) as nat);
        assert((h + 1) * (4 * (w + 1)) == 4 * (w + 1) * (h + 1)) by (nonlinear_arith);
    }

    proof fn lemma_cell_tris_in_bounds(&self, x: int, y: int)
        requires
            self.wf(),
            0 <= x <= self.width,
            0 <= y <= self.height,
        ensures
            tris_in_bounds(self.cell_tris(x, y), self.vertex_count()),
    {
        let w = self.width as int;
        let h = self.height as int;
        let n = self.vertex_count();
        let p0 = Self::base_index(w, x, y);
        let nh = Self::base_index(w, x + 1, y);
        let nv = Self::base_index(w, x, y + 1);
        let ha = if self.hwall(x, y) {
            seq![
                ((p0 as u32), ((nh + 1) as u32), ((nh + 3) as u32)),
                ((p0 as u32), ((nh + 3) as u32), ((p0 + 2) as u32)),
            ]
        } else {
            Seq::<(u32, u32, u32)>::empty()
        };
        let va = if self.vwall(x, y) {
            seq![
                ((p0 as u32), ((p0 + 1) as u32), ((nv + 3) as u32)),
                ((p0 as u32), ((nv + 3) as u32), ((nv + 2) as u32)),
            ]
        } else {
            Seq::<(u32, u32, u32)>::empty()
        };
        assert(self.cell_tris(x, y) == ha + va);
        if self.hwall(x, y) {
            assert(0 <= p0 && p0 + 3 < n && 0 <= nh && nh + 3 < n && n <= 572) by (nonlinear_arith)
                requires
                    p0 == 4 * (x + y * (w + 1)),
                    nh == 4 * ((x + 1) + y * (w + 1)),
                    n == 4 * (w + 1) * (h + 1),
                    0 <= x < w,
                    0 <= y <= h,
                    w <= 12,
                    h <= 10,
            ;
            assert(tri_in_bounds(ha[0], n));
            assert(tri_in_bounds(ha[1], n));
        }
        if self.vwall(x, y) {
            assert(0 <= p0 && p0 + 3 < n && 0 <= nv && nv + 3 < n && n <= 572) by (nonlinear_arith)
                requires
                    p0 == 4 * (x + y * (w + 1)),
                    nv == 4 * (x + (y + 1) * (w + 1)),
                    n == 4 * (w + 1) * (h + 1),
                    0 <= x <= w,
                    0 <= y < h,
                    w <= 12,
                    h <= 10,
            ;
            assert(tri_in_bounds(va[0], n));
            assert(tri_in_bounds(va[1], n));
        }
        assert(tris_in_bounds(ha, n)) by {
            assert forall|k: int| 0 <= k < ha.len() implies tri_in_bounds(#[trigger] ha[k], n) by {
                assert(self.hwall(x, y));
            }
        }
        assert(tris_in_bounds(va, n)) by {
            assert forall|k: int| 0 <= k < va.len() implies tri_in_bounds(#[trigger] va[k], n) by {
                assert(self.vwall(x, y));
            }
        }
        lemma_tris_in_bounds_add(ha, va, n);
    }

    proof fn lemma_row_tris_in_bounds(&self, y: int, cols: nat)
        requires
            self.wf(),
            0 <= y <= self.height,
            cols <= self.width + 1,
        ensures
            tris_in_bounds(self.row_tris(y, cols), self.vertex_count()),
        decreases cols,
    {
        if cols > 0 {
            self.lemma_row_tris_in_bounds(y, (cols - 1) as nat);
            self.lemma_cell_tris_in_bounds(cols - 1, y);
            lemma_tris_in_bounds_add(
                self.row_tris(y, (cols - 1) as nat),
                self.cell_tris(cols - 1, y),
                self.vertex_count(),
            );
        }
    }

    proof fn lemma_rows_tris_in_bounds(&self, rows: nat)
        requires
            self.wf(),
            rows <= self.height + 1,
        ensures
            tris_in_bounds(self.rows_tris(rows), self.vertex_count()),
        decreases rows,
    {
        if rows > 0 {
            self.lemma_rows_tris_in_bounds((rows - 1) as nat);
            self.lemma_row_tris_in_bounds(rows - 1, (self.width + 1) as nat);
            lemma_tris_in_bounds_add(
                self.rows_tris((rows - 1) as nat),
                self.row_tris(rows - 1, (self.width + 1) as nat),
                self.vertex_count(),
            );
        }
    }

    /// Every index emitted by the triangulation references a valid vertex:
    /// no triangle of the wall mesh can point outside the vertex list.
    pub proof fn lemma_mesh_tris_in_bounds(&self)
        requires
            self.wf(),
        ensures
            tris_in_bounds(self.mesh_tris(), self.vertex_count()),
    {
        self.lemma_rows_tris_in_bounds((self.height + 1) as nat);
    }
}

/// All three corners of the triangle reference a vertex index below `n`.
pub open spec fn tri_in_bounds(t: (u32, u32, u32), n: int) -> bool {
    t.0 < n && t.1 < n && t.2 < n
}

/// Every triangle of the list references only vertex indices below `n`.
pub open spec fn tris_in_bounds(s: Seq<(u32, u32, u32)>, n: int) -> bool {
    forall|k: int| 0 <= k < s.len() ==> tri_in_bounds(#[trigger] s[k], n)
}

proof fn lemma_tris_in_bounds_add(a: Seq<(u32, u32, u32)>, b: Seq<(u32, u32, u32)>, n: int)
    requires
        tris_in_bounds(a, n),
        tris_in_bounds(b, n),
    ensures
        tris_in_bounds(a + b, n),
{
    assert forall|k: int| 0 <= k < (a + b).len() implies tri_in_bounds(#[trigger] (a + b)[k], n) by {
        if k < a.len() {
            assert((a + b)[k] == a[k]);
        } else {
            assert((a + b)[k] == b[k - a.len()]);
        }
    }
}

} // verus!
