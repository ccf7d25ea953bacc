//! A height field: a grid of heights that is turned into the mesh of a
//! model.

use vstd::prelude::*;
use crate::buffers::Vertex;
use crate::device::{appends, Device};
use crate::material_structs::MaterialInfo;
use crate::math::{Scalar, Vector2, Vector3, ONE, THIRTY_TWO, ZERO};
use crate::models::Model;

verus! {

/// Bit pattern of `0.529`, the red of the height field's tint.
pub const SKY_RED: u32 = 0x3F07_6C8B;

/// Bit pattern of `0.808`, the green of the height field's tint.
pub const SKY_GREEN: u32 = 0x3F4E_D917;

/// Bit pattern of `0.922`, the blue of the height field's tint.
pub const SKY_BLUE: u32 = 0x3F6C_0831;

/// A grid of heights, column by column, for the model in slot
/// `model_index` of a scene.
#[derive(Debug)]
pub struct F322DVectorTo3DModel {
    pub model_index: usize,
    pub values: Vec<Vec<Scalar>>,
    pub scale: Scalar,
}

/// Number of heights in each column of `values`.
pub open spec fn column_lengths(values: Seq<Vec<Scalar>>) -> Seq<nat> {
    Seq::new(values.len(), |i: int| values[i]@.len())
}

/// Number of heights in the first `n` columns. The vertices of a field lie
/// column by column, so this is where column `n` begins in the vertex list:
/// the height at column `i`, place `j` is vertex `heights_before(i) + j`.
pub open spec fn heights_before(lengths: Seq<nat>, n: nat) -> nat
    decreases n,
{
    if n == 0 {
        0
    } else {
        heights_before(lengths, (n - 1) as nat) + lengths[n - 1]
    }
}

/// Number of heights in the longest of the first `n` columns.
pub open spec fn tallest(lengths: Seq<nat>, n: nat) -> nat
    decreases n,
{
    if n == 0 {
        0
    } else if lengths[n - 1] > tallest(lengths, (n - 1) as nat) {
        lengths[n - 1]
    } else {
        tallest(lengths, (n - 1) as nat)
    }
}

/// Number of gaps between `count` things in a row.
pub open spec fn gaps(count: nat) -> nat {
    if count == 0 {
        0
    } else {
        (count - 1) as nat
    }
}

/// Whether the field has a cell at place `p` between column `c` and the
/// next: both columns hold the places `p` and `p + 1`.
pub open spec fn has_cell(lengths: Seq<nat>, c: nat, p: nat) -> bool {
    c + 1 < lengths.len() && p + 1 < lengths[c as int] && p + 1 < lengths[c as int + 1]
}

/// The six indices of the two triangles of the cell at place `p` between a
/// column that begins at vertex `here` and the next, which begins at vertex
/// `next`. The first triangle joins the two corners of the first column
/// and the near corner of the next, the second the remaining corner and
/// the edge that the two share.
pub open spec fn cell_indices(here: nat, next: nat, p: nat) -> Seq<u32> {
    seq![(here + p) as u32].push((here + p + 1) as u32).push((next + p) as u32).push(
        (next + p) as u32,
    ).push((here + p + 1) as u32).push((next + p + 1) as u32)
}

/// The indices of the cell at place `p` between column `c` and the next,
/// or nothing where the field has no such cell.
pub open spec fn cell_or_nothing(lengths: Seq<nat>, c: nat, p: nat) -> Seq<u32> {
    if has_cell(lengths, c, p) {
        cell_indices(heights_before(lengths, c), heights_before(lengths, c + 1), p)
    } else {
        Seq::empty()
    }
}

/// The indices of the cells at place `p` between the first `m + 1`
/// columns, column by column.
pub open spec fn row_indices(lengths: Seq<nat>, p: nat, m: nat) -> Seq<u32>
    decreases m,
{
    if m == 0 {
        Seq::empty()
    } else {
        row_indices(lengths, p, (m - 1) as nat) + cell_or_nothing(lengths, (m - 1) as nat, p)
    }
}

/// The indices of the cells at the first `n` places, place by place.
pub open spec fn grid_indices(lengths: Seq<nat>, n: nat) -> Seq<u32>
    decreases n,
{
    if n == 0 {
        Seq::empty()
    } else {
        grid_indices(lengths, (n - 1) as nat) + row_indices(
            lengths,
            (n - 1) as nat,
            gaps(lengths.len()),
        )
    }
}

/// The triangle indices of a field with columns of the given lengths: the
/// cells at place 0 of all columns first, then those at place 1, up to the
/// last place but one of the longest column.
pub open spec fn field_indices(lengths: Seq<nat>) -> Seq<u32> {
    grid_indices(lengths, gaps(tallest(lengths, lengths.len())))
}

/// The count of heights grows with every column.
pub proof fn lemma_heights_grow(lengths: Seq<nat>, a: nat, b: nat)
    requires
        a <= b <= lengths.len(),
    ensures
        heights_before(lengths, a) <= heights_before(lengths, b),
    decreases b,
{
    if a < b {
        lemma_heights_grow(lengths, a, (b - 1) as nat);
    }
}

/// The corners of a cell are heights of its two columns: every index of a
/// cell that the field has is below the number of heights in the field.
pub proof fn lemma_cell_names_heights(lengths: Seq<nat>, c: nat, p: nat)
    requires
        heights_before(lengths, lengths.len()) <= u32::MAX,
    ensures
        cell_or_nothing(lengths, c, p).len() == if has_cell(lengths, c, p) {
            6nat
        } else {
            0nat
        },
        forall|k: int|
            0 <= k < cell_or_nothing(lengths, c, p).len() ==> heights_before(lengths, c) <= (
            #[trigger] cell_or_nothing(lengths, c, p)[k]) < heights_before(lengths, c + 2),
        has_cell(lengths, c, p) ==> heights_before(lengths, c + 2) <= heights_before(
            lengths,
            lengths.len(),
        ),
{
    if has_cell(lengths, c, p) {
        lemma_heights_grow(lengths, c + 2, lengths.len());
        assert(heights_before(lengths, c + 1) == heights_before(lengths, c) + lengths[c as int]);
        assert(heights_before(lengths, c + 2) == heights_before(lengths, c + 1) + lengths[c as int
            + 1]);
    }
}

/// Every index of a row of cells names a height of the field.
pub proof fn lemma_row_indices_name_heights(lengths: Seq<nat>, p: nat, m: nat)
    requires
        heights_before(lengths, lengths.len()) <= u32::MAX,
    ensures
        forall|k: int|
            0 <= k < row_indices(lengths, p, m).len() ==> (#[trigger] row_indices(lengths, p, m)[k])
                < heights_before(lengths, lengths.len()),
    decreases m,
{
    if m > 0 {
        lemma_row_indices_name_heights(lengths, p, (m - 1) as nat);
        lemma_cell_names_heights(lengths, (m - 1) as nat, p);
        let rest = row_indices(lengths, p, (m - 1) as nat);
        let cell = cell_or_nothing(lengths, (m - 1) as nat, p);
        assert forall|k: int| 0 <= k < row_indices(lengths, p, m).len() implies (
        #[trigger] row_indices(lengths, p, m)[k]) < heights_before(lengths, lengths.len()) by {
            if k >= rest.len() {
                assert(row_indices(lengths, p, m)[k] == cell[k - rest.len()]);
            }
        }
    }
}

/// Every index of a cell names one of the cell's own four corners, and so a
/// height of the field: the indices of the cells at the first `n` places
/// are below the number of heights in the field.
pub proof fn lemma_grid_indices_name_heights(lengths: Seq<nat>, n: nat)
    requires
        heights_before(lengths, lengths.len()) <= u32::MAX,
    ensures
        forall|k: int|
            0 <= k < grid_indices(lengths, n).len() ==> (#[trigger] grid_indices(lengths, n)[k])
                < heights_before(lengths, lengths.len()),
    decreases n,
{
    if n > 0 {
        lemma_grid_indices_name_heights(lengths, (n - 1) as nat);
        lemma_row_indices_name_heights(lengths, (n - 1) as nat, gaps(lengths.len()));
        let rest = grid_indices(lengths, (n - 1) as nat);
        let row = row_indices(lengths, (n - 1) as nat, gaps(lengths.len()));
        assert forall|k: int| 0 <= k < grid_indices(lengths, n).len() implies (
        #[trigger] grid_indices(lengths, n)[k]) < heights_before(lengths, lengths.len()) by {
            if k >= rest.len() {
                assert(grid_indices(lengths, n)[k] == row[k - rest.len()]);
            }
        }
    }
}

/// The six indices of cell number `k` in a list of cells.
pub open spec fn six_at(indices: Seq<u32>, k: int) -> Seq<u32> {
    indices.subrange(6 * k, 6 * k + 6)
}

/// The six indices of cell number `c` of row `p` in a list that holds
/// `cells` cells for every row.
pub open spec fn cell_in_row(indices: Seq<u32>, cells: int, p: int, c: int) -> Seq<u32> {
    six_at(indices, p * cells + c)
}

/// Whether every column holds `rows` heights.
pub open spec fn rectangular(lengths: Seq<nat>, rows: nat) -> bool {
    forall|i: int| 0 <= i < lengths.len() ==> #[trigger] lengths[i] == rows
}

/// In a field whose columns all hold `rows` heights, column `m` begins at
/// vertex `m * rows`, and the longest column holds `rows` heights.
pub proof fn lemma_rectangular_heights(lengths: Seq<nat>, rows: nat, m: nat)
    requires
        rectangular(lengths, rows),
        m <= lengths.len(),
    ensures
        heights_before(lengths, m) == m * rows,
        m >= 1 ==> tallest(lengths, m) == rows,
    decreases m,
{
    if m > 0 {
        lemma_rectangular_heights(lengths, rows, (m - 1) as nat);
        assert(lengths[m - 1] == rows);
        assert(tallest(lengths, 0) == 0);
        assert(m * rows == (m - 1) * rows + rows) by (nonlinear_arith);
    } else {
        assert(m * rows == 0) by (nonlinear_arith)
            requires
                m == 0,
        ;
    }
}

/// In a field whose columns all hold `rows` heights, the row of cells at
/// place `p` holds one cell between every two columns next to each other,
/// column by column.
pub proof fn lemma_rectangular_row(lengths: Seq<nat>, rows: nat, p: nat, m: nat)
    requires
        rectangular(lengths, rows),
        p + 1 < rows,
        m < lengths.len(),
    ensures
        row_indices(lengths, p, m).len() == 6 * m,
        forall|c: int|
            0 <= c < m ==> #[trigger] six_at(row_indices(lengths, p, m), c) == cell_indices(
                (c * rows) as nat,
                ((c + 1) * rows) as nat,
                p,
            ),
    decreases m,
{
    if m > 0 {
        let rest = row_indices(lengths, p, (m - 1) as nat);
        let row = row_indices(lengths, p, m);
        lemma_rectangular_row(lengths, rows, p, (m - 1) as nat);
        lemma_rectangular_heights(lengths, rows, (m - 1) as nat);
        lemma_rectangular_heights(lengths, rows, m);
        assert(lengths[m - 1] == rows && lengths[m as int] == rows);
        assert(has_cell(lengths, (m - 1) as nat, p));
        let cell = cell_indices(((m - 1) * rows) as nat, (m * rows) as nat, p);
        assert(cell_or_nothing(lengths, (m - 1) as nat, p) == cell);
        assert(cell.len() == 6);
        assert(row == rest + cell);
        assert forall|c: int| 0 <= c < m implies #[trigger] six_at(row, c) == cell_indices(
            (c * rows) as nat,
            ((c + 1) * rows) as nat,
            p,
        ) by {
            if c < m - 1 {
                assert(six_at(rest, c) == cell_indices(
                    (c * rows) as nat,
                    ((c + 1) * rows) as nat,
                    p,
                ));
                assert(six_at(row, c) =~= six_at(rest, c));
            } else {
                assert(c == m - 1);
                assert(six_at(row, c) =~= cell);
            }
        }
    }
}

/// In a field of at least one column whose columns all hold `rows`
/// heights, the height at column `c`, place `p` is vertex `c * rows + p`.
/// The field has a cell for every place `p` but the last and every column
/// `c` but the last; the cells lie place by place, and for each place
/// column by column. The cell at `p` and `c` holds the indices
/// `c * rows + p`, `c * rows + p + 1`, `(c + 1) * rows + p`, then the last
/// of these again, the second again, and `(c + 1) * rows + p + 1`.
pub proof fn lemma_rectangular_field(lengths: Seq<nat>, rows: nat, n: nat)
    requires
        rectangular(lengths, rows),
        lengths.len() >= 1,
        n + 1 <= rows,
    ensures
        heights_before(lengths, lengths.len()) == lengths.len() * rows,
        grid_indices(lengths, n).len() == 6 * (n * (lengths.len() - 1)),
        n + 1 == rows ==> field_indices(lengths) == grid_indices(lengths, n),
        forall|p: int, c: int|
            0 <= p < n && 0 <= c < lengths.len() - 1 ==> #[trigger] cell_in_row(
                grid_indices(lengths, n),
                lengths.len() - 1,
                p,
                c,
            ) == cell_indices((c * rows) as nat, ((c + 1) * rows) as nat, p as nat),
    decreases n,
{
    let cells = lengths.len() - 1;
    lemma_rectangular_heights(lengths, rows, lengths.len());
    if n > 0 {
        let rest = grid_indices(lengths, (n - 1) as nat);
        let row = row_indices(lengths, (n - 1) as nat, cells as nat);
        let grid = grid_indices(lengths, n);
        lemma_rectangular_field(lengths, rows, (n - 1) as nat);
        lemma_rectangular_row(lengths, rows, (n - 1) as nat, cells as nat);
        assert(grid == rest + row);
        assert(n * cells == (n - 1) * cells + cells) by (nonlinear_arith);
        assert(rest.len() == 6 * ((n - 1) * cells));
        assert(row.len() == 6 * cells);
        assert forall|p: int, c: int| 0 <= p < n && 0 <= c < cells implies #[trigger] cell_in_row(
            grid,
            cells,
            p,
            c,
        ) == cell_indices((c * rows) as nat, ((c + 1) * rows) as nat, p as nat) by {
            let k = p * cells + c;
            if p < n - 1 {
                assert(0 <= k && k + 1 <= (n - 1) * cells) by (nonlinear_arith)
                    requires
                        k == p * cells + c,
                        0 <= p < n - 1,
                        0 <= c < cells,
                ;
                assert(six_at(grid, k) =~= six_at(rest, k));
                assert(cell_in_row(rest, cells, p, c) == six_at(rest, k));
            } else {
                assert(k == (n - 1) * cells + c);
                assert(six_at(grid, k) =~= six_at(row, c));
            }
        }
    } else {
        assert(n * cells == 0) by (nonlinear_arith)
            requires
                n == 0,
        ;
    }
}

/// The vertex of the height field with the given position and texture
/// coordinate: tinted sky blue, its normal straight up.
pub open spec fn field_vertex(position: Vector3, texcoord: Vector2) -> Vertex {
    (
        position,
        Vector3 {
            x: Scalar { bits: SKY_RED },
            y: Scalar { bits: SKY_GREEN },
            z: Scalar { bits: SKY_BLUE },
        },
        Vector3::spec_unit_y(),
        texcoord,
    )
}

/// The vertices of the height field, one for each point: a position with
/// its texture coordinate.
pub open spec fn field_vertices(points: Seq<(Vector3, Vector2)>) -> Seq<Vertex> {
    Seq::new(points.len(), |k: int| field_vertex(points[k].0, points[k].1))
}

impl F322DVectorTo3DModel {
    /// A flat field of `width` columns of `height` heights each, all zero.
    pub fn new(model_index: usize, width: usize, height: usize, scale: Scalar) -> (field: Self)
        ensures
            field.model_index == model_index,
            field.scale == scale,
            field.values@.len() == width,
            forall|i: int| 0 <= i < width ==> (#[trigger] field.values@[i])@.len() == height,
            forall|i: int, j: int|
                0 <= i < width && 0 <= j < height ==> (#[trigger] field.values@[i]@[j])
                    == (Scalar { bits: ZERO }),
    {
        let mut values: Vec<Vec<Scalar>> = Vec::new();
        let mut i: usize = 0;
        while i < width
            invariant
                i <= width,
                values@.len() == i,
                forall|a: int| 0 <= a < i ==> (#[trigger] values@[a])@.len() == height,
                forall|a: int, b: int|
                    0 <= a < i && 0 <= b < height ==> (#[trigger] values@[a]@[b]) == (Scalar {
                        bits: ZERO,
                    }),
            decreases width - i,
        {
            let mut lower_value: Vec<Scalar> = Vec::new();
            let mut j: usize = 0;
            while j < height
                invariant
                    j <= height,
                    lower_value@.len() == j,
                    forall|b: int|
                        0 <= b < j ==> (#[trigger] lower_value@[b]) == (Scalar { bits: ZERO }),
                decreases height - j,
            {
                lower_value.push(Scalar { bits: ZERO });
                j += 1;
            }
            values.push(lower_value);
            i += 1;
        }
        F322DVectorTo3DModel { model_index, values, scale }
    }

    /// Number of heights in the field.
    pub open spec fn spec_height_count(&self) -> nat {
        heights_before(column_lengths(self.values@), self.values@.len())
    }

    /// Whether the field can be meshed: it has no more heights than 32 bits
    /// can number, so that every index of the mesh fits its type.
    pub open spec fn spec_meshable(&self) -> bool {
        self.spec_height_count() <= u32::MAX
    }

    /// Whether the field can be meshed, see [`Self::spec_meshable`].
    #[verifier::when_used_as_spec(spec_meshable)]
    pub fn meshable(&self) -> (yes: bool)
        ensures
            yes == self.meshable(),
    {
        let ghost lengths = column_lengths(self.values@);
        let mut total: usize = 0;
        let mut i: usize = 0;
        while i < self.values.len()
            invariant
                i <= self.values@.len(),
                lengths == column_lengths(self.values@),
                total == heights_before(lengths, i as nat),
                total <= u32::MAX,
            decreases self.values.len() - i,
        {
            let here: usize = self.values[i].len();
            if here > u32::MAX as usize - total {
                proof {
                    lemma_heights_grow(lengths, (i + 1) as nat, lengths.len());
                }
                return false;
            }
            total = total + here;
            i += 1;
        }
        true
    }

    /// Number of heights in the field, which is the number of vertices of
    /// its mesh.
    pub fn height_count(&self) -> (count: usize)
        requires
            self.meshable(),
        ensures
            count == self.spec_height_count(),
    {
        let ghost lengths = column_lengths(self.values@);
        let mut total: usize = 0;
        let mut i: usize = 0;
        while i < self.values.len()
            invariant
                i <= self.values@.len(),
                lengths == column_lengths(self.values@),
                heights_before(lengths, lengths.len()) <= u32::MAX,
                total == heights_before(lengths, i as nat),
            decreases self.values.len() - i,
        {
            proof {
                lemma_heights_grow(lengths, (i + 1) as nat, lengths.len());
            }
            total = total + self.values[i].len();
            i += 1;
        }
        total
    }

    /// The triangle indices of the field: for every place but the last of
    /// the longest column, and every two columns next to each other that
    /// both hold that place and the next, the two triangles of one cell,
    /// which join the heights at these two places of both columns. Every
    /// index names a height of the field.
    pub fn indices(&self) -> (indices: Vec<u32>)
        requires
            self.meshable(),
        ensures
            indices@ == field_indices(column_lengths(self.values@)),
            forall|k: int|
                0 <= k < indices@.len() ==> (#[trigger] indices@[k]) < self.spec_height_count(),
    {
        let ghost lengths = column_lengths(self.values@);
        let columns: usize = self.values.len();
        let mut longest: usize = 0;
        let mut i: usize = 0;
        while i < columns
            invariant
                columns == self.values@.len(),
                lengths == column_lengths(self.values@),
                i <= columns,
                longest == tallest(lengths, i as nat),
            decreases columns - i,
        {
            if self.values[i].len() > longest {
                longest = self.values[i].len();
            }
            i += 1;
        }
        let last: usize = if columns == 0 {
            0
        } else {
            columns - 1
        };
        let places: usize = if longest == 0 {
            0
        } else {
            longest - 1
        };
        let mut indices: Vec<u32> = Vec::new();
        let mut p: usize = 0;
        while p < places
            invariant
                columns == self.values@.len(),
                lengths == column_lengths(self.values@),
                heights_before(lengths, lengths.len()) <= u32::MAX,
                last == gaps(lengths.len()),
                places == gaps(tallest(lengths, lengths.len())),
                p <= places,
                indices@ == grid_indices(lengths, p as nat),
            decreases places - p,
        {
            let ghost done = indices@;
            let mut start: usize = 0;
            let mut c: usize = 0;
            while c < last
                invariant
                    columns == self.values@.len(),
                    lengths == column_lengths(self.values@),
                    heights_before(lengths, lengths.len()) <= u32::MAX,
                    last == gaps(lengths.len()),
                    p < places,
                    c <= last,
                    start == heights_before(lengths, c as nat),
                    indices@ == done + row_indices(lengths, p as nat, c as nat),
                decreases last - c,
            {
                let here: usize = self.values[c].len();
                let next: usize = self.values[c + 1].len();
                proof {
                    lemma_heights_grow(lengths, (c + 2) as nat, lengths.len());
                    assert(heights_before(lengths, (c + 1) as nat) == start + here);
                    assert(heights_before(lengths, (c + 2) as nat) == start + here + next);
                }
                let next_start: usize = start + here;
                let ghost before = indices@;
                let ghost row = row_indices(lengths, p as nat, c as nat);
                if p + 1 < here && p + 1 < next {
                    indices.push((start + p) as u32);
                    indices.push((start + p + 1) as u32);
                    indices.push((next_start + p) as u32);
                    indices.push((next_start + p) as u32);
                    indices.push((start + p + 1) as u32);
                    indices.push((next_start + p + 1) as u32);
                    proof {
                        let cell = cell_indices(start as nat, next_start as nat, p as nat);
                        assert(has_cell(lengths, c as nat, p as nat));
                        assert(indices@ =~= before + cell);
                        assert(before + cell =~= done + (row + cell));
                    }
                } else {
                    assert(!has_cell(lengths, c as nat, p as nat));
                    assert(before =~= done + (row + Seq::<u32>::empty()));
                }
                start = next_start;
                c += 1;
            }
            p += 1;
        }
        proof {
            lemma_grid_indices_name_heights(lengths, places as nat);
        }
        indices
    }

    /// The material of a meshed field: white, without highlights.
    pub open spec fn material() -> MaterialInfo {
        MaterialInfo {
            ambient: Vector3::spec_splat(ONE),
            diffuse: Vector3::spec_splat(ONE),
            specular: Scalar { bits: ZERO },
            shininess: Scalar { bits: THIRTY_TWO },
        }
    }

    /// Turns the field into the mesh of its model and uploads it.
    ///
    /// `points` holds one point for every height of the field, column by
    /// column: for the height at column `i`, place `j` the scaled position
    /// `(i * scale, height * scale, j * scale)` and the texture coordinate
    /// `(i, j)`. The model gets one sky-blue, upward-facing vertex for each
    /// of them, the indices of [`Self::indices`], every one of which names
    /// one of these vertices, and a white material without highlights.
    pub fn create_geometry(
        &self,
        dev: &mut Device,
        models: &mut Vec<Model>,
        points: &Vec<(Vector3, Vector2)>,
    )
        requires
            self.meshable(),
            self.model_index < old(models)@.len(),
            points@.len() == self.spec_height_count(),
        ensures
            final(models)@.len() == old(models)@.len(),
            forall|k: int|
                0 <= k < old(models)@.len() && k != self.model_index ==> final(models)@[k] == old(
                    models,
                )@[k],
            final(models)@[self.model_index as int] == (Model {
                vertices: final(models)@[self.model_index as int].vertices,
                indices: final(models)@[self.model_index as int].indices,
                material_info: Self::material(),
                ..old(models)@[self.model_index as int]
            }),
            final(models)@[self.model_index as int].vertices@ == field_vertices(points@),
            final(models)@[self.model_index as int].indices@ == field_indices(
                column_lengths(self.values@),
            ),
            final(models)@[self.model_index as int].vertices@.len() == self.spec_height_count(),
            forall|k: int|
                0 <= k < final(models)@[self.model_index as int].indices@.len() ==> (
                #[trigger] final(models)@[self.model_index as int].indices@[k])
                    < self.spec_height_count(),
            appends(
                old(dev)@,
                final(dev)@,
                final(models)@[self.model_index as int].start_commands(),
            ),
            final(dev)@.state == final(models)@[self.model_index as int].started(old(dev)@.state),
    {
        let mut vertices: Vec<Vertex> = Vec::new();
        let mut k: usize = 0;
        while k < points.len()
            invariant
                k <= points@.len(),
                vertices@ == field_vertices(points@.take(k as int)),
            decreases points.len() - k,
        {
            vertices.push(
                (
                    points[k].0,
                    Vector3 {
                        x: Scalar { bits: SKY_RED },
                        y: Scalar { bits: SKY_GREEN },
                        z: Scalar { bits: SKY_BLUE },
                    },
                    Vector3::unit_y(),
                    points[k].1,
                ),
            );
            assert(vertices@ =~= field_vertices(points@.take(k + 1)));
            k += 1;
        }
        assert(points@.take(k as int) =~= points@);
        let indices: Vec<u32> = self.indices();
        let model = &mut models[self.model_index];
        model.vertices = vertices;
        model.indices = indices;
        model.material_info = MaterialInfo {
            ambient: Vector3::splat(ONE),
            diffuse: Vector3::splat(ONE),
            specular: Scalar { bits: ZERO },
            shininess: Scalar { bits: THIRTY_TWO },
        };
        model.start(dev);
    }
}

} // verus!
