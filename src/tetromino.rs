use vstd::prelude::*;

verus! {

/// The seven piece shapes.
#[derive(Clone, Copy, Debug, PartialEq, Eq, Structural)]
pub enum TetrominoType {
    I,
    O,
    T,
    S,
    Z,
    J,
    L,
}

/// Column of the anchor of a freshly spawned piece.
pub const SPAWN_X: i32 = 3;

/// Row of the anchor of a freshly spawned piece.
pub const SPAWN_Y: i32 = 0;

/// The four cell offsets `[dx, dy]` of `shape` in orientation `rotation`
/// (0 to 3, quarter turns clockwise); `y` grows downward.
pub open spec fn rotation_table(shape: TetrominoType, rotation: int) -> [[i32; 2]; 4] {
    match shape {
        TetrominoType::I => if rotation == 0 {
            [[0, 1], [1, 1], [2, 1], [3, 1]]
        } else if rotation == 1 {
            [[2, 0], [2, 1], [2, 2], [2, 3]]
        } else if rotation == 2 {
            [[0, 2], [1, 2], [2, 2], [3, 2]]
        } else {
            [[1, 0], [1, 1], [1, 2], [1, 3]]
        },
        TetrominoType::O => [[0, 0], [1, 0], [0, 1], [1, 1]],
        TetrominoType::T => if rotation == 0 {
            [[1, 0], [0, 1], [1, 1], [2, 1]]
        } else if rotation == 1 {
            [[1, 0], [1, 1], [1, 2], [0, 1]]
        } else if rotation == 2 {
            [[0, 1], [1, 1], [2, 1], [1, 2]]
        } else {
            [[1, 0], [1, 1], [1, 2], [2, 1]]
        },
        TetrominoType::S => if rotation == 0 {
            [[1, 0], [2, 0], [0, 1], [1, 1]]
        } else if rotation == 1 {
            [[0, 0], [0, 1], [1, 1], [1, 2]]
        } else if rotation == 2 {
            [[1, 1], [2, 1], [0, 2], [1, 2]]
        } else {
            [[1, 0], [1, 1], [2, 1], [2, 2]]
        },
        TetrominoType::Z => if rotation == 0 {
            [[0, 0], [1, 0], [1, 1], [2, 1]]
        } else if rotation == 1 {
            [[1, 0], [0, 1], [1, 1], [0, 2]]
        } else if rotation == 2 {
            [[0, 1], [1, 1], [1, 2], [2, 2]]
        } else {
            [[2, 0], [1, 1], [2, 1], [1, 2]]
        },
        TetrominoType::J => if rotation == 0 {
            [[0, 0], [0, 1], [1, 1], [2, 1]]
        } else if rotation == 1 {
            [[1, 0], [2, 0], [1, 1], [1, 2]]
        } else if rotation == 2 {
            [[0, 1], [1, 1], [2, 1], [2, 2]]
        } else {
            [[1, 0], [1, 1], [1, 2], [0, 2]]
        },
        TetrominoType::L => if rotation == 0 {
            [[2, 0], [0, 1], [1, 1], [2, 1]]
        } else if rotation == 1 {
            [[1, 0], [1, 1], [1, 2], [2, 2]]
        } else if rotation == 2 {
            [[0, 1], [1, 1], [2, 1], [0, 2]]
        } else {
            [[0, 0], [1, 0], [1, 1], [1, 2]]
        },
    }
}

/// Returns the cell offsets of `shape` in orientation `rotation`.
pub fn rotation_cells(shape: TetrominoType, rotation: usize) -> (r: [[i32; 2]; 4])
    requires
        rotation < 4,
    ensures
        r == rotation_table(shape, rotation as int),
{
    match shape {
        TetrominoType::I => match rotation {
            0 => [[0, 1], [1, 1], [2, 1], [3, 1]],
            1 => [[2, 0], [2, 1], [2, 2], [2, 3]],
            2 => [[0, 2], [1, 2], [2, 2], [3, 2]],
            _ => [[1, 0], [1, 1], [1, 2], [1, 3]],
        },
        TetrominoType::O => [[0, 0], [1, 0], [0, 1], [1, 1]],
        TetrominoType::T => match rotation {
            0 => [[1, 0], [0, 1], [1, 1], [2, 1]],
            1 => [[1, 0], [1, 1], [1, 2], [0, 1]],
            2 => [[0, 1], [1, 1], [2, 1], [1, 2]],
            _ => [[1, 0], [1, 1], [1, 2], [2, 1]],
        },
        TetrominoType::S => match rotation {
            0 => [[1, 0], [2, 0], [0, 1], [1, 1]],
            1 => [[0, 0], [0, 1], [1, 1], [1, 2]],
            2 => [[1, 1], [2, 1], [0, 2], [1, 2]],
            _ => [[1, 0], [1, 1], [2, 1], [2, 2]],
        },
        TetrominoType::Z => match rotation {
            0 => [[0, 0], [1, 0], [1, 1], [2, 1]],
            1 => [[1, 0], [0, 1], [1, 1], [0, 2]],
            2 => [[0, 1], [1, 1], [1, 2], [2, 2]],
            _ => [[2, 0], [1, 1], [2, 1], [1, 2]],
        },
        TetrominoType::J => match rotation {
            0 => [[0, 0], [0, 1], [1, 1], [2, 1]],
            1 => [[1, 0], [2, 0], [1, 1], [1, 2]],
            2 => [[0, 1], [1, 1], [2, 1], [2, 2]],
            _ => [[1, 0], [1, 1], [1, 2], [0, 2]],
        },
        TetrominoType::L => match rotation {
            0 => [[2, 0], [0, 1], [1, 1], [2, 1]],
            1 => [[1, 0], [1, 1], [1, 2], [2, 2]],
            2 => [[0, 1], [1, 1], [2, 1], [0, 2]],
            _ => [[0, 0], [1, 0], [1, 1], [1, 2]],
        },
    }
}

/// Every offset of the table lies in `0..=3` on both axes.
pub proof fn lemma_offsets_in_range(shape: TetrominoType, rotation: int)
    requires
        0 <= rotation < 4,
    ensures
        forall|i: int, k: int|
            0 <= i < 4 && 0 <= k < 2 ==> 0 <= #[trigger] rotation_table(shape, rotation)[i][k]
                <= 3,
{
}

/// A falling piece: its shape, the anchor `position` as `[x, y]`, its
/// orientation, and the offsets of its four cells relative to the anchor.
#[derive(Clone, Copy, Debug, PartialEq, Eq)]
pub struct Tetromino {
    pub shape: TetrominoType,
    pub position: [i32; 2],
    pub rotation: usize,
    pub cells: [[i32; 2]; 4],
}

/// The orientation that follows `rotation` (the index is read modulo 4).
pub open spec fn next_rotation(rotation: usize) -> usize {
    ((rotation % 4 + 1) % 4) as usize
}

/// A piece of `shape` in its first orientation at the spawn anchor.
pub open spec fn spawn_state(shape: TetrominoType) -> Tetromino {
    Tetromino {
        shape,
        position: [SPAWN_X, SPAWN_Y],
        rotation: 0,
        cells: rotation_table(shape, 0),
    }
}

impl Tetromino {
    /// The rotation index is in range and the cells are the table's entry for it.
    pub open spec fn wf(self) -> bool {
        &&& self.rotation < 4
        &&& self.cells == rotation_table(self.shape, self.rotation as int)
    }

    pub open spec fn pos_x(self) -> int {
        self.position[0] as int
    }

    pub open spec fn pos_y(self) -> int {
        self.position[1] as int
    }

    /// The same piece with its anchor at `(x, y)`.
    pub open spec fn at(self, x: int, y: int) -> Tetromino {
        Tetromino { position: [x as i32, y as i32], ..self }
    }

    /// The same piece translated by `(dx, dy)`.
    pub open spec fn shifted(self, dx: int, dy: int) -> Tetromino {
        self.at(self.pos_x() + dx, self.pos_y() + dy)
    }

    /// The same piece turned one quarter, anchor unchanged.
    pub open spec fn rotated(self) -> Tetromino {
        Tetromino {
            rotation: next_rotation(self.rotation),
            cells: rotation_table(self.shape, next_rotation(self.rotation) as int),
            ..self
        }
    }

    /// Board coordinates of cell `i` of the piece.
    pub open spec fn cell_x(self, i: int) -> int {
        self.pos_x() + self.cells[i][0]
    }

    pub open spec fn cell_y(self, i: int) -> int {
        self.pos_y() + self.cells[i][1]
    }

    /// Some cell of the piece lies on `(x, y)`.
    pub open spec fn occupies(self, x: int, y: int) -> bool {
        exists|i: int| 0 <= i < 4 && #[trigger] self.cell_x(i) == x && self.cell_y(i) == y
    }

    pub fn new(shape: TetrominoType) -> (r: Self)
        ensures
            r == spawn_state(shape),
            r.wf(),
    {
        Self { shape, position: [SPAWN_X, SPAWN_Y], rotation: 0, cells: rotation_cells(shape, 0) }
    }

    pub fn move_down(&mut self)
        requires
            old(self).position[1] < i32::MAX,
        ensures
            *final(self) == old(self).shifted(0, 1),
    {
        self.position[1] = self.position[1] + 1;
        assert(self.position =~= old(self).shifted(0, 1).position);
    }

    pub fn move_left(&mut self)
        requires
            old(self).position[0] > i32::MIN,
        ensures
            *final(self) == old(self).shifted(-1, 0),
    {
        self.position[0] = self.position[0] - 1;
        assert(self.position =~= old(self).shifted(-1, 0).position);
    }

    pub fn move_right(&mut self)
        requires
            old(self).position[0] < i32::MAX,
        ensures
            *final(self) == old(self).shifted(1, 0),
    {
        self.position[0] = self.position[0] + 1;
        assert(self.position =~= old(self).shifted(1, 0).position);
    }

    pub fn rotate(&mut self)
        ensures
            *final(self) == old(self).rotated(),
            final(self).wf(),
    {
        self.rotation = (self.rotation % 4 + 1) % 4;
        self.cells = rotation_cells(self.shape, self.rotation);
    }
}

} // verus!
