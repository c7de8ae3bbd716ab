use vstd::prelude::*;
use std::collections::VecDeque;
use crate::bag::{
    bag_at, is_bag, is_bag_sequence, lemma_aligned_run_count, lemma_bag_sequence_append,
    shuffled_bag, BAG_SIZE,
};
use crate::tetromino::{
    lemma_offsets_in_range, rotation_cells, rotation_table, spawn_state, Tetromino, TetrominoType,
};

verus! {

/// Number of columns of the grid.
pub const WIDTH: usize = 10;

/// Number of rows of the grid.
pub const HEIGHT: usize = 20;

/// Points for each cleared row.
pub const LINE_SCORE: usize = 100;

/// What a board is, mathematically.
pub struct BoardModel {
    /// `grid[y][x]`: whether the cell in column `x`, row `y` is filled.
    pub grid: Seq<Seq<bool>>,
    /// The falling piece, if any.
    pub active: Option<Tetromino>,
    /// Where the falling piece would land if dropped straight down.
    pub ghost_piece: Option<Tetromino>,
    /// Upcoming shapes, the next one first.
    pub queue: Seq<TetrominoType>,
    pub score: nat,
    pub game_over: bool,
    /// Every shape spawned so far, in order.
    pub spawned: Seq<TetrominoType>,
}

/// `(x, y)` lies on the grid.
pub open spec fn in_bounds(x: int, y: int) -> bool {
    0 <= x < WIDTH && 0 <= y < HEIGHT
}

/// A piece may not cover `(x, y)`: it is off the grid (rows above the top
/// count as off it) or filled.
pub open spec fn blocked(grid: Seq<Seq<bool>>, x: int, y: int) -> bool {
    !in_bounds(x, y) || grid[y][x]
}

/// Some cell of `t` is off the grid or on a filled cell.
pub open spec fn collides(grid: Seq<Seq<bool>>, t: Tetromino) -> bool {
    exists|i: int| 0 <= i < 4 && #[trigger] blocked(grid, t.cell_x(i), t.cell_y(i))
}

/// The result of translating the piece by `(dx, dy)`, kept where it is when
/// the translated piece would collide.
pub open spec fn try_move(
    grid: Seq<Seq<bool>>,
    active: Option<Tetromino>,
    dx: int,
    dy: int,
) -> Option<Tetromino> {
    match active {
        Some(t) => if collides(grid, t.shifted(dx, dy)) {
            Some(t)
        } else {
            Some(t.shifted(dx, dy))
        },
        None => None,
    }
}

/// Rotation with wall kicks: in place, else one column left, else one column
/// right, else no change at all.
pub open spec fn kicked_rotation(grid: Seq<Seq<bool>>, t: Tetromino) -> Tetromino {
    let r = t.rotated();
    if !collides(grid, r) {
        r
    } else if !collides(grid, r.shifted(-1, 0)) {
        r.shifted(-1, 0)
    } else if !collides(grid, r.shifted(1, 0)) {
        r.shifted(1, 0)
    } else {
        t
    }
}

/// `g` is where `t` comes to rest when moved straight down: every position
/// from `t`'s down to `g`'s is free and the one below `g` collides. When `t`
/// itself collides, `g` is `t` one row up.
pub open spec fn lands_at(grid: Seq<Seq<bool>>, t: Tetromino, g: Tetromino) -> bool {
    &&& g == t.at(t.pos_x(), g.pos_y())
    &&& t.pos_y() - 1 <= g.pos_y()
    &&& forall|y: int|
        t.pos_y() <= y <= g.pos_y() ==> !#[trigger] collides(grid, t.at(t.pos_x(), y))
    &&& collides(grid, g.shifted(0, 1))
}

/// The ghost piece is the landing position of the falling piece.
pub open spec fn ghost_ok(m: BoardModel) -> bool {
    m.active matches Some(t) ==> (m.ghost_piece matches Some(g) && lands_at(m.grid, t, g))
}

/// `grid` with every on-grid cell of `t` filled.
pub open spec fn locked_grid(grid: Seq<Seq<bool>>, t: Tetromino) -> Seq<Seq<bool>> {
    Seq::new(grid.len(), |y: int| Seq::new(grid[y].len(), |x: int| grid[y][x] || t.occupies(x, y)))
}

/// A row with no empty cell.
pub open spec fn row_full(row: Seq<bool>) -> bool {
    forall|x: int| 0 <= x < row.len() ==> row[x]
}

/// Whether a row survives a line clear.
pub open spec fn row_kept() -> spec_fn(Seq<bool>) -> bool {
    |row: Seq<bool>| !row_full(row)
}

/// The rows that are not full, in their order.
pub open spec fn kept_rows(grid: Seq<Seq<bool>>) -> Seq<Seq<bool>> {
    grid.filter(row_kept())
}

/// Number of full rows.
pub open spec fn full_row_count(grid: Seq<Seq<bool>>) -> nat {
    (grid.len() - kept_rows(grid).len()) as nat
}

pub open spec fn empty_row() -> Seq<bool> {
    Seq::new(WIDTH as nat, |x: int| false)
}

/// `grid` after a line clear: the rows that are not full, in order, at the
/// bottom, below as many empty rows as there were full ones.
pub open spec fn cleared_grid(grid: Seq<Seq<bool>>) -> Seq<Seq<bool>> {
    Seq::new(full_row_count(grid), |i: int| empty_row()) + kept_rows(grid)
}

/// Filtering a sequence that starts at row `y - 1`: the first row, if kept,
/// followed by the kept rows from `y` on.
proof fn lemma_kept_rows_prepend(grid: Seq<Seq<bool>>, y: int)
    requires
        0 < y <= grid.len(),
    ensures
        kept_rows(grid.subrange(y - 1, grid.len() as int)) == (if row_full(grid[y - 1]) {
            Seq::empty()
        } else {
            seq![grid[y - 1]]
        }) + kept_rows(grid.subrange(y, grid.len() as int)),
{
    let head = seq![grid[y - 1]];
    let tail = grid.subrange(y, grid.len() as int);
    assert(grid.subrange(y - 1, grid.len() as int) =~= head + tail);
    Seq::filter_distributes_over_add(head, tail, row_kept());
    reveal_with_fuel(Seq::filter, 2);
    assert(head.drop_last() =~= Seq::<Seq<bool>>::empty());
    if row_full(grid[y - 1]) {
        assert(head.filter(row_kept()) =~= Seq::<Seq<bool>>::empty());
    } else {
        assert(head.filter(row_kept()) =~= head);
    }
}

/// How the queue moves on a spawn: its first shape leaves; a queue left empty
/// is refilled with a fresh bag.
pub open spec fn queue_advanced(q: Seq<TetrominoType>, r: Seq<TetrominoType>) -> bool {
    if q.len() > 1 {
        r == q.drop_first()
    } else {
        r.len() == BAG_SIZE && is_bag(r)
    }
}

/// One gravity step of a game in progress whose falling piece is `t`: the
/// piece moves down a row, or, where it cannot, it locks, full rows are
/// cleared and the next shape spawns; if that one collides the game is over.
pub open spec fn gravity_step(m: BoardModel, r: BoardModel, t: Tetromino) -> bool {
    if !collides(m.grid, t.shifted(0, 1)) {
        &&& same_but_pieces(r, m)
        &&& r.active == Some(t.shifted(0, 1))
    } else {
        let locked = locked_grid(m.grid, t);
        let piece = spawn_state(m.queue[0]);
        &&& r.grid == cleared_grid(locked)
        &&& r.score == m.score + LINE_SCORE * full_row_count(locked)
        &&& r.spawned == m.spawned.push(m.queue[0])
        &&& queue_advanced(m.queue, r.queue)
        &&& r.game_over == collides(r.grid, piece)
        &&& r.active == if collides(r.grid, piece) {
            None
        } else {
            Some(piece)
        }
    }
}

/// What is drawn over a grid cell.
#[derive(Clone, Copy, Debug, PartialEq, Eq, Structural)]
pub enum PieceLayer {
    /// Neither the falling piece nor its ghost.
    Empty,
    /// The ghost piece, where the falling piece would land.
    Shadow,
    /// The falling piece.
    Active,
}

/// What is drawn over cell `(x, y)` of `m`: the falling piece hides its ghost.
pub open spec fn layer_of(m: BoardModel, x: int, y: int) -> PieceLayer {
    if m.active matches Some(t) && t.occupies(x, y) {
        PieceLayer::Active
    } else if m.ghost_piece matches Some(g) && g.occupies(x, y) {
        PieceLayer::Shadow
    } else {
        PieceLayer::Empty
    }
}

/// Everything but the falling piece and its ghost is the same in `a` and `b`.
pub open spec fn same_but_pieces(a: BoardModel, b: BoardModel) -> bool {
    &&& a.grid == b.grid
    &&& a.queue == b.queue
    &&& a.score == b.score
    &&& a.game_over == b.game_over
    &&& a.spawned == b.spawned
}

/// A piece whose anchor keeps its cells' arithmetic far from overflow.
pub open spec fn piece_ok(t: Tetromino) -> bool {
    &&& t.wf()
    &&& -3 <= t.pos_x() < WIDTH
    &&& -3 <= t.pos_y() < HEIGHT
}

/// Bag fairness: counted from a bag boundary, any run of spawns whose length
/// is a multiple of seven has spawned each shape exactly `n / 7` times.
pub proof fn lemma_bag_fairness(board: Board, start: int, n: int, shape: TetrominoType)
    requires
        board.wf(),
        0 <= start,
        0 <= n,
        start % BAG_SIZE as int == 0,
        n % BAG_SIZE as int == 0,
        start + n <= board@.spawned.len(),
    ensures
        board@.spawned.subrange(start, start + n).to_multiset().count(shape) == n / BAG_SIZE as int,
{
    let s = board@.spawned + board@.queue;
    lemma_aligned_run_count(s, start, n, shape);
    assert(s.subrange(start, start + n) =~= board@.spawned.subrange(start, start + n));
}

/// The ghost piece rests one step above landing: moving it down once more
/// collides, and it does not collide itself when the falling piece does not.
pub proof fn lemma_ghost_rests(m: BoardModel)
    requires
        ghost_ok(m),
        m.active is Some,
    ensures
        m.ghost_piece matches Some(g) && collides(m.grid, g.shifted(0, 1)),
        !collides(m.grid, m.active->0) ==> (m.ghost_piece matches Some(g) && !collides(m.grid, g)),
{
    let t = m.active->0;
    let g = m.ghost_piece->0;
    assert(t.at(t.pos_x(), t.pos_y()).position =~= t.position);
    assert(g.shifted(0, 1) == t.at(t.pos_x(), g.pos_y() + 1));
    if !collides(m.grid, t) {
        assert(g.pos_y() >= t.pos_y()) by {
            if g.pos_y() == t.pos_y() - 1 {
                assert(g.shifted(0, 1).position =~= t.position);
            }
        }
        assert(!collides(m.grid, t.at(t.pos_x(), g.pos_y())));
    }
}

/// The grid of a game in progress.
#[derive(Clone)]
pub struct Board {
    grid: [[bool; WIDTH]; HEIGHT],
    tetromino: Option<Tetromino>,
    ghost_tetromino: Option<Tetromino>,
    next_queue: VecDeque<TetrominoType>,
    score: usize,
    is_game_over: bool,
    spawned: Ghost<Seq<TetrominoType>>,
}

impl View for Board {
    type V = BoardModel;

    closed spec fn view(&self) -> BoardModel {
        BoardModel {
            grid: Seq::new(HEIGHT as nat, |y: int| self.grid[y]@),
            active: self.tetromino,
            ghost_piece: self.ghost_tetromino,
            queue: self.next_queue@,
            score: self.score as nat,
            game_over: self.is_game_over,
            spawned: self.spawned@,
        }
    }
}

/// A piece that does not collide lies within a few cells of the grid.
proof fn lemma_free_piece_in_range(grid: Seq<Seq<bool>>, t: Tetromino)
    requires
        t.wf(),
        !collides(grid, t),
    ensures
        piece_ok(t),
{
    lemma_offsets_in_range(t.shape, t.rotation as int);
    assert(!blocked(grid, t.cell_x(0), t.cell_y(0)));
}

impl Board {
    /// The queue holds one to seven shapes; what was spawned followed by what
    /// is queued is a run of whole bags; the falling piece is in range.
    pub closed spec fn wf(&self) -> bool {
        &&& 1 <= self.next_queue@.len() <= BAG_SIZE
        &&& is_bag_sequence(self.spawned@ + self.next_queue@)
        &&& self.tetromino matches Some(t) ==> piece_ok(t)
    }

    /// A board with the given grid whose queue is `bag`; the first shape of
    /// the bag is spawned.
    pub fn from_bag(grid: [[bool; WIDTH]; HEIGHT], bag: Vec<TetrominoType>) -> (b: Board)
        requires
            bag@.len() == BAG_SIZE,
            is_bag(bag@),
        ensures
            b.wf(),
            b@.grid == Seq::new(HEIGHT as nat, |y: int| grid[y]@),
            b@.active == Some(spawn_state(bag@[0])),
            b@.queue == bag@.drop_first(),
            b@.spawned == seq![bag@[0]],
            b@.score == 0,
            !b@.game_over,
            ghost_ok(b@),
    {
        let mut board = Board {
            grid,
            tetromino: None,
            ghost_tetromino: None,
            next_queue: VecDeque::with_capacity(BAG_SIZE),
            score: 0,
            is_game_over: false,
            spawned: Ghost(Seq::empty()),
        };
        board.push_bag(bag);
        proof {
            lemma_bag_sequence_append(Seq::empty(), bag@);
            assert(Seq::<TetrominoType>::empty() + bag@ =~= board.spawned@ + board.next_queue@);
        }
        board.spawn_tetromino();
        board
    }

    /// A fresh game: empty grid, a shuffled bag, its first shape spawned.
    pub fn new() -> (b: Board)
        ensures
            b.wf(),
            b@.grid == Seq::new(HEIGHT as nat, |y: int| empty_row()),
            b@.spawned.len() == 1,
            b@.active == Some(spawn_state(b@.spawned[0])),
            is_bag(b@.spawned + b@.queue),
            b@.score == 0,
            !b@.game_over,
            ghost_ok(b@),
    {
        let b = Self::from_bag([[false; WIDTH]; HEIGHT], shuffled_bag());
        assert(b@.grid =~~= Seq::new(HEIGHT as nat, |y: int| empty_row()));
        assert(b@.spawned + b@.queue =~= b.spawned@ + b.next_queue@);
        assert(b@.spawned + b@.queue =~= bag_at(b@.spawned + b@.queue, 0));
        b
    }

    /// Appends the shapes of `bag` to the queue.
    fn push_bag(&mut self, bag: Vec<TetrominoType>)
        ensures
            final(self)@ == (BoardModel { queue: old(self)@.queue + bag@, ..old(self)@ }),
            final(self).tetromino == old(self).tetromino,
    {
        let mut i: usize = 0;
        while i < bag.len()
            invariant
                0 <= i <= bag@.len(),
                self@ == (BoardModel {
                    queue: old(self)@.queue + bag@.subrange(0, i as int),
                    ..old(self)@
                }),
                self.tetromino == old(self).tetromino,
            decreases bag@.len() - i,
        {
            self.next_queue.push_back(bag[i]);
            i += 1;
            assert(old(self)@.queue + bag@.subrange(0, i as int) =~= self.next_queue@);
        }
        assert(bag@.subrange(0, bag@.len() as int) =~= bag@);
    }

    /// Appends a freshly shuffled bag to the queue.
    fn refill_bag(&mut self)
        ensures
            exists|bag: Seq<TetrominoType>|
                bag.len() == BAG_SIZE && is_bag(bag) && final(self)@ == (BoardModel {
                    queue: old(self)@.queue + bag,
                    ..old(self)@
                }),
            final(self).tetromino == old(self).tetromino,
    {
        let bag = shuffled_bag();
        self.push_bag(bag);
    }

    /// Takes the next shape off the queue and makes it the falling piece at
    /// the spawn anchor, refilling the queue when it runs empty, and
    /// recomputes the ghost.
    pub fn spawn_tetromino(&mut self)
        requires
            old(self).wf(),
        ensures
            final(self).wf(),
            final(self)@.active == Some(spawn_state(old(self)@.queue[0])),
            final(self)@.spawned == old(self)@.spawned.push(old(self)@.queue[0]),
            queue_advanced(old(self)@.queue, final(self)@.queue),
            final(self)@.grid == old(self)@.grid,
            final(self)@.score == old(self)@.score,
            final(self)@.game_over == old(self)@.game_over,
            ghost_ok(final(self)@),
    {
        let ghost seq_before = self.spawned@ + self.next_queue@;
        let shape = self.next_queue.pop_front().unwrap();
        self.tetromino = Some(Tetromino::new(shape));
        self.spawned = Ghost(self.spawned@.push(shape));
        assert(self.spawned@ + self.next_queue@ =~= seq_before);
        if self.next_queue.len() == 0 {
            self.refill_bag();
            proof {
                lemma_bag_sequence_append(seq_before, self.next_queue@);
                assert(seq_before + self.next_queue@ =~= self.spawned@ + self.next_queue@);
            }
        }
        self.predict_tetromino();
    }

    pub fn rotate_tetromino(&mut self)
        requires
            old(self).wf(),
        ensures
            final(self).wf(),
            same_but_pieces(final(self)@, old(self)@),
            final(self)@.active == match old(self)@.active {
                Some(t) => Some(kicked_rotation(old(self)@.grid, t)),
                None => None,
            },
            old(self)@.active matches Some(t) ==> (collides(old(self)@.grid, t.rotated())
                && !collides(old(self)@.grid, t.rotated().shifted(-1, 0))
                ==> final(self)@.active == Some(t.rotated().shifted(-1, 0))),
            ghost_ok(final(self)@),
    {
        if let Some(tetromino) = self.tetromino {
            let mut next_tetromino = tetromino;
            next_tetromino.rotate();
            if !self.is_collision(&next_tetromino) {
                proof {
                    lemma_free_piece_in_range(self@.grid, next_tetromino);
                }
                self.tetromino = Some(next_tetromino);
            } else {
                let rotated = next_tetromino;
                next_tetromino.position[0] = next_tetromino.position[0] - 1;
                assert(next_tetromino.position =~= rotated.shifted(-1, 0).position);
                if !self.is_collision(&next_tetromino) {
                    proof {
                        lemma_free_piece_in_range(self@.grid, next_tetromino);
                    }
                    self.tetromino = Some(next_tetromino);
                } else {
                    next_tetromino.position[0] = next_tetromino.position[0] + 2;
                    assert(next_tetromino.position =~= rotated.shifted(1, 0).position);
                    if !self.is_collision(&next_tetromino) {
                        proof {
                            lemma_free_piece_in_range(self@.grid, next_tetromino);
                        }
                        self.tetromino = Some(next_tetromino);
                    }
                }
            }
        }
        self.predict_tetromino();
    }

    /// Tries to translate the falling piece by one column or row.
    fn try_translate(&mut self, dx: i32, dy: i32)
        requires
            old(self).wf(),
            -1 <= dx <= 1,
            0 <= dy <= 1,
        ensures
            final(self).wf(),
            same_but_pieces(final(self)@, old(self)@),
            final(self)@.active == try_move(
                old(self)@.grid,
                old(self)@.active,
                dx as int,
                dy as int,
            ),
            ghost_ok(final(self)@),
    {
        if let Some(tetromino) = self.tetromino {
            let mut next_tetromino = tetromino;
            next_tetromino.position[0] = next_tetromino.position[0] + dx;
            next_tetromino.position[1] = next_tetromino.position[1] + dy;
            assert(next_tetromino.position =~= tetromino.shifted(dx as int, dy as int).position);
            if !self.is_collision(&next_tetromino) {
                proof {
                    lemma_free_piece_in_range(self@.grid, next_tetromino);
                }
                self.tetromino = Some(next_tetromino);
            }
        }
        self.predict_tetromino();
    }

    pub fn move_tetromino_left(&mut self)
        requires
            old(self).wf(),
        ensures
            final(self).wf(),
            same_but_pieces(final(self)@, old(self)@),
            final(self)@.active == try_move(old(self)@.grid, old(self)@.active, -1, 0),
            old(self)@.active matches Some(t) ==> (collides(old(self)@.grid, t.shifted(-1, 0))
                ==> final(self)@.active == old(self)@.active),
            ghost_ok(final(self)@),
    {
        self.try_translate(-1, 0);
    }

    pub fn move_tetromino_right(&mut self)
        requires
            old(self).wf(),
        ensures
            final(self).wf(),
            same_but_pieces(final(self)@, old(self)@),
            final(self)@.active == try_move(old(self)@.grid, old(self)@.active, 1, 0),
            ghost_ok(final(self)@),
    {
        self.try_translate(1, 0);
    }

    pub fn move_tetromino_down(&mut self)
        requires
            old(self).wf(),
        ensures
            final(self).wf(),
            same_but_pieces(final(self)@, old(self)@),
            final(self)@.active == try_move(old(self)@.grid, old(self)@.active, 0, 1),
            ghost_ok(final(self)@),
    {
        self.try_translate(0, 1);
    }

    /// Advances the game by one gravity step; a finished game does not change.
    pub fn update(&mut self)
        requires
            old(self).wf(),
            old(self)@.score + LINE_SCORE * HEIGHT <= usize::MAX,
        ensures
            final(self).wf(),
            old(self)@.game_over || old(self)@.active is None ==> final(self)@ == old(self)@,
            !old(self)@.game_over ==> (old(self)@.active matches Some(t) ==> gravity_step(
                old(self)@,
                final(self)@,
                t,
            )),
            !old(self)@.game_over ==> ghost_ok(final(self)@),
    {
        if self.is_game_over {
            return;
        }
        if let Some(active) = self.tetromino {
            let mut candidate = active;
            candidate.move_down();
            if self.is_collision(&candidate) {
                self.lock_tetromino();
                self.clear_full_lines();
                self.spawn_tetromino();
                if let Some(t) = self.tetromino {
                    if self.is_collision(&t) {
                        self.set_game_over(true);
                    }
                }
            } else {
                proof {
                    lemma_free_piece_in_range(self@.grid, candidate);
                }
                self.tetromino = Some(candidate);
            }
            self.predict_tetromino();
        }
    }

    /// Whether every cell of `row` is filled.
    fn row_is_full(row: &[bool; WIDTH]) -> (r: bool)
        ensures
            r == row_full(row@),
    {
        let mut x: usize = 0;
        while x < WIDTH
            invariant
                0 <= x <= WIDTH,
                forall|k: int| 0 <= k < x ==> row@[k],
            decreases WIDTH - x,
        {
            if !row[x] {
                return false;
            }
            x += 1;
        }
        true
    }

    /// Removes every full row, moves the rows above down, and scores
    /// `LINE_SCORE` per removed row.
    pub fn clear_full_lines(&mut self)
        requires
            old(self).wf(),
            old(self)@.score + LINE_SCORE * HEIGHT <= usize::MAX,
        ensures
            final(self).wf(),
            final(self)@ == (BoardModel {
                grid: cleared_grid(old(self)@.grid),
                score: (old(self)@.score + LINE_SCORE * full_row_count(old(self)@.grid)) as nat,
                ..old(self)@
            }),
    {
        let ghost g = self@.grid;
        let mut new_grid = [[false; WIDTH]; HEIGHT];
        let mut new_row: usize = HEIGHT;
        let mut lines_cleared: usize = 0;
        let mut y: usize = HEIGHT;
        while y > 0
            invariant
                *self == *old(self),
                g == self@.grid,
                0 <= y <= new_row <= HEIGHT,
                new_row + kept_rows(g.subrange(y as int, HEIGHT as int)).len() == HEIGHT,
                lines_cleared + kept_rows(g.subrange(y as int, HEIGHT as int)).len() == HEIGHT - y,
                forall|i: int|
                    new_row <= i < HEIGHT ==> #[trigger] new_grid[i]@ == kept_rows(
                        g.subrange(y as int, HEIGHT as int),
                    )[i - new_row],
                forall|i: int| 0 <= i < new_row ==> #[trigger] new_grid[i]@ == empty_row(),
            decreases y,
        {
            proof {
                lemma_kept_rows_prepend(g, y as int);
            }
            y -= 1;
            if !Self::row_is_full(&self.grid[y]) {
                new_grid[new_row - 1] = self.grid[y];
                new_row -= 1;
            } else {
                lines_cleared += 1;
            }
        }
        assert(g.subrange(0, HEIGHT as int) =~= g);
        self.grid = new_grid;
        self.score = self.score + lines_cleared * LINE_SCORE;
        assert(self@.grid =~~= cleared_grid(g));
    }

    /// Sets the game-over flag; ending the game removes the falling piece.
    pub fn set_game_over(&mut self, game_over: bool)
        requires
            old(self).wf(),
        ensures
            final(self).wf(),
            final(self)@ == (BoardModel {
                game_over,
                active: if game_over {
                    None
                } else {
                    old(self)@.active
                },
                ..old(self)@
            }),
    {
        self.is_game_over = game_over;
        if game_over {
            self.tetromino = None;
        }
    }

    pub fn get_game_over(&self) -> (r: bool)
        ensures
            r == self@.game_over,
    {
        self.is_game_over
    }

    pub fn is_collision(&self, tetromino: &Tetromino) -> (r: bool)
        ensures
            r == collides(self@.grid, *tetromino),
    {
        let mut i: usize = 0;
        while i < 4
            invariant
                0 <= i <= 4,
                forall|j: int|
                    0 <= j < i ==> !#[trigger] blocked(
                        self@.grid,
                        tetromino.cell_x(j),
                        tetromino.cell_y(j),
                    ),
            decreases 4 - i,
        {
            let x = tetromino.cells[i][0] as i64 + tetromino.position[0] as i64;
            let y = tetromino.cells[i][1] as i64 + tetromino.position[1] as i64;
            assert(x == tetromino.cell_x(i as int) && y == tetromino.cell_y(i as int));
            if x < 0 || x >= WIDTH as i64 || y < 0 || y >= HEIGHT as i64 {
                assert(blocked(self@.grid, x as int, y as int));
                return true;
            }
            if self.grid[y as usize][x as usize] {
                assert(blocked(self@.grid, x as int, y as int));
                return true;
            }
            i += 1;
        }
        false
    }

    /// Recomputes the ghost piece from the falling piece.
    pub fn predict_tetromino(&mut self)
        requires
            old(self).wf(),
        ensures
            final(self).wf(),
            same_but_pieces(final(self)@, old(self)@),
            final(self)@.active == old(self)@.active,
            old(self)@.active is None ==> final(self)@.ghost_piece == old(self)@.ghost_piece,
            ghost_ok(final(self)@),
    {
        if let Some(tetromino) = self.tetromino {
            let ghost x = tetromino.pos_x();
            let mut landing = tetromino;
            assert(landing.position =~= tetromino.at(x, tetromino.pos_y()).position);
            while !self.is_collision(&landing)
                invariant
                    *self == *old(self),
                    self.wf(),
                    self.tetromino == Some(tetromino),
                    x == tetromino.pos_x(),
                    landing == tetromino.at(x, landing.pos_y()),
                    tetromino.pos_y() <= landing.pos_y() <= HEIGHT,
                    forall|y: int|
                        tetromino.pos_y() <= y < landing.pos_y() ==> !#[trigger] collides(
                            self@.grid,
                            tetromino.at(x, y),
                        ),
                decreases HEIGHT - landing.pos_y(),
            {
                proof {
                    lemma_free_piece_in_range(self@.grid, landing);
                }
                landing.move_down();
                assert(landing.position =~= tetromino.at(x, landing.pos_y()).position);
            }
            landing.position[1] = landing.position[1] - 1;
            assert(landing.position =~= tetromino.at(x, landing.pos_y()).position);
            assert(landing.shifted(0, 1).position =~= tetromino.at(x, landing.pos_y() + 1).position);
            self.ghost_tetromino = Some(landing);
        }
    }

    /// Writes the cells of the falling piece into the grid; cells off the
    /// grid are skipped.
    fn lock_tetromino(&mut self)
        requires
            old(self).wf(),
        ensures
            final(self).wf(),
            final(self)@ == (BoardModel {
                grid: match old(self)@.active {
                    Some(t) => locked_grid(old(self)@.grid, t),
                    None => old(self)@.grid,
                },
                ..old(self)@
            }),
    {
        if let Some(tetromino) = self.tetromino {
            let mut grid = self.grid;
            let mut i: usize = 0;
            while i < 4
                invariant
                    0 <= i <= 4,
                    *self == *old(self),
                    forall|y: int, x: int|
                        0 <= y < HEIGHT && 0 <= x < WIDTH ==> #[trigger] grid[y]@[x] == (
                        self.grid[y]@[x] || exists|j: int|
                            0 <= j < i && #[trigger] tetromino.cell_x(j) == x
                                && tetromino.cell_y(j) == y),
                decreases 4 - i,
            {
                let x = tetromino.cells[i][0] as i64 + tetromino.position[0] as i64;
                let y = tetromino.cells[i][1] as i64 + tetromino.position[1] as i64;
                assert(x == tetromino.cell_x(i as int) && y == tetromino.cell_y(i as int));
                if 0 <= x && x < WIDTH as i64 && 0 <= y && y < HEIGHT as i64 {
                    grid[y as usize][x as usize] = true;
                }
                i += 1;
            }
            let ghost before = self@.grid;
            self.grid = grid;
            assert(self@.grid =~~= locked_grid(before, tetromino));
        }
    }

    pub fn get_score(&self) -> (r: usize)
        ensures
            r == self@.score,
    {
        self.score
    }

    /// The shape that spawns next.
    pub fn get_next_tetromino(&self) -> (r: TetrominoType)
        requires
            self.wf(),
        ensures
            r == self@.queue[0],
    {
        self.next_queue[0]
    }

    /// The cells of the next shape in its first orientation.
    pub fn get_next_tetromino_cells(&self) -> (r: [[i32; 2]; 4])
        requires
            self.wf(),
        ensures
            r == rotation_table(self@.queue[0], 0),
    {
        rotation_cells(self.get_next_tetromino(), 0)
    }

    /// Whether `(x, y)` of a 4 by 4 preview is a cell of the next shape in its
    /// first orientation.
    pub fn is_next_preview_cell(&self, x: usize, y: usize) -> (r: bool)
        requires
            self.wf(),
        ensures
            r == exists|i: int|
                0 <= i < 4 && #[trigger] rotation_table(self@.queue[0], 0)[i][0] == x
                    && rotation_table(self@.queue[0], 0)[i][1] == y,
    {
        let cells = self.get_next_tetromino_cells();
        let mut i: usize = 0;
        while i < 4
            invariant
                0 <= i <= 4,
                cells == rotation_table(self@.queue[0], 0),
                forall|j: int|
                    0 <= j < i ==> !(#[trigger] cells[j][0] == x && cells[j][1] == y),
            decreases 4 - i,
        {
            let cell = cells[i];
            if cell[0] >= 0 && cell[1] >= 0 && cell[0] as usize == x && cell[1] as usize == y {
                return true;
            }
            i += 1;
        }
        false
    }

    /// Whether the grid cell `(x, y)` is filled.
    pub fn is_filled(&self, x: usize, y: usize) -> (r: bool)
        requires
            x < WIDTH,
            y < HEIGHT,
        ensures
            r == self@.grid[y as int][x as int],
    {
        self.grid[y][x]
    }

    /// The falling piece, if any.
    pub fn get_tetromino(&self) -> (r: Option<Tetromino>)
        ensures
            r == self@.active,
    {
        self.tetromino
    }

    /// The ghost piece, if any.
    pub fn get_ghost_tetromino(&self) -> (r: Option<Tetromino>)
        ensures
            r == self@.ghost_piece,
    {
        self.ghost_tetromino
    }

    /// Whether some cell of `t` lies on `(x, y)`.
    fn covers(t: &Tetromino, x: i64, y: i64) -> (r: bool)
        ensures
            r == t.occupies(x as int, y as int),
    {
        let mut i: usize = 0;
        while i < 4
            invariant
                0 <= i <= 4,
                forall|j: int|
                    0 <= j < i ==> !(#[trigger] t.cell_x(j) == x && t.cell_y(j) == y),
            decreases 4 - i,
        {
            let cx = t.cells[i][0] as i64 + t.position[0] as i64;
            let cy = t.cells[i][1] as i64 + t.position[1] as i64;
            assert(cx == t.cell_x(i as int) && cy == t.cell_y(i as int));
            if cx == x && cy == y {
                return true;
            }
            i += 1;
        }
        false
    }

    /// What is drawn over the grid cell `(x, y)`.
    pub fn layer_at(&self, x: usize, y: usize) -> (r: PieceLayer)
        requires
            x < WIDTH,
            y < HEIGHT,
        ensures
            r == layer_of(self@, x as int, y as int),
    {
        if let Some(t) = &self.tetromino {
            if Self::covers(t, x as i64, y as i64) {
                return PieceLayer::Active;
            }
        }
        if let Some(g) = &self.ghost_tetromino {
            if Self::covers(g, x as i64, y as i64) {
                return PieceLayer::Shadow;
            }
        }
        PieceLayer::Empty
    }
}

} // verus!
