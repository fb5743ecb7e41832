use vstd::prelude::*;
use crate::game::animation::{AnimationField, AnimationFrame, AnimationResult};
use crate::game::cell::Cell;
use crate::game::field::{field_index, in_field, Field, FIELD_CELLS, FIELD_HEIGHT, FIELD_WIDTH};
use crate::geometry::position::{pos_at, spec_pos, Pos};

verus! {

/// Whether `(x, y)` is the upper left of a two-by-two square of bombs on the field.
pub open spec fn is_bomb_square(cells: Seq<Cell>, x: int, y: int) -> bool {
    &&& in_field(x, y)
    &&& in_field(x + 1, y + 1)
    &&& cells[field_index(x, y)] == Cell::Bomb
    &&& cells[field_index(x + 1, y)] == Cell::Bomb
    &&& cells[field_index(x, y + 1)] == Cell::Bomb
    &&& cells[field_index(x + 1, y + 1)] == Cell::Bomb
}

/// The upper left corners of the bomb squares among the first `n` positions, row-major.
pub open spec fn bomb_squares_upto(cells: Seq<Cell>, n: int) -> Seq<Pos>
    decreases n,
{
    if n <= 0 {
        Seq::empty()
    } else {
        let x = (n - 1) % FIELD_WIDTH as int;
        let y = (n - 1) / FIELD_WIDTH as int;
        if is_bomb_square(cells, x, y) {
            bomb_squares_upto(cells, n - 1).push(spec_pos(x, y))
        } else {
            bomb_squares_upto(cells, n - 1)
        }
    }
}

/// The cells with the square at `p` turned into the four parts of a big bomb.
pub open spec fn write_big_bomb(cells: Seq<Cell>, p: Pos) -> Seq<Cell> {
    let x = p.sx();
    let y = p.sy();
    cells.update(field_index(x, y), Cell::BigBombUpperLeft).update(
        field_index(x + 1, y),
        Cell::BigBombUpperRight,
    ).update(field_index(x, y + 1), Cell::BigBombLowerLeft).update(
        field_index(x + 1, y + 1),
        Cell::BigBombLowerRight,
    )
}

/// The cells with the squares at the first `n` corners turned into big bombs, in order.
pub open spec fn write_big_bombs(cells: Seq<Cell>, corners: Seq<Pos>, n: int) -> Seq<Cell>
    decreases n,
{
    if n <= 0 {
        cells
    } else {
        write_big_bomb(write_big_bombs(cells, corners, n - 1), corners[n - 1])
    }
}

/// The four cells of the big bomb whose upper left part is at `upper_left`: upper left,
/// upper right, lower left, lower right.
pub fn big_bomb_positions(upper_left: Pos) -> (r: [Pos; 4])
    requires
        in_field(upper_left.sx(), upper_left.sy()),
    ensures
        r@ == seq![
            upper_left,
            spec_pos(upper_left.sx() + 1, upper_left.sy()),
            spec_pos(upper_left.sx(), upper_left.sy() + 1),
            spec_pos(upper_left.sx() + 1, upper_left.sy() + 1),
        ],
{
    let x = upper_left.0.right_shift;
    let y = upper_left.1.below_shift;
    let r = [upper_left, pos_at(x + 1, y), pos_at(x, y + 1), pos_at(x + 1, y + 1)];
    assert(r@ =~= seq![
        upper_left,
        spec_pos(upper_left.sx() + 1, upper_left.sy()),
        spec_pos(upper_left.sx(), upper_left.sy() + 1),
        spec_pos(upper_left.sx() + 1, upper_left.sy() + 1),
    ]);
    r
}

/// The upper left corners of all two-by-two squares of bombs, row-major.
pub fn scan_bomb_squares(field: &Field) -> (r: Vec<Pos>)
    ensures
        r@ == bomb_squares_upto(field.cells@, FIELD_CELLS as int),
        forall|i: int|
            0 <= i < r@.len() ==> is_bomb_square(field.cells@, (#[trigger] r@[i]).sx(), r@[i].sy()),
{
    let mut out: Vec<Pos> = Vec::new();
    let mut i: usize = 0;
    while i < FIELD_CELLS
        invariant
            0 <= i <= FIELD_CELLS,
            out@ == bomb_squares_upto(field.cells@, i as int),
            forall|k: int|
                0 <= k < out@.len() ==> is_bomb_square(
                    field.cells@,
                    (#[trigger] out@[k]).sx(),
                    out@[k].sy(),
                ),
        decreases FIELD_CELLS - i,
    {
        let x = i % FIELD_WIDTH;
        let y = i / FIELD_WIDTH;
        if x + 1 < FIELD_WIDTH && y + 1 < FIELD_HEIGHT {
            let a = field.cell_at(x, y);
            let b = field.cell_at(x + 1, y);
            let c = field.cell_at(x, y + 1);
            let d = field.cell_at(x + 1, y + 1);
            if a == Cell::Bomb && b == Cell::Bomb && c == Cell::Bomb && d == Cell::Bomb {
                out.push(pos_at(x as i8, y as i8));
            }
        }
        i = i + 1;
    }
    out
}

/// Turns the squares at `corners` into big bombs, in order.
pub fn connect_big_bombs(field: &mut Field, corners: &Vec<Pos>)
    requires
        forall|i: int|
            0 <= i < corners@.len() ==> is_bomb_square(
                old(field).cells@,
                (#[trigger] corners@[i]).sx(),
                corners@[i].sy(),
            ),
    ensures
        final(field).cells@ == write_big_bombs(old(field).cells@, corners@, corners@.len() as int),
{
    let ghost start = old(field).cells@;
    let mut i: usize = 0;
    while i < corners.len()
        invariant
            0 <= i <= corners@.len(),
            field.cells@ == write_big_bombs(start, corners@, i as int),
            forall|k: int|
                0 <= k < corners@.len() ==> is_bomb_square(
                    start,
                    (#[trigger] corners@[k]).sx(),
                    corners@[k].sy(),
                ),
        decreases corners@.len() - i,
    {
        let p = corners[i];
        let x = p.0.right_shift as usize;
        let y = p.1.below_shift as usize;
        field.set_at(x, y, Cell::BigBombUpperLeft);
        field.set_at(x + 1, y, Cell::BigBombUpperRight);
        field.set_at(x, y + 1, Cell::BigBombLowerLeft);
        field.set_at(x + 1, y + 1, Cell::BigBombLowerRight);
        i = i + 1;
    }
}

/// Frames of each phase of the connection animation.
pub const CONNECTION_PHASE_FRAMES: usize = 5;

/// The phases of the connection animation.
#[derive(Debug, Clone, Copy)]
pub enum ConnectionAnimationFrame {
    /// Before the squares are joined.
    Unconnect(AnimationFrame),
    /// While they are joined; the field already shows the big bombs.
    Connecting(AnimationFrame),
    /// After they are joined.
    Connected(AnimationFrame),
}

impl ConnectionAnimationFrame {
    pub open spec fn wf(self) -> bool {
        match self {
            ConnectionAnimationFrame::Unconnect(f) => f.wf(),
            ConnectionAnimationFrame::Connecting(f) => f.wf(),
            ConnectionAnimationFrame::Connected(f) => f.wf(),
        }
    }

    /// The counter of the phase, whatever the phase.
    pub open spec fn counter(self) -> AnimationFrame {
        match self {
            ConnectionAnimationFrame::Unconnect(f) => f,
            ConnectionAnimationFrame::Connecting(f) => f,
            ConnectionAnimationFrame::Connected(f) => f,
        }
    }

    /// The number of the phase: 0 before joining, 1 while joining, 2 after.
    pub open spec fn phase_index(self) -> int {
        match self {
            ConnectionAnimationFrame::Unconnect(_) => 0,
            ConnectionAnimationFrame::Connecting(_) => 1,
            ConnectionAnimationFrame::Connected(_) => 2,
        }
    }

    /// Whether the phase has reached its last frame.
    pub open spec fn at_phase_end(self) -> bool {
        self.counter().spec_current() == self.counter().spec_end()
    }

    /// `self` is the frame after `prev`: one frame on in the same phase, or the first frame
    /// of the next phase where `prev` ended its phase.
    pub open spec fn follows(self, prev: ConnectionAnimationFrame) -> bool {
        if prev.at_phase_end() {
            self.phase_index() == prev.phase_index() + 1 && self.counter().spec_current() == 0
                && self.counter().spec_end() == CONNECTION_PHASE_FRAMES
        } else {
            self.phase_index() == prev.phase_index() && self.counter().spec_current()
                == prev.counter().spec_current() + 1 && self.counter().spec_end()
                == prev.counter().spec_end()
        }
    }

    pub fn new() -> (r: ConnectionAnimationFrame)
        ensures
            r.wf(),
            r matches ConnectionAnimationFrame::Unconnect(f) && f.spec_current() == 0,
    {
        ConnectionAnimationFrame::Unconnect(AnimationFrame::with_frame_count(CONNECTION_PHASE_FRAMES))
    }

    /// Advances one frame, from one phase to the next at its end; `None` after the last.
    pub fn wait_next(self) -> (r: Option<ConnectionAnimationFrame>)
        requires
            self.wf(),
        ensures
            r matches Some(f) ==> f.wf() && f.follows(self),
            r is None <==> (self.phase_index() == 2 && self.at_phase_end()),
            r matches Some(ConnectionAnimationFrame::Unconnect(_)) ==> self matches ConnectionAnimationFrame::Unconnect(_),
            self matches ConnectionAnimationFrame::Connected(f) && f.spec_current()
                == f.spec_end() ==> r is None,
            self matches ConnectionAnimationFrame::Unconnect(f) && f.spec_current()
                == f.spec_end() ==> r matches Some(ConnectionAnimationFrame::Connecting(g)),
            self matches ConnectionAnimationFrame::Connecting(f) && f.spec_current()
                == f.spec_end() ==> r matches Some(ConnectionAnimationFrame::Connected(g)),
    {
        match self {
            ConnectionAnimationFrame::Unconnect(frame) => match frame.wait_next() {
                Some(frame) => Some(ConnectionAnimationFrame::Unconnect(frame)),
                None => Some(
                    ConnectionAnimationFrame::Connecting(
                        AnimationFrame::with_frame_count(CONNECTION_PHASE_FRAMES),
                    ),
                ),
            },
            ConnectionAnimationFrame::Connecting(frame) => match frame.wait_next() {
                Some(frame) => Some(ConnectionAnimationFrame::Connecting(frame)),
                None => Some(
                    ConnectionAnimationFrame::Connected(
                        AnimationFrame::with_frame_count(CONNECTION_PHASE_FRAMES),
                    ),
                ),
            },
            ConnectionAnimationFrame::Connected(frame) => match frame.wait_next() {
                Some(frame) => Some(ConnectionAnimationFrame::Connected(frame)),
                None => None,
            },
        }
    }
}

/// How the connection of bomb squares starts.
pub enum ConnectBombInitResult {
    /// Some squares of bombs will become big bombs.
    Connects(ConnectBomb),
    /// No square of bombs; the field is handed back unchanged.
    Stay(AnimationField),
}

/// Joins every two-by-two square of bombs into one big bomb.
pub struct ConnectBomb {
    pub field: AnimationField,
    pub frame: ConnectionAnimationFrame,
    pub new_big_bomb_upper_left_positions: Vec<Pos>,
}

impl ConnectBomb {
    /// The corners were squares of bombs on the field they were found on.
    pub open spec fn wf(&self) -> bool {
        &&& self.frame.wf()
        &&& (self.frame matches ConnectionAnimationFrame::Unconnect(_) ==> forall|i: int|
            0 <= i < self.new_big_bomb_upper_left_positions@.len() ==> is_bomb_square(
                self.field.field.cells@,
                (#[trigger] self.new_big_bomb_upper_left_positions@[i]).sx(),
                self.new_big_bomb_upper_left_positions@[i].sy(),
            ))
    }

    /// Finds the squares of bombs; `Stay` where there is none.
    pub fn new(field: AnimationField) -> (r: ConnectBombInitResult)
        ensures
            bomb_squares_upto(field.field.cells@, FIELD_CELLS as int).len() == 0 ==> r
                == ConnectBombInitResult::Stay(field),
            bomb_squares_upto(field.field.cells@, FIELD_CELLS as int).len() > 0 ==> (r matches ConnectBombInitResult::Connects(
                c,
            ) && c.wf() && c.field == field && c.new_big_bomb_upper_left_positions@
                == bomb_squares_upto(field.field.cells@, FIELD_CELLS as int)),
    {
        let corners = scan_bomb_squares(&field.field);
        if corners.len() == 0 {
            ConnectBombInitResult::Stay(field)
        } else {
            ConnectBombInitResult::Connects(
                ConnectBomb {
                    field,
                    frame: ConnectionAnimationFrame::new(),
                    new_big_bomb_upper_left_positions: corners,
                },
            )
        }
    }

    /// Advances one frame; the field is rewritten when the joining phase starts, and handed
    /// back after the last phase.
    pub fn wait_next(self) -> (r: AnimationResult<ConnectBomb, AnimationField>)
        requires
            self.wf(),
        ensures
            r matches AnimationResult::InProgress(c) ==> c.wf()
                && c.new_big_bomb_upper_left_positions@ == self.new_big_bomb_upper_left_positions@
                && c.frame.follows(self.frame) && c.field.block_queue == self.field.block_queue,
            r is Finished <==> (self.frame.phase_index() == 2 && self.frame.at_phase_end()),
            !(self.frame.phase_index() == 0 && self.frame.at_phase_end()) ==> (r matches AnimationResult::InProgress(
                c,
            ) ==> c.field == self.field),
            (self.frame matches ConnectionAnimationFrame::Unconnect(f) && f.spec_current()
                == f.spec_end()) ==> (r matches AnimationResult::InProgress(c)
                && c.field.field.cells@ == write_big_bombs(
                self.field.field.cells@,
                self.new_big_bomb_upper_left_positions@,
                self.new_big_bomb_upper_left_positions@.len() as int,
            )),
            (self.frame matches ConnectionAnimationFrame::Connected(f) && f.spec_current()
                == f.spec_end()) ==> r == AnimationResult::<ConnectBomb, AnimationField>::Finished(
                self.field,
            ),
    {
        let entering = match self.frame {
            ConnectionAnimationFrame::Unconnect(_) => true,
            _ => false,
        };
        match self.frame.wait_next() {
            Some(frame) => {
                let mut field = self.field;
                let connecting = match frame {
                    ConnectionAnimationFrame::Connecting(_) => true,
                    _ => false,
                };
                if connecting && entering {
                    connect_big_bombs(&mut field.field, &self.new_big_bomb_upper_left_positions);
                }
                AnimationResult::InProgress(
                    ConnectBomb {
                        field,
                        frame,
                        new_big_bomb_upper_left_positions: self.new_big_bomb_upper_left_positions,
                    },
                )
            },
            None => AnimationResult::Finished(self.field),
        }
    }
}

} // verus!
