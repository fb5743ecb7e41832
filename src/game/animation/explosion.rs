use vstd::prelude::*;
use crate::data_type::counter::{Counter, CounterEnd};
use crate::game::animation::{AnimationField, AnimationFrame, AnimationResult};
use crate::game::cell::{spec_is_explodable, Cell};
use crate::game::field::{in_field, Field, FIELD_CELLS, FIELD_HEIGHT, FIELD_WIDTH};
use crate::geometry::position::{pos_at, spec_pos, MoveX, MoveY, Movement, Pos, PosY};
use crate::geometry::roi::RegionOfInterest;

verus! {

/// The chain index of a turn: how many explosion waves have completed.
#[derive(Debug, Clone, Copy, PartialEq, Eq)]
pub struct ChainCounter(Counter);

impl ChainCounter {
    /// The counter has no upper bound.
    #[verifier::type_invariant]
    spec fn unbounded(self) -> bool {
        self.0.spec_end() == CounterEnd::Unbounded
    }

    /// The chain index.
    pub closed spec fn spec_chain(self) -> nat {
        self.0.spec_current()
    }

    /// A counter at zero.
    pub fn new() -> (r: ChainCounter)
        ensures
            r.spec_chain() == 0,
    {
        ChainCounter(Counter::new(0, CounterEnd::Unbounded))
    }

    /// The chain index.
    pub fn current_chain(&self) -> (r: usize)
        ensures
            r == self.spec_chain(),
    {
        self.0.current()
    }

    /// The counter one wave later; it stays at `usize::MAX` once there.
    pub fn next(self) -> (r: ChainCounter)
        ensures
            r.spec_chain() == if self.spec_chain() < usize::MAX {
                self.spec_chain() + 1
            } else {
                self.spec_chain()
            },
    {
        proof {
            use_type_invariant(&self);
        }
        let mut counter = self.0;
        counter.next();
        ChainCounter(counter)
    }
}


/// Half width and half height of the blast of a bomb at `power`.
pub open spec fn blast_half_size(power: int) -> (int, int) {
    if power == 1 {
        (3, 0)
    } else if power == 2 {
        (3, 1)
    } else if power == 3 {
        (3, 2)
    } else if power == 4 {
        (3, 3)
    } else if 5 <= power <= 6 {
        (4, 4)
    } else if 7 <= power <= 8 {
        (5, 5)
    } else if 9 <= power <= 10 {
        (6, 6)
    } else if 11 <= power <= 12 {
        (7, 7)
    } else {
        (8, 8)
    }
}

/// For powers from one on, a stronger blast is at least as large in both directions.
pub proof fn lemma_blast_size_monotonic(weaker: int, stronger: int)
    requires
        1 <= weaker <= stronger,
    ensures
        blast_half_size(weaker).0 <= blast_half_size(stronger).0,
        blast_half_size(weaker).1 <= blast_half_size(stronger).1,
{
}

/// The strength of the explosions of a wave.
#[derive(Debug, Clone, Copy)]
pub struct ExplosionPower {
    pub power: usize,
}

/// Number of full rows plus the chain index, kept at `usize::MAX` at most.
pub open spec fn spec_power(filled_row_count: int, chain: int) -> int {
    if filled_row_count + chain <= usize::MAX {
        filled_row_count + chain
    } else {
        usize::MAX as int
    }
}

impl ExplosionPower {
    pub fn new(filled_row_count: usize, chain_counter: &ChainCounter) -> (r: ExplosionPower)
        ensures
            r.power == spec_power(filled_row_count as int, chain_counter.spec_chain() as int),
    {
        let chain = chain_counter.current_chain();
        let power = if chain > usize::MAX - filled_row_count {
            usize::MAX
        } else {
            filled_row_count + chain
        };
        ExplosionPower { power }
    }
}

/// The region that a cell at `(x, y)` blasts when it explodes at `power`: a square
/// around a bomb sized by the power, a fixed ten-by-ten area for a big bomb, nothing for
/// another cell.
pub open spec fn spec_explosion_area(power: int, cell: Cell, x: int, y: int) -> Option<
    RegionOfInterest,
> {
    let (hx, hy) = blast_half_size(power);
    match cell {
        Cell::Bomb => Some(
            RegionOfInterest {
                left_top: spec_pos(x - hx, y - hy),
                size: Movement(MoveX((2 * hx + 1) as i8), MoveY((2 * hy + 1) as i8)),
            },
        ),
        Cell::BigBombUpperLeft => Some(
            RegionOfInterest {
                left_top: spec_pos(x - 4, y - 4),
                size: Movement(MoveX(10), MoveY(10)),
            },
        ),
        _ => None,
    }
}

/// Whether a center `cell` at `(cx, cy)` blasts `(x, y)` at `power`.
pub open spec fn covers(cell: Cell, power: int, cx: int, cy: int, x: int, y: int) -> bool {
    match spec_explosion_area(power, cell, cx, cy) {
        Some(roi) => roi.spec_contains(spec_pos(x, y)),
        None => false,
    }
}

/// Whether one of the first `n` centers (row-major, `Cell::Empty` where there is none)
/// blasts `(x, y)`.
pub open spec fn blasted_upto(centers: Seq<Cell>, power: int, x: int, y: int, n: int) -> bool
    decreases n,
{
    if n <= 0 {
        false
    } else {
        blasted_upto(centers, power, x, y, n - 1) || covers(
            centers[n - 1],
            power,
            (n - 1) % FIELD_WIDTH as int,
            (n - 1) / FIELD_WIDTH as int,
            x,
            y,
        )
    }
}

/// The cells blasted by the centers, row-major: the union of their blast regions,
/// clipped to the field.
pub open spec fn spec_blast(centers: Seq<Cell>, power: int) -> Seq<bool> {
    Seq::new(
        FIELD_CELLS as nat,
        |t: int|
            blasted_upto(
                centers,
                power,
                t % FIELD_WIDTH as int,
                t / FIELD_WIDTH as int,
                FIELD_CELLS as int,
            ),
    )
}

/// Whether row `y` is among `rows`.
pub open spec fn row_listed(rows: Seq<PosY>, y: int) -> bool {
    exists|j: int| 0 <= j < rows.len() && #[trigger] rows[j].below_shift == y
}

/// The centers of the first wave: explodable cells of the listed rows.
pub open spec fn spec_centers(field: Field, rows: Seq<PosY>) -> Seq<Cell> {
    Seq::new(
        FIELD_CELLS as nat,
        |i: int|
            if spec_is_explodable(field.cells@[i]) && row_listed(rows, i / FIELD_WIDTH as int) {
                field.cells@[i]
            } else {
                Cell::Empty
            },
    )
}

/// The bombs caught by a wave: explodable cells in the blast that were not its centers.
pub open spec fn spec_caught(cells: Seq<Cell>, centers: Seq<Cell>, exploded: Seq<bool>) -> Seq<
    Cell,
> {
    Seq::new(
        FIELD_CELLS as nat,
        |i: int|
            if exploded[i] && centers[i] == Cell::Empty && spec_is_explodable(cells[i]) {
                cells[i]
            } else {
                Cell::Empty
            },
    )
}

/// The cells after the blasted ones are emptied.
pub open spec fn spec_cleared(cells: Seq<Cell>, exploded: Seq<bool>) -> Seq<Cell> {
    Seq::new(
        FIELD_CELLS as nat,
        |i: int|
            if exploded[i] {
                Cell::Empty
            } else {
                cells[i]
            },
    )
}

/// Whether no center is left.
pub open spec fn no_center(centers: Seq<Cell>) -> bool {
    forall|i: int| 0 <= i < FIELD_CELLS ==> #[trigger] centers[i] == Cell::Empty
}

/// The blast of a bomb at `pos` at `power`: a square around it sized by the power.
pub fn bomb_explosion_area(explosion_power: ExplosionPower, pos: Pos) -> (r: RegionOfInterest)
    requires
        in_field(pos.sx(), pos.sy()),
    ensures
        Some(r) == spec_explosion_area(explosion_power.power as int, Cell::Bomb, pos.sx(), pos.sy()),
        r.wf(),
{
    let (x, y): (i8, i8) = match explosion_power.power {
        1 => (3, 0),
        2 => (3, 1),
        3 => (3, 2),
        4 => (3, 3),
        5 | 6 => (4, 4),
        7 | 8 => (5, 5),
        9 | 10 => (6, 6),
        11 | 12 => (7, 7),
        _ => (8, 8),
    };
    let left_top = pos_at(pos.0.right_shift - x, pos.1.below_shift - y);
    let size = Movement(MoveX(x * 2 + 1), MoveY(y * 2 + 1));
    RegionOfInterest::new(left_top, size)
}

/// The blast of a big bomb whose upper left part is at `big_bomb_upper_left_pos`.
pub fn big_bomb_explosion_area(big_bomb_upper_left_pos: Pos) -> (r: RegionOfInterest)
    requires
        in_field(big_bomb_upper_left_pos.sx(), big_bomb_upper_left_pos.sy()),
    ensures
        Some(r) == spec_explosion_area(
            0,
            Cell::BigBombUpperLeft,
            big_bomb_upper_left_pos.sx(),
            big_bomb_upper_left_pos.sy(),
        ),
        r.wf(),
{
    let left_top = pos_at(
        big_bomb_upper_left_pos.0.right_shift - 4,
        big_bomb_upper_left_pos.1.below_shift - 4,
    );
    let size = Movement(MoveX(10), MoveY(10));
    RegionOfInterest::new(left_top, size)
}

/// The blast of `cell` at `pos`, if it explodes.
pub fn explosion_area(explosion_power: ExplosionPower, cell: Cell, pos: Pos) -> (r: Option<
    RegionOfInterest,
>)
    requires
        in_field(pos.sx(), pos.sy()),
    ensures
        r == spec_explosion_area(explosion_power.power as int, cell, pos.sx(), pos.sy()),
        r matches Some(roi) ==> roi.wf(),
{
    match cell {
        Cell::Bomb => Some(bomb_explosion_area(explosion_power, pos)),
        Cell::BigBombUpperLeft => Some(big_bomb_explosion_area(pos)),
        _ => None,
    }
}

/// The cells blasted by `centers` at `explosion_power`.
pub fn scan_exploded_cell_positions(
    centers: &[Cell; FIELD_CELLS],
    explosion_power: ExplosionPower,
) -> (r: [bool; FIELD_CELLS])
    ensures
        r@ == spec_blast(centers@, explosion_power.power as int),
{
    let power = explosion_power.power;
    let mut out = [false; FIELD_CELLS];
    let mut t: usize = 0;
    while t < FIELD_CELLS
        invariant
            power == explosion_power.power,
            0 <= t <= FIELD_CELLS,
            out@.len() == FIELD_CELLS,
            forall|k: int|
                0 <= k < t ==> #[trigger] out@[k] == spec_blast(centers@, power as int)[k],
        decreases FIELD_CELLS - t,
    {
        let tx = (t % FIELD_WIDTH) as i8;
        let ty = (t / FIELD_WIDTH) as i8;
        let target = pos_at(tx, ty);
        let mut hit = false;
        let mut k: usize = 0;
        while k < FIELD_CELLS
            invariant
                power == explosion_power.power,
                0 <= t < FIELD_CELLS,
                tx == (t as int) % FIELD_WIDTH as int,
                ty == (t as int) / FIELD_WIDTH as int,
                target == spec_pos(tx as int, ty as int),
                0 <= k <= FIELD_CELLS,
                hit == blasted_upto(centers@, power as int, tx as int, ty as int, k as int),
            decreases FIELD_CELLS - k,
        {
            let cx = (k % FIELD_WIDTH) as i8;
            let cy = (k / FIELD_WIDTH) as i8;
            match explosion_area(explosion_power, centers[k], pos_at(cx, cy)) {
                Some(roi) => {
                    if roi.contains(target) {
                        hit = true;
                    }
                },
                None => {},
            }
            k = k + 1;
        }
        out[t] = hit;
        t = t + 1;
    }
    proof {
        assert(out@ =~= spec_blast(centers@, power as int));
    }
    out
}

/// Which rows of the field are listed in `filled_rows`.
fn mark_filled_rows(filled_rows: &[PosY]) -> (r: [bool; FIELD_HEIGHT])
    ensures
        forall|y: int| 0 <= y < FIELD_HEIGHT ==> #[trigger] r@[y] == row_listed(filled_rows@, y),
{
    let mut marks = [false; FIELD_HEIGHT];
    let mut j: usize = 0;
    while j < filled_rows.len()
        invariant
            0 <= j <= filled_rows@.len(),
            marks@.len() == FIELD_HEIGHT,
            forall|y: int|
                0 <= y < FIELD_HEIGHT ==> #[trigger] marks@[y] == exists|i: int|
                    0 <= i < j && #[trigger] filled_rows@[i].below_shift == y,
        decreases filled_rows@.len() - j,
    {
        let y = filled_rows[j].below_shift;
        if 0 <= y && (y as usize) < FIELD_HEIGHT {
            marks[y as usize] = true;
        }
        proof {
            assert forall|yy: int| 0 <= yy < FIELD_HEIGHT implies #[trigger] marks@[yy] == exists|i: int|
                0 <= i < j + 1 && #[trigger] filled_rows@[i].below_shift == yy by {
                if filled_rows@[j as int].below_shift == yy {
                    assert(0 <= j < j + 1);
                }
            }
        }
        j = j + 1;
    }
    marks
}

/// The explosion centers of the first wave: explodable cells of the listed rows.
pub fn scan_explosion_centers(field: &Field, filled_rows: &[PosY]) -> (r: [Cell; FIELD_CELLS])
    ensures
        r@ == spec_centers(*field, filled_rows@),
{
    let marks = mark_filled_rows(filled_rows);
    let mut centers = [Cell::Empty; FIELD_CELLS];
    let mut i: usize = 0;
    while i < FIELD_CELLS
        invariant
            0 <= i <= FIELD_CELLS,
            centers@.len() == FIELD_CELLS,
            forall|y: int| 0 <= y < FIELD_HEIGHT ==> #[trigger] marks@[y] == row_listed(filled_rows@, y),
            forall|k: int| 0 <= k < i ==> #[trigger] centers@[k] == spec_centers(*field, filled_rows@)[k],
            forall|k: int| i <= k < FIELD_CELLS ==> #[trigger] centers@[k] == Cell::Empty,
        decreases FIELD_CELLS - i,
    {
        let c = field.cells[i];
        if c.is_explodable() && marks[i / FIELD_WIDTH] {
            centers[i] = c;
        }
        i = i + 1;
    }
    proof {
        assert(centers@ =~= spec_centers(*field, filled_rows@));
    }
    centers
}

/// The bombs caught by a wave: explodable cells in the blast that were not its centers.
pub fn scan_caught_explosion_cell_positions(
    field: &Field,
    centers: &[Cell; FIELD_CELLS],
    exploded: &[bool; FIELD_CELLS],
) -> (r: [Cell; FIELD_CELLS])
    ensures
        r@ == spec_caught(field.cells@, centers@, exploded@),
{
    let mut caught = [Cell::Empty; FIELD_CELLS];
    let mut i: usize = 0;
    while i < FIELD_CELLS
        invariant
            0 <= i <= FIELD_CELLS,
            caught@.len() == FIELD_CELLS,
            forall|k: int|
                0 <= k < i ==> #[trigger] caught@[k] == spec_caught(field.cells@, centers@, exploded@)[k],
            forall|k: int| i <= k < FIELD_CELLS ==> #[trigger] caught@[k] == Cell::Empty,
        decreases FIELD_CELLS - i,
    {
        let c = field.cells[i];
        if exploded[i] && centers[i].is_empty() && c.is_explodable() {
            caught[i] = c;
        }
        i = i + 1;
    }
    proof {
        assert(caught@ =~= spec_caught(field.cells@, centers@, exploded@));
    }
    caught
}

/// Empties the blasted cells of `field`.
pub fn clear_exploded(field: &mut Field, exploded: &[bool; FIELD_CELLS])
    ensures
        final(field).cells@ == spec_cleared(old(field).cells@, exploded@),
{
    let mut i: usize = 0;
    while i < FIELD_CELLS
        invariant
            0 <= i <= FIELD_CELLS,
            field.cells@.len() == FIELD_CELLS,
            forall|k: int|
                0 <= k < i ==> #[trigger] field.cells@[k] == spec_cleared(old(field).cells@, exploded@)[k],
            forall|k: int| i <= k < FIELD_CELLS ==> #[trigger] field.cells@[k] == old(field).cells@[k],
        decreases FIELD_CELLS - i,
    {
        if exploded[i] {
            field.cells[i] = Cell::Empty;
        }
        i = i + 1;
    }
    proof {
        assert(field.cells@ =~= spec_cleared(old(field).cells@, exploded@));
    }
}

/// Whether no center is left.
fn has_no_center(centers: &[Cell; FIELD_CELLS]) -> (r: bool)
    ensures
        r == no_center(centers@),
{
    let mut i: usize = 0;
    while i < FIELD_CELLS
        invariant
            0 <= i <= FIELD_CELLS,
            forall|k: int| 0 <= k < i ==> #[trigger] centers@[k] == Cell::Empty,
        decreases FIELD_CELLS - i,
    {
        if !centers[i].is_empty() {
            return false;
        }
        i = i + 1;
    }
    true
}

/// Number of frames of each explosion wave.
pub const EXPLOSION_FRAMES: usize = 20;

/// How a cascade starts.
pub enum ExplosionInitResult {
    /// Some bomb of a full row explodes.
    Explodes(Explosion),
    /// Nothing explodes; the field is handed back unchanged.
    Stay(AnimationField),
}

/// An explosion cascade, one wave at a time.
pub struct Explosion {
    /// The field, with the earlier waves of the cascade applied.
    pub field: AnimationField,
    /// Waves completed so far in this turn.
    pub current_chain: ChainCounter,
    /// Number of full rows that started the cascade.
    pub filled_row_count: usize,
    /// The cells exploding in this wave, row-major; `Cell::Empty` where none explodes.
    pub center_cells: [Cell; FIELD_CELLS],
    /// The cells blasted by this wave, row-major.
    pub exploded_cell_positions: [bool; FIELD_CELLS],
    /// The frame counter of this wave.
    pub frame: AnimationFrame,
}

impl Explosion {
    /// The blast is the one of this wave's centers at this wave's power.
    pub open spec fn wf(&self) -> bool {
        &&& self.frame.wf()
        &&& self.exploded_cell_positions@ == spec_blast(
            self.center_cells@,
            spec_power(self.filled_row_count as int, self.current_chain.spec_chain() as int),
        )
    }

    /// Starts a cascade from the explodable cells of the listed full rows; `Stay` where
    /// there is none.
    pub fn try_init(field: AnimationField, filled_rows: &[PosY], current_chain: ChainCounter) -> (r:
        ExplosionInitResult)
        ensures
            no_center(spec_centers(field.field, filled_rows@)) ==> r
                == ExplosionInitResult::Stay(field),
            !no_center(spec_centers(field.field, filled_rows@)) ==> (r matches ExplosionInitResult::Explodes(e)
                && e.wf() && e.field == field && e.current_chain == current_chain
                && e.filled_row_count == filled_rows@.len() && e.center_cells@ == spec_centers(
                field.field,
                filled_rows@,
            ) && e.frame.spec_current() == 0 && e.frame.spec_end() == EXPLOSION_FRAMES),
    {
        let filled_row_count = filled_rows.len();
        let explosion_power = ExplosionPower::new(filled_row_count, &current_chain);
        let centers = scan_explosion_centers(&field.field, filled_rows);
        if has_no_center(&centers) {
            return ExplosionInitResult::Stay(field);
        }
        let exploded = scan_exploded_cell_positions(&centers, explosion_power);
        ExplosionInitResult::Explodes(
            Explosion {
                field,
                current_chain,
                filled_row_count,
                center_cells: centers,
                exploded_cell_positions: exploded,
                frame: AnimationFrame::with_frame_count(EXPLOSION_FRAMES),
            },
        )
    }

    /// Advances one frame. At the end of a wave, the blasted cells are emptied and the
    /// chain index goes up by one; the bombs the wave caught explode in the next wave,
    /// and where there is none the cascade ends with the field and the chain counter.
    pub fn wait_next(self) -> (r: AnimationResult<Explosion, (AnimationField, ChainCounter)>)
        requires
            self.wf(),
        ensures
            self.frame.spec_current() < self.frame.spec_end() ==> (r matches AnimationResult::InProgress(
                s,
            ) && s.wf() && s.field == self.field && s.current_chain == self.current_chain
                && s.center_cells == self.center_cells && s.exploded_cell_positions
                == self.exploded_cell_positions && s.frame.spec_current()
                == self.frame.spec_current() + 1),
            self.frame.spec_current() == self.frame.spec_end() ==> {
                let caught = spec_caught(
                    self.field.field.cells@,
                    self.center_cells@,
                    self.exploded_cell_positions@,
                );
                let cleared = spec_cleared(self.field.field.cells@, self.exploded_cell_positions@);
                let chain = if self.current_chain.spec_chain() < usize::MAX {
                    self.current_chain.spec_chain() + 1
                } else {
                    self.current_chain.spec_chain()
                };
                if no_center(caught) {
                    r matches AnimationResult::Finished((f, c)) && f.field.cells@ == cleared
                        && f.block_queue == self.field.block_queue && c.spec_chain() == chain
                } else {
                    r matches AnimationResult::InProgress(s) && s.wf()
                        && s.field.field.cells@ == cleared && s.field.block_queue
                        == self.field.block_queue && s.current_chain.spec_chain() == chain
                        && s.filled_row_count == self.filled_row_count && s.center_cells@ == caught
                        && s.frame.spec_current() == 0 && s.frame.spec_end() == EXPLOSION_FRAMES
                }
            },
    {
        match self.frame.wait_next() {
            Some(next_frame) => AnimationResult::InProgress(
                Explosion {
                    field: self.field,
                    current_chain: self.current_chain,
                    filled_row_count: self.filled_row_count,
                    center_cells: self.center_cells,
                    exploded_cell_positions: self.exploded_cell_positions,
                    frame: next_frame,
                },
            ),
            None => {
                let caught = scan_caught_explosion_cell_positions(
                    &self.field.field,
                    &self.center_cells,
                    &self.exploded_cell_positions,
                );
                let mut field = self.field;
                clear_exploded(&mut field.field, &self.exploded_cell_positions);
                let next_chain = self.current_chain.next();
                if has_no_center(&caught) {
                    AnimationResult::Finished((field, next_chain))
                } else {
                    let explosion_power = ExplosionPower::new(self.filled_row_count, &next_chain);
                    let exploded = scan_exploded_cell_positions(&caught, explosion_power);
                    AnimationResult::InProgress(
                        Explosion {
                            field,
                            current_chain: next_chain,
                            filled_row_count: self.filled_row_count,
                            center_cells: caught,
                            exploded_cell_positions: exploded,
                            frame: AnimationFrame::with_frame_count(EXPLOSION_FRAMES),
                        },
                    )
                }
            },
        }
    }
}

} // verus!
