use vstd::prelude::*;
use crate::data_type::shake::{shake_value, Shake};
use crate::game::block::{in_reach, ControlledBlock};
use crate::game::block_queue::BlockQueue;
use crate::game::block_template::{Block, BlockSelector, BlockView, BLOCK_CELLS, BLOCK_TABLE_SIZE};
use crate::game::cell::Cell;
use crate::game::field::{field_index, in_field, Field, FIELD_HEIGHT, FIELD_WIDTH};
use crate::geometry::position::{pos_at, spec_pos, Pos};
use crate::user::GameCommand;
use vstd::arithmetic::div_mod::lemma_fundamental_div_mod_converse;

verus! {

/// The cell at `(x, y)` of a block table given by its cells, row-major.
pub open spec fn table_at(cells: Seq<Cell>, x: int, y: int) -> Cell {
    cells[y * BLOCK_TABLE_SIZE as int + x]
}

/// Every occupied cell of the table `cells`, put with its upper left corner at `anchor`,
/// lands on an empty cell of the field.
pub open spec fn arrangeable(field: Field, cells: Seq<Cell>, anchor: Pos) -> bool {
    forall|x: int, y: int|
        0 <= x < BLOCK_TABLE_SIZE && 0 <= y < BLOCK_TABLE_SIZE && #[trigger] table_at(cells, x, y)
            != Cell::Empty ==> field.is_free(anchor.sx() + x, anchor.sy() + y)
}

/// An arrangeable anchor from which the table reaches the field.
pub open spec fn can_place(field: Field, cells: Seq<Cell>, anchor: Pos) -> bool {
    in_reach(anchor) && arrangeable(field, cells, anchor)
}

/// The cell at `(x, y)` after the table `cells` is written onto `field` at `anchor`.
pub open spec fn placed_at(field: Field, cells: Seq<Cell>, anchor: Pos, x: int, y: int) -> Cell {
    let bx = x - anchor.sx();
    let by = y - anchor.sy();
    if 0 <= bx < BLOCK_TABLE_SIZE && 0 <= by < BLOCK_TABLE_SIZE && table_at(cells, bx, by)
        != Cell::Empty {
        table_at(cells, bx, by)
    } else {
        field.at(x, y)
    }
}

/// `after` is `before` with the table `cells` written onto it at `anchor`.
pub open spec fn is_placement(after: Field, before: Field, cells: Seq<Cell>, anchor: Pos) -> bool {
    forall|x: int, y: int|
        in_field(x, y) ==> #[trigger] after.at(x, y) == placed_at(before, cells, anchor, x, y)
}

/// Number of spawn candidates tried on each row.
pub const SPAWN_COLUMNS: usize = 3;
/// Number of spawn candidates in all.
pub const SPAWN_CANDIDATES: usize = 12;

/// The `k`-th anchor tried when a block appears: rows from two above the top downwards,
/// and on each row the columns around the middle, closest first.
pub open spec fn spawn_candidate(k: int) -> Pos {
    spec_pos(
        (FIELD_WIDTH / 2 - BLOCK_TABLE_SIZE / 2) as int + shake_value((k % 3) as nat),
        k / 3 - (BLOCK_TABLE_SIZE / 2) as int,
    )
}

/// The first arrangeable spawn candidate from the `k`-th on.
pub open spec fn spawn_search_from(field: Field, cells: Seq<Cell>, k: int) -> Option<Pos>
    decreases SPAWN_CANDIDATES - k,
{
    if k >= SPAWN_CANDIDATES {
        None
    } else if arrangeable(field, cells, spawn_candidate(k)) {
        Some(spawn_candidate(k))
    } else {
        spawn_search_from(field, cells, k + 1)
    }
}

/// Where a block with the table `cells` appears on `field`, if anywhere.
pub open spec fn spawn_search(field: Field, cells: Seq<Cell>) -> Option<Pos> {
    spawn_search_from(field, cells, 0)
}

/// On a field with no occupied cell every block appears: the candidate at the middle of the
/// top row puts the whole table on the field.
pub proof fn lemma_spawn_on_empty_field(field: Field, cells: Seq<Cell>)
    requires
        forall|x: int, y: int| in_field(x, y) ==> #[trigger] field.at(x, y) == Cell::Empty,
    ensures
        spawn_search(field, cells) is Some,
{
    let p = spawn_candidate(6);
    assert(p.sx() == 3 && p.sy() == 0);
    assert forall|x: int, y: int|
        0 <= x < BLOCK_TABLE_SIZE && 0 <= y < BLOCK_TABLE_SIZE && #[trigger] table_at(cells, x, y)
            != Cell::Empty implies field.is_free(p.sx() + x, p.sy() + y) by {
        assert(in_field(p.sx() + x, p.sy() + y));
    }
    assert(arrangeable(field, cells, p));
    lemma_spawn_found_before(field, cells, 6, 0);
}

/// Where candidate `j` is arrangeable, the search from any earlier `k` finds something.
proof fn lemma_spawn_found_before(field: Field, cells: Seq<Cell>, j: int, k: int)
    requires
        0 <= k <= j < SPAWN_CANDIDATES,
        arrangeable(field, cells, spawn_candidate(j)),
    ensures
        spawn_search_from(field, cells, k) is Some,
    decreases j - k,
{
    if k < j && !arrangeable(field, cells, spawn_candidate(k)) {
        lemma_spawn_found_before(field, cells, j, k + 1);
    }
}

/// The spawn search is determined by the cells alone: fields with the same cells and
/// blocks with the same cells give the same anchor, call after call.
pub proof fn lemma_spawn_search_deterministic(f1: Field, f2: Field, c1: Seq<Cell>, c2: Seq<Cell>)
    requires
        f1.cells@ == f2.cells@,
        c1 == c2,
    ensures
        spawn_search(f1, c1) == spawn_search(f2, c2),
{
    lemma_spawn_search_from_same(f1, f2, c1, 0);
}

proof fn lemma_spawn_search_from_same(f1: Field, f2: Field, cells: Seq<Cell>, k: int)
    requires
        f1.cells@ == f2.cells@,
    ensures
        spawn_search_from(f1, cells, k) == spawn_search_from(f2, cells, k),
    decreases SPAWN_CANDIDATES - k,
{
    if k < SPAWN_CANDIDATES {
        lemma_spawn_search_from_same(f1, f2, cells, k + 1);
        assert(arrangeable(f1, cells, spawn_candidate(k)) == arrangeable(
            f2,
            cells,
            spawn_candidate(k),
        ));
    }
}

/// Number of offsets tried on each axis when a block is turned.
pub const KICK_RANGE: usize = 5;
/// Number of anchors tried when a block is turned.
pub const KICK_CANDIDATES: usize = 25;

/// The `k`-th anchor tried when a block at `anchor` is turned: vertical offsets
/// 0, 1, -1, 2, -2 outside, horizontal ones in the same order inside.
pub open spec fn kick_candidate(anchor: Pos, k: int) -> Pos {
    spec_pos(
        anchor.sx() + shake_value((k % 5) as nat),
        anchor.sy() + shake_value((k / 5) as nat),
    )
}

/// The first placeable kick candidate from the `k`-th on.
pub open spec fn kick_search_from(field: Field, cells: Seq<Cell>, anchor: Pos, k: int) -> Option<
    Pos,
>
    decreases KICK_CANDIDATES - k,
{
    if k >= KICK_CANDIDATES {
        None
    } else if can_place(field, cells, kick_candidate(anchor, k)) {
        Some(kick_candidate(anchor, k))
    } else {
        kick_search_from(field, cells, anchor, k + 1)
    }
}

/// Where a turned block with the table `cells` lands, starting from `anchor`, if anywhere.
pub open spec fn kick_search(field: Field, cells: Seq<Cell>, anchor: Pos) -> Option<Pos> {
    kick_search_from(field, cells, anchor, 0)
}

/// `d` is how far a block at `anchor` falls: every shift down to `d` can be placed, the
/// next one cannot.
pub open spec fn is_drop_distance(field: Field, cells: Seq<Cell>, anchor: Pos, d: int) -> bool {
    &&& d >= 0
    &&& forall|k: int|
        1 <= k <= d ==> #[trigger] can_place(
            field,
            cells,
            spec_pos(anchor.sx(), anchor.sy() + k),
        )
    &&& !can_place(field, cells, spec_pos(anchor.sx(), anchor.sy() + d + 1))
}

/// Whether `block` can be put on `field` with its upper left corner at `block_left_top`:
/// each occupied cell of the block lands on the field, on an empty cell.
pub fn is_arrangeable(field: &Field, block: &Block, block_left_top: Pos) -> (r: bool)
    ensures
        r == arrangeable(*field, block.cells@, block_left_top),
{
    let ax = block_left_top.0.right_shift as i16;
    let ay = block_left_top.1.below_shift as i16;
    let mut y: usize = 0;
    while y < BLOCK_TABLE_SIZE
        invariant
            ax == block_left_top.sx(),
            ay == block_left_top.sy(),
            0 <= y <= BLOCK_TABLE_SIZE,
            block.cells@.len() == BLOCK_CELLS,
            forall|xx: int, yy: int|
                0 <= xx < BLOCK_TABLE_SIZE && 0 <= yy < y && #[trigger] table_at(
                    block.cells@,
                    xx,
                    yy,
                ) != Cell::Empty ==> field.is_free(ax + xx, ay + yy),
        decreases BLOCK_TABLE_SIZE - y,
    {
        let mut x: usize = 0;
        while x < BLOCK_TABLE_SIZE
            invariant
                ax == block_left_top.sx(),
                ay == block_left_top.sy(),
                0 <= y < BLOCK_TABLE_SIZE,
                0 <= x <= BLOCK_TABLE_SIZE,
                block.cells@.len() == BLOCK_CELLS,
                forall|xx: int, yy: int|
                    0 <= xx < BLOCK_TABLE_SIZE && 0 <= yy < BLOCK_TABLE_SIZE && (yy < y || (yy
                        == y && xx < x)) && #[trigger] table_at(block.cells@, xx, yy)
                        != Cell::Empty ==> field.is_free(ax + xx, ay + yy),
            decreases BLOCK_TABLE_SIZE - x,
        {
            let c = block.cells[y * BLOCK_TABLE_SIZE + x];
            if !c.is_empty() {
                assert(table_at(block.cells@, x as int, y as int) != Cell::Empty);
                let fx = ax + x as i16;
                let fy = ay + y as i16;
                if fx < 0 || fx >= FIELD_WIDTH as i16 || fy < 0 || fy >= FIELD_HEIGHT as i16 {
                    return false;
                }
                if !field.cell_at(fx as usize, fy as usize).is_empty() {
                    return false;
                }
            }
            x = x + 1;
        }
        y = y + 1;
    }
    true
}

/// `is_arrangeable`, and the anchor lies where the block's table reaches the field.
pub fn is_placeable(field: &Field, block: &Block, block_left_top: Pos) -> (r: bool)
    ensures
        r == can_place(*field, block.cells@, block_left_top),
{
    let x = block_left_top.0.right_shift;
    let y = block_left_top.1.below_shift;
    if x < -4 || x > 9 || y < -4 || y > 19 {
        return false;
    }
    is_arrangeable(field, block, block_left_top)
}

/// The anchor at which `block` appears on `field`: the first arrangeable one from the
/// row two above the top downwards over four rows, on each row trying the middle column,
/// then one to the right, then one to the left. `None` when there is none, which ends
/// the game.
pub fn find_block_appearance_pos(field: &Field, block: &Block) -> (r: Option<Pos>)
    ensures
        r == spawn_search(*field, block.cells@),
{
    let shift_max: i8 = (block.cell_table_size() / 2) as i8;
    let center: i8 = (field.width() / 2) as i8 - shift_max;
    let mut y: i8 = -shift_max;
    while y < shift_max
        invariant
            shift_max == 2,
            center == 3,
            -2 <= y <= 2,
            spawn_search(*field, block.cells@) == spawn_search_from(
                *field,
                block.cells@,
                3 * (y + 2),
            ),
        decreases shift_max - y,
    {
        let mut shake = Shake::new();
        let mut taken: usize = 0;
        while taken < SPAWN_COLUMNS
            invariant
                shift_max == 2,
                center == 3,
                -2 <= y < 2,
                0 <= taken <= SPAWN_COLUMNS,
                shake.wf(),
                shake.position() == taken,
                spawn_search(*field, block.cells@) == spawn_search_from(
                    *field,
                    block.cells@,
                    3 * (y + 2) + taken,
                ),
            decreases SPAWN_COLUMNS - taken,
        {
            let k: Ghost<int> = Ghost(3 * (y + 2) + taken);
            proof {
                lemma_fundamental_div_mod_converse(k@, 3, y + 2, taken as int);
            }
            let dx = shake.next().unwrap();
            let pos = pos_at(dx as i8 + center, y);
            assert(pos == spawn_candidate(k@));
            if is_arrangeable(field, block, pos) {
                return Some(pos);
            }
            taken = taken + 1;
        }
        y = y + 1;
    }
    None
}

/// Writes the occupied cells of the controlled block onto `field`, where they land on
/// empty cells only; cells that fall off the field are dropped.
pub fn place_block(controlled_block: ControlledBlock, field: Field) -> (r: Field)
    requires
        arrangeable(field, controlled_block.block.cells@, controlled_block.left_top),
    ensures
        is_placement(r, field, controlled_block.block.cells@, controlled_block.left_top),
{
    let mut out = field;
    let cells = controlled_block.block.cells;
    let ax = controlled_block.left_top.0.right_shift;
    let ay = controlled_block.left_top.1.below_shift;
    let mut by: usize = 0;
    while by < BLOCK_TABLE_SIZE
        invariant
            cells == controlled_block.block.cells,
            ax == controlled_block.left_top.sx(),
            ay == controlled_block.left_top.sy(),
            0 <= by <= BLOCK_TABLE_SIZE,
            forall|x: int, y: int|
                in_field(x, y) ==> #[trigger] out.at(x, y) == if 0 <= y - ay < by {
                    placed_at(field, cells@, controlled_block.left_top, x, y)
                } else {
                    field.at(x, y)
                },
        decreases BLOCK_TABLE_SIZE - by,
    {
        let mut bx: usize = 0;
        while bx < BLOCK_TABLE_SIZE
            invariant
                cells == controlled_block.block.cells,
                ax == controlled_block.left_top.sx(),
                ay == controlled_block.left_top.sy(),
                0 <= by < BLOCK_TABLE_SIZE,
                0 <= bx <= BLOCK_TABLE_SIZE,
                forall|x: int, y: int|
                    in_field(x, y) ==> #[trigger] out.at(x, y) == if 0 <= y - ay < by || (y - ay
                        == by && 0 <= x - ax < bx) {
                        placed_at(field, cells@, controlled_block.left_top, x, y)
                    } else {
                        field.at(x, y)
                    },
            decreases BLOCK_TABLE_SIZE - bx,
        {
            let c = cells[by * BLOCK_TABLE_SIZE + bx];
            let fx = ax as i16 + bx as i16;
            let fy = ay as i16 + by as i16;
            if !c.is_empty() && 0 <= fx && fx < FIELD_WIDTH as i16 && 0 <= fy && fy
                < FIELD_HEIGHT as i16 {
                let ghost before = out;
                out.set_at(fx as usize, fy as usize, c);
                assert forall|x: int, y: int| in_field(x, y) implies #[trigger] out.at(x, y)
                    == if 0 <= y - ay < by || (y - ay == by && 0 <= x - ax < bx + 1) {
                    placed_at(field, cells@, controlled_block.left_top, x, y)
                } else {
                    field.at(x, y)
                } by {
                    if x == fx && y == fy {
                    } else {
                        assert(field_index(x, y) != field_index(fx as int, fy as int));
                        assert(out.at(x, y) == before.at(x, y));
                    }
                }
            }
            bx = bx + 1;
        }
        by = by + 1;
    }
    out
}

/// What became of a turn after one command.
#[derive(Debug)]
pub enum GameCommandResult {
    /// The block is still under control: wait for the next command.
    WaitNextCommand(FieldUnderAgentControl),
    /// The block is locked: the field with the block written onto it, and the queue.
    ProceedAnimation(Field, BlockQueue),
}

/// A field with a block under the player's control.
#[derive(Debug)]
pub struct FieldUnderAgentControl {
    /// The cells on the field.
    pub field: Field,
    /// The block under control.
    pub controlled_block: ControlledBlock,
    /// The next blocks and the held block.
    pub block_queue: BlockQueue,
}

impl FieldUnderAgentControl {
    /// The controlled block can be placed where it is.
    pub open spec fn wf(&self) -> bool {
        can_place(self.field, self.controlled_block.block.cells@, self.controlled_block.left_top)
    }

    /// The same state with the controlled block at `p`.
    pub open spec fn with_anchor(self, p: Pos) -> FieldUnderAgentControl {
        FieldUnderAgentControl {
            field: self.field,
            controlled_block: ControlledBlock { block: self.controlled_block.block, left_top: p },
            block_queue: self.block_queue,
        }
    }

    /// The result of trying to move the controlled block to `p`: it moves there if it can
    /// be placed there, and stays otherwise.
    pub open spec fn spec_shift(self, p: Pos) -> GameCommandResult {
        if can_place(self.field, self.controlled_block.block.cells@, p) {
            GameCommandResult::WaitNextCommand(self.with_anchor(p))
        } else {
            GameCommandResult::WaitNextCommand(self)
        }
    }

    /// `r` is the turn turned into a locked placement of the controlled block at `anchor`.
    pub open spec fn is_locked_at(self, r: GameCommandResult, anchor: Pos) -> bool {
        match r {
            GameCommandResult::ProceedAnimation(f, q) => q == self.block_queue && is_placement(
                f,
                self.field,
                self.controlled_block.block.cells@,
                anchor,
            ),
            _ => false,
        }
    }

    /// `r` is the result of turning the controlled block into `turned`: the first kick
    /// candidate that can be placed, or no change if there is none.
    pub open spec fn is_turned(self, r: GameCommandResult, turned: BlockView) -> bool {
        let anchor = self.controlled_block.left_top;
        match kick_search(self.field, turned.cells, anchor) {
            Some(p) => match r {
                GameCommandResult::WaitNextCommand(s) => s.field == self.field && s.block_queue
                    == self.block_queue && s.controlled_block.block@ == turned
                    && s.controlled_block.left_top == p,
                _ => false,
            },
            None => r == GameCommandResult::WaitNextCommand(self),
        }
    }

    /// Takes the first block of the queue and puts it where it appears on `field`;
    /// `None` when it cannot appear, which ends the game.
    pub fn new<S: BlockSelector>(field: Field, block_queue: BlockQueue, selector: &mut S) -> (r:
        Option<FieldUnderAgentControl>)
        ensures
            spawn_search(field, block_queue.next_blocks.blocks@[0].cells@) is None ==> r is None,
            spawn_search(field, block_queue.next_blocks.blocks@[0].cells@) matches Some(p) ==> r
                matches Some(s) && s.wf() && s.field == field && s.controlled_block.block
                == block_queue.next_blocks.blocks@[0] && s.controlled_block.left_top == p
                && s.block_queue.hold_block == block_queue.hold_block,
    {
        let mut block_queue = block_queue;
        let block = block_queue.pop_and_fill(selector);
        match find_block_appearance_pos(&field, &block) {
            Some(pos) => {
                proof {
                    lemma_spawn_in_reach(field, block.cells@, 0);
                }
                Some(
                    FieldUnderAgentControl {
                        field,
                        controlled_block: ControlledBlock::new(block, pos),
                        block_queue,
                    },
                )
            },
            None => None,
        }
    }

    /// Applies one command of the player: a move or a turn that cannot be done changes
    /// nothing; a move down that cannot be done, and a drop, lock the block.
    pub fn apply_command(self, command: GameCommand) -> (r: GameCommandResult)
        requires
            self.wf(),
        ensures
            r matches GameCommandResult::WaitNextCommand(s) ==> s.wf(),
            command == GameCommand::Left ==> r == self.spec_shift(
                spec_pos(self.controlled_block.left_top.sx() - 1, self.controlled_block.left_top.sy()),
            ),
            command == GameCommand::Right ==> r == self.spec_shift(
                spec_pos(self.controlled_block.left_top.sx() + 1, self.controlled_block.left_top.sy()),
            ),
            command == GameCommand::Down ==> {
                let next = spec_pos(
                    self.controlled_block.left_top.sx(),
                    self.controlled_block.left_top.sy() + 1,
                );
                if can_place(self.field, self.controlled_block.block.cells@, next) {
                    r == GameCommandResult::WaitNextCommand(self.with_anchor(next))
                } else {
                    self.is_locked_at(r, self.controlled_block.left_top)
                }
            },
            command == GameCommand::Drop ==> exists|d: int|
                is_drop_distance(
                    self.field,
                    self.controlled_block.block.cells@,
                    self.controlled_block.left_top,
                    d,
                ) && self.is_locked_at(
                    r,
                    spec_pos(
                        self.controlled_block.left_top.sx(),
                        self.controlled_block.left_top.sy() + d,
                    ),
                ),
            command == GameCommand::RotateClockwise ==> self.is_turned(
                r,
                self.controlled_block.block@.rotated_clockwise(),
            ),
            command == GameCommand::RotateUnticlockwise ==> self.is_turned(
                r,
                self.controlled_block.block@.rotated_unticlockwise(),
            ),
            command == GameCommand::Hold ==> {
                let held = self.block_queue.hold_block;
                match spawn_search(self.field, held.cells@) {
                    Some(p) => r == GameCommandResult::WaitNextCommand(
                        FieldUnderAgentControl {
                            field: self.field,
                            controlled_block: ControlledBlock { block: held, left_top: p },
                            block_queue: BlockQueue {
                                next_blocks: self.block_queue.next_blocks,
                                hold_block: self.controlled_block.block,
                            },
                        },
                    ),
                    None => r == GameCommandResult::WaitNextCommand(self),
                }
            },
    {
        let anchor = self.controlled_block.left_top;
        let ax = anchor.0.right_shift;
        let ay = anchor.1.below_shift;
        match command {
            GameCommand::Right | GameCommand::Left | GameCommand::Down => {
                let next_pos = match command {
                    GameCommand::Right => pos_at(ax + 1, ay),
                    GameCommand::Left => pos_at(ax - 1, ay),
                    _ => pos_at(ax, ay + 1),
                };
                if is_placeable(&self.field, &self.controlled_block.block, next_pos) {
                    let next_state = FieldUnderAgentControl {
                        field: self.field,
                        controlled_block: ControlledBlock::new(
                            self.controlled_block.block,
                            next_pos,
                        ),
                        block_queue: self.block_queue,
                    };
                    GameCommandResult::WaitNextCommand(next_state)
                } else {
                    if command == GameCommand::Down {
                        let field = place_block(self.controlled_block, self.field);
                        GameCommandResult::ProceedAnimation(field, self.block_queue)
                    } else {
                        GameCommandResult::WaitNextCommand(self)
                    }
                }
            },
            GameCommand::Drop => {
                let mut drop_shift: i8 = 0;
                while is_placeable(
                    &self.field,
                    &self.controlled_block.block,
                    pos_at(ax, ay + drop_shift + 1),
                )
                    invariant
                        self.wf(),
                        anchor == self.controlled_block.left_top,
                        ax == anchor.sx(),
                        ay == anchor.sy(),
                        0 <= drop_shift,
                        ay + drop_shift <= 19,
                        forall|k: int|
                            1 <= k <= drop_shift ==> #[trigger] can_place(
                                self.field,
                                self.controlled_block.block.cells@,
                                spec_pos(anchor.sx(), anchor.sy() + k),
                            ),
                    decreases 19 - (ay + drop_shift),
                {
                    drop_shift = drop_shift + 1;
                }
                let final_pos = pos_at(ax, ay + drop_shift);
                proof {
                    if drop_shift == 0 {
                        assert(final_pos == anchor);
                    } else {
                        assert(can_place(
                            self.field,
                            self.controlled_block.block.cells@,
                            spec_pos(anchor.sx(), anchor.sy() + drop_shift),
                        ));
                    }
                }
                let dropped_block = ControlledBlock::new(self.controlled_block.block, final_pos);
                let field = place_block(dropped_block, self.field);
                assert(is_drop_distance(
                    self.field,
                    self.controlled_block.block.cells@,
                    anchor,
                    drop_shift as int,
                ));
                GameCommandResult::ProceedAnimation(field, self.block_queue)
            },
            GameCommand::RotateClockwise | GameCommand::RotateUnticlockwise => {
                let rotated_block = if command == GameCommand::RotateClockwise {
                    self.controlled_block.block.rotate_clockwise()
                } else {
                    self.controlled_block.block.rotate_unticlockwise()
                };
                match find_kick_pos(&self.field, &rotated_block, anchor) {
                    Some(pos) => {
                        let next_state = FieldUnderAgentControl {
                            field: self.field,
                            controlled_block: ControlledBlock::new(rotated_block, pos),
                            block_queue: self.block_queue,
                        };
                        GameCommandResult::WaitNextCommand(next_state)
                    },
                    None => GameCommandResult::WaitNextCommand(self),
                }
            },
            GameCommand::Hold => {
                let popped_block = self.block_queue.hold_block();
                match find_block_appearance_pos(&self.field, &popped_block) {
                    Some(pos) => {
                        proof {
                            lemma_spawn_in_reach(self.field, popped_block.cells@, 0);
                        }
                        let mut block_queue = self.block_queue;
                        block_queue.swap_hold_block(self.controlled_block.block);
                        let next_state = FieldUnderAgentControl {
                            field: self.field,
                            controlled_block: ControlledBlock::new(popped_block, pos),
                            block_queue,
                        };
                        GameCommandResult::WaitNextCommand(next_state)
                    },
                    None => GameCommandResult::WaitNextCommand(self),
                }
            },
        }
    }
}

/// A spawn anchor is an arrangeable anchor within reach of the field.
pub proof fn lemma_spawn_in_reach(field: Field, cells: Seq<Cell>, k: int)
    requires
        0 <= k,
    ensures
        spawn_search_from(field, cells, k) matches Some(p) ==> can_place(field, cells, p),
    decreases SPAWN_CANDIDATES - k,
{
    if k < SPAWN_CANDIDATES {
        lemma_spawn_in_reach(field, cells, k + 1);
        assert(0 <= k % 3 < 3);
        assert(0 <= k / 3 < 4);
    }
}

/// The anchor near `anchor` at which a turned `block` is put: the first kick candidate
/// where it can be placed.
pub fn find_kick_pos(field: &Field, block: &Block, anchor: Pos) -> (r: Option<Pos>)
    requires
        in_reach(anchor),
    ensures
        r == kick_search(*field, block.cells@, anchor),
        r matches Some(p) ==> can_place(*field, block.cells@, p),
{
    let ax = anchor.0.right_shift;
    let ay = anchor.1.below_shift;
    let mut shake_y = Shake::new();
    let mut j: usize = 0;
    while j < KICK_RANGE
        invariant
            in_reach(anchor),
            ax == anchor.sx(),
            ay == anchor.sy(),
            0 <= j <= KICK_RANGE,
            shake_y.wf(),
            shake_y.position() == j,
            kick_search(*field, block.cells@, anchor) == kick_search_from(
                *field,
                block.cells@,
                anchor,
                5 * j,
            ),
        decreases KICK_RANGE - j,
    {
        let dy = shake_y.next().unwrap();
        let mut shake_x = Shake::new();
        let mut i: usize = 0;
        while i < KICK_RANGE
            invariant
                in_reach(anchor),
                ax == anchor.sx(),
                ay == anchor.sy(),
                0 <= j < KICK_RANGE,
                0 <= i <= KICK_RANGE,
                -2 <= dy <= 2,
                dy == shake_value(j as nat),
                shake_x.wf(),
                shake_x.position() == i,
                kick_search(*field, block.cells@, anchor) == kick_search_from(
                    *field,
                    block.cells@,
                    anchor,
                    5 * j + i,
                ),
            decreases KICK_RANGE - i,
        {
            let k: Ghost<int> = Ghost(5 * j + i);
            proof {
                lemma_fundamental_div_mod_converse(k@, 5, j as int, i as int);
            }
            let dx = shake_x.next().unwrap();
            let pos = pos_at(ax + dx as i8, ay + dy as i8);
            assert(pos == kick_candidate(anchor, k@));
            if is_placeable(field, block, pos) {
                return Some(pos);
            }
            i = i + 1;
        }
        j = j + 1;
    }
    None
}

} // verus!
