use blast_blocks::game::agent_field::{AgentField, OperationResult};
use blast_blocks::game::animation::connect_bomb::big_bomb_positions;
use blast_blocks::game::animation::drop_cell::DropCell;
use blast_blocks::game::animation::{ConnectBomb, ConnectBombInitResult};
use blast_blocks::game::animation::explosion::{bomb_explosion_area, ExplosionPower};
use blast_blocks::game::animation::full_row::{detect_full_rows, merge_filled_rows};
use blast_blocks::game::single_play::{cascade_step, Cascade, CascadePhase};
use blast_blocks::game::animation::{
    AnimationField, AnimationFrame, AnimationResult, ChainCounter, Explosion, ExplosionInitResult,
    FullRow, PlaceBlock,
};
use blast_blocks::game::block_queue::NextBlockQueue;
use blast_blocks::game::field_under_agent_control::{
    find_block_appearance_pos, is_arrangeable, place_block,
};
use blast_blocks::game::{
    Block, BlockQueue, BlockSelector, BlockShape, BombTag, Cell, ControlledBlock, Direction, Field,
    FieldUnderAgentControl, GameCommandResult, QuadrupleBlockShape, SingleBlockShape,
};
use blast_blocks::geometry::{above, below, left, right, Pos, PosX, PosY};
use blast_blocks::user::{GameCommand, Key, MenuCommand, MenuInputMapper, SinglePlayerInputMapper};
use blast_blocks::game::Cell::{
    BigBombLowerLeft, BigBombLowerRight, BigBombUpperLeft, BigBombUpperRight, Bomb, Empty, Normal,
};

struct QuadrupleBlockGenerator {
    current_index: usize,
    bomb: BombTag,
}

impl BlockSelector for QuadrupleBlockGenerator {
    fn select_block_shape(&mut self) -> BlockShape {
        let shapes = [
            QuadrupleBlockShape::O,
            QuadrupleBlockShape::J,
            QuadrupleBlockShape::L,
            QuadrupleBlockShape::Z,
            QuadrupleBlockShape::S,
            QuadrupleBlockShape::T,
            QuadrupleBlockShape::I,
        ];
        let shape = shapes[self.current_index % shapes.len()];
        self.current_index += 1;
        shape.into()
    }

    fn select_bomb(&mut self, _: BlockShape) -> BombTag {
        self.bomb
    }
}

fn block_generator() -> QuadrupleBlockGenerator {
    QuadrupleBlockGenerator { current_index: 0, bomb: BombTag::NoBomb }
}

/// Always the long bar, every cell a bomb.
struct BombBarSelector;

impl BlockSelector for BombBarSelector {
    fn select_block_shape(&mut self) -> BlockShape {
        QuadrupleBlockShape::I.into()
    }

    fn select_bomb(&mut self, _: BlockShape) -> BombTag {
        BombTag::All
    }
}

fn at(x: i8, y: i8) -> Pos {
    Pos(PosX::right(x), PosY::below(y))
}

fn field_cell(field: &Field, x: i8, y: i8) -> Cell {
    *field.get(at(x, y)).unwrap()
}

#[test]
fn test_is_empty() {
    assert!(Empty.is_empty());
    assert!(!Normal.is_empty());
    assert!(!Bomb.is_empty());
    assert!(!BigBombUpperLeft.is_empty());
    assert!(!BigBombUpperRight.is_empty());
    assert!(!BigBombLowerLeft.is_empty());
    assert!(!BigBombLowerRight.is_empty());
}

#[test]
fn cell_is_explodable() {
    assert!(Bomb.is_explodable());
    assert!(BigBombUpperLeft.is_explodable());
    assert!(!BigBombLowerRight.is_explodable());
    assert!(!Normal.is_explodable());
    assert!(!Empty.is_explodable());
}

#[test]
fn test_empty() {
    let field = Field::empty();
    for &cell in field.cells.iter() {
        assert_eq!(Cell::Empty, cell);
    }
}

#[test]
fn test_width() {
    let field = Field::empty();
    assert_eq!(10, field.width());
}

#[test]
fn test_height() {
    let field = Field::empty();
    assert_eq!(20, field.height());
}

#[test]
fn field_test_get() {
    let field = Field::empty();
    let p = Pos::origin();
    assert_eq!(Some(&Cell::Empty), field.get(p));
    let upper_right = p + right(10 - 1);
    assert_eq!(Some(&Cell::Empty), field.get(upper_right));
    let lower_left = p + below(20 - 1);
    assert_eq!(Some(&Cell::Empty), field.get(lower_left));
    let lower_right = p + right(10 - 1) + below(20 - 1);
    assert_eq!(Some(&Cell::Empty), field.get(lower_right));

    assert!(field.get(p + right(10)).is_none());
    assert!(field.get(p + left(1)).is_none());
    assert!(field.get(p + below(20)).is_none());
    assert!(field.get(p + above(1)).is_none());
}

#[test]
fn field_test_get_mut() {
    let mut field = Field::empty();
    let p = Pos::origin();
    *field.get_mut(p).unwrap() = Cell::Normal;
    assert_eq!(Some(&Cell::Normal), field.get(p));
    let upper_right = p + right(10 - 1);
    *field.get_mut(upper_right).unwrap() = Cell::Bomb;
    assert_eq!(Some(&Cell::Bomb), field.get(upper_right));
    let lower_left = p + below(20 - 1);
    *field.get_mut(lower_left).unwrap() = Cell::BigBombUpperLeft;
    assert_eq!(Some(&Cell::BigBombUpperLeft), field.get(lower_left));
    let lower_right = p + right(10 - 1) + below(20 - 1);
    *field.get_mut(lower_right).unwrap() = Cell::BigBombLowerRight;
    assert_eq!(Some(&Cell::BigBombLowerRight), field.get(lower_right));

    assert!(field.get_mut(p + right(10)).is_none());
    assert!(field.get_mut(p + left(1)).is_none());
    assert!(field.get_mut(p + below(20)).is_none());
    assert!(field.get_mut(p + above(1)).is_none());
}

#[test]
fn field_set_reports_off_field_positions() {
    let mut field = Field::empty();
    assert!(field.set(Pos::origin(), Cell::Normal));
    assert_eq!(Some(&Cell::Normal), field.get(Pos::origin()));
    assert!(!field.set(Pos::origin() + left(1), Cell::Normal));
    assert!(!field.set(Pos::origin() + below(20), Cell::Normal));
}

#[test]
fn test_row() {
    let field = Field::empty();

    let upper_row = field.row(PosY::origin()).unwrap();
    assert_eq!(PosY::origin(), upper_row.y());
    assert_eq!(10, upper_row.len());

    let lower_row = field.row(PosY::below(20 - 1)).unwrap();
    assert_eq!(PosY::below(20 - 1), lower_row.y());
    assert_eq!(10, lower_row.len());

    assert!(field.row(PosY::origin() + above(1)).is_none());
    assert!(field.row(PosY::origin() + below(20)).is_none());
}

#[test]
fn test_rows() {
    let field = Field::empty();
    let rows = field.rows();
    assert_eq!(20, rows.len());

    for (i, row) in rows.into_iter().enumerate() {
        let y = PosY::below(i as i8);
        assert_eq!(y, row.y());
        let row2 = field.row(y).unwrap();
        assert_eq!(row2, row);
    }
}

fn o_block(bomb_tag: BombTag) -> Block {
    Block::new(QuadrupleBlockShape::O.into(), Direction::Above, bomb_tag)
}

#[test]
fn test_cells_without_bomb() {
    let block = o_block(BombTag::NoBomb);
    assert_eq!([Empty; 5], block.cells[0..5]);
    assert_eq!([Empty, Empty, Normal, Normal, Empty], block.cells[5..10]);
    assert_eq!([Empty, Empty, Normal, Normal, Empty], block.cells[10..15]);
    assert_eq!([Empty; 5], block.cells[15..20]);
    assert_eq!([Empty; 5], block.cells[20..25]);
}

#[test]
fn test_cells_all_bomb() {
    let block = o_block(BombTag::All);
    assert_eq!([Empty; 5], block.cells[0..5]);
    assert_eq!([Empty, Empty, Bomb, Bomb, Empty], block.cells[5..10]);
    assert_eq!([Empty, Empty, Bomb, Bomb, Empty], block.cells[10..15]);
    assert_eq!([Empty; 5], block.cells[15..20]);
    assert_eq!([Empty; 5], block.cells[20..25]);
}

#[test]
fn test_cells_single_bomb() {
    let block = o_block(BombTag::Single(1));
    assert_eq!([Empty; 5], block.cells[0..5]);
    assert_eq!([Empty, Empty, Normal, Bomb, Empty], block.cells[5..10]);
    assert_eq!([Empty, Empty, Normal, Normal, Empty], block.cells[10..15]);
    assert_eq!([Empty; 5], block.cells[15..20]);
    assert_eq!([Empty; 5], block.cells[20..25]);
}

#[test]
fn test_iter_pos_and_occupied_cell() {
    let block = o_block(BombTag::Single(1));
    let mut iter = block.iter_pos_and_occupied_cell().into_iter();
    assert_eq!((at(2, 1), Cell::Normal), iter.next().unwrap());
    assert_eq!((at(3, 1), Cell::Bomb), iter.next().unwrap());
    assert_eq!((at(2, 2), Cell::Normal), iter.next().unwrap());
    assert_eq!((at(3, 2), Cell::Normal), iter.next().unwrap());
    assert!(iter.next().is_none());
}

#[test]
fn block_iter_pos_and_cell() {
    let block = o_block(BombTag::NoBomb);
    let all = block.iter_pos_and_cell();
    assert_eq!(25, all.len());
    assert_eq!((at(0, 0), Cell::Empty), all[0]);
    assert_eq!((at(2, 1), Cell::Normal), all[7]);
    assert_eq!((at(4, 4), Cell::Empty), all[24]);
}

#[test]
fn test_rotate_clockwise() {
    let block = o_block(BombTag::Single(1)).rotate_clockwise();
    assert_eq!(Direction::Above.rotate_clockwise(), block.direction);
    assert_eq!(BombTag::Single(1), block.bomb_tag);
    assert_eq!([Empty; 5], block.cells[0..5]);
    assert_eq!([Empty, Empty, Normal, Normal, Empty], block.cells[5..10]);
    assert_eq!([Empty, Empty, Normal, Bomb, Empty], block.cells[10..15]);
    assert_eq!([Empty; 5], block.cells[15..20]);
    assert_eq!([Empty; 5], block.cells[20..25]);
}

#[test]
fn test_rotate_unticlockwise() {
    let block = o_block(BombTag::Single(1)).rotate_unticlockwise();
    assert_eq!(Direction::Above.rotate_unticlockwise(), block.direction);
    assert_eq!(BombTag::Single(1), block.bomb_tag);
    assert_eq!([Empty; 5], block.cells[0..5]);
    assert_eq!([Empty, Empty, Bomb, Normal, Empty], block.cells[5..10]);
    assert_eq!([Empty, Empty, Normal, Normal, Empty], block.cells[10..15]);
    assert_eq!([Empty; 5], block.cells[15..20]);
    assert_eq!([Empty; 5], block.cells[20..25]);
}

#[test]
fn rotating_four_times_gives_the_same_block() {
    let t = Block::new(QuadrupleBlockShape::T.into(), Direction::Above, BombTag::Single(2));
    let cw = t.rotate_clockwise().rotate_clockwise().rotate_clockwise().rotate_clockwise();
    assert_eq!(t, cw);
    let ccw = t
        .rotate_unticlockwise()
        .rotate_unticlockwise()
        .rotate_unticlockwise()
        .rotate_unticlockwise();
    assert_eq!(t, ccw);
}

#[test]
fn rotation_directions_agree() {
    let l = Block::new(QuadrupleBlockShape::L.into(), Direction::Above, BombTag::NoBomb);
    assert_eq!(
        l.rotate_clockwise().rotate_clockwise(),
        l.rotate_unticlockwise().rotate_unticlockwise()
    );
    assert_eq!(
        l.rotate_clockwise().rotate_clockwise().rotate_clockwise(),
        l.rotate_unticlockwise()
    );
    assert_eq!(
        l.rotate_unticlockwise().rotate_unticlockwise().rotate_unticlockwise(),
        l.rotate_clockwise()
    );
}

#[test]
fn block_shape_cell_counts() {
    assert_eq!(1, BlockShape::from(SingleBlockShape::O).non_empty_cell_count());
    assert_eq!(4, BlockShape::from(QuadrupleBlockShape::Z).non_empty_cell_count());
    let default = Block::default();
    assert_eq!(1, default.iter_pos_and_occupied_cell().len());
    assert_eq!(5, default.cell_table_size());
}

#[test]
fn generated_block_is_upright() {
    let b = block_generator().generate_block();
    assert_eq!(o_block(BombTag::NoBomb), b);
}

#[test]
fn block_queue_test_fill() {
    let queue = NextBlockQueue::fill(&mut block_generator());
    let mut generator = block_generator();
    for &b in queue.blocks.iter() {
        assert_eq!(generator.generate_block(), b);
    }
}

#[test]
fn block_queue_test_pop_and_fill() {
    let mut generator = block_generator();
    let mut queue = NextBlockQueue::fill(&mut generator);
    let popped1 = queue.pop_and_fill(&mut generator);
    let popped2 = queue.pop_and_fill(&mut generator);

    let mut generator = block_generator();
    assert_eq!(generator.generate_block(), popped1);
    assert_eq!(generator.generate_block(), popped2);
    for &b in queue.blocks.iter() {
        assert_eq!(generator.generate_block(), b);
    }
}

#[test]
fn agent_field_test_fill() {
    let queue = NextBlockQueue::fill(&mut block_generator());
    let mut generator = block_generator();
    for &b in queue.blocks.iter() {
        assert_eq!(generator.generate_block(), b);
    }
}

#[test]
fn agent_field_test_pop_and_fill() {
    let mut generator = block_generator();
    let mut queue = NextBlockQueue::fill(&mut generator);
    let popped1 = queue.pop_and_fill(&mut generator);
    let popped2 = queue.pop_and_fill(&mut generator);
    let mut generator = block_generator();
    assert_eq!(generator.generate_block(), popped1);
    assert_eq!(generator.generate_block(), popped2);
    for &b in queue.blocks.iter() {
        assert_eq!(generator.generate_block(), b);
    }
}

#[test]
fn block_queue_hold_and_swap() {
    let mut generator = block_generator();
    let mut queue = BlockQueue::new(&mut generator);
    let held = queue.hold_block();
    let first = queue.pop_and_fill(&mut generator);
    let previous = queue.swap_hold_block(first);
    assert_eq!(held, previous);
    assert_eq!(first, queue.hold_block());
}

fn check_is_arrangeable_empty_field() {
    let f = Field::empty();
    let b = block_generator().generate_block();
    let o = Pos::origin();
    assert!(is_arrangeable(&f, &b, o + left(2) + above(1)));
    assert!(!is_arrangeable(&f, &b, o + left(2) + above(2)));
    assert!(!is_arrangeable(&f, &b, o + left(3) + above(1)));
    assert!(is_arrangeable(&f, &b, o + right(6) + below(17)));
    assert!(!is_arrangeable(&f, &b, o + right(6) + below(18)));
    assert!(!is_arrangeable(&f, &b, o + right(7) + below(17)));
}

fn check_is_arrangeable_non_empty_field() {
    let f = {
        let mut field = Field::empty();
        field.set(Pos::origin(), Cell::Normal);
        field
    };
    let b = block_generator().generate_block();
    let o = Pos::origin();
    assert!(!is_arrangeable(&f, &b, o + left(2) + above(1)));
    assert!(is_arrangeable(&f, &b, o + left(1) + above(1)));
    assert!(is_arrangeable(&f, &b, o + left(2) + above(0)));
}

fn filled_field() -> Field {
    let mut field = Field::empty();
    for y in 0..field.height() {
        for x in 0..field.width() {
            let p = Pos::origin() + right(x as i8) + below(y as i8);
            field.set(p, Cell::Normal);
        }
    }
    field
}

fn check_is_arrangeable_filled_field() {
    let f = filled_field();
    let b = block_generator().generate_block();
    let o = Pos::origin();
    assert!(!is_arrangeable(&f, &b, o + left(2) + above(1)));
    assert!(!is_arrangeable(&f, &b, o + left(1) + above(1)));
    assert!(!is_arrangeable(&f, &b, o + left(2) + above(0)));
    assert!(!is_arrangeable(&f, &b, o + right(6) + below(17)));
}

#[test]
fn agent_field_test_is_arrangeable_empty_field() {
    check_is_arrangeable_empty_field();
}

#[test]
fn agent_field_test_is_arrangeable_non_empty_field() {
    check_is_arrangeable_non_empty_field();
}

#[test]
fn agent_field_test_is_arrangeable_filled_field() {
    check_is_arrangeable_filled_field();
}

#[test]
fn field_under_agent_control_test_is_arrangeable_empty_field() {
    check_is_arrangeable_empty_field();
}

#[test]
fn field_under_agent_control_test_is_arrangeable_non_empty_field() {
    check_is_arrangeable_non_empty_field();
}

#[test]
fn field_under_agent_control_test_is_arrangeable_filled_field() {
    check_is_arrangeable_filled_field();
}

#[test]
fn spawn_search_is_deterministic_and_central() {
    let field = Field::empty();
    let block = o_block(BombTag::NoBomb);
    let first = find_block_appearance_pos(&field, &block);
    let second = find_block_appearance_pos(&field, &block);
    assert_eq!(first, second);
    assert_eq!(Some(at(3, -1)), first);
}

#[test]
fn spawn_search_fails_on_a_full_field() {
    let field = filled_field();
    assert_eq!(None, find_block_appearance_pos(&field, &o_block(BombTag::NoBomb)));
}

#[test]
fn place_block_writes_the_block() {
    let field = Field::empty();
    let cb = ControlledBlock::new(o_block(BombTag::All), at(0, 17));
    let placed = place_block(cb, field);
    assert_eq!(Cell::Bomb, field_cell(&placed, 2, 18));
    assert_eq!(Cell::Bomb, field_cell(&placed, 3, 19));
    assert_eq!(Cell::Empty, field_cell(&placed, 1, 18));
}

#[test]
fn controlled_block_moves_and_turns() {
    let cb = ControlledBlock::new(o_block(BombTag::NoBomb), at(3, 0));
    let moved = cb.move_by(blast_blocks::geometry::Movement(right(1), below(2)));
    assert_eq!(at(4, 2), moved.left_top);
    let cells = moved.iter_pos_and_occupied_cell();
    assert_eq!((at(6, 3), Cell::Normal), cells[0]);
    assert_eq!(cb.rotate_clockwise().block, cb.block.rotate_clockwise());
    assert_eq!(cb.rotate_unticlockwise().left_top, cb.left_top);
}

fn apply(state: FieldUnderAgentControl, command: GameCommand) -> GameCommandResult {
    state.apply_command(command)
}

fn waiting(result: GameCommandResult) -> FieldUnderAgentControl {
    match result {
        GameCommandResult::WaitNextCommand(s) => s,
        GameCommandResult::ProceedAnimation(_, _) => panic!("the block was locked"),
    }
}

#[test]
fn bomb_bar_dropped_at_the_left_wall() {
    let mut selector = BombBarSelector;
    let queue = BlockQueue::new(&mut selector);
    let mut state = FieldUnderAgentControl::new(Field::empty(), queue, &mut selector).unwrap();
    state = waiting(apply(state, GameCommand::RotateClockwise));
    for _ in 0..10 {
        state = waiting(apply(state, GameCommand::Left));
    }
    let (field, queue) = match apply(state, GameCommand::Drop) {
        GameCommandResult::ProceedAnimation(f, q) => (f, q),
        GameCommandResult::WaitNextCommand(_) => panic!("a drop locks the block"),
    };
    let occupied = field.cells.iter().filter(|c| !c.is_empty()).count();
    assert_eq!(4, occupied);
    for y in 16..20 {
        assert_eq!(Cell::Bomb, field_cell(&field, 0, y));
    }
    let full = FullRow::new(AnimationField::new(field, queue), &[]);
    assert!(full.filled_row_ys.is_empty());
    match Explosion::try_init(full.field, &full.filled_row_ys, ChainCounter::new()) {
        ExplosionInitResult::Stay(_) => {}
        ExplosionInitResult::Explodes(_) => panic!("no full row, no explosion"),
    }
    assert_eq!(0, ChainCounter::new().current_chain());
}

#[test]
fn moving_down_locks_at_the_bottom() {
    let mut selector = block_generator();
    let queue = BlockQueue::new(&mut selector);
    let mut state = FieldUnderAgentControl::new(Field::empty(), queue, &mut selector).unwrap();
    let mut locked = None;
    for _ in 0..30 {
        match apply(state, GameCommand::Down) {
            GameCommandResult::WaitNextCommand(s) => state = s,
            GameCommandResult::ProceedAnimation(f, _) => {
                locked = Some(f);
                break;
            }
        }
    }
    let field = locked.unwrap();
    assert_eq!(Cell::Normal, field_cell(&field, 5, 19));
    assert_eq!(Cell::Normal, field_cell(&field, 6, 18));
    assert_eq!(Cell::Empty, field_cell(&field, 4, 19));
}

#[test]
fn hold_exchanges_blocks() {
    let mut selector = block_generator();
    let queue = BlockQueue::new(&mut selector);
    let state = FieldUnderAgentControl::new(Field::empty(), queue, &mut selector).unwrap();
    let before = state.controlled_block.block;
    let held = state.block_queue.hold_block();
    let state = waiting(apply(state, GameCommand::Hold));
    assert_eq!(held, state.controlled_block.block);
    assert_eq!(before, state.block_queue.hold_block());
}

#[test]
fn agent_field_operations() {
    let mut selector = block_generator();
    let agent = AgentField::new(&mut selector);
    let x = agent.current_block_pos.0.right_shift;
    let (agent, r) = agent.move_block_to_left();
    assert_eq!(OperationResult::Done, r);
    assert_eq!(x - 1, agent.current_block_pos.0.right_shift);
    let (agent, r) = agent.move_block_to_right();
    assert_eq!(OperationResult::Done, r);
    let (agent, r) = agent.move_block_down();
    assert_eq!(OperationResult::Done, r);
    let (agent, r) = agent.drop_block();
    assert_eq!(OperationResult::Done, r);
    assert_eq!(17, agent.current_block_pos.1.below_shift);
    let (agent, r) = agent.move_block_down();
    assert_eq!(OperationResult::Stay, r);
    let (agent, r) = agent.rotate_block_clockwise();
    assert_eq!(OperationResult::Done, r);
    let (agent, r) = agent.rotate_block_unticlockwise();
    assert_eq!(OperationResult::Done, r);
    let (_agent, r) = agent.hold_block();
    assert_eq!(OperationResult::Done, r);
}

fn bottom_row_with_bomb_at_left() -> Field {
    let mut field = Field::empty();
    for x in 0..10 {
        field.set(at(x, 19), Cell::Normal);
    }
    field.set(at(0, 19), Cell::Bomb);
    field
}

fn queue() -> BlockQueue {
    BlockQueue::new(&mut block_generator())
}

#[test]
fn full_row_then_explosion_clears_the_blast() {
    let field = bottom_row_with_bomb_at_left();
    let rows = detect_full_rows(&field, &[]);
    assert_eq!(vec![PosY::below(19)], rows);
    let explosion = match Explosion::try_init(AnimationField::new(field, queue()), &rows, ChainCounter::new()) {
        ExplosionInitResult::Explodes(e) => e,
        ExplosionInitResult::Stay(_) => panic!("the bomb lies in a full row"),
    };
    let exploded: Vec<usize> = (0..200).filter(|&i| explosion.exploded_cell_positions[i]).collect();
    assert_eq!(vec![190, 191, 192, 193], exploded);
    let mut state = explosion;
    let (result, chain) = loop {
        match state.wait_next() {
            AnimationResult::InProgress(next) => state = next,
            AnimationResult::Finished(done) => break done,
        }
    };
    for x in 0..4 {
        assert_eq!(Cell::Empty, field_cell(&result.field, x, 19));
    }
    for x in 4..10 {
        assert_eq!(Cell::Normal, field_cell(&result.field, x, 19));
    }
    assert_eq!(1, chain.current_chain());
}

#[test]
fn caught_bomb_explodes_in_a_second_wave() {
    let mut field = Field::empty();
    for y in 18..20 {
        for x in 0..10 {
            field.set(at(x, y), Cell::Normal);
        }
    }
    field.set(at(0, 18), Cell::Bomb);
    field.set(at(2, 17), Cell::Bomb);
    field.set(at(5, 15), Cell::Normal);
    field.set(at(6, 15), Cell::Normal);
    let rows = detect_full_rows(&field, &[]);
    assert_eq!(vec![PosY::below(18), PosY::below(19)], rows);
    let mut state = match Explosion::try_init(AnimationField::new(field, queue()), &rows, ChainCounter::new()) {
        ExplosionInitResult::Explodes(e) => e,
        ExplosionInitResult::Stay(_) => panic!("the bomb lies in a full row"),
    };
    let (result, chain) = loop {
        match state.wait_next() {
            AnimationResult::InProgress(next) => state = next,
            AnimationResult::Finished(done) => break done,
        }
    };
    assert_eq!(Cell::Empty, field_cell(&result.field, 2, 17));
    assert_eq!(Cell::Empty, field_cell(&result.field, 5, 15));
    assert_eq!(Cell::Normal, field_cell(&result.field, 6, 15));
    assert_eq!(Cell::Empty, field_cell(&result.field, 4, 19));
    assert_eq!(Cell::Normal, field_cell(&result.field, 6, 19));
    assert_eq!(2, chain.current_chain());
}

#[test]
fn no_explosion_without_bomb() {
    let mut field = Field::empty();
    for x in 0..10 {
        field.set(at(x, 19), Cell::Normal);
    }
    let rows = detect_full_rows(&field, &[]);
    match Explosion::try_init(AnimationField::new(field, queue()), &rows, ChainCounter::new()) {
        ExplosionInitResult::Stay(f) => assert_eq!(Cell::Normal, field_cell(&f.field, 0, 19)),
        ExplosionInitResult::Explodes(_) => panic!("nothing can explode"),
    }
}

#[test]
fn detector_suppresses_the_same_rows() {
    let field = bottom_row_with_bomb_at_left();
    let first = detect_full_rows(&field, &[]);
    assert_eq!(vec![PosY::below(19)], first);
    let second = detect_full_rows(&field, &first);
    assert!(second.is_empty());
}

#[test]
fn full_row_animation_frames() {
    let field = bottom_row_with_bomb_at_left();
    let full = FullRow::new(AnimationField::new(field, queue()), &[]);
    assert_eq!(10, full.frame.end_frame());
    let empty = FullRow::new(AnimationField::new(Field::empty(), queue()), &[]);
    assert_eq!(0, empty.frame.end_frame());
    match empty.wait_next() {
        AnimationResult::Finished((_, ys)) => assert!(ys.is_empty()),
        AnimationResult::InProgress(_) => panic!("no frame to show"),
    }
}

#[test]
fn blast_sizes_grow_with_power() {
    let chain = ChainCounter::new();
    let small = bomb_explosion_area(ExplosionPower::new(1, &chain), at(5, 10));
    let large = bomb_explosion_area(ExplosionPower::new(12, &chain), at(5, 10));
    assert_eq!(at(2, 10), small.left_top);
    assert_eq!(7, (small.size.0).0);
    assert_eq!(1, (small.size.1).0);
    assert_eq!(15, (large.size.0).0);
    assert_eq!(15, (large.size.1).0);
}

#[test]
fn chain_counter_counts() {
    let c = ChainCounter::new();
    assert_eq!(0, c.current_chain());
    assert_eq!(2, c.next().next().current_chain());
}

#[test]
fn animation_frame_runs_to_its_end() {
    let f = AnimationFrame::with_frame_count(2);
    assert_eq!(0, f.current_frame());
    assert_eq!(2, f.end_frame());
    let f = f.wait_next().unwrap();
    let f = f.wait_next().unwrap();
    assert_eq!(2, f.current_frame());
    assert!(f.wait_next().is_none());
}

#[test]
fn place_block_animation_keeps_the_field() {
    let mut p = PlaceBlock::new(AnimationField::new(bottom_row_with_bomb_at_left(), queue()));
    let mut steps = 0;
    let done = loop {
        match p.wait_next() {
            AnimationResult::InProgress(next) => {
                p = next;
                steps += 1;
            }
            AnimationResult::Finished(f) => break f,
        }
    };
    assert_eq!(5, steps);
    assert_eq!(Cell::Bomb, field_cell(&done.field, 0, 19));
}

#[test]
fn floating_cells_fall_until_they_rest() {
    let mut field = Field::empty();
    field.set(at(0, 19), Cell::Normal);
    field.set(at(5, 3), Cell::Normal);
    field.set(at(5, 2), Cell::Bomb);
    field.set(at(0, 18), Cell::Normal);
    let mut drop = DropCell::new(AnimationField::new(field, queue()));
    let mut steps = 0;
    let settled = loop {
        match drop.wait_next() {
            AnimationResult::InProgress(next) => {
                drop = next;
                steps += 1;
                assert!(steps <= 20);
            }
            AnimationResult::Finished(f) => break f,
        }
    };
    assert_eq!(16, steps);
    assert_eq!(Cell::Normal, field_cell(&settled.field, 5, 19));
    assert_eq!(Cell::Bomb, field_cell(&settled.field, 5, 18));
    assert_eq!(Cell::Normal, field_cell(&settled.field, 0, 18));
    assert_eq!(Cell::Empty, field_cell(&settled.field, 5, 3));
}

#[test]
fn bomb_squares_become_big_bombs() {
    let mut field = Field::empty();
    for (x, y) in [(2, 18), (3, 18), (2, 19), (3, 19)] {
        field.set(at(x, y), Cell::Bomb);
    }
    field.set(at(7, 19), Cell::Bomb);
    let mut c = match ConnectBomb::new(AnimationField::new(field, queue())) {
        ConnectBombInitResult::Connects(c) => c,
        ConnectBombInitResult::Stay(_) => panic!("there is a square of bombs"),
    };
    assert_eq!(vec![at(2, 18)], c.new_big_bomb_upper_left_positions);
    let mut steps = 0;
    let done = loop {
        match c.wait_next() {
            AnimationResult::InProgress(next) => {
                c = next;
                steps += 1;
            }
            AnimationResult::Finished(f) => break f,
        }
    };
    assert_eq!(17, steps);
    assert_eq!(Cell::BigBombUpperLeft, field_cell(&done.field, 2, 18));
    assert_eq!(Cell::BigBombUpperRight, field_cell(&done.field, 3, 18));
    assert_eq!(Cell::BigBombLowerLeft, field_cell(&done.field, 2, 19));
    assert_eq!(Cell::BigBombLowerRight, field_cell(&done.field, 3, 19));
    assert_eq!(Cell::Bomb, field_cell(&done.field, 7, 19));
    assert_eq!([at(2, 18), at(3, 18), at(2, 19), at(3, 19)], big_bomb_positions(at(2, 18)));
}

#[test]
fn no_bomb_square_stays() {
    match ConnectBomb::new(AnimationField::new(bottom_row_with_bomb_at_left(), queue())) {
        ConnectBombInitResult::Stay(f) => assert_eq!(Cell::Bomb, field_cell(&f.field, 0, 19)),
        ConnectBombInitResult::Connects(_) => panic!("no square of bombs"),
    }
}

#[test]
fn keys_map_to_commands() {
    use_keys();
}

fn use_keys() {
    let game = SinglePlayerInputMapper;
    assert_eq!(Some(GameCommand::RotateUnticlockwise), game.map(Key::Char('z')));
    assert_eq!(Some(GameCommand::RotateClockwise), game.map(Key::Char('x')));
    assert_eq!(Some(GameCommand::Hold), game.map(Key::Char('c')));
    assert_eq!(Some(GameCommand::Drop), game.map(Key::ArrowUp));
    assert_eq!(Some(GameCommand::Down), game.map(Key::ArrowDown));
    assert_eq!(None, game.map(Key::Char('q')));
    let menu = MenuInputMapper;
    assert_eq!(Some(MenuCommand::Proceed), menu.map(Key::Char('z')));
    assert_eq!(Some(MenuCommand::Up), menu.map(Key::ArrowUp));
    assert_eq!(None, menu.map(Key::Other));
}

#[test]
fn detector_compares_rows_as_sets() {
    let mut field = Field::empty();
    for y in 18..20 {
        for x in 0..10 {
            field.set(at(x, y), Cell::Normal);
        }
    }
    let reordered = [PosY::below(19), PosY::below(18)];
    assert!(detect_full_rows(&field, &reordered).is_empty());
    let other = [PosY::below(19)];
    assert_eq!(vec![PosY::below(18), PosY::below(19)], detect_full_rows(&field, &other));
}

#[test]
fn merged_rows_are_sorted_and_unique() {
    let merged = merge_filled_rows(
        &[PosY::below(19), PosY::below(3)],
        &[PosY::below(3), PosY::below(17)],
    );
    assert_eq!(vec![PosY::below(3), PosY::below(17), PosY::below(19)], merged);
}

#[test]
fn turning_keeps_shape_and_bombs_and_changes_direction() {
    let mut selector = block_generator();
    let queue = BlockQueue::new(&mut selector);
    let state = FieldUnderAgentControl::new(Field::empty(), queue, &mut selector).unwrap();
    let before = state.controlled_block.block;
    let state = waiting(apply(state, GameCommand::RotateClockwise));
    assert_eq!(before.rotate_clockwise(), state.controlled_block.block);
    assert_eq!(Direction::Right, state.controlled_block.block.direction);
}

fn run_cascade(mut cascade: Cascade) -> Cascade {
    let mut ticks = 0;
    while !cascade.is_settled() {
        cascade = cascade_step(cascade);
        ticks += 1;
        assert!(ticks < 10_000);
    }
    cascade
}

#[test]
fn cascade_explodes_drops_and_settles() {
    let mut field = bottom_row_with_bomb_at_left();
    field.set(at(6, 17), Cell::Normal);
    let cascade = run_cascade(Cascade::start(field, queue(), &[]));
    assert_eq!(1, cascade.chain.current_chain());
    assert!(cascade.filled_row_ys.is_empty());
    match cascade.phase {
        CascadePhase::Settled(f) => {
            assert_eq!(Cell::Empty, field_cell(&f.field, 0, 19));
            assert_eq!(Cell::Normal, field_cell(&f.field, 6, 18));
            assert_eq!(Cell::Empty, field_cell(&f.field, 6, 17));
        }
        _ => panic!("the cascade settled"),
    }
}

#[test]
fn cascade_without_bomb_remembers_full_rows() {
    let mut field = Field::empty();
    for x in 0..10 {
        field.set(at(x, 19), Cell::Normal);
    }
    let cascade = run_cascade(Cascade::start(field, queue(), &[PosY::below(2)]));
    assert_eq!(vec![PosY::below(2), PosY::below(19)], cascade.filled_row_ys);
    assert_eq!(0, cascade.chain.current_chain());
    let again = run_cascade(Cascade::start(
        match cascade.phase {
            CascadePhase::Settled(f) => f.field,
            _ => panic!("the cascade settled"),
        },
        queue(),
        &[PosY::below(19)],
    ));
    assert_eq!(vec![PosY::below(19)], again.filled_row_ys);
}

#[test]
fn blocks_have_as_many_cells_as_their_shape_in_every_orientation() {
    let shapes: [BlockShape; 4] = [
        SingleBlockShape::O.into(),
        QuadrupleBlockShape::T.into(),
        QuadrupleBlockShape::I.into(),
        BlockShape::Quintuple(blast_blocks::game::QuintupleBlockShape::Star),
    ];
    for shape in shapes {
        let mut b = Block::new(shape, Direction::Above, BombTag::All);
        for _ in 0..4 {
            assert_eq!(shape.non_empty_cell_count(), b.iter_pos_and_occupied_cell().len());
            b = b.rotate_clockwise();
        }
    }
}

#[test]
fn agent_field_starts_with_a_block_under_control() {
    let agent = AgentField::new(&mut block_generator());
    assert_eq!(at(3, -1), agent.current_block_pos);
    assert_eq!(o_block(BombTag::NoBomb), agent.current_block);
}
