use vstd::prelude::*;
use crate::game::animation::{AnimationField, AnimationFrame, AnimationResult};
use crate::game::cell::Cell;
use crate::game::field::{field_index, in_field, Field, FIELD_CELLS, FIELD_HEIGHT, FIELD_WIDTH};
use vstd::arithmetic::div_mod::lemma_fundamental_div_mod_converse;

verus! {

/// The cell at `(x, y)` of a grid of field cells, row-major.
pub open spec fn grid_at(g: Seq<Cell>, x: int, y: int) -> Cell {
    g[field_index(x, y)]
}

/// An occupied cell on the field.
pub open spec fn occupied(g: Seq<Cell>, x: int, y: int) -> bool {
    in_field(x, y) && grid_at(g, x, y) != Cell::Empty
}

/// `(x, y)` is joined to an occupied cell of the bottom row by a path of at most `n`
/// steps between side-adjacent occupied cells.
pub open spec fn supported_within(g: Seq<Cell>, x: int, y: int, n: nat) -> bool
    decreases n,
{
    occupied(g, x, y) && (y == FIELD_HEIGHT - 1 || (n > 0 && (supported_within(
        g,
        x + 1,
        y,
        (n - 1) as nat,
    ) || supported_within(g, x - 1, y, (n - 1) as nat) || supported_within(
        g,
        x,
        y + 1,
        (n - 1) as nat,
    ) || supported_within(g, x, y - 1, (n - 1) as nat))))
}

/// `(x, y)` rests on the bottom row through occupied cells: the flood fill from the
/// occupied cells of the bottom row reaches it.
pub open spec fn supported(g: Seq<Cell>, x: int, y: int) -> bool {
    exists|n: nat| supported_within(g, x, y, n)
}

/// An occupied cell that nothing holds up.
pub open spec fn floating(g: Seq<Cell>, x: int, y: int) -> bool {
    occupied(g, x, y) && !supported(g, x, y)
}

/// The floating cells, row-major.
pub open spec fn spec_floating(g: Seq<Cell>) -> Seq<bool> {
    Seq::new(
        FIELD_CELLS as nat,
        |i: int| floating(g, i % FIELD_WIDTH as int, i / FIELD_WIDTH as int),
    )
}

/// The cell at `(x, y)` after every floating cell moves one row down.
pub open spec fn dropped_at(g: Seq<Cell>, x: int, y: int) -> Cell {
    if y >= 1 && floating(g, x, y - 1) {
        grid_at(g, x, y - 1)
    } else if floating(g, x, y) {
        Cell::Empty
    } else {
        grid_at(g, x, y)
    }
}

/// The grid after one gravity step.
pub open spec fn gravity_step(g: Seq<Cell>) -> Seq<Cell> {
    Seq::new(
        FIELD_CELLS as nat,
        |i: int| dropped_at(g, i % FIELD_WIDTH as int, i / FIELD_WIDTH as int),
    )
}

/// Number of `true` among the first `n` entries.
pub open spec fn count_true(s: Seq<bool>, n: int) -> nat
    decreases n,
{
    if n <= 0 {
        0
    } else {
        count_true(s, n - 1) + if s[n - 1] {
            1nat
        } else {
            0nat
        }
    }
}

proof fn lemma_count_bound(s: Seq<bool>, n: int)
    requires
        0 <= n,
    ensures
        count_true(s, n) <= n,
    decreases n,
{
    if n > 0 {
        lemma_count_bound(s, n - 1);
    }
}

/// Growing a set of flags makes the count grow; adding a flag makes it grow strictly.
proof fn lemma_count_grows(a: Seq<bool>, b: Seq<bool>, n: int)
    requires
        0 <= n,
        forall|i: int| 0 <= i < n && a[i] ==> b[i],
    ensures
        count_true(a, n) <= count_true(b, n),
        (exists|i: int| 0 <= i < n && !a[i] && b[i]) ==> count_true(a, n) < count_true(b, n),
    decreases n,
{
    if n > 0 {
        lemma_count_grows(a, b, n - 1);
        if exists|i: int| 0 <= i < n && !a[i] && b[i] {
            let i = choose|i: int| 0 <= i < n && !a[i] && b[i];
            if i < n - 1 {
                assert(exists|j: int| 0 <= j < n - 1 && !a[j] && b[j]);
            }
        }
    }
}

/// A path of at most `n` steps is also a path of at most `n + 1` steps.
proof fn lemma_supported_within_mono(g: Seq<Cell>, x: int, y: int, n: nat)
    requires
        supported_within(g, x, y, n),
    ensures
        supported_within(g, x, y, n + 1),
    decreases n,
{
    if y != FIELD_HEIGHT - 1 {
        if supported_within(g, x + 1, y, (n - 1) as nat) {
            lemma_supported_within_mono(g, x + 1, y, (n - 1) as nat);
        } else if supported_within(g, x - 1, y, (n - 1) as nat) {
            lemma_supported_within_mono(g, x - 1, y, (n - 1) as nat);
        } else if supported_within(g, x, y + 1, (n - 1) as nat) {
            lemma_supported_within_mono(g, x, y + 1, (n - 1) as nat);
        } else {
            lemma_supported_within_mono(g, x, y - 1, (n - 1) as nat);
        }
    }
}

/// Once one more step adds no cell, no number of steps adds one.
proof fn lemma_supported_stable(g: Seq<Cell>, n: nat, m: nat)
    requires
        forall|x: int, y: int|
            in_field(x, y) ==> (#[trigger] supported_within(g, x, y, n + 1) == supported_within(
                g,
                x,
                y,
                n,
            )),
    ensures
        forall|x: int, y: int|
            in_field(x, y) ==> (#[trigger] supported_within(g, x, y, m) ==> supported_within(
                g,
                x,
                y,
                n,
            )),
    decreases m,
{
    if m > n {
        lemma_supported_stable(g, n, (m - 1) as nat);
        assert forall|x: int, y: int| in_field(x, y) && #[trigger] supported_within(g, x, y, m)
            implies supported_within(g, x, y, n) by {
            if y != FIELD_HEIGHT - 1 {
                let k = (m - 1) as nat;
                if supported_within(g, x + 1, y, k) {
                    assert(supported_within(g, x + 1, y, n));
                } else if supported_within(g, x - 1, y, k) {
                    assert(supported_within(g, x - 1, y, n));
                } else if supported_within(g, x, y + 1, k) {
                    assert(supported_within(g, x, y + 1, n));
                } else {
                    assert(supported_within(g, x, y - 1, k));
                    assert(in_field(x, y - 1));
                    assert(supported_within(g, x, y - 1, n));
                }
                assert(supported_within(g, x, y, n + 1));
            }
        }
    } else if m < n {
        assert forall|x: int, y: int| in_field(x, y) && #[trigger] supported_within(g, x, y, m)
            implies supported_within(g, x, y, n) by {
            lemma_supported_within_upto(g, x, y, m, n);
        }
    }
}

proof fn lemma_supported_within_upto(g: Seq<Cell>, x: int, y: int, m: nat, n: nat)
    requires
        m <= n,
        supported_within(g, x, y, m),
    ensures
        supported_within(g, x, y, n),
    decreases n - m,
{
    if m < n {
        lemma_supported_within_mono(g, x, y, m);
        lemma_supported_within_upto(g, x, y, m + 1, n);
    }
}

/// The flags of the cells within `n` steps of the bottom row.
pub open spec fn flags_within(field: Field, flags: Seq<bool>, n: nat) -> bool {
    &&& flags.len() == FIELD_CELLS
    &&& forall|x: int, y: int|
        in_field(x, y) ==> #[trigger] flags[field_index(x, y)] == supported_within(
            field.cells@,
            x,
            y,
            n,
        )
}

/// Whether `(x, y)` is within `n + 1` steps, given which cells are within `n`.
fn supported_next(field: &Field, within: &[bool; FIELD_CELLS], x: usize, y: usize, n: Ghost<nat>) -> (r: bool)
    requires
        in_field(x as int, y as int),
        flags_within(*field, within@, n@),
    ensures
        r == supported_within(field.cells@, x as int, y as int, n@ + 1),
{
    if field.cell_at(x, y).is_empty() {
        return false;
    }
    if y == FIELD_HEIGHT - 1 {
        return true;
    }
    proof {
        assert(supported_within(field.cells@, x as int, y as int, n@ + 1) == (supported_within(
            field.cells@,
            x + 1,
            y as int,
            n@,
        ) || supported_within(field.cells@, x - 1, y as int, n@) || supported_within(
            field.cells@,
            x as int,
            y + 1,
            n@,
        ) || supported_within(field.cells@, x as int, y - 1, n@)));
        assert(in_field(x as int, y + 1));
        if x + 1 < FIELD_WIDTH {
            assert(in_field(x + 1, y as int));
        }
        if x >= 1 {
            assert(in_field(x - 1, y as int));
        }
        if y >= 1 {
            assert(in_field(x as int, y - 1));
        }
    }
    (x + 1 < FIELD_WIDTH && within[y * FIELD_WIDTH + x + 1]) || (x >= 1 && within[y * FIELD_WIDTH
        + x - 1]) || within[(y + 1) * FIELD_WIDTH + x] || (y >= 1 && within[(y - 1) * FIELD_WIDTH
        + x])
}

/// Extends the cells joined to the bottom row by one step: from those within `n` steps,
/// those within `n + 1`.
fn scan_connection(field: &Field, within: &[bool; FIELD_CELLS], n: Ghost<nat>) -> (r: [bool; FIELD_CELLS])
    requires
        flags_within(*field, within@, n@),
    ensures
        flags_within(*field, r@, n@ + 1),
{
    let mut out = [false; FIELD_CELLS];
    let mut y: usize = 0;
    while y < FIELD_HEIGHT
        invariant
            0 <= y <= FIELD_HEIGHT,
            out@.len() == FIELD_CELLS,
            flags_within(*field, within@, n@),
            forall|xx: int, yy: int|
                in_field(xx, yy) && yy < y ==> #[trigger] out@[field_index(xx, yy)]
                    == supported_within(field.cells@, xx, yy, n@ + 1),
        decreases FIELD_HEIGHT - y,
    {
        let mut x: usize = 0;
        while x < FIELD_WIDTH
            invariant
                0 <= y < FIELD_HEIGHT,
                0 <= x <= FIELD_WIDTH,
                out@.len() == FIELD_CELLS,
                flags_within(*field, within@, n@),
                forall|xx: int, yy: int|
                    in_field(xx, yy) && (yy < y || (yy == y && xx < x)) ==> #[trigger] out@[field_index(
                        xx,
                        yy,
                    )] == supported_within(field.cells@, xx, yy, n@ + 1),
            decreases FIELD_WIDTH - x,
        {
            let v = supported_next(field, within, x, y, n);
            let ghost before = out@;
            out[y * FIELD_WIDTH + x] = v;
            assert forall|xx: int, yy: int|
                in_field(xx, yy) && (yy < y || (yy == y && xx < x + 1)) implies #[trigger] out@[field_index(
                xx,
                yy,
            )] == supported_within(field.cells@, xx, yy, n@ + 1) by {
                if xx == x && yy == y {
                } else {
                    assert(field_index(xx, yy) != field_index(x as int, y as int));
                    assert(out@[field_index(xx, yy)] == before[field_index(xx, yy)]);
                }
            }
            x = x + 1;
        }
        y = y + 1;
    }
    out
}

/// Whether two flag arrays are equal.
fn same_flags(a: &[bool; FIELD_CELLS], b: &[bool; FIELD_CELLS]) -> (r: bool)
    ensures
        r == (forall|i: int| 0 <= i < FIELD_CELLS ==> a@[i] == b@[i]),
{
    let mut i: usize = 0;
    while i < FIELD_CELLS
        invariant
            0 <= i <= FIELD_CELLS,
            forall|k: int| 0 <= k < i ==> a@[k] == b@[k],
        decreases FIELD_CELLS - i,
    {
        if a[i] != b[i] {
            return false;
        }
        i = i + 1;
    }
    true
}

/// The occupied cells of the bottom row.
fn scan_ground(field: &Field) -> (r: [bool; FIELD_CELLS])
    ensures
        forall|x: int, y: int|
            in_field(x, y) ==> #[trigger] r@[field_index(x, y)] == supported_within(
                field.cells@,
                x,
                y,
                0,
            ),
{
    let mut out = [false; FIELD_CELLS];
    let mut x: usize = 0;
    while x < FIELD_WIDTH
        invariant
            0 <= x <= FIELD_WIDTH,
            out@.len() == FIELD_CELLS,
            forall|i: int|
                0 <= i < FIELD_CELLS - FIELD_WIDTH ==> #[trigger] out@[i] == false,
            forall|xx: int|
                0 <= xx < FIELD_WIDTH ==> #[trigger] out@[field_index(xx, FIELD_HEIGHT - 1)] == (
                xx < x && occupied(field.cells@, xx, FIELD_HEIGHT - 1)),
        decreases FIELD_WIDTH - x,
    {
        let y = FIELD_HEIGHT - 1;
        if !field.cell_at(x, y).is_empty() {
            out[y * FIELD_WIDTH + x] = true;
        }
        x = x + 1;
    }
    proof {
        assert forall|xx: int, yy: int| in_field(xx, yy) implies #[trigger] out@[field_index(
            xx,
            yy,
        )] == supported_within(field.cells@, xx, yy, 0) by {
            if yy < FIELD_HEIGHT - 1 {
                assert(field_index(xx, yy) < FIELD_CELLS - FIELD_WIDTH);
            }
        }
    }
    out
}

/// The cells resting on the bottom row: a flood fill from the occupied cells of the
/// bottom row through side-adjacent occupied cells, grown one step at a time until it
/// stops growing.
pub fn scan_connection_on_ground(field: &Field) -> (r: [bool; FIELD_CELLS])
    ensures
        forall|x: int, y: int|
            in_field(x, y) ==> #[trigger] r@[field_index(x, y)] == supported(field.cells@, x, y),
{
    let mut within = scan_ground(field);
    let ghost mut n: nat = 0;
    proof {
        lemma_count_bound(within@, FIELD_CELLS as int);
    }
    loop
        invariant
            flags_within(*field, within@, n),
            count_true(within@, FIELD_CELLS as int) <= FIELD_CELLS,
        decreases FIELD_CELLS - count_true(within@, FIELD_CELLS as int),
    {
        let next = scan_connection(field, &within, Ghost(n));
        assert(flags_within(*field, next@, n + 1));
        proof {
            assert forall|i: int| 0 <= i < FIELD_CELLS && within@[i] implies next@[i] by {
                let x = i % FIELD_WIDTH as int;
                let y = i / FIELD_WIDTH as int;
                assert(field_index(x, y) == i);
                lemma_supported_within_mono(field.cells@, x, y, n);
            }
            lemma_count_grows(within@, next@, FIELD_CELLS as int);
            lemma_count_bound(next@, FIELD_CELLS as int);
        }
        if same_flags(&within, &next) {
            proof {
                assert forall|x: int, y: int| in_field(x, y) implies #[trigger] supported_within(
                    field.cells@,
                    x,
                    y,
                    n + 1,
                ) == supported_within(field.cells@, x, y, n) by {
                    let idx = field_index(x, y);
                    assert(0 <= idx < FIELD_CELLS);
                    assert(within@[idx] == next@[idx]);
                }
                assert forall|x: int, y: int| in_field(x, y) implies #[trigger] within@[field_index(
                    x,
                    y,
                )] == supported(field.cells@, x, y) by {
                    if supported(field.cells@, x, y) {
                        let m = choose|m: nat| supported_within(field.cells@, x, y, m);
                        lemma_supported_stable(field.cells@, n, m);
                    }
                }
            }
            return within;
        }
        proof {
            let i = choose|i: int| 0 <= i < FIELD_CELLS && within@[i] != next@[i];
            assert(!within@[i] && next@[i]);
        }
        within = next;
        proof {
            n = n + 1;
        }
    }
}

/// The floating cells of `field`: occupied cells that do not rest on the bottom row.
pub fn scan_floating_cell_positions(field: &Field) -> (r: [bool; FIELD_CELLS])
    ensures
        forall|x: int, y: int|
            in_field(x, y) ==> #[trigger] r@[field_index(x, y)] == floating(field.cells@, x, y),
{
    let on_ground = scan_connection_on_ground(field);
    let mut out = [false; FIELD_CELLS];
    let mut i: usize = 0;
    while i < FIELD_CELLS
        invariant
            0 <= i <= FIELD_CELLS,
            out@.len() == FIELD_CELLS,
            forall|x: int, y: int|
                in_field(x, y) ==> #[trigger] on_ground@[field_index(x, y)] == supported(
                    field.cells@,
                    x,
                    y,
                ),
            forall|k: int|
                0 <= k < i ==> #[trigger] out@[k] == (field.cells@[k] != Cell::Empty
                    && !on_ground@[k]),
        decreases FIELD_CELLS - i,
    {
        out[i] = !field.cells[i].is_empty() && !on_ground[i];
        i = i + 1;
    }
    proof {
        assert forall|x: int, y: int| in_field(x, y) implies #[trigger] out@[field_index(x, y)]
            == floating(field.cells@, x, y) by {
            assert(0 <= field_index(x, y) < FIELD_CELLS);
        }
    }
    out
}

/// No occupied cell of the bottom row floats.
proof fn lemma_bottom_not_floating(g: Seq<Cell>, x: int)
    ensures
        !floating(g, x, FIELD_HEIGHT - 1),
{
    if occupied(g, x, FIELD_HEIGHT - 1) {
        assert(supported_within(g, x, FIELD_HEIGHT - 1, 0));
    }
}

/// The floating cells of a grid, by position.
pub open spec fn flags_floating(g: Seq<Cell>, flags: Seq<bool>) -> bool {
    &&& flags.len() == FIELD_CELLS
    &&& forall|x: int, y: int|
        in_field(x, y) ==> #[trigger] flags[field_index(x, y)] == floating(g, x, y)
}

/// Moves every floating cell one row down, from the bottom row up so that no cell is
/// overwritten before it moves.
fn drop_floating_cells(field: &mut Field, floating_cells: &[bool; FIELD_CELLS])
    requires
        flags_floating(old(field).cells@, floating_cells@),
    ensures
        final(field).cells@ == gravity_step(old(field).cells@),
{
    let ghost g = old(field).cells@;
    let ghost old_field = *old(field);
    proof {
        assert forall|xx: int| 0 <= xx < FIELD_WIDTH implies !#[trigger] floating(g, xx, FIELD_HEIGHT - 1) by {
            lemma_bottom_not_floating(g, xx);
        }
    }
    let mut row: usize = FIELD_HEIGHT - 1;
    while row > 0
        invariant
            0 <= row <= FIELD_HEIGHT - 1,
            flags_floating(g, floating_cells@),
            old_field.cells@ == g,
            forall|xx: int| 0 <= xx < FIELD_WIDTH ==> !#[trigger] floating(g, xx, FIELD_HEIGHT - 1),
            forall|xx: int, r: int|
                in_field(xx, r) ==> #[trigger] field.at(xx, r) == if r - 1 >= row && floating(
                    g,
                    xx,
                    r - 1,
                ) {
                    old_field.at(xx, r - 1)
                } else if r >= row && floating(g, xx, r) {
                    Cell::Empty
                } else {
                    old_field.at(xx, r)
                },
        decreases row,
    {
        let y = row - 1;
        let mut x: usize = 0;
        while x < FIELD_WIDTH
            invariant
                row >= 1,
                row <= FIELD_HEIGHT - 1,
                y == row - 1,
                0 <= x <= FIELD_WIDTH,
                flags_floating(g, floating_cells@),
                old_field.cells@ == g,
                forall|xx: int, r: int|
                    in_field(xx, r) ==> #[trigger] field.at(xx, r) == if (r - 1 >= row || (r - 1
                        == y && xx < x)) && floating(g, xx, r - 1) {
                        old_field.at(xx, r - 1)
                    } else if (r >= row || (r == y && xx < x)) && floating(g, xx, r) {
                        Cell::Empty
                    } else {
                        old_field.at(xx, r)
                    },
            decreases FIELD_WIDTH - x,
        {
            assert(floating_cells@[field_index(x as int, y as int)] == floating(g, x as int, y as int));
            if floating_cells[y * FIELD_WIDTH + x] {
                let c = field.cell_at(x, y);
                let ghost before = *field;
                field.set_at(x, y + 1, c);
                let ghost middle = *field;
                field.set_at(x, y, Cell::Empty);
                assert forall|xx: int, r: int| in_field(xx, r) implies #[trigger] field.at(xx, r)
                    == if (r - 1 >= row || (r - 1 == y && xx < x + 1)) && floating(g, xx, r - 1) {
                    old_field.at(xx, r - 1)
                } else if (r >= row || (r == y && xx < x + 1)) && floating(g, xx, r) {
                    Cell::Empty
                } else {
                    old_field.at(xx, r)
                } by {
                    if xx == x && r == y {
                    } else if xx == x && r == y + 1 {
                        assert(field_index(xx, r) != field_index(x as int, y as int));
                    } else {
                        assert(field_index(xx, r) != field_index(x as int, y as int));
                        assert(field_index(xx, r) != field_index(x as int, y + 1));
                        assert(field.at(xx, r) == before.at(xx, r));
                    }
                }
            }
            x = x + 1;
        }
        row = row - 1;
    }
    proof {
        assert forall|i: int| 0 <= i < FIELD_CELLS implies #[trigger] field.cells@[i] == gravity_step(
            g,
        )[i] by {
            let xx = i % FIELD_WIDTH as int;
            let r = i / FIELD_WIDTH as int;
            assert(field_index(xx, r) == i);
            assert(in_field(xx, r));
            assert(field.at(xx, r) == field.cells@[i]);
        }
        assert(field.cells@ =~= gravity_step(g));
    }
}

/// Whether no flag is set.
fn no_flag(flags: &[bool; FIELD_CELLS]) -> (r: bool)
    ensures
        r == (forall|i: int| 0 <= i < FIELD_CELLS ==> !#[trigger] flags@[i]),
{
    let mut i: usize = 0;
    while i < FIELD_CELLS
        invariant
            0 <= i <= FIELD_CELLS,
            forall|k: int| 0 <= k < i ==> !#[trigger] flags@[k],
        decreases FIELD_CELLS - i,
    {
        if flags[i] {
            return false;
        }
        i = i + 1;
    }
    true
}

/// Whether no occupied cell floats.
pub open spec fn settled(g: Seq<Cell>) -> bool {
    forall|x: int, y: int| in_field(x, y) ==> !#[trigger] floating(g, x, y)
}

/// The grid after `k` gravity steps.
pub open spec fn gravity_steps(g: Seq<Cell>, k: nat) -> Seq<Cell>
    decreases k,
{
    if k == 0 {
        g
    } else {
        gravity_step(gravity_steps(g, (k - 1) as nat))
    }
}

/// One gravity step, read at `(x, y)`.
proof fn lemma_step_at(g: Seq<Cell>, x: int, y: int)
    requires
        in_field(x, y),
    ensures
        grid_at(gravity_step(g), x, y) == dropped_at(g, x, y),
{
    lemma_fundamental_div_mod_converse(field_index(x, y), FIELD_WIDTH as int, y, x);
}

/// A gravity step keeps every supported cell supported.
proof fn lemma_step_keeps_support(g: Seq<Cell>, x: int, y: int, n: nat)
    requires
        supported_within(g, x, y, n),
    ensures
        supported_within(gravity_step(g), x, y, n),
    decreases n,
{
    let h = gravity_step(g);
    lemma_step_at(g, x, y);
    assert(supported(g, x, y));
    assert(occupied(h, x, y));
    if y != FIELD_HEIGHT - 1 {
        let k = (n - 1) as nat;
        if supported_within(g, x + 1, y, k) {
            lemma_step_keeps_support(g, x + 1, y, k);
        } else if supported_within(g, x - 1, y, k) {
            lemma_step_keeps_support(g, x - 1, y, k);
        } else if supported_within(g, x, y + 1, k) {
            lemma_step_keeps_support(g, x, y + 1, k);
        } else {
            lemma_step_keeps_support(g, x, y - 1, k);
        }
    }
}

/// A cell that floats after a gravity step floated one row higher before it.
proof fn lemma_floating_came_from_above(g: Seq<Cell>, x: int, y: int)
    requires
        floating(gravity_step(g), x, y),
    ensures
        y >= 1,
        floating(g, x, y - 1),
{
    let h = gravity_step(g);
    lemma_step_at(g, x, y);
    if !(y >= 1 && floating(g, x, y - 1)) {
        if !floating(g, x, y) {
            assert(supported(g, x, y));
            let n = choose|n: nat| supported_within(g, x, y, n);
            lemma_step_keeps_support(g, x, y, n);
            assert(supported(h, x, y));
        }
    }
}

/// After `k` gravity steps, floating cells lie at row `k` or below.
proof fn lemma_floating_rows_after_steps(g: Seq<Cell>, k: nat)
    ensures
        forall|x: int, y: int| #[trigger] floating(gravity_steps(g, k), x, y) ==> y >= k,
    decreases k,
{
    if k > 0 {
        lemma_floating_rows_after_steps(g, (k - 1) as nat);
        let prev = gravity_steps(g, (k - 1) as nat);
        assert forall|x: int, y: int| #[trigger] floating(gravity_steps(g, k), x, y) implies y
            >= k by {
            lemma_floating_came_from_above(prev, x, y);
            assert(floating(prev, x, y - 1));
        }
    }
}

/// Repeated gravity steps settle any field: after one step fewer than the field has
/// rows, no cell floats, and none floats after any later step either.
pub proof fn lemma_gravity_settles_within_height(g: Seq<Cell>, k: nat)
    requires
        k >= FIELD_HEIGHT - 1,
    ensures
        settled(gravity_steps(g, k)),
{
    lemma_floating_rows_after_steps(g, k);
    assert forall|x: int, y: int| in_field(x, y) implies !#[trigger] floating(
        gravity_steps(g, k),
        x,
        y,
    ) by {
        lemma_bottom_not_floating(gravity_steps(g, k), x);
    }
}

/// A gravity step moves each occupied cell, value unchanged, one row down when it floats
/// and leaves it in place otherwise; every occupied cell afterwards came from one of
/// these moves. So no cell is created or lost.
pub proof fn lemma_gravity_step_moves_cells(g: Seq<Cell>, x: int, y: int)
    requires
        in_field(x, y),
    ensures
        floating(g, x, y) ==> in_field(x, y + 1) && grid_at(gravity_step(g), x, y + 1)
            == grid_at(g, x, y),
        occupied(g, x, y) && !floating(g, x, y) ==> grid_at(gravity_step(g), x, y) == grid_at(
            g,
            x,
            y,
        ),
        occupied(gravity_step(g), x, y) ==> (y >= 1 && floating(g, x, y - 1) && grid_at(
            gravity_step(g),
            x,
            y,
        ) == grid_at(g, x, y - 1)) || (occupied(g, x, y) && !floating(g, x, y) && grid_at(
            gravity_step(g),
            x,
            y,
        ) == grid_at(g, x, y)),
{
    lemma_step_at(g, x, y);
    lemma_bottom_not_floating(g, x);
    if floating(g, x, y) {
        lemma_step_at(g, x, y + 1);
    }
    if occupied(g, x, y) && !floating(g, x, y) && y >= 1 && occupied(g, x, y - 1) {
        let n = choose|n: nat| supported_within(g, x, y, n);
        assert(supported_within(g, x, y - 1, n + 1));
        assert(supported(g, x, y - 1));
    }
}

/// The gravity resolver: floating cells fall one row per step until none floats.
pub struct DropCell {
    pub field: AnimationField,
    pub floating_cell_positions: [bool; FIELD_CELLS],
}

impl DropCell {
    /// The flags are the floating cells of the field.
    pub open spec fn wf(&self) -> bool {
        flags_floating(self.field.field.cells@, self.floating_cell_positions@)
    }

    pub fn new(field: AnimationField) -> (r: DropCell)
        ensures
            r.field == field,
            r.wf(),
    {
        let floating_cell_positions = scan_floating_cell_positions(&field.field);
        DropCell { field, floating_cell_positions }
    }

    /// One gravity step: every floating cell moves one row down; when none floats, the
    /// field is handed back.
    pub fn wait_next(self) -> (r: AnimationResult<DropCell, AnimationField>)
        requires
            self.wf(),
        ensures
            settled(self.field.field.cells@) ==> r == AnimationResult::<
                DropCell,
                AnimationField,
            >::Finished(self.field),
            !settled(self.field.field.cells@) ==> (r matches AnimationResult::InProgress(s)
                && s.wf() && s.field.block_queue == self.field.block_queue
                && s.field.field.cells@ == gravity_step(self.field.field.cells@)),
    {
        if no_flag(&self.floating_cell_positions) {
            proof {
                assert forall|x: int, y: int| in_field(x, y) implies !#[trigger] floating(
                    self.field.field.cells@,
                    x,
                    y,
                ) by {
                    assert(0 <= field_index(x, y) < FIELD_CELLS);
                    assert(!self.floating_cell_positions@[field_index(x, y)]);
                }
            }
            return AnimationResult::Finished(self.field);
        }
        proof {
            let i = choose|i: int| 0 <= i < FIELD_CELLS && self.floating_cell_positions@[i];
            let x = i % FIELD_WIDTH as int;
            let y = i / FIELD_WIDTH as int;
            assert(field_index(x, y) == i);
            assert(floating(self.field.field.cells@, x, y));
        }
        let mut field = self.field;
        drop_floating_cells(&mut field.field, &self.floating_cell_positions);
        let floating_cell_positions = scan_floating_cell_positions(&field.field);
        AnimationResult::InProgress(DropCell { field, floating_cell_positions })
    }
}

} // verus!
