use vstd::prelude::*;
use crate::game::animation::{AnimationField, AnimationFrame, AnimationResult};
use crate::game::field::{Field, FIELD_HEIGHT, FIELD_WIDTH};
use crate::geometry::position::PosY;

verus! {

/// The full rows among the first `n` rows of `field`, from the top.
pub open spec fn full_rows_upto(field: Field, n: int) -> Seq<PosY>
    decreases n,
{
    if n <= 0 {
        Seq::empty()
    } else if field.row_full(n - 1) {
        full_rows_upto(field, n - 1).push(PosY { below_shift: (n - 1) as i8 })
    } else {
        full_rows_upto(field, n - 1)
    }
}

/// The full rows of `field`, from the top.
pub open spec fn full_rows(field: Field) -> Seq<PosY> {
    full_rows_upto(field, FIELD_HEIGHT as int)
}

/// What the line-clear detector reports: the full rows, or nothing where they have the
/// same members as the rows reported before.
pub open spec fn detected_rows(field: Field, previous: Seq<PosY>) -> Seq<PosY> {
    if full_rows(field).to_set() == previous.to_set() {
        Seq::empty()
    } else {
        full_rows(field)
    }
}

/// Asking the detector again on an unchanged field, with its own answer as the rows
/// reported before, reports nothing; this holds unless the first answer was itself
/// suppressed while some row was full.
pub proof fn lemma_detect_twice_reports_nothing(field: Field, previous: Seq<PosY>)
    requires
        full_rows(field).to_set() != previous.to_set() || full_rows(field).len() == 0,
    ensures
        detected_rows(field, detected_rows(field, previous)) == Seq::<PosY>::empty(),
{
    if full_rows(field).len() == 0 {
        assert(full_rows(field) =~= Seq::<PosY>::empty());
    }
    assert(Seq::<PosY>::empty().to_set() =~= Set::<PosY>::empty());
}

/// Whether `y` is among `rows`.
pub fn contains_row(rows: &[PosY], y: PosY) -> (r: bool)
    ensures
        r == rows@.contains(y),
{
    let mut i: usize = 0;
    while i < rows.len()
        invariant
            0 <= i <= rows@.len(),
            forall|k: int| 0 <= k < i ==> rows@[k] != y,
        decreases rows@.len() - i,
    {
        if rows[i] == y {
            assert(rows@[i as int] == y);
            return true;
        }
        i = i + 1;
    }
    false
}

/// Whether `a` and `b` have the same members.
pub fn same_members(a: &[PosY], b: &[PosY]) -> (r: bool)
    ensures
        r == (a@.to_set() == b@.to_set()),
{
    let mut i: usize = 0;
    while i < a.len()
        invariant
            0 <= i <= a@.len(),
            forall|k: int| 0 <= k < i ==> b@.contains(#[trigger] a@[k]),
        decreases a@.len() - i,
    {
        if !contains_row(b, a[i]) {
            proof {
                assert(a@.to_set().contains(a@[i as int]));
                assert(!b@.to_set().contains(a@[i as int]));
            }
            return false;
        }
        i = i + 1;
    }
    let mut j: usize = 0;
    while j < b.len()
        invariant
            0 <= j <= b@.len(),
            forall|k: int| 0 <= k < a@.len() ==> b@.contains(#[trigger] a@[k]),
            forall|k: int| 0 <= k < j ==> a@.contains(#[trigger] b@[k]),
        decreases b@.len() - j,
    {
        if !contains_row(a, b[j]) {
            proof {
                assert(b@.to_set().contains(b@[j as int]));
                assert(!a@.to_set().contains(b@[j as int]));
            }
            return false;
        }
        j = j + 1;
    }
    proof {
        assert forall|y: PosY| a@.to_set().contains(y) == b@.to_set().contains(y) by {
            if a@.contains(y) {
                let k = choose|k: int| 0 <= k < a@.len() && a@[k] == y;
                assert(b@.contains(a@[k]));
            }
            if b@.contains(y) {
                let k = choose|k: int| 0 <= k < b@.len() && b@[k] == y;
                assert(a@.contains(b@[k]));
            }
        }
        assert(a@.to_set() =~= b@.to_set());
    }
    true
}

/// The rows of `previous` and of `found` together, each once, from the top.
pub fn merge_filled_rows(previous: &[PosY], found: &[PosY]) -> (r: Vec<PosY>)
    ensures
        forall|i: int, j: int|
            0 <= i < j < r@.len() ==> r@[i].below_shift < r@[j].below_shift,
        forall|y: PosY| r@.contains(y) <==> (previous@.contains(y) || found@.contains(y)),
{
    let mut out: Vec<PosY> = Vec::new();
    let mut v: i16 = -128;
    while v <= 127
        invariant
            -128 <= v <= 128,
            forall|i: int, j: int|
                0 <= i < j < out@.len() ==> out@[i].below_shift < out@[j].below_shift,
            forall|i: int| 0 <= i < out@.len() ==> out@[i].below_shift < v,
            forall|y: PosY|
                out@.contains(y) <==> (y.below_shift < v && (previous@.contains(y)
                    || found@.contains(y))),
        decreases 128 - v,
    {
        let y = PosY { below_shift: v as i8 };
        if contains_row(previous, y) || contains_row(found, y) {
            let ghost before = out@;
            out.push(y);
            proof {
                assert forall|z: PosY|
                    out@.contains(z) <==> (z.below_shift < v + 1 && (previous@.contains(z)
                        || found@.contains(z))) by {
                    if out@.contains(z) {
                        let k = choose|k: int| 0 <= k < out@.len() && out@[k] == z;
                        if k < before.len() {
                            assert(before.contains(z));
                        }
                    }
                    if z.below_shift < v + 1 && (previous@.contains(z) || found@.contains(z)) {
                        if z.below_shift == v {
                            assert(z == y);
                            assert(out@[before.len() as int] == z);
                        } else {
                            assert(before.contains(z));
                            let k = choose|k: int| 0 <= k < before.len() && before[k] == z;
                            assert(out@[k] == z);
                        }
                    }
                }
            }
        } else {
            proof {
                assert forall|z: PosY|
                    out@.contains(z) <==> (z.below_shift < v + 1 && (previous@.contains(z)
                        || found@.contains(z))) by {
                    if z.below_shift == v && (previous@.contains(z) || found@.contains(z)) {
                        assert(z == y);
                    }
                }
            }
        }
        v = v + 1;
    }
    out
}

/// The full rows of `field`, from the top; nothing where they have the same members as
/// `previous`.
pub fn detect_full_rows(field: &Field, previous: &[PosY]) -> (r: Vec<PosY>)
    ensures
        r@ == detected_rows(*field, previous@),
{
    let mut rows: Vec<PosY> = Vec::new();
    let mut y: usize = 0;
    while y < FIELD_HEIGHT
        invariant
            0 <= y <= FIELD_HEIGHT,
            rows@ == full_rows_upto(*field, y as int),
        decreases FIELD_HEIGHT - y,
    {
        if field.is_row_full(y) {
            rows.push(PosY::below(y as i8));
        }
        y = y + 1;
    }
    if same_members(rows.as_slice(), previous) {
        Vec::new()
    } else {
        rows
    }
}

/// Frames spent on each full row.
pub const FRAMES_PER_ROW: usize = FIELD_WIDTH / 2;
/// Frames added at the end when some row is full.
pub const FULL_ROW_EXTRA_FRAMES: usize = 5;

/// The animation that shows the full rows found after a lock.
pub struct FullRow {
    pub field: AnimationField,
    pub filled_row_ys: Vec<PosY>,
    pub frame: AnimationFrame,
}

impl FullRow {
    pub open spec fn wf(&self) -> bool {
        self.frame.wf()
    }

    /// Finds the full rows of the field (none where they are exactly `previous_filled_rows`)
    /// and plans the frames: five for each row, five more when there is any.
    pub fn new(field: AnimationField, previous_filled_rows: &[PosY]) -> (r: FullRow)
        ensures
            r.wf(),
            r.field == field,
            r.filled_row_ys@ == detected_rows(field.field, previous_filled_rows@),
            r.frame.spec_current() == 0,
            r.frame.spec_end() == FRAMES_PER_ROW * r.filled_row_ys@.len() + if r.filled_row_ys@.len()
                == 0 {
                0
            } else {
                FULL_ROW_EXTRA_FRAMES
            },
    {
        let filled_row_ys = detect_full_rows(&field.field, previous_filled_rows);
        proof {
            lemma_full_rows_len(field.field, FIELD_HEIGHT as int);
        }
        let additional = if filled_row_ys.len() == 0 {
            0
        } else {
            FULL_ROW_EXTRA_FRAMES
        };
        let max_frame_count = FRAMES_PER_ROW * filled_row_ys.len() + additional;
        FullRow { field, filled_row_ys, frame: AnimationFrame::with_frame_count(max_frame_count) }
    }

    /// Advances one frame; at the end, hands back the field and the full rows.
    pub fn wait_next(self) -> (r: AnimationResult<FullRow, (AnimationField, Vec<PosY>)>)
        requires
            self.wf(),
        ensures
            self.frame.spec_current() == self.frame.spec_end() ==> (r matches AnimationResult::Finished(
                (f, ys),
            ) && f == self.field && ys@ == self.filled_row_ys@),
            self.frame.spec_current() < self.frame.spec_end() ==> (r matches AnimationResult::InProgress(
                s,
            ) && s.wf() && s.field == self.field && s.filled_row_ys@ == self.filled_row_ys@
                && s.frame.spec_current() == self.frame.spec_current() + 1),
    {
        match self.frame.wait_next() {
            Some(next_frame) => AnimationResult::InProgress(
                FullRow { field: self.field, filled_row_ys: self.filled_row_ys, frame: next_frame },
            ),
            None => AnimationResult::Finished((self.field, self.filled_row_ys)),
        }
    }
}

/// There are no more full rows than rows.
proof fn lemma_full_rows_len(field: Field, n: int)
    requires
        0 <= n,
    ensures
        full_rows_upto(field, n).len() <= n,
    decreases n,
{
    if n > 0 {
        lemma_full_rows_len(field, n - 1);
    }
}

} // verus!
