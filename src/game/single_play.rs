use vstd::prelude::*;
use crate::game::animation::drop_cell::{gravity_step, settled, DropCell};
use crate::game::animation::explosion::{
    no_center, spec_caught, spec_centers, spec_cleared, ChainCounter, Explosion,
    ExplosionInitResult, EXPLOSION_FRAMES,
};
use crate::game::animation::full_row::{detected_rows, merge_filled_rows, FullRow};
use crate::game::animation::place_block::PlaceBlock;
use crate::game::animation::{AnimationField, AnimationResult};
use crate::game::block_queue::BlockQueue;
use crate::game::field::Field;
use crate::geometry::position::PosY;

verus! {

/// Rows listed from the top, each once.
pub open spec fn strictly_ascending(rows: Seq<PosY>) -> bool {
    forall|i: int, j: int| 0 <= i < j < rows.len() ==> rows[i].below_shift < rows[j].below_shift
}

/// The phase that a turn's resolution is in after the block is locked.
pub enum CascadePhase {
    /// The pause after the lock.
    Placing(PlaceBlock),
    /// Showing the full rows that were found.
    FullRows(FullRow),
    /// An explosion cascade, wave by wave.
    Exploding(Explosion),
    /// Gravity, one step at a time.
    Dropping(DropCell),
    /// Nothing more happens this turn: the next block may appear.
    Settled(AnimationField),
}

/// The resolution of a turn: lock, find full rows, explode, let the cells fall, and look
/// for full rows again, until no explosion starts.
pub struct Cascade {
    /// The current phase.
    pub phase: CascadePhase,
    /// Explosion waves completed this turn.
    pub chain: ChainCounter,
    /// The full rows reported so far that did not explode, from the top, each once.
    pub filled_row_ys: Vec<PosY>,
}

impl Cascade {
    pub open spec fn wf(&self) -> bool {
        &&& strictly_ascending(self.filled_row_ys@)
        &&& match self.phase {
            CascadePhase::Placing(p) => p.wf(),
            CascadePhase::FullRows(f) => f.wf(),
            CascadePhase::Exploding(e) => e.wf(),
            CascadePhase::Dropping(d) => d.wf(),
            CascadePhase::Settled(_) => true,
        }
    }

    /// Starts resolving a turn whose block was just locked on `field`; `filled_row_ys` are
    /// the full rows reported earlier that have not exploded.
    pub fn start(field: Field, block_queue: BlockQueue, filled_row_ys: &[PosY]) -> (r: Cascade)
        ensures
            r.wf(),
            r.phase matches CascadePhase::Placing(p) && p.field == (AnimationField {
                field,
                block_queue,
            }) && p.frame.spec_current() == 0,
            r.chain.spec_chain() == 0,
            forall|y: PosY| r.filled_row_ys@.contains(y) <==> filled_row_ys@.contains(y),
    {
        let none: Vec<PosY> = Vec::new();
        let rows = merge_filled_rows(filled_row_ys, none.as_slice());
        Cascade {
            phase: CascadePhase::Placing(PlaceBlock::new(AnimationField::new(field, block_queue))),
            chain: ChainCounter::new(),
            filled_row_ys: rows,
        }
    }

    /// Whether the turn is settled.
    pub open spec fn spec_settled(&self) -> bool {
        match self.phase {
            CascadePhase::Settled(_) => true,
            _ => false,
        }
    }

    /// Whether nothing more happens this turn.
    pub fn is_settled(&self) -> (r: bool)
        ensures
            r == self.spec_settled(),
    {
        match self.phase {
            CascadePhase::Settled(_) => true,
            _ => false,
        }
    }
}

/// One tick of a turn's resolution: an unfinished phase takes one step; a finished phase
/// hands its field to the next one. After the lock pause the full rows are found; full
/// rows with a bomb start an explosion, and without one the turn settles, the rows being
/// remembered; after an explosion the remembered rows are forgotten and gravity runs;
/// after gravity the full rows are looked for again.
pub fn cascade_step(c: Cascade) -> (r: Cascade)
    requires
        c.wf(),
    ensures
        r.wf(),
        c.phase matches CascadePhase::Placing(p) ==> if p.frame.spec_current() < p.frame.spec_end() {
            r.phase matches CascadePhase::Placing(q) && q.field == p.field
                && q.frame.spec_current() == p.frame.spec_current() + 1 && r.chain == c.chain
                && r.filled_row_ys@ == c.filled_row_ys@
        } else {
            r.phase matches CascadePhase::FullRows(f) && f.field == p.field && f.filled_row_ys@
                == detected_rows(p.field.field, c.filled_row_ys@) && f.frame.spec_current() == 0
                && r.chain == c.chain && r.filled_row_ys@ == c.filled_row_ys@
        },
        c.phase matches CascadePhase::FullRows(f) ==> if f.frame.spec_current() < f.frame.spec_end() {
            r.phase matches CascadePhase::FullRows(g) && g.field == f.field && g.filled_row_ys@
                == f.filled_row_ys@ && g.frame.spec_current() == f.frame.spec_current() + 1
                && r.chain == c.chain && r.filled_row_ys@ == c.filled_row_ys@
        } else if no_center(spec_centers(f.field.field, f.filled_row_ys@)) {
            r.phase == CascadePhase::Settled(f.field) && r.chain == c.chain && (forall|y: PosY|
                r.filled_row_ys@.contains(y) <==> (c.filled_row_ys@.contains(y)
                    || f.filled_row_ys@.contains(y)))
        } else {
            r.phase matches CascadePhase::Exploding(e) && e.field == f.field && e.current_chain
                == c.chain && e.filled_row_count == f.filled_row_ys@.len() && e.center_cells@
                == spec_centers(f.field.field, f.filled_row_ys@) && e.frame.spec_current() == 0
                && r.chain == c.chain && r.filled_row_ys@ == c.filled_row_ys@
        },
        c.phase matches CascadePhase::Exploding(e) ==> if e.frame.spec_current() < e.frame.spec_end() {
            r.phase matches CascadePhase::Exploding(e2) && e2.field == e.field && e2.center_cells
                == e.center_cells && e2.current_chain == e.current_chain
                && e2.frame.spec_current() == e.frame.spec_current() + 1 && r.chain == c.chain
                && r.filled_row_ys@ == c.filled_row_ys@
        } else {
            let caught = spec_caught(
                e.field.field.cells@,
                e.center_cells@,
                e.exploded_cell_positions@,
            );
            let cleared = spec_cleared(e.field.field.cells@, e.exploded_cell_positions@);
            let chain = if e.current_chain.spec_chain() < usize::MAX {
                e.current_chain.spec_chain() + 1
            } else {
                e.current_chain.spec_chain()
            };
            if no_center(caught) {
                r.phase matches CascadePhase::Dropping(d) && d.field.field.cells@ == cleared
                    && d.field.block_queue == e.field.block_queue && r.chain.spec_chain() == chain
                    && r.filled_row_ys@.len() == 0
            } else {
                r.phase matches CascadePhase::Exploding(e2) && e2.field.field.cells@ == cleared
                    && e2.field.block_queue == e.field.block_queue && e2.current_chain.spec_chain()
                    == chain && e2.center_cells@ == caught && e2.frame.spec_current() == 0
                    && e2.frame.spec_end() == EXPLOSION_FRAMES && r.chain == c.chain
                    && r.filled_row_ys@ == c.filled_row_ys@
            }
        },
        c.phase matches CascadePhase::Dropping(d) ==> if !settled(d.field.field.cells@) {
            r.phase matches CascadePhase::Dropping(d2) && d2.field.field.cells@ == gravity_step(
                d.field.field.cells@,
            ) && d2.field.block_queue == d.field.block_queue && r.chain == c.chain
                && r.filled_row_ys@ == c.filled_row_ys@
        } else {
            r.phase matches CascadePhase::FullRows(f) && f.field == d.field && f.filled_row_ys@
                == detected_rows(d.field.field, c.filled_row_ys@) && f.frame.spec_current() == 0
                && r.chain == c.chain && r.filled_row_ys@ == c.filled_row_ys@
        },
        c.phase matches CascadePhase::Settled(_) ==> r.phase == c.phase && r.chain == c.chain
            && r.filled_row_ys@ == c.filled_row_ys@,
{
    let Cascade { phase, chain, filled_row_ys } = c;
    match phase {
        CascadePhase::Placing(p) => match p.wait_next() {
            AnimationResult::InProgress(q) => Cascade {
                phase: CascadePhase::Placing(q),
                chain,
                filled_row_ys,
            },
            AnimationResult::Finished(field) => {
                let full = FullRow::new(field, filled_row_ys.as_slice());
                Cascade { phase: CascadePhase::FullRows(full), chain, filled_row_ys }
            },
        },
        CascadePhase::FullRows(f) => match f.wait_next() {
            AnimationResult::InProgress(g) => Cascade {
                phase: CascadePhase::FullRows(g),
                chain,
                filled_row_ys,
            },
            AnimationResult::Finished((field, ys)) => {
                match Explosion::try_init(field, ys.as_slice(), chain) {
                    ExplosionInitResult::Explodes(e) => Cascade {
                        phase: CascadePhase::Exploding(e),
                        chain,
                        filled_row_ys,
                    },
                    ExplosionInitResult::Stay(field) => {
                        let rows = merge_filled_rows(filled_row_ys.as_slice(), ys.as_slice());
                        Cascade { phase: CascadePhase::Settled(field), chain, filled_row_ys: rows }
                    },
                }
            },
        },
        CascadePhase::Exploding(e) => match e.wait_next() {
            AnimationResult::InProgress(e2) => Cascade {
                phase: CascadePhase::Exploding(e2),
                chain,
                filled_row_ys,
            },
            AnimationResult::Finished((field, next_chain)) => Cascade {
                phase: CascadePhase::Dropping(DropCell::new(field)),
                chain: next_chain,
                filled_row_ys: Vec::new(),
            },
        },
        CascadePhase::Dropping(d) => match d.wait_next() {
            AnimationResult::InProgress(d2) => Cascade {
                phase: CascadePhase::Dropping(d2),
                chain,
                filled_row_ys,
            },
            AnimationResult::Finished(field) => {
                let full = FullRow::new(field, filled_row_ys.as_slice());
                Cascade { phase: CascadePhase::FullRows(full), chain, filled_row_ys }
            },
        },
        CascadePhase::Settled(field) => Cascade {
            phase: CascadePhase::Settled(field),
            chain,
            filled_row_ys,
        },
    }
}

} // verus!
