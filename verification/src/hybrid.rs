//! The hybrid formula configuration and its alternating schedule.
//!
//! A hybrid combines up to six formula slots.  The configuration arrives as
//! a flat word buffer `[num_slots, id, iters, id, iters, ..., mode]`;
//! [`build_formula_plan`] parses it with an exact contract, falling back to
//! a single degree-8 spherical-power slot when the buffer is empty or names
//! no slot.  In alternating mode the slots take turns, each running its own
//! per-cycle iteration count; [`slot_for_step`] computes which active slot
//! performs a given global iteration, against a recursive specification of
//! that schedule.

use vstd::prelude::*;

use crate::formulas::spec_formula_id_from_u32;
use crate::formulas::FormulaId;
use crate::formulas::formula_id_from_u32;
use crate::utils::str_eq;

verus! {

/// How the slots of a hybrid are combined.
#[derive(Clone, Copy, Debug, PartialEq, Eq, Structural)]
pub enum HybridMode {
    Alternating,
    Interpolated,
    FourD,
}

/// The mode that a UI name string selects; unknown names select alternation.
pub open spec fn hybrid_mode_of_name(s: Seq<char>) -> HybridMode {
    if s == "interpolated"@ {
        HybridMode::Interpolated
    } else if s == "4d"@ {
        HybridMode::FourD
    } else {
        HybridMode::Alternating
    }
}

/// The mode that a numeric code in the configuration buffer selects.
pub open spec fn spec_hybrid_mode_from_u32(m: u32) -> HybridMode {
    if m == 1 {
        HybridMode::Interpolated
    } else if m == 2 {
        HybridMode::FourD
    } else {
        HybridMode::Alternating
    }
}

impl HybridMode {
    /// Parse a mode from its UI name.
    pub fn from_str(s: &str) -> (r: HybridMode)
        ensures
            r == hybrid_mode_of_name(s@),
    {
        if str_eq(s, "interpolated") {
            HybridMode::Interpolated
        } else if str_eq(s, "4d") {
            HybridMode::FourD
        } else {
            HybridMode::Alternating
        }
    }
}

/// Map a numeric mode code from the configuration buffer to its mode.
pub fn hybrid_mode_from_u32(m: u32) -> (r: HybridMode)
    ensures
        r == spec_hybrid_mode_from_u32(m),
{
    if m == 1 {
        HybridMode::Interpolated
    } else if m == 2 {
        HybridMode::FourD
    } else {
        HybridMode::Alternating
    }
}

/// One slot of a hybrid configuration.
#[derive(Clone, Copy, Debug, PartialEq, Eq, Structural)]
pub struct PlanSlot {
    /// The formula this slot runs.
    pub id: FormulaId,
    /// How many iterations the slot runs per cycle.
    pub iterations: u32,
    /// Whether the slot takes part: a real formula with a positive count.
    pub active: bool,
}

/// A parsed hybrid configuration: the slot list and the combination mode.
#[derive(Debug)]
pub struct FormulaPlan {
    /// Between one and six slots.
    pub slots: Vec<PlanSlot>,
    /// How the slots are combined.
    pub mode: HybridMode,
}

/// The fallback slot: one cycle of the degree-8 spherical-power formula.
pub open spec fn default_slot() -> PlanSlot {
    PlanSlot { id: FormulaId::MandelbulbPower8, iterations: 1, active: true }
}

/// The slot that an `(id code, iteration count)` pair configures.
pub open spec fn slot_of_pair(id: u32, iters: u32) -> PlanSlot {
    let f = spec_formula_id_from_u32(id);
    PlanSlot { id: f, iterations: iters, active: f != FormulaId::Empty && iters > 0 }
}

/// How many slot pairs of a non-empty buffer are read: the declared count,
/// capped at six and at the pairs the buffer actually holds.
pub open spec fn parsed_slot_count(ids: Seq<u32>) -> int
    recommends
        ids.len() > 0,
{
    let declared = if ids[0] > 6 {
        6int
    } else {
        ids[0] as int
    };
    let avail = (ids.len() - 1) / 2;
    if declared <= avail {
        declared
    } else {
        avail
    }
}

/// The slots read from a non-empty buffer, in order.
pub open spec fn parsed_slots(ids: Seq<u32>) -> Seq<PlanSlot>
    recommends
        ids.len() > 0,
{
    Seq::new(parsed_slot_count(ids) as nat, |j: int| slot_of_pair(ids[1 + 2 * j], ids[2 + 2 * j]))
}

/// The mode word sits right after the slot pairs; a buffer that ends before
/// it keeps the alternating default.
pub open spec fn parsed_mode(ids: Seq<u32>) -> HybridMode
    recommends
        ids.len() > 0,
{
    let m_idx = 1 + 2 * parsed_slot_count(ids);
    if m_idx < ids.len() {
        spec_hybrid_mode_from_u32(ids[m_idx])
    } else {
        HybridMode::Alternating
    }
}

/// The slot list of the plan built from a buffer: the parsed slots, or the
/// single fallback slot when the buffer is empty or yields none.
pub open spec fn plan_slots_of(ids: Seq<u32>) -> Seq<PlanSlot> {
    if ids.len() == 0 || parsed_slot_count(ids) == 0 {
        seq![default_slot()]
    } else {
        parsed_slots(ids)
    }
}

/// The mode of the plan built from a buffer.
pub open spec fn plan_mode_of(ids: Seq<u32>) -> HybridMode {
    if ids.len() == 0 {
        HybridMode::Alternating
    } else {
        parsed_mode(ids)
    }
}

/// Parse the formula configuration buffer
/// `[num_slots, id, iters, id, iters, ..., mode]` into a plan.
pub fn build_formula_plan(formula_ids: &Vec<u32>) -> (plan: FormulaPlan)
    ensures
        plan.slots@ == plan_slots_of(formula_ids@),
        plan.mode == plan_mode_of(formula_ids@),
        1 <= plan.slots@.len() <= 6,
{
    let n = formula_ids.len();
    if n == 0 {
        let mut slots: Vec<PlanSlot> = Vec::new();
        slots.push(PlanSlot { id: FormulaId::MandelbulbPower8, iterations: 1, active: true });
        proof {
            assert(slots@ =~= plan_slots_of(formula_ids@));
        }
        return FormulaPlan { slots, mode: HybridMode::Alternating };
    }
    let first = formula_ids[0];
    let declared: usize = if first > 6 {
        6
    } else {
        first as usize
    };
    let avail: usize = (n - 1) / 2;
    let count: usize = if declared <= avail {
        declared
    } else {
        avail
    };
    proof {
        assert(count == parsed_slot_count(formula_ids@));
        assert(2 * ((n - 1) as int / 2) <= n - 1) by (nonlinear_arith);
    }
    let mut slots: Vec<PlanSlot> = Vec::new();
    let mut j: usize = 0;
    while j < count
        invariant
            j <= count,
            count == parsed_slot_count(formula_ids@),
            0 < n == formula_ids@.len(),
            2 * count <= n - 1,
            slots@.len() == j,
            forall|k: int|
                0 <= k < j ==> slots@[k] == slot_of_pair(
                    formula_ids@[1 + 2 * k],
                    formula_ids@[2 + 2 * k],
                ),
        decreases count - j,
    {
        let id_code = formula_ids[1 + 2 * j];
        let iters = formula_ids[2 + 2 * j];
        let f = formula_id_from_u32(id_code);
        let active = f != FormulaId::Empty && iters > 0;
        slots.push(PlanSlot { id: f, iterations: iters, active });
        j += 1;
    }
    let m_idx = 1 + 2 * count;
    let mode = if m_idx < n {
        hybrid_mode_from_u32(formula_ids[m_idx])
    } else {
        HybridMode::Alternating
    };
    if slots.len() == 0 {
        slots.push(PlanSlot { id: FormulaId::MandelbulbPower8, iterations: 1, active: true });
        proof {
            assert(slots@ =~= plan_slots_of(formula_ids@));
        }
    } else {
        proof {
            assert(slots@ =~= parsed_slots(formula_ids@));
        }
    }
    FormulaPlan { slots, mode }
}

impl FormulaPlan {
    /// The positions of the active slots, in order, with their per-cycle
    /// iteration counts.
    pub fn active_schedule(&self) -> (r: (Vec<usize>, Vec<u32>))
        ensures
            r.0@.len() == r.1@.len(),
            forall|k: int| 0 <= k < r.0@.len() ==> #[trigger] r.0@[k] < self.slots@.len(),
            forall|k: int|
                0 <= k < r.0@.len() ==> self.slots@[#[trigger] r.0@[k] as int].active,
            forall|k: int|
                0 <= k < r.0@.len() ==> #[trigger] r.1@[k] == self.slots@[r.0@[k] as int]
                    .iterations,
            forall|k1: int, k2: int|
                #![trigger r.0@[k1], r.0@[k2]]
                0 <= k1 < k2 < r.0@.len() ==> r.0@[k1] < r.0@[k2],
            forall|i: int|
                0 <= i < self.slots@.len() && (#[trigger] self.slots@[i]).active ==> exists|k: int|
                    0 <= k < r.0@.len() && r.0@[k] == i,
    {
        let mut idxs: Vec<usize> = Vec::new();
        let mut counts: Vec<u32> = Vec::new();
        let mut i: usize = 0;
        while i < self.slots.len()
            invariant
                i <= self.slots@.len(),
                idxs@.len() == counts@.len(),
                forall|k: int| 0 <= k < idxs@.len() ==> #[trigger] idxs@[k] < i,
                forall|k: int|
                    0 <= k < idxs@.len() ==> self.slots@[#[trigger] idxs@[k] as int].active,
                forall|k: int|
                    0 <= k < idxs@.len() ==> #[trigger] counts@[k] == self.slots@[idxs@[k] as int]
                        .iterations,
                forall|k1: int, k2: int|
                    #![trigger idxs@[k1], idxs@[k2]]
                    0 <= k1 < k2 < idxs@.len() ==> idxs@[k1] < idxs@[k2],
                forall|s: int|
                    0 <= s < i && (#[trigger] self.slots@[s]).active ==> exists|k: int|
                        0 <= k < idxs@.len() && idxs@[k] == s,
            decreases self.slots@.len() - i,
        {
            if self.slots[i].active {
                let ghost prev_idxs = idxs@;
                let ghost prev_counts = counts@;
                idxs.push(i);
                counts.push(self.slots[i].iterations);
                proof {
                    assert(idxs@ == prev_idxs.push(i));
                    assert(counts@ == prev_counts.push(self.slots@[i as int].iterations));
                    assert(idxs@[idxs@.len() - 1] == i);
                    assert(forall|k: int| 0 <= k < prev_idxs.len() ==> #[trigger] idxs@[k] == prev_idxs[k]);
                    assert(forall|k: int| 0 <= k < prev_counts.len() ==> #[trigger] counts@[k] == prev_counts[k]);
                    assert forall|s: int|
                        0 <= s < i + 1 && (#[trigger] self.slots@[s]).active implies exists|k: int|
                        0 <= k < idxs@.len() && idxs@[k] == s by {
                        if s == i {
                            assert(idxs@[idxs@.len() - 1] == s);
                        } else {
                            let k0 = choose|k: int| 0 <= k < prev_idxs.len() && prev_idxs[k] == s;
                            assert(idxs@[k0] == s);
                        }
                    }
                }
            }
            i += 1;
        }
        (idxs, counts)
    }
}

/// How many iterations one slot runs per cycle: its count, at least one.
pub open spec fn slot_span(c: u32) -> int {
    if c == 0 {
        1
    } else {
        c as int
    }
}

/// Total iterations of one full cycle over the slots from position `i` on.
pub open spec fn cycle_len_from(counts: Seq<u32>, i: int) -> int
    recommends
        0 <= i <= counts.len(),
    decreases counts.len() - i,
{
    if i < 0 || i >= counts.len() {
        0
    } else {
        slot_span(counts[i]) + cycle_len_from(counts, i + 1)
    }
}

/// Total iterations of one full cycle over all slots.
pub open spec fn cycle_len(counts: Seq<u32>) -> int {
    cycle_len_from(counts, 0)
}

/// The slot position that performs iteration `off` of a cycle, counting
/// from slot position `i`.
pub open spec fn slot_at_from(counts: Seq<u32>, i: int, off: int) -> int
    recommends
        0 <= i <= counts.len(),
        0 <= off < cycle_len_from(counts, i),
    decreases counts.len() - i,
{
    if i < 0 || i >= counts.len() {
        i
    } else if off < slot_span(counts[i]) {
        i
    } else {
        slot_at_from(counts, i + 1, off - slot_span(counts[i]))
    }
}

/// The slot position that performs global iteration `step` of the
/// alternating schedule: the cycle repeats, and within a cycle each slot
/// takes its span of consecutive iterations.
pub open spec fn spec_slot_for_step(counts: Seq<u32>, step: int) -> int
    recommends
        counts.len() > 0,
{
    if cycle_len(counts) <= 0 {
        0
    } else {
        slot_at_from(counts, 0, step % cycle_len(counts))
    }
}

/// A cycle over the slots from position `i` on runs at least one iteration
/// per remaining slot.
pub proof fn lemma_cycle_len_from_lower(counts: Seq<u32>, i: int)
    requires
        0 <= i <= counts.len(),
    ensures
        cycle_len_from(counts, i) >= counts.len() - i,
    decreases counts.len() - i,
{
    if i < counts.len() {
        lemma_cycle_len_from_lower(counts, i + 1);
    }
}

/// Which active slot performs global iteration `step`, given the active
/// slots' per-cycle iteration counts.
pub fn slot_for_step(counts: &Vec<u32>, step: u64) -> (r: usize)
    requires
        counts@.len() > 0,
    ensures
        r < counts@.len(),
        r == spec_slot_for_step(counts@, step as int),
{
    let mut cyc: u128 = 0;
    let mut i: usize = 0;
    while i < counts.len()
        invariant
            i <= counts@.len(),
            cyc + cycle_len_from(counts@, i as int) == cycle_len(counts@),
            cyc <= i * 0x1_0000_0000,
        decreases counts@.len() - i,
    {
        let c = counts[i];
        let span: u128 = if c == 0 {
            1
        } else {
            c as u128
        };
        cyc = cyc + span;
        i += 1;
    }
    proof {
        lemma_cycle_len_from_lower(counts@, 0);
    }
    let mut rem: u128 = (step as u128) % cyc;
    let mut k: usize = 0;
    while k < counts.len()
        invariant
            0 < counts@.len(),
            k <= counts@.len(),
            rem < cycle_len_from(counts@, k as int),
            cycle_len(counts@) > 0,
            slot_at_from(counts@, k as int, rem as int) == slot_at_from(
                counts@,
                0,
                (step as int) % cycle_len(counts@),
            ),
        decreases counts@.len() - k,
    {
        let c = counts[k];
        let span: u128 = if c == 0 {
            1
        } else {
            c as u128
        };
        if rem < span {
            return k;
        }
        rem = rem - span;
        k += 1;
    }
    proof {
        assert(false);
    }
    0
}

/// The alternating schedule is cyclic: after one full cycle over the slots
/// it picks the same slot again.
pub proof fn lemma_schedule_periodic(counts: Seq<u32>, step: int)
    requires
        counts.len() > 0,
    ensures
        spec_slot_for_step(counts, step + cycle_len(counts)) == spec_slot_for_step(counts, step),
{
    lemma_cycle_len_from_lower(counts, 0);
    vstd::arithmetic::div_mod::lemma_mod_add_multiples_vanish(step, cycle_len(counts));
}

/// With every active slot running a single iteration per cycle, the
/// alternating schedule is plain round-robin.
pub proof fn lemma_uniform_alternation(counts: Seq<u32>, step: int)
    requires
        counts.len() > 0,
        step >= 0,
        forall|i: int| 0 <= i < counts.len() ==> counts[i] == 1,
    ensures
        spec_slot_for_step(counts, step) == step % (counts.len() as int),
{
    lemma_uniform_cycle(counts, 0);
    let off = step % (counts.len() as int);
    lemma_uniform_slot_at(counts, 0, off);
}

proof fn lemma_uniform_cycle(counts: Seq<u32>, i: int)
    requires
        0 <= i <= counts.len(),
        forall|j: int| 0 <= j < counts.len() ==> counts[j] == 1,
    ensures
        cycle_len_from(counts, i) == counts.len() - i,
    decreases counts.len() - i,
{
    if i < counts.len() {
        lemma_uniform_cycle(counts, i + 1);
    }
}

proof fn lemma_uniform_slot_at(counts: Seq<u32>, i: int, off: int)
    requires
        0 <= i <= counts.len(),
        0 <= off < counts.len() - i,
        forall|j: int| 0 <= j < counts.len() ==> counts[j] == 1,
    ensures
        slot_at_from(counts, i, off) == i + off,
    decreases counts.len() - i,
{
    if off >= slot_span(counts[i]) {
        lemma_uniform_slot_at(counts, i + 1, off - 1);
    }
}

} // verus!

