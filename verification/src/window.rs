//! A fixed-height window over memory seen as a ring: one lane walks forward
//! from the program counter, the other backward from the stack pointer.

use vstd::prelude::*;
use vstd::arithmetic::div_mod::lemma_mod_add_multiples_vanish;
use vstd::arithmetic::div_mod::lemma_small_mod;
use vstd::arithmetic::div_mod::lemma_mod_bound;
use vstd::arithmetic::div_mod::lemma_fundamental_div_mod;

verus! {

/// The number of lines that a window has unless another is asked for.
pub const DEFAULT_HEIGHT: usize = 10;

/// A cell of the lane that follows the program counter.
#[derive(Clone, Copy, Debug, PartialEq, Eq)]
pub struct PcCell {
    /// Where the cell lies in memory.
    pub address: usize,
    /// The byte stored there.
    pub value: u8,
    /// How many cells ahead of the program counter this one is.
    pub offset: i128,
}

/// A cell of the lane that follows the stack pointer.
#[derive(Clone, Copy, Debug, PartialEq, Eq)]
pub struct SpCell {
    /// Where the cell lies in memory.
    pub address: usize,
    /// The byte stored there.
    pub value: u8,
}

/// One line of the window: the two lanes side by side.
#[derive(Clone, Copy, Debug, PartialEq, Eq)]
pub struct RenderRow {
    pub pc_cell: PcCell,
    pub sp_cell: SpCell,
}

/// The address `steps` cells after `pc` in a ring of `len` cells.
pub open spec fn forward_address(len: nat, pc: nat, steps: nat) -> nat
    recommends
        len > 0,
{
    (((pc + steps) as int) % (len as int)) as nat
}

/// The address `steps` cells before `sp` in a ring of `len` cells.
pub open spec fn backward_address(len: nat, sp: nat, steps: nat) -> nat
    recommends
        len > 0,
{
    ((sp - steps) % (len as int)) as nat
}

/// Line `i` of the window over a non-empty memory.
pub open spec fn window_row(memory: Seq<u8>, pc: nat, sp: nat, i: nat) -> RenderRow
    recommends
        memory.len() > 0,
{
    let pc_address = forward_address(memory.len(), pc, i);
    let sp_address = backward_address(memory.len(), sp, i);
    RenderRow {
        pc_cell: PcCell {
            address: pc_address as usize,
            value: memory[pc_address as int],
            offset: i as i128,
        },
        sp_cell: SpCell { address: sp_address as usize, value: memory[sp_address as int] },
    }
}

/// The whole window: `height` lines, or none at all over an empty memory.
pub open spec fn window(memory: Seq<u8>, pc: nat, sp: nat, height: nat) -> Seq<RenderRow> {
    if memory.len() == 0 {
        Seq::empty()
    } else {
        Seq::new(height, |i: int| window_row(memory, pc, sp, i as nat))
    }
}

/// Both addresses stay inside the ring.
pub proof fn lemma_addresses_in_range(len: nat, start: nat, steps: nat)
    requires
        len > 0,
    ensures
        forward_address(len, start, steps) < len,
        backward_address(len, start, steps) < len,
{
    lemma_mod_bound((start + steps) as int, len as int);
    lemma_mod_bound(start - steps, len as int);
}

/// One more step forward is the next cell, or cell 0 after the last.
proof fn lemma_forward_next(len: nat, pc: nat, steps: nat)
    requires
        len > 0,
    ensures
        forward_address(len, pc, steps + 1) == if forward_address(len, pc, steps) + 1 == len {
            0
        } else {
            forward_address(len, pc, steps) + 1
        },
{
    let n = len as int;
    let x = (pc + steps) as int;
    lemma_fundamental_div_mod(x, n);
    lemma_mod_bound(x, n);
    let r = x % n;
    let q = x / n;
    if r + 1 == n {
        assert(x + 1 == n * (q + 1) + 0) by (nonlinear_arith)
            requires
                x == n * q + r,
                r + 1 == n,
        ;
        lemma_mod_add_multiples_vanish_by(q + 1, 0, n);
        lemma_small_mod(0, len);
    } else {
        assert(x + 1 == n * q + (r + 1));
        lemma_mod_add_multiples_vanish_by(q, r + 1, n);
        lemma_small_mod((r + 1) as nat, len);
    }
}

/// One more step backward is the cell before, or the last cell before cell 0.
proof fn lemma_backward_next(len: nat, sp: nat, steps: nat)
    requires
        len > 0,
    ensures
        backward_address(len, sp, steps + 1) == if backward_address(len, sp, steps) == 0 {
            (len - 1) as nat
        } else {
            (backward_address(len, sp, steps) - 1) as nat
        },
{
    let n = len as int;
    let x = sp - steps;
    lemma_fundamental_div_mod(x, n);
    lemma_mod_bound(x, n);
    let r = x % n;
    let q = x / n;
    if r == 0 {
        assert(x - 1 == n * (q - 1) + (n - 1)) by (nonlinear_arith)
            requires
                x == n * q + r,
                r == 0,
        ;
        lemma_mod_add_multiples_vanish_by(q - 1, n - 1, n);
        lemma_small_mod((n - 1) as nat, len);
    } else {
        assert(x - 1 == n * q + (r - 1));
        lemma_mod_add_multiples_vanish_by(q, r - 1, n);
        lemma_small_mod((r - 1) as nat, len);
    }
}

/// A multiple of the modulus added to a value does not change its remainder.
proof fn lemma_mod_add_multiples_vanish_by(q: int, r: int, n: int)
    requires
        n > 0,
    ensures
        (n * q + r) % n == r % n,
    decreases (if q >= 0 { q } else { -q }),
{
    if q == 0 {
        assert(n * q + r == r) by (nonlinear_arith)
            requires
                q == 0,
        ;
    } else if q > 0 {
        lemma_mod_add_multiples_vanish_by(q - 1, r, n);
        assert(n * q + r == n + (n * (q - 1) + r)) by (nonlinear_arith);
        lemma_mod_add_multiples_vanish(n * (q - 1) + r, n);
    } else {
        lemma_mod_add_multiples_vanish_by(q + 1, r, n);
        assert(n * (q + 1) + r == n + (n * q + r)) by (nonlinear_arith);
        lemma_mod_add_multiples_vanish(n * q + r, n);
    }
}

/// Computes the window that is shown for a machine's memory: line `i` pairs the
/// cell `i` places after `pc` with the cell `i` places before `sp`, both walks
/// wrapping round the ends of `memory`. An empty memory has no lines.
pub fn render(memory: &Vec<u8>, pc: usize, sp: usize, height: usize) -> (rows: Vec<RenderRow>)
    ensures
        rows@ == window(memory@, pc as nat, sp as nat, height as nat),
        memory@.len() == 0 ==> rows@.len() == 0,
        memory@.len() > 0 ==> rows@.len() == height,
        forall|i: int|
            0 <= i < rows@.len() ==> {
                &&& (#[trigger] rows@[i]).pc_cell.address == (pc + i) % (memory@.len() as int)
                &&& rows@[i].pc_cell.value == memory@[(pc + i) % (memory@.len() as int)]
                &&& rows@[i].pc_cell.offset == i
                &&& rows@[i].sp_cell.address == (sp - i) % (memory@.len() as int)
                &&& rows@[i].sp_cell.value == memory@[(sp - i) % (memory@.len() as int)]
            },
{
    let len = memory.len();
    let mut rows: Vec<RenderRow> = Vec::new();
    if len == 0 {
        return rows;
    }
    let mut pc_address: usize = pc % len;
    let mut sp_address: usize = sp % len;
    let mut i: usize = 0;
    while i < height
        invariant
            len == memory@.len(),
            len > 0,
            i <= height,
            pc_address == forward_address(len as nat, pc as nat, i as nat),
            sp_address == backward_address(len as nat, sp as nat, i as nat),
            pc_address < len,
            sp_address < len,
            rows@.len() == i,
            forall|k: int|
                0 <= k < i ==> rows@[k] == window_row(memory@, pc as nat, sp as nat, k as nat),
        decreases height - i,
    {
        rows.push(
            RenderRow {
                pc_cell: PcCell { address: pc_address, value: memory[pc_address], offset: i as i128 },
                sp_cell: SpCell { address: sp_address, value: memory[sp_address] },
            },
        );
        proof {
            lemma_forward_next(len as nat, pc as nat, i as nat);
            lemma_backward_next(len as nat, sp as nat, i as nat);
        }
        pc_address = if pc_address + 1 == len { 0 } else { pc_address + 1 };
        sp_address = if sp_address == 0 { len - 1 } else { sp_address - 1 };
        i = i + 1;
    }
    proof {
        assert(rows@ =~= window(memory@, pc as nat, sp as nat, height as nat));
        assert forall|k: int| 0 <= k < rows@.len() implies {
            &&& (#[trigger] rows@[k]).pc_cell.address == (pc + k) % (memory@.len() as int)
            &&& rows@[k].pc_cell.value == memory@[(pc + k) % (memory@.len() as int)]
            &&& rows@[k].pc_cell.offset == k
            &&& rows@[k].sp_cell.address == (sp - k) % (memory@.len() as int)
            &&& rows@[k].sp_cell.value == memory@[(sp - k) % (memory@.len() as int)]
        } by {
            lemma_addresses_in_range(len as nat, pc as nat, k as nat);
            lemma_addresses_in_range(len as nat, sp as nat, k as nat);
        }
    }
    rows
}

} // verus!
