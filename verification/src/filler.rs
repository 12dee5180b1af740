//! The budget-filler generator: draw instructions whose only purpose is to
//! push a page's encoded footprint toward a per-page byte budget.
//!
//! The generator is an open-loop estimator: each instruction is charged a
//! fixed nominal cost and the real encoded size is never read back, so the
//! final file size only approximates the requested one.

use vstd::prelude::*;

use crate::DrawCmd;

verus! {

/// Nominal on-disk cost, in bytes, charged per emitted filler instruction.
pub const FILLER_CHUNK_BYTES: u64 = 1024;

/// Length of the filler line: the nominal chunk size minus nine bytes
/// reserved for the instruction's syntactic overhead in the page stream.
pub const FILLER_LINE_LEN: usize = 1024 - 9;

/// The filler line: `FILLER_LINE_LEN` underscores.
pub open spec fn filler_line_spec() -> Seq<char> {
    Seq::new(FILLER_LINE_LEN as nat, |i: int| '_')
}

/// How many filler instructions a byte budget earns: the least count whose
/// summed nominal cost reaches the budget, the ceiling of `budget / 1024`.
pub open spec fn filler_count_spec(budget: int) -> int {
    (budget + FILLER_CHUNK_BYTES - 1) / (FILLER_CHUNK_BYTES as int)
}

/// One filler instruction: the filler line, placed at the page origin,
/// outside the visually meaningful area.
pub open spec fn filler_cmd_ok(cmd: DrawCmd) -> bool {
    &&& cmd.x_mpt == 0
    &&& cmd.y_mpt == 0
    &&& cmd.text@ == filler_line_spec()
}

/// Builds the filler line.
fn build_filler_line() -> (s: String)
    ensures
        s@ == filler_line_spec(),
{
    let mut s = String::new();
    let mut i: usize = 0;
    proof {
        reveal_strlit("_");
    }
    while i < FILLER_LINE_LEN
        invariant
            i <= FILLER_LINE_LEN,
            s@.len() == i,
            forall|j: int| 0 <= j < i ==> s@[j] == '_',
        decreases FILLER_LINE_LEN - i,
    {
        proof {
            reveal_strlit("_");
        }
        s.append("_");
        i = i + 1;
    }
    proof {
        assert(s@ =~= filler_line_spec());
    }
    s
}

/// Emits the filler instructions for one page's byte budget: the filler line
/// at the origin, once per started 1024-byte chunk of the budget, stopping
/// as soon as the summed nominal cost reaches the budget.
pub fn generate_data(size: u64) -> (cmds: Vec<DrawCmd>)
    requires
        filler_count_spec(size as int) <= usize::MAX,
    ensures
        cmds@.len() == filler_count_spec(size as int),
        forall|i: int| 0 <= i < cmds@.len() ==> filler_cmd_ok(#[trigger] cmds@[i]),
{
    let line_gen = build_filler_line();
    let count_wide: u64 = size / FILLER_CHUNK_BYTES + if size % FILLER_CHUNK_BYTES == 0 {
        0
    } else {
        1
    };
    proof {
        lemma_filler_count(size as int);
    }
    let count: usize = count_wide as usize;
    let mut cmds: Vec<DrawCmd> = Vec::new();
    let mut emitted: usize = 0;
    while emitted < count
        invariant
            emitted <= count,
            cmds@.len() == emitted,
            line_gen@ == filler_line_spec(),
            forall|i: int| 0 <= i < emitted ==> filler_cmd_ok(#[trigger] cmds@[i]),
        decreases count - emitted,
    {
        cmds.push(DrawCmd { x_mpt: 0, y_mpt: 0, text: line_gen.clone() });
        emitted = emitted + 1;
    }
    cmds
}

/// The ceiling of `b / 1024` equals the quotient, plus one when the division
/// leaves a remainder.
proof fn lemma_filler_count(b: int)
    requires
        0 <= b,
    ensures
        filler_count_spec(b) == b / 1024 + if b % 1024 == 0 {
            0int
        } else {
            1int
        },
{
    vstd::arithmetic::div_mod::lemma_fundamental_div_mod(b, 1024);
    vstd::arithmetic::div_mod::lemma_mod_division_less_than_divisor(b, 1024);
    vstd::arithmetic::div_mod::lemma_fundamental_div_mod(b + 1023, 1024);
    vstd::arithmetic::div_mod::lemma_mod_division_less_than_divisor(b + 1023, 1024);
}

} // verus!
