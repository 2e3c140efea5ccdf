//! A whole program proved end to end on the datapath: the cycle
//! specification [`step`] is iterated over a concrete image, so the
//! emulator's per-tick contract composes into a statement about the final
//! memory.

use vstd::prelude::*;
use crate::emulator::{fresh_view, running, step, step_ok, EmuView};
use crate::memory::{lemma_read_after_write, word_at};
use crate::words::be_bytes_to_u32;

verus! {

/// The machine state after `n` clock ticks.
pub open spec fn steps(s: EmuView, n: nat) -> EmuView
    decreases n,
{
    if n == 0 {
        s
    } else {
        step(steps(s, (n - 1) as nat))
    }
}

/// The datapath is deterministic: from equal abstract states, iterating
/// the cycle specification yields equal states and equal still-running
/// verdicts at every tick, so two executions over the same instruction
/// stream, memory image and registers coincide bit for bit.
pub proof fn lemma_steps_deterministic(a: EmuView, b: EmuView, n: nat)
    requires
        a == b,
    ensures
        steps(a, n) == steps(b, n),
        running(steps(a, n)) == running(steps(b, n)),
{
}

/// The store-difference program: load the words at data offsets 0 and 4
/// into registers 1 and 2, subtract, store the difference at offset 100.
pub open spec fn store_difference_code() -> Seq<u8> {
    seq![
        0x88u8, 0x01, 0x00, 0x00,  // lw r1, 0(r0)
        0x88u8, 0x02, 0x00, 0x04,  // lw r2, 4(r0)
        0x00u8, 0x22, 0x18, 0x22,  // sub r3, r1, r2
        0xacu8, 0x03, 0x00, 0x64,  // sw r3, 100(r0)
    ]
}

/// Its data image: the constants 5 and 3.
pub open spec fn store_difference_data() -> Seq<u8> {
    seq![0u8, 0, 0, 5, 0u8, 0, 0, 3]
}

/// Running the store-difference program from a fresh machine takes exactly
/// eighteen ticks: every intermediate state is fault-free and still
/// running, and the final state has terminated with the data-memory word
/// at offset 100 equal to 2.
#[verifier::rlimit(100)]
#[verifier::spinoff_prover]
pub proof fn lemma_store_difference_run()
    ensures
        ({
            let s0 = fresh_view(store_difference_code(), store_difference_data());
            &&& forall|k: int|
                0 <= k < 18 ==> step_ok(#[trigger] steps(s0, k as nat)) && running(
                    steps(s0, k as nat),
                )
            &&& !running(steps(s0, 18))
            &&& word_at(steps(s0, 18).mem, 100) == 2
        }),
{
    // The four instruction words and their fields, and the two constants.
    assert(be_bytes_to_u32(0x88, 0x01, 0x00, 0x00) == 0x88010000u32 && (0x88010000u32 >> 26)
        & 0x3f == 34 && 0x88010000u32 & 0x3f == 0 && (0x88010000u32 >> 21) & 0x1f == 0 && (
    0x88010000u32 >> 16) & 0x1f == 1 && ((0x88010000u32 as i32) & 0xff) == 0 && (((0x88010000u32
        as i32) & 0xff) << 2) == 0 && ((0x88010000u32 as i32) as u32) == 0x88010000u32)
        by (bit_vector);
    assert(be_bytes_to_u32(0x88, 0x02, 0x00, 0x04) == 0x88020004u32 && (0x88020004u32 >> 26)
        & 0x3f == 34 && 0x88020004u32 & 0x3f == 4 && (0x88020004u32 >> 21) & 0x1f == 0 && (
    0x88020004u32 >> 16) & 0x1f == 2 && ((0x88020004u32 as i32) & 0xff) == 4 && (((0x88020004u32
        as i32) & 0xff) << 2) == 16 && ((0x88020004u32 as i32) as u32) == 0x88020004u32)
        by (bit_vector);
    assert(be_bytes_to_u32(0x00, 0x22, 0x18, 0x22) == 0x00221822u32 && (0x00221822u32 >> 26)
        & 0x3f == 0 && 0x00221822u32 & 0x3f == 34 && (0x00221822u32 >> 21) & 0x1f == 1 && (
    0x00221822u32 >> 16) & 0x1f == 2 && (0x00221822u32 >> 11) & 0x1f == 3 && ((0x00221822u32
        as i32) & 0xff) == 34 && (((0x00221822u32 as i32) & 0xff) << 2) == 136 && ((0x00221822u32
        as i32) as u32) == 0x00221822u32) by (bit_vector);
    assert(be_bytes_to_u32(0xac, 0x03, 0x00, 0x64) == 0xac030064u32 && (0xac030064u32 >> 26)
        & 0x3f == 43 && 0xac030064u32 & 0x3f == 36 && (0xac030064u32 >> 21) & 0x1f == 0 && (
    0xac030064u32 >> 16) & 0x1f == 3 && ((0xac030064u32 as i32) & 0xff) == 100 && (((0xac030064u32
        as i32) & 0xff) << 2) == 400 && ((0xac030064u32 as i32) as u32) == 0xac030064u32)
        by (bit_vector);
    assert(be_bytes_to_u32(0, 0, 0, 5) == 5 && be_bytes_to_u32(0, 0, 0, 3) == 3) by (bit_vector);

    let s0 = fresh_view(store_difference_code(), store_difference_data());
    let s1 = step(s0);
    let s2 = step(s1);
    let s3 = step(s2);
    let s4 = step(s3);
    let s5 = step(s4);
    let s6 = step(s5);
    let s7 = step(s6);
    let s8 = step(s7);
    let s9 = step(s8);
    let s10 = step(s9);
    let s11 = step(s10);
    let s12 = step(s11);
    let s13 = step(s12);
    let s14 = step(s13);
    let s15 = step(s14);
    let s16 = step(s15);
    let s17 = step(s16);
    let s18 = step(s17);
    assert(steps(s0, 0) == s0);
    assert(steps(s0, 1) == s1);
    assert(steps(s0, 2) == s2);
    assert(steps(s0, 3) == s3);
    assert(steps(s0, 4) == s4);
    assert(steps(s0, 5) == s5);
    assert(steps(s0, 6) == s6);
    assert(steps(s0, 7) == s7);
    assert(steps(s0, 8) == s8);
    assert(steps(s0, 9) == s9);
    assert(steps(s0, 10) == s10);
    assert(steps(s0, 11) == s11);
    assert(steps(s0, 12) == s12);
    assert(steps(s0, 13) == s13);
    assert(steps(s0, 14) == s14);
    assert(steps(s0, 15) == s15);
    assert(steps(s0, 16) == s16);
    assert(steps(s0, 17) == s17);
    assert(steps(s0, 18) == s18);

    // The one memory write of the run: the difference 2 at offset 100.
    lemma_read_after_write(s17.mem, 100, 2);

    assert(step_ok(s0) && running(s0));
    assert(step_ok(s1) && running(s1));
    assert(step_ok(s2) && running(s2));
    assert(step_ok(s3) && running(s3));
    assert(step_ok(s4) && running(s4));
    assert(step_ok(s5) && running(s5));
    assert(step_ok(s6) && running(s6));
    assert(step_ok(s7) && running(s7));
    assert(step_ok(s8) && running(s8));
    assert(step_ok(s9) && running(s9));
    assert(step_ok(s10) && running(s10));
    assert(step_ok(s11) && running(s11));
    assert(step_ok(s12) && running(s12));
    assert(step_ok(s13) && running(s13));
    assert(step_ok(s14) && running(s14));
    assert(step_ok(s15) && running(s15));
    assert(step_ok(s16) && running(s16));
    assert(step_ok(s17) && running(s17));
    assert(!running(s18));
    assert(word_at(s18.mem, 100) == 2);

    assert forall|k: int| 0 <= k < 18 implies step_ok(#[trigger] steps(s0, k as nat)) && running(
        steps(s0, k as nat),
    ) by {
        if k == 0 {
        } else if k == 1 {
        } else if k == 2 {
        } else if k == 3 {
        } else if k == 4 {
        } else if k == 5 {
        } else if k == 6 {
        } else if k == 7 {
        } else if k == 8 {
        } else if k == 9 {
        } else if k == 10 {
        } else if k == 11 {
        } else if k == 12 {
        } else if k == 13 {
        } else if k == 14 {
        } else if k == 15 {
        } else if k == 16 {
        } else {
            assert(k == 17);
        }
    }
}

/// The countdown program: load a counter of 3 and a decrement of 1, then
/// loop: print the counter, decrement it, exit the loop once it reaches
/// zero, else jump back to the print.
pub open spec fn countdown_code() -> Seq<u8> {
    seq![
        0x88u8, 0x01, 0x00, 0x00,  // lw r1, 0(r0)
        0x88u8, 0x02, 0x00, 0x04,  // lw r2, 4(r0)
        0x00u8, 0x20, 0x00, 0x00,  // print r1
        0x00u8, 0x22, 0x08, 0x22,  // sub r1, r1, r2
        0x10u8, 0x20, 0x00, 0x01,  // beq r1, r0, +1
        0x08u8, 0x00, 0x00, 0x02,  // jmp to the print
    ]
}

/// Its data image: the constants 3 and 1.
pub open spec fn countdown_data() -> Seq<u8> {
    seq![0u8, 0, 0, 3, 0u8, 0, 0, 1]
}

/// Running the countdown from a fresh machine takes exactly forty ticks:
/// every intermediate state is fault-free and still running, the final
/// state has terminated, and the debug output is exactly 3, 2, 1.
#[verifier::rlimit(100)]
#[verifier::spinoff_prover]
pub proof fn lemma_countdown_run()
    ensures
        ({
            let s0 = fresh_view(countdown_code(), countdown_data());
            &&& forall|k: int|
                0 <= k < 40 ==> step_ok(#[trigger] steps(s0, k as nat)) && running(
                    steps(s0, k as nat),
                )
            &&& !running(steps(s0, 40))
            &&& steps(s0, 40).output == seq![3i32, 2i32, 1i32]
        }),
{
    // The six instruction words and their fields, and the two constants.
    assert(be_bytes_to_u32(0x88, 0x01, 0x00, 0x00) == 0x88010000u32 && (0x88010000u32 >> 26)
        & 0x3f == 34 && 0x88010000u32 & 0x3f == 0 && (0x88010000u32 >> 21) & 0x1f == 0 && (
    0x88010000u32 >> 16) & 0x1f == 1 && ((0x88010000u32 as i32) & 0xff) == 0 && (((0x88010000u32
        as i32) & 0xff) << 2) == 0 && ((0x88010000u32 as i32) as u32) == 0x88010000u32)
        by (bit_vector);
    assert(be_bytes_to_u32(0x88, 0x02, 0x00, 0x04) == 0x88020004u32 && (0x88020004u32 >> 26)
        & 0x3f == 34 && 0x88020004u32 & 0x3f == 4 && (0x88020004u32 >> 21) & 0x1f == 0 && (
    0x88020004u32 >> 16) & 0x1f == 2 && ((0x88020004u32 as i32) & 0xff) == 4 && (((0x88020004u32
        as i32) & 0xff) << 2) == 16 && ((0x88020004u32 as i32) as u32) == 0x88020004u32)
        by (bit_vector);
    assert(be_bytes_to_u32(0x00, 0x20, 0x00, 0x00) == 0x00200000u32 && (0x00200000u32 >> 26)
        & 0x3f == 0 && 0x00200000u32 & 0x3f == 0 && (0x00200000u32 >> 21) & 0x1f == 1 && (
    0x00200000u32 >> 16) & 0x1f == 0 && ((0x00200000u32 as i32) & 0xff) == 0 && (((0x00200000u32
        as i32) & 0xff) << 2) == 0 && ((0x00200000u32 as i32) as u32) == 0x00200000u32)
        by (bit_vector);
    assert(be_bytes_to_u32(0x00, 0x22, 0x08, 0x22) == 0x00220822u32 && (0x00220822u32 >> 26)
        & 0x3f == 0 && 0x00220822u32 & 0x3f == 34 && (0x00220822u32 >> 21) & 0x1f == 1 && (
    0x00220822u32 >> 16) & 0x1f == 2 && (0x00220822u32 >> 11) & 0x1f == 1 && ((0x00220822u32
        as i32) & 0xff) == 34 && (((0x00220822u32 as i32) & 0xff) << 2) == 136 && ((0x00220822u32
        as i32) as u32) == 0x00220822u32) by (bit_vector);
    assert(be_bytes_to_u32(0x10, 0x20, 0x00, 0x01) == 0x10200001u32 && (0x10200001u32 >> 26)
        & 0x3f == 4 && 0x10200001u32 & 0x3f == 1 && (0x10200001u32 >> 21) & 0x1f == 1 && (
    0x10200001u32 >> 16) & 0x1f == 0 && ((0x10200001u32 as i32) & 0xff) == 1 && (((0x10200001u32
        as i32) & 0xff) << 2) == 4 && ((0x10200001u32 as i32) as u32) == 0x10200001u32)
        by (bit_vector);
    assert(be_bytes_to_u32(0x08, 0x00, 0x00, 0x02) == 0x08000002u32 && (0x08000002u32 >> 26)
        & 0x3f == 2 && 0x08000002u32 & 0x3f == 2 && (0x08000002u32 >> 21) & 0x1f == 0 && (
    0x08000002u32 >> 16) & 0x1f == 0 && ((0x08000002u32 as i32) & 0xff) == 2 && (((0x08000002u32
        as i32) & 0xff) << 2) == 8 && ((0x08000002u32 as i32) as u32) == 0x08000002u32 && ((24usize
        >> 28) << 28) | ((0x08000002u32 as usize & 0x3ffffff) << 2) == 8) by (bit_vector);
    assert(be_bytes_to_u32(0, 0, 0, 3) == 3 && be_bytes_to_u32(0, 0, 0, 1) == 1) by (bit_vector);

    let s0 = fresh_view(countdown_code(), countdown_data());
    let s1 = step(s0);
    let s2 = step(s1);
    let s3 = step(s2);
    let s4 = step(s3);
    let s5 = step(s4);
    let s6 = step(s5);
    let s7 = step(s6);
    let s8 = step(s7);
    let s9 = step(s8);
    let s10 = step(s9);
    let s11 = step(s10);
    let s12 = step(s11);
    let s13 = step(s12);
    let s14 = step(s13);
    let s15 = step(s14);
    let s16 = step(s15);
    let s17 = step(s16);
    let s18 = step(s17);
    let s19 = step(s18);
    let s20 = step(s19);
    let s21 = step(s20);
    let s22 = step(s21);
    let s23 = step(s22);
    let s24 = step(s23);
    let s25 = step(s24);
    let s26 = step(s25);
    let s27 = step(s26);
    let s28 = step(s27);
    let s29 = step(s28);
    let s30 = step(s29);
    let s31 = step(s30);
    let s32 = step(s31);
    let s33 = step(s32);
    let s34 = step(s33);
    let s35 = step(s34);
    let s36 = step(s35);
    let s37 = step(s36);
    let s38 = step(s37);
    let s39 = step(s38);
    let s40 = step(s39);
    assert(steps(s0, 0) == s0);
    assert(steps(s0, 1) == s1);
    assert(steps(s0, 2) == s2);
    assert(steps(s0, 3) == s3);
    assert(steps(s0, 4) == s4);
    assert(steps(s0, 5) == s5);
    assert(steps(s0, 6) == s6);
    assert(steps(s0, 7) == s7);
    assert(steps(s0, 8) == s8);
    assert(steps(s0, 9) == s9);
    assert(steps(s0, 10) == s10);
    assert(steps(s0, 11) == s11);
    assert(steps(s0, 12) == s12);
    assert(steps(s0, 13) == s13);
    assert(steps(s0, 14) == s14);
    assert(steps(s0, 15) == s15);
    assert(steps(s0, 16) == s16);
    assert(steps(s0, 17) == s17);
    assert(steps(s0, 18) == s18);
    assert(steps(s0, 19) == s19);
    assert(steps(s0, 20) == s20);
    assert(steps(s0, 21) == s21);
    assert(steps(s0, 22) == s22);
    assert(steps(s0, 23) == s23);
    assert(steps(s0, 24) == s24);
    assert(steps(s0, 25) == s25);
    assert(steps(s0, 26) == s26);
    assert(steps(s0, 27) == s27);
    assert(steps(s0, 28) == s28);
    assert(steps(s0, 29) == s29);
    assert(steps(s0, 30) == s30);
    assert(steps(s0, 31) == s31);
    assert(steps(s0, 32) == s32);
    assert(steps(s0, 33) == s33);
    assert(steps(s0, 34) == s34);
    assert(steps(s0, 35) == s35);
    assert(steps(s0, 36) == s36);
    assert(steps(s0, 37) == s37);
    assert(steps(s0, 38) == s38);
    assert(steps(s0, 39) == s39);
    assert(steps(s0, 40) == s40);

    assert(step_ok(s0) && running(s0));
    assert(step_ok(s1) && running(s1));
    assert(step_ok(s2) && running(s2));
    assert(step_ok(s3) && running(s3));
    assert(step_ok(s4) && running(s4));
    assert(step_ok(s5) && running(s5));
    assert(step_ok(s6) && running(s6));
    assert(step_ok(s7) && running(s7));
    assert(step_ok(s8) && running(s8));
    assert(step_ok(s9) && running(s9));
    assert(step_ok(s10) && running(s10));
    assert(step_ok(s11) && running(s11));
    assert(step_ok(s12) && running(s12));
    assert(step_ok(s13) && running(s13));
    assert(step_ok(s14) && running(s14));
    assert(step_ok(s15) && running(s15));
    assert(step_ok(s16) && running(s16));
    assert(step_ok(s17) && running(s17));
    assert(step_ok(s18) && running(s18));
    assert(step_ok(s19) && running(s19));
    assert(step_ok(s20) && running(s20));
    assert(step_ok(s21) && running(s21));
    assert(step_ok(s22) && running(s22));
    assert(step_ok(s23) && running(s23));
    assert(step_ok(s24) && running(s24));
    assert(step_ok(s25) && running(s25));
    assert(step_ok(s26) && running(s26));
    assert(step_ok(s27) && running(s27));
    assert(step_ok(s28) && running(s28));
    assert(step_ok(s29) && running(s29));
    assert(step_ok(s30) && running(s30));
    assert(step_ok(s31) && running(s31));
    assert(step_ok(s32) && running(s32));
    assert(step_ok(s33) && running(s33));
    assert(step_ok(s34) && running(s34));
    assert(step_ok(s35) && running(s35));
    assert(step_ok(s36) && running(s36));
    assert(step_ok(s37) && running(s37));
    assert(step_ok(s38) && running(s38));
    assert(step_ok(s39) && running(s39));
    assert(!running(s40));
    assert(s40.output =~= seq![3i32, 2i32, 1i32]);

    assert forall|k: int| 0 <= k < 40 implies step_ok(#[trigger] steps(s0, k as nat)) && running(
        steps(s0, k as nat),
    ) by {
        if k == 0 {
        } else if k == 1 {
        } else if k == 2 {
        } else if k == 3 {
        } else if k == 4 {
        } else if k == 5 {
        } else if k == 6 {
        } else if k == 7 {
        } else if k == 8 {
        } else if k == 9 {
        } else if k == 10 {
        } else if k == 11 {
        } else if k == 12 {
        } else if k == 13 {
        } else if k == 14 {
        } else if k == 15 {
        } else if k == 16 {
        } else if k == 17 {
        } else if k == 18 {
        } else if k == 19 {
        } else if k == 20 {
        } else if k == 21 {
        } else if k == 22 {
        } else if k == 23 {
        } else if k == 24 {
        } else if k == 25 {
        } else if k == 26 {
        } else if k == 27 {
        } else if k == 28 {
        } else if k == 29 {
        } else if k == 30 {
        } else if k == 31 {
        } else if k == 32 {
        } else if k == 33 {
        } else if k == 34 {
        } else if k == 35 {
        } else if k == 36 {
        } else if k == 37 {
        } else if k == 38 {
        } else {
            assert(k == 39);
        }
    }
}

} // verus!
