//! JTAG master on the MPSSE.
//!
//! Pins: TCK on ADBUS0, TDI on ADBUS1, TDO on ADBUS2, TMS on ADBUS3. The bus
//! tracks the state of the target's TAP controller (IEEE 1149.1) and moves it
//! with TMS sequences; navigation between the stable states never passes
//! through Test-Logic-Reset unless a reset is asked for, so the instruction
//! register survives it.

use vstd::prelude::*;

use crate::constants::mpsse;
use crate::error::{Error, Result};

use super::{MpsseRequest, MpsseSession};

verus! {

/// The sixteen states of a JTAG TAP controller.
#[derive(Debug, Clone, Copy, PartialEq, Eq, Structural)]
pub enum TapState {
    TestLogicReset,
    RunTestIdle,
    SelectDrScan,
    CaptureDr,
    ShiftDr,
    Exit1Dr,
    PauseDr,
    Exit2Dr,
    UpdateDr,
    SelectIrScan,
    CaptureIr,
    ShiftIr,
    Exit1Ir,
    PauseIr,
    Exit2Ir,
    UpdateIr,
}

/// The TAP state after one TCK cycle with TMS at `tms`.
pub open spec fn tap_next(s: TapState, tms: bool) -> TapState {
    match s {
        TapState::TestLogicReset => if tms { TapState::TestLogicReset } else { TapState::RunTestIdle },
        TapState::RunTestIdle => if tms { TapState::SelectDrScan } else { TapState::RunTestIdle },
        TapState::SelectDrScan => if tms { TapState::SelectIrScan } else { TapState::CaptureDr },
        TapState::CaptureDr => if tms { TapState::Exit1Dr } else { TapState::ShiftDr },
        TapState::ShiftDr => if tms { TapState::Exit1Dr } else { TapState::ShiftDr },
        TapState::Exit1Dr => if tms { TapState::UpdateDr } else { TapState::PauseDr },
        TapState::PauseDr => if tms { TapState::Exit2Dr } else { TapState::PauseDr },
        TapState::Exit2Dr => if tms { TapState::UpdateDr } else { TapState::ShiftDr },
        TapState::UpdateDr => if tms { TapState::SelectDrScan } else { TapState::RunTestIdle },
        TapState::SelectIrScan => if tms { TapState::TestLogicReset } else { TapState::CaptureIr },
        TapState::CaptureIr => if tms { TapState::Exit1Ir } else { TapState::ShiftIr },
        TapState::ShiftIr => if tms { TapState::Exit1Ir } else { TapState::ShiftIr },
        TapState::Exit1Ir => if tms { TapState::UpdateIr } else { TapState::PauseIr },
        TapState::PauseIr => if tms { TapState::Exit2Ir } else { TapState::PauseIr },
        TapState::Exit2Ir => if tms { TapState::UpdateIr } else { TapState::ShiftIr },
        TapState::UpdateIr => if tms { TapState::SelectDrScan } else { TapState::RunTestIdle },
    }
}

/// The TAP state after clocking `tms[i..]` from `s`.
pub open spec fn run_from(s: TapState, tms: Seq<bool>, i: int) -> TapState
    decreases tms.len() - i,
{
    if i < 0 || i >= tms.len() {
        s
    } else {
        run_from(tap_next(s, tms[i]), tms, i + 1)
    }
}

/// The TAP state after clocking the TMS sequence `tms` from `s`.
pub open spec fn run_tms(s: TapState, tms: Seq<bool>) -> TapState {
    run_from(s, tms, 0)
}

/// Whether clocking `tms[i..]` from `s` enters Test-Logic-Reset on some
/// cycle.
pub open spec fn visits_reset_from(s: TapState, tms: Seq<bool>, i: int) -> bool
    decreases tms.len() - i,
{
    if i < 0 || i >= tms.len() {
        false
    } else {
        tap_next(s, tms[i]) == TapState::TestLogicReset || visits_reset_from(
            tap_next(s, tms[i]),
            tms,
            i + 1,
        )
    }
}

/// Whether clocking `tms` from `s` enters Test-Logic-Reset on some cycle
/// (which resets the target's instruction register).
pub open spec fn visits_reset(s: TapState, tms: Seq<bool>) -> bool {
    visits_reset_from(s, tms, 0)
}

/// The TMS sequence that moves the TAP from `s` to Run-Test/Idle without
/// passing through Test-Logic-Reset.
pub open spec fn to_idle(s: TapState) -> Seq<bool> {
    match s {
        TapState::TestLogicReset => seq![false],
        TapState::RunTestIdle => seq![],
        TapState::SelectDrScan => seq![false, true, true, false],
        TapState::CaptureDr => seq![true, true, false],
        TapState::ShiftDr => seq![true, true, false],
        TapState::Exit1Dr => seq![true, false],
        TapState::PauseDr => seq![true, true, false],
        TapState::Exit2Dr => seq![true, false],
        TapState::UpdateDr => seq![false],
        TapState::SelectIrScan => seq![false, true, true, false],
        TapState::CaptureIr => seq![true, true, false],
        TapState::ShiftIr => seq![true, true, false],
        TapState::Exit1Ir => seq![true, false],
        TapState::PauseIr => seq![true, true, false],
        TapState::Exit2Ir => seq![true, false],
        TapState::UpdateIr => seq![false],
    }
}

/// The TMS sequence that moves the TAP from `s` to Shift-DR: directly
/// within a DR scan that is under way (resuming a paused scan), otherwise
/// through Run-Test/Idle.
pub open spec fn to_shift_dr(s: TapState) -> Seq<bool> {
    match s {
        TapState::TestLogicReset => seq![false, true, false, false],
        TapState::RunTestIdle => seq![true, false, false],
        TapState::SelectDrScan => seq![false, false],
        TapState::CaptureDr => seq![false],
        TapState::ShiftDr => seq![],
        TapState::Exit1Dr => seq![false, true, false],
        TapState::PauseDr => seq![true, false],
        TapState::Exit2Dr => seq![false],
        TapState::UpdateDr => seq![false, true, false, false],
        TapState::SelectIrScan => seq![false, true, true, false, true, false, false],
        TapState::CaptureIr => seq![true, true, false, true, false, false],
        TapState::ShiftIr => seq![true, true, false, true, false, false],
        TapState::Exit1Ir => seq![true, false, true, false, false],
        TapState::PauseIr => seq![true, true, false, true, false, false],
        TapState::Exit2Ir => seq![true, false, true, false, false],
        TapState::UpdateIr => seq![false, true, false, false],
    }
}

/// The TMS sequence that moves the TAP from `s` to Shift-IR: directly
/// within an IR scan that is under way, otherwise through Run-Test/Idle.
pub open spec fn to_shift_ir(s: TapState) -> Seq<bool> {
    match s {
        TapState::TestLogicReset => seq![false, true, true, false, false],
        TapState::RunTestIdle => seq![true, true, false, false],
        TapState::SelectDrScan => seq![false, true, true, false, true, true, false, false],
        TapState::CaptureDr => seq![true, true, false, true, true, false, false],
        TapState::ShiftDr => seq![true, true, false, true, true, false, false],
        TapState::Exit1Dr => seq![true, false, true, true, false, false],
        TapState::PauseDr => seq![true, true, false, true, true, false, false],
        TapState::Exit2Dr => seq![true, false, true, true, false, false],
        TapState::UpdateDr => seq![false, true, true, false, false],
        TapState::SelectIrScan => seq![false, false],
        TapState::CaptureIr => seq![false],
        TapState::ShiftIr => seq![],
        TapState::Exit1Ir => seq![false, true, false],
        TapState::PauseIr => seq![true, false],
        TapState::Exit2Ir => seq![false],
        TapState::UpdateIr => seq![false, true, true, false, false],
    }
}

/// Five cycles with TMS high: the reset sequence.
pub open spec fn reset_tms() -> Seq<bool> {
    seq![true, true, true, true, true]
}

/// The TAP state after one TCK cycle with TMS at `tms`.
pub fn next_state(s: TapState, tms: bool) -> (r: TapState)
    ensures
        r == tap_next(s, tms),
{
    match s {
        TapState::TestLogicReset => if tms { TapState::TestLogicReset } else { TapState::RunTestIdle },
        TapState::RunTestIdle => if tms { TapState::SelectDrScan } else { TapState::RunTestIdle },
        TapState::SelectDrScan => if tms { TapState::SelectIrScan } else { TapState::CaptureDr },
        TapState::CaptureDr => if tms { TapState::Exit1Dr } else { TapState::ShiftDr },
        TapState::ShiftDr => if tms { TapState::Exit1Dr } else { TapState::ShiftDr },
        TapState::Exit1Dr => if tms { TapState::UpdateDr } else { TapState::PauseDr },
        TapState::PauseDr => if tms { TapState::Exit2Dr } else { TapState::PauseDr },
        TapState::Exit2Dr => if tms { TapState::UpdateDr } else { TapState::ShiftDr },
        TapState::UpdateDr => if tms { TapState::SelectDrScan } else { TapState::RunTestIdle },
        TapState::SelectIrScan => if tms { TapState::TestLogicReset } else { TapState::CaptureIr },
        TapState::CaptureIr => if tms { TapState::Exit1Ir } else { TapState::ShiftIr },
        TapState::ShiftIr => if tms { TapState::Exit1Ir } else { TapState::ShiftIr },
        TapState::Exit1Ir => if tms { TapState::UpdateIr } else { TapState::PauseIr },
        TapState::PauseIr => if tms { TapState::Exit2Ir } else { TapState::PauseIr },
        TapState::Exit2Ir => if tms { TapState::UpdateIr } else { TapState::ShiftIr },
        TapState::UpdateIr => if tms { TapState::SelectDrScan } else { TapState::RunTestIdle },
    }
}

/// The TAP state after clocking `tms` from `s`.
pub fn run_tms_exec(s: TapState, tms: &[bool]) -> (r: TapState)
    ensures
        r == run_tms(s, tms@),
{
    let mut st = s;
    let mut i: usize = 0;
    while i < tms.len()
        invariant
            i <= tms@.len(),
            run_from(st, tms@, i as int) == run_tms(s, tms@),
        decreases tms@.len() - i,
    {
        st = next_state(st, tms[i]);
        i += 1;
    }
    st
}

fn push_all(v: &mut Vec<bool>, bits: &[bool])
    ensures
        final(v)@ == old(v)@ + bits@,
{
    let mut i: usize = 0;
    while i < bits.len()
        invariant
            i <= bits@.len(),
            v@ == old(v)@ + bits@.take(i as int),
        decreases bits@.len() - i,
    {
        v.push(bits[i]);
        i += 1;
        assert(v@ =~= old(v)@ + bits@.take(i as int));
    }
    assert(bits@.take(bits@.len() as int) =~= bits@);
}

/// The TMS sequence from `s` to Run-Test/Idle.
pub fn idle_path(s: TapState) -> (p: Vec<bool>)
    ensures
        p@ == to_idle(s),
{
    let mut p: Vec<bool> = Vec::new();
    match s {
        TapState::TestLogicReset => push_all(&mut p, &[false]),
        TapState::RunTestIdle => {},
        TapState::SelectDrScan => push_all(&mut p, &[false, true, true, false]),
        TapState::CaptureDr => push_all(&mut p, &[true, true, false]),
        TapState::ShiftDr => push_all(&mut p, &[true, true, false]),
        TapState::Exit1Dr => push_all(&mut p, &[true, false]),
        TapState::PauseDr => push_all(&mut p, &[true, true, false]),
        TapState::Exit2Dr => push_all(&mut p, &[true, false]),
        TapState::UpdateDr => push_all(&mut p, &[false]),
        TapState::SelectIrScan => push_all(&mut p, &[false, true, true, false]),
        TapState::CaptureIr => push_all(&mut p, &[true, true, false]),
        TapState::ShiftIr => push_all(&mut p, &[true, true, false]),
        TapState::Exit1Ir => push_all(&mut p, &[true, false]),
        TapState::PauseIr => push_all(&mut p, &[true, true, false]),
        TapState::Exit2Ir => push_all(&mut p, &[true, false]),
        TapState::UpdateIr => push_all(&mut p, &[false]),
    }
    p
}

/// The TMS sequence from `s` to Shift-DR.
pub fn shift_dr_path(s: TapState) -> (p: Vec<bool>)
    ensures
        p@ == to_shift_dr(s),
{
    let mut p: Vec<bool> = Vec::new();
    match s {
        TapState::TestLogicReset => push_all(&mut p, &[false, true, false, false]),
        TapState::RunTestIdle => push_all(&mut p, &[true, false, false]),
        TapState::SelectDrScan => push_all(&mut p, &[false, false]),
        TapState::CaptureDr => push_all(&mut p, &[false]),
        TapState::ShiftDr => {},
        TapState::Exit1Dr => push_all(&mut p, &[false, true, false]),
        TapState::PauseDr => push_all(&mut p, &[true, false]),
        TapState::Exit2Dr => push_all(&mut p, &[false]),
        TapState::UpdateDr => push_all(&mut p, &[false, true, false, false]),
        TapState::SelectIrScan => push_all(&mut p, &[false, true, true, false, true, false, false]),
        TapState::CaptureIr => push_all(&mut p, &[true, true, false, true, false, false]),
        TapState::ShiftIr => push_all(&mut p, &[true, true, false, true, false, false]),
        TapState::Exit1Ir => push_all(&mut p, &[true, false, true, false, false]),
        TapState::PauseIr => push_all(&mut p, &[true, true, false, true, false, false]),
        TapState::Exit2Ir => push_all(&mut p, &[true, false, true, false, false]),
        TapState::UpdateIr => push_all(&mut p, &[false, true, false, false]),
    }
    p
}

/// The TMS sequence from `s` to Shift-IR.
pub fn shift_ir_path(s: TapState) -> (p: Vec<bool>)
    ensures
        p@ == to_shift_ir(s),
{
    let mut p: Vec<bool> = Vec::new();
    match s {
        TapState::TestLogicReset => push_all(&mut p, &[false, true, true, false, false]),
        TapState::RunTestIdle => push_all(&mut p, &[true, true, false, false]),
        TapState::SelectDrScan => push_all(&mut p, &[false, true, true, false, true, true, false, false]),
        TapState::CaptureDr => push_all(&mut p, &[true, true, false, true, true, false, false]),
        TapState::ShiftDr => push_all(&mut p, &[true, true, false, true, true, false, false]),
        TapState::Exit1Dr => push_all(&mut p, &[true, false, true, true, false, false]),
        TapState::PauseDr => push_all(&mut p, &[true, true, false, true, true, false, false]),
        TapState::Exit2Dr => push_all(&mut p, &[true, false, true, true, false, false]),
        TapState::UpdateDr => push_all(&mut p, &[false, true, true, false, false]),
        TapState::SelectIrScan => push_all(&mut p, &[false, false]),
        TapState::CaptureIr => push_all(&mut p, &[false]),
        TapState::ShiftIr => {},
        TapState::Exit1Ir => push_all(&mut p, &[false, true, false]),
        TapState::PauseIr => push_all(&mut p, &[true, false]),
        TapState::Exit2Ir => push_all(&mut p, &[false]),
        TapState::UpdateIr => push_all(&mut p, &[false, true, true, false, false]),
    }
    p
}

/// The reset sequence: five cycles with TMS high.
pub fn reset_path() -> (p: Vec<bool>)
    ensures
        p@ == reset_tms(),
{
    let mut p: Vec<bool> = Vec::new();
    push_all(&mut p, &[true, true, true, true, true]);
    p
}

// ---------------------------------------------------------------------------
// Laws
// ---------------------------------------------------------------------------

/// Five TCK cycles with TMS high bring the TAP to Test-Logic-Reset from
/// every state.
pub proof fn lemma_reset_from_anywhere(s: TapState)
    ensures
        run_tms(s, reset_tms()) == TapState::TestLogicReset,
{
    reveal_with_fuel(run_from, 6);
    match s {
        TapState::TestLogicReset => {
            assert(run_tms(TapState::TestLogicReset, reset_tms()) == TapState::TestLogicReset);
        },
        TapState::RunTestIdle => {
            assert(run_tms(TapState::RunTestIdle, reset_tms()) == TapState::TestLogicReset);
        },
        TapState::SelectDrScan => {
            assert(run_tms(TapState::SelectDrScan, reset_tms()) == TapState::TestLogicReset);
        },
        TapState::CaptureDr => {
            assert(run_tms(TapState::CaptureDr, reset_tms()) == TapState::TestLogicReset);
        },
        TapState::ShiftDr => {
            assert(run_tms(TapState::ShiftDr, reset_tms()) == TapState::TestLogicReset);
        },
        TapState::Exit1Dr => {
            assert(run_tms(TapState::Exit1Dr, reset_tms()) == TapState::TestLogicReset);
        },
        TapState::PauseDr => {
            assert(run_tms(TapState::PauseDr, reset_tms()) == TapState::TestLogicReset);
        },
        TapState::Exit2Dr => {
            assert(run_tms(TapState::Exit2Dr, reset_tms()) == TapState::TestLogicReset);
        },
        TapState::UpdateDr => {
            assert(run_tms(TapState::UpdateDr, reset_tms()) == TapState::TestLogicReset);
        },
        TapState::SelectIrScan => {
            assert(run_tms(TapState::SelectIrScan, reset_tms()) == TapState::TestLogicReset);
        },
        TapState::CaptureIr => {
            assert(run_tms(TapState::CaptureIr, reset_tms()) == TapState::TestLogicReset);
        },
        TapState::ShiftIr => {
            assert(run_tms(TapState::ShiftIr, reset_tms()) == TapState::TestLogicReset);
        },
        TapState::Exit1Ir => {
            assert(run_tms(TapState::Exit1Ir, reset_tms()) == TapState::TestLogicReset);
        },
        TapState::PauseIr => {
            assert(run_tms(TapState::PauseIr, reset_tms()) == TapState::TestLogicReset);
        },
        TapState::Exit2Ir => {
            assert(run_tms(TapState::Exit2Ir, reset_tms()) == TapState::TestLogicReset);
        },
        TapState::UpdateIr => {
            assert(run_tms(TapState::UpdateIr, reset_tms()) == TapState::TestLogicReset);
        },
    }
}

/// Moving from any state to Run-Test/Idle ends there and never enters
/// Test-Logic-Reset on the way.
pub proof fn lemma_to_idle(s: TapState)
    ensures
        run_tms(s, to_idle(s)) == TapState::RunTestIdle,
        !visits_reset(s, to_idle(s)),
{
    reveal_with_fuel(run_from, 5);
    reveal_with_fuel(visits_reset_from, 5);
    match s {
        TapState::TestLogicReset => {
            assert(run_tms(TapState::TestLogicReset, to_idle(TapState::TestLogicReset)) == TapState::RunTestIdle);
            assert(!visits_reset(TapState::TestLogicReset, to_idle(TapState::TestLogicReset)));
        },
        TapState::RunTestIdle => {
            assert(run_tms(TapState::RunTestIdle, to_idle(TapState::RunTestIdle)) == TapState::RunTestIdle);
            assert(!visits_reset(TapState::RunTestIdle, to_idle(TapState::RunTestIdle)));
        },
        TapState::SelectDrScan => {
            assert(run_tms(TapState::SelectDrScan, to_idle(TapState::SelectDrScan)) == TapState::RunTestIdle);
            assert(!visits_reset(TapState::SelectDrScan, to_idle(TapState::SelectDrScan)));
        },
        TapState::CaptureDr => {
            assert(run_tms(TapState::CaptureDr, to_idle(TapState::CaptureDr)) == TapState::RunTestIdle);
            assert(!visits_reset(TapState::CaptureDr, to_idle(TapState::CaptureDr)));
        },
        TapState::ShiftDr => {
            assert(run_tms(TapState::ShiftDr, to_idle(TapState::ShiftDr)) == TapState::RunTestIdle);
            assert(!visits_reset(TapState::ShiftDr, to_idle(TapState::ShiftDr)));
        },
        TapState::Exit1Dr => {
            assert(run_tms(TapState::Exit1Dr, to_idle(TapState::Exit1Dr)) == TapState::RunTestIdle);
            assert(!visits_reset(TapState::Exit1Dr, to_idle(TapState::Exit1Dr)));
        },
        TapState::PauseDr => {
            assert(run_tms(TapState::PauseDr, to_idle(TapState::PauseDr)) == TapState::RunTestIdle);
            assert(!visits_reset(TapState::PauseDr, to_idle(TapState::PauseDr)));
        },
        TapState::Exit2Dr => {
            assert(run_tms(TapState::Exit2Dr, to_idle(TapState::Exit2Dr)) == TapState::RunTestIdle);
            assert(!visits_reset(TapState::Exit2Dr, to_idle(TapState::Exit2Dr)));
        },
        TapState::UpdateDr => {
            assert(run_tms(TapState::UpdateDr, to_idle(TapState::UpdateDr)) == TapState::RunTestIdle);
            assert(!visits_reset(TapState::UpdateDr, to_idle(TapState::UpdateDr)));
        },
        TapState::SelectIrScan => {
            assert(run_tms(TapState::SelectIrScan, to_idle(TapState::SelectIrScan)) == TapState::RunTestIdle);
            assert(!visits_reset(TapState::SelectIrScan, to_idle(TapState::SelectIrScan)));
        },
        TapState::CaptureIr => {
            assert(run_tms(TapState::CaptureIr, to_idle(TapState::CaptureIr)) == TapState::RunTestIdle);
            assert(!visits_reset(TapState::CaptureIr, to_idle(TapState::CaptureIr)));
        },
        TapState::ShiftIr => {
            assert(run_tms(TapState::ShiftIr, to_idle(TapState::ShiftIr)) == TapState::RunTestIdle);
            assert(!visits_reset(TapState::ShiftIr, to_idle(TapState::ShiftIr)));
        },
        TapState::Exit1Ir => {
            assert(run_tms(TapState::Exit1Ir, to_idle(TapState::Exit1Ir)) == TapState::RunTestIdle);
            assert(!visits_reset(TapState::Exit1Ir, to_idle(TapState::Exit1Ir)));
        },
        TapState::PauseIr => {
            assert(run_tms(TapState::PauseIr, to_idle(TapState::PauseIr)) == TapState::RunTestIdle);
            assert(!visits_reset(TapState::PauseIr, to_idle(TapState::PauseIr)));
        },
        TapState::Exit2Ir => {
            assert(run_tms(TapState::Exit2Ir, to_idle(TapState::Exit2Ir)) == TapState::RunTestIdle);
            assert(!visits_reset(TapState::Exit2Ir, to_idle(TapState::Exit2Ir)));
        },
        TapState::UpdateIr => {
            assert(run_tms(TapState::UpdateIr, to_idle(TapState::UpdateIr)) == TapState::RunTestIdle);
            assert(!visits_reset(TapState::UpdateIr, to_idle(TapState::UpdateIr)));
        },
    }
}

/// Moving from any state to Shift-DR ends there and never enters
/// Test-Logic-Reset on the way.
pub proof fn lemma_to_shift_dr(s: TapState)
    ensures
        run_tms(s, to_shift_dr(s)) == TapState::ShiftDr,
        !visits_reset(s, to_shift_dr(s)),
{
    reveal_with_fuel(run_from, 8);
    reveal_with_fuel(visits_reset_from, 8);
    match s {
        TapState::TestLogicReset => {
            assert(run_tms(TapState::TestLogicReset, to_shift_dr(TapState::TestLogicReset)) == TapState::ShiftDr);
            assert(!visits_reset(TapState::TestLogicReset, to_shift_dr(TapState::TestLogicReset)));
        },
        TapState::RunTestIdle => {
            assert(run_tms(TapState::RunTestIdle, to_shift_dr(TapState::RunTestIdle)) == TapState::ShiftDr);
            assert(!visits_reset(TapState::RunTestIdle, to_shift_dr(TapState::RunTestIdle)));
        },
        TapState::SelectDrScan => {
            assert(run_tms(TapState::SelectDrScan, to_shift_dr(TapState::SelectDrScan)) == TapState::ShiftDr);
            assert(!visits_reset(TapState::SelectDrScan, to_shift_dr(TapState::SelectDrScan)));
        },
        TapState::CaptureDr => {
            assert(run_tms(TapState::CaptureDr, to_shift_dr(TapState::CaptureDr)) == TapState::ShiftDr);
            assert(!visits_reset(TapState::CaptureDr, to_shift_dr(TapState::CaptureDr)));
        },
        TapState::ShiftDr => {
            assert(run_tms(TapState::ShiftDr, to_shift_dr(TapState::ShiftDr)) == TapState::ShiftDr);
            assert(!visits_reset(TapState::ShiftDr, to_shift_dr(TapState::ShiftDr)));
        },
        TapState::Exit1Dr => {
            assert(run_tms(TapState::Exit1Dr, to_shift_dr(TapState::Exit1Dr)) == TapState::ShiftDr);
            assert(!visits_reset(TapState::Exit1Dr, to_shift_dr(TapState::Exit1Dr)));
        },
        TapState::PauseDr => {
            assert(run_tms(TapState::PauseDr, to_shift_dr(TapState::PauseDr)) == TapState::ShiftDr);
            assert(!visits_reset(TapState::PauseDr, to_shift_dr(TapState::PauseDr)));
        },
        TapState::Exit2Dr => {
            assert(run_tms(TapState::Exit2Dr, to_shift_dr(TapState::Exit2Dr)) == TapState::ShiftDr);
            assert(!visits_reset(TapState::Exit2Dr, to_shift_dr(TapState::Exit2Dr)));
        },
        TapState::UpdateDr => {
            assert(run_tms(TapState::UpdateDr, to_shift_dr(TapState::UpdateDr)) == TapState::ShiftDr);
            assert(!visits_reset(TapState::UpdateDr, to_shift_dr(TapState::UpdateDr)));
        },
        TapState::SelectIrScan => {
            assert(run_tms(TapState::SelectIrScan, to_shift_dr(TapState::SelectIrScan)) == TapState::ShiftDr);
            assert(!visits_reset(TapState::SelectIrScan, to_shift_dr(TapState::SelectIrScan)));
        },
        TapState::CaptureIr => {
            assert(run_tms(TapState::CaptureIr, to_shift_dr(TapState::CaptureIr)) == TapState::ShiftDr);
            assert(!visits_reset(TapState::CaptureIr, to_shift_dr(TapState::CaptureIr)));
        },
        TapState::ShiftIr => {
            assert(run_tms(TapState::ShiftIr, to_shift_dr(TapState::ShiftIr)) == TapState::ShiftDr);
            assert(!visits_reset(TapState::ShiftIr, to_shift_dr(TapState::ShiftIr)));
        },
        TapState::Exit1Ir => {
            assert(run_tms(TapState::Exit1Ir, to_shift_dr(TapState::Exit1Ir)) == TapState::ShiftDr);
            assert(!visits_reset(TapState::Exit1Ir, to_shift_dr(TapState::Exit1Ir)));
        },
        TapState::PauseIr => {
            assert(run_tms(TapState::PauseIr, to_shift_dr(TapState::PauseIr)) == TapState::ShiftDr);
            assert(!visits_reset(TapState::PauseIr, to_shift_dr(TapState::PauseIr)));
        },
        TapState::Exit2Ir => {
            assert(run_tms(TapState::Exit2Ir, to_shift_dr(TapState::Exit2Ir)) == TapState::ShiftDr);
            assert(!visits_reset(TapState::Exit2Ir, to_shift_dr(TapState::Exit2Ir)));
        },
        TapState::UpdateIr => {
            assert(run_tms(TapState::UpdateIr, to_shift_dr(TapState::UpdateIr)) == TapState::ShiftDr);
            assert(!visits_reset(TapState::UpdateIr, to_shift_dr(TapState::UpdateIr)));
        },
    }
}

/// Moving from any state to Shift-IR ends there and never enters
/// Test-Logic-Reset on the way.
pub proof fn lemma_to_shift_ir(s: TapState)
    ensures
        run_tms(s, to_shift_ir(s)) == TapState::ShiftIr,
        !visits_reset(s, to_shift_ir(s)),
{
    reveal_with_fuel(run_from, 9);
    reveal_with_fuel(visits_reset_from, 9);
    match s {
        TapState::TestLogicReset => {
            assert(run_tms(TapState::TestLogicReset, to_shift_ir(TapState::TestLogicReset)) == TapState::ShiftIr);
            assert(!visits_reset(TapState::TestLogicReset, to_shift_ir(TapState::TestLogicReset)));
        },
        TapState::RunTestIdle => {
            assert(run_tms(TapState::RunTestIdle, to_shift_ir(TapState::RunTestIdle)) == TapState::ShiftIr);
            assert(!visits_reset(TapState::RunTestIdle, to_shift_ir(TapState::RunTestIdle)));
        },
        TapState::SelectDrScan => {
            assert(run_tms(TapState::SelectDrScan, to_shift_ir(TapState::SelectDrScan)) == TapState::ShiftIr);
            assert(!visits_reset(TapState::SelectDrScan, to_shift_ir(TapState::SelectDrScan)));
        },
        TapState::CaptureDr => {
            assert(run_tms(TapState::CaptureDr, to_shift_ir(TapState::CaptureDr)) == TapState::ShiftIr);
            assert(!visits_reset(TapState::CaptureDr, to_shift_ir(TapState::CaptureDr)));
        },
        TapState::ShiftDr => {
            assert(run_tms(TapState::ShiftDr, to_shift_ir(TapState::ShiftDr)) == TapState::ShiftIr);
            assert(!visits_reset(TapState::ShiftDr, to_shift_ir(TapState::ShiftDr)));
        },
        TapState::Exit1Dr => {
            assert(run_tms(TapState::Exit1Dr, to_shift_ir(TapState::Exit1Dr)) == TapState::ShiftIr);
            assert(!visits_reset(TapState::Exit1Dr, to_shift_ir(TapState::Exit1Dr)));
        },
        TapState::PauseDr => {
            assert(run_tms(TapState::PauseDr, to_shift_ir(TapState::PauseDr)) == TapState::ShiftIr);
            assert(!visits_reset(TapState::PauseDr, to_shift_ir(TapState::PauseDr)));
        },
        TapState::Exit2Dr => {
            assert(run_tms(TapState::Exit2Dr, to_shift_ir(TapState::Exit2Dr)) == TapState::ShiftIr);
            assert(!visits_reset(TapState::Exit2Dr, to_shift_ir(TapState::Exit2Dr)));
        },
        TapState::UpdateDr => {
            assert(run_tms(TapState::UpdateDr, to_shift_ir(TapState::UpdateDr)) == TapState::ShiftIr);
            assert(!visits_reset(TapState::UpdateDr, to_shift_ir(TapState::UpdateDr)));
        },
        TapState::SelectIrScan => {
            assert(run_tms(TapState::SelectIrScan, to_shift_ir(TapState::SelectIrScan)) == TapState::ShiftIr);
            assert(!visits_reset(TapState::SelectIrScan, to_shift_ir(TapState::SelectIrScan)));
        },
        TapState::CaptureIr => {
            assert(run_tms(TapState::CaptureIr, to_shift_ir(TapState::CaptureIr)) == TapState::ShiftIr);
            assert(!visits_reset(TapState::CaptureIr, to_shift_ir(TapState::CaptureIr)));
        },
        TapState::ShiftIr => {
            assert(run_tms(TapState::ShiftIr, to_shift_ir(TapState::ShiftIr)) == TapState::ShiftIr);
            assert(!visits_reset(TapState::ShiftIr, to_shift_ir(TapState::ShiftIr)));
        },
        TapState::Exit1Ir => {
            assert(run_tms(TapState::Exit1Ir, to_shift_ir(TapState::Exit1Ir)) == TapState::ShiftIr);
            assert(!visits_reset(TapState::Exit1Ir, to_shift_ir(TapState::Exit1Ir)));
        },
        TapState::PauseIr => {
            assert(run_tms(TapState::PauseIr, to_shift_ir(TapState::PauseIr)) == TapState::ShiftIr);
            assert(!visits_reset(TapState::PauseIr, to_shift_ir(TapState::PauseIr)));
        },
        TapState::Exit2Ir => {
            assert(run_tms(TapState::Exit2Ir, to_shift_ir(TapState::Exit2Ir)) == TapState::ShiftIr);
            assert(!visits_reset(TapState::Exit2Ir, to_shift_ir(TapState::Exit2Ir)));
        },
        TapState::UpdateIr => {
            assert(run_tms(TapState::UpdateIr, to_shift_ir(TapState::UpdateIr)) == TapState::ShiftIr);
            assert(!visits_reset(TapState::UpdateIr, to_shift_ir(TapState::UpdateIr)));
        },
    }
}

} // verus!

verus! {

// ---------------------------------------------------------------------------
// Bits and bytes
// ---------------------------------------------------------------------------

/// `2^n`.
pub open spec fn pow2i(n: nat) -> int
    decreases n,
{
    if n == 0 {
        1
    } else {
        2 * pow2i((n - 1) as nat)
    }
}

/// Bit `k` of `b`.
pub open spec fn bit_of(b: u8, k: int) -> bool {
    (b as int / pow2i(k as nat)) % 2 == 1
}

/// The number whose bit `i` is `bits[i]` (least significant first).
pub open spec fn bits_value(bits: Seq<bool>) -> int
    decreases bits.len(),
{
    if bits.len() == 0 {
        0
    } else {
        bits_value(bits.drop_last()) + (if bits.last() {
            pow2i((bits.len() - 1) as nat)
        } else {
            0
        })
    }
}

/// The first `n` bits of `data`, least significant bit of the first byte
/// first.
pub open spec fn unpacked(data: Seq<u8>, n: int) -> Seq<bool> {
    Seq::new(n as nat, |i: int| bit_of(data[i / 8], i % 8))
}

/// Length of chunk `k` when `n` items are cut into chunks of `size`.
pub open spec fn chunk_len(n: int, size: int, k: int) -> int {
    if n - k * size < size {
        n - k * size
    } else {
        size
    }
}

/// Number of chunks of `size` that `n` items make.
pub open spec fn chunk_count(n: int, size: int) -> int {
    (n + size - 1) / size
}

/// Chunk `k` of `bits` cut into chunks of `size`.
pub open spec fn chunk(bits: Seq<bool>, size: int, k: int) -> Seq<bool> {
    bits.subrange(k * size, k * size + chunk_len(bits.len() as int, size, k))
}

/// `bits` packed into bytes, least significant bit first.
pub open spec fn packed(bits: Seq<bool>) -> Seq<u8> {
    Seq::new(chunk_count(bits.len() as int, 8) as nat, |k: int| bits_value(chunk(bits, 8, k)) as u8)
}

proof fn lemma_pow2_mono(n: nat, m: nat)
    requires
        n <= m,
    ensures
        1 <= pow2i(n) <= pow2i(m),
    decreases m,
{
    if n < m {
        lemma_pow2_mono(n, (m - 1) as nat);
    } else if n > 0 {
        lemma_pow2_mono((n - 1) as nat, (n - 1) as nat);
    }
}

proof fn lemma_pow2_small(n: nat)
    requires
        n <= 8,
    ensures
        1 <= pow2i(n) <= 256,
        n < 8 ==> pow2i(n) <= 128,
{
    reveal_with_fuel(pow2i, 9);
    assert(pow2i(7) == 128);
    assert(pow2i(8) == 256);
    if n < 8 {
        lemma_pow2_mono(n, 7);
    } else {
        lemma_pow2_mono(n, 8);
    }
}

proof fn lemma_bits_value_bound(bits: Seq<bool>)
    ensures
        0 <= bits_value(bits) < pow2i(bits.len()),
    decreases bits.len(),
{
    if bits.len() > 0 {
        lemma_bits_value_bound(bits.drop_last());
    }
}

fn pow2_u16(k: u8) -> (r: u16)
    requires
        k <= 8,
    ensures
        r == pow2i(k as nat),
{
    let mut r: u16 = 1;
    let mut i: u8 = 0;
    while i < k
        invariant
            i <= k <= 8,
            r == pow2i(i as nat),
        decreases k - i,
    {
        proof {
            lemma_pow2_small(i as nat);
        }
        r = r * 2;
        i += 1;
    }
    r
}

/// Bit `k` (0..=7) of `b`.
pub fn test_bit(b: u8, k: u8) -> (r: bool)
    requires
        k < 8,
    ensures
        r == bit_of(b, k as int),
{
    let w = pow2_u16(k);
    proof {
        lemma_pow2_small(k as nat);
    }
    (b as u16 / w) % 2 == 1
}

/// `bits[start..start + n]` (at most 8 bits) as one byte, least
/// significant bit first.
fn pack_range(bits: &[bool], start: usize, n: usize) -> (r: u8)
    requires
        n <= 8,
        start + n <= bits@.len(),
    ensures
        r == bits_value(bits@.subrange(start as int, start + n)),
{
    let mut v: u16 = 0;
    let mut w: u16 = 1;
    let mut i: usize = 0;
    let blen = bits.len();
    while i < n
        invariant
            i <= n <= 8,
            blen == bits@.len(),
            start + n <= bits@.len(),
            w == pow2i(i as nat),
            v == bits_value(bits@.subrange(start as int, start + i)),
            0 <= v < w,
        decreases n - i,
    {
        proof {
            lemma_pow2_small(i as nat);
            assert(bits@.subrange(start as int, start + i + 1).drop_last() =~= bits@.subrange(
                start as int,
                start + i,
            ));
        }
        if bits[start + i] {
            v = v + w;
        }
        w = w * 2;
        i += 1;
    }
    proof {
        lemma_pow2_small(n as nat);
    }
    v as u8
}

/// Unpack the first `bit_count` bits of `data`, least significant bit of
/// the first byte first. Fails when `data` holds fewer bits.
pub fn unpack_bits(data: &[u8], bit_count: usize) -> (r: Result<Vec<bool>>)
    ensures
        bit_count > 8 * data@.len() ==> r == Err::<Vec<bool>, Error>(
            Error::InvalidArgument("not enough data for the bit count"),
        ),
        bit_count <= 8 * data@.len() ==> (r matches Ok(bits) && bits@ == unpacked(
            data@,
            bit_count as int,
        )),
{
    if bit_count / 8 > data.len() || (bit_count / 8 == data.len() && bit_count % 8 != 0) {
        return Err(Error::InvalidArgument("not enough data for the bit count"));
    }
    let mut bits: Vec<bool> = Vec::new();
    let mut i: usize = 0;
    while i < bit_count
        invariant
            i <= bit_count <= 8 * data@.len(),
            bits@ == unpacked(data@, bit_count as int).take(i as int),
        decreases bit_count - i,
    {
        let b = test_bit(data[i / 8], (i % 8) as u8);
        bits.push(b);
        i += 1;
        assert(bits@ =~= unpacked(data@, bit_count as int).take(i as int));
    }
    assert(bits@ =~= unpacked(data@, bit_count as int));
    Ok(bits)
}

/// Pack `bits` into bytes, least significant bit first.
pub fn pack_bits(bits: &[bool]) -> (r: Vec<u8>)
    ensures
        r@ == packed(bits@),
{
    let mut r: Vec<u8> = Vec::new();
    let mut k: usize = 0;
    let n = bits.len();
    let count: usize = n / 8 + if n % 8 == 0 {
        0
    } else {
        1
    };
    assert(count == chunk_count(n as int, 8));
    while k < count
        invariant
            n == bits@.len(),
            count == chunk_count(n as int, 8),
            count == n / 8 + if n % 8 == 0 { 0int } else { 1int },
            k <= count,
            r@.len() == k,
            forall|j: int| 0 <= j < k ==> #[trigger] r@[j] == bits_value(chunk(bits@, 8, j)) as u8,
        decreases count - k,
    {
        assert(k * 8 < n) by (nonlinear_arith)
            requires
                k < count,
                count == n / 8 + if n % 8 == 0 { 0int } else { 1int },
        ;
        let off = k * 8;
        let len = if n - off < 8 {
            n - off
        } else {
            8
        };
        let byte = pack_range(bits, off, len);
        r.push(byte);
        k += 1;
    }
    assert(r@ =~= packed(bits@));
    r
}

} // verus!

verus! {

// ---------------------------------------------------------------------------
// MPSSE commands
// ---------------------------------------------------------------------------

/// Clock TMS bits (LSB first, up to 7 per command, TDI held low), no read.
pub const TMS_WRITE: u8 = 0x4B;
/// Clock TDI bits out (falling edge) and TDO bits in (rising edge), LSB
/// first, up to 8 per command.
pub const TDI_TDO_BITS: u8 = 0x3B;
/// Clock one TMS bit while reading TDO; bit 7 of the data byte drives TDI.
pub const TMS_READ: u8 = 0x6B;

/// Commands of `opcode` that clock `bits` in chunks of `size`: opcode,
/// number of bits minus one, the chunk's bits as a byte.
pub open spec fn chunk_cmds(opcode: u8, bits: Seq<bool>, size: int) -> Seq<u8> {
    Seq::new(
        chunk_count(bits.len() as int, size) as nat,
        |k: int| chunk_cmd(opcode, bits, size, k),
    ).flatten()
}

/// The command of `opcode` that clocks chunk `k` of `bits`.
pub open spec fn chunk_cmd(opcode: u8, bits: Seq<bool>, size: int, k: int) -> Seq<u8> {
    seq![
        opcode,
        (chunk_len(bits.len() as int, size, k) - 1) as u8,
        bits_value(chunk(bits, size, k)) as u8,
    ]
}

/// The commands that clock the TMS sequence `tms`.
pub open spec fn tms_bytes(tms: Seq<bool>) -> Seq<u8> {
    chunk_cmds(TMS_WRITE, tms, 7)
}

/// Number of bits shifted before the last one when the last one leaves the
/// shift state.
pub open spec fn shift_body_len(n: int, exit: bool) -> int {
    if exit {
        n - 1
    } else {
        n
    }
}

/// The commands that shift `tdi` through the selected register: the bits in
/// chunks of 8 while TMS stays low; when `exit`, the last bit with TMS high
/// (leaving Shift for Exit1); then a flush.
pub open spec fn shift_bytes(tdi: Seq<bool>, exit: bool) -> Seq<u8> {
    chunk_cmds(TDI_TDO_BITS, tdi.take(shift_body_len(tdi.len() as int, exit)), 8) + (if exit {
        seq![
            TMS_READ,
            0u8,
            if tdi.last() {
                0x81u8
            } else {
                0x01u8
            },
        ]
    } else {
        seq![]
    }) + seq![mpsse::SEND_IMMEDIATE]
}

/// Number of answer bytes of [`shift_bytes`]: one per chunk, one for the
/// exit bit.
pub open spec fn shift_read_len(n: int, exit: bool) -> int {
    chunk_count(shift_body_len(n, exit), 8) + if exit {
        1int
    } else {
        0int
    }
}

/// The TDO bits in the answer `resp` to [`shift_bytes`] for `n` bits: a chunk
/// of `m` bits arrives in the top `m` bits of its byte (first bit lowest);
/// the exit bit arrives in bit 7.
pub open spec fn tdo_bits(resp: Seq<u8>, n: int, exit: bool) -> Seq<bool> {
    let body = shift_body_len(n, exit);
    Seq::new(
        n as nat,
        |i: int|
            if i >= body {
                bit_of(resp[chunk_count(body, 8)], 7)
            } else {
                bit_of(resp[i / 8], 8 - chunk_len(body, 8, i / 8) + i % 8)
            },
    )
}

/// Append the commands of `opcode` that clock `bits[..n]` in chunks of
/// `size`.
fn push_chunk_cmds(cmd: &mut Vec<u8>, opcode: u8, bits: &[bool], n: usize, size: usize)
    requires
        1 <= size <= 8,
        n <= bits@.len(),
    ensures
        final(cmd)@ == old(cmd)@ + chunk_cmds(opcode, bits@.take(n as int), size as int),
{
    let ghost b = bits@.take(n as int);
    let ghost f = |k: int| chunk_cmd(opcode, b, size as int, k);
    assert(n % size != 0 ==> n / size + 1 <= usize::MAX) by (nonlinear_arith)
        requires
            1 <= size,
            n <= usize::MAX,
    ;
    let count: usize = n / size + if n % size == 0 {
        0
    } else {
        1
    };
    assert(count == chunk_count(n as int, size as int)) by (nonlinear_arith)
        requires
            1 <= size,
            count == n / size + if n % size == 0 { 0int } else { 1int },
    ;
    let mut k: usize = 0;
    assert(Seq::new(0, f) =~= Seq::<Seq<u8>>::empty());
    assert(old(cmd)@ =~= old(cmd)@ + Seq::new(0, f).flatten());
    while k < count
        invariant
            1 <= size <= 8,
            n <= bits@.len(),
            b == bits@.take(n as int),
            f == (|k: int| chunk_cmd(opcode, b, size as int, k)),
            count == n / size + if n % size == 0 { 0int } else { 1int },
            k <= count,
            cmd@ == old(cmd)@ + Seq::new(k as nat, f).flatten(),
        decreases count - k,
    {
        assert(k * size < n && k * size + size <= n + size) by (nonlinear_arith)
            requires
                1 <= size,
                k < count,
                count == n / size + if n % size == 0 { 0int } else { 1int },
        ;
        let off = k * size;
        let len = if n - off < size {
            n - off
        } else {
            size
        };
        let byte = pack_range(bits, off, len);
        proof {
            assert(bits@.subrange(off as int, off + len) =~= chunk(b, size as int, k as int));
        }
        let ghost before = cmd@;
        cmd.push(opcode);
        cmd.push((len - 1) as u8);
        cmd.push(byte);
        proof {
            assert(cmd@ =~= before + chunk_cmd(opcode, b, size as int, k as int));
            let s0 = Seq::new(k as nat, f);
            assert(f(k as int) == chunk_cmd(opcode, b, size as int, k as int));
            assert(Seq::new((k + 1) as nat, f) =~= s0.push(f(k as int)));
            s0.lemma_flatten_push(f(k as int));
            assert(Seq::new((k + 1) as nat, f).flatten() =~= s0.flatten() + f(k as int));
            assert(cmd@ =~= old(cmd)@ + Seq::new((k + 1) as nat, f).flatten());
        }
        k += 1;
    }
    assert(b.len() == n);
}

/// The commands that clock the TMS sequence `tms`.
pub fn tms_command(tms: &[bool]) -> (cmd: Vec<u8>)
    ensures
        cmd@ == tms_bytes(tms@),
{
    let mut cmd: Vec<u8> = Vec::new();
    push_chunk_cmds(&mut cmd, TMS_WRITE, tms, tms.len(), 7);
    assert(tms@.take(tms@.len() as int) =~= tms@);
    assert(cmd@ =~= tms_bytes(tms@));
    cmd
}

/// The commands that shift `tdi` (at least one bit) and the number of
/// answer bytes they produce.
pub fn shift_command(tdi: &[bool], exit: bool) -> (r: (Vec<u8>, usize))
    requires
        tdi@.len() >= 1,
    ensures
        r.0@ == shift_bytes(tdi@, exit),
        r.1 == shift_read_len(tdi@.len() as int, exit),
{
    let n = tdi.len();
    let body = if exit {
        n - 1
    } else {
        n
    };
    let mut cmd: Vec<u8> = Vec::new();
    push_chunk_cmds(&mut cmd, TDI_TDO_BITS, tdi, body, 8);
    let ghost chunks = cmd@;
    let count: usize = body / 8 + if body % 8 == 0 {
        0
    } else {
        1
    };
    if exit {
        cmd.push(TMS_READ);
        cmd.push(0);
        cmd.push(
            if tdi[n - 1] {
                0x81
            } else {
                0x01
            },
        );
    }
    cmd.push(mpsse::SEND_IMMEDIATE);
    assert(cmd@ =~= shift_bytes(tdi@, exit));
    (cmd, count + if exit {
        1
    } else {
        0
    })
}

/// The TDO bits of a shift of `n` bits (at least one) from its answer.
pub fn decode_tdo(n: usize, exit: bool, resp: &[u8]) -> (bits: Vec<bool>)
    requires
        n >= 1,
        resp@.len() == shift_read_len(n as int, exit),
    ensures
        bits@ == tdo_bits(resp@, n as int, exit),
{
    let body = if exit {
        n - 1
    } else {
        n
    };
    let count: usize = body / 8 + if body % 8 == 0 {
        0
    } else {
        1
    };
    let mut bits: Vec<bool> = Vec::new();
    let mut i: usize = 0;
    while i < n
        invariant
            n >= 1,
            i <= n,
            body == shift_body_len(n as int, exit),
            count == body / 8 + if body % 8 == 0 { 0int } else { 1int },
            resp@.len() == count + if exit { 1int } else { 0int },
            bits@ == tdo_bits(resp@, n as int, exit).take(i as int),
        decreases n - i,
    {
        let b = if i >= body {
            test_bit(resp[count], 7)
        } else {
            let k = i / 8;
            assert(k < count) by (nonlinear_arith)
                requires
                    i < body,
                    k == i / 8,
                    count == body / 8 + if body % 8 == 0 { 0int } else { 1int },
            ;
            let m = if body - k * 8 < 8 {
                body - k * 8
            } else {
                8
            };
            assert(1 <= m && i % 8 < m) by (nonlinear_arith)
                requires
                    i < body,
                    k == i / 8,
                    m == (if body - k * 8 < 8 { body - k * 8 } else { 8 }),
            ;
            test_bit(resp[k], (8 - m + i % 8) as u8)
        };
        bits.push(b);
        i += 1;
        assert(bits@ =~= tdo_bits(resp@, n as int, exit).take(i as int));
    }
    assert(bits@ =~= tdo_bits(resp@, n as int, exit));
    bits
}

// ---------------------------------------------------------------------------
// The bus
// ---------------------------------------------------------------------------

/// TMS on ADBUS3.
pub const JTAG_TMS_PIN: u8 = 0x08;
/// TCK, TDI and TMS driven; TDO an input.
pub const JTAG_DIR_MASK: u8 = 0x0B;

/// Whether `st` shifts a register (Shift-DR or Shift-IR).
pub open spec fn is_shift_state(st: TapState) -> bool {
    st == TapState::ShiftDr || st == TapState::ShiftIr
}

/// A JTAG master configured on an MPSSE session, tracking the TAP state.
#[derive(Debug, Clone, Copy)]
pub struct JtagBus {
    state: TapState,
    device_id: u64,
    recovery_epoch: u64,
    protocol_epoch: u64,
}

/// The bus type used by the asynchronous API.
pub type AsyncJtagBus = JtagBus;

impl JtagBus {
    pub closed spec fn spec_state(&self) -> TapState {
        self.state
    }

    pub closed spec fn spec_binding(&self) -> (u64, u64, u64) {
        (self.device_id, self.recovery_epoch, self.protocol_epoch)
    }

    /// Whether the bus was configured for the session's device, recovery
    /// epoch and protocol epoch.
    pub open spec fn current_for(&self, s: &MpsseSession) -> bool {
        self.spec_binding() == (
            s.spec_dev().spec_device_id(),
            s.spec_dev().spec_recovery_epoch(),
            s.spec_ctx()@.protocol_epoch,
        )
    }

    /// A bus bound to the session, in Test-Logic-Reset: the state after its
    /// pins were set with [`init_request`](Self::init_request) and the
    /// [`reset`](Self::reset) sequence was clocked.
    pub fn new_config(s: &MpsseSession) -> (b: Self)
        ensures
            b.current_for(s),
            b.spec_state() == TapState::TestLogicReset,
    {
        let dev = s.device();
        JtagBus {
            state: TapState::TestLogicReset,
            device_id: dev.device_id(),
            recovery_epoch: dev.recovery_epoch(),
            protocol_epoch: s.protocol_epoch(),
        }
    }

    /// Configure JTAG on a session: advance the protocol epoch (so buses of
    /// the protocol used before are invalid), and return the bus, bound to
    /// the new epoch in Test-Logic-Reset, together with the GPIO request
    /// that sets up its pins. The caller sends the request, then the
    /// [`reset`](Self::reset) sequence.
    pub fn configure(s: &mut MpsseSession) -> (r: (Self, MpsseRequest))
        ensures
            final(s).spec_dev() == old(s).spec_dev(),
            final(s).spec_ctx()@ == (super::MpsseState {
                protocol_epoch: ((old(s).spec_ctx()@.protocol_epoch + 1) % 0x1_0000_0000_0000_0000) as u64,
                ..old(s).spec_ctx()@
            }),
            *final(final(s).ctx) == *final(old(s).ctx),
            *final(final(s).dev) == *final(old(s).dev),
            r.0.spec_state() == TapState::TestLogicReset,
            r.0.spec_binding() == (
                old(s).spec_dev().spec_device_id(),
                old(s).spec_dev().spec_recovery_epoch(),
                final(s).spec_ctx()@.protocol_epoch,
            ),
            r.1 == (MpsseRequest::SetGpioLow {
                value: (old(s).spec_ctx()@.gpio_low_value & 0xF0) | JTAG_TMS_PIN,
                direction: (old(s).spec_ctx()@.gpio_low_dir & 0xF0) | JTAG_DIR_MASK,
            }),
    {
        s.bump_protocol_epoch();
        let bus = Self::new_config(s);
        let req = Self::init_request(s);
        (bus, req)
    }

    /// The GPIO request that sets up the JTAG pins (TCK and TDI low, TMS
    /// high, TDO an input), keeping the upper low-GPIO pins.
    pub fn init_request(s: &MpsseSession) -> (r: MpsseRequest)
        ensures
            r == (MpsseRequest::SetGpioLow {
                value: (s.spec_ctx()@.gpio_low_value & 0xF0) | JTAG_TMS_PIN,
                direction: (s.spec_ctx()@.gpio_low_dir & 0xF0) | JTAG_DIR_MASK,
            }),
    {
        MpsseRequest::SetGpioLow {
            value: (s.ctx().gpio_low_value() & 0xF0) | JTAG_TMS_PIN,
            direction: (s.ctx().gpio_low_dir() & 0xF0) | JTAG_DIR_MASK,
        }
    }

    /// Fails with [`Error::InvalidMpsseContext`] unless the bus is current
    /// for the session.
    pub fn ensure_current(&self, s: &MpsseSession) -> (r: Result<()>)
        ensures
            r is Ok <==> self.current_for(s),
            r matches Err(e) ==> e == Error::InvalidMpsseContext,
    {
        let dev = s.device();
        if self.device_id == dev.device_id() && self.recovery_epoch == dev.recovery_epoch()
            && self.protocol_epoch == s.protocol_epoch() {
            Ok(())
        } else {
            Err(Error::InvalidMpsseContext)
        }
    }

    /// The tracked TAP state.
    pub fn state(&self) -> (t: TapState)
        ensures
            t == self.spec_state(),
    {
        self.state
    }

    /// The TMS pin mask.
    pub fn tms_pin(&self) -> (p: u8)
        ensures
            p == JTAG_TMS_PIN,
    {
        JTAG_TMS_PIN
    }

    /// The direction mask of the JTAG pins.
    pub fn dir_mask(&self) -> (d: u8)
        ensures
            d == JTAG_DIR_MASK,
    {
        JTAG_DIR_MASK
    }

    /// Clock `tms` from the tracked state, for a current bus.
    fn navigate(&mut self, s: &MpsseSession, tms: Vec<bool>, target: TapState) -> (r: Result<Vec<u8>>)
        requires
            run_tms(old(self).spec_state(), tms@) == target,
        ensures
            r is Ok <==> old(self).current_for(s),
            r matches Err(e) ==> e == Error::InvalidMpsseContext && *final(self) == *old(self),
            r matches Ok(cmd) ==> cmd@ == tms_bytes(tms@) && final(self).spec_state() == target
                && final(self).spec_binding() == old(self).spec_binding(),
    {
        self.ensure_current(s)?;
        let cmd = tms_command(&tms);
        self.state = target;
        Ok(cmd)
    }

    /// Reset the TAP: five cycles with TMS high, from any state.
    pub fn reset(&mut self, s: &MpsseSession) -> (r: Result<Vec<u8>>)
        ensures
            r is Ok <==> old(self).current_for(s),
            r matches Err(e) ==> e == Error::InvalidMpsseContext && *final(self) == *old(self),
            r matches Ok(cmd) ==> cmd@ == tms_bytes(reset_tms()) && final(self).spec_state()
                == TapState::TestLogicReset && final(self).spec_binding() == old(self).spec_binding(),
    {
        proof {
            lemma_reset_from_anywhere(self.state);
        }
        self.navigate(s, reset_path(), TapState::TestLogicReset)
    }

    /// Move the TAP to Run-Test/Idle without resetting it.
    pub fn goto_idle(&mut self, s: &MpsseSession) -> (r: Result<Vec<u8>>)
        ensures
            r is Ok <==> old(self).current_for(s),
            r matches Err(e) ==> e == Error::InvalidMpsseContext && *final(self) == *old(self),
            r matches Ok(cmd) ==> cmd@ == tms_bytes(to_idle(old(self).spec_state()))
                && final(self).spec_state() == TapState::RunTestIdle && final(self).spec_binding()
                == old(self).spec_binding(),
    {
        proof {
            lemma_to_idle(self.state);
        }
        let path = idle_path(self.state);
        self.navigate(s, path, TapState::RunTestIdle)
    }

    /// Move the TAP to Shift-DR without resetting it.
    pub fn goto_shift_dr(&mut self, s: &MpsseSession) -> (r: Result<Vec<u8>>)
        ensures
            r is Ok <==> old(self).current_for(s),
            r matches Err(e) ==> e == Error::InvalidMpsseContext && *final(self) == *old(self),
            r matches Ok(cmd) ==> cmd@ == tms_bytes(to_shift_dr(old(self).spec_state()))
                && final(self).spec_state() == TapState::ShiftDr && final(self).spec_binding()
                == old(self).spec_binding(),
    {
        proof {
            lemma_to_shift_dr(self.state);
        }
        let path = shift_dr_path(self.state);
        self.navigate(s, path, TapState::ShiftDr)
    }

    /// Move the TAP to Shift-IR without resetting it.
    pub fn goto_shift_ir(&mut self, s: &MpsseSession) -> (r: Result<Vec<u8>>)
        ensures
            r is Ok <==> old(self).current_for(s),
            r matches Err(e) ==> e == Error::InvalidMpsseContext && *final(self) == *old(self),
            r matches Ok(cmd) ==> cmd@ == tms_bytes(to_shift_ir(old(self).spec_state()))
                && final(self).spec_state() == TapState::ShiftIr && final(self).spec_binding()
                == old(self).spec_binding(),
    {
        proof {
            lemma_to_shift_ir(self.state);
        }
        let path = shift_ir_path(self.state);
        self.navigate(s, path, TapState::ShiftIr)
    }

    /// Clock TCK `count` times with TMS low (in Run-Test/Idle and the other
    /// stable states the TAP stays where it is).
    pub fn idle_clocks(&mut self, s: &MpsseSession, count: u32) -> (r: Result<Vec<u8>>)
        ensures
            r is Ok <==> old(self).current_for(s),
            r matches Err(e) ==> e == Error::InvalidMpsseContext && *final(self) == *old(self),
            r matches Ok(cmd) ==> cmd@ == tms_bytes(Seq::new(count as nat, |i: int| false))
                && final(self).spec_state() == run_tms(
                old(self).spec_state(),
                Seq::new(count as nat, |i: int| false),
            ) && final(self).spec_binding() == old(self).spec_binding(),
    {
        let mut zeros: Vec<bool> = Vec::new();
        let mut i: u32 = 0;
        while i < count
            invariant
                i <= count,
                zeros@ == Seq::new(i as nat, |j: int| false),
            decreases count - i,
        {
            zeros.push(false);
            i += 1;
            assert(zeros@ =~= Seq::new(i as nat, |j: int| false));
        }
        let target = run_tms_exec(self.state, &zeros);
        self.navigate(s, zeros, target)
    }

    /// Shift `tdi` through the register selected by the current shift state
    /// (Shift-DR or Shift-IR); with `exit`, the last bit leaves the shift
    /// state for Exit1. Returns the commands and the number of answer bytes
    /// to read (decode them with [`decode_tdo`]).
    pub fn shift(&mut self, s: &MpsseSession, tdi: &[bool], exit: bool) -> (r: Result<(Vec<u8>, usize)>)
        ensures
            !old(self).current_for(s) ==> r == Err::<(Vec<u8>, usize), Error>(
                Error::InvalidMpsseContext,
            ),
            old(self).current_for(s) && !is_shift_state(old(self).spec_state()) ==> r == Err::<
                (Vec<u8>, usize),
                Error,
            >(Error::InvalidArgument("TAP is not in Shift-DR or Shift-IR")),
            old(self).current_for(s) && is_shift_state(old(self).spec_state()) && tdi@.len() == 0
                ==> r == Err::<(Vec<u8>, usize), Error>(Error::InvalidArgument("nothing to shift")),
            old(self).current_for(s) && is_shift_state(old(self).spec_state()) && tdi@.len() > 0
                ==> r is Ok,
            r is Err ==> *final(self) == *old(self),
            r matches Ok((cmd, n)) ==> cmd@ == shift_bytes(tdi@, exit)
                && n == shift_read_len(tdi@.len() as int, exit)
                && final(self).spec_binding() == old(self).spec_binding()
                && final(self).spec_state() == (if exit {
                    tap_next(old(self).spec_state(), true)
                } else {
                    old(self).spec_state()
                }),
    {
        self.ensure_current(s)?;
        match self.state {
            TapState::ShiftDr | TapState::ShiftIr => {},
            _ => {
                return Err(Error::InvalidArgument("TAP is not in Shift-DR or Shift-IR"));
            },
        }
        if tdi.len() == 0 {
            return Err(Error::InvalidArgument("nothing to shift"));
        }
        let r = shift_command(tdi, exit);
        if exit {
            self.state = next_state(self.state, true);
        }
        Ok(r)
    }
}

// ---------------------------------------------------------------------------
// Laws of the bit encodings
// ---------------------------------------------------------------------------

proof fn lemma_pow2_add(a: nat, b: nat)
    ensures
        pow2i(a + b) == pow2i(a) * pow2i(b),
        pow2i(a) >= 1,
    decreases a,
{
    if a > 0 {
        lemma_pow2_add((a - 1) as nat, b);
        let x = pow2i((a - 1) as nat);
        let y = pow2i(b);
        assert(2 * (x * y) == (2 * x) * y) by (nonlinear_arith);
        assert(pow2i((a + b) as nat) == 2 * pow2i((a - 1 + b) as nat));
    }
}

/// Bit `i` of the number that `bits` encode is `bits[i]`.
proof fn lemma_bits_value_bit(bits: Seq<bool>, i: int)
    requires
        0 <= i < bits.len(),
    ensures
        (bits_value(bits) / pow2i(i as nat)) % 2 == (if bits[i] { 1int } else { 0int }),
    decreases bits.len(),
{
    let n = bits.len() as int;
    let rest = bits.drop_last();
    let v = bits_value(rest);
    let x: int = if bits.last() { 1 } else { 0 };
    let p = pow2i((n - 1) as nat);
    lemma_bits_value_bound(rest);
    lemma_pow2_add(0, (n - 1) as nat);
    assert(bits_value(bits) == v + x * p);
    if i == n - 1 {
        vstd::arithmetic::div_mod::lemma_div_multiples_vanish_fancy(x, v, p);
        assert(p * x + v == v + x * p) by (nonlinear_arith);
    } else {
        lemma_bits_value_bit(rest, i);
        assert(rest[i] == bits[i]);
        let q = pow2i(i as nat);
        let m = pow2i((n - 1 - i) as nat);
        lemma_pow2_add(i as nat, (n - 1 - i) as nat);
        lemma_pow2_add(1, (n - 2 - i) as nat);
        let t = pow2i((n - 2 - i) as nat);
        assert(pow2i(1) == 2) by {
            reveal_with_fuel(pow2i, 2);
        }
        assert(m == 2 * t);
        assert(p == q * m);
        assert(x * p == (x * m) * q) by (nonlinear_arith)
            requires
                p == q * m,
        ;
        vstd::arithmetic::div_mod::lemma_hoist_over_denominator(v, x * m, q as nat);
        assert((v + x * p) / q == v / q + x * m);
        vstd::arithmetic::div_mod::lemma_mod_multiples_vanish(x * t, v / q, 2);
        assert(2 * (x * t) + v / q == v / q + x * m) by (nonlinear_arith)
            requires
                m == 2 * t,
        ;
    }
}

/// Unpacking what was packed gives the bits back: bit `i` of a packed
/// sequence sits in byte `i / 8` at position `i % 8`, least significant
/// first.
pub proof fn lemma_pack_unpack(bits: Seq<bool>)
    ensures
        packed(bits).len() * 8 >= bits.len(),
        unpacked(packed(bits), bits.len() as int) == bits,
{
    let n = bits.len() as int;
    assert(chunk_count(n, 8) * 8 >= n) by (nonlinear_arith)
        requires
            n >= 0,
    ;
    assert forall|i: int| 0 <= i < n implies #[trigger] unpacked(packed(bits), n)[i] == bits[i] by {
        let k = i / 8;
        let j = i % 8;
        assert(0 <= k < chunk_count(n, 8) && k * 8 <= i && i == k * 8 + j && 0 <= j < 8)
            by (nonlinear_arith)
            requires
                0 <= i < n,
                k == i / 8,
                j == i % 8,
        ;
        let c = chunk(bits, 8, k);
        assert(j < c.len());
        assert(c[j] == bits[i]);
        lemma_bits_value_bound(c);
        lemma_pow2_add(0, c.len());
        assert(pow2i(c.len()) <= 256) by {
            lemma_pow2_small(c.len());
        }
        lemma_bits_value_bit(c, j);
        assert(packed(bits)[k] as int == bits_value(c));
    }
    assert(unpacked(packed(bits), n) =~= bits);
}

proof fn lemma_flatten3(s: Seq<Seq<u8>>)
    requires
        forall|k: int| 0 <= k < s.len() ==> (#[trigger] s[k]).len() == 3,
    ensures
        s.flatten().len() == 3 * s.len(),
        forall|k: int, r: int| 0 <= k < s.len() && 0 <= r < 3 ==> s.flatten()[3 * k + r] == #[trigger] s[k][r],
    decreases s.len(),
{
    if s.len() > 0 {
        let init = s.drop_last();
        lemma_flatten3(init);
        init.lemma_flatten_push(s.last());
        assert(init.push(s.last()) =~= s);
        assert forall|k: int, r: int| 0 <= k < s.len() && 0 <= r < 3 implies s.flatten()[3 * k + r]
            == #[trigger] s[k][r] by {
            if k < s.len() - 1 {
                assert(init[k] == s[k]);
            }
        }
    } else {
        assert(s.flatten() =~= Seq::<u8>::empty());
    }
}

/// The TMS commands clock exactly the requested sequence: command `k` is
/// opcode 0x4B with length field `m - 1` for its `m` bits (at most seven),
/// bit `j` of its data byte is TMS bit `7k + j`, and bit 7 (TDI) is low.
pub proof fn lemma_tms_encoding(tms: Seq<bool>, k: int, j: int)
    requires
        0 <= k < chunk_count(tms.len() as int, 7),
        0 <= j < chunk_len(tms.len() as int, 7, k),
    ensures
        ({
            let c = tms_bytes(tms);
            let m = chunk_len(tms.len() as int, 7, k);
            &&& c.len() == 3 * chunk_count(tms.len() as int, 7)
            &&& 1 <= m <= 7
            &&& c[3 * k] == 0x4Bu8
            &&& c[3 * k + 1] == m - 1
            &&& bit_of(c[3 * k + 2], j) == tms[7 * k + j]
            &&& c[3 * k + 2] < 128
        }),
{
    let n = tms.len() as int;
    let s = Seq::new(chunk_count(n, 7) as nat, |i: int| chunk_cmd(TMS_WRITE, tms, 7, i));
    assert forall|i: int| 0 <= i < s.len() implies (#[trigger] s[i]).len() == 3 by {}
    lemma_flatten3(s);
    assert(k * 7 < n && chunk_len(n, 7, k) >= 1) by (nonlinear_arith)
        requires
            0 <= k < chunk_count(n, 7),
            chunk_len(n, 7, k) == (if n - k * 7 < 7 { n - k * 7 } else { 7 }),
            chunk_count(n, 7) == (n + 6) / 7,
    ;
    let ch = chunk(tms, 7, k);
    lemma_bits_value_bound(ch);
    lemma_pow2_small(ch.len());
    lemma_pow2_mono(ch.len(), 7);
    assert(pow2i(7) == 128) by {
        reveal_with_fuel(pow2i, 8);
    }
    lemma_bits_value_bit(ch, j);
    assert(ch[j] == tms[7 * k + j]);
    assert(s[k] == chunk_cmd(TMS_WRITE, tms, 7, k));
}

/// The shift commands clock exactly the requested TDI bits: the bits before
/// the exit bit go out in commands of opcode 0x3B, command `k` holding `m`
/// bits with length field `m - 1` and bit `j` of its data byte being TDI bit
/// `8k + j`; with `exit`, the last bit goes out in a 0x6B command whose data
/// byte carries it in bit 7 (TDI) with TMS high in bit 0; a flush ends the
/// commands.
pub proof fn lemma_shift_encoding(tdi: Seq<bool>, exit: bool, k: int, j: int)
    requires
        tdi.len() >= 1,
        0 <= k < chunk_count(shift_body_len(tdi.len() as int, exit), 8),
        0 <= j < chunk_len(shift_body_len(tdi.len() as int, exit), 8, k),
    ensures
        ({
            let c = shift_bytes(tdi, exit);
            let body = shift_body_len(tdi.len() as int, exit);
            let count = chunk_count(body, 8);
            let m = chunk_len(body, 8, k);
            &&& c.len() == 3 * count + (if exit { 3int } else { 0int }) + 1
            &&& 1 <= m <= 8
            &&& c[3 * k] == 0x3Bu8
            &&& c[3 * k + 1] == m - 1
            &&& bit_of(c[3 * k + 2], j) == tdi[8 * k + j]
            &&& exit ==> c[3 * count] == 0x6Bu8 && c[3 * count + 1] == 0u8 && bit_of(
                c[3 * count + 2],
                7,
            ) == tdi.last() && bit_of(c[3 * count + 2], 0)
            &&& c[c.len() - 1] == 0x87u8
        }),
{
    let n = tdi.len() as int;
    let body = shift_body_len(n, exit);
    let b = tdi.take(body);
    let s = Seq::new(chunk_count(body, 8) as nat, |i: int| chunk_cmd(TDI_TDO_BITS, b, 8, i));
    assert forall|i: int| 0 <= i < s.len() implies (#[trigger] s[i]).len() == 3 by {}
    lemma_flatten3(s);
    assert(k * 8 < body && chunk_len(body, 8, k) >= 1) by (nonlinear_arith)
        requires
            0 <= k < chunk_count(body, 8),
            chunk_len(body, 8, k) == (if body - k * 8 < 8 { body - k * 8 } else { 8 }),
            chunk_count(body, 8) == (body + 7) / 8,
    ;
    let ch = chunk(b, 8, k);
    lemma_bits_value_bound(ch);
    lemma_pow2_small(ch.len());
    lemma_bits_value_bit(ch, j);
    assert(ch[j] == tdi[8 * k + j]);
    assert(s[k] == chunk_cmd(TDI_TDO_BITS, b, 8, k));
    assert(pow2i(7) == 128 && pow2i(0) == 1) by {
        reveal_with_fuel(pow2i, 8);
    }
    let c = shift_bytes(tdi, exit);
    let head = s.flatten();
    if exit {
        let e: u8 = if tdi.last() { 0x81u8 } else { 0x01u8 };
        assert(c =~= head + seq![TMS_READ, 0u8, e] + seq![mpsse::SEND_IMMEDIATE]);
        assert(e as int / 128 % 2 == (if tdi.last() { 1int } else { 0int }));
        assert(e as int / 1 % 2 == 1);
    } else {
        assert(c =~= head + seq![mpsse::SEND_IMMEDIATE]);
    }
}

} // verus!

