use vstd::prelude::*;

use crate::config::SPRITE_SIZE;
use crate::frame::{cursor_after, lemma_cursor_sequence, next_cursor};
use crate::lifecycle::{action_of, initial_state, next_state, Action, ControllerState, Phase};
use crate::status::Status;

verus! {

/// The state reached from `s` once the outcomes `outs` were reported in order.
pub open spec fn run(s: ControllerState, outs: Seq<Status>) -> ControllerState
    decreases outs.len(),
{
    if outs.len() == 0 {
        s
    } else {
        next_state(run(s, outs.drop_last()), outs.last())
    }
}

/// The state of a fresh controller after the first `i` outcomes of `outs`.
pub open spec fn state_at(outs: Seq<Status>, i: int) -> ControllerState {
    run(initial_state(), outs.take(i))
}

/// The driver call that a fresh controller asks for after the first `i`
/// outcomes of `outs`.
pub open spec fn action_at(outs: Seq<Status>, i: int) -> Action {
    action_of(state_at(outs, i))
}

/// Whether the `j`-th call was a sprite draw that failed.
pub open spec fn failed_draw_at(outs: Seq<Status>, j: int) -> bool {
    state_at(outs, j).phase == Phase::Drawing && outs[j] != Status::Success
}

/// Whether the first `n` outcomes of `outs` are all successes.
pub open spec fn first_succeed(outs: Seq<Status>, n: int) -> bool {
    n <= outs.len() && forall|j: int| 0 <= j < n ==> outs[j] == Status::Success
}

/// One more outcome moves the run one transition on.
pub proof fn lemma_state_at_step(outs: Seq<Status>, i: int)
    requires
        0 <= i < outs.len(),
    ensures
        state_at(outs, i + 1) == next_state(state_at(outs, i), outs[i]),
        state_at(outs, 0) == initial_state(),
{
    assert(outs.take(i + 1).drop_last() =~= outs.take(i));
    assert(outs.take(0) =~= Seq::<Status>::empty());
}

/// Every state that a run reaches is well formed.
pub proof fn lemma_state_at_wf(outs: Seq<Status>, i: int)
    requires
        0 <= i <= outs.len(),
    ensures
        state_at(outs, i).wf(),
    decreases i,
{
    if i == 0 {
        assert(outs.take(0) =~= Seq::<Status>::empty());
    } else {
        lemma_state_at_wf(outs, i - 1);
        lemma_state_at_step(outs, i - 1);
    }
}

/// Once finished, a run stays finished.
pub proof fn lemma_finished_stays(outs: Seq<Status>, i: int, j: int)
    requires
        0 <= i <= j <= outs.len(),
        state_at(outs, i).phase == Phase::Finished,
    ensures
        state_at(outs, j) == state_at(outs, i),
    decreases j - i,
{
    if j > i {
        lemma_finished_stays(outs, i, j - 1);
        lemma_state_at_step(outs, j - 1);
    }
}

/// When the panel cannot be created, no other panel, backlight or frame call
/// is ever made, and teardown releases nothing: no handle is held.
pub proof fn lemma_create_failure_skips_all(outs: Seq<Status>)
    requires
        outs.len() >= 1,
        outs[0] != Status::Success,
    ensures
        action_at(outs, 0) == Action::CreatePanel,
        forall|i: int|
            1 <= i <= outs.len() ==> action_at(outs, i) == Action::Finish && !state_at(
                outs,
                i,
            ).panel_live,
{
    lemma_state_at_step(outs, 0);
    assert forall|i: int| 1 <= i <= outs.len() implies action_at(outs, i) == Action::Finish
        && !state_at(outs, i).panel_live by {
        lemma_finished_stays(outs, 1, i);
    }
}

/// When the reset (`k == 1`) or the initialisation (`k == 2`) of a created
/// panel fails, the backlight and the frame loop are never entered, and the
/// next call releases the held handle, once, after which the run is finished.
pub proof fn lemma_panel_failure_skips_to_teardown(outs: Seq<Status>, k: int)
    requires
        1 <= k <= 2,
        k < outs.len(),
        first_succeed(outs, k),
        outs[k] != Status::Success,
    ensures
        action_at(outs, k + 1) == Action::ReleasePanel,
        state_at(outs, k + 1).panel_live,
        forall|i: int| k + 2 <= i <= outs.len() ==> action_at(outs, i) == Action::Finish,
        forall|i: int|
            0 <= i <= outs.len() ==> action_at(outs, i) != Action::EnableBacklight
                && !state_at(outs, i).in_frame_loop(),
        forall|i: int|
            0 <= i <= outs.len() ==> (action_at(outs, i) == Action::ReleasePanel <==> i == k + 1),
{
    lemma_state_at_step(outs, 0);
    lemma_state_at_step(outs, 1);
    if k == 2 {
        lemma_state_at_step(outs, 2);
    }
    if k + 2 <= outs.len() {
        lemma_state_at_step(outs, k + 1);
    }
    assert forall|i: int| k + 2 <= i <= outs.len() implies state_at(outs, i).phase
        == Phase::Finished by {
        lemma_finished_stays(outs, k + 2, i);
    }
}

proof fn lemma_setup_succeeds(outs: Seq<Status>)
    requires
        first_succeed(outs, 4),
    ensures
        action_at(outs, 0) == Action::CreatePanel,
        action_at(outs, 1) == Action::ResetPanel,
        action_at(outs, 2) == Action::InitPanel,
        action_at(outs, 3) == Action::EnableBacklight,
        state_at(outs, 4) == (ControllerState { phase: Phase::Acquiring, cursor: 0, panel_live: true }),
{
    lemma_state_at_step(outs, 0);
    lemma_state_at_step(outs, 1);
    lemma_state_at_step(outs, 2);
    lemma_state_at_step(outs, 3);
}

/// Once panel and backlight setup succeeded, the run stays in the frame loop
/// for as long as no sprite draw has failed.
pub proof fn lemma_frame_loop_runs(outs: Seq<Status>, i: int)
    requires
        first_succeed(outs, 4),
        4 <= i <= outs.len(),
        forall|j: int| 4 <= j < i ==> !failed_draw_at(outs, j),
    ensures
        state_at(outs, i).in_frame_loop(),
        state_at(outs, i).panel_live,
    decreases i,
{
    if i == 4 {
        lemma_setup_succeeds(outs);
    } else {
        lemma_frame_loop_runs(outs, i - 1);
        lemma_state_at_step(outs, i - 1);
        assert(!failed_draw_at(outs, i - 1));
    }
}

/// Once panel and backlight setup succeeded, the first failed sprite draw
/// ends the frame loop, and exactly one release of the handle follows, right
/// after it; the run is then finished.
pub proof fn lemma_draw_failure_ends_loop(outs: Seq<Status>, d: int)
    requires
        first_succeed(outs, 4),
        4 <= d < outs.len(),
        failed_draw_at(outs, d),
        forall|j: int| 4 <= j < d ==> !failed_draw_at(outs, j),
    ensures
        forall|i: int| 4 <= i <= d ==> state_at(outs, i).in_frame_loop(),
        action_at(outs, d + 1) == Action::ReleasePanel,
        state_at(outs, d + 1).panel_live,
        forall|i: int| d + 2 <= i <= outs.len() ==> action_at(outs, i) == Action::Finish,
        forall|i: int|
            0 <= i <= outs.len() ==> (action_at(outs, i) == Action::ReleasePanel <==> i == d + 1),
{
    lemma_setup_succeeds(outs);
    assert forall|i: int| 4 <= i <= d implies state_at(outs, i).in_frame_loop() by {
        lemma_frame_loop_runs(outs, i);
    }
    lemma_frame_loop_runs(outs, d);
    lemma_state_at_step(outs, d);
    if d + 2 <= outs.len() {
        lemma_state_at_step(outs, d + 1);
    }
    assert forall|i: int| d + 2 <= i <= outs.len() implies state_at(outs, i).phase
        == Phase::Finished by {
        lemma_finished_stays(outs, d + 2, i);
    }
}

/// Teardown releases the handle at most once in any run, only while a handle
/// is held, and after it none is; a run that finishes without releasing holds
/// no handle.
pub proof fn lemma_release_at_most_once(outs: Seq<Status>)
    ensures
        forall|i: int, j: int|
            0 <= i <= outs.len() && 0 <= j <= outs.len() && action_at(outs, i)
                == Action::ReleasePanel && action_at(outs, j) == Action::ReleasePanel ==> i == j,
        forall|i: int|
            0 <= i <= outs.len() && action_at(outs, i) == Action::ReleasePanel ==> state_at(
                outs,
                i,
            ).panel_live,
        forall|i: int|
            0 <= i < outs.len() && action_at(outs, i) == Action::ReleasePanel ==> !state_at(
                outs,
                i + 1,
            ).panel_live,
        forall|i: int|
            0 <= i <= outs.len() && action_at(outs, i) == Action::Finish ==> !state_at(
                outs,
                i,
            ).panel_live,
{
    assert forall|i: int|
        0 <= i <= outs.len() && action_at(outs, i) == Action::ReleasePanel implies state_at(
        outs,
        i,
    ).panel_live by {
        lemma_state_at_wf(outs, i);
    }
    assert forall|i: int|
        0 <= i < outs.len() && action_at(outs, i) == Action::ReleasePanel implies !state_at(
        outs,
        i + 1,
    ).panel_live by {
        lemma_state_at_step(outs, i);
    }
    assert forall|i: int|
        0 <= i <= outs.len() && action_at(outs, i) == Action::Finish implies !state_at(
        outs,
        i,
    ).panel_live by {
        lemma_state_at_wf(outs, i);
    }
    assert forall|i: int, j: int|
        0 <= i <= outs.len() && 0 <= j <= outs.len() && action_at(outs, i) == Action::ReleasePanel
            && action_at(outs, j) == Action::ReleasePanel implies i == j by {
        if i < j {
            lemma_state_at_step(outs, i);
            lemma_finished_stays(outs, i + 1, j);
        } else if j < i {
            lemma_state_at_step(outs, j);
            lemma_finished_stays(outs, j + 1, i);
        }
    }
}

/// A failed framebuffer acquisition skips the fill of that frame and nothing
/// else: the sprite is still drawn at the same position, and the cursor still
/// advances after the pause, exactly as when the acquisition succeeds.
pub proof fn lemma_acquire_failure_skips_fill_only(
    s: ControllerState,
    acquire: Status,
    fill: Status,
    delay: Status,
)
    requires
        s.wf(),
        s.phase == Phase::Acquiring,
    ensures
        acquire != Status::Success ==> next_state(s, acquire) == (ControllerState {
            phase: Phase::Drawing,
            ..s
        }),
        acquire == Status::Success ==> action_of(next_state(s, acquire))
            == Action::FillFramebuffer && next_state(next_state(s, acquire), fill) == (
        ControllerState { phase: Phase::Drawing, ..s }),
        action_of(ControllerState { phase: Phase::Drawing, ..s }) == (Action::DrawSprite {
            x0: s.cursor,
            y0: 0,
            x1: (s.cursor + SPRITE_SIZE) as u32,
            y1: SPRITE_SIZE,
        }),
        next_state(next_state(ControllerState { phase: Phase::Drawing, ..s }, Status::Success), delay)
            == (ControllerState {
            phase: Phase::Acquiring,
            cursor: next_cursor(s.cursor as int) as u32,
            ..s
        }),
{
}

/// With every driver call succeeding, the `k`-th sprite draw (counting from
/// zero) puts the sprite at `cursor_after(k)`.
pub proof fn lemma_draw_positions(outs: Seq<Status>, k: nat)
    requires
        first_succeed(outs, outs.len() as int),
        6 + 4 * k <= outs.len(),
    ensures
        state_at(outs, 6 + 4 * k as int) == (ControllerState {
            phase: Phase::Drawing,
            cursor: cursor_after(k) as u32,
            panel_live: true,
        }),
        action_at(outs, 6 + 4 * k as int) == (Action::DrawSprite {
            x0: cursor_after(k) as u32,
            y0: 0,
            x1: (cursor_after(k) + SPRITE_SIZE) as u32,
            y1: SPRITE_SIZE,
        }),
    decreases k,
{
    lemma_cursor_sequence(k);
    if k == 0 {
        lemma_setup_succeeds(outs);
        lemma_state_at_step(outs, 4);
        lemma_state_at_step(outs, 5);
    } else {
        let i = 6 + 4 * (k - 1);
        lemma_draw_positions(outs, (k - 1) as nat);
        lemma_cursor_sequence((k - 1) as nat);
        lemma_state_at_step(outs, i);
        lemma_state_at_step(outs, i + 1);
        lemma_state_at_step(outs, i + 2);
        lemma_state_at_step(outs, i + 3);
    }
}

} // verus!
