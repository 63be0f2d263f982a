//! Screen navigation planner: turns a logical page coordinate into the
//! exact sequence of primitive commands that reaches it.
//!
//! The plan always starts with a reset back to the home position, then
//! moves the row (|delta| page-down primitives for a positive row delta,
//! page-up for a negative one), then switches right by the column delta.
//! Resetting first keeps the planner stateless: no current position is
//! tracked across calls.

use vstd::prelude::*;

use crate::consts::{
    FRAME_LEN, ZOOM65_RESET_SCREEN_ID, ZOOM65_SCREEN_DOWN, ZOOM65_SCREEN_SWITCH, ZOOM65_SCREEN_UP,
};
use crate::frame::{build_frame, spec_command_frame, Frame};
use crate::types::ScreenPosition;

verus! {

/// One primitive navigation command.
#[derive(Clone, Copy, PartialEq, Eq, Structural, Debug)]
pub enum NavStep {
    Reset,
    Up,
    Down,
    Switch,
}

/// How many row-move primitives a row delta takes.
pub open spec fn row_steps(row: int) -> nat {
    if row < 0 {
        (-row) as nat
    } else {
        row as nat
    }
}

/// The full primitive sequence for a target coordinate: one reset, then
/// the row moves, then the column switches.
pub open spec fn spec_plan(row: int, col: int) -> Seq<NavStep> {
    seq![NavStep::Reset] + Seq::new(
        row_steps(row),
        |i: int|
            if row < 0 {
                NavStep::Up
            } else {
                NavStep::Down
            },
    ) + Seq::new(col as nat, |i: int| NavStep::Switch)
}

/// Plans the primitive sequence that moves the screen to `position`,
/// exactly `spec_plan` of its row and column.
pub fn plan(position: &ScreenPosition) -> (r: Vec<NavStep>)
    ensures
        r@ == spec_plan(position.row as int, position.col as int),
        r@.len() == 1 + row_steps(position.row as int) + position.col,
{
    let row: i32 = position.row as i32;
    let down = row >= 0;
    let moves: u32 = if row >= 0 {
        row as u32
    } else {
        (-row) as u32
    };
    let mut r: Vec<NavStep> = Vec::new();
    r.push(NavStep::Reset);
    let ghost rows = Seq::new(
        row_steps(position.row as int),
        |i: int|
            if position.row < 0 {
                NavStep::Up
            } else {
                NavStep::Down
            },
    );
    let mut i: u32 = 0;
    while i < moves
        invariant
            i <= moves,
            moves == row_steps(position.row as int),
            down == (position.row >= 0),
            rows == Seq::new(
                row_steps(position.row as int),
                |j: int|
                    if position.row < 0 {
                        NavStep::Up
                    } else {
                        NavStep::Down
                    },
            ),
            r@ == seq![NavStep::Reset] + rows.take(i as int),
        decreases moves - i,
    {
        if down {
            r.push(NavStep::Down);
        } else {
            r.push(NavStep::Up);
        }
        proof {
            assert(rows.take(i as int + 1) =~= rows.take(i as int).push(rows[i as int]));
            assert(r@ =~= seq![NavStep::Reset] + rows.take(i as int + 1));
        }
        i = i + 1;
    }
    proof {
        assert(rows.take(moves as int) =~= rows);
    }
    let cols = position.col;
    let ghost switches = Seq::new(position.col as nat, |i: int| NavStep::Switch);
    let mut k: u8 = 0;
    while k < cols
        invariant
            k <= cols,
            cols == position.col,
            switches == Seq::new(position.col as nat, |i: int| NavStep::Switch),
            r@ == seq![NavStep::Reset] + rows + switches.take(k as int),
        decreases cols - k,
    {
        r.push(NavStep::Switch);
        proof {
            assert(switches.take(k as int + 1) =~= switches.take(k as int).push(
                switches[k as int],
            ));
            assert(r@ =~= seq![NavStep::Reset] + rows + switches.take(k as int + 1));
        }
        k = k + 1;
    }
    proof {
        assert(switches.take(cols as int) =~= switches);
        assert(r@ =~= spec_plan(position.row as int, position.col as int));
    }
    r
}

/// The method id a primitive navigation command is sent under.
pub open spec fn spec_nav_id(step: NavStep) -> (u8, u8) {
    match step {
        NavStep::Reset => (ZOOM65_RESET_SCREEN_ID[0], ZOOM65_RESET_SCREEN_ID[1]),
        NavStep::Up => (ZOOM65_SCREEN_UP[0], ZOOM65_SCREEN_UP[1]),
        NavStep::Down => (ZOOM65_SCREEN_DOWN[0], ZOOM65_SCREEN_DOWN[1]),
        NavStep::Switch => (ZOOM65_SCREEN_SWITCH[0], ZOOM65_SCREEN_SWITCH[1]),
    }
}

/// Frames one primitive navigation command: its method id with an empty
/// payload.
pub fn nav_frame(step: NavStep) -> (f: Frame)
    ensures
        f@ == spec_command_frame(spec_nav_id(step).0, spec_nav_id(step).1, Seq::empty()),
        f@.len() == FRAME_LEN,
{
    let empty: [u8; 0] = [];
    let id: [u8; 2] = match step {
        NavStep::Reset => ZOOM65_RESET_SCREEN_ID,
        NavStep::Up => ZOOM65_SCREEN_UP,
        NavStep::Down => ZOOM65_SCREEN_DOWN,
        NavStep::Switch => ZOOM65_SCREEN_SWITCH,
    };
    proof {
        assert(empty@ =~= Seq::<u8>::empty());
    }
    build_frame(id, empty.as_slice())
}

} // verus!
