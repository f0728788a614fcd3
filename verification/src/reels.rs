//! The reel animation driver: sixty frames of three rows by three columns.
//! Each column runs until its stop threshold, then shows the winner in the
//! middle row and a pair of values locked at the stop for top and bottom.

use vstd::prelude::*;

use crate::languages::Language;
use crate::selection::{pick_one, pick_other_than};

verus! {

/// How many frames one run of the reels produces.
pub const FRAME_COUNT: usize = 60;

/// The first frame index at which a column is stopped: the left column at
/// 40, the middle at 50, the right only on the final frame.
pub open spec fn stop_threshold(c: int) -> int {
    if c == 0 {
        40
    } else if c == 1 {
        50
    } else {
        59
    }
}

/// Whether column `c` is stopped at frame `i`.
pub open spec fn stopped_at(i: int, c: int) -> bool {
    i >= stop_threshold(c)
}

/// One rendered frame: three rows, each of three columns.
#[derive(Debug)]
pub struct Frame {
    pub top: Vec<Language>,
    pub middle: Vec<Language>,
    pub bottom: Vec<Language>,
}

/// The value is one of the list's entries.
pub open spec fn in_list(l: Language, list: Seq<Language>) -> bool {
    exists|k: int| 0 <= k < list.len() && l == list[k]
}

/// Some entry's name differs from `w`'s.
pub open spec fn has_other_name(list: Seq<Language>, w: Language) -> bool {
    exists|k: int| 0 <= k < list.len() && list[k].name@ != w.name@
}

/// What holds of a value locked in by a draw that avoids `w`: it is an entry
/// of the list; its name differs from `w`'s whenever any entry's does; and
/// in the degenerate case where none does, it is `w` itself.
pub open spec fn other_pick_ok(l: Language, list: Seq<Language>, w: Language) -> bool {
    &&& in_list(l, list)
    &&& has_other_name(list, w) ==> l.name@ != w.name@
    &&& !has_other_name(list, w) ==> l == w
}

/// Every cell of the frame is an entry of the list, three per row.
pub open spec fn frame_wf(f: Frame, list: Seq<Language>) -> bool {
    &&& f.top@.len() == 3 && f.middle@.len() == 3 && f.bottom@.len() == 3
    &&& forall|c: int|
        0 <= c < 3 ==> in_list(#[trigger] f.top@[c], list) && in_list(f.middle@[c], list)
            && in_list(f.bottom@[c], list)
}

fn row3(a: Language, b: Language, c: Language) -> (r: Vec<Language>)
    ensures
        r@.len() == 3,
        r@[0] == a && r@[1] == b && r@[2] == c,
{
    let mut v: Vec<Language> = Vec::new();
    v.push(a);
    v.push(b);
    v.push(c);
    v
}

/// Whether the pause after frame `i` is the long one: the "click" right
/// before a column locks in.
pub fn long_pause_after(i: usize) -> (r: bool)
    ensures
        r == (i == 39 || i == 49),
{
    i == 39 || i == 49
}

/// Runs the reels: produces all sixty frames for the given list and winner.
///
/// In every frame, every stopped column shows the winner in the middle row;
/// its top and bottom cells hold the pair drawn when the column stopped, the
/// same pair through the final frame, and never the winner's name unless no
/// entry's name differs. Running cells hold fresh random entries of the list.
pub fn run_reels(list: &Vec<Language>, winner: &Language) -> (r: Vec<Frame>)
    requires
        list@.len() > 0,
        in_list(*winner, list@),
    ensures
        r@.len() == FRAME_COUNT,
        forall|i: int| 0 <= i < r@.len() ==> frame_wf(#[trigger] r@[i], list@),
        forall|i: int, c: int|
            0 <= i < r@.len() && 0 <= c < 3 && stopped_at(i, c) ==> #[trigger] r@[i].middle@[c]
                == *winner,
        forall|i: int, c: int|
            0 <= c < 3 && stop_threshold(c) <= i < r@.len() ==> #[trigger] r@[i].top@[c] == r@[
                stop_threshold(c)
            ].top@[c] && r@[i].bottom@[c] == r@[stop_threshold(c)].bottom@[c],
        forall|i: int, c: int|
            0 <= c < 3 && stop_threshold(c) <= i < r@.len() ==> other_pick_ok(
                #[trigger] r@[i].top@[c],
                list@,
                *winner,
            ) && other_pick_ok(r@[i].bottom@[c], list@, *winner),
{
    let mut frames: Vec<Frame> = Vec::new();
    let mut top_fix0: Language = winner.clone();
    let mut bot_fix0: Language = winner.clone();
    let mut top_fix1: Language = winner.clone();
    let mut bot_fix1: Language = winner.clone();
    let mut top_fix2: Language = winner.clone();
    let mut bot_fix2: Language = winner.clone();
    let mut i: usize = 0;
    while i < FRAME_COUNT
        invariant
            list@.len() > 0,
            in_list(*winner, list@),
            i <= FRAME_COUNT,
            frames@.len() == i,
            i > 40 ==> other_pick_ok(top_fix0, list@, *winner) && other_pick_ok(
                bot_fix0,
                list@,
                *winner,
            ),
            i > 50 ==> other_pick_ok(top_fix1, list@, *winner) && other_pick_ok(
                bot_fix1,
                list@,
                *winner,
            ),
            i > 59 ==> other_pick_ok(top_fix2, list@, *winner) && other_pick_ok(
                bot_fix2,
                list@,
                *winner,
            ),
            forall|j: int| 0 <= j < i ==> frame_wf(#[trigger] frames@[j], list@),
            forall|j: int, c: int|
                0 <= j < i && 0 <= c < 3 && stopped_at(j, c) ==> #[trigger] frames@[j].middle@[c]
                    == *winner,
            forall|j: int|
                40 <= j < i ==> #[trigger] frames@[j].top@[0] == top_fix0 && frames@[j].bottom@[0]
                    == bot_fix0,
            forall|j: int|
                50 <= j < i ==> #[trigger] frames@[j].top@[1] == top_fix1 && frames@[j].bottom@[1]
                    == bot_fix1,
            forall|j: int|
                59 <= j < i ==> #[trigger] frames@[j].top@[2] == top_fix2 && frames@[j].bottom@[2]
                    == bot_fix2,
        decreases FRAME_COUNT - i,
    {
        if i == 40 {
            top_fix0 = pick_other_than(list, winner);
            bot_fix0 = pick_other_than(list, winner);
        }
        if i == 50 {
            top_fix1 = pick_other_than(list, winner);
            bot_fix1 = pick_other_than(list, winner);
        }
        if i == 59 {
            top_fix2 = pick_other_than(list, winner);
            bot_fix2 = pick_other_than(list, winner);
        }
        let c0m = if i >= 40 {
            winner.clone()
        } else {
            pick_one(list)
        };
        let c1m = if i >= 50 {
            winner.clone()
        } else {
            pick_one(list)
        };
        let c2m = if i >= 59 {
            winner.clone()
        } else {
            pick_one(list)
        };
        let c0t = if i >= 40 {
            top_fix0.clone()
        } else {
            pick_one(list)
        };
        let c1t = if i >= 50 {
            top_fix1.clone()
        } else {
            pick_one(list)
        };
        let c2t = if i >= 59 {
            top_fix2.clone()
        } else {
            pick_one(list)
        };
        let c0b = if i >= 40 {
            bot_fix0.clone()
        } else {
            pick_one(list)
        };
        let c1b = if i >= 50 {
            bot_fix1.clone()
        } else {
            pick_one(list)
        };
        let c2b = if i >= 59 {
            bot_fix2.clone()
        } else {
            pick_one(list)
        };
        let frame = Frame {
            top: row3(c0t, c1t, c2t),
            middle: row3(c0m, c1m, c2m),
            bottom: row3(c0b, c1b, c2b),
        };
        frames.push(frame);
        i = i + 1;
    }
    proof {
        assert forall|i2: int, c: int|
            0 <= c < 3 && stop_threshold(c) <= i2 < frames@.len() implies #[trigger] frames@[
            i2
        ].top@[c] == frames@[stop_threshold(c)].top@[c] && frames@[i2].bottom@[c] == frames@[
            stop_threshold(c)
        ].bottom@[c] by {
            if c == 0 {
                assert(frames@[i2].top@[0] == top_fix0);
                assert(frames@[stop_threshold(0)].top@[0] == top_fix0);
            } else if c == 1 {
                assert(frames@[i2].top@[1] == top_fix1);
                assert(frames@[stop_threshold(1)].top@[1] == top_fix1);
            } else {
                assert(frames@[i2].top@[2] == top_fix2);
                assert(frames@[stop_threshold(2)].top@[2] == top_fix2);
            }
        }
        assert forall|i2: int, c: int|
            0 <= c < 3 && stop_threshold(c) <= i2 < frames@.len() implies other_pick_ok(
            #[trigger] frames@[i2].top@[c],
            list@,
            *winner,
        ) && other_pick_ok(frames@[i2].bottom@[c], list@, *winner) by {
            if c == 0 {
                assert(frames@[i2].top@[0] == top_fix0 && frames@[i2].bottom@[0] == bot_fix0);
            } else if c == 1 {
                assert(frames@[i2].top@[1] == top_fix1 && frames@[i2].bottom@[1] == bot_fix1);
            } else {
                assert(frames@[i2].top@[2] == top_fix2 && frames@[i2].bottom@[2] == bot_fix2);
            }
        }
    }
    frames
}

} // verus!
