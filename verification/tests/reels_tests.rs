use backend_slot::languages::{builtin_languages, Language};
use backend_slot::reels::{long_pause_after, run_reels, FRAME_COUNT};
use backend_slot::selection::pick_one;

const THRESHOLDS: [usize; 3] = [40, 50, 59];

#[test]
fn reels_produce_sixty_frames_with_three_cells_per_row() {
    let list = builtin_languages();
    let winner = pick_one(&list);
    let frames = run_reels(&list, &winner);
    assert_eq!(frames.len(), FRAME_COUNT);
    assert_eq!(FRAME_COUNT, 60);
    for frame in &frames {
        assert_eq!(frame.top.len(), 3);
        assert_eq!(frame.middle.len(), 3);
        assert_eq!(frame.bottom.len(), 3);
        for row in [&frame.top, &frame.middle, &frame.bottom] {
            for cell in row {
                assert!(list.iter().any(|l| l.name == cell.name && l.color == cell.color));
            }
        }
    }
}

#[test]
fn stopped_columns_show_the_winner_in_the_middle_row() {
    let list = builtin_languages();
    let winner = pick_one(&list);
    let frames = run_reels(&list, &winner);
    for (c, &threshold) in THRESHOLDS.iter().enumerate() {
        for frame in &frames[threshold..] {
            assert_eq!(frame.middle[c].name, winner.name);
            assert_eq!(frame.middle[c].color, winner.color);
        }
    }
}

#[test]
fn fixed_cells_stay_identical_from_the_stop_through_the_last_frame() {
    let list = builtin_languages();
    let winner = pick_one(&list);
    let frames = run_reels(&list, &winner);
    for (c, &threshold) in THRESHOLDS.iter().enumerate() {
        let top = &frames[threshold].top[c];
        let bottom = &frames[threshold].bottom[c];
        for frame in &frames[threshold..] {
            assert_eq!(frame.top[c].name, top.name);
            assert_eq!(frame.top[c].color, top.color);
            assert_eq!(frame.bottom[c].name, bottom.name);
            assert_eq!(frame.bottom[c].color, bottom.color);
        }
    }
}

#[test]
fn final_frame_shows_winner_flanked_by_other_names() {
    let list = builtin_languages();
    let winner = pick_one(&list);
    let frames = run_reels(&list, &winner);
    let last = &frames[FRAME_COUNT - 1];
    for c in 0..3 {
        assert_eq!(last.middle[c].name, winner.name);
        assert_ne!(last.top[c].name, winner.name);
        assert_ne!(last.bottom[c].name, winner.name);
    }
}

#[test]
fn degenerate_list_locks_the_winner_everywhere() {
    let list = vec![Language::new("Same", "red"), Language::new("Same", "blue")];
    let winner = pick_one(&list);
    let frames = run_reels(&list, &winner);
    let last = &frames[FRAME_COUNT - 1];
    for c in 0..3 {
        assert_eq!(last.top[c].name, "Same");
        assert_eq!(last.middle[c].name, winner.name);
        assert_eq!(last.bottom[c].name, "Same");
    }
}

#[test]
fn only_the_pre_stop_pauses_are_long() {
    for i in 0..FRAME_COUNT {
        assert_eq!(long_pause_after(i), i == 39 || i == 49);
    }
}
