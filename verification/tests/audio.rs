use mage_arena::audio::select_sounds;

#[test]
fn duplicate_clips_play_once() {
    assert_eq!(select_sounds(&vec![1, 2, 1, 3, 2]), vec![0, 1, 3]);
}

#[test]
fn distinct_clips_all_play() {
    assert_eq!(select_sounds(&vec![9, 8, 7]), vec![0, 1, 2]);
}

#[test]
fn no_request_no_sound() {
    assert!(select_sounds(&Vec::new()).is_empty());
}

#[test]
fn same_clip_many_times() {
    assert_eq!(select_sounds(&vec![4, 4, 4, 4]), vec![0]);
}
