use backup_photos::naming::{choose_trash_name, choose_trash_name_now, decimal_digits, make_suffixed};

#[test]
fn free_name_is_used_unchanged() {
    let taken: Vec<Vec<u8>> = Vec::new();
    let chosen = choose_trash_name(b"x.jpg", b"20240101120000", &taken);
    assert_eq!(chosen, b"x.jpg".to_vec());
}

#[test]
fn taken_name_gets_timestamp_and_counter_one() {
    // the trash already holds "x.jpg"; a different "x.jpg" arrives
    let taken = vec![b"x.jpg".to_vec()];
    let chosen = choose_trash_name(b"x.jpg", b"20240101120000", &taken);
    assert_eq!(chosen, b"x.jpg-20240101120000-1".to_vec());
    assert_ne!(chosen, taken[0]);
}

#[test]
fn counter_increases_past_taken_suffixes() {
    let taken = vec![
        b"x.jpg".to_vec(),
        b"x.jpg-20240101120000-1".to_vec(),
        b"x.jpg-20240101120000-2".to_vec(),
    ];
    let chosen = choose_trash_name(b"x.jpg", b"20240101120000", &taken);
    assert_eq!(chosen, b"x.jpg-20240101120000-3".to_vec());
}

#[test]
fn two_files_sharing_a_name_never_collide() {
    let mut taken: Vec<Vec<u8>> = Vec::new();
    let first = choose_trash_name(b"x.jpg", b"20240101120000", &taken);
    taken.push(first.clone());
    let second = choose_trash_name(b"x.jpg", b"20240101120000", &taken);
    assert_ne!(first, second);
    assert!(!taken.contains(&second));
}

#[test]
fn chosen_name_avoids_unrelated_entries_too() {
    let taken = vec![b"other.png".to_vec(), b"x.jpg".to_vec()];
    let chosen = choose_trash_name(b"x.jpg", b"20240101120000", &taken);
    assert!(!taken.contains(&chosen));
}

#[test]
fn clock_based_choice_also_avoids_collisions() {
    let taken = vec![b"x.jpg".to_vec()];
    let chosen = choose_trash_name_now(b"x.jpg", &taken);
    assert!(!taken.contains(&chosen));
    assert!(chosen.starts_with(b"x.jpg-"));
    assert!(chosen.ends_with(b"-1"));
}

#[test]
fn decimal_rendering_matches_usual_notation() {
    assert_eq!(decimal_digits(0), b"0".to_vec());
    assert_eq!(decimal_digits(7), b"7".to_vec());
    assert_eq!(decimal_digits(10), b"10".to_vec());
    assert_eq!(decimal_digits(12345), b"12345".to_vec());
}

#[test]
fn suffixed_name_has_the_documented_shape() {
    let s = make_suffixed(b"photo.jpg", b"20231231235959", 12);
    assert_eq!(s, b"photo.jpg-20231231235959-12".to_vec());
}
