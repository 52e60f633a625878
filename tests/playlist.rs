use oxidio::playlist::{shuffled_order, Playlist, PlaylistError, RepeatMode};

fn s(x: &str) -> String {
    String::from(x)
}

fn abc() -> Playlist {
    let mut p = Playlist::new();
    p.add_many(vec![s("A"), s("B"), s("C")]);
    p
}

fn is_permutation(order: &[usize], n: usize) -> bool {
    let mut seen = vec![false; n];
    if order.len() != n {
        return false;
    }
    for &i in order {
        if i >= n || seen[i] {
            return false;
        }
        seen[i] = true;
    }
    true
}

#[test]
fn repeat_all_wraps_forward_then_back() {
    let mut p = abc();
    p.set_repeat(RepeatMode::All);
    p.set_shuffle(false);
    assert_eq!(p.jump_to(2), Some(&s("C")));
    assert_eq!(p.next(), Some(&s("A")));
    assert_eq!(p.current_index(), Some(0));
    assert_eq!(p.previous(), Some(&s("C")));
    assert_eq!(p.current_index(), Some(2));
}

#[test]
fn repeat_off_at_last_index_yields_none_and_keeps_state() {
    let mut p = abc();
    p.jump_to(2);
    assert_eq!(p.next(), None);
    assert_eq!(p.current_index(), Some(2));
    assert_eq!(p.current(), Some(&s("C")));
}

#[test]
fn repeat_off_previous_stays_at_first() {
    let mut p = abc();
    p.jump_to(0);
    assert_eq!(p.previous(), Some(&s("A")));
    assert_eq!(p.current_index(), Some(0));
}

#[test]
fn repeat_one_returns_the_same_track() {
    let mut p = abc();
    p.set_repeat(RepeatMode::One);
    p.jump_to(1);
    assert_eq!(p.next(), Some(&s("B")));
    assert_eq!(p.previous(), Some(&s("B")));
    assert_eq!(p.current_index(), Some(1));
    p.set_shuffle(true);
    assert_eq!(p.next(), Some(&s("B")));
    assert_eq!(p.previous(), Some(&s("B")));
}

#[test]
fn next_without_current_starts_at_first() {
    let mut p = abc();
    assert_eq!(p.next(), Some(&s("A")));
    assert_eq!(p.next(), Some(&s("B")));
    let mut empty = Playlist::new();
    assert_eq!(empty.next(), None);
    assert_eq!(empty.previous(), None);
}

#[test]
fn remove_keeps_current_track() {
    let mut p = abc();
    p.jump_to(2);
    assert_eq!(p.remove(0), Some(s("A")));
    assert_eq!(p.current_index(), Some(1));
    assert_eq!(p.current(), Some(&s("C")));
    assert_eq!(p.remove(5), None);
    assert_eq!(p.remove(1), Some(s("C")));
    assert_eq!(p.current_index(), None);
    assert_eq!(p.tracks(), &[s("B")][..]);
}

#[test]
fn move_track_keeps_current_track() {
    let mut p = abc();
    p.jump_to(1);
    assert!(p.move_track(0, 2));
    assert_eq!(p.tracks(), &[s("B"), s("C"), s("A")][..]);
    assert_eq!(p.current_index(), Some(0));
    assert_eq!(p.current(), Some(&s("B")));
    assert!(p.move_track(0, 1));
    assert_eq!(p.current(), Some(&s("B")));
    assert_eq!(p.current_index(), Some(1));
    assert!(!p.move_track(0, 3));
    assert!(p.move_track(2, 2));
}

#[test]
fn add_keeps_current_track() {
    let mut p = abc();
    p.jump_to(1);
    p.add(s("D"));
    assert_eq!(p.current(), Some(&s("B")));
    assert_eq!(p.len(), 4);
}

#[test]
fn dedup_keeps_first_occurrences_and_is_idempotent() {
    let mut p = Playlist::new();
    p.add_many(vec![s("A"), s("B"), s("A"), s("C"), s("B")]);
    p.jump_to(3);
    assert_eq!(p.dedup(), 2);
    assert_eq!(p.tracks(), &[s("A"), s("B"), s("C")][..]);
    assert_eq!(p.current_index(), Some(2));
    assert_eq!(p.current(), Some(&s("C")));
    assert_eq!(p.dedup(), 0);
}

#[test]
fn dedup_of_current_duplicate_clears_current() {
    let mut p = Playlist::new();
    p.add_many(vec![s("A"), s("B"), s("A")]);
    p.jump_to(2);
    assert_eq!(p.dedup(), 1);
    assert_eq!(p.current_index(), None);
}

#[test]
fn shuffle_order_visits_every_track_once() {
    let mut p = Playlist::new();
    p.add_many((0..20).map(|i| format!("t{}", i)).collect());
    p.set_shuffle(true);
    let mut seen = Vec::new();
    let first = p.next();
    assert!(first.is_some());
    let mut idx = vec![p.current_index().unwrap()];
    while let Some(_) = p.next() {
        idx.push(p.current_index().unwrap());
    }
    seen.extend(idx.iter().copied());
    // every track once, starting with the first entry of the new order
    assert_eq!(seen.len(), 20);
    let mut sorted = seen.clone();
    sorted.sort();
    sorted.dedup();
    assert_eq!(sorted.len(), 20);
}

#[test]
fn shuffle_repeat_all_regenerates_at_end() {
    let mut p = abc();
    p.set_shuffle(true);
    p.set_repeat(RepeatMode::All);
    for _ in 0..10 {
        assert!(p.next().is_some());
    }
    assert!(p.current_index().unwrap() < 3);
}

#[test]
fn shuffle_off_at_end_of_order_yields_none() {
    let mut p = abc();
    p.set_shuffle(true);
    assert!(p.next().is_some());
    assert!(p.next().is_some());
    assert!(p.next().is_some());
    let before = p.current_index();
    assert_eq!(p.next(), None);
    assert_eq!(p.current_index(), before);
    assert!(p.previous().is_some());
}

#[test]
fn clear_and_accessors() {
    let mut p = abc();
    p.jump_to(1);
    p.set_shuffle(true);
    assert!(p.shuffle());
    p.set_repeat(RepeatMode::One);
    assert_eq!(p.repeat(), RepeatMode::One);
    p.clear();
    assert!(p.is_empty());
    assert_eq!(p.current_index(), None);
    assert_eq!(p.jump_to(0), None);
    assert_eq!(RepeatMode::default(), RepeatMode::Off);
    let _ = PlaylistError::InvalidFormat;
    assert!(is_permutation(&[2, 0, 1], 3));
}

#[test]
fn m3u_round_trip() {
    let mut p = Playlist::new();
    p.add_many(vec![s("/music/a.mp3"), s("\\\\server\\share\\b.flac"), s("C:/x y/c.ogg")]);
    let text = p.to_m3u();
    assert_eq!(text, "#EXTM3U\n/music/a.mp3\n\\\\server\\share\\b.flac\nC:/x y/c.ogg\n");
    let q = Playlist::from_m3u(&text);
    assert_eq!(q.tracks(), p.tracks());
    assert_eq!(q.current_index(), None);
}

#[test]
fn m3u_load_skips_comments_and_blank_lines() {
    let q = Playlist::from_m3u("#EXTM3U\r\n\n  # note\n  /a.mp3  \r\n#EXTINF:1,x\n/b.mp3");
    assert_eq!(q.tracks(), &[s("/a.mp3"), s("/b.mp3")][..]);
    assert!(Playlist::from_m3u("").is_empty());
}

#[test]
fn fisher_yates_with_given_draws() {
    assert_eq!(shuffled_order(0, &[]), Vec::<usize>::new());
    // i = 3: swap 3 and 7 % 4 = 3; i = 2: swap 2 and 4 % 3 = 1; i = 1: swap 1 and 1 % 2 = 1
    assert_eq!(shuffled_order(4, &[0, 1, 4, 7]), vec![0, 2, 1, 3]);
    // i = 2: swap 2 and 0; i = 1: swap 1 and 0
    assert_eq!(shuffled_order(3, &[9, 2, 3]), vec![1, 2, 0]);
}
