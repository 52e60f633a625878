//! Playlist and queue management: track ordering, shuffle, repeat and dedup.

use vstd::prelude::*;
use std::collections::hash_map::RandomState;
use std::hash::BuildHasher;
use crate::m3u::{format_m3u, m3u_entries, m3u_text, parse_m3u, paths_of};

verus! {

/// Repeat mode for the playlist.
#[derive(Debug, Clone, Copy, PartialEq, Eq, Structural)]
pub enum RepeatMode {
    Off,
    One,
    All,
}

impl Default for RepeatMode {
    fn default() -> (r: Self)
        ensures
            r == RepeatMode::Off,
    {
        RepeatMode::Off
    }
}

/// Errors that can occur with playlist operations.
#[derive(Debug, Clone, PartialEq, Eq)]
pub enum PlaylistError {
    /// Reading or writing the playlist file failed; holds the system's message.
    Io(String),
    InvalidFormat,
}

/// Abstract state of a playlist.
pub ghost struct PlaylistView {
    pub tracks: Seq<String>,
    pub current: Option<usize>,
    pub shuffle: bool,
    pub repeat: RepeatMode,
    /// Play order used while shuffle is on, as indices into `tracks`.
    pub order: Seq<usize>,
    /// Position in `order` of the shuffled track being played.
    pub cursor: usize,
    /// The cursor's entry has not been played yet: the next step in shuffle mode takes it.
    pub fresh: bool,
}

/// `order` lists every index of `0..n` exactly once.
pub open spec fn is_permutation(order: Seq<usize>, n: nat) -> bool {
    &&& order.len() == n
    &&& forall|i: int| 0 <= i < n ==> #[trigger] order[i] < n
    &&& forall|i: int, j: int| 0 <= i < n && 0 <= j < n && i != j ==> order[i] != order[j]
}

/// Some element of `s` has the path `p`.
pub open spec fn contains_path(s: Seq<String>, p: Seq<char>) -> bool {
    exists|k: int| 0 <= k < s.len() && (#[trigger] s[k])@ == p
}

/// `s` with every later duplicate (by path) removed, first occurrences kept in order.
pub open spec fn dedup_paths(s: Seq<String>) -> Seq<String>
    decreases s.len(),
{
    if s.len() == 0 {
        s
    } else {
        let d = dedup_paths(s.drop_last());
        if contains_path(d, s.last()@) {
            d
        } else {
            d.push(s.last())
        }
    }
}

/// The entry at `i` is the first one in `s` with its path.
pub open spec fn is_first_occurrence(s: Seq<String>, i: int) -> bool {
    !contains_path(s.take(i), s[i]@)
}

/// `r` refers to the track `t`, or is absent exactly when `t` is.
pub open spec fn refers_to(r: Option<&String>, t: Option<String>) -> bool {
    match r {
        Some(x) => t == Some(*x),
        None => t is None,
    }
}

/// Where the current index goes when the entry at `removed` is taken out.
pub open spec fn index_after_remove(current: Option<usize>, removed: usize) -> Option<usize> {
    match current {
        Some(c) => if removed < c {
            Some((c - 1) as usize)
        } else if removed == c {
            None
        } else {
            Some(c)
        },
        None => None,
    }
}

/// Where the current index goes when the entry at `from` is moved to `to`.
pub open spec fn index_after_move(current: Option<usize>, from: usize, to: usize) -> Option<usize> {
    match current {
        Some(c) => if c == from {
            Some(to)
        } else if from < c && c <= to {
            Some((c - 1) as usize)
        } else if to <= c && c < from {
            Some((c + 1) as usize)
        } else {
            Some(c)
        },
        None => None,
    }
}

impl PlaylistView {
    pub open spec fn wf(self) -> bool {
        &&& self.current matches Some(c) ==> c < self.tracks.len()
        &&& is_permutation(self.order, self.tracks.len())
        &&& (self.cursor < self.tracks.len() || self.cursor == 0)
    }

    /// The track that `i` names, if it names one.
    pub open spec fn track_at(self, i: Option<usize>) -> Option<String> {
        match i {
            Some(k) => if k < self.tracks.len() {
                Some(self.tracks[k as int])
            } else {
                None
            },
            None => None,
        }
    }

    pub open spec fn current_track(self) -> Option<String> {
        self.track_at(self.current)
    }

    /// Same playlist with only the current index changed.
    pub open spec fn with_current(self, c: Option<usize>) -> PlaylistView {
        PlaylistView { current: c, ..self }
    }

    /// Index that `next` selects with shuffle off and repeat Off or All, if any: the first
    /// track when none is current.
    pub open spec fn linear_next(self) -> Option<usize> {
        match self.current {
            Some(c) => if c + 1 < self.tracks.len() {
                Some((c + 1) as usize)
            } else if self.repeat == RepeatMode::All {
                Some(0)
            } else {
                None
            },
            None => if self.tracks.len() > 0 {
                Some(0)
            } else {
                None
            },
        }
    }

    /// Index that `previous` selects with shuffle off and repeat Off or All.
    pub open spec fn linear_previous(self) -> usize {
        let c = match self.current {
            Some(c) => c,
            None => 0,
        };
        if c > 0 {
            (c - 1) as usize
        } else if self.repeat == RepeatMode::All {
            (self.tracks.len() - 1) as usize
        } else {
            0
        }
    }
}

proof fn lemma_contains_push(d: Seq<String>, x: String, p: Seq<char>)
    ensures
        contains_path(d.push(x), p) == (contains_path(d, p) || x@ == p),
{
    let e = d.push(x);
    if contains_path(e, p) {
        let k = choose|k: int| 0 <= k < e.len() && (#[trigger] e[k])@ == p;
        if k < d.len() {
            assert(d[k] == e[k]);
        }
    }
    if contains_path(d, p) {
        let k = choose|k: int| 0 <= k < d.len() && (#[trigger] d[k])@ == p;
        assert(d[k] == e[k]);
    }
    if x@ == p {
        assert(e[d.len() as int] == x);
    }
}

/// Taking duplicates out keeps exactly the paths that were there.
pub proof fn lemma_dedup_same_paths(s: Seq<String>, p: Seq<char>)
    ensures
        contains_path(dedup_paths(s), p) == contains_path(s, p),
    decreases s.len(),
{
    if s.len() > 0 {
        let t = s.drop_last();
        lemma_dedup_same_paths(t, p);
        let d = dedup_paths(t);
        assert(s =~= t.push(s.last()));
        lemma_contains_push(t, s.last(), p);
        lemma_contains_push(d, s.last(), p);
        lemma_dedup_same_paths(t, s.last()@);
    }
}

/// Removing duplicates a second time changes nothing: `dedup` is idempotent.
pub proof fn lemma_dedup_idempotent(s: Seq<String>)
    ensures
        dedup_paths(dedup_paths(s)) == dedup_paths(s),
    decreases s.len(),
{
    if s.len() > 0 {
        let t = s.drop_last();
        lemma_dedup_idempotent(t);
        let d = dedup_paths(t);
        if !contains_path(d, s.last()@) {
            assert(d.push(s.last()).drop_last() =~= d);
        }
    }
}

/// A second `dedup` right after a first one removes no track.
pub proof fn lemma_dedup_twice_removes_nothing(v: PlaylistView)
    ensures
        dedup_paths(dedup_paths(v.tracks)).len() == dedup_paths(v.tracks).len(),
{
    lemma_dedup_idempotent(v.tracks);
}

/// `s` with the entries at `i` and `j` exchanged.
pub open spec fn swap_at(s: Seq<usize>, i: int, j: int) -> Seq<usize> {
    s.update(i, s[j]).update(j, s[i])
}

/// The Fisher-Yates passes `i`, `i - 1`, ..., 1 over `s`: pass `k` exchanges positions `k` and
/// `draws[k] % (k + 1)`.
pub open spec fn fisher_yates_from(s: Seq<usize>, draws: Seq<u64>, i: nat) -> Seq<usize>
    decreases i,
{
    if i == 0 {
        s
    } else {
        fisher_yates_from(
            swap_at(s, i as int, draws[i as int] as int % (i + 1) as int),
            draws,
            (i - 1) as nat,
        )
    }
}

/// The order that Fisher-Yates draws from `draws`: start from `0..n`, then for `i` from
/// `n - 1` down to 1 exchange positions `i` and `draws[i] % (i + 1)`.
pub open spec fn fisher_yates(n: nat, draws: Seq<u64>) -> Seq<usize> {
    if n == 0 {
        Seq::empty()
    } else {
        fisher_yates_from(Seq::new(n, |k: int| k as usize), draws, (n - 1) as nat)
    }
}

/// `order` is what Fisher-Yates gives for some draws.
pub open spec fn is_drawn_order(order: Seq<usize>, n: nat) -> bool {
    exists|d: Seq<u64>| d.len() == n && order == #[trigger] fisher_yates(n, d)
}

/// The Fisher-Yates order of `0..n` for the draws `draws` (`draws[0]` is not used).
pub fn shuffled_order(n: usize, draws: &[u64]) -> (r: Vec<usize>)
    requires
        draws@.len() == n,
    ensures
        r@ == fisher_yates(n as nat, draws@),
        is_permutation(r@, n as nat),
{
    let mut order: Vec<usize> = Vec::with_capacity(n);
    let mut k: usize = 0;
    while k < n
        invariant
            k <= n,
            order@.len() == k,
            forall|i: int| 0 <= i < k ==> order@[i] == i,
        decreases n - k,
    {
        order.push(k);
        k += 1;
    }
    proof {
        assert(order@ =~= Seq::new(n as nat, |k: int| k as usize));
        assert(is_permutation(order@, n as nat));
    }
    if n == 0 {
        proof {
            assert(order@ =~= fisher_yates(0, draws@));
        }
        return order;
    }
    let mut i: usize = n - 1;
    while i > 0
        invariant
            i < n,
            draws@.len() == n,
            is_permutation(order@, n as nat),
            fisher_yates_from(order@, draws@, i as nat) == fisher_yates(n as nat, draws@),
        decreases i,
    {
        let ghost before = order@;
        let j = (draws[i] % (i as u64 + 1)) as usize;
        let a = order[i];
        let b = order[j];
        order[i] = b;
        order[j] = a;
        proof {
            assert(j as int == draws@[i as int] as int % (i + 1));
            assert(order@ =~= swap_at(before, i as int, j as int));
            let o = order@;
            assert forall|x: int, y: int|
                0 <= x < n && 0 <= y < n && x != y implies o[x] != o[y] by {}
        }
        i -= 1;
    }
    order
}

/// Relies on `RandomState::new`: a hasher state with fresh random keys.
#[verifier::external_body]
fn fresh_hash_state() -> RandomState {
    RandomState::new()
}

/// Relies on `BuildHasher::hash_one` of `RandomState`: a hash of `i` under the state's keys.
#[verifier::external_body]
fn hash_index(state: &RandomState, i: usize) -> u64 {
    state.hash_one(i)
}

/// Playlist/queue manager.
pub struct Playlist {
    tracks: Vec<String>,
    current_index: Option<usize>,
    shuffle: bool,
    repeat: RepeatMode,
    shuffle_order: Vec<usize>,
    shuffle_position: usize,
    shuffle_fresh: bool,
}

impl View for Playlist {
    type V = PlaylistView;

    closed spec fn view(&self) -> PlaylistView {
        PlaylistView {
            tracks: self.tracks@,
            current: self.current_index,
            shuffle: self.shuffle,
            repeat: self.repeat,
            order: self.shuffle_order@,
            cursor: self.shuffle_position,
            fresh: self.shuffle_fresh,
        }
    }
}

impl Playlist {
    pub open spec fn wf(&self) -> bool {
        self@.wf()
    }

    /// Creates a new empty playlist.
    pub fn new() -> (r: Self)
        ensures
            r.wf(),
            r@.tracks.len() == 0,
            r@.current is None,
            !r@.shuffle,
            r@.repeat == RepeatMode::Off,
            r@.cursor == 0,
    {
        let r = Playlist {
            tracks: Vec::new(),
            current_index: None,
            shuffle: false,
            repeat: RepeatMode::Off,
            shuffle_order: Vec::new(),
            shuffle_position: 0,
            shuffle_fresh: true,
        };
        proof {
            assert(is_permutation(r.shuffle_order@, 0));
        }
        r
    }

    /// Rebuilds the shuffle order as a random permutation (Fisher-Yates) and rewinds it.
    fn regenerate_shuffle_order(&mut self)
        requires
            old(self)@.current matches Some(c) ==> c < old(self)@.tracks.len(),
        ensures
            final(self).wf(),
            final(self)@.tracks == old(self)@.tracks,
            final(self)@.current == old(self)@.current,
            final(self)@.shuffle == old(self)@.shuffle,
            final(self)@.repeat == old(self)@.repeat,
            final(self)@.cursor == 0,
            final(self)@.fresh,
            is_drawn_order(final(self)@.order, final(self)@.tracks.len()),
    {
        let n = self.tracks.len();
        let state = fresh_hash_state();
        let mut draws: Vec<u64> = Vec::with_capacity(n);
        let mut k: usize = 0;
        while k < n
            invariant
                k <= n,
                draws@.len() == k,
            decreases n - k,
        {
            draws.push(hash_index(&state, k));
            k += 1;
        }
        let order = shuffled_order(n, draws.as_slice());
        proof {
            assert(draws@.len() == n && order@ == fisher_yates(n as nat, draws@));
        }
        self.shuffle_order = order;
        self.shuffle_position = 0;
        self.shuffle_fresh = true;
    }

    /// Adds a track to the end of the playlist.
    pub fn add(&mut self, path: String)
        requires
            old(self).wf(),
        ensures
            final(self).wf(),
            final(self)@.tracks == old(self)@.tracks.push(path),
            final(self)@.current == old(self)@.current,
            final(self)@.current_track() == old(self)@.current_track(),
            final(self)@.shuffle == old(self)@.shuffle,
            final(self)@.repeat == old(self)@.repeat,
            is_permutation(final(self)@.order, final(self)@.tracks.len()),
            is_drawn_order(final(self)@.order, final(self)@.tracks.len()),
            final(self)@.cursor == 0 && final(self)@.fresh,
    {
        self.tracks.push(path);
        self.regenerate_shuffle_order();
    }

    /// Adds several tracks to the end of the playlist, in order.
    pub fn add_many(&mut self, paths: Vec<String>)
        requires
            old(self).wf(),
        ensures
            final(self).wf(),
            final(self)@.tracks == old(self)@.tracks + paths@,
            final(self)@.current == old(self)@.current,
            final(self)@.current_track() == old(self)@.current_track(),
            final(self)@.shuffle == old(self)@.shuffle,
            final(self)@.repeat == old(self)@.repeat,
            is_permutation(final(self)@.order, final(self)@.tracks.len()),
            is_drawn_order(final(self)@.order, final(self)@.tracks.len()),
            final(self)@.cursor == 0 && final(self)@.fresh,
    {
        let mut paths = paths;
        self.tracks.append(&mut paths);
        self.regenerate_shuffle_order();
    }

    /// Removes every track.
    pub fn clear(&mut self)
        ensures
            final(self).wf(),
            final(self)@.tracks.len() == 0,
            final(self)@.current is None,
            final(self)@.shuffle == old(self)@.shuffle,
            final(self)@.repeat == old(self)@.repeat,
            final(self)@.cursor == 0,
    {
        self.tracks.clear();
        self.current_index = None;
        self.shuffle_order.clear();
        self.shuffle_position = 0;
        self.shuffle_fresh = true;
        proof {
            assert(is_permutation(self.shuffle_order@, 0));
        }
    }

    /// Removes the track at `index`, returning it; `None` when there is no such track.
    pub fn remove(&mut self, index: usize) -> (r: Option<String>)
        requires
            old(self).wf(),
        ensures
            final(self).wf(),
            index >= old(self)@.tracks.len() ==> r is None && final(self)@ == old(self)@,
            index < old(self)@.tracks.len() ==> {
                &&& r == Some(old(self)@.tracks[index as int])
                &&& final(self)@.tracks == old(self)@.tracks.remove(index as int)
                &&& final(self)@.current == index_after_remove(old(self)@.current, index)
                &&& is_permutation(final(self)@.order, final(self)@.tracks.len())
                &&& is_drawn_order(final(self)@.order, final(self)@.tracks.len())
            },
            // the current entry keeps naming the same track unless it was the one removed
            old(self)@.current != Some(index) ==> final(self)@.current_track()
                == old(self)@.current_track(),
            old(self)@.current == Some(index) ==> final(self)@.current is None,
            final(self)@.shuffle == old(self)@.shuffle,
            final(self)@.repeat == old(self)@.repeat,
    {
        if index >= self.tracks.len() {
            return None;
        }
        let removed = self.tracks.remove(index);
        match self.current_index {
            Some(current) => {
                if index < current {
                    self.current_index = Some(current - 1);
                } else if index == current {
                    self.current_index = None;
                }
            },
            None => {},
        }
        self.regenerate_shuffle_order();
        Some(removed)
    }

    /// Gets the current track.
    pub fn current(&self) -> (r: Option<&String>)
        requires
            self.wf(),
        ensures
            refers_to(r, self@.current_track()),
    {
        match self.current_index {
            Some(i) => Some(&self.tracks[i]),
            None => None,
        }
    }

    /// Advances to the next track and returns it; `None` when there is nothing to advance to.
    pub fn next(&mut self) -> (r: Option<&String>)
        requires
            old(self).wf(),
        ensures
            final(self).wf(),
            final(self)@.tracks == old(self)@.tracks,
            final(self)@.shuffle == old(self)@.shuffle,
            final(self)@.repeat == old(self)@.repeat,
            r is Some ==> refers_to(r, final(self)@.current_track()),
            old(self)@.tracks.len() == 0 ==> r is None && final(self)@ == old(self)@,
            // repeat One: the same track again, nothing changes
            old(self)@.tracks.len() > 0 && old(self)@.repeat == RepeatMode::One ==> final(self)@
                == old(self)@ && refers_to(r, old(self)@.current_track()),
            old(self)@.tracks.len() > 0 && old(self)@.repeat != RepeatMode::One
                && !old(self)@.shuffle ==> match old(self)@.linear_next() {
                Some(k) => r is Some && final(self)@ == old(self)@.with_current(Some(k)),
                None => r is None && final(self)@ == old(self)@,
            },
            old(self)@.tracks.len() > 0 && old(self)@.repeat != RepeatMode::One
                && old(self)@.shuffle && old(self)@.fresh ==> {
                &&& r is Some
                &&& final(self)@ == (PlaylistView {
                    current: Some(old(self)@.order[old(self)@.cursor as int]),
                    fresh: false,
                    ..old(self)@
                })
            },
            old(self)@.tracks.len() > 0 && old(self)@.repeat != RepeatMode::One
                && old(self)@.shuffle && !old(self)@.fresh ==> if old(self)@.cursor + 1
                < old(self)@.tracks.len() {
                &&& r is Some
                &&& !final(self)@.fresh
                &&& final(self)@.order == old(self)@.order
                &&& final(self)@.cursor == old(self)@.cursor + 1
                &&& final(self)@.current == Some(old(self)@.order[old(self)@.cursor + 1])
            } else if old(self)@.repeat == RepeatMode::Off {
                r is None && final(self)@ == old(self)@
            } else {
                &&& r is Some
                &&& final(self)@.cursor == 0
                &&& !final(self)@.fresh
                &&& final(self)@.current == Some(final(self)@.order[0])
                &&& is_drawn_order(final(self)@.order, final(self)@.tracks.len())
            },
    {
        if self.tracks.len() == 0 {
            return None;
        }
        let next_index: usize;
        if self.repeat == RepeatMode::One {
            return self.current();
        } else if self.shuffle {
            if self.shuffle_fresh {
                self.shuffle_fresh = false;
            } else if self.shuffle_position + 1 < self.shuffle_order.len() {
                self.shuffle_position = self.shuffle_position + 1;
            } else if self.repeat == RepeatMode::Off {
                return None;
            } else {
                self.regenerate_shuffle_order();
                self.shuffle_fresh = false;
            }
            next_index = self.shuffle_order[self.shuffle_position];
        } else {
            match self.current_index {
                Some(current) => {
                    if current + 1 < self.tracks.len() {
                        next_index = current + 1;
                    } else if self.repeat == RepeatMode::Off {
                        return None;
                    } else {
                        next_index = 0;
                    }
                },
                None => {
                    next_index = 0;
                },
            }
        }
        self.current_index = Some(next_index);
        Some(&self.tracks[next_index])
    }

    /// Goes to the previous track and returns it.
    pub fn previous(&mut self) -> (r: Option<&String>)
        requires
            old(self).wf(),
        ensures
            final(self).wf(),
            final(self)@.tracks == old(self)@.tracks,
            final(self)@.shuffle == old(self)@.shuffle,
            final(self)@.repeat == old(self)@.repeat,
            old(self)@.tracks.len() == 0 ==> r is None && final(self)@ == old(self)@,
            old(self)@.tracks.len() > 0 ==> refers_to(r, final(self)@.current_track()),
            // repeat One: the same track again, nothing changes
            old(self)@.tracks.len() > 0 && old(self)@.repeat == RepeatMode::One ==> final(self)@
                == old(self)@,
            old(self)@.tracks.len() > 0 && old(self)@.repeat != RepeatMode::One
                && !old(self)@.shuffle ==> r is Some && final(self)@ == old(self)@.with_current(
                Some(old(self)@.linear_previous()),
            ),
            old(self)@.tracks.len() > 0 && old(self)@.repeat != RepeatMode::One
                && old(self)@.shuffle ==> {
                &&& r is Some
                &&& final(self)@.order == old(self)@.order
                &&& final(self)@.cursor == if old(self)@.cursor > 0 {
                    old(self)@.cursor - 1
                } else {
                    0
                }
                &&& final(self)@.current == Some(old(self)@.order[final(self)@.cursor as int])
                &&& !final(self)@.fresh
            },
    {
        if self.tracks.len() == 0 {
            return None;
        }
        let prev_index: usize;
        if self.repeat == RepeatMode::One {
            return self.current();
        } else if self.shuffle {
            if self.shuffle_position > 0 {
                self.shuffle_position = self.shuffle_position - 1;
            }
            self.shuffle_fresh = false;
            prev_index = self.shuffle_order[self.shuffle_position];
        } else {
            let current = match self.current_index {
                Some(c) => c,
                None => 0,
            };
            if current > 0 {
                prev_index = current - 1;
            } else if self.repeat == RepeatMode::All {
                prev_index = self.tracks.len() - 1;
            } else {
                prev_index = 0;
            }
        }
        self.current_index = Some(prev_index);
        Some(&self.tracks[prev_index])
    }

    /// Makes the track at `index` current and returns it; `None` when there is no such track.
    pub fn jump_to(&mut self, index: usize) -> (r: Option<&String>)
        requires
            old(self).wf(),
        ensures
            final(self).wf(),
            index < old(self)@.tracks.len() ==> final(self)@ == old(self)@.with_current(Some(index))
                && r == Some(&old(self)@.tracks[index as int]),
            index >= old(self)@.tracks.len() ==> final(self)@ == old(self)@ && r is None,
    {
        if index < self.tracks.len() {
            self.current_index = Some(index);
            Some(&self.tracks[index])
        } else {
            None
        }
    }

    /// Sets shuffle mode; switching it on draws a fresh shuffle order.
    pub fn set_shuffle(&mut self, shuffle: bool)
        requires
            old(self).wf(),
        ensures
            final(self).wf(),
            final(self)@.shuffle == shuffle,
            final(self)@.tracks == old(self)@.tracks,
            final(self)@.current == old(self)@.current,
            final(self)@.repeat == old(self)@.repeat,
            shuffle == old(self)@.shuffle || !shuffle ==> final(self)@.order == old(self)@.order
                && final(self)@.cursor == old(self)@.cursor,
            shuffle && !old(self)@.shuffle ==> final(self)@.cursor == 0,
            is_permutation(final(self)@.order, final(self)@.tracks.len()),
            shuffle && !old(self)@.shuffle ==> is_drawn_order(final(self)@.order, final(self)@.tracks.len())
                && final(self)@.fresh,
    {
        if shuffle != self.shuffle {
            self.shuffle = shuffle;
            if shuffle {
                self.regenerate_shuffle_order();
            }
        }
    }

    /// Gets shuffle mode.
    pub fn shuffle(&self) -> (r: bool)
        ensures
            r == self@.shuffle,
    {
        self.shuffle
    }

    /// Sets repeat mode.
    pub fn set_repeat(&mut self, repeat: RepeatMode)
        requires
            old(self).wf(),
        ensures
            final(self).wf(),
            final(self)@ == (PlaylistView { repeat, ..old(self)@ }),
    {
        self.repeat = repeat;
    }

    /// Gets repeat mode.
    pub fn repeat(&self) -> (r: RepeatMode)
        ensures
            r == self@.repeat,
    {
        self.repeat
    }

    /// Gets all tracks in the playlist.
    pub fn tracks(&self) -> (r: &[String])
        ensures
            r@ == self@.tracks,
    {
        self.tracks.as_slice()
    }

    /// Gets the number of tracks.
    pub fn len(&self) -> (r: usize)
        ensures
            r == self@.tracks.len(),
    {
        self.tracks.len()
    }

    /// Returns true if the playlist is empty.
    pub fn is_empty(&self) -> (r: bool)
        ensures
            r == (self@.tracks.len() == 0),
    {
        self.tracks.len() == 0
    }

    /// Gets the current track index.
    pub fn current_index(&self) -> (r: Option<usize>)
        ensures
            r == self@.current,
    {
        self.current_index
    }

    /// Moves the track at `from` to position `to`; false when either index is out of range.
    pub fn move_track(&mut self, from: usize, to: usize) -> (r: bool)
        requires
            old(self).wf(),
        ensures
            final(self).wf(),
            r == (from < old(self)@.tracks.len() && to < old(self)@.tracks.len()),
            !r || from == to ==> final(self)@ == old(self)@,
            r && from != to ==> {
                &&& final(self)@.tracks == old(self)@.tracks.remove(from as int).insert(
                    to as int,
                    old(self)@.tracks[from as int],
                )
                &&& final(self)@.current == index_after_move(old(self)@.current, from, to)
                &&& final(self)@.shuffle == old(self)@.shuffle
                &&& final(self)@.repeat == old(self)@.repeat
                &&& is_permutation(final(self)@.order, final(self)@.tracks.len())
                &&& is_drawn_order(final(self)@.order, final(self)@.tracks.len())
            },
            // the current entry keeps naming the same track
            final(self)@.current_track() == old(self)@.current_track(),
    {
        if from >= self.tracks.len() || to >= self.tracks.len() {
            return false;
        }
        if from == to {
            return true;
        }
        let track = self.tracks.remove(from);
        self.tracks.insert(to, track);
        match self.current_index {
            Some(current) => {
                if current == from {
                    self.current_index = Some(to);
                } else if from < current && current <= to {
                    self.current_index = Some(current - 1);
                } else if to <= current && current < from {
                    self.current_index = Some(current + 1);
                }
            },
            None => {},
        }
        self.regenerate_shuffle_order();
        true
    }

    /// Removes later duplicates (by path), keeping each first occurrence in order.
    /// Returns the number of tracks removed.
    pub fn dedup(&mut self) -> (removed: usize)
        requires
            old(self).wf(),
        ensures
            final(self).wf(),
            final(self)@.tracks == dedup_paths(old(self)@.tracks),
            removed == old(self)@.tracks.len() - final(self)@.tracks.len(),
            final(self)@.current == match old(self)@.current {
                Some(c) => if is_first_occurrence(old(self)@.tracks, c as int) {
                    Some(dedup_paths(old(self)@.tracks.take(c as int)).len() as usize)
                } else {
                    None
                },
                None => None,
            },
            // the current entry keeps naming the same track unless it was a removed duplicate
            final(self)@.current is Some ==> final(self)@.current_track()
                == old(self)@.current_track(),
            final(self)@.shuffle == old(self)@.shuffle,
            final(self)@.repeat == old(self)@.repeat,
            is_permutation(final(self)@.order, final(self)@.tracks.len()),
            is_drawn_order(final(self)@.order, final(self)@.tracks.len()),
            final(self)@.cursor == 0 && final(self)@.fresh,
    {
        let n = self.tracks.len();
        let ghost s = self.tracks@;
        let mut kept: Vec<String> = Vec::new();
        let mut new_current: Option<usize> = None;
        let mut i: usize = 0;
        while i < n
            invariant
                self@ == old(self)@,
                s == self.tracks@,
                n == s.len(),
                i <= n,
                kept@ == dedup_paths(s.take(i as int)),
                kept@.len() <= i,
                new_current == match self.current_index {
                    Some(c) => if c < i && is_first_occurrence(s, c as int) {
                        Some(dedup_paths(s.take(c as int)).len() as usize)
                    } else {
                        None
                    },
                    None => None,
                },
                new_current is Some ==> (new_current->0 < kept@.len()
                    && self.current_index is Some && kept@[new_current->0 as int]
                    == s[self.current_index->0 as int]),
            decreases n - i,
        {
            let track = &self.tracks[i];
            let mut found = false;
            let mut k: usize = 0;
            while k < kept.len()
                invariant
                    k <= kept@.len(),
                    found == exists|j: int| 0 <= j < k && (#[trigger] kept@[j])@ == track@,
                decreases kept@.len() - k,
            {
                if kept[k] == *track {
                    found = true;
                }
                k += 1;
            }
            proof {
                assert(s.take(i + 1).drop_last() =~= s.take(i as int));
                assert(s.take(i + 1).last() == s[i as int]);
                assert(found == contains_path(kept@, track@));
                lemma_dedup_same_paths(s.take(i as int), track@);
                assert(is_first_occurrence(s, i as int) == !found);
            }
            if !found {
                if self.current_index == Some(i) {
                    new_current = Some(kept.len());
                }
                kept.push(track.clone());
            }
            i += 1;
        }
        proof {
            assert(s.take(n as int) =~= s);
        }
        let removed = n - kept.len();
        self.tracks = kept;
        self.current_index = new_current;
        self.regenerate_shuffle_order();
        removed
    }
    /// The playlist's tracks as the text of a playlist file: the `#EXTM3U` marker line, then
    /// each path on a line of its own. Reading the text back with `from_m3u` gives the same
    /// paths in the same order when every path is one that `is_storable_path` accepts (see
    /// `lemma_m3u_round_trip`): reading trims each line and skips empty and `#` lines.
    pub fn to_m3u(&self) -> (r: String)
        ensures
            r@ == m3u_text(paths_of(self@.tracks)),
    {
        format_m3u(self.tracks.as_slice())
    }

    /// A playlist holding the tracks that the text of a playlist file lists, in order, with
    /// no current track: one track per line, the line (without a trailing `\r`) trimmed of
    /// white space; blank lines and lines whose trimmed text starts with `#` (the marker and
    /// comments) add none. A path with white space at either end therefore comes back
    /// trimmed.
    pub fn from_m3u(text: &str) -> (r: Playlist)
        ensures
            r.wf(),
            paths_of(r@.tracks) == m3u_entries(text@),
            r@.current is None,
            !r@.shuffle,
            r@.repeat == RepeatMode::Off,
    {
        let mut p = Playlist::new();
        let tracks = parse_m3u(text);
        p.add_many(tracks);
        proof {
            assert(p@.tracks =~= tracks@);
        }
        p
    }
}

} // verus!
