//! File browser state: the listing of one directory, a case-insensitive filter over it,
//! and the selection among the entries that pass the filter. Reading directories is the
//! caller's; this orders, filters and selects.

use vstd::prelude::*;
use vstd::string::*;
use crate::library::is_audio_extension;
use crate::text::{lower_of, lowercase, str_eq};

verus! {

/// A file or directory entry in the browser.
#[derive(Debug, Clone, PartialEq, Eq)]
pub struct BrowserEntry {
    pub path: String,
    pub name: String,
    pub is_dir: bool,
    pub is_audio: bool,
}

/// `a` comes before `b` or equals it, comparing characters in order (shorter first on a tie).
pub open spec fn chars_le(a: Seq<char>, b: Seq<char>) -> bool
    decreases a.len(),
{
    if a.len() == 0 {
        true
    } else if b.len() == 0 {
        false
    } else if a[0] != b[0] {
        (a[0] as u32) < (b[0] as u32)
    } else {
        chars_le(a.drop_first(), b.drop_first())
    }
}

/// Relies on `slice::sort_by` comparing the keys with `String::cmp` (byte order, which for
/// UTF-8 is character order): the same elements, ordered by key.
#[verifier::external_body]
fn sort_by_text_key(v: &mut Vec<(String, BrowserEntry)>)
    ensures
        final(v)@.to_multiset() == old(v)@.to_multiset(),
        final(v)@.len() == old(v)@.len(),
        forall|i: int|
            0 <= i < final(v)@.len() ==> exists|j: int|
                0 <= j < old(v)@.len() && #[trigger] final(v)@[i] == old(v)@[j],
        forall|i: int, j: int|
            0 <= i < j < final(v)@.len() ==> chars_le(final(v)@[i].0@, final(v)@[j].0@),
{
    v.sort_by(|a, b| a.0.cmp(&b.0))
}

/// `needle` occurs in `hay`.
pub open spec fn occurs_in(needle: Seq<char>, hay: Seq<char>) -> bool {
    exists|i: int|
        0 <= i && i + needle.len() <= hay.len() && #[trigger] hay.subrange(i, i + needle.len())
            == needle
}

/// Relies on `str::contains` with a `&str` pattern: whether `needle` occurs in `hay`.
#[verifier::external_body]
fn contains_text(hay: &str, needle: &str) -> (r: bool)
    ensures
        r == occurs_in(needle@, hay@),
{
    hay.contains(needle)
}

/// The entry passes the filter: it is the parent entry, the filter is empty, or the
/// lower-cased name holds the lower-cased filter.
pub open spec fn passes(e: BrowserEntry, filter: Seq<char>) -> bool {
    e.name@ == ".."@ || filter.len() == 0 || occurs_in(lower_of(filter), lower_of(e.name@))
}

/// Indices of the entries of `entries` that pass `filter`, in order.
pub open spec fn visible_indices(entries: Seq<BrowserEntry>, filter: Seq<char>) -> Seq<usize>
    decreases entries.len(),
{
    if entries.len() == 0 {
        Seq::empty()
    } else {
        let rest = visible_indices(entries.drop_last(), filter);
        if passes(entries.last(), filter) {
            rest.push((entries.len() - 1) as usize)
        } else {
            rest
        }
    }
}

/// Abstract state of a file browser.
pub ghost struct BrowserView {
    pub current_dir: Seq<char>,
    pub entries: Seq<BrowserEntry>,
    pub visible: Seq<usize>,
    pub selected: nat,
    pub filter: Seq<char>,
}

impl BrowserView {
    pub open spec fn wf(self) -> bool {
        &&& self.visible == visible_indices(self.entries, self.filter)
        &&& (self.selected < self.visible.len() || (self.visible.len() == 0 && self.selected == 0))
    }

    /// Selection after the visible list changed: kept if still in range, else the last one.
    pub open spec fn clamp(self, selected: nat) -> nat {
        if selected < self.visible.len() {
            selected
        } else if self.visible.len() > 0 {
            (self.visible.len() - 1) as nat
        } else {
            0
        }
    }
}

/// File browser state.
pub struct FileBrowser {
    current_dir: String,
    entries: Vec<BrowserEntry>,
    filtered_indices: Vec<usize>,
    selected: usize,
    filter: String,
}

impl View for FileBrowser {
    type V = BrowserView;

    closed spec fn view(&self) -> BrowserView {
        BrowserView {
            current_dir: self.current_dir@,
            entries: self.entries@,
            visible: self.filtered_indices@,
            selected: self.selected as nat,
            filter: self.filter@,
        }
    }
}

proof fn lemma_visible_bounded(entries: Seq<BrowserEntry>, filter: Seq<char>)
    ensures
        visible_indices(entries, filter).len() <= entries.len(),
        forall|k: int|
            0 <= k < visible_indices(entries, filter).len() ==> #[trigger] visible_indices(
                entries,
                filter,
            )[k] < entries.len(),
    decreases entries.len(),
{
    if entries.len() > 0 {
        lemma_visible_bounded(entries.drop_last(), filter);
    }
}

/// A hidden name: one that starts with `.`.
pub open spec fn is_hidden(name: Seq<char>) -> bool {
    name.len() > 0 && name[0] == '.'
}

/// The entry that stands for the parent directory `p`.
pub open spec fn parent_entry(p: String, e: BrowserEntry) -> bool {
    e.path == p && e.name@ == ".."@ && e.is_dir && !e.is_audio
}

/// Each entry of `group` is visible, is a directory exactly when `dirs`, and the group is
/// ordered by lower-cased name.
pub open spec fn ordered_group(group: Seq<BrowserEntry>, dirs: bool) -> bool {
    &&& forall|k: int| 0 <= k < group.len() ==> !is_hidden((#[trigger] group[k]).name@)
        && group[k].is_dir == dirs
    &&& forall|i: int, j: int|
        0 <= i < j < group.len() ==> chars_le(lower_of(group[i].name@), lower_of(group[j].name@))
}

/// Keys and entries that go with them.
spec fn keyed(v: Seq<(String, BrowserEntry)>, dirs: bool) -> bool {
    forall|k: int|
        0 <= k < v.len() ==> (#[trigger] v[k]).0@ == lower_of(v[k].1.name@) && !is_hidden(
            v[k].1.name@,
        ) && v[k].1.is_dir == dirs
}

/// `r` is the parent entry (if any), then directories up to `d`, then files.
pub open spec fn listing_split(parent: Option<String>, r: Seq<BrowserEntry>, d: int) -> bool {
    let off: int = if parent is Some {
        1
    } else {
        0
    };
    &&& off <= d <= r.len()
    &&& (parent matches Some(p) ==> parent_entry(p, r[0]))
    &&& ordered_group(r.subrange(off, d), true)
    &&& ordered_group(r.subrange(d, r.len() as int), false)
}

/// Moves the entries of `v`, in order, to the end of `out`.
fn append_entries(out: &mut Vec<BrowserEntry>, v: Vec<(String, BrowserEntry)>)
    ensures
        final(out)@.len() == old(out)@.len() + v@.len(),
        forall|k: int| 0 <= k < old(out)@.len() ==> final(out)@[k] == old(out)@[k],
        forall|k: int|
            0 <= k < v@.len() ==> final(out)@[old(out)@.len() + k] == (#[trigger] v@[k]).1,
{
    let mut v = v;
    let total = v.len();
    let ghost all = v@;
    let ghost start = out@;
    let mut moved: usize = 0;
    while v.len() > 0
        invariant
            all.len() == total,
            moved + v@.len() == all.len(),
            v@ == all.skip(moved as int),
            out@.len() == start.len() + moved,
            forall|k: int| 0 <= k < start.len() ==> out@[k] == start[k],
            forall|k: int| 0 <= k < moved ==> out@[start.len() + k] == (#[trigger] all[k]).1,
        decreases v@.len(),
    {
        let ghost first = v@[0];
        let (_key, e) = v.remove(0);
        proof {
            assert(first == all[moved as int]);
        }
        out.push(e);
        proof {
            assert(v@ =~= all.skip(moved + 1));
        }
        moved += 1;
    }
}

/// The entries of a directory listing in browser order: the parent entry (if any) first,
/// then directories, then files, each group ordered by lower-cased name; hidden names
/// (starting with `.`) are left out.
pub fn order_listing(parent: Option<String>, raw: Vec<BrowserEntry>) -> (r: Vec<BrowserEntry>)
    ensures
        exists|d: int| #[trigger] listing_split(parent, r@, d),
{
    let mut dirs: Vec<(String, BrowserEntry)> = Vec::new();
    let mut files: Vec<(String, BrowserEntry)> = Vec::new();
    let mut raw = raw;
    while raw.len() > 0
        invariant
            keyed(dirs@, true),
            keyed(files@, false),
        decreases raw@.len(),
    {
        let e = raw.pop().unwrap();
        let hidden = e.name.as_str().unicode_len() > 0 && e.name.as_str().get_char(0) == '.';
        if !hidden {
            let key = lowercase(e.name.as_str());
            if e.is_dir {
                dirs.push((key, e));
            } else {
                let audio = is_audio_extension(extension_of(e.name.as_str()));
                files.push((key, BrowserEntry { is_audio: audio, ..e }));
            }
        }
    }
    let ghost unsorted_dirs = dirs@;
    let ghost unsorted_files = files@;
    sort_by_text_key(&mut dirs);
    sort_by_text_key(&mut files);
    proof {
        assert forall|k: int| 0 <= k < dirs@.len() implies (#[trigger] dirs@[k]).0@ == lower_of(
            dirs@[k].1.name@,
        ) && !is_hidden(dirs@[k].1.name@) && dirs@[k].1.is_dir by {
            let j = choose|j: int| 0 <= j < unsorted_dirs.len() && dirs@[k] == unsorted_dirs[j];
        }
        assert forall|k: int| 0 <= k < files@.len() implies (#[trigger] files@[k]).0@ == lower_of(
            files@[k].1.name@,
        ) && !is_hidden(files@[k].1.name@) && !files@[k].1.is_dir by {
            let j = choose|j: int| 0 <= j < unsorted_files.len() && files@[k] == unsorted_files[j];
        }
    }
    let ghost sorted_dirs = dirs@;
    let ghost sorted_files = files@;
    let mut out: Vec<BrowserEntry> = Vec::new();
    match parent {
        Some(p) => {
            out.push(
                BrowserEntry { path: p, name: String::from_str(".."), is_dir: true, is_audio: false },
            );
        },
        None => {},
    }
    let ghost off = out@.len() as int;
    let ghost head = out@;
    append_entries(&mut out, dirs);
    let ghost d = out@.len() as int;
    append_entries(&mut out, files);
    proof {
        assert(off == if parent is Some { 1int } else { 0int });
        assert(out@.subrange(off, d) =~= sorted_dirs.map_values(|x: (String, BrowserEntry)| x.1));
        assert(out@.subrange(d, out@.len() as int) =~= sorted_files.map_values(
            |x: (String, BrowserEntry)| x.1,
        ));
        if parent is Some {
            assert(out@[0] == head[0]);
        }
        assert(listing_split(parent, out@, d));
    }
    out
}

/// `k` is the position of the last `.` of `s` after its first character.
pub open spec fn is_last_dot(s: Seq<char>, k: int) -> bool {
    1 <= k < s.len() && s[k] == '.' && forall|j: int| k < j < s.len() ==> s[j] != '.'
}

/// The extension of a file name: the text after its last `.`, unless that dot opens the
/// name; empty when there is none.
pub fn extension_of(name: &str) -> (r: &str)
    ensures
        (exists|k: int| is_last_dot(name@, k) && r@ == name@.skip(k + 1)) || ((forall|k: int|
            1 <= k < name@.len() ==> name@[k] != '.') && r@.len() == 0),
{
    let n = name.unicode_len();
    let mut i: usize = n;
    while i > 1
        invariant
            i <= n == name@.len(),
            forall|j: int| i <= j < n ==> name@[j] != '.',
        decreases i,
    {
        if name.get_char(i - 1) == '.' {
            let r = name.substring_char(i, n);
            proof {
                assert(is_last_dot(name@, i - 1));
                assert(r@ =~= name@.skip(i as int));
            }
            return r;
        }
        i -= 1;
    }
    name.substring_char(n, n)
}

impl FileBrowser {
    pub open spec fn wf(&self) -> bool {
        self@.wf()
    }

    /// Rebuilds the visible list from the filter and keeps the selection in range.
    fn apply_filter(&mut self)
        ensures
            final(self)@.entries == old(self)@.entries,
            final(self)@.filter == old(self)@.filter,
            final(self)@.current_dir == old(self)@.current_dir,
            final(self)@.visible == visible_indices(old(self)@.entries, old(self)@.filter),
            final(self)@.selected == final(self)@.clamp(old(self)@.selected),
            final(self).wf(),
    {
        let lowered_filter = lowercase(self.filter.as_str());
        let filter_empty = self.filter.as_str().unicode_len() == 0;
        let mut visible: Vec<usize> = Vec::new();
        let mut i: usize = 0;
        proof {
            assert(self.entries@.take(0) =~= Seq::<BrowserEntry>::empty());
        }
        while i < self.entries.len()
            invariant
                i <= self.entries@.len(),
                lowered_filter@ == lower_of(self.filter@),
                filter_empty == (self.filter@.len() == 0),
                visible@ == visible_indices(self.entries@.take(i as int), self.filter@),
            decreases self.entries@.len() - i,
        {
            let e = &self.entries[i];
            let keep = if str_eq(e.name.as_str(), "..") || filter_empty {
                true
            } else {
                let lowered = lowercase(e.name.as_str());
                contains_text(lowered.as_str(), lowered_filter.as_str())
            };
            if keep {
                visible.push(i);
            }
            proof {
                assert(self.entries@.take(i + 1).drop_last() =~= self.entries@.take(i as int));
            }
            i += 1;
        }
        proof {
            assert(self.entries@.take(i as int) =~= self.entries@);
        }
        self.filtered_indices = visible;
        if self.selected >= self.filtered_indices.len() {
            self.selected = if self.filtered_indices.len() > 0 {
                self.filtered_indices.len() - 1
            } else {
                0
            };
        }
    }

    /// A browser at `path` showing the entries of `listing` (in browser order), unfiltered,
    /// with the first entry selected.
    pub fn new(path: String, listing: Vec<BrowserEntry>) -> (r: Self)
        ensures
            r.wf(),
            r@.current_dir == path@,
            r@.entries == listing@,
            r@.filter.len() == 0,
            r@.selected == 0,
    {
        let mut b = FileBrowser {
            current_dir: path,
            entries: listing,
            filtered_indices: Vec::new(),
            selected: 0,
            filter: String::new(),
        };
        b.apply_filter();
        b
    }

    /// Moves to the directory `path` whose entries are `listing`: the filter is cleared and
    /// the first entry selected.
    pub fn navigate_to(&mut self, path: String, listing: Vec<BrowserEntry>)
        ensures
            final(self).wf(),
            final(self)@.current_dir == path@,
            final(self)@.entries == listing@,
            final(self)@.filter.len() == 0,
            final(self)@.selected == 0,
    {
        self.current_dir = path;
        self.entries = listing;
        self.filter = String::new();
        self.selected = 0;
        self.apply_filter();
    }

    /// The selected entry when it is a file; `None` for a directory or no selection (a
    /// directory is entered with `navigate_to`).
    pub fn enter_selected(&self) -> (r: Option<String>)
        requires
            self.wf(),
        ensures
            match self.spec_selected_entry() {
                Some(e) => if e.is_dir {
                    r is None
                } else {
                    r matches Some(p) && p@ == e.path@
                },
                None => r is None,
            },
    {
        match self.selected_entry() {
            Some(e) => {
                if e.is_dir {
                    None
                } else {
                    Some(e.path.clone())
                }
            },
            None => None,
        }
    }

    /// The selected directory, when the selection is one (what entering it navigates to).
    pub fn selected_dir(&self) -> (r: Option<String>)
        requires
            self.wf(),
        ensures
            match self.spec_selected_entry() {
                Some(e) => if e.is_dir {
                    r matches Some(p) && p@ == e.path@
                } else {
                    r is None
                },
                None => r is None,
            },
    {
        match self.selected_entry() {
            Some(e) => {
                if e.is_dir {
                    Some(e.path.clone())
                } else {
                    None
                }
            },
            None => None,
        }
    }

    /// Sets the filter text and updates the visible entries.
    pub fn set_filter(&mut self, filter: String)
        requires
            old(self).wf(),
        ensures
            final(self).wf(),
            final(self)@.filter == filter@,
            final(self)@.entries == old(self)@.entries,
            final(self)@.selected == final(self)@.clamp(old(self)@.selected),
    {
        self.filter = filter;
        self.apply_filter();
    }

    /// Clears the filter.
    pub fn clear_filter(&mut self)
        requires
            old(self).wf(),
        ensures
            final(self).wf(),
            final(self)@.filter.len() == 0,
            final(self)@.entries == old(self)@.entries,
            final(self)@.selected == final(self)@.clamp(old(self)@.selected),
    {
        self.filter = String::new();
        self.apply_filter();
    }

    /// Gets the current filter.
    pub fn filter(&self) -> (r: &str)
        ensures
            r@ == self@.filter,
    {
        self.filter.as_str()
    }

    /// Moves the selection down, wrapping to the top.
    pub fn select_next(&mut self)
        requires
            old(self).wf(),
        ensures
            final(self).wf(),
            final(self)@ == (BrowserView {
                selected: if old(self)@.visible.len() == 0 {
                    old(self)@.selected
                } else {
                    ((old(self)@.selected + 1) % old(self)@.visible.len()) as nat
                },
                ..old(self)@
            }),
    {
        if self.filtered_indices.len() > 0 {
            self.selected = (self.selected + 1) % self.filtered_indices.len();
        }
    }

    /// Moves the selection up, wrapping to the bottom.
    pub fn select_previous(&mut self)
        requires
            old(self).wf(),
        ensures
            final(self).wf(),
            final(self)@ == (BrowserView {
                selected: if old(self)@.visible.len() == 0 {
                    old(self)@.selected
                } else if old(self)@.selected == 0 {
                    (old(self)@.visible.len() - 1) as nat
                } else {
                    (old(self)@.selected - 1) as nat
                },
                ..old(self)@
            }),
    {
        if self.filtered_indices.len() > 0 {
            self.selected = if self.selected == 0 {
                self.filtered_indices.len() - 1
            } else {
                self.selected - 1
            };
        }
    }

    /// Selects the first entry.
    pub fn select_first(&mut self)
        requires
            old(self).wf(),
        ensures
            final(self).wf(),
            final(self)@ == (BrowserView { selected: 0, ..old(self)@ }),
    {
        self.selected = 0;
    }

    /// Selects the last entry.
    pub fn select_last(&mut self)
        requires
            old(self).wf(),
        ensures
            final(self).wf(),
            final(self)@ == (BrowserView {
                selected: if old(self)@.visible.len() == 0 {
                    old(self)@.selected
                } else {
                    (old(self)@.visible.len() - 1) as nat
                },
                ..old(self)@
            }),
    {
        if self.filtered_indices.len() > 0 {
            self.selected = self.filtered_indices.len() - 1;
        }
    }

    pub open spec fn spec_selected_entry(&self) -> Option<BrowserEntry> {
        if self@.selected < self@.visible.len() {
            Some(self@.entries[self@.visible[self@.selected as int] as int])
        } else {
            None
        }
    }

    /// Gets the currently selected entry.
    pub fn selected_entry(&self) -> (r: Option<&BrowserEntry>)
        requires
            self.wf(),
        ensures
            match self.spec_selected_entry() {
                Some(e) => r == Some(&e),
                None => r is None,
            },
    {
        proof {
            lemma_visible_bounded(self.entries@, self.filter@);
        }
        if self.selected < self.filtered_indices.len() {
            let idx = self.filtered_indices[self.selected];
            Some(&self.entries[idx])
        } else {
            None
        }
    }

    /// Gets the visible entries, in order.
    pub fn visible_entries(&self) -> (r: Vec<&BrowserEntry>)
        requires
            self.wf(),
        ensures
            r@.len() == self@.visible.len(),
            forall|k: int|
                0 <= k < r@.len() ==> *r@[k] == self@.entries[#[trigger] self@.visible[k] as int],
    {
        proof {
            lemma_visible_bounded(self.entries@, self.filter@);
        }
        let mut out: Vec<&BrowserEntry> = Vec::new();
        let mut k: usize = 0;
        while k < self.filtered_indices.len()
            invariant
                self.wf(),
                k <= self@.visible.len(),
                out@.len() == k,
                forall|j: int| 0 <= j < self@.visible.len() ==> #[trigger] self@.visible[j] < self@.entries.len(),
                forall|j: int|
                    0 <= j < k ==> *out@[j] == self@.entries[#[trigger] self@.visible[j] as int],
            decreases self@.visible.len() - k,
        {
            out.push(&self.entries[self.filtered_indices[k]]);
            k += 1;
        }
        out
    }

    /// Gets the selected position among the visible entries.
    pub fn selected_index(&self) -> (r: usize)
        ensures
            r == self@.selected,
    {
        self.selected
    }

    /// Gets the current directory path.
    pub fn current_dir(&self) -> (r: &str)
        ensures
            r@ == self@.current_dir,
    {
        self.current_dir.as_str()
    }

    /// The parent entry's path: the directory that `go_up` moves to, if any.
    pub open spec fn spec_parent_dir(&self) -> Option<Seq<char>> {
        if self@.entries.len() > 0 && self@.entries[0].name@ == ".."@ {
            Some(self@.entries[0].path@)
        } else {
            None
        }
    }

    /// Gets the parent directory's path, when the listing has a parent entry.
    pub fn parent_dir(&self) -> (r: Option<String>)
        ensures
            match self.spec_parent_dir() {
                Some(p) => (r matches Some(x) && x@ == p),
                None => r is None,
            },
    {
        if self.entries.len() > 0 && str_eq(self.entries[0].name.as_str(), "..") {
            Some(self.entries[0].path.clone())
        } else {
            None
        }
    }

    /// Goes up to the parent directory, whose entries (read by the caller from `parent_dir`)
    /// are `listing`; returns false and changes nothing when there is no parent.
    pub fn go_up(&mut self, listing: Vec<BrowserEntry>) -> (r: bool)
        ensures
            r == old(self).spec_parent_dir() is Some,
            r ==> final(self).wf() && Some(final(self)@.current_dir) == old(self).spec_parent_dir()
                && final(self)@.entries == listing@ && final(self)@.filter.len() == 0
                && final(self)@.selected == 0,
            !r ==> final(self)@ == old(self)@,
    {
        match self.parent_dir() {
            Some(p) => {
                self.navigate_to(p, listing);
                true
            },
            None => false,
        }
    }

    /// Gets the number of visible entries.
    pub fn len(&self) -> (r: usize)
        ensures
            r == self@.visible.len(),
    {
        self.filtered_indices.len()
    }

    /// Returns true if no entry is visible.
    pub fn is_empty(&self) -> (r: bool)
        ensures
            r == (self@.visible.len() == 0),
    {
        self.filtered_indices.len() == 0
    }
}

} // verus!
