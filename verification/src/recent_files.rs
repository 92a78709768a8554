//! The list of recently opened files, most recent first.
use vstd::prelude::*;

verus! {

/// The most files the list keeps.
pub const MAX_RECENT_FILES: usize = 5;

/// Recently opened files (their paths as text), most recent first.
#[derive(Debug, Clone)]
pub struct RecentFiles {
    files: Vec<String>,
}

/// Whether `a` and `b` name the same path as `std::path::Path`'s `==` sees it: the same
/// components, so that `/a/b/` and `/a//b` name the same path.
pub uninterp spec fn same_path(a: Seq<char>, b: Seq<char>) -> bool;

/// `Path::new(a) == Path::new(b)`: whether the two texts name the same path.
#[verifier::external_body]
fn paths_equal(a: &str, b: &str) -> (r: bool)
    ensures
        r == same_path(a@, b@),
{
    std::path::Path::new(a) == std::path::Path::new(b)
}

/// `p` names the path `x`: the same text, or the same path.
pub open spec fn names_same(p: Seq<char>, x: Seq<char>) -> bool {
    p == x || same_path(p, x)
}

/// `s` without the entries that name the path `x`, in order.
pub open spec fn without(s: Seq<Seq<char>>, x: Seq<char>) -> Seq<Seq<char>>
    decreases s.len(),
{
    if s.len() == 0 {
        Seq::empty()
    } else if names_same(s.last(), x) {
        without(s.drop_last(), x)
    } else {
        without(s.drop_last(), x).push(s.last())
    }
}

/// The list after opening `path`: `path` first, then the files that name other paths, as
/// they were, at most `MAX_RECENT_FILES` in all.
pub open spec fn after_open(files: Seq<Seq<char>>, path: Seq<char>) -> Seq<Seq<char>> {
    let s = seq![path] + without(files, path);
    if s.len() > MAX_RECENT_FILES { s.take(MAX_RECENT_FILES as int) } else { s }
}

/// A well kept list: at most `MAX_RECENT_FILES` paths, none twice.
pub open spec fn recent_wf(files: Seq<Seq<char>>) -> bool {
    files.len() <= MAX_RECENT_FILES && files.no_duplicates()
}

/// The list `files` after opening each of `paths` in turn.
pub open spec fn opened_in_turn(files: Seq<Seq<char>>, paths: Seq<Seq<char>>) -> Seq<Seq<char>>
    decreases paths.len(),
{
    if paths.len() == 0 {
        files
    } else {
        after_open(opened_in_turn(files, paths.drop_last()), paths.last())
    }
}

impl RecentFiles {
    /// The paths, most recent first.
    pub closed spec fn paths(&self) -> Seq<Seq<char>> {
        self.files@.map_values(|p: String| p@)
    }

    /// An empty list.
    pub fn new() -> (r: Self)
        ensures
            r.paths().len() == 0,
            recent_wf(r.paths()),
    {
        RecentFiles { files: Vec::new() }
    }

    /// A list holding `files` as they are (as when read back from where it was saved).
    pub fn from_files(files: Vec<String>) -> (r: Self)
        ensures
            r.paths() == files@.map_values(|p: String| p@),
    {
        RecentFiles { files }
    }

    /// Records that `path` was opened.
    pub fn add_recent(&mut self, path: String)
        ensures
            final(self).paths() == after_open(old(self).paths(), path@),
            recent_wf(old(self).paths()) ==> recent_wf(final(self).paths()),
    {
        let ghost old_paths = self.paths();
        let mut kept: Vec<String> = Vec::new();
        kept.push(path.clone());
        let mut i: usize = 0;
        while i < self.files.len()
            invariant
                i <= self.files@.len(),
                old_paths == self.files@.map_values(|p: String| p@),
                kept@.len() == (seq![path@] + without(old_paths.take(i as int), path@)).len(),
                forall|k: int| 0 <= k < kept@.len() ==> #[trigger] kept@[k]@ == (seq![path@]
                    + without(old_paths.take(i as int), path@))[k],
            decreases self.files@.len() - i,
        {
            assert(old_paths.take(i + 1).drop_last() =~= old_paths.take(i as int));
            assert(old_paths.take(i + 1).last() == self.files@[i as int]@);
            let same = self.files[i] == path || paths_equal(self.files[i].as_str(), path.as_str());
            if !same {
                kept.push(self.files[i].clone());
            }
            i = i + 1;
        }
        assert(old_paths.take(self.files@.len() as int) =~= old_paths);
        if kept.len() > MAX_RECENT_FILES {
            kept.truncate(MAX_RECENT_FILES);
        }
        self.files = kept;
        assert(self.paths() =~= after_open(old_paths, path@));
        proof {
            lemma_add_recent(old_paths, path@);
        }
    }

    /// The paths, most recent first.
    pub fn get_recent(&self) -> (r: &[String])
        ensures
            r@.map_values(|p: String| p@) == self.paths(),
    {
        self.files.as_slice()
    }
}

impl Default for RecentFiles {
    fn default() -> (r: Self)
        ensures
            r.paths().len() == 0,
    {
        RecentFiles::new()
    }
}

/// What is left of `s` without `x` holds exactly the items of `s` that do not name `x`.
pub proof fn lemma_without_contains(s: Seq<Seq<char>>, x: Seq<char>, y: Seq<char>)
    ensures
        without(s, x).contains(y) <==> (s.contains(y) && !names_same(y, x)),
    decreases s.len(),
{
    if s.len() > 0 {
        lemma_without_contains(s.drop_last(), x, y);
        if s.contains(y) && y != s.last() {
            let k = choose|k: int| 0 <= k < s.len() && s[k] == y;
            assert(s.drop_last()[k] == y);
        }
        if s.drop_last().contains(y) {
            let k = choose|k: int| 0 <= k < s.drop_last().len() && s.drop_last()[k] == y;
            assert(s[k] == y);
        }
        if !names_same(s.last(), x) {
            let w = without(s.drop_last(), x);
            if w.contains(y) {
                let k = choose|k: int| 0 <= k < w.len() && w[k] == y;
                assert(w.push(s.last())[k] == y);
            }
            if w.push(s.last()).contains(y) && y != s.last() {
                let k = choose|k: int| 0 <= k < w.push(s.last()).len() && w.push(s.last())[k] == y;
                assert(w[k] == y);
            }
            assert(w.push(s.last())[w.len() as int] == s.last());
        }
    }
}

/// `without` keeps a list free of repeats.
pub proof fn lemma_without_no_duplicates(s: Seq<Seq<char>>, x: Seq<char>)
    requires
        s.no_duplicates(),
    ensures
        without(s, x).no_duplicates(),
        without(s, x).len() <= s.len(),
    decreases s.len(),
{
    if s.len() > 0 {
        let p = s.drop_last();
        assert(p.no_duplicates());
        lemma_without_no_duplicates(p, x);
        if !names_same(s.last(), x) {
            lemma_without_contains(p, x, s.last());
            assert(!p.contains(s.last())) by {
                if p.contains(s.last()) {
                    let k = choose|k: int| 0 <= k < p.len() && p[k] == s.last();
                    assert(s[k] == s[s.len() - 1]);
                }
            }
            let w = without(p, x);
            assert forall|i: int, j: int| 0 <= i < w.push(s.last()).len() && 0 <= j < w.push(s.last()).len() && i != j
                implies w.push(s.last())[i] != w.push(s.last())[j] by {
                if i == w.len() {
                    assert(w.contains(w[j]));
                } else if j == w.len() {
                    assert(w.contains(w[i]));
                }
            }
        }
    }
}

/// `x` never occurs in `without(s, x)`.
pub proof fn lemma_without_removes(s: Seq<Seq<char>>, x: Seq<char>)
    ensures
        !without(s, x).contains(x),
{
    lemma_without_contains(s, x, x);
}

/// After opening a file it is the most recent, no other entry names the same path, at most
/// `MAX_RECENT_FILES` files are kept, and a list without repeats stays without repeats.
pub proof fn lemma_add_recent(files: Seq<Seq<char>>, path: Seq<char>)
    ensures
        after_open(files, path).len() >= 1,
        after_open(files, path)[0] == path,
        after_open(files, path).len() <= MAX_RECENT_FILES,
        forall|k: int| 1 <= k < after_open(files, path).len() ==> !names_same(#[trigger] after_open(files, path)[k], path),
        files.no_duplicates() ==> after_open(files, path).no_duplicates(),
{
    let w = without(files, path);
    let s = seq![path] + w;
    lemma_without_removes(files, path);
    assert forall|k: int| 1 <= k < s.len() implies !names_same(#[trigger] s[k], path) by {
        assert(s[k] == w[k - 1]);
        assert(w.contains(w[k - 1]));
        lemma_without_contains(files, path, w[k - 1]);
    }
    if files.no_duplicates() {
        lemma_without_no_duplicates(files, path);
        assert forall|i: int, j: int| 0 <= i < s.len() && 0 <= j < s.len() && i != j implies s[i] != s[j] by {
            if i == 0 {
                assert(s[j] == w[j - 1]);
                assert(w.contains(w[j - 1]));
            } else if j == 0 {
                assert(s[i] == w[i - 1]);
                assert(w.contains(w[i - 1]));
            } else {
                assert(s[i] == w[i - 1]);
                assert(s[j] == w[j - 1]);
            }
        }
    }
}

/// Opening the most recent file again changes nothing.
pub proof fn lemma_add_recent_idempotent(files: Seq<Seq<char>>, path: Seq<char>)
    ensures
        after_open(after_open(files, path), path) == after_open(files, path),
{
    let a = after_open(files, path);
    lemma_add_recent(files, path);
    lemma_without_drops_head(a, path);
    assert(seq![path] + without(a, path) =~= a);
}

/// A list that starts with `x` and holds nothing else that names `x`, without `x`, is its
/// tail.
proof fn lemma_without_drops_head(a: Seq<Seq<char>>, x: Seq<char>)
    requires
        a.len() >= 1,
        a[0] == x,
        forall|k: int| 1 <= k < a.len() ==> !names_same(#[trigger] a[k], x),
    ensures
        without(a, x) == a.drop_first(),
    decreases a.len(),
{
    if a.len() == 1 {
        assert(a.drop_last() =~= Seq::<Seq<char>>::empty());
        assert(without(a.drop_last(), x) =~= Seq::<Seq<char>>::empty());
        assert(a.drop_first() =~= Seq::<Seq<char>>::empty());
    } else {
        let p = a.drop_last();
        assert forall|k: int| 1 <= k < p.len() implies !names_same(#[trigger] p[k], x) by {
            assert(p[k] == a[k]);
        }
        lemma_without_drops_head(p, x);
        assert(!names_same(a.last(), x));
        assert(without(a, x) == without(p, x).push(a.last()));
        assert(p.drop_first().push(a.last()) =~= a.drop_first());
    }
}

/// However many files are opened, one after another, starting from a well kept list (such as
/// the empty one): the list stays at most `MAX_RECENT_FILES` long with no path twice, and the
/// last file opened comes first.
pub proof fn lemma_recent_files_stay_bounded(files: Seq<Seq<char>>, paths: Seq<Seq<char>>)
    requires
        recent_wf(files),
    ensures
        recent_wf(opened_in_turn(files, paths)),
        paths.len() > 0 ==> opened_in_turn(files, paths)[0] == paths.last(),
    decreases paths.len(),
{
    if paths.len() > 0 {
        lemma_recent_files_stay_bounded(files, paths.drop_last());
        lemma_add_recent(opened_in_turn(files, paths.drop_last()), paths.last());
    }
}

} // verus!
