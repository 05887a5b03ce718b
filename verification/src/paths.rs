//! Tracked paths and the rules that decide which paths are eligible for
//! change tracking.

use vstd::prelude::*;

verus! {

/// A filesystem path under the watched root, held in its normalized form:
/// the path's segments relative to that root, in order, the last segment
/// being the entry's own name. Two tracked paths denote the same file
/// exactly when their segment sequences are equal.
pub struct TrackedPath {
    pub segments: Vec<String>,
}

impl View for TrackedPath {
    type V = Seq<Seq<char>>;

    open spec fn view(&self) -> Seq<Seq<char>> {
        self.segments@.map_values(|s: String| s@)
    }
}

impl Clone for TrackedPath {
    fn clone(&self) -> (r: Self)
        ensures
            r@ == self@,
    {
        let mut segments: Vec<String> = Vec::new();
        let n = self.segments.len();
        let mut i: usize = 0;
        while i < n
            invariant
                n == self.segments.len(),
                i <= n,
                segments@ =~= self.segments@.take(i as int),
            decreases n - i,
        {
            segments.push(self.segments[i].clone());
            proof {
                assert(segments@ =~= self.segments@.take(i + 1));
            }
            i += 1;
        }
        proof {
            assert(segments@ =~= self.segments@);
        }
        TrackedPath { segments }
    }
}

/// A segment is hidden when its name starts with `.`.
pub open spec fn is_hidden_segment(s: Seq<char>) -> bool {
    s.len() > 0 && s[0] == '.'
}

/// A segment is excluded when it is hidden or names the build-output
/// directory.
pub open spec fn is_excluded_segment(s: Seq<char>) -> bool {
    is_hidden_segment(s) || s == "target"@
}

/// A file name carries the backup marker when it ends with `~`.
pub open spec fn is_backup_name(s: Seq<char>) -> bool {
    s.len() > 0 && s[s.len() - 1] == '~'
}

/// A path is eligible for change tracking when it is an existing regular
/// file, its name does not carry the backup marker, and no segment is
/// hidden or names the build-output directory.
pub open spec fn path_eligible(segs: Seq<Seq<char>>, is_file: bool) -> bool {
    &&& is_file
    &&& segs.len() > 0
    &&& !is_backup_name(segs[segs.len() - 1])
    &&& forall|i: int| 0 <= i < segs.len() ==> !is_excluded_segment(#[trigger] segs[i])
}

fn segment_excluded(seg: &String) -> (r: bool)
    ensures
        r == is_excluded_segment(seg@),
{
    let len = seg.as_str().unicode_len();
    if len > 0 && seg.as_str().get_char(0) == '.' {
        true
    } else {
        let build_dir: String = "target".to_owned();
        *seg == build_dir
    }
}

/// Decides eligibility of a path, given whether it currently resolves to a
/// regular file.
pub fn path_is_eligible(path: &TrackedPath, is_file: bool) -> (r: bool)
    ensures
        r == path_eligible(path@, is_file),
{
    if !is_file {
        return false;
    }
    let n = path.segments.len();
    if n == 0 {
        return false;
    }
    let last = &path.segments[n - 1];
    let last_len = last.as_str().unicode_len();
    if last_len > 0 && last.as_str().get_char(last_len - 1) == '~' {
        return false;
    }
    let mut i: usize = 0;
    while i < n
        invariant
            n == path.segments.len(),
            i <= n,
            forall|j: int| 0 <= j < i ==> !is_excluded_segment(#[trigger] path@[j]),
        decreases n - i,
    {
        if segment_excluded(&path.segments[i]) {
            proof {
                assert(is_excluded_segment(path@[i as int]));
            }
            return false;
        }
        i += 1;
    }
    true
}

/// The normalized textual form of a path: its segments joined by `/`.
pub open spec fn join_segments(segs: Seq<Seq<char>>) -> Seq<char>
    decreases segs.len(),
{
    if segs.len() == 0 {
        Seq::empty()
    } else if segs.len() == 1 {
        segs[0]
    } else {
        join_segments(segs.drop_last()) + "/"@ + segs.last()
    }
}

impl TrackedPath {
    /// The path's normalized textual form, used as its ledger key.
    pub fn display(&self) -> (r: String)
        ensures
            r@ == join_segments(self@),
    {
        let mut r = String::new();
        let n = self.segments.len();
        let mut i: usize = 0;
        while i < n
            invariant
                n == self.segments.len(),
                i <= n,
                r@ == join_segments(self@.take(i as int)),
            decreases n - i,
        {
            if i > 0 {
                r.append("/");
            }
            r.append(self.segments[i].as_str());
            proof {
                assert(self@.take(i + 1).drop_last() =~= self@.take(i as int));
                assert(self@.take(i + 1).last() == self@[i as int]);
            }
            i += 1;
        }
        proof {
            assert(self@.take(n as int) =~= self@);
        }
        r
    }
}

/// Exclusion of hidden paths: a path with any hidden segment is never
/// eligible, whatever the file's content or kind.
pub proof fn lemma_hidden_never_eligible(segs: Seq<Seq<char>>, i: int, is_file: bool)
    requires
        0 <= i < segs.len(),
        is_hidden_segment(segs[i]),
    ensures
        !path_eligible(segs, is_file),
{
}

/// Exclusion of backup files: a path whose file name ends with `~` is never
/// eligible, whatever the file's content or kind.
pub proof fn lemma_backup_never_eligible(segs: Seq<Seq<char>>, is_file: bool)
    requires
        segs.len() > 0,
        is_backup_name(segs[segs.len() - 1]),
    ensures
        !path_eligible(segs, is_file),
{
}

} // verus!
