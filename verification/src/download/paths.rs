//! Destination paths: relative, below the download root, and portable.

use vstd::prelude::*;

use super::DownloadError;
use crate::text::{
    char_text, chars_of, contains_char, upper_chars, upper_seq, utf8_len,
    utf8_len_exec,
};

verus! {

/// Whether `c` separates path components: `/`, or `\` as Windows reads it.
pub open spec fn is_separator(c: char) -> bool {
    c == '/' || c == '\\'
}

/// The pieces of `s` between separators (`/` or `\`), in order (always at
/// least one).
pub open spec fn split_segments(s: Seq<char>) -> Seq<Seq<char>>
    decreases s.len(),
{
    if s.len() == 0 {
        seq![Seq::<char>::empty()]
    } else {
        let p = split_segments(s.drop_last());
        if is_separator(s.last()) {
            p.push(Seq::<char>::empty())
        } else {
            p.update(p.len() - 1, p.last().push(s.last()))
        }
    }
}

pub proof fn lemma_split_nonempty(s: Seq<char>)
    ensures
        split_segments(s).len() >= 1,
    decreases s.len(),
{
    if s.len() > 0 {
        lemma_split_nonempty(s.drop_last());
    }
}

/// Length of the part of `v` before its first `.` (the whole of `v` without one).
pub open spec fn dot_index(v: Seq<char>) -> nat
    decreases v.len(),
{
    if v.len() == 0 {
        0
    } else if v[0] == '.' {
        0
    } else {
        1 + dot_index(v.drop_first())
    }
}

/// The part of a file name before its first `.`.
pub open spec fn stem(v: Seq<char>) -> Seq<char> {
    v.take(dot_index(v) as int)
}

proof fn lemma_dot_index(v: Seq<char>)
    ensures
        dot_index(v) <= v.len(),
        forall|k: int| 0 <= k < dot_index(v) ==> v[k] != '.',
        dot_index(v) < v.len() ==> v[dot_index(v) as int] == '.',
    decreases v.len(),
{
    if v.len() > 0 && v[0] != '.' {
        lemma_dot_index(v.drop_first());
        assert forall|k: int| 0 <= k < dot_index(v) implies v[k] != '.' by {
            if k > 0 {
                assert(v[k] == v.drop_first()[k - 1]);
            }
        }
    }
}

/// Whether a file name's stem, upper-cased, is a reserved Windows device name
/// (`CON`, `PRN`, `AUX`, `NUL`, `COM1`..`COM9`, `LPT1`..`LPT9`).
pub open spec fn is_device_name(v: Seq<char>) -> bool {
    let st = upper_seq(stem(v));
    ||| st == seq!['C', 'O', 'N']
    ||| st == seq!['P', 'R', 'N']
    ||| st == seq!['A', 'U', 'X']
    ||| st == seq!['N', 'U', 'L']
    ||| (st.len() == 4 && st.take(3) == seq!['C', 'O', 'M'] && '1' <= st[3] && st[3] <= '9')
    ||| (st.len() == 4 && st.take(3) == seq!['L', 'P', 'T'] && '1' <= st[3] && st[3] <= '9')
}

/// Whether an ordinary path component is refused: empty, over 255 bytes, ending
/// in `.` or space, holding NUL or `:`, or a device name.
pub open spec fn bad_component(v: Seq<char>) -> bool {
    ||| v.len() == 0
    ||| utf8_len(v) > 255
    ||| v.last() == '.'
    ||| v.last() == ' '
    ||| v.contains('\0')
    ||| v.contains(':')
    ||| is_device_name(v)
}

/// Why a destination path is refused.
pub enum PathIssue {
    /// Empty, or longer than 1024 bytes.
    EmptyOrTooLong,
    /// Absolute, or holding a `.` or `..` component that is not skipped.
    Unsafe,
    /// An ordinary component that is refused.
    Component(Seq<char>),
}

/// The issue, if any, of the segment at position `idx`, read the way
/// `Path::components` reads it, with `\` a separator as on Windows: a leading
/// empty segment is a root (or, as `\\server`, a UNC prefix), a leading `.`
/// is the current directory, `..` is the parent, and other empty or `.`
/// segments are skipped. A drive prefix such as `C:` holds `:` and is refused
/// as a component.
pub open spec fn segment_issue(seg: Seq<char>, idx: int) -> Option<PathIssue> {
    if idx == 0 && seg.len() == 0 {
        Some(PathIssue::Unsafe)
    } else if idx == 0 && seg == seq!['.'] {
        Some(PathIssue::Unsafe)
    } else if seg == seq!['.', '.'] {
        Some(PathIssue::Unsafe)
    } else if seg.len() == 0 || seg == seq!['.'] {
        None
    } else if bad_component(seg) {
        Some(PathIssue::Component(seg))
    } else {
        None
    }
}

/// The issue of the first segment, in order, that has one.
pub open spec fn first_issue(segs: Seq<Seq<char>>) -> Option<PathIssue>
    decreases segs.len(),
{
    if segs.len() == 0 {
        None
    } else {
        match first_issue(segs.drop_last()) {
            Some(p) => Some(p),
            None => segment_issue(segs.last(), segs.len() - 1),
        }
    }
}

/// The issue of a destination path, if any.
pub open spec fn path_issue(s: Seq<char>) -> Option<PathIssue> {
    if s.len() == 0 || utf8_len(s) > 1024 {
        Some(PathIssue::EmptyOrTooLong)
    } else {
        first_issue(split_segments(s))
    }
}

/// The message that reports an issue of `path`.
pub open spec fn issue_message(issue: PathIssue, path: Seq<char>) -> Seq<char> {
    match issue {
        PathIssue::EmptyOrTooLong => "destination path is empty or too long"@,
        PathIssue::Unsafe => "unsafe destination: "@ + path,
        PathIssue::Component(v) => "unsafe path component: "@ + v,
    }
}

/// Whether `r` is the outcome that `validate_relative_path` owes for `path`.
pub open spec fn path_outcome(path: Seq<char>, r: Result<(), DownloadError>) -> bool {
    match path_issue(path) {
        None => r is Ok,
        Some(issue) => match r {
            Err(DownloadError::InvalidPlan(m)) => m@ == issue_message(issue, path),
            _ => false,
        },
    }
}

fn stem_of(v: &Vec<char>) -> (r: Vec<char>)
    ensures
        r@ == stem(v@),
{
    proof {
        lemma_dot_index(v@);
    }
    let mut r: Vec<char> = Vec::new();
    let mut i: usize = 0;
    while i < v.len() && v[i] != '.'
        invariant
            i <= v.len(),
            r@ == v@.take(i as int),
            forall|k: int| 0 <= k < i ==> v@[k] != '.',
            dot_index(v@) <= v@.len(),
            forall|k: int| 0 <= k < dot_index(v@) ==> v@[k] != '.',
            dot_index(v@) < v@.len() ==> v@[dot_index(v@) as int] == '.',
        decreases v.len() - i,
    {
        r.push(v[i]);
        i += 1;
        assert(r@ =~= v@.take(i as int));
    }
    assert(i == dot_index(v@));
    r
}

fn is_one_to_nine(c: char) -> (r: bool)
    ensures
        r == ('1' <= c && c <= '9'),
{
    '1' <= c && c <= '9'
}

fn is_three(v: &Vec<char>, a: char, b: char, c: char) -> (r: bool)
    ensures
        r == (v@ == seq![a, b, c]),
{
    if v.len() == 3 && v[0] == a && v[1] == b && v[2] == c {
        assert(v@ =~= seq![a, b, c]);
        true
    } else {
        false
    }
}

fn is_numbered(v: &Vec<char>, a: char, b: char, c: char) -> (r: bool)
    ensures
        r == (v@.len() == 4 && v@.take(3) == seq![a, b, c] && '1' <= v@[3] && v@[3] <= '9'),
{
    if v.len() == 4 && v[0] == a && v[1] == b && v[2] == c && is_one_to_nine(v[3]) {
        assert(v@.take(3) =~= seq![a, b, c]);
        true
    } else {
        proof {
            if v@.len() == 4 && v@.take(3) == seq![a, b, c] {
                assert(v@.take(3)[0] == v@[0]);
                assert(v@.take(3)[1] == v@[1]);
                assert(v@.take(3)[2] == v@[2]);
            }
        }
        false
    }
}

/// Whether a file name is a reserved Windows device name, whatever the host.
pub fn is_windows_device_name(value: &Vec<char>) -> (r: bool)
    ensures
        r == is_device_name(value@),
{
    let st = stem_of(value);
    let up = upper_chars(&st);
    is_three(&up, 'C', 'O', 'N') || is_three(&up, 'P', 'R', 'N') || is_three(&up, 'A', 'U', 'X')
        || is_three(&up, 'N', 'U', 'L') || is_numbered(&up, 'C', 'O', 'M') || is_numbered(
        &up,
        'L',
        'P',
        'T',
    )
}

fn is_bad_component(v: &Vec<char>) -> (r: bool)
    ensures
        r == bad_component(v@),
{
    if v.len() == 0 {
        return true;
    }
    let n = utf8_len_exec(v);
    let last = v[v.len() - 1];
    n > 255 || last == '.' || last == ' ' || contains_char(v, '\0') || contains_char(v, ':')
        || is_windows_device_name(v)
}

/// Outcome of checking one segment: nothing, an unsafe segment, or a refused component.
enum SegmentCheck {
    Fine,
    Unsafe,
    BadComponent,
}

fn check_segment(seg: &Vec<char>, idx: usize) -> (r: SegmentCheck)
    ensures
        match r {
            SegmentCheck::Fine => segment_issue(seg@, idx as int) is None,
            SegmentCheck::Unsafe => segment_issue(seg@, idx as int) == Some(PathIssue::Unsafe),
            SegmentCheck::BadComponent => segment_issue(seg@, idx as int) == Some(
                PathIssue::Component(seg@),
            ),
        },
{
    let empty = seg.len() == 0;
    let dot = seg.len() == 1 && seg[0] == '.';
    let dotdot = seg.len() == 2 && seg[0] == '.' && seg[1] == '.';
    assert(dot == (seg@ == seq!['.'])) by {
        if seg@ == seq!['.'] {
            assert(seg@[0] == '.');
        }
        if dot {
            assert(seg@ =~= seq!['.']);
        }
    }
    assert(dotdot == (seg@ == seq!['.', '.'])) by {
        if seg@ == seq!['.', '.'] {
            assert(seg@[0] == '.' && seg@[1] == '.');
        }
        if dotdot {
            assert(seg@ =~= seq!['.', '.']);
        }
    }
    if idx == 0 && (empty || dot) {
        SegmentCheck::Unsafe
    } else if dotdot {
        SegmentCheck::Unsafe
    } else if empty || dot {
        SegmentCheck::Fine
    } else if is_bad_component(seg) {
        SegmentCheck::BadComponent
    } else {
        SegmentCheck::Fine
    }
}

fn text_of(prefix: &str, rest: &Vec<char>) -> (r: String)
    ensures
        r@ == prefix@ + rest@,
{
    let mut r = String::from_str(prefix);
    let mut i: usize = 0;
    while i < rest.len()
        invariant
            i <= rest.len(),
            r@ == prefix@ + rest@.take(i as int),
        decreases rest.len() - i,
    {
        let piece = char_text(rest[i]);
        r.append(piece.as_str());
        i += 1;
        assert(r@ =~= prefix@ + rest@.take(i as int));
    }
    assert(rest@.take(rest.len() as int) =~= rest@);
    r
}

/// Rejects traversal, absolute paths, platform prefixes and Windows device names
/// on every platform so plans behave consistently when moved between hosts:
/// both `/` and `\` separate components.
pub fn validate_relative_path(path: &str) -> (r: Result<(), DownloadError>)
    ensures
        path_outcome(path@, r),
{
    let s = chars_of(path);
    if s.len() == 0 || utf8_len_exec(&s) > 1024 {
        return Err(DownloadError::InvalidPlan(String::from_str("destination path is empty or too long")));
    }
    let mut cur: Vec<char> = Vec::new();
    let mut idx: usize = 0;
    let ghost mut done: Seq<Seq<char>> = Seq::empty();
    let mut i: usize = 0;
    while i < s.len()
        invariant
            s@ == path@,
            path_issue(path@) == first_issue(split_segments(path@)),
            i <= s.len(),
            idx <= i,
            done.len() == idx,
            split_segments(s@.take(i as int)) == done.push(cur@),
            first_issue(done) is None,
        decreases s.len() - i,
    {
        let c = s[i];
        let ghost before = s@.take(i as int);
        assert(s@.take(i + 1).drop_last() =~= before);
        assert(s@.take(i + 1).last() == c);
        if c == '/' || c == '\\' {
            let verdict = check_segment(&cur, idx);
            assert(done.push(cur@).drop_last() =~= done);
            match verdict {
                SegmentCheck::Fine => {},
                SegmentCheck::Unsafe => {
                    proof { lemma_first_issue_prefix(path@, i as int, done, cur@); }
                    return Err(DownloadError::InvalidPlan(text_of("unsafe destination: ", &s)));
                },
                SegmentCheck::BadComponent => {
                    proof { lemma_first_issue_prefix(path@, i as int, done, cur@); }
                    return Err(DownloadError::InvalidPlan(text_of("unsafe path component: ", &cur)));
                },
            }
            proof {
                done = done.push(cur@);
            }
            cur = Vec::new();
            idx += 1;
            assert(split_segments(s@.take(i + 1)) =~= done.push(cur@));
        } else {
            cur.push(c);
            assert(split_segments(s@.take(i + 1)) =~= done.push(cur@));
        }
        i += 1;
    }
    assert(s@.take(s.len() as int) =~= s@);
    assert(done.push(cur@).drop_last() =~= done);
    match check_segment(&cur, idx) {
        SegmentCheck::Fine => Ok(()),
        SegmentCheck::Unsafe => Err(DownloadError::InvalidPlan(text_of("unsafe destination: ", &s))),
        SegmentCheck::BadComponent => Err(DownloadError::InvalidPlan(text_of("unsafe path component: ", &cur))),
    }
}

/// What the file system holds at a path, read without following a final
/// symbolic link.
#[derive(Debug, Clone, Copy, PartialEq, Eq, Structural)]
pub enum EntryKind {
    Missing,
    Directory,
    File,
    Symlink,
    Other,
}

/// What to do with one parent directory of a destination, walking down from
/// the root.
#[derive(Debug, Clone, Copy, PartialEq, Eq, Structural)]
pub enum ParentStep {
    /// A real directory: go on to the next component.
    Enter,
    /// Nothing there yet: create the directory.
    Create,
}

/// A missing parent is created, a real directory is entered, and anything
/// else (a symbolic link, a file) refuses the plan.
pub fn parent_step(kind: EntryKind, path: &str) -> (r: Result<ParentStep, DownloadError>)
    ensures
        kind == EntryKind::Missing ==> r == Ok::<ParentStep, DownloadError>(ParentStep::Create),
        kind == EntryKind::Directory ==> r == Ok::<ParentStep, DownloadError>(ParentStep::Enter),
        kind != EntryKind::Missing && kind != EntryKind::Directory ==> (r matches Err(
            DownloadError::InvalidPlan(m),
        ) && m@ == "destination parent is not a real directory: "@ + path@),
{
    match kind {
        EntryKind::Missing => Ok(ParentStep::Create),
        EntryKind::Directory => Ok(ParentStep::Enter),
        _ => {
            let mut m = String::from_str("destination parent is not a real directory: ");
            m.append(path);
            Err(DownloadError::InvalidPlan(m))
        },
    }
}

/// A destination, partial or resume file may be absent or a regular file;
/// anything else (a symbolic link, a directory) refuses the plan.
pub fn existing_file_check(kind: EntryKind, path: &str) -> (r: Result<(), DownloadError>)
    ensures
        kind == EntryKind::Missing || kind == EntryKind::File ==> r is Ok,
        !(kind == EntryKind::Missing || kind == EntryKind::File) ==> (r matches Err(
            DownloadError::InvalidPlan(m),
        ) && m@ == "download file is not a regular file: "@ + path@),
{
    match kind {
        EntryKind::Missing | EntryKind::File => Ok(()),
        _ => {
            let mut m = String::from_str("download file is not a regular file: ");
            m.append(path);
            Err(DownloadError::InvalidPlan(m))
        },
    }
}

/// The download root must be a real directory, not a symbolic link.
pub fn root_check(kind: EntryKind) -> (r: Result<(), DownloadError>)
    ensures
        kind == EntryKind::Directory ==> r is Ok,
        kind != EntryKind::Directory ==> (r matches Err(DownloadError::InvalidPlan(m)) && m@
            == "download root must be a real directory"@),
{
    match kind {
        EntryKind::Directory => Ok(()),
        _ => Err(DownloadError::InvalidPlan(String::from_str("download root must be a real directory"))),
    }
}

/// Completed segments of a prefix stay segments of every longer prefix.
proof fn lemma_split_prefix_stable(s: Seq<char>, k: int, j: int)
    requires
        0 <= k <= j <= s.len(),
    ensures
        split_segments(s.take(j)).len() >= split_segments(s.take(k)).len(),
        forall|m: int|
            0 <= m < split_segments(s.take(k)).len() - 1 ==> split_segments(s.take(j))[m]
                == split_segments(s.take(k))[m],
    decreases j - k,
{
    if j > k {
        lemma_split_prefix_stable(s, k, j - 1);
        assert(s.take(j).drop_last() =~= s.take(j - 1));
        lemma_split_nonempty(s.take(j - 1));
    }
}

/// A first issue found in leading segments is the first issue of the whole list.
proof fn lemma_first_issue_extends(segs: Seq<Seq<char>>, n: int)
    requires
        0 <= n <= segs.len(),
        first_issue(segs.take(n)) is Some,
    ensures
        first_issue(segs) == first_issue(segs.take(n)),
    decreases segs.len() - n,
{
    if segs.len() > n {
        assert(segs.drop_last().take(n) =~= segs.take(n));
        lemma_first_issue_extends(segs.drop_last(), n);
    } else {
        assert(segs.take(n) =~= segs);
    }
}

/// Once a segment closed by the separator at position `i` has an issue, it is the
/// first issue of the whole path.
proof fn lemma_first_issue_prefix(s: Seq<char>, i: int, done: Seq<Seq<char>>, cur: Seq<char>)
    requires
        0 <= i < s.len(),
        is_separator(s[i]),
        split_segments(s.take(i)) == done.push(cur),
        first_issue(done) is None,
        segment_issue(cur, done.len() as int) is Some,
    ensures
        first_issue(split_segments(s)) == segment_issue(cur, done.len() as int),
{
    assert(s.take(i + 1).drop_last() =~= s.take(i));
    let p = split_segments(s.take(i + 1));
    assert(p == done.push(cur).push(Seq::<char>::empty()));
    lemma_split_prefix_stable(s, i + 1, s.len() as int);
    assert(s.take(s.len() as int) =~= s);
    let q = split_segments(s);
    let n: int = done.len() as int + 1;
    assert(q.take(n) =~= done.push(cur)) by {
        assert forall|m: int| 0 <= m < n implies q.take(n)[m] == done.push(cur)[m] by {
            assert(q[m] == p[m]);
        }
    }
    assert(done.push(cur).drop_last() =~= done);
    lemma_first_issue_extends(q, n);
}

proof fn lemma_no_first_issue(segs: Seq<Seq<char>>)
    requires
        first_issue(segs) is None,
    ensures
        forall|i: int| 0 <= i < segs.len() ==> (#[trigger] segment_issue(segs[i], i)) is None,
    decreases segs.len(),
{
    if segs.len() > 0 {
        lemma_no_first_issue(segs.drop_last());
        assert forall|i: int| 0 <= i < segs.len() implies (#[trigger] segment_issue(segs[i], i)) is None by {
            if i < segs.len() - 1 {
                assert(segs[i] == segs.drop_last()[i]);
            }
        }
    }
}

/// An accepted destination stays below the download root, on Unix and on
/// Windows alike: it is non-empty, does not start with `/` or `\`, does not
/// start at the current directory, and no component between `/` and `\`
/// separators is `..`.
pub proof fn law_accepted_paths_stay_below_root(s: Seq<char>)
    requires
        path_issue(s) is None,
    ensures
        s.len() > 0,
        !is_separator(s[0]),
        split_segments(s)[0] != seq!['.'],
        forall|i: int| 0 <= i < split_segments(s).len() ==> #[trigger] split_segments(s)[i] != seq!['.', '.'],
{
    let segs = split_segments(s);
    lemma_no_first_issue(segs);
    lemma_split_nonempty(s);
    assert(segment_issue(segs[0], 0) is None);
    lemma_first_segment_empty_when_rooted(s);
    assert forall|i: int| 0 <= i < segs.len() implies #[trigger] segs[i] != seq!['.', '.'] by {
        assert(segment_issue(segs[i], i) is None);
    }
}

proof fn lemma_first_issue_none(segs: Seq<Seq<char>>)
    requires
        forall|i: int| 0 <= i < segs.len() ==> (#[trigger] segment_issue(segs[i], i)) is None,
    ensures
        first_issue(segs) is None,
    decreases segs.len(),
{
    if segs.len() > 0 {
        assert forall|i: int| 0 <= i < segs.drop_last().len() implies (#[trigger] segment_issue(
            segs.drop_last()[i],
            i,
        )) is None by {
            assert(segs.drop_last()[i] == segs[i]);
        }
        lemma_first_issue_none(segs.drop_last());
        assert(segment_issue(segs[segs.len() - 1], segs.len() - 1) is None);
    }
}

/// Ordinary relative paths are accepted: a non-empty path of at most 1024
/// bytes, with no separator at its start, no `.` as its first component, no
/// `..` anywhere, and whose other components (between `/` and `\`
/// separators, skipping empty and `.` ones) are at most 255 bytes, end in
/// neither `.` nor a space, and hold neither NUL nor `:` nor a device name,
/// is accepted. A space inside a component, in particular, is no reason to
/// refuse it.
pub proof fn law_ordinary_paths_are_accepted(path: Seq<char>, r: Result<(), DownloadError>)
    requires
        path_outcome(path, r),
        path.len() > 0,
        utf8_len(path) <= 1024,
        !is_separator(path[0]),
        split_segments(path)[0] != seq!['.'],
        forall|i: int|
            0 <= i < split_segments(path).len() ==> {
                let c = #[trigger] split_segments(path)[i];
                &&& c != seq!['.', '.']
                &&& (c.len() > 0 && c != seq!['.']) ==> {
                    &&& utf8_len(c) <= 255
                    &&& c.last() != '.'
                    &&& c.last() != ' '
                    &&& !c.contains('\0')
                    &&& !c.contains(':')
                    &&& !is_device_name(c)
                }
            },
    ensures
        r is Ok,
{
    let segs = split_segments(path);
    lemma_split_nonempty(path);
    lemma_first_segment_nonempty_when_unrooted(path);
    assert forall|i: int| 0 <= i < segs.len() implies (#[trigger] segment_issue(segs[i], i)) is None by {
        let c = segs[i];
        assert(c != seq!['.', '.']);
        if i == 0 {
            assert(c.len() > 0);
        }
    }
    lemma_first_issue_none(segs);
}

/// A path that does not start with a separator has a non-empty first segment.
proof fn lemma_first_segment_nonempty_when_unrooted(s: Seq<char>)
    requires
        s.len() > 0,
        !is_separator(s[0]),
    ensures
        split_segments(s)[0].len() > 0,
    decreases s.len(),
{
    lemma_split_nonempty(s);
    let p = split_segments(s.drop_last());
    lemma_split_nonempty(s.drop_last());
    if s.len() > 1 {
        assert(s.drop_last()[0] == s[0]);
        lemma_first_segment_nonempty_when_unrooted(s.drop_last());
        if is_separator(s.last()) {
            assert(split_segments(s) == p.push(Seq::<char>::empty()));
            assert(split_segments(s)[0] == p[0]);
        } else {
            let q = p.update(p.len() - 1, p.last().push(s.last()));
            assert(split_segments(s) == q);
            if p.len() > 1 {
                assert(q[0] == p[0]);
            } else {
                assert(q[0] == p[0].push(s.last()));
            }
        }
    } else {
        assert(s.drop_last().len() == 0);
        assert(p == seq![Seq::<char>::empty()]);
        assert(s.last() == s[0]);
        let q = p.update(p.len() - 1, p.last().push(s.last()));
        assert(split_segments(s) == q);
        assert(q[0] == p[0].push(s.last()));
    }
}

/// A path that starts with a separator has an empty first segment.
proof fn lemma_first_segment_empty_when_rooted(s: Seq<char>)
    requires
        s.len() > 0,
    ensures
        is_separator(s[0]) ==> split_segments(s)[0].len() == 0 && split_segments(s).len() >= 2,
    decreases s.len(),
{
    lemma_split_nonempty(s);
    let p = split_segments(s.drop_last());
    if s.len() > 1 {
        lemma_first_segment_empty_when_rooted(s.drop_last());
        lemma_split_nonempty(s.drop_last());
        assert(s.drop_last()[0] == s[0]);
        if is_separator(s[0]) {
            if is_separator(s.last()) {
                assert(split_segments(s) == p.push(Seq::<char>::empty()));
                assert(split_segments(s)[0] == p[0]);
            } else {
                let q = p.update(p.len() - 1, p.last().push(s.last()));
                assert(split_segments(s) == q);
                assert(q[0] == p[0]);
            }
        }
    } else {
        assert(s.drop_last().len() == 0);
        assert(p == seq![Seq::<char>::empty()]);
        if is_separator(s[0]) {
            assert(is_separator(s.last()));
            assert(split_segments(s) == p.push(Seq::<char>::empty()));
        }
    }
}

} // verus!
