//! The decisions of extraction: which entries may be written, under which
//! relative path, which symlink targets are acceptable, and what the
//! extraction amounts to.
use vstd::prelude::*;
use crate::encoding::push_char;
use vstd::std_specs::iter::IteratorSpec;
use crate::entry::{contents_of, Entry, EntryContents};

verus! {

broadcast use vstd::string::axiom_spec_iter, vstd::string::next_postcondition;

/// How paths are written on the platform that extraction writes to.
#[derive(Debug, Clone, Copy, PartialEq, Eq, Structural)]
pub enum PathStyle {
    /// `/`-rooted paths.
    Posix,
    /// Drive letters, and `\` as a separator.
    Windows,
}

/// A path separator: `/`, or `\\` as Windows writes it (taken as one
/// everywhere, which only rejects more).
pub open spec fn is_separator(c: char) -> bool {
    c == '/' || c == '\\'
}

/// True when `s` has a parent-directory segment: `..` between separators
/// or the ends of `s`.
pub open spec fn has_dotdot(s: Seq<char>) -> bool {
    exists|i: int|
        0 <= i && i + 1 < s.len() && #[trigger] s[i] == '.' && s[i + 1] == '.' && (i == 0
            || is_separator(s[i - 1])) && (i + 2 == s.len() || is_separator(s[i + 2]))
}

/// True when `s` holds a drive separator `:`, which also makes a
/// drive-relative name such as `C:x`.
pub open spec fn has_drive_separator(s: Seq<char>) -> bool {
    exists|i: int| 0 <= i < s.len() && #[trigger] s[i] == ':'
}

/// True when `s` is a path that extraction refuses under `style`: one with
/// a parent-directory segment, and on Windows one with a drive separator
/// or a leading separator.
pub open spec fn path_rejected(s: Seq<char>, style: PathStyle) -> bool {
    has_dotdot(s) || (style == PathStyle::Windows && (has_drive_separator(s) || (s.len() > 0
        && is_separator(s[0]))))
}

/// Number of `/` that `s` starts with.
pub open spec fn leading_slashes(s: Seq<char>) -> int
    decreases s.len(),
{
    if s.len() > 0 && s[0] == '/' {
        1 + leading_slashes(s.drop_first())
    } else {
        0
    }
}

/// The relative path under which an accepted name is written: on Posix,
/// the name without its leading `/`, so that it stays under the
/// destination; on Windows, the name itself.
pub open spec fn rerooted(s: Seq<char>, style: PathStyle) -> Seq<char> {
    if style == PathStyle::Posix {
        s.skip(leading_slashes(s))
    } else {
        s
    }
}

/// The characters of `s`.
pub fn chars_of(s: &str) -> (r: Vec<char>)
    ensures
        r@ == s@,
{
    let mut it = s.chars();
    let mut out: Vec<char> = Vec::new();
    loop
        invariant
            out@ + it.remaining() == s@,
            it.decrease() is Some,
        decreases it.decrease()->0,
    {
        match it.next() {
            Some(c) => {
                out.push(c);
            },
            None => {
                assert(out@ =~= s@);
                return out;
            },
        }
    }
}

fn is_sep(c: char) -> (r: bool)
    ensures
        r == is_separator(c),
{
    c == '/' || c == '\\'
}

fn has_parent_segment(s: &Vec<char>) -> (r: bool)
    ensures
        r == has_dotdot(s@),
{
    let n = s.len();
    let mut i: usize = 0;
    while n > 0 && i < n - 1
        invariant
            n == s@.len(),
            i <= n,
            forall|k: int|
                0 <= k < i && k + 1 < n ==> !(#[trigger] s@[k] == '.' && s@[k + 1] == '.' && (k == 0
                    || is_separator(s@[k - 1])) && (k + 2 == n || is_separator(s@[k + 2]))),
        decreases n - i,
    {
        if s[i] == '.' && s[i + 1] == '.' && (i == 0 || is_sep(s[i - 1])) && (i + 2 == n || is_sep(
            s[i + 2],
        )) {
            return true;
        }
        i = i + 1;
    }
    false
}

fn has_colon(s: &Vec<char>) -> (r: bool)
    ensures
        r == has_drive_separator(s@),
{
    let n = s.len();
    let mut i: usize = 0;
    while i < n
        invariant
            n == s@.len(),
            i <= n,
            forall|k: int| 0 <= k < i ==> #[trigger] s@[k] != ':',
        decreases n - i,
    {
        if s[i] == ':' {
            return true;
        }
        i = i + 1;
    }
    false
}

proof fn lemma_leading_slashes(s: Seq<char>, k: int)
    requires
        0 <= k <= s.len(),
        forall|j: int| 0 <= j < k ==> s[j] == '/',
        k == s.len() || s[k] != '/',
    ensures
        leading_slashes(s) == k,
    decreases k,
{
    if k > 0 {
        let t = s.drop_first();
        assert forall|j: int| 0 <= j < k - 1 implies t[j] == '/' by {
            assert(t[j] == s[j + 1]);
        }
        lemma_leading_slashes(t, k - 1);
    }
}

/// The path, relative to the destination, under which an entry named
/// `name` is written; `None` when the name is refused.
pub fn sanitize_entry_path(name: &str, style: PathStyle) -> (r: Option<String>)
    ensures
        r is None <==> path_rejected(name@, style),
        r matches Some(p) ==> p@ == rerooted(name@, style),
{
    let cs = chars_of(name);
    if has_parent_segment(&cs) {
        return None;
    }
    let n = cs.len();
    match style {
        PathStyle::Windows => {
            if has_colon(&cs) || (n > 0 && is_sep(cs[0])) {
                return None;
            }
        },
        PathStyle::Posix => {},
    }
    let mut start: usize = 0;
    if style == PathStyle::Posix {
        while start < n && cs[start] == '/'
            invariant
                n == cs@.len(),
                start <= n,
                forall|j: int| 0 <= j < start ==> cs@[j] == '/',
            decreases n - start,
        {
            start = start + 1;
        }
        proof {
            lemma_leading_slashes(cs@, start as int);
        }
    }
    let mut out = String::new();
    let mut i: usize = start;
    while i < n
        invariant
            n == cs@.len(),
            start <= i <= n,
            out@ == cs@.subrange(start as int, i as int),
        decreases n - i,
    {
        push_char(&mut out, cs[i]);
        i = i + 1;
        assert(out@ =~= cs@.subrange(start as int, i as int));
    }
    assert(cs@.subrange(start as int, n as int) =~= rerooted(name@, style));
    Some(out)
}

/// True when a symlink whose target text is `target` may be created: a
/// target with a parent-directory segment could point outside the
/// destination.
pub fn symlink_target_is_safe(target: &str) -> (r: bool)
    ensures
        r == !has_dotdot(target@),
{
    let cs = chars_of(target);
    !has_parent_segment(&cs)
}

/// A sanitized path stays under the destination: it holds no `..`, and
/// on Posix it does not start with `/`.
pub proof fn lemma_sanitized_path_stays_inside(s: Seq<char>, style: PathStyle)
    requires
        !path_rejected(s, style),
    ensures
        !has_dotdot(rerooted(s, style)),
        style == PathStyle::Posix ==> rerooted(s, style).len() == 0 || rerooted(s, style)[0] != '/',
{
    lemma_leading_slashes_bound(s);
    let k = if style == PathStyle::Posix { leading_slashes(s) } else { 0 };
    let t = rerooted(s, style);
    assert(t =~= s.skip(k));
    if has_dotdot(t) {
        let i = choose|i: int|
            0 <= i && i + 1 < t.len() && #[trigger] t[i] == '.' && t[i + 1] == '.' && (i == 0
                || is_separator(t[i - 1])) && (i + 2 == t.len() || is_separator(t[i + 2]));
        if style == PathStyle::Posix {
            lemma_leading_all_slashes(s);
        }
        if i == 0 && k > 0 {
            assert(s[k - 1] == '/');
        }
        assert(s[i + k] == '.' && s[i + k + 1] == '.');
        assert((i + k == 0 || is_separator(s[i + k - 1])) && (i + k + 2 == s.len() || is_separator(s[i + k + 2])));
    }
    if style == PathStyle::Posix {
        lemma_no_slash_after_leading(s);
    }
}

proof fn lemma_leading_all_slashes(s: Seq<char>)
    ensures
        forall|j: int| 0 <= j < leading_slashes(s) ==> s[j] == '/',
    decreases s.len(),
{
    lemma_leading_slashes_bound(s);
    if s.len() > 0 && s[0] == '/' {
        let t = s.drop_first();
        lemma_leading_all_slashes(t);
        assert forall|j: int| 0 <= j < leading_slashes(s) implies s[j] == '/' by {
            if j > 0 {
                assert(s[j] == t[j - 1]);
            }
        }
    }
}

proof fn lemma_leading_slashes_bound(s: Seq<char>)
    ensures
        0 <= leading_slashes(s) <= s.len(),
    decreases s.len(),
{
    if s.len() > 0 && s[0] == '/' {
        lemma_leading_slashes_bound(s.drop_first());
    }
}

proof fn lemma_no_slash_after_leading(s: Seq<char>)
    ensures
        s.skip(leading_slashes(s)).len() == 0 || s.skip(leading_slashes(s))[0] != '/',
    decreases s.len(),
{
    lemma_leading_slashes_bound(s);
    if s.len() > 0 && s[0] == '/' {
        let t = s.drop_first();
        lemma_no_slash_after_leading(t);
        lemma_leading_slashes_bound(t);
        assert(s.skip(leading_slashes(s)) =~= t.skip(leading_slashes(t)));
    }
}

/// What an extraction amounts to: the entries written of each kind (those
/// whose path is accepted), and the bytes of all file entries.
#[derive(Debug, Clone, Copy, PartialEq, Eq, Structural)]
pub struct ExtractionSummary {
    pub files: u64,
    pub dirs: u64,
    pub symlinks: u64,
    pub total_bytes: u64,
}

/// Sum of the uncompressed sizes of the file entries of `es`.
pub open spec fn file_bytes(es: Seq<Entry>) -> int
    decreases es.len(),
{
    if es.len() == 0 {
        0
    } else {
        file_bytes(es.drop_last()) + if contents_of(es.last().mode) is File {
            es.last().uncompressed_size as int
        } else {
            0
        }
    }
}

/// Number of entries of `es` of kind `kind` whose path is accepted.
pub open spec fn count_written(es: Seq<Entry>, style: PathStyle, kind: EntryContents) -> int
    decreases es.len(),
{
    if es.len() == 0 {
        0
    } else {
        count_written(es.drop_last(), style, kind) + if contents_of(es.last().mode) == kind
            && !path_rejected(es.last().name@, style) {
            1int
        } else {
            0
        }
    }
}

proof fn lemma_totals_nonneg(es: Seq<Entry>, style: PathStyle, kind: EntryContents)
    ensures
        0 <= file_bytes(es),
        0 <= count_written(es, style, kind) <= es.len(),
    decreases es.len(),
{
    if es.len() > 0 {
        lemma_totals_nonneg(es.drop_last(), style, kind);
    }
}

proof fn lemma_prefix_bounds(es: Seq<Entry>, i: int, style: PathStyle, kind: EntryContents)
    requires
        0 <= i <= es.len(),
    ensures
        file_bytes(es.subrange(0, i)) <= file_bytes(es),
        0 <= file_bytes(es.subrange(0, i)),
        0 <= count_written(es.subrange(0, i), style, kind) <= i,
    decreases es.len() - i,
{
    lemma_totals_nonneg(es.subrange(0, i), style, kind);
    if i < es.len() {
        lemma_prefix_bounds(es, i + 1, style, kind);
        assert(es.subrange(0, i + 1).drop_last() =~= es.subrange(0, i));
    } else {
        assert(es.subrange(0, i) =~= es);
    }
}

/// Counts the entries that extraction writes, by kind, and sums the sizes
/// of the file entries; `None` when that sum does not fit in 64 bits.
pub fn extraction_summary(entries: &Vec<Entry>, style: PathStyle) -> (r: Option<ExtractionSummary>)
    requires
        entries@.len() <= u64::MAX,
    ensures
        r is Some <==> file_bytes(entries@) <= u64::MAX,
        r matches Some(s) ==> {
            &&& s.files == count_written(entries@, style, EntryContents::File)
            &&& s.dirs == count_written(entries@, style, EntryContents::Directory)
            &&& s.symlinks == count_written(entries@, style, EntryContents::Symlink)
            &&& s.total_bytes == file_bytes(entries@)
        },
{
    let mut sum = ExtractionSummary { files: 0, dirs: 0, symlinks: 0, total_bytes: 0 };
    let n = entries.len();
    let mut i: usize = 0;
    while i < n
        invariant
            n == entries@.len(),
            n <= u64::MAX,
            i <= n,
            sum.files == count_written(entries@.subrange(0, i as int), style, EntryContents::File),
            sum.dirs == count_written(entries@.subrange(0, i as int), style, EntryContents::Directory),
            sum.symlinks == count_written(entries@.subrange(0, i as int), style, EntryContents::Symlink),
            sum.total_bytes == file_bytes(entries@.subrange(0, i as int)),
        decreases n - i,
    {
        let e = &entries[i];
        let kind = e.contents();
        proof {
            lemma_prefix_bounds(entries@, i as int + 1, style, EntryContents::File);
            lemma_prefix_bounds(entries@, i as int + 1, style, EntryContents::Directory);
            lemma_prefix_bounds(entries@, i as int + 1, style, EntryContents::Symlink);
            assert(entries@.subrange(0, i + 1).drop_last() =~= entries@.subrange(0, i as int));
        }
        if matches!(kind, EntryContents::File) {
            if e.uncompressed_size > u64::MAX - sum.total_bytes {
                proof {
                    lemma_prefix_bounds(entries@, i as int + 1, style, EntryContents::File);
                }
                return None;
            }
            sum.total_bytes = sum.total_bytes + e.uncompressed_size;
        }
        let accepted = sanitize_entry_path(e.name.as_str(), style).is_some();
        if accepted {
            match kind {
                EntryContents::File => sum.files = sum.files + 1,
                EntryContents::Directory => sum.dirs = sum.dirs + 1,
                EntryContents::Symlink => sum.symlinks = sum.symlinks + 1,
            }
        }
        i = i + 1;
    }
    assert(entries@.subrange(0, n as int) =~= entries@);
    Some(sum)
}

/// Bytes extracted so far out of a known total. The count only grows.
#[derive(Debug, Clone, Copy, PartialEq, Eq, Structural)]
pub struct Progress {
    pub done: u64,
    pub total: u64,
}

impl Progress {
    pub fn new(total: u64) -> (r: Progress)
        ensures
            r.done == 0,
            r.total == total,
    {
        Progress { done: 0, total }
    }

    /// Counts `n` more bytes; the count stops at the largest `u64`.
    pub fn advance(&mut self, n: u64)
        ensures
            final(self).total == old(self).total,
            final(self).done == vstd::math::min(old(self).done + n, u64::MAX as int),
            final(self).done >= old(self).done,
    {
        if n > u64::MAX - self.done {
            self.done = u64::MAX;
        } else {
            self.done = self.done + n;
        }
    }
}

/// What an archive holds: its entries of each kind, and the compressed and
/// uncompressed sizes of its file entries.
#[derive(Debug, Clone, Copy, PartialEq, Eq, Structural)]
pub struct ArchiveSummary {
    pub files: u64,
    pub dirs: u64,
    pub symlinks: u64,
    pub compressed_bytes: u64,
    pub uncompressed_bytes: u64,
}

/// Number of entries of `es` of kind `kind`.
pub open spec fn count_kind(es: Seq<Entry>, kind: EntryContents) -> int
    decreases es.len(),
{
    if es.len() == 0 {
        0
    } else {
        count_kind(es.drop_last(), kind) + if contents_of(es.last().mode) == kind { 1int } else { 0 }
    }
}

/// Sum of the compressed sizes of the file entries of `es`.
pub open spec fn file_compressed_bytes(es: Seq<Entry>) -> int
    decreases es.len(),
{
    if es.len() == 0 {
        0
    } else {
        file_compressed_bytes(es.drop_last()) + if contents_of(es.last().mode) is File {
            es.last().compressed_size as int
        } else {
            0
        }
    }
}

proof fn lemma_summary_nonneg(es: Seq<Entry>, kind: EntryContents)
    ensures
        0 <= file_compressed_bytes(es),
        0 <= file_bytes(es),
        0 <= count_kind(es, kind) <= es.len(),
    decreases es.len(),
{
    if es.len() > 0 {
        lemma_summary_nonneg(es.drop_last(), kind);
    }
}

proof fn lemma_summary_prefix(es: Seq<Entry>, i: int, kind: EntryContents)
    requires
        0 <= i <= es.len(),
    ensures
        file_compressed_bytes(es.subrange(0, i)) <= file_compressed_bytes(es),
        file_bytes(es.subrange(0, i)) <= file_bytes(es),
        0 <= count_kind(es.subrange(0, i), kind) <= i,
    decreases es.len() - i,
{
    lemma_summary_nonneg(es.subrange(0, i), kind);
    if i < es.len() {
        lemma_summary_prefix(es, i + 1, kind);
        lemma_summary_nonneg(es.subrange(0, i + 1), kind);
        assert(es.subrange(0, i + 1).drop_last() =~= es.subrange(0, i));
    } else {
        assert(es.subrange(0, i) =~= es);
    }
}

/// Counts the entries of each kind and sums the sizes of the file entries;
/// `None` when a sum does not fit in 64 bits.
pub fn archive_summary(entries: &Vec<Entry>) -> (r: Option<ArchiveSummary>)
    requires
        entries@.len() <= u64::MAX,
    ensures
        r is Some <==> file_bytes(entries@) <= u64::MAX && file_compressed_bytes(entries@) <= u64::MAX,
        r matches Some(s) ==> {
            &&& s.files == count_kind(entries@, EntryContents::File)
            &&& s.dirs == count_kind(entries@, EntryContents::Directory)
            &&& s.symlinks == count_kind(entries@, EntryContents::Symlink)
            &&& s.compressed_bytes == file_compressed_bytes(entries@)
            &&& s.uncompressed_bytes == file_bytes(entries@)
        },
{
    let mut sum = ArchiveSummary { files: 0, dirs: 0, symlinks: 0, compressed_bytes: 0, uncompressed_bytes: 0 };
    let n = entries.len();
    let mut i: usize = 0;
    while i < n
        invariant
            n == entries@.len(),
            n <= u64::MAX,
            i <= n,
            sum.files == count_kind(entries@.subrange(0, i as int), EntryContents::File),
            sum.dirs == count_kind(entries@.subrange(0, i as int), EntryContents::Directory),
            sum.symlinks == count_kind(entries@.subrange(0, i as int), EntryContents::Symlink),
            sum.compressed_bytes == file_compressed_bytes(entries@.subrange(0, i as int)),
            sum.uncompressed_bytes == file_bytes(entries@.subrange(0, i as int)),
        decreases n - i,
    {
        let e = &entries[i];
        let kind = e.contents();
        proof {
            lemma_summary_prefix(entries@, i as int + 1, EntryContents::File);
            lemma_summary_prefix(entries@, i as int + 1, EntryContents::Directory);
            lemma_summary_prefix(entries@, i as int + 1, EntryContents::Symlink);
            assert(entries@.subrange(0, i + 1).drop_last() =~= entries@.subrange(0, i as int));
        }
        match kind {
            EntryContents::File => {
                if e.uncompressed_size > u64::MAX - sum.uncompressed_bytes || e.compressed_size > u64::MAX
                    - sum.compressed_bytes {
                    return None;
                }
                sum.uncompressed_bytes = sum.uncompressed_bytes + e.uncompressed_size;
                sum.compressed_bytes = sum.compressed_bytes + e.compressed_size;
                sum.files = sum.files + 1;
            },
            EntryContents::Directory => sum.dirs = sum.dirs + 1,
            EntryContents::Symlink => sum.symlinks = sum.symlinks + 1,
        }
        i = i + 1;
    }
    assert(entries@.subrange(0, n as int) =~= entries@);
    Some(sum)
}

} // verus!
