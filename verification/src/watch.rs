//! File watching module
//!
//! Decides which changed paths the watch mode processes: paths that match no ignore
//! pattern and, when extensions are configured, carry one of them.
use vstd::prelude::*;

use crate::engine::error::DemojiError;
use crate::engine::replacer::{option_str, option_text};
use crate::engine::text::{text_chars, texts};
use crate::engine::walker::{default_ignore_list, DirectoryWalker};

verus! {

broadcast use vstd::string::group_string_axioms;

/// Watches files for changes and processes them
///
/// Monitors the given paths; rapid changes are debounced so that the same file is not
/// processed many times in quick succession.
pub struct FileWatcher {
    /// Paths to watch (files or directories)
    pub paths: Vec<String>,
    /// Extensions of the files to process; all files when empty
    pub extensions: Vec<String>,
    /// Patterns of paths that are never processed
    pub ignore_patterns: Vec<String>,
}

/// The final component of `path`, as `std::path::Path::file_name` gives it.
pub uninterp spec fn path_file_name(path: Seq<char>) -> Option<Seq<char>>;

/// The index of the last `c` in `s` before index `end`, or -1 when there is none.
pub open spec fn last_index_before(s: Seq<char>, c: char, end: int) -> int
    decreases end,
{
    if end <= 0 {
        -1
    } else if s[end - 1] == c {
        end - 1
    } else {
        last_index_before(s, c, end - 1)
    }
}

/// The extension of the file name `name`, as `std::path::Path::extension` finds it: what
/// follows the last dot, unless there is no dot, the only dot is the first character, or
/// the name is `..`.
pub open spec fn name_extension(name: Seq<char>) -> Option<Seq<char>> {
    let k = last_index_before(name, '.', name.len() as int);
    if name == seq!['.', '.'] || k <= 0 {
        None
    } else {
        Some(name.skip(k + 1))
    }
}

/// The extension of `path`: that of its file name, if it has one.
pub open spec fn path_extension(path: Seq<char>) -> Option<Seq<char>> {
    match path_file_name(path) {
        Some(name) => name_extension(name),
        None => None,
    }
}

/// `std::path::Path::file_name`: the final component of the path, if there is one.
#[verifier::external_body]
fn file_name_of(path: &str) -> (r: Option<String>)
    ensures
        option_text(r) == path_file_name(path@),
{
    match std::path::Path::new(path).file_name() {
        Some(name) => Some(name.to_string_lossy().into_owned()),
        None => None,
    }
}

/// The extension of the file name `name`.
fn extension_of_name(name: &str) -> (r: Option<String>)
    ensures
        option_text(r) == name_extension(name@),
{
    let chars = text_chars(name);
    let n = chars.len();
    if n == 2 && chars[0] == '.' && chars[1] == '.' {
        assert(chars@ =~= seq!['.', '.']);
        return None;
    }
    assert(chars@ != seq!['.', '.']) by {
        if chars@ == seq!['.', '.'] {
            assert(chars@.len() == 2);
        }
    }
    let mut end = n;
    while end > 0 && chars[end - 1] != '.'
        invariant
            chars@ == name@,
            end <= chars@.len(),
            last_index_before(name@, '.', name@.len() as int) == last_index_before(
                name@,
                '.',
                end as int,
            ),
        decreases end,
    {
        end = end - 1;
    }
    if end <= 1 {
        return None;
    }
    let mut ext = String::new();
    let mut i = end;
    while i < n
        invariant
            chars@ == name@,
            end <= i <= n,
            n == chars@.len(),
            ext@ == chars@.subrange(end as int, i as int),
        decreases n - i,
    {
        ext.push(chars[i]);
        assert(chars@.subrange(end as int, i + 1) =~= chars@.subrange(end as int, i as int).push(
            chars@[i as int],
        ));
        i = i + 1;
    }
    assert(ext@ =~= name@.skip(end as int));
    Some(ext)
}

/// `std::path::Path::is_dir`: whether the path names a directory on disk now. The answer
/// depends on the file system, so nothing is stated of it.
#[verifier::external_body]
fn is_directory(path: &str) -> (r: bool) {
    std::path::Path::new(path).is_dir()
}

/// Whether `part` occurs in `whole` as a contiguous run of characters.
pub open spec fn occurs_in(part: Seq<char>, whole: Seq<char>) -> bool {
    exists|k: int|
        0 <= k && k + part.len() <= whole.len() && #[trigger] whole.subrange(k, k + part.len())
            == part
}

/// Whether `whole` ends with `part`.
pub open spec fn ends_with(whole: Seq<char>, part: Seq<char>) -> bool {
    part.len() <= whole.len() && whole.skip(whole.len() - part.len()) == part
}

/// Whether an ignore pattern matches a path whose file name is `file_name`: the pattern is
/// the file name, or a `*` pattern holding a dot whose remainder ends the path, or it occurs
/// anywhere in the path.
pub open spec fn pattern_matches(pattern: Seq<char>, path: Seq<char>, file_name: Option<Seq<char>>) -> bool {
    ||| file_name == Some(pattern)
    ||| pattern.len() > 0 && pattern[0] == '*' && pattern.contains('.') && ends_with(
        path,
        pattern.drop_first(),
    )
    ||| occurs_in(pattern, path)
}

/// Whether some pattern of `patterns` matches the path.
pub open spec fn ignored_by(
    patterns: Seq<Seq<char>>,
    path: Seq<char>,
    file_name: Option<Seq<char>>,
) -> bool {
    exists|i: int| 0 <= i < patterns.len() && pattern_matches(#[trigger] patterns[i], path, file_name)
}

/// Whether an extension filter admits a file with extension `ext`: an empty filter admits
/// every file, another only files whose extension it lists.
pub open spec fn extension_admitted(extensions: Seq<Seq<char>>, ext: Option<Seq<char>>) -> bool {
    extensions.len() == 0 || (ext matches Some(e) && extensions.contains(e))
}

impl FileWatcher {
    /// Whether this watcher's patterns ignore `path`.
    pub open spec fn ignores(&self, path: Seq<char>) -> bool {
        ignored_by(texts(self.ignore_patterns@), path, path_file_name(path))
    }

    /// Whether this watcher processes `path` when it is not a directory.
    pub open spec fn accepts(&self, path: Seq<char>) -> bool {
        !self.ignores(path) && extension_admitted(texts(self.extensions@), path_extension(path))
    }

    /// Creates a new file watcher for the given paths, with no extension filter and the
    /// default ignore patterns
    pub fn new(paths: Vec<String>) -> (r: Result<Self, DemojiError>)
        ensures
            r matches Ok(w) && w.paths@ == paths@ && w.extensions@.len() == 0 && texts(
                w.ignore_patterns@,
            ) == default_ignore_list(),
    {
        Ok(Self { paths, extensions: Vec::new(), ignore_patterns: DirectoryWalker::default_ignore_patterns() })
    }

    /// Sets the file extensions to process
    ///
    /// If empty, all files are processed (except ignored ones).
    pub fn with_extensions(self, extensions: Vec<String>) -> (r: Self)
        ensures
            r.paths@ == self.paths@,
            r.extensions@ == extensions@,
            r.ignore_patterns@ == self.ignore_patterns@,
    {
        Self { paths: self.paths, extensions, ignore_patterns: self.ignore_patterns }
    }

    /// Adds custom ignore patterns
    ///
    /// Patterns are added to the default ignore patterns.
    pub fn with_ignore_patterns(self, patterns: Vec<String>) -> (r: Self)
        ensures
            r.paths@ == self.paths@,
            r.extensions@ == self.extensions@,
            r.ignore_patterns@ == self.ignore_patterns@ + patterns@,
    {
        let mut ignore_patterns = self.ignore_patterns;
        let mut more = patterns;
        ignore_patterns.append(&mut more);
        Self { paths: self.paths, extensions: self.extensions, ignore_patterns }
    }

    /// Checks if a file should be processed based on extension and ignore patterns
    ///
    /// Directories are never processed; whether `path` is one depends on the disk, so the
    /// result is stated as what holds for every answer.
    pub fn should_process_file(&self, path: &str) -> (r: bool)
        ensures
            r ==> self.accepts(path@),
    {
        let is_dir = is_directory(path);
        let file_name = file_name_of(path);
        let ext = match &file_name {
            Some(name) => extension_of_name(name.as_str()),
            None => None,
        };
        self.process_decision(path, is_dir, option_as_str(&file_name), option_as_str(&ext))
    }

    /// Whether a path is processed, given whether it is a directory, its file name and its
    /// extension.
    pub fn process_decision(
        &self,
        path: &str,
        is_dir: bool,
        file_name: Option<&str>,
        ext: Option<&str>,
    ) -> (r: bool)
        ensures
            r == (!is_dir && !ignored_by(
                texts(self.ignore_patterns@),
                path@,
                option_str(file_name),
            ) && extension_admitted(texts(self.extensions@), option_str(ext))),
    {
        // Skip directories
        if is_dir {
            return false;
        }
        // Check if path matches ignore patterns
        if self.ignore_decision(path, file_name) {
            return false;
        }
        // Check extension filter if specified
        if self.extensions.len() > 0 {
            match ext {
                Some(e) => listed(&self.extensions, e),
                None => false,
            }
        } else {
            true
        }
    }

    /// Checks if a path should be ignored based on ignore patterns
    pub fn should_ignore_path(&self, path: &str) -> (r: bool)
        ensures
            r == self.ignores(path@),
    {
        let file_name = file_name_of(path);
        self.ignore_decision(path, option_as_str(&file_name))
    }

    /// Whether some ignore pattern matches a path whose file name is `file_name`.
    pub fn ignore_decision(&self, path: &str, file_name: Option<&str>) -> (r: bool)
        ensures
            r == ignored_by(texts(self.ignore_patterns@), path@, option_str(file_name)),
    {
        let path_chars = text_chars(path);
        let mut i: usize = 0;
        while i < self.ignore_patterns.len()
            invariant
                path_chars@ == path@,
                i <= self.ignore_patterns@.len(),
                forall|j: int|
                    0 <= j < i ==> !pattern_matches(
                        #[trigger] texts(self.ignore_patterns@)[j],
                        path@,
                        option_str(file_name),
                    ),
            decreases self.ignore_patterns@.len() - i,
        {
            let pattern = self.ignore_patterns[i].as_str();
            if pattern_match_decision(pattern, &path_chars, file_name) {
                assert(texts(self.ignore_patterns@)[i as int] == pattern@);
                return true;
            }
            i = i + 1;
        }
        false
    }
}

/// The string slice that an optional string holds.
fn option_as_str(o: &Option<String>) -> (r: Option<&str>)
    ensures
        option_str(r) == option_text(*o),
{
    match o {
        Some(s) => Some(s.as_str()),
        None => None,
    }
}

/// Whether `items` lists `item`.
fn listed(items: &Vec<String>, item: &str) -> (r: bool)
    ensures
        r == texts(items@).contains(item@),
{
    let item_chars = text_chars(item);
    let mut i: usize = 0;
    while i < items.len()
        invariant
            item_chars@ == item@,
            i <= items@.len(),
            forall|j: int| 0 <= j < i ==> texts(items@)[j] != item@,
        decreases items@.len() - i,
    {
        let candidate = text_chars(items[i].as_str());
        if same_chars(&candidate, &item_chars) {
            assert(texts(items@)[i as int] == item@);
            return true;
        }
        i = i + 1;
    }
    false
}

/// Whether two character vectors are equal.
fn same_chars(a: &Vec<char>, b: &Vec<char>) -> (r: bool)
    ensures
        r == (a@ == b@),
{
    if a.len() != b.len() {
        return false;
    }
    let mut i: usize = 0;
    while i < a.len()
        invariant
            a@.len() == b@.len(),
            i <= a@.len(),
            forall|j: int| 0 <= j < i ==> a@[j] == b@[j],
        decreases a@.len() - i,
    {
        if a[i] != b[i] {
            return false;
        }
        i = i + 1;
    }
    assert(a@ =~= b@);
    true
}

/// Whether `part` occurs in `whole` starting at character `k`.
fn occurs_at(part: &Vec<char>, whole: &Vec<char>, k: usize) -> (r: bool)
    requires
        k + part@.len() <= whole@.len(),
    ensures
        r == (whole@.subrange(k as int, k + part@.len()) == part@),
{
    let mut i: usize = 0;
    while i < part.len()
        invariant
            k + part@.len() <= whole.len(),
            i <= part@.len(),
            forall|j: int| 0 <= j < i ==> whole@[k + j] == part@[j],
        decreases part@.len() - i,
    {
        if whole[k + i] != part[i] {
            assert(whole@.subrange(k as int, k + part@.len())[i as int] != part@[i as int]);
            return false;
        }
        i = i + 1;
    }
    assert(whole@.subrange(k as int, k + part@.len()) =~= part@);
    true
}

/// Whether `part` occurs anywhere in `whole`.
fn occurs(part: &Vec<char>, whole: &Vec<char>) -> (r: bool)
    ensures
        r == occurs_in(part@, whole@),
{
    if part.len() > whole.len() {
        return false;
    }
    let last = whole.len() - part.len();
    let mut k: usize = 0;
    loop
        invariant
            last == whole@.len() - part@.len(),
            k <= last,
            forall|j: int| 0 <= j < k ==> #[trigger] whole@.subrange(j, j + part@.len()) != part@,
        decreases last - k,
    {
        if occurs_at(part, whole, k) {
            return true;
        }
        if k == last {
            return false;
        }
        k = k + 1;
    }
}

/// Whether `whole` ends with `part`.
fn ends_with_chars(whole: &Vec<char>, part: &Vec<char>) -> (r: bool)
    ensures
        r == ends_with(whole@, part@),
{
    if part.len() > whole.len() {
        return false;
    }
    let k = whole.len() - part.len();
    let r = occurs_at(part, whole, k);
    assert(whole@.subrange(k as int, k + part@.len()) =~= whole@.skip(k as int));
    r
}

/// Whether `pattern` matches the path with characters `path` and file name `file_name`.
fn pattern_match_decision(pattern: &str, path: &Vec<char>, file_name: Option<&str>) -> (r: bool)
    ensures
        r == pattern_matches(pattern@, path@, option_str(file_name)),
{
    let p = text_chars(pattern);
    // Check if pattern matches directory name
    if let Some(name) = file_name {
        let n = text_chars(name);
        if same_chars(&n, &p) {
            return true;
        }
    }
    // Check if pattern matches file extension
    if p.len() > 0 && p[0] == '*' && has_dot(&p) {
        let mut rest: Vec<char> = Vec::new();
        let mut i: usize = 1;
        while i < p.len()
            invariant
                1 <= i <= p@.len(),
                rest@ == p@.subrange(1, i as int),
            decreases p@.len() - i,
        {
            rest.push(p[i]);
            i = i + 1;
            assert(rest@ =~= p@.subrange(1, i as int));
        }
        assert(rest@ =~= p@.drop_first());
        if ends_with_chars(path, &rest) {
            return true;
        }
    }
    // Check if pattern matches exact path
    occurs(&p, path)
}

/// Whether `chars` holds a dot.
fn has_dot(chars: &Vec<char>) -> (r: bool)
    ensures
        r == chars@.contains('.'),
{
    let mut i: usize = 0;
    while i < chars.len()
        invariant
            i <= chars@.len(),
            forall|j: int| 0 <= j < i ==> chars@[j] != '.',
        decreases chars@.len() - i,
    {
        if chars[i] == '.' {
            assert(chars@[i as int] == '.');
            return true;
        }
        i = i + 1;
    }
    false
}

/// How a watched path is watched: a directory with everything below it, a file alone.
#[derive(Debug, Clone, Copy, PartialEq, Eq, Structural)]
pub enum WatchMode {
    Recursive,
    NonRecursive,
}

/// How a watched path is watched, given whether it is a directory and whether it is a file
/// on disk now: paths that are neither are not watched.
pub fn watch_mode(is_dir: bool, is_file: bool) -> (m: Option<WatchMode>)
    ensures
        m == (if is_dir {
            Some(WatchMode::Recursive)
        } else if is_file {
            Some(WatchMode::NonRecursive)
        } else {
            None
        }),
{
    if is_dir {
        Some(WatchMode::Recursive)
    } else if is_file {
        Some(WatchMode::NonRecursive)
    } else {
        None
    }
}

/// Adding ignore patterns never lets a path through that the earlier patterns ignored.
pub proof fn lemma_more_patterns_ignore_more(
    patterns: Seq<Seq<char>>,
    more: Seq<Seq<char>>,
    path: Seq<char>,
    file_name: Option<Seq<char>>,
)
    requires
        ignored_by(patterns, path, file_name),
    ensures
        ignored_by(patterns + more, path, file_name),
{
    let i = choose|i: int| 0 <= i < patterns.len() && pattern_matches(#[trigger] patterns[i], path, file_name);
    assert((patterns + more)[i] == patterns[i]);
}

/// With no extension filter every file is admitted, whatever its extension.
pub proof fn lemma_empty_filter_admits_all(ext: Option<Seq<char>>)
    ensures
        extension_admitted(Seq::empty(), ext),
{
}

/// A path that the watcher ignores is never processed, whatever its extension.
pub proof fn lemma_ignored_never_processed(w: FileWatcher, path: Seq<char>)
    requires
        w.ignores(path),
    ensures
        !w.accepts(path),
{
}

/// A pattern ignores every path whose file name it is, every path in which it occurs, and,
/// when it is `*` followed by a suffix holding a dot, every path that ends with that suffix.
pub proof fn lemma_pattern_ignores(pattern: Seq<char>, path: Seq<char>, file_name: Option<Seq<char>>)
    ensures
        file_name == Some(pattern) ==> pattern_matches(pattern, path, file_name),
        (exists|k: int|
            0 <= k && k + pattern.len() <= path.len() && #[trigger] path.subrange(
                k,
                k + pattern.len(),
            ) == pattern) ==> pattern_matches(pattern, path, file_name),
        pattern.len() > 0 && pattern[0] == '*' && pattern.drop_first().contains('.')
            && pattern.drop_first().len() <= path.len() && path.skip(
            path.len() - pattern.drop_first().len(),
        ) == pattern.drop_first() ==> pattern_matches(pattern, path, file_name),
{
    if pattern.len() > 0 && pattern.drop_first().contains('.') {
        let j = choose|j: int| 0 <= j < pattern.drop_first().len() && pattern.drop_first()[j] == '.';
        assert(pattern[j + 1] == '.');
    }
}

} // verus!
