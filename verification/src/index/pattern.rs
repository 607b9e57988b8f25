//! Which paths are indexed: glob-style exclude patterns (run through the
//! `regex` crate), `.gitignore`/`.aceignore` rules (from the `ignore`
//! crate), and the recognized file names and extensions.

use ignore::gitignore::Gitignore;
use regex::Regex;
use vstd::prelude::*;

use crate::index::manager::string_views;
use crate::text::{chars_of, lines_of, push_all, push_str, skip_chars, split_lines, str_equal, string_from_chars, views};

verus! {

#[verifier::external_type_specification]
#[verifier::external_body]
pub struct ExRegex(Regex);

#[verifier::external_type_specification]
#[verifier::external_body]
pub struct ExGitignore(Gitignore);

/// Name for whether `regex::Regex::new` accepts `pattern`.
pub uninterp spec fn regex_compiles(pattern: Seq<char>) -> bool;

/// Name for whether the regular expression `pattern`, compiled by the
/// `regex` crate, matches somewhere in `haystack` (`Regex::is_match`).
pub uninterp spec fn regex_matches(pattern: Seq<char>, haystack: Seq<char>) -> bool;

/// A regular expression compiled by the `regex` crate, kept with its
/// source. Values are made only by `compile_regex`, so `regex` is always the
/// compilation of `source`.
pub struct CompiledRegex {
    source: String,
    regex: Regex,
}

impl CompiledRegex {
    /// The source the expression was compiled from.
    pub closed spec fn source_view(&self) -> Seq<char> {
        self.source@
    }
}

/// Calls `regex::Regex::new`. Claims that it succeeds exactly when
/// `pattern` is a valid expression (named `regex_compiles`) and that the
/// value returned carries `pattern` as its source.
#[verifier::external_body]
fn compile_regex(pattern: &str) -> (res: Option<CompiledRegex>)
    ensures
        res is Some <==> regex_compiles(pattern@),
        res matches Some(r) ==> r.source_view() == pattern@,
{
    match Regex::new(pattern) {
        Ok(regex) => Some(CompiledRegex { source: pattern.to_string(), regex }),
        Err(_) => None,
    }
}

/// Calls `regex::Regex::is_match`. Claims that the result is whether the
/// expression compiled from `r`'s source matches `haystack` (named
/// `regex_matches`).
#[verifier::external_body]
fn regex_is_match(r: &CompiledRegex, haystack: &str) -> (res: bool)
    ensures
        res == regex_matches(r.source_view(), haystack@),
{
    r.regex.is_match(haystack)
}

// ---------------------------------------------------------------------------
// Ignore rules (`.gitignore` and `.aceignore` at the project root)
// ---------------------------------------------------------------------------

/// Name for whether the matcher that `ignore::gitignore::GitignoreBuilder`
/// builds at `root` from the `.gitignore` lines and then the `.aceignore`
/// lines (a later line wins over an earlier one) ignores `path`, relative to
/// the root, as a directory or not (`Gitignore::matched`, `Match::is_ignore`).
/// Nothing is ignored when the matcher cannot be built.
pub uninterp spec fn ignore_verdict(
    root: Seq<char>,
    git_lines: Seq<Seq<char>>,
    ace_lines: Seq<Seq<char>>,
    path: Seq<char>,
    is_dir: bool,
) -> bool;

/// The ignore rules of a project: the root and the lines of its ignore
/// files, with the matcher built from them. Values are made only by
/// `IgnoreRules::new`, so the matcher is always the one built from the lines.
pub struct IgnoreRules {
    root: String,
    git_lines: Vec<String>,
    ace_lines: Vec<String>,
    matcher: Option<Gitignore>,
}

/// Calls `GitignoreBuilder::new(root)`, `add_line` for each `.gitignore`
/// line and then each `.aceignore` line (a line that is not a valid glob is
/// skipped), and `build`. Nothing is stated of the result: the matcher is
/// opaque; what it answers is stated by `ignore_matches`.
#[verifier::external_body]
fn build_matcher(root: &str, git_lines: &Vec<String>, ace_lines: &Vec<String>) -> (res: Option<Gitignore>) {
    let mut builder = ignore::gitignore::GitignoreBuilder::new(root);
    let root_path = std::path::Path::new(root);
    for line in git_lines {
        let _ = builder.add_line(Some(root_path.join(".gitignore")), line);
    }
    for line in ace_lines {
        let _ = builder.add_line(Some(root_path.join(".aceignore")), line);
    }
    builder.build().ok()
}

/// Calls `Gitignore::matched(path, is_dir)` and `Match::is_ignore` on the
/// rules' matcher (false when it could not be built). Claims that the answer
/// is the one named by `ignore_verdict` for the rules' root and lines.
#[verifier::external_body]
fn ignore_matches(rules: &IgnoreRules, path: &str, is_dir: bool) -> (res: bool)
    ensures
        res == ignore_verdict(rules.root_view(), rules.git_view(), rules.ace_view(), path@, is_dir),
{
    match &rules.matcher {
        Some(gi) => gi.matched(path, is_dir).is_ignore(),
        None => false,
    }
}

impl IgnoreRules {
    /// The project root the rules are relative to.
    pub closed spec fn root_view(&self) -> Seq<char> {
        self.root@
    }

    /// The `.gitignore` lines.
    pub closed spec fn git_view(&self) -> Seq<Seq<char>> {
        string_views(self.git_lines@)
    }

    /// The `.aceignore` lines.
    pub closed spec fn ace_view(&self) -> Seq<Seq<char>> {
        string_views(self.ace_lines@)
    }

    /// Builds the rules of the project at `root` from the lines of its
    /// `.gitignore` and `.aceignore` files (see `ignore_file_lines`).
    pub fn new(root: &str, git_lines: Vec<String>, ace_lines: Vec<String>) -> (res: Self)
        ensures
            res.root_view() == root@,
            res.git_view() == string_views(git_lines@),
            res.ace_view() == string_views(ace_lines@),
    {
        let matcher = build_matcher(root, &git_lines, &ace_lines);
        IgnoreRules { root: root.to_owned(), git_lines, ace_lines, matcher }
    }

    /// Whether the rules ignore `path` (relative to the root).
    pub fn ignores(&self, path: &str, is_dir: bool) -> (res: bool)
        ensures
            res == rules_ignore(*self, path@, is_dir),
    {
        ignore_matches(self, path, is_dir)
    }
}

/// Whether the rules ignore `path` (see `ignore_verdict`).
pub open spec fn rules_ignore(rules: IgnoreRules, path: Seq<char>, is_dir: bool) -> bool {
    ignore_verdict(rules.root_view(), rules.git_view(), rules.ace_view(), path, is_dir)
}

/// The lines of an ignore file as the file reader gives them: split at line
/// feeds (a carriage return before one removed, no line after a final one),
/// with leading byte-order marks removed from the first line.
pub open spec fn ignore_file_line_seq(content: Seq<char>) -> Seq<Seq<char>> {
    let ls = lines_of(content);
    if ls.len() == 0 {
        ls
    } else {
        ls.update(0, trim_start_char(ls[0], '\u{feff}'))
    }
}

/// `s` without leading occurrences of `c`.
pub open spec fn trim_start_char(s: Seq<char>, c: char) -> Seq<char>
    decreases s.len(),
{
    if s.len() > 0 && s[0] == c {
        trim_start_char(s.drop_first(), c)
    } else {
        s
    }
}

/// Splits the text of an ignore file into its lines.
pub fn ignore_file_lines(content: &str) -> (res: Vec<String>)
    ensures
        string_views(res@) == ignore_file_line_seq(content@),
{
    let lines = split_lines(content);
    let n = lines.len();
    let mut out: Vec<String> = Vec::new();
    let mut i: usize = 0;
    while i < n
        invariant
            n == lines@.len(),
            views(lines@) == lines_of(content@),
            i <= n,
            string_views(out@) == ignore_file_line_seq(content@).take(i as int),
        decreases n - i,
    {
        let line = if i == 0 {
            let mut k: usize = 0;
            let first = &lines[0];
            let m = first.len();
            assert(first@.skip(0) =~= first@);
            while k < m && first[k] == '\u{feff}'
                invariant
                    m == first@.len(),
                    k <= m,
                    trim_start_char(first@.skip(k as int), '\u{feff}') == trim_start_char(first@, '\u{feff}'),
                decreases m - k,
            {
                assert(first@.skip(k as int).drop_first() =~= first@.skip(k + 1));
                k = k + 1;
            }
            let rest = skip_chars(first, k);
            proof {
                if k < m {
                    assert(first@.skip(k as int)[0] == first@[k as int]);
                }
            }
            string_from_chars(&rest)
        } else {
            string_from_chars(&lines[i])
        };
        let ghost before = out@;
        out.push(line);
        i = i + 1;
        proof {
            assert(string_views(out@) =~= string_views(before).push(line@));
            assert(ignore_file_line_seq(content@).take(i as int) =~= ignore_file_line_seq(content@).take(i - 1).push(
                ignore_file_line_seq(content@)[i - 1],
            ));
        }
    }
    assert(ignore_file_line_seq(content@).take(n as int) =~= ignore_file_line_seq(content@));
    out
}

/// The regular expression for a glob pattern: `.` escaped, `*` as `.*`,
/// `?` as `.`, other characters as they are.
pub open spec fn glob_body(p: Seq<char>) -> Seq<char>
    decreases p.len(),
{
    if p.len() == 0 {
        Seq::empty()
    } else {
        let c = p.last();
        let piece = if c == '.' {
            seq!['\\', '.']
        } else if c == '*' {
            seq!['.', '*']
        } else if c == '?' {
            seq!['.']
        } else {
            seq![c]
        };
        glob_body(p.drop_last()) + piece
    }
}

/// The anchored regular expression for a glob pattern.
pub open spec fn glob_regex(p: Seq<char>) -> Seq<char> {
    seq!['^'] + glob_body(p) + seq!['$']
}

/// Translates a glob pattern into its anchored regular expression.
pub fn glob_to_regex(pattern: &str) -> (res: String)
    ensures
        res@ == glob_regex(pattern@),
{
    let mut out: Vec<char> = Vec::new();
    out.push('^');
    let p = chars_of(pattern);
    let n = p.len();
    let mut i: usize = 0;
    while i < n
        invariant
            n == p@.len(),
            i <= n,
            out@ == seq!['^'] + glob_body(p@.take(i as int)),
        decreases n - i,
    {
        let c = p[i];
        let ghost before = out@;
        if c == '.' {
            out.push('\\');
            out.push('.');
        } else if c == '*' {
            out.push('.');
            out.push('*');
        } else if c == '?' {
            out.push('.');
        } else {
            out.push(c);
        }
        i = i + 1;
        proof {
            assert(p@.take(i as int).drop_last() =~= p@.take(i - 1));
            assert(out@ =~= seq!['^'] + glob_body(p@.take(i as int)));
        }
    }
    out.push('$');
    assert(p@.take(n as int) =~= p@);
    string_from_chars(&out)
}

/// Whether `s` matches the glob `pattern` (false when its expression does
/// not compile).
pub open spec fn glob_matches(s: Seq<char>, pattern: Seq<char>) -> bool {
    regex_compiles(glob_regex(pattern)) && regex_matches(glob_regex(pattern), s)
}

/// Tests `s` against a glob pattern with `*` and `?`.
pub fn match_glob(s: &str, pattern: &str) -> (res: bool)
    ensures
        res == glob_matches(s@, pattern@),
{
    let source = glob_to_regex(pattern);
    match compile_regex(source.as_str()) {
        Some(r) => regex_is_match(&r, s),
        None => false,
    }
}

/// An exclude pattern with its compiled expression, when it compiles.
pub struct ExcludePattern {
    pattern: String,
    regex: Option<CompiledRegex>,
}

/// Plain values of an exclude pattern: the pattern, and whether its
/// expression compiled.
pub struct ExcludePatternView {
    pub pattern: Seq<char>,
    pub compiled: bool,
}

impl View for ExcludePattern {
    type V = ExcludePatternView;

    closed spec fn view(&self) -> ExcludePatternView {
        ExcludePatternView { pattern: self.pattern@, compiled: self.regex is Some }
    }
}

impl ExcludePattern {
    #[verifier::type_invariant]
    spec fn compiled_from_pattern(&self) -> bool {
        &&& (self.regex is Some <==> regex_compiles(glob_regex(self.pattern@)))
        &&& (self.regex matches Some(r) ==> r.source_view() == glob_regex(self.pattern@))
    }

    /// Compiles a glob exclude pattern.
    pub fn compile(pattern: &str) -> (res: Self)
        ensures
            res@.pattern == pattern@,
            res@.compiled == regex_compiles(glob_regex(pattern@)),
    {
        let source = glob_to_regex(pattern);
        let regex = compile_regex(source.as_str());
        ExcludePattern { pattern: pattern.to_owned(), regex }
    }

    /// Whether this pattern excludes a path with the given components.
    fn hits(&self, parts: &Vec<String>, path: &str) -> (res: bool)
        ensures
            res == pattern_hits(self@, string_views(parts@), path@),
    {
        proof {
            use_type_invariant(self);
        }
        let n = parts.len();
        let mut i: usize = 0;
        while i < n
            invariant
                n == parts@.len(),
                i <= n,
                forall|j: int| 0 <= j < i ==> !part_hit(self@, #[trigger] string_views(parts@)[j]),
                self.regex matches Some(r) ==> r.source_view() == glob_regex(self.pattern@),
                (self.regex is Some <==> regex_compiles(glob_regex(self.pattern@))),
            decreases n - i,
        {
            let part = parts[i].as_str();
            let hit = match &self.regex {
                Some(r) => regex_is_match(r, part),
                None => str_equal(part, self.pattern.as_str()),
            };
            assert(string_views(parts@)[i as int] == parts@[i as int]@);
            if hit {
                return true;
            }
            i = i + 1;
        }
        match &self.regex {
            Some(r) => regex_is_match(r, path),
            None => str_equal(path, self.pattern.as_str()),
        }
    }
}

/// Pattern `p` excludes the single component or path `s`.
pub open spec fn part_hit(p: ExcludePatternView, s: Seq<char>) -> bool {
    if p.compiled {
        regex_matches(glob_regex(p.pattern), s)
    } else {
        s == p.pattern
    }
}

/// Pattern `p` excludes a path: one of its components, or the whole path,
/// is hit.
pub open spec fn pattern_hits(p: ExcludePatternView, parts: Seq<Seq<char>>, path: Seq<char>) -> bool {
    (exists|j: int| 0 <= j < parts.len() && part_hit(p, #[trigger] parts[j])) || part_hit(p, path)
}

/// The `/`-separated components of a path, empty ones included (as `str::split('/')`).
pub open spec fn split_slash(s: Seq<char>) -> Seq<Seq<char>>
    decreases s.len(),
{
    if s.len() == 0 {
        seq![Seq::empty()]
    } else {
        let prev = split_slash(s.drop_last());
        if s.last() == '/' {
            prev.push(Seq::empty())
        } else {
            prev.update(prev.len() - 1, prev.last().push(s.last()))
        }
    }
}

proof fn lemma_split_slash_nonempty(s: Seq<char>)
    ensures
        split_slash(s).len() > 0,
    decreases s.len(),
{
    if s.len() > 0 {
        lemma_split_slash_nonempty(s.drop_last());
    }
}

proof fn lemma_split_slash_no_slash_suffix(dir: Seq<char>, name: Seq<char>)
    requires
        forall|i: int| 0 <= i < name.len() ==> name[i] != '/',
    ensures
        split_slash(dir + seq!['/'] + name).len() > 0,
        split_slash(dir + seq!['/'] + name).last() == name,
    decreases name.len(),
{
    let s = dir + seq!['/'] + name;
    if name.len() == 0 {
        assert(s =~= dir.push('/'));
        assert(s.drop_last() =~= dir);
    } else {
        let shorter = name.drop_last();
        lemma_split_slash_no_slash_suffix(dir, shorter);
        assert(s.drop_last() =~= dir + seq!['/'] + shorter);
        assert(s.last() == name.last());
        assert(shorter.push(name.last()) =~= name);
    }
}

proof fn lemma_split_slash_no_slash(name: Seq<char>)
    requires
        forall|i: int| 0 <= i < name.len() ==> name[i] != '/',
    ensures
        split_slash(name) == seq![name],
    decreases name.len(),
{
    if name.len() == 0 {
        assert(name =~= Seq::<char>::empty());
    } else {
        lemma_split_slash_no_slash(name.drop_last());
        assert(name.drop_last().push(name.last()) =~= name);
        assert(seq![name.drop_last()].update(0, name.drop_last().push(name.last())) =~= seq![name]);
    }
}

/// A pattern that hits any component of a path, the file name included,
/// excludes the path.
pub proof fn law_component_hit_excludes(patterns: Seq<ExcludePatternView>, i: int, path: Seq<char>, j: int)
    requires
        0 <= i < patterns.len(),
        0 <= j < split_slash(path).len(),
        part_hit(patterns[i], split_slash(path)[j]),
    ensures
        excluded_by_patterns(patterns, path),
{
    assert(pattern_hits(patterns[i], split_slash(path), path));
}

/// A pattern that hits the whole path excludes it.
pub proof fn law_whole_path_hit_excludes(patterns: Seq<ExcludePatternView>, i: int, path: Seq<char>)
    requires
        0 <= i < patterns.len(),
        part_hit(patterns[i], path),
    ensures
        excluded_by_patterns(patterns, path),
{
    assert(pattern_hits(patterns[i], split_slash(path), path));
}

/// The file name of `dir/name` is its last component, so a pattern that
/// hits the file name excludes the file wherever it stands; a path with no
/// `/` is its only component.
pub proof fn law_file_name_hit_excludes(patterns: Seq<ExcludePatternView>, i: int, dir: Seq<char>, name: Seq<char>)
    requires
        0 <= i < patterns.len(),
        forall|k: int| 0 <= k < name.len() ==> name[k] != '/',
        part_hit(patterns[i], name),
    ensures
        excluded_by_patterns(patterns, dir + seq!['/'] + name),
        excluded_by_patterns(patterns, name),
        split_slash(name) == seq![name],
{
    let path = dir + seq!['/'] + name;
    lemma_split_slash_no_slash_suffix(dir, name);
    let parts = split_slash(path);
    law_component_hit_excludes(patterns, i, path, parts.len() - 1);
    lemma_split_slash_no_slash(name);
    law_component_hit_excludes(patterns, i, name, 0);
}

/// Splits a path into its `/`-separated components.
pub fn path_components(path: &str) -> (res: Vec<String>)
    ensures
        string_views(res@) == split_slash(path@),
{
    let mut done: Vec<String> = Vec::new();
    let mut cur: Vec<char> = Vec::new();
    for c in it: path.chars()
        invariant
            it.seq() == path@,
            string_views(done@).push(cur@) == split_slash(it.seq().take(it.index() as int)),
    {
        let ghost k = it.index() as int;
        proof {
            assert(it.seq().take(k + 1).drop_last() =~= it.seq().take(k));
            lemma_split_slash_nonempty(it.seq().take(k));
        }
        if c == '/' {
            let ghost before = string_views(done@);
            let ghost cv = cur@;
            done.push(string_from_chars(&cur));
            cur = Vec::new();
            assert(string_views(done@) =~= before.push(cv));
            assert(string_views(done@).push(cur@) =~= before.push(cv).push(Seq::empty()));
        } else {
            let ghost before = string_views(done@);
            let ghost cv = cur@;
            cur.push(c);
            assert(before.push(cv).update(before.len() as int, cv.push(c)) =~= before.push(cur@));
        }
    }
    assert(path@.take(path@.len() as int) =~= path@);
    let ghost before = string_views(done@);
    let ghost cv = cur@;
    done.push(string_from_chars(&cur));
    assert(string_views(done@) =~= before.push(cv));
    done
}

/// Some pattern excludes the path.
pub open spec fn excluded_by_patterns(patterns: Seq<ExcludePatternView>, path: Seq<char>) -> bool {
    exists|i: int| 0 <= i < patterns.len() && pattern_hits(#[trigger] patterns[i], split_slash(path), path)
}

/// Plain values of a sequence of exclude patterns.
pub open spec fn pattern_views(v: Seq<ExcludePattern>) -> Seq<ExcludePatternView> {
    v.map_values(|p: ExcludePattern| p@)
}

/// Whether some exclude pattern hits the relative path (normalized, `/`-separated).
pub fn matches_exclude_patterns(path: &str, patterns: &Vec<ExcludePattern>) -> (res: bool)
    ensures
        res == excluded_by_patterns(pattern_views(patterns@), path@),
{
    let parts = path_components(path);
    let n = patterns.len();
    let mut i: usize = 0;
    while i < n
        invariant
            n == patterns@.len(),
            i <= n,
            string_views(parts@) == split_slash(path@),
            forall|j: int| 0 <= j < i ==> !pattern_hits(#[trigger] pattern_views(patterns@)[j], split_slash(path@), path@),
        decreases n - i,
    {
        if patterns[i].hits(&parts, path) {
            assert(pattern_hits(pattern_views(patterns@)[i as int], split_slash(path@), path@));
            return true;
        }
        i = i + 1;
    }
    false
}

/// Whether a walked path is excluded, given its path relative to the
/// project root (none when the root is not a prefix) and whether the
/// ignore files ignore it: it is when there is no relative path, when it is
/// ignored, or when an exclude pattern hits it.
pub fn exclusion_verdict(relative: Option<&str>, ignored: bool, patterns: &Vec<ExcludePattern>) -> (res: bool)
    ensures
        res == match relative {
            None => true,
            Some(p) => ignored || excluded_by_patterns(pattern_views(patterns@), p@),
        },
{
    match relative {
        None => true,
        Some(p) => {
            if ignored {
                return true;
            }
            matches_exclude_patterns(p, patterns)
        },
    }
}

/// Decides whether a walked path is excluded: paths outside the project
/// root are (fail-closed); otherwise the ignore rules, when present, are
/// consulted, then the exclude patterns.
pub fn should_exclude_standalone(
    relative: Option<&str>,
    is_dir: bool,
    rules: Option<&IgnoreRules>,
    patterns: &Vec<ExcludePattern>,
) -> (res: bool)
    ensures
        res == match relative {
            None => true,
            Some(p) => (rules matches Some(r) && rules_ignore(*r, p@, is_dir)) || excluded_by_patterns(
                pattern_views(patterns@),
                p@,
            ),
        },
{
    let ignored = match (relative, rules) {
        (Some(p), Some(r)) => r.ignores(p, is_dir),
        _ => false,
    };
    exclusion_verdict(relative, ignored, patterns)
}

/// Name for `str::to_lowercase` (Unicode lowercase mapping) of `s`.
pub uninterp spec fn lowercase(s: Seq<char>) -> Seq<char>;

/// Calls `str::to_lowercase`; claims the result is the lowercase mapping of
/// `s` (named `lowercase`).
#[verifier::external_body]
fn to_lowercase(s: &str) -> (res: String)
    ensures
        res@ == lowercase(s@),
{
    s.to_lowercase()
}

/// Whether the list holds the string.
pub fn contains_string(list: &Vec<String>, s: &str) -> (res: bool)
    ensures
        res == string_views(list@).contains(s@),
{
    let n = list.len();
    let mut i: usize = 0;
    while i < n
        invariant
            n == list@.len(),
            i <= n,
            forall|j: int| 0 <= j < i ==> string_views(list@)[j] != s@,
        decreases n - i,
    {
        if str_equal(list[i].as_str(), s) {
            assert(string_views(list@)[i as int] == s@);
            return true;
        }
        i = i + 1;
    }
    false
}

/// A file is indexed when its name is a known text file name, or it has an
/// extension whose lowercase form, with a leading dot, is a known text
/// extension.
pub open spec fn indexable(
    file_name: Seq<char>,
    extension: Option<Seq<char>>,
    text_extensions: Seq<Seq<char>>,
    text_filenames: Seq<Seq<char>>,
) -> bool {
    text_filenames.contains(file_name) || match extension {
        Some(e) => text_extensions.contains(seq!['.'] + lowercase(e)),
        None => false,
    }
}

/// Decides whether a file is indexed from its file name (empty when it has
/// none) and its extension (none when it has none).
pub fn is_indexable_file_standalone(
    file_name: &str,
    extension: Option<&str>,
    text_extensions: &Vec<String>,
    text_filenames: &Vec<String>,
) -> (res: bool)
    ensures
        res == indexable(
            file_name@,
            match extension {
                Some(e) => Some(e@),
                None => None,
            },
            string_views(text_extensions@),
            string_views(text_filenames@),
        ),
{
    if contains_string(text_filenames, file_name) {
        return true;
    }
    match extension {
        Some(e) => {
            let lower = to_lowercase(e);
            let mut ext: Vec<char> = Vec::new();
            ext.push('.');
            let lc = chars_of(lower.as_str());
            push_all(&mut ext, &lc);
            let ext_s = string_from_chars(&ext);
            contains_string(text_extensions, ext_s.as_str())
        },
        None => false,
    }
}

} // verus!
