//! Which paths below the working directory are left out of synchronisation.
//!
//! The patterns are globs, compiled and matched by the `globset` crate. A
//! fixed set of patterns is always active; the patterns of the settings are
//! added to it and cannot take anything out of it.
//!
//! What `globset` and `Path::strip_prefix` answer is named here, not
//! described. The names stand for the answers on the platform that the crate
//! is built for: path separators and escapes differ between Unix and
//! Windows.

use crate::text::{chars_of, is_blank, str_is_blank, string_of};
use vstd::prelude::*;
use vstd::string::StringExecFns;

verus! {

/// `globset::Glob`, a compiled pattern. Nothing is known of its inside.
#[verifier::external_type_specification]
#[verifier::external_body]
pub struct ExGlob(globset::Glob);

/// `globset::GlobSet`, a set of globs that are matched together. Nothing is
/// known of its inside.
#[verifier::external_type_specification]
#[verifier::external_body]
pub struct ExGlobSet(globset::GlobSet);

/// `globset::GlobSetBuilder`, which collects globs for a set. Nothing is
/// known of its inside.
#[verifier::external_type_specification]
#[verifier::external_body]
pub struct ExGlobSetBuilder(globset::GlobSetBuilder);

/// `globset::Error`, why a pattern is no glob or a set could not be built.
/// Nothing is known of its inside.
#[verifier::external_type_specification]
#[verifier::external_body]
pub struct ExGlobError(globset::Error);

/// Whether `globset` accepts `pattern` as a glob.
pub uninterp spec fn glob_is_valid(pattern: Seq<char>, literal_separator: bool) -> bool;

/// The pattern that a compiled glob was made from, and whether its wildcards
/// stop at path separators.
pub uninterp spec fn glob_source(glob: globset::Glob) -> (Seq<char>, bool);

/// The globs that were added to a builder, in order.
pub uninterp spec fn builder_globs(builder: globset::GlobSetBuilder) -> Seq<(Seq<char>, bool)>;

/// The globs that a set was built from, in order.
pub uninterp spec fn set_globs(set: globset::GlobSet) -> Seq<(Seq<char>, bool)>;

/// Whether `globset` can build one set from these globs.
pub uninterp spec fn set_builds(globs: Seq<(Seq<char>, bool)>) -> bool;

/// Whether a set that holds the glob reports `path` as matched by it.
pub uninterp spec fn glob_matches(
    pattern: Seq<char>,
    literal_separator: bool,
    path: Seq<char>,
) -> bool;

/// Whether `c` means something special in a glob.
pub open spec fn is_glob_meta(c: char) -> bool {
    c == '?' || c == '*' || c == '[' || c == '{' || c == '}' || c == '\\'
}

/// Whether `pattern` is free of characters that mean something special in a
/// glob, so that it stands for itself.
pub open spec fn is_plain(pattern: Seq<char>) -> bool {
    forall|i: int| 0 <= i < pattern.len() ==> !is_glob_meta(#[trigger] pattern[i])
}

/// Whether `pattern` is a plain, non-empty path followed by `/**`: all that
/// lies below that path.
pub open spec fn is_subtree(pattern: Seq<char>) -> bool {
    &&& pattern.len() > 3
    &&& pattern.skip(pattern.len() - 3) == seq!['/', '*', '*']
    &&& is_plain(pattern.take(pattern.len() - 3))
}

/// Whether `text` begins with `prefix`.
pub open spec fn starts_with(text: Seq<char>, prefix: Seq<char>) -> bool {
    prefix.len() <= text.len() && text.take(prefix.len() as int) == prefix
}

/// Whether the glob matches `path`, given what `globset` says. A plain
/// pattern matches itself and nothing else; a subtree pattern `dir/**`
/// matches what begins with `dir/`; for any other pattern `globset` decides.
pub open spec fn pattern_matches(pattern: Seq<char>, path: Seq<char>, by_globset: bool) -> bool {
    if is_plain(pattern) {
        path == pattern
    } else if is_subtree(pattern) {
        starts_with(path, pattern.take(pattern.len() - 2))
    } else {
        by_globset
    }
}

/// Whether one of the globs matches `path`.
pub open spec fn any_matches(globs: Seq<(Seq<char>, bool)>, path: Seq<char>) -> bool {
    exists|i: int|
        0 <= i < globs.len() && pattern_matches(
            (#[trigger] globs[i]).0,
            path,
            glob_matches(globs[i].0, globs[i].1, path),
        )
}

/// The patterns that are always active: the repository's own directory and
/// what lies below it, the repository's ignore file, and the files that
/// desktops leave behind. Their wildcards stop at path separators.
pub open spec fn builtin_globs() -> Seq<(Seq<char>, bool)> {
    seq![
        (".git"@, true),
        (".git/**"@, true),
        (".gitignore"@, true),
        ("**/.DS_Store"@, true),
        ("**/Thumbs.db"@, true),
    ]
}

/// `GlobBuilder::new(pattern).literal_separator(..).build()`: compiles one
/// glob. It succeeds exactly on the patterns that `globset` accepts, among
/// them every pattern without `[`, `{`, `}` and a backslash, and the glob it
/// returns remembers the pattern and the option.
#[verifier::external_body]
fn compile_glob(pattern: &str, literal_separator: bool) -> (r: Result<
    globset::Glob,
    globset::Error,
>)
    ensures
        r is Ok <==> glob_is_valid(pattern@, literal_separator),
        r matches Ok(glob) ==> glob_source(glob) == (pattern@, literal_separator),
        (forall|i: int|
            0 <= i < pattern@.len() ==> {
                let c = #[trigger] pattern@[i];
                c != '[' && c != '{' && c != '}' && c != '\\'
            }) ==> r is Ok,
{
    globset::GlobBuilder::new(pattern).literal_separator(literal_separator).build()
}

/// `GlobSetBuilder::new()`: a builder without globs.
#[verifier::external_body]
fn new_builder() -> (builder: globset::GlobSetBuilder)
    ensures
        builder_globs(builder) == Seq::<(Seq<char>, bool)>::empty(),
{
    globset::GlobSetBuilder::new()
}

/// `GlobSetBuilder::add`: appends the glob to the builder's globs.
#[verifier::external_body]
fn add_glob(builder: &mut globset::GlobSetBuilder, glob: globset::Glob)
    ensures
        builder_globs(*final(builder)) == builder_globs(*old(builder)).push(glob_source(glob)),
{
    builder.add(glob);
}

/// `GlobSetBuilder::build`: the set of the builder's globs. It succeeds
/// exactly where `globset` can build the set, which it can for the built-in
/// patterns alone.
#[verifier::external_body]
fn build_set(builder: &globset::GlobSetBuilder) -> (r: Result<globset::GlobSet, globset::Error>)
    ensures
        r is Ok <==> set_builds(builder_globs(*builder)),
        r matches Ok(set) ==> set_globs(set) == builder_globs(*builder),
        builder_globs(*builder) == builtin_globs() ==> r is Ok,
{
    builder.build()
}

/// `GlobSet::is_match`: whether any glob of the set matches the path. The
/// path is one that separates its components by `/` alone.
#[verifier::external_body]
fn set_is_match(set: &globset::GlobSet, path: &str) -> (r: bool)
    requires
        forall|i: int| 0 <= i < path@.len() ==> #[trigger] path@[i] != '\\',
    ensures
        r == (exists|i: int|
            0 <= i < set_globs(*set).len() && pattern_matches(
                (#[trigger] set_globs(*set)[i]).0,
                path@,
                glob_matches(set_globs(*set)[i].0, set_globs(*set)[i].1, path@),
            )),
{
    set.is_match(path)
}

/// `GlobSet::clone`: a set of the same globs.
#[verifier::external_body]
fn clone_set(set: &globset::GlobSet) -> (r: globset::GlobSet)
    ensures
        set_globs(r) == set_globs(*set),
{
    set.clone()
}

/// The text of a `globset` error (`Display`).
#[verifier::external_body]
fn error_text(error: &globset::Error) -> String {
    error.to_string()
}

/// The part of `path` below `root`, where `path` lies at or below `root`:
/// what `Path::strip_prefix` leaves.
pub uninterp spec fn path_below(root: Seq<char>, path: Seq<char>) -> Option<Seq<char>>;

/// `Path::strip_prefix`: `path` without the leading `root`, compared
/// component by component; `None` where `path` does not begin with `root`.
/// Of a path nothing is left when it is stripped of itself.
#[verifier::external_body]
fn strip_root(root: &str, path: &str) -> (r: Option<String>)
    ensures
        r.deep_view() == path_below(root@, path@),
        path@ == root@ ==> r.deep_view() == Some(Seq::<char>::empty()),
{
    match std::path::Path::new(path).strip_prefix(std::path::Path::new(root)) {
        Ok(rest) => rest.to_str().map(String::from),
        Err(_) => None,
    }
}

/// Why a matcher could not be made.
#[derive(Debug, Clone, PartialEq, Eq)]
pub enum IgnoreError {
    /// The pattern at `index` is no glob.
    Pattern { index: usize, pattern: String, reason: String },
    /// The patterns are globs, but no set could be built from them.
    Build { reason: String },
}

/// `path` with every backslash turned into a slash.
pub open spec fn with_slashes(path: Seq<char>) -> Seq<char> {
    path.map_values(
        |c: char|
            if c == '\\' {
                '/'
            } else {
                c
            },
    )
}

/// `path` with every backslash turned into a slash.
pub fn normalize_separators(path: &str) -> (r: String)
    ensures
        r@ == with_slashes(path@),
{
    let chars = chars_of(path);
    let mut out: Vec<char> = Vec::new();
    let mut i: usize = 0;
    while i < chars.len()
        invariant
            i <= chars.len(),
            out@ == with_slashes(chars@.take(i as int)),
        decreases chars.len() - i,
    {
        let c = chars[i];
        out.push(
            if c == '\\' {
                '/'
            } else {
                c
            },
        );
        assert(out@ =~= with_slashes(chars@.take(i + 1)));
        i += 1;
    }
    assert(chars@.take(chars.len() as int) == chars@);
    string_of(&out)
}

/// Whether a pattern of the settings counts: it is not blank.
pub open spec fn is_given(pattern: Seq<char>) -> bool {
    !is_blank(pattern)
}

/// The globs of the settings' patterns: the blank ones left out, and
/// wildcards free to cross path separators.
pub open spec fn user_globs(patterns: Seq<Seq<char>>) -> Seq<(Seq<char>, bool)>
    decreases patterns.len(),
{
    if patterns.len() == 0 {
        Seq::empty()
    } else if is_given(patterns.last()) {
        user_globs(patterns.drop_last()).push((patterns.last(), false))
    } else {
        user_globs(patterns.drop_last())
    }
}

/// Whether every pattern is blank.
pub open spec fn is_blank_pattern_list(patterns: Seq<Seq<char>>) -> bool {
    forall|i: int| 0 <= i < patterns.len() ==> is_blank(#[trigger] patterns[i])
}

/// Whether a pattern of the settings is refused: it is given and no glob.
pub open spec fn is_refused(pattern: Seq<char>) -> bool {
    is_given(pattern) && !glob_is_valid(pattern, false)
}

/// Whether a matcher can be made from the settings' patterns: none of them
/// is refused, and a set can be built from the built-in globs and theirs.
pub open spec fn can_build(patterns: Seq<Seq<char>>) -> bool {
    &&& forall|i: int| 0 <= i < patterns.len() ==> !is_refused(#[trigger] patterns[i])
    &&& set_builds(builtin_globs() + user_globs(patterns))
}

/// Whether `error` is the one that the patterns call for: the first refused
/// pattern with its index; or, where none is refused, the failure to build
/// the set.
pub open spec fn explains(error: IgnoreError, patterns: Seq<Seq<char>>) -> bool {
    match error {
        IgnoreError::Pattern { index, pattern, .. } => {
            &&& index < patterns.len()
            &&& pattern@ == patterns[index as int]
            &&& is_refused(pattern@)
            &&& forall|i: int| 0 <= i < index ==> !is_refused(#[trigger] patterns[i])
        },
        IgnoreError::Build { .. } => {
            &&& forall|i: int| 0 <= i < patterns.len() ==> !is_refused(#[trigger] patterns[i])
            &&& !set_builds(builtin_globs() + user_globs(patterns))
        },
    }
}

/// Whether `rel`, a path relative to the working directory, is the
/// repository's own directory or lies below it.
pub open spec fn in_repository_dir(rel: Seq<char>) -> bool {
    rel == ".git"@ || starts_with(rel, ".git/"@)
}

/// Decides which paths are left out of synchronisation.
pub struct IgnoreMatcher {
    root: String,
    set: globset::GlobSet,
}

impl Clone for IgnoreMatcher {
    /// A matcher for the same working directory with the same globs.
    fn clone(&self) -> (r: IgnoreMatcher)
        ensures
            r.root() == self.root(),
            r.globs() == self.globs(),
    {
        proof {
            use_type_invariant(self);
        }
        IgnoreMatcher { root: self.root.clone(), set: clone_set(&self.set) }
    }
}

impl IgnoreMatcher {
    /// The working directory.
    pub closed spec fn root(&self) -> Seq<char> {
        self.root@
    }

    /// The globs in force, the built-in ones first.
    pub closed spec fn globs(&self) -> Seq<(Seq<char>, bool)> {
        set_globs(self.set)
    }

    /// Whether `path` is left out: it lies below the working directory, is
    /// not the working directory itself and, with slashes for backslashes in
    /// its part below the working directory, matches one of the globs.
    pub open spec fn ignores(&self, path: Seq<char>) -> bool {
        match path_below(self.root(), path) {
            Some(rel) => rel.len() > 0 && any_matches(self.globs(), with_slashes(rel)),
            None => false,
        }
    }

    #[verifier::type_invariant]
    spec fn holds_builtin_globs(&self) -> bool {
        starts_with_builtin(set_globs(self.set))
    }

    /// A matcher for the working directory `root` with the built-in patterns
    /// and those of `patterns` that are not blank. It fails on the first
    /// pattern that is no glob, and where no set can be built from the globs.
    pub fn new(root: &str, patterns: &Vec<String>) -> (r: Result<IgnoreMatcher, IgnoreError>)
        ensures
            match r {
                Ok(matcher) => {
                    &&& matcher.root() == root@
                    &&& matcher.globs() == builtin_globs() + user_globs(patterns.deep_view())
                },
                Err(error) => explains(error, patterns.deep_view()),
            },
            r is Ok <==> can_build(patterns.deep_view()),
            is_blank_pattern_list(patterns.deep_view()) ==> r is Ok,
    {
        let mut builder = new_builder();
        proof {
            reveal_strlit(".git");
            reveal_strlit(".git/**");
            reveal_strlit(".gitignore");
            reveal_strlit("**/.DS_Store");
            reveal_strlit("**/Thumbs.db");
        }
        add_builtin(&mut builder, ".git");
        add_builtin(&mut builder, ".git/**");
        add_builtin(&mut builder, ".gitignore");
        add_builtin(&mut builder, "**/.DS_Store");
        add_builtin(&mut builder, "**/Thumbs.db");
        assert(builder_globs(builder) =~= builtin_globs());
        let ghost all = patterns.deep_view();
        let mut i: usize = 0;
        while i < patterns.len()
            invariant
                i <= patterns.len(),
                all == patterns.deep_view(),
                builder_globs(builder) == builtin_globs() + user_globs(all.take(i as int)),
                forall|j: int| 0 <= j < i ==> !is_refused(#[trigger] all[j]),
                is_blank_pattern_list(all) ==> user_globs(all.take(i as int)).len() == 0,
            decreases patterns.len() - i,
        {
            let pattern = &patterns[i];
            proof {
                assert(all.take(i + 1).drop_last() == all.take(i as int));
                assert(all.take(i + 1).last() == pattern@);
                assert(all[i as int] == pattern@);
            }
            if !str_is_blank(pattern.as_str()) {
                match compile_glob(pattern.as_str(), false) {
                    Ok(glob) => {
                        let ghost before = builder_globs(builder);
                        add_glob(&mut builder, glob);
                        assert(builder_globs(builder) =~= builtin_globs() + user_globs(
                            all.take(i + 1),
                        ));
                    },
                    Err(error) => {
                        assert(is_refused(all[i as int]));
                        return Err(
                            IgnoreError::Pattern {
                                index: i,
                                pattern: pattern.clone(),
                                reason: error_text(&error),
                            },
                        );
                    },
                }
            }
            i += 1;
        }
        assert(all.take(patterns.len() as int) == all);
        match build_set(&builder) {
            Ok(set) => {
                proof {
                    let globs = set_globs(set);
                    assert forall|k: int| 0 <= k < 5 implies globs[k] == builtin_globs()[k] by {}
                }
                Ok(IgnoreMatcher { root: String::from_str(root), set })
            },
            Err(error) => {
                proof {
                    if is_blank_pattern_list(all) {
                        assert(builder_globs(builder) =~= builtin_globs());
                    }
                }
                Err(IgnoreError::Build { reason: error_text(&error) })
            },
        }
    }

    /// Whether `rel`, a path relative to the working directory, is left out:
    /// it is not empty and, with slashes for backslashes, matches one of the
    /// globs. The repository's own directory and what lies below it is always
    /// left out.
    pub fn ignores_relative(&self, rel: &str) -> (r: bool)
        ensures
            r == (rel@.len() > 0 && any_matches(self.globs(), with_slashes(rel@))),
            in_repository_dir(rel@) ==> r,
    {
        proof {
            use_type_invariant(self);
            if in_repository_dir(rel@) {
                lemma_repository_dir_matches(set_globs(self.set), rel@);
            }
        }
        if rel.unicode_len() == 0 {
            return false;
        }
        let normalized = normalize_separators(rel);
        assert forall|i: int| 0 <= i < normalized@.len() implies #[trigger] normalized@[i]
            != '\\' by {}
        set_is_match(&self.set, normalized.as_str())
    }

    /// Whether `path` is left out of synchronisation. A path that does not
    /// lie below the working directory is not, and neither is the working
    /// directory itself.
    pub fn should_ignore(&self, path: &str) -> (r: bool)
        ensures
            r == self.ignores(path@),
            path_below(self.root(), path@) matches Some(rel) && in_repository_dir(rel) ==> r,
            path@ == self.root() ==> !r,
    {
        match strip_root(self.root.as_str(), path) {
            Some(rel) => self.ignores_relative(rel.as_str()),
            None => false,
        }
    }
}

/// Whether the globs begin with the built-in ones.
pub open spec fn starts_with_builtin(globs: Seq<(Seq<char>, bool)>) -> bool {
    globs.len() >= 5 && forall|k: int| 0 <= k < 5 ==> #[trigger] globs[k] == builtin_globs()[k]
}

/// Compiles a built-in pattern and adds it to the builder.
fn add_builtin(builder: &mut globset::GlobSetBuilder, pattern: &str)
    requires
        forall|i: int|
            0 <= i < pattern@.len() ==> {
                let c = #[trigger] pattern@[i];
                c != '[' && c != '{' && c != '}' && c != '\\'
            },
    ensures
        builder_globs(*final(builder)) == builder_globs(*old(builder)).push((pattern@, true)),
{
    match compile_glob(pattern, true) {
        Ok(glob) => {
            add_glob(builder, glob);
        },
        Err(_) => {},
    }
}

/// Globs that begin with the built-in ones match the repository's own
/// directory and all below it, whatever else they hold.
pub proof fn lemma_repository_dir_matches(globs: Seq<(Seq<char>, bool)>, rel: Seq<char>)
    requires
        starts_with_builtin(globs),
        in_repository_dir(rel),
    ensures
        rel.len() > 0,
        any_matches(globs, with_slashes(rel)),
{
    reveal_strlit(".git");
    reveal_strlit(".git/");
    reveal_strlit(".git/**");
    let path = with_slashes(rel);
    let dir = ".git"@;
    let below = ".git/**"@;
    assert(globs[0] == builtin_globs()[0]);
    assert(globs[1] == builtin_globs()[1]);
    if rel == dir {
        assert(path =~= dir);
        assert(is_plain(dir));
        assert(pattern_matches(globs[0].0, path, glob_matches(globs[0].0, globs[0].1, path)));
    } else {
        assert(rel.take(5) == ".git/"@);
        assert forall|i: int| 0 <= i < 5 implies path[i] == ".git/"@[i] by {
            assert(rel[i] == rel.take(5)[i]);
        }
        assert(!is_plain(below)) by {
            assert(is_glob_meta(below[5]));
        }
        assert(below.skip(4) =~= seq!['/', '*', '*']);
        assert(below.take(4) =~= dir);
        assert(is_subtree(below));
        assert(below.take(5) =~= ".git/"@);
        assert(path.take(5) =~= ".git/"@);
        assert(pattern_matches(globs[1].0, path, glob_matches(globs[1].0, globs[1].1, path)));
    }
}

} // verus!
