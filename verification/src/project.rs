//! Project root detection logic: which marker files make a directory a
//! project root, and the project name derived from a root path.
//!
//! Reading the file system is a collaborator's job; these functions decide
//! over a directory listing handed to them as plain values.

use vstd::prelude::*;
use crate::context::has_entry;

verus! {

/// The recognized project markers, in canonical order.
pub open spec fn spec_marker_list() -> Seq<Seq<char>> {
    seq![
        ".git"@,
        "Cargo.toml"@,
        "package.json"@,
        "go.mod"@,
        "pom.xml"@,
        "build.gradle"@,
        "requirements.txt"@,
        "Gemfile"@,
        "composer.json"@,
        ".project"@,
    ]
}

/// The members of `markers` that occur among the directory entries, in
/// order.
pub open spec fn markers_present(markers: Seq<Seq<char>>, entries: Seq<Seq<char>>) -> Seq<
    Seq<char>,
>
    decreases markers.len(),
{
    if markers.len() == 0 {
        Seq::empty()
    } else {
        markers_present(markers.drop_last(), entries) + if entries.contains(markers.last()) {
            seq![markers.last()]
        } else {
            Seq::empty()
        }
    }
}

/// The markers present among the directory entries, in canonical marker
/// order.
pub open spec fn spec_markers_in(entries: Seq<Seq<char>>) -> Seq<Seq<char>> {
    markers_present(spec_marker_list(), entries)
}

/// `s` with any trailing path separators removed.
pub open spec fn spec_strip_trailing_slashes(s: Seq<char>) -> Seq<char>
    decreases s.len(),
{
    if s.len() > 0 && s.last() == '/' {
        spec_strip_trailing_slashes(s.drop_last())
    } else {
        s
    }
}

/// The maximal suffix of `s` without a path separator: the last path
/// component, once trailing separators are gone.
pub open spec fn spec_after_last_slash(s: Seq<char>) -> Seq<char>
    decreases s.len(),
{
    if s.len() == 0 {
        Seq::empty()
    } else if s.last() == '/' {
        Seq::empty()
    } else {
        spec_after_last_slash(s.drop_last()).push(s.last())
    }
}

/// The project name of a root path: its last path component, ignoring
/// trailing separators; `None` when nothing is left (the filesystem root).
/// The path is treated as plain text.
pub open spec fn spec_project_name(s: Seq<char>) -> Option<Seq<char>> {
    let name = spec_after_last_slash(spec_strip_trailing_slashes(s));
    if name.len() == 0 {
        None
    } else {
        Some(name)
    }
}

/// When everything from index `e` on is a separator and the character before
/// `e` (if any) is not, stripping trailing separators keeps the prefix up to
/// `e`.
proof fn lemma_strip_trailing_at(s: Seq<char>, e: int)
    requires
        0 <= e <= s.len(),
        forall|j: int| e <= j < s.len() ==> s[j] == '/',
        e == 0 || s[e - 1] != '/',
    ensures
        spec_strip_trailing_slashes(s) == s.subrange(0, e),
    decreases s.len(),
{
    if e == s.len() {
        assert(spec_strip_trailing_slashes(s) =~= s.subrange(0, e));
    } else {
        lemma_strip_trailing_at(s.drop_last(), e);
        assert(s.drop_last().subrange(0, e) =~= s.subrange(0, e));
    }
}

/// When nothing from index `b` on is a separator and the character before
/// `b` (if any) is one, the last component is the suffix from `b` on.
proof fn lemma_after_last_at(s: Seq<char>, b: int)
    requires
        0 <= b <= s.len(),
        forall|j: int| b <= j < s.len() ==> s[j] != '/',
        b == 0 || s[b - 1] == '/',
    ensures
        spec_after_last_slash(s) == s.subrange(b, s.len() as int),
    decreases s.len(),
{
    if b == s.len() {
        assert(spec_after_last_slash(s) =~= s.subrange(b, s.len() as int));
    } else {
        lemma_after_last_at(s.drop_last(), b);
        assert(spec_after_last_slash(s) =~= s.drop_last().subrange(
            b,
            s.drop_last().len() as int,
        ).push(s.last()));
        assert(s.drop_last().subrange(b, s.drop_last().len() as int).push(s.last()) =~= s.subrange(
            b,
            s.len() as int,
        ));
    }
}

/// Does the listing carry any of the recognized project markers?
pub open spec fn spec_has_marker(entries: Seq<Seq<char>>) -> bool {
    ||| entries.contains(".git"@)
    ||| entries.contains("Cargo.toml"@)
    ||| entries.contains("package.json"@)
    ||| entries.contains("go.mod"@)
    ||| entries.contains("pom.xml"@)
    ||| entries.contains("build.gradle"@)
    ||| entries.contains("requirements.txt"@)
    ||| entries.contains("Gemfile"@)
    ||| entries.contains("composer.json"@)
    ||| entries.contains(".project"@)
}

/// Decides whether a directory is a project root and what its markers and
/// name are, over a directory listing handed in as plain values.
pub struct ProjectDetector;

impl ProjectDetector {
    /// Does the directory listing carry any project marker?
    pub fn is_in_project(entries: &Vec<String>) -> (r: bool)
        ensures
            r == spec_has_marker(entries.deep_view()),
    {
        has_entry(entries, ".git") || has_entry(entries, "Cargo.toml") || has_entry(
            entries,
            "package.json",
        ) || has_entry(entries, "go.mod") || has_entry(entries, "pom.xml") || has_entry(
            entries,
            "build.gradle",
        ) || has_entry(entries, "requirements.txt") || has_entry(entries, "Gemfile") || has_entry(
            entries,
            "composer.json",
        ) || has_entry(entries, ".project")
    }

    /// The directory's last path component, as the project name; `None` for
    /// the filesystem root.
    pub fn get_project_name(project_root: &str) -> (r: Option<String>)
        ensures
            match r {
                Some(name) => spec_project_name(project_root@) == Some(name@),
                None => spec_project_name(project_root@) is None,
            },
    {
        let n: usize = project_root.unicode_len();
        let mut e: usize = n;
        while e > 0 && project_root.get_char(e - 1) == '/'
            invariant
                n == project_root@.len(),
                0 <= e <= n,
                forall|j: int| e <= j < n ==> project_root@[j] == '/',
            decreases e,
        {
            e -= 1;
        }
        let mut b: usize = e;
        while b > 0 && project_root.get_char(b - 1) != '/'
            invariant
                n == project_root@.len(),
                0 <= b <= e <= n,
                forall|j: int| e <= j < n ==> project_root@[j] == '/',
                forall|j: int| b <= j < e ==> project_root@[j] != '/',
            decreases b,
        {
            b -= 1;
        }
        proof {
            lemma_strip_trailing_at(project_root@, e as int);
            let stripped = project_root@.subrange(0, e as int);
            lemma_after_last_at(stripped, b as int);
            assert(stripped.subrange(b as int, stripped.len() as int) =~= project_root@.subrange(
                b as int,
                e as int,
            ));
        }
        if b == e {
            None
        } else {
            let name = project_root.substring_char(b, e);
            Some(name.to_owned())
        }
    }

    /// Does the directory listing contain a git repository marker?
    pub fn is_git_repo(entries: &Vec<String>) -> (r: bool)
        ensures
            r == entries.deep_view().contains(".git"@),
    {
        has_entry(entries, ".git")
    }

    /// The names of the recognized project markers, in canonical order.
    pub fn marker_names() -> (r: Vec<String>)
        ensures
            r.deep_view() == spec_marker_list(),
    {
        let mut r: Vec<String> = Vec::new();
        r.push(".git".to_owned());
        r.push("Cargo.toml".to_owned());
        r.push("package.json".to_owned());
        r.push("go.mod".to_owned());
        r.push("pom.xml".to_owned());
        r.push("build.gradle".to_owned());
        r.push("requirements.txt".to_owned());
        r.push("Gemfile".to_owned());
        r.push("composer.json".to_owned());
        r.push(".project".to_owned());
        proof {
            assert(r.deep_view() =~= spec_marker_list());
        }
        r
    }

    /// The project markers present among the directory entries, in canonical
    /// marker order.
    pub fn get_markers(entries: &Vec<String>) -> (r: Vec<String>)
        ensures
            r.deep_view() == spec_markers_in(entries.deep_view()),
    {
        let names = Self::marker_names();
        let ghost edv = entries.deep_view();
        let mut r: Vec<String> = Vec::new();
        let mut i: usize = 0;
        while i < names.len()
            invariant
                edv == entries.deep_view(),
                names.deep_view() == spec_marker_list(),
                names@.len() == spec_marker_list().len(),
                0 <= i <= names@.len(),
                r.deep_view() == markers_present(spec_marker_list().subrange(0, i as int), edv),
            decreases names@.len() - i,
        {
            proof {
                assert(spec_marker_list().subrange(0, i + 1).drop_last() =~= spec_marker_list()
                    .subrange(0, i as int));
                assert(spec_marker_list().subrange(0, i + 1).last() == names.deep_view()[i as int]);
            }
            if has_entry(entries, names[i].as_str()) {
                r.push(names[i].clone());
                proof {
                    assert(r.deep_view() =~= markers_present(
                        spec_marker_list().subrange(0, i + 1),
                        edv,
                    ));
                }
            } else {
                proof {
                    assert(r.deep_view() =~= markers_present(
                        spec_marker_list().subrange(0, i + 1),
                        edv,
                    ));
                }
            }
            i += 1;
        }
        proof {
            assert(spec_marker_list().subrange(0, spec_marker_list().len() as int)
                =~= spec_marker_list());
        }
        r
    }
}

} // verus!
