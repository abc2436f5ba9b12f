//! Project discovery: which scanned directory entries are buildable projects.
//!
//! An entry qualifies when it is a directory holding the build-manifest
//! marker file directly inside it.  The caller performs the directory scan
//! and hands the outcome over as plain values; an entry it could not inspect
//! is simply handed over as a non-qualifying one, so it is excluded rather
//! than aborting discovery.

use vstd::prelude::*;

verus! {

/// The last path segment of `path`: the characters after the final `/`, or
/// the whole string when it holds none.
pub open spec fn spec_last_segment(path: Seq<char>) -> Seq<char>
    decreases path.len(),
{
    if path.len() == 0 {
        Seq::empty()
    } else if path.last() == '/' {
        Seq::empty()
    } else {
        spec_last_segment(path.drop_last()).push(path.last())
    }
}

/// One entry of the scanned root directory, as plain values: its canonical
/// path, whether it is a directory, and the names of the files directly
/// inside it.
pub struct Entry {
    pub path: String,
    pub is_dir: bool,
    pub files: Vec<String>,
}

/// One buildable project: its name, derived from the final path segment, and
/// its canonical path.  Constructed once per discovered directory and reused
/// unchanged across all iterations of the run loop.
pub struct Project {
    pub name: String,
    pub path: String,
}

/// The spec-level value of a [`Project`].
pub ghost struct ProjectView {
    pub name: Seq<char>,
    pub path: Seq<char>,
}

impl View for Project {
    type V = ProjectView;

    open spec fn view(&self) -> ProjectView {
        ProjectView { name: self.name@, path: self.path@ }
    }
}

/// An entry qualifies when it is a directory with the build-manifest marker
/// file directly inside it.
pub open spec fn spec_eligible(e: Entry) -> bool {
    e.is_dir && exists|i: int| 0 <= i < e.files@.len() && e.files@[i]@ == "Cargo.toml"@
}

/// The projects discovery yields for the given entries, in entry order: one
/// per qualifying entry, named after its final path segment.
pub open spec fn spec_discover(entries: Seq<Entry>) -> Seq<ProjectView>
    decreases entries.len(),
{
    if entries.len() == 0 {
        Seq::empty()
    } else {
        spec_discover(entries.drop_last()) + if spec_eligible(entries.last()) {
            seq![
                ProjectView {
                    name: spec_last_segment(entries.last().path@),
                    path: entries.last().path@,
                },
            ]
        } else {
            Seq::empty()
        }
    }
}

proof fn lemma_last_segment(s: Seq<char>, cut: int)
    requires
        0 <= cut <= s.len(),
        forall|k: int| cut <= k < s.len() ==> s[k] != '/',
        cut > 0 ==> s[cut - 1] == '/',
    ensures
        spec_last_segment(s) == s.subrange(cut, s.len() as int),
    decreases s.len(),
{
    if s.len() == 0 {
        assert(spec_last_segment(s) =~= s.subrange(0, 0));
    } else if s.last() == '/' {
        assert(cut == s.len());
        assert(spec_last_segment(s) =~= s.subrange(cut, s.len() as int));
    } else {
        assert(cut < s.len());
        lemma_last_segment(s.drop_last(), cut);
        assert(spec_last_segment(s) =~= s.subrange(cut, s.len() as int));
    }
}

impl Project {
    /// Builds the project handle for a canonical directory path: the name is
    /// the final path segment.
    pub fn new(path: String) -> (p: Project)
        requires
            path@.len() > 0,
            path@.last() != '/',
        ensures
            p.path == path,
            p.name@ == spec_last_segment(path@),
    {
        let len = path.as_str().unicode_len();
        let mut cut: usize = 0;
        let mut i: usize = 0;
        while i < len
            invariant
                len == path@.len(),
                cut <= i <= len,
                forall|k: int| cut <= k < i ==> path@[k] != '/',
                cut > 0 ==> path@[cut - 1] == '/',
            decreases len - i,
        {
            if path.as_str().get_char(i) == '/' {
                cut = i + 1;
            }
            i = i + 1;
        }
        let name_str = path.as_str().substring_char(cut, len);
        let name = String::from_str(name_str);
        proof {
            lemma_last_segment(path@, cut as int);
        }
        Project { name, path }
    }
}

/// Whether `files` holds the build-manifest marker file name.
pub fn has_manifest_marker(files: &Vec<String>) -> (r: bool)
    ensures
        r == exists|i: int| 0 <= i < files@.len() && files@[i]@ == "Cargo.toml"@,
{
    let marker = String::from_str("Cargo.toml");
    let mut i: usize = 0;
    while i < files.len()
        invariant
            i <= files@.len(),
            marker@ == "Cargo.toml"@,
            forall|k: int| 0 <= k < i ==> files@[k]@ != "Cargo.toml"@,
        decreases files@.len() - i,
    {
        if files[i].eq(&marker) {
            return true;
        }
        i = i + 1;
    }
    false
}

/// Whether a scanned entry is a buildable project.
pub fn eligible(e: &Entry) -> (r: bool)
    ensures
        r == spec_eligible(*e),
{
    e.is_dir && has_manifest_marker(&e.files)
}

/// Retains exactly the qualifying entries, in entry order, as project
/// handles.  A root with no qualifying entries yields an empty list; the
/// engine treats that as a fatal precondition failure, not as "nothing to
/// do".
pub fn discover(entries: &Vec<Entry>) -> (r: Vec<Project>)
    requires
        forall|i: int|
            0 <= i < entries@.len() && spec_eligible(#[trigger] entries@[i]) ==> entries@[i].path@.len()
                > 0 && entries@[i].path@.last() != '/',
    ensures
        r@.map_values(|p: Project| p@) == spec_discover(entries@),
{
    let mut r: Vec<Project> = Vec::new();
    let mut i: usize = 0;
    while i < entries.len()
        invariant
            i <= entries@.len(),
            forall|k: int|
                0 <= k < entries@.len() && spec_eligible(#[trigger] entries@[k])
                    ==> entries@[k].path@.len() > 0 && entries@[k].path@.last() != '/',
            r@.map_values(|p: Project| p@) == spec_discover(entries@.take(i as int)),
        decreases entries@.len() - i,
    {
        if eligible(&entries[i]) {
            let p = Project::new(entries[i].path.clone());
            r.push(p);
        }
        proof {
            let taken = entries@.take(i + 1 as int);
            assert(taken.drop_last() =~= entries@.take(i as int));
            assert(taken.last() == entries@[i as int]);
            assert(r@.map_values(|p: Project| p@) =~= spec_discover(taken));
        }
        i = i + 1;
    }
    proof {
        assert(entries@.take(entries@.len() as int) =~= entries@);
    }
    r
}

} // verus!
