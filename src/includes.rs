use vstd::prelude::*;

use crate::config::ShaderError;
use crate::text::chars_of;

verus! {

/// How an inclusion directive names its file: quoted (`"a.glsl"`), which is looked for
/// beside the including file first, or angled (`<a.glsl>`), which is not.
#[derive(Clone, Copy, Debug, PartialEq, Eq, Structural)]
pub enum IncludeKind {
    Relative,
    Standard,
}

/// The character sequences of a sequence of strings.
pub open spec fn views(v: Seq<String>) -> Seq<Seq<char>> {
    v.map_values(|s: String| s@)
}

/// The view of an optional string.
pub open spec fn opt_view(o: Option<&str>) -> Option<Seq<char>> {
    match o {
        Some(s) => Some(s@),
        None => None,
    }
}

/// `name` inside directory `dir`; an empty directory adds nothing.
pub open spec fn join_path(dir: Seq<char>, name: Seq<char>) -> Seq<char> {
    if dir.len() == 0 {
        name
    } else {
        dir + seq!['/'] + name
    }
}

/// A path that starts at the root of the file system.
pub open spec fn is_absolute(name: Seq<char>) -> bool {
    name.len() > 0 && name[0] == '/'
}

/// The paths a requested file is looked for at, in order: an absolute name
/// only as it stands; otherwise beside the including file for a quoted
/// request, then in each search directory as given.
pub open spec fn include_candidates(
    name: Seq<char>,
    kind: IncludeKind,
    current_dir: Option<Seq<char>>,
    dirs: Seq<Seq<char>>,
) -> Seq<Seq<char>> {
    if is_absolute(name) {
        seq![name]
    } else {
        searched_candidates(name, kind, current_dir, dirs)
    }
}

/// The search locations of a relative name, in order.
pub open spec fn searched_candidates(
    name: Seq<char>,
    kind: IncludeKind,
    current_dir: Option<Seq<char>>,
    dirs: Seq<Seq<char>>,
) -> Seq<Seq<char>> {
    let own: Seq<Seq<char>> = match (kind, current_dir) {
        (IncludeKind::Relative, Some(d)) => seq![join_path(d, name)],
        _ => Seq::empty(),
    };
    own + dirs.map_values(|d: Seq<char>| join_path(d, name))
}

/// `i` is the first position of `cands` that names a present file.
pub open spec fn is_first_present(cands: Seq<Seq<char>>, present: Seq<Seq<char>>, i: int) -> bool {
    &&& 0 <= i < cands.len()
    &&& present.contains(cands[i])
    &&& forall|j: int| 0 <= j < i ==> !present.contains(cands[j])
}

/// The first candidate that names a present file: the first match wins.
pub open spec fn first_present(cands: Seq<Seq<char>>, present: Seq<Seq<char>>) -> Option<
    Seq<char>,
> {
    if exists|i: int| is_first_present(cands, present, i) {
        let i = choose|i: int| is_first_present(cands, present, i);
        Some(cands[i])
    } else {
        None
    }
}

/// A path list with `p` added at the end unless it is already listed.
pub open spec fn record(deps: Seq<Seq<char>>, p: Seq<char>) -> Seq<Seq<char>> {
    if deps.contains(p) {
        deps
    } else {
        deps.push(p)
    }
}

/// `deps` with each of `ps` recorded in turn.
pub open spec fn record_all(deps: Seq<Seq<char>>, ps: Seq<Seq<char>>) -> Seq<Seq<char>>
    decreases ps.len(),
{
    if ps.len() == 0 {
        deps
    } else {
        record(record_all(deps, ps.drop_last()), ps.last())
    }
}

fn join(dir: &str, name: &str) -> (r: String)
    ensures
        r@ == join_path(dir@, name@),
{
    if dir.is_empty() {
        return name.to_owned();
    }
    let mut s = dir.to_owned();
    s.append("/");
    s.append(name);
    proof {
        reveal_strlit("/");
    }
    s
}

/// Whether `v` lists `p`.
pub fn lists_path(v: &Vec<String>, p: &String) -> (r: bool)
    ensures
        r == views(v@).contains(p@),
{
    let mut i: usize = 0;
    while i < v.len()
        invariant
            0 <= i <= v.len(),
            forall|j: int| 0 <= j < i ==> v@[j]@ != p@,
        decreases v.len() - i,
    {
        if v[i] == *p {
            assert(views(v@)[i as int] == p@);
            return true;
        }
        i = i + 1;
    }
    assert forall|j: int| 0 <= j < views(v@).len() implies views(v@)[j] != p@ by {
        assert(views(v@)[j] == v@[j]@);
    }
    false
}

/// The paths at which the requested file `name` is looked for, in search order.
pub fn candidate_paths(
    name: &str,
    kind: IncludeKind,
    current_dir: Option<&str>,
    dirs: &Vec<String>,
) -> (r: Vec<String>)
    ensures
        views(r@) == include_candidates(name@, kind, opt_view(current_dir), views(dirs@)),
{
    let mut r: Vec<String> = Vec::new();
    let chars = chars_of(name);
    if chars.len() > 0 && chars[0] == '/' {
        r.push(name.to_owned());
        assert(views(r@) =~= seq![name@]);
        return r;
    }
    match (kind, current_dir) {
        (IncludeKind::Relative, Some(d)) => {
            r.push(join(d, name));
        },
        _ => {},
    }
    let ghost own = views(r@);
    let mut i: usize = 0;
    while i < dirs.len()
        invariant
            0 <= i <= dirs.len(),
            views(r@) == own + views(dirs@).take(i as int).map_values(
                |d: Seq<char>| join_path(d, name@),
            ),
        decreases dirs.len() - i,
    {
        let c = join(dirs[i].as_str(), name);
        let ghost before = views(r@);
        r.push(c);
        proof {
            assert(views(r@) =~= before.push(join_path(dirs@[i as int]@, name@)));
            assert(views(dirs@).take(i + 1) =~= views(dirs@).take(i as int).push(dirs@[i as int]@));
            assert(views(r@) =~= own + views(dirs@).take(i + 1).map_values(
                |d: Seq<char>| join_path(d, name@),
            ));
        }
        i = i + 1;
    }
    assert(views(dirs@).take(dirs.len() as int) =~= views(dirs@));
    r
}

/// Finds the file that the request `name` refers to, given the paths that
/// exist (`present`): the first candidate in search order that exists.
pub fn resolve_include(
    name: &str,
    kind: IncludeKind,
    current_dir: Option<&str>,
    dirs: &Vec<String>,
    present: &Vec<String>,
) -> (r: Result<String, ShaderError>)
    ensures
        match first_present(
            include_candidates(name@, kind, opt_view(current_dir), views(dirs@)),
            views(present@),
        ) {
            Some(p) => r matches Ok(s) && s@ == p,
            None => r matches Err(e) && e matches ShaderError::IncludeNotFound(n) && n@ == name@,
        },
{
    let cands = candidate_paths(name, kind, current_dir, dirs);
    let ghost cs = views(cands@);
    let ghost ps = views(present@);
    let mut i: usize = 0;
    while i < cands.len()
        invariant
            0 <= i <= cands.len(),
            cs == views(cands@),
            cs.len() == cands.len(),
            ps == views(present@),
            cs == include_candidates(name@, kind, opt_view(current_dir), views(dirs@)),
            forall|j: int| 0 <= j < i ==> !ps.contains(cs[j]),
        decreases cands.len() - i,
    {
        assert(cs[i as int] == cands@[i as int]@);
        if lists_path(present, &cands[i]) {
            proof {
                assert(is_first_present(cs, ps, i as int));
                assert forall|m: int| is_first_present(cs, ps, m) implies m == i by {
                    if m < i {
                    } else if m > i {
                        assert(!ps.contains(cs[i as int]));
                    }
                }
            }
            return Ok(cands[i].clone());
        }
        i = i + 1;
    }
    Err(ShaderError::IncludeNotFound(name.to_owned()))
}

/// Tracks the chain of files being read, one inside the next, and the
/// files a compilation has depended on, each listed once.
pub struct DependencyTracker {
    chain: Vec<String>,
    deps: Vec<String>,
}

impl DependencyTracker {
    /// The files open at this moment, outermost first.
    pub closed spec fn open_files(&self) -> Seq<Seq<char>> {
        views(self.chain@)
    }

    /// Every file opened so far, in the order first opened.
    pub closed spec fn dependencies(&self) -> Seq<Seq<char>> {
        views(self.deps@)
    }

    /// The dependency list holds no path twice.
    pub closed spec fn wf(&self) -> bool {
        views(self.deps@).no_duplicates()
    }

    /// A well-formed tracker lists no dependency twice.
    pub proof fn lemma_wf_no_duplicates(&self)
        requires
            self.wf(),
        ensures
            self.dependencies().no_duplicates(),
    {
    }

    /// A tracker with no open file and no dependency.
    pub fn new() -> (r: DependencyTracker)
        ensures
            r.wf(),
            r.open_files() == Seq::<Seq<char>>::empty(),
            r.dependencies() == Seq::<Seq<char>>::empty(),
    {
        let r = DependencyTracker { chain: Vec::new(), deps: Vec::new() };
        assert(views(r.chain@) =~= Seq::<Seq<char>>::empty());
        assert(views(r.deps@) =~= Seq::<Seq<char>>::empty());
        r
    }

    /// Adds `path` to the dependencies unless it is listed already.
    pub fn record_dependency(&mut self, path: &String)
        requires
            old(self).wf(),
        ensures
            final(self).wf(),
            final(self).open_files() == old(self).open_files(),
            final(self).dependencies() == record(old(self).dependencies(), path@),
    {
        proof {
            lemma_record_idempotent(views(self.deps@), path@);
        }
        if !lists_path(&self.deps, path) {
            let ghost before = views(self.deps@);
            self.deps.push(path.clone());
            assert(views(self.deps@) =~= before.push(path@));
        }
    }

    /// Opens `path` inside the files open now. A path that is open already
    /// would make the inclusion endless: it fails with `CircularInclude` and
    /// nothing changes. Otherwise it becomes the innermost open file and is
    /// recorded as a dependency.
    pub fn enter(&mut self, path: String) -> (r: Result<(), ShaderError>)
        requires
            old(self).wf(),
        ensures
            final(self).wf(),
            old(self).open_files().contains(path@) ==> {
                &&& r matches Err(e) && e matches ShaderError::CircularInclude(p) && p@ == path@
                &&& final(self).open_files() == old(self).open_files()
                &&& final(self).dependencies() == old(self).dependencies()
            },
            !old(self).open_files().contains(path@) ==> {
                &&& r is Ok
                &&& final(self).open_files() == old(self).open_files().push(path@)
                &&& final(self).dependencies() == record(old(self).dependencies(), path@)
            },
    {
        if lists_path(&self.chain, &path) {
            return Err(ShaderError::CircularInclude(path));
        }
        self.record_dependency(&path);
        let ghost before = views(self.chain@);
        self.chain.push(path);
        assert(views(self.chain@) =~= before.push(path@));
        Ok(())
    }

    /// Closes the innermost open file, if there is one.
    pub fn leave(&mut self)
        requires
            old(self).wf(),
        ensures
            final(self).wf(),
            final(self).open_files() == if old(self).open_files().len() == 0 {
                old(self).open_files()
            } else {
                old(self).open_files().drop_last()
            },
            final(self).dependencies() == old(self).dependencies(),
    {
        let ghost before = views(self.chain@);
        if self.chain.len() > 0 {
            self.chain.pop();
            assert(views(self.chain@) =~= before.drop_last());
        }
    }

    /// Records each of `paths`, in order.
    pub fn record_dependencies(&mut self, paths: &Vec<String>)
        requires
            old(self).wf(),
        ensures
            final(self).wf(),
            final(self).open_files() == old(self).open_files(),
            final(self).dependencies() == record_all(old(self).dependencies(), views(paths@)),
    {
        let ghost start = self.dependencies();
        let mut i: usize = 0;
        while i < paths.len()
            invariant
                0 <= i <= paths.len(),
                self.wf(),
                self.open_files() == old(self).open_files(),
                self.dependencies() == record_all(start, views(paths@).take(i as int)),
            decreases paths.len() - i,
        {
            self.record_dependency(&paths[i]);
            proof {
                let next = views(paths@).take(i + 1);
                assert(next.drop_last() =~= views(paths@).take(i as int));
                assert(next.last() == paths@[i as int]@);
            }
            i = i + 1;
        }
        assert(views(paths@).take(paths.len() as int) =~= views(paths@));
    }

    /// The dependency list, each path once, in the order first opened.
    pub fn into_dependencies(self) -> (r: Vec<String>)
        ensures
            views(r@) == self.dependencies(),
    {
        self.deps
    }
}

/// Resolving one request twice from the same search context yields one path,
/// and recording that path a second time leaves the dependency list as the
/// first recording left it, without duplicates.
pub proof fn lemma_include_resolution_idempotent(
    name: Seq<char>,
    kind: IncludeKind,
    current_dir: Option<Seq<char>>,
    dirs: Seq<Seq<char>>,
    present: Seq<Seq<char>>,
    deps: Seq<Seq<char>>,
)
    requires
        deps.no_duplicates(),
    ensures
        first_present(include_candidates(name, kind, current_dir, dirs), present) matches Some(p)
            ==> record(record(deps, p), p) == record(deps, p) && record(deps, p).no_duplicates(),
{
    if let Some(p) = first_present(include_candidates(name, kind, current_dir, dirs), present) {
        lemma_record_idempotent(deps, p);
    }
}

/// Recording a path twice is recording it once, and keeps a list free of
/// duplicates.
pub proof fn lemma_record_idempotent(deps: Seq<Seq<char>>, p: Seq<char>)
    requires
        deps.no_duplicates(),
    ensures
        record(deps, p).contains(p),
        record(record(deps, p), p) == record(deps, p),
        record(deps, p).no_duplicates(),
{
    if !deps.contains(p) {
        assert(deps.push(p)[deps.len() as int] == p);
        assert forall|i: int, j: int|
            0 <= i < deps.push(p).len() && 0 <= j < deps.push(p).len() && i != j
            implies deps.push(p)[i] != deps.push(p)[j] by {
            if i < deps.len() && j < deps.len() {
            } else if i < deps.len() {
                assert(deps.contains(deps[i]));
            } else {
                assert(deps.contains(deps[j]));
            }
        }
    }
}

} // verus!
