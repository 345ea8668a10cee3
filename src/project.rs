//! Files, directories and projects, and the plan that writes a project to disk.
use vstd::prelude::*;
use vstd::slice::slice_to_vec;
use crate::path::{join, joined};

verus! {

/// What a file is: where it goes and the bytes it holds.
pub struct FileModel {
    pub path: Seq<char>,
    pub contents: Seq<u8>,
}

/// What a directory is: its path and its files, in order.
pub struct DirModel {
    pub path: Seq<char>,
    pub files: Seq<FileModel>,
}

/// What a project is: its root path and its directories, in the order they
/// are created.
pub struct ProjectModel {
    pub path: Seq<char>,
    pub dirs: Seq<DirModel>,
}

/// One step of materialisation, as plain values.
pub enum ActionModel {
    CreateDirAll(Seq<char>),
    WriteFile(Seq<char>, Seq<u8>),
}

impl DirModel {
    pub open spec fn empty(path: Seq<char>) -> DirModel {
        DirModel { path, files: seq![] }
    }

    /// The directory after `add_file(p, contents)`: a relative `p` lands
    /// under the directory's own path, an absolute one is kept as it is.
    pub open spec fn with_file(self, p: Seq<char>, contents: Seq<u8>) -> DirModel {
        DirModel {
            path: self.path,
            files: self.files.push(FileModel { path: joined(self.path, p), contents }),
        }
    }
}

impl ProjectModel {
    /// A fresh project: one directory, the root, at `path`.
    pub open spec fn created(path: Seq<char>) -> ProjectModel {
        ProjectModel { path, dirs: seq![DirModel::empty(path)] }
    }

    pub open spec fn with_dir(self, d: DirModel) -> ProjectModel {
        ProjectModel { path: self.path, dirs: self.dirs.push(d) }
    }

    /// The project with `f` appended to the files of its first directory.
    pub open spec fn with_root_file(self, f: FileModel) -> ProjectModel {
        ProjectModel {
            path: self.path,
            dirs: self.dirs.update(
                0,
                DirModel { path: self.dirs[0].path, files: self.dirs[0].files.push(f) },
            ),
        }
    }

    /// The first directory exists and sits at the project's root path.
    pub open spec fn rooted(self) -> bool {
        self.dirs.len() > 0 && self.dirs[0].path == self.path
    }

    /// The project after `add_dir` was called with each of `ds` in turn.
    pub open spec fn with_dirs(self, ds: Seq<DirModel>) -> ProjectModel
        decreases ds.len(),
    {
        if ds.len() == 0 {
            self
        } else {
            self.with_dirs(ds.drop_last()).with_dir(ds.last())
        }
    }
}

/// The steps for one directory: create it with its ancestors, then write
/// each of its files in order.
pub open spec fn dir_plan(d: DirModel) -> Seq<ActionModel> {
    seq![ActionModel::CreateDirAll(d.path)] + d.files.map_values(
        |f: FileModel| ActionModel::WriteFile(f.path, f.contents),
    )
}

/// The steps for a list of directories: each directory's steps, in order.
pub open spec fn plan_of(dirs: Seq<DirModel>) -> Seq<ActionModel>
    decreases dirs.len(),
{
    if dirs.len() == 0 {
        seq![]
    } else {
        plan_of(dirs.drop_last()) + dir_plan(dirs.last())
    }
}

/// Root invariant: a project made by `new(path)` keeps a first directory at
/// `path`, whatever directories `add_dir` appends afterwards.
pub proof fn lemma_root_kept(path: Seq<char>, added: Seq<DirModel>)
    ensures
        ProjectModel::created(path).with_dirs(added).rooted(),
        ProjectModel::created(path).with_dirs(added).path == path,
        ProjectModel::created(path).with_dirs(added).dirs[0].path == path,
    decreases added.len(),
{
    if added.len() > 0 {
        lemma_root_kept(path, added.drop_last());
    }
}

/// The steps of directory `i` stand in the plan as one block, right after
/// those of the directories before it.
proof fn lemma_dir_block(dirs: Seq<DirModel>, i: int)
    requires
        0 <= i < dirs.len(),
    ensures
        plan_of(dirs.take(i)).len() + dir_plan(dirs[i]).len() <= plan_of(dirs).len(),
        plan_of(dirs).subrange(
            plan_of(dirs.take(i)).len() as int,
            (plan_of(dirs.take(i)).len() + dir_plan(dirs[i]).len()) as int,
        ) == dir_plan(dirs[i]),
    decreases dirs.len(),
{
    let rest = dirs.drop_last();
    if i == dirs.len() - 1 {
        assert(dirs.take(i) =~= rest);
        assert(plan_of(dirs).subrange(plan_of(rest).len() as int, plan_of(dirs).len() as int)
            =~= dir_plan(dirs[i]));
    } else {
        lemma_dir_block(rest, i);
        assert(rest.take(i) =~= dirs.take(i));
        assert(rest[i] == dirs[i]);
        let o = plan_of(dirs.take(i)).len() as int;
        assert(plan_of(dirs).subrange(o, o + dir_plan(dirs[i]).len()) =~= plan_of(rest).subrange(
            o,
            o + dir_plan(dirs[i]).len(),
        ));
    }
}

/// Materialisation covers the whole tree: the plan creates every directory
/// of the project, and after it writes every file of that directory to its
/// path with exactly the bytes it was given.
pub proof fn lemma_plan_covers_tree(dirs: Seq<DirModel>, i: int)
    requires
        0 <= i < dirs.len(),
    ensures
        exists|k: int|
            0 <= k < plan_of(dirs).len() && #[trigger] plan_of(dirs)[k]
                == ActionModel::CreateDirAll(dirs[i].path) && forall|j: int|
                0 <= j < dirs[i].files.len() ==> k + 1 + j < plan_of(dirs).len() && #[trigger] plan_of(
                    dirs,
                )[k + 1 + j] == ActionModel::WriteFile(
                    dirs[i].files[j].path,
                    dirs[i].files[j].contents,
                ),
{
    lemma_dir_block(dirs, i);
    let o = plan_of(dirs.take(i)).len() as int;
    let block = dir_plan(dirs[i]);
    assert(plan_of(dirs)[o] == block[0]);
    assert forall|j: int| 0 <= j < dirs[i].files.len() implies o + 1 + j < plan_of(dirs).len()
        && #[trigger] plan_of(dirs)[o + 1 + j] == ActionModel::WriteFile(
        dirs[i].files[j].path,
        dirs[i].files[j].contents,
    ) by {
        assert(plan_of(dirs)[o + 1 + j] == block[1 + j]);
    }
}

/// A file to be written: its path and its contents.
#[derive(Debug)]
pub struct File {
    pub path: String,
    contents: Vec<u8>,
}

impl View for File {
    type V = FileModel;

    closed spec fn view(&self) -> FileModel {
        FileModel { path: self.path@, contents: self.contents@ }
    }
}

impl File {
    pub fn new(path: &str, contents: &[u8]) -> (r: File)
        ensures
            r@ == (FileModel { path: path@, contents: contents@ }),
    {
        File { path: String::from_str(path), contents: slice_to_vec(contents) }
    }

    pub fn contents(&self) -> (r: &[u8])
        ensures
            r@ == self@.contents,
    {
        self.contents.as_slice()
    }
}

/// A directory and the files it holds. Subdirectories are directories of
/// the project in their own right, named by their paths.
#[derive(Debug)]
pub struct Dir {
    pub path: String,
    files: Vec<File>,
}

impl View for Dir {
    type V = DirModel;

    closed spec fn view(&self) -> DirModel {
        DirModel { path: self.path@, files: self.files@.map_values(|f: File| f@) }
    }
}

impl Dir {
    pub fn new(path: &str) -> (r: Dir)
        ensures
            r@ == DirModel::empty(path@),
    {
        let r = Dir { path: String::from_str(path), files: Vec::new() };
        assert(r@.files =~= seq![]);
        r
    }

    /// Appends a file; a relative `path` is taken under this directory.
    pub fn add_file(self, path: &str, contents: &[u8]) -> (r: Dir)
        ensures
            r@ == self@.with_file(path@, contents@),
    {
        let mut d = self;
        let full = join(d.path.as_str(), path);
        let f = File::new(full.as_str(), contents);
        d.files.push(f);
        assert(d@.files =~= self@.files.push(f@));
        d
    }

    pub fn files(&self) -> (r: &[File])
        ensures
            r@.map_values(|f: File| f@) == self@.files,
    {
        self.files.as_slice()
    }
}

/// A step of materialisation: create a directory with all its missing
/// ancestors, or create (or truncate) a file and write all its bytes.
#[derive(Debug, PartialEq, Eq)]
pub enum Action {
    CreateDirAll(String),
    WriteFile(String, Vec<u8>),
}

impl View for Action {
    type V = ActionModel;

    open spec fn view(&self) -> ActionModel {
        match self {
            Action::CreateDirAll(p) => ActionModel::CreateDirAll(p@),
            Action::WriteFile(p, c) => ActionModel::WriteFile(p@, c@),
        }
    }
}

/// A project: a root path and the directories under it. The first
/// directory is the root itself.
#[derive(Debug)]
pub struct Project {
    pub path: String,
    dirs: Vec<Dir>,
}

impl View for Project {
    type V = ProjectModel;

    closed spec fn view(&self) -> ProjectModel {
        ProjectModel { path: self.path@, dirs: self.dirs@.map_values(|d: Dir| d@) }
    }
}

impl Project {
    pub fn new(path: &str) -> (r: Project)
        ensures
            r@ == ProjectModel::created(path@),
    {
        let root = Dir::new(path);
        let mut dirs: Vec<Dir> = Vec::new();
        dirs.push(root);
        let r = Project { path: String::from_str(path), dirs };
        assert(r@.dirs =~= seq![DirModel::empty(path@)]);
        r
    }

    pub fn add_dir(self, dir: Dir) -> (r: Project)
        ensures
            r@ == self@.with_dir(dir@),
    {
        let mut p = self;
        p.dirs.push(dir);
        assert(p@.dirs =~= self@.dirs.push(dir@));
        p
    }

    /// Appends a file to the root directory.
    pub(crate) fn add_root_file(&mut self, file: File)
        requires
            old(self)@.rooted(),
        ensures
            final(self)@ == old(self)@.with_root_file(file@),
    {
        let mut root = self.dirs.remove(0);
        assert(root@ == old(self)@.dirs[0]);
        let ghost r0 = root@;
        root.files.push(file);
        assert(root@.files =~= r0.files.push(file@));
        self.dirs.insert(0, root);
        assert(self@.dirs =~= old(self)@.with_root_file(file@).dirs);
    }

    pub fn dirs(&self) -> (r: &[Dir])
        ensures
            r@.map_values(|d: Dir| d@) == self@.dirs,
    {
        self.dirs.as_slice()
    }

    /// The path that teardown removes: that of the root directory.
    pub fn teardown_path(&self) -> (r: &String)
        ensures
            self@.dirs.len() > 0 ==> r@ == self@.dirs[0].path,
            self@.dirs.len() == 0 ==> r@ == self@.path,
    {
        if self.dirs.len() > 0 {
            &self.dirs[0].path
        } else {
            &self.path
        }
    }

    /// The steps that write this project to disk, in the order they run.
    pub fn plan(&self) -> (r: Vec<Action>)
        ensures
            r@.map_values(|a: Action| a@) == plan_of(self@.dirs),
    {
        let mut out: Vec<Action> = Vec::new();
        let mut i: usize = 0;
        while i < self.dirs.len()
            invariant
                i <= self.dirs.len(),
                out@.map_values(|a: Action| a@) == plan_of(self@.dirs.take(i as int)),
            decreases self.dirs.len() - i,
        {
            let d = &self.dirs[i];
            assert(self@.dirs[i as int] == d@);
            out.push(Action::CreateDirAll(d.path.clone()));
            let ghost start = plan_of(self@.dirs.take(i as int));
            assert(out@.map_values(|a: Action| a@) =~= start + seq![
                ActionModel::CreateDirAll(d@.path),
            ]);
            let mut j: usize = 0;
            while j < d.files.len()
                invariant
                    j <= d.files.len(),
                    d@ == self@.dirs[i as int],
                    out@.map_values(|a: Action| a@) == start + seq![
                        ActionModel::CreateDirAll(d@.path),
                    ] + d@.files.take(j as int).map_values(
                        |f: FileModel| ActionModel::WriteFile(f.path, f.contents),
                    ),
                decreases d.files.len() - j,
            {
                let f = &d.files[j];
                assert(d@.files[j as int] == f@);
                let ghost before = out@.map_values(|a: Action| a@);
                out.push(Action::WriteFile(f.path.clone(), slice_to_vec(f.contents.as_slice())));
                assert(d@.files.take(j + 1) =~= d@.files.take(j as int).push(f@));
                assert(out@.map_values(|a: Action| a@) =~= before.push(
                    ActionModel::WriteFile(f@.path, f@.contents),
                ));
                assert(out@.map_values(|a: Action| a@) =~= start + seq![
                    ActionModel::CreateDirAll(d@.path),
                ] + d@.files.take(j + 1).map_values(
                    |f: FileModel| ActionModel::WriteFile(f.path, f.contents),
                ));
                j += 1;
            }
            assert(d@.files.take(j as int) =~= d@.files);
            assert(self@.dirs.take(i + 1).drop_last() =~= self@.dirs.take(i as int));
            assert(out@.map_values(|a: Action| a@) =~= plan_of(self@.dirs.take(i + 1)));
            i += 1;
        }
        assert(self@.dirs.take(i as int) =~= self@.dirs);
        out
    }
}

} // verus!
