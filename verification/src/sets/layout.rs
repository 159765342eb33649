use vstd::prelude::*;

use crate::utils::{join_path, join_paths, path_join, paths_under, texts};

verus! {

/// Where the files of a dataset lie under the cache root:
/// `<root>/<family>/<subdir>/<file name>`.
pub struct Layout {
    pub family: String,
    pub subdir: String,
    pub label_files: Vec<String>,
    pub train_files: Vec<String>,
    pub test_files: Vec<String>,
}

/// A `Layout` as plain values.
pub struct LayoutView {
    pub family: Seq<char>,
    pub subdir: Seq<char>,
    pub label_files: Seq<Seq<char>>,
    pub train_files: Seq<Seq<char>>,
    pub test_files: Seq<Seq<char>>,
}

/// What the driver reports back to a preparer.
pub enum PrepareEvent {
    /// Nothing has happened yet.
    Start,
    /// Which of the files of `Check` exist, in the order they were asked for.
    Checked(Vec<bool>),
    /// The archive has been brought and unpacked.
    Downloaded,
}

/// What a preparer asks the driver to do next.
pub enum PrepareAction {
    /// Look whether each of these files exists and report `Checked`.
    Check(Vec<String>),
    /// Bring the dataset's archive into this directory, unpack it there
    /// and report `Downloaded`.
    Download(String),
    /// All files are in place: read the label files and build the dataset
    /// over these paths.
    Load { label_files: Vec<String>, train_files: Vec<String>, test_files: Vec<String> },
}

/// A `PrepareAction` as plain values.
pub enum PrepareStep {
    Check(Seq<Seq<char>>),
    Download(Seq<char>),
    Load { label_files: Seq<Seq<char>>, train_files: Seq<Seq<char>>, test_files: Seq<Seq<char>> },
}

impl View for PrepareAction {
    type V = PrepareStep;

    open spec fn view(&self) -> PrepareStep {
        match self {
            PrepareAction::Check(files) => PrepareStep::Check(texts(files@)),
            PrepareAction::Download(dir) => PrepareStep::Download(dir@),
            PrepareAction::Load { label_files, train_files, test_files } => PrepareStep::Load {
                label_files: texts(label_files@),
                train_files: texts(train_files@),
                test_files: texts(test_files@),
            },
        }
    }
}

/// Whether the report `present` says that each of `count` files exists.
pub open spec fn all_present(count: nat, present: Seq<bool>) -> bool {
    present.len() == count && forall|i: int| 0 <= i < present.len() ==> present[i]
}

impl LayoutView {
    /// The directory of the dataset family, into which the archive goes.
    pub open spec fn dir(self, root: Seq<char>) -> Seq<char> {
        path_join(root, self.family)
    }

    /// The directory that holds the dataset's files.
    pub open spec fn base(self, root: Seq<char>) -> Seq<char> {
        path_join(self.dir(root), self.subdir)
    }

    /// The names of all files of the dataset: label files, then train
    /// files, then test files.
    pub open spec fn names(self) -> Seq<Seq<char>> {
        self.label_files + self.train_files + self.test_files
    }

    /// The paths of all files of the dataset, in the order of `names`.
    pub open spec fn expected(self, root: Seq<char>) -> Seq<Seq<char>> {
        paths_under(self.base(root), self.names())
    }

    /// The last step: the paths to read and to build the dataset over.
    pub open spec fn load(self, root: Seq<char>) -> PrepareStep {
        PrepareStep::Load {
            label_files: paths_under(self.base(root), self.label_files),
            train_files: paths_under(self.base(root), self.train_files),
            test_files: paths_under(self.base(root), self.test_files),
        }
    }

    /// The next step of a preparation under `root`, given what the driver
    /// reports. The archive is brought only where a file is missing.
    pub open spec fn step(self, root: Seq<char>, event: PrepareEvent) -> PrepareStep {
        match event {
            PrepareEvent::Start => PrepareStep::Check(self.expected(root)),
            PrepareEvent::Checked(present) => if all_present(self.names().len(), present@) {
                self.load(root)
            } else {
                PrepareStep::Download(self.dir(root))
            },
            PrepareEvent::Downloaded => self.load(root),
        }
    }
}

impl View for Layout {
    type V = LayoutView;

    open spec fn view(&self) -> LayoutView {
        LayoutView {
            family: self.family@,
            subdir: self.subdir@,
            label_files: texts(self.label_files@),
            train_files: texts(self.train_files@),
            test_files: texts(self.test_files@),
        }
    }
}

/// Whether every entry of `present` is true.
pub fn all_true(present: &Vec<bool>) -> (all: bool)
    ensures
        all == forall|i: int| 0 <= i < present@.len() ==> present@[i],
{
    let mut i: usize = 0;
    while i < present.len()
        invariant
            i <= present.len(),
            forall|j: int| 0 <= j < i ==> present@[j],
        decreases present.len() - i,
    {
        if !present[i] {
            return false;
        }
        i = i + 1;
    }
    true
}

impl Layout {
    /// The directory of the dataset family under `root`.
    pub fn dir(&self, root: &str) -> (dir: String)
        ensures
            dir@ == self@.dir(root@),
    {
        join_path(root, self.family.as_str())
    }

    /// The directory that holds the dataset's files under `root`.
    pub fn base(&self, root: &str) -> (base: String)
        ensures
            base@ == self@.base(root@),
    {
        let dir = self.dir(root);
        join_path(dir.as_str(), self.subdir.as_str())
    }

    /// The number of files that the dataset consists of.
    pub open spec fn count(&self) -> nat {
        self@.names().len()
    }

    /// The paths of all files of the dataset under `root`: label files,
    /// then train files, then test files.
    pub fn expected(&self, root: &str) -> (files: Vec<String>)
        ensures
            texts(files@) == self@.expected(root@),
    {
        let base = self.base(root);
        let mut files = join_paths(base.as_str(), &self.label_files);
        let mut train = join_paths(base.as_str(), &self.train_files);
        let mut test = join_paths(base.as_str(), &self.test_files);
        let ghost labels = files@;
        let ghost trains = train@;
        let ghost tests = test@;
        files.append(&mut train);
        files.append(&mut test);
        assert(files@ == labels + trains + tests);
        assert(texts(files@) =~= texts(labels) + texts(trains) + texts(tests));
        assert(texts(files@) =~= self@.expected(root@));
        files
    }

    /// Whether the report `present` covers every file of the dataset and
    /// finds each in place.
    pub fn cache_ready(&self, present: &Vec<bool>) -> (ready: bool)
        ensures
            ready == all_present(self.count(), present@),
    {
        let labels = self.label_files.len();
        let train = self.train_files.len();
        let test = self.test_files.len();
        let given = present.len();
        if given < labels || given - labels < train || given - labels - train != test {
            return false;
        }
        all_true(present)
    }

    /// One decision of the preparation of the dataset under `root`.
    ///
    /// The driver starts with `Start`, does what each answer asks and
    /// reports the outcome, until the answer is `Load`.
    pub fn prepare(&self, root: &str, event: PrepareEvent) -> (action: PrepareAction)
        ensures
            action@ == self@.step(root@, event),
    {
        match event {
            PrepareEvent::Start => PrepareAction::Check(self.expected(root)),
            PrepareEvent::Checked(present) => {
                if self.cache_ready(&present) {
                    self.load(root)
                } else {
                    PrepareAction::Download(self.dir(root))
                }
            },
            PrepareEvent::Downloaded => self.load(root),
        }
    }

    /// The last step: the paths to read and to build the dataset over.
    pub fn load(&self, root: &str) -> (action: PrepareAction)
        ensures
            action@ == self@.load(root@),
    {
        let base = self.base(root);
        PrepareAction::Load {
            label_files: join_paths(base.as_str(), &self.label_files),
            train_files: join_paths(base.as_str(), &self.train_files),
            test_files: join_paths(base.as_str(), &self.test_files),
        }
    }
}

} // verus!
