use vstd::prelude::*;

use crate::sets::base::DatasetRemote;
use crate::sets::labels::{parse_labels, read_labels};
use crate::utils::{join_path, path_join, texts, DatasetError};

verus! {

/// What the driver reports back to `Mnist::prepare`.
pub enum MnistEvent {
    /// Nothing has happened yet.
    Start,
    /// How the downloads ended, in the order of `Mnist::remotes`: the path
    /// of each local copy, or why there is none.
    Downloaded([Result<String, DatasetError>; 4]),
}

/// What `Mnist::prepare` asks the driver to do next.
pub enum MnistAction {
    /// Bring each of the files of `Mnist::remotes` into this directory, in
    /// any order or at once, wait for all of them and report `Downloaded`.
    Download(String),
    /// All files are in place: read the label files and build the dataset
    /// over these paths.
    Load { train_data: String, train_label: String, test_data: String, test_label: String },
}

/// A `MnistAction` as plain values.
pub enum MnistStep {
    Download(Seq<char>),
    Load { train_data: Seq<char>, train_label: Seq<char>, test_data: Seq<char>, test_label: Seq<char> },
}

impl View for MnistAction {
    type V = MnistStep;

    open spec fn view(&self) -> MnistStep {
        match self {
            MnistAction::Download(dir) => MnistStep::Download(dir@),
            MnistAction::Load { train_data, train_label, test_data, test_label } => MnistStep::Load {
                train_data: train_data@,
                train_label: train_label@,
                test_data: test_data@,
                test_label: test_label@,
            },
        }
    }
}

/// Whether `outcome` is what waiting for all of `results` gives: the
/// values in order where every one succeeded, and else the first error.
pub open spec fn joins_to(
    results: Seq<Result<String, DatasetError>>,
    outcome: Result<Vec<String>, DatasetError>,
) -> bool {
    match outcome {
        Ok(values) => {
            &&& values@.len() == results.len()
            &&& forall|i: int|
                0 <= i < results.len() ==> ((#[trigger] results[i]) matches Ok(value) && value@
                    == values@[i]@)
        },
        Err(e) => exists|i: int|
            {
                &&& 0 <= i < results.len()
                &&& #[trigger] results[i] == Err::<String, DatasetError>(e)
                &&& forall|j: int| 0 <= j < i ==> (#[trigger] results[j]) is Ok
            },
    }
}

/// Collects the results of tasks that ran side by side: all values in
/// order, or the first error.
pub fn join_all(results: &[Result<String, DatasetError>]) -> (outcome: Result<
    Vec<String>,
    DatasetError,
>)
    ensures
        joins_to(results@, outcome),
{
    let mut values: Vec<String> = Vec::new();
    let mut i: usize = 0;
    while i < results.len()
        invariant
            i <= results.len(),
            values@.len() == i,
            forall|k: int|
                0 <= k < i ==> ((#[trigger] results@[k]) matches Ok(value) && value@
                    == values@[k]@),
        decreases results.len() - i,
    {
        match &results[i] {
            Ok(value) => {
                values.push(value.clone());
            },
            Err(e) => {
                return Err(*e);
            },
        }
        i = i + 1;
    }
    Ok(values)
}

/// The preparer of the handwritten-digit corpus.
pub struct Mnist {
    train_data: DatasetRemote,
    train_label: DatasetRemote,
    test_data: DatasetRemote,
    test_label: DatasetRemote,
    cache_dir: String,
}

impl Default for Mnist {
    fn default() -> (mnist: Self)
        ensures
            mnist.root() == "./data"@,
            mnist.parts().len() == 4,
            mnist.parts()[0].url@ == "http://yann.lecun.com/exdb/mnist/train-images-idx3-ubyte.gz"@,
            mnist.parts()[0].size == 9912422,
            mnist.parts()[0].md5 matches Some(digest) && digest@
                == "f68b3c2dcbeaaa9fbdd348bbdeb94873"@,
            mnist.parts()[1].url@ == "http://yann.lecun.com/exdb/mnist/train-labels-idx1-ubyte.gz"@,
            mnist.parts()[1].size == 28881,
            mnist.parts()[1].md5 matches Some(digest) && digest@
                == "d53e105ee54ea40749a09fcbcd1e9432"@,
            mnist.parts()[2].url@ == "http://yann.lecun.com/exdb/mnist/t10k-images-idx3-ubyte.gz"@,
            mnist.parts()[2].size == 1648877,
            mnist.parts()[2].md5 matches Some(digest) && digest@
                == "9fb629c4189551a2d022fa330f9573f3"@,
            mnist.parts()[3].url@ == "http://yann.lecun.com/exdb/mnist/t10k-labels-idx1-ubyte.gz"@,
            mnist.parts()[3].size == 4542,
            mnist.parts()[3].md5 matches Some(digest) && digest@
                == "ec29112dd5afa0611ce80d1b7f02629c"@,
    {
        Self::new(
            DatasetRemote::new(
                "http://yann.lecun.com/exdb/mnist/train-images-idx3-ubyte.gz",
                9912422,
                Some("f68b3c2dcbeaaa9fbdd348bbdeb94873".to_owned()),
            ),
            DatasetRemote::new(
                "http://yann.lecun.com/exdb/mnist/train-labels-idx1-ubyte.gz",
                28881,
                Some("d53e105ee54ea40749a09fcbcd1e9432".to_owned()),
            ),
            DatasetRemote::new(
                "http://yann.lecun.com/exdb/mnist/t10k-images-idx3-ubyte.gz",
                1648877,
                Some("9fb629c4189551a2d022fa330f9573f3".to_owned()),
            ),
            DatasetRemote::new(
                "http://yann.lecun.com/exdb/mnist/t10k-labels-idx1-ubyte.gz",
                4542,
                Some("ec29112dd5afa0611ce80d1b7f02629c".to_owned()),
            ),
            "./data",
        )
    }
}

impl Mnist {
    /// The descriptors of the four files: training images, training
    /// labels, test images, test labels.
    pub closed spec fn parts(&self) -> Seq<DatasetRemote> {
        seq![self.train_data, self.train_label, self.test_data, self.test_label]
    }

    /// The cache root.
    pub closed spec fn root(&self) -> Seq<char> {
        self.cache_dir@
    }

    /// The next step of a preparation, given what the driver reports: the
    /// downloads go to the directory `mnist` under the cache root, and one
    /// that failed fails the preparation.
    pub open spec fn step(&self, event: MnistEvent) -> Result<MnistStep, DatasetError> {
        match event {
            MnistEvent::Start => Ok(MnistStep::Download(path_join(self.root(), "mnist"@))),
            MnistEvent::Downloaded(results) => match (
                results@[0],
                results@[1],
                results@[2],
                results@[3],
            ) {
                (Ok(train_data), Ok(train_label), Ok(test_data), Ok(test_label)) => Ok(
                    MnistStep::Load {
                        train_data: train_data@,
                        train_label: train_label@,
                        test_data: test_data@,
                        test_label: test_label@,
                    },
                ),
                (Err(e), _, _, _) => Err(e),
                (_, Err(e), _, _) => Err(e),
                (_, _, Err(e), _) => Err(e),
                (_, _, _, Err(e)) => Err(e),
            },
        }
    }

    pub fn new(
        train_data: DatasetRemote,
        train_label: DatasetRemote,
        test_data: DatasetRemote,
        test_label: DatasetRemote,
        cache_dir: &str,
    ) -> (mnist: Self)
        ensures
            mnist.parts() == seq![train_data, train_label, test_data, test_label],
            mnist.root() == cache_dir@,
    {
        Self { train_data, train_label, test_data, test_label, cache_dir: cache_dir.to_owned() }
    }

    /// The descriptors of the four files: training images, training
    /// labels, test images, test labels.
    pub fn remotes(&self) -> (remotes: [&DatasetRemote; 4])
        ensures
            remotes@.len() == 4,
            forall|i: int| 0 <= i < 4 ==> *(#[trigger] remotes@[i]) == self.parts()[i],
    {
        [&self.train_data, &self.train_label, &self.test_data, &self.test_label]
    }

    /// The cache root.
    pub fn cache_dir(&self) -> (dir: &str)
        ensures
            dir@ == self.root(),
    {
        self.cache_dir.as_str()
    }

    /// One decision of the preparation.
    ///
    /// The driver starts with `Start`, does what each answer asks and
    /// reports the outcome, until the answer is `Load` or an error.
    pub fn prepare(&self, event: MnistEvent) -> (r: Result<MnistAction, DatasetError>)
        ensures
            match r {
                Ok(action) => self.step(event) == Ok::<MnistStep, DatasetError>(action@),
                Err(e) => self.step(event) == Err::<MnistStep, DatasetError>(e),
            },
    {
        match event {
            MnistEvent::Start => Ok(MnistAction::Download(join_path(self.cache_dir.as_str(), "mnist"))),
            MnistEvent::Downloaded(results) => {
                match join_all(results.as_slice()) {
                    Err(e) => Err(e),
                    Ok(files) => Ok(
                        MnistAction::Load {
                            train_data: files[0].clone(),
                            train_label: files[1].clone(),
                            test_data: files[2].clone(),
                            test_label: files[3].clone(),
                        },
                    ),
                }
            },
        }
    }
}

/// The prepared digit corpus: the paths of its image files and the
/// category names of its label files.
pub struct MnistDataset {
    train_data: String,
    train_labels: Vec<String>,
    test_data: String,
    test_labels: Vec<String>,
}

/// A `MnistDataset` as plain values.
pub struct MnistDatasetView {
    pub train_data: Seq<char>,
    pub train_labels: Seq<Seq<char>>,
    pub test_data: Seq<char>,
    pub test_labels: Seq<Seq<char>>,
}

impl View for MnistDataset {
    type V = MnistDatasetView;

    closed spec fn view(&self) -> MnistDatasetView {
        MnistDatasetView {
            train_data: self.train_data@,
            train_labels: texts(self.train_labels@),
            test_data: self.test_data@,
            test_labels: texts(self.test_labels@),
        }
    }
}

impl MnistDataset {
    /// Builds the dataset from the paths of its image files and the
    /// contents of its label files.
    pub fn new(train_data: String, train_label: &str, test_data: String, test_label: &str) -> (dataset:
        Self)
        ensures
            dataset@.train_data == train_data@,
            dataset@.train_labels == parse_labels(train_label@),
            dataset@.test_data == test_data@,
            dataset@.test_labels == parse_labels(test_label@),
    {
        Self {
            train_data,
            train_labels: Self::read_labels(train_label),
            test_data,
            test_labels: Self::read_labels(test_label),
        }
    }

    /// The category names of a label file: one per line, blank lines
    /// ignored.
    pub fn read_labels(file: &str) -> (labels: Vec<String>)
        ensures
            texts(labels@) == parse_labels(file@),
    {
        read_labels(file)
    }

    /// The path of the file that holds the training images.
    pub fn train_data(&self) -> (path: &str)
        ensures
            path@ == self@.train_data,
    {
        self.train_data.as_str()
    }

    /// The category names of the training labels.
    pub fn train_labels(&self) -> (labels: &Vec<String>)
        ensures
            texts(labels@) == self@.train_labels,
    {
        &self.train_labels
    }

    /// The path of the file that holds the test images.
    pub fn test_data(&self) -> (path: &str)
        ensures
            path@ == self@.test_data,
    {
        self.test_data.as_str()
    }

    /// The category names of the test labels.
    pub fn test_labels(&self) -> (labels: &Vec<String>)
        ensures
            texts(labels@) == self@.test_labels,
    {
        &self.test_labels
    }
}

} // verus!
