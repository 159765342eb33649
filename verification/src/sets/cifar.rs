use vstd::prelude::*;

use crate::sets::base::DatasetRemote;
use crate::sets::labels::{parse_labels, read_labels};
use crate::sets::layout::{Layout, LayoutView, PrepareAction, PrepareEvent};
use crate::sets::records::{
    concat, contents, decodable, decode, feature_rows, label_rows, matrix_rows, matrix_width, Matrix,
};
use crate::utils::{texts, DatasetError};

verus! {

/// The number of feature bytes of one record: 32 by 32 pixels in 3 channels.
pub const IMAGE_SIZE: usize = 3072;

/// The layout of the CIFAR-10 files.
pub open spec fn cifar10_layout() -> LayoutView {
    LayoutView {
        family: "cifar"@,
        subdir: "cifar-10-batches-bin"@,
        label_files: seq!["batches.meta.txt"@],
        train_files: seq![
            "data_batch_1.bin"@,
            "data_batch_2.bin"@,
            "data_batch_3.bin"@,
            "data_batch_4.bin"@,
            "data_batch_5.bin"@,
        ],
        test_files: seq!["test_batch.bin"@],
    }
}

/// The layout of the CIFAR-100 files.
pub open spec fn cifar100_layout() -> LayoutView {
    LayoutView {
        family: "cifar"@,
        subdir: "cifar-100-binary"@,
        label_files: seq!["coarse_label_names.txt"@, "fine_label_names.txt"@],
        train_files: seq!["train.bin"@],
        test_files: seq!["test.bin"@],
    }
}

/// The preparer of the 10-class corpus.
pub struct Cifar10 {
    remote: DatasetRemote,
    cache_dir: String,
}

impl Default for Cifar10 {
    fn default() -> (cifar: Self)
        ensures
            cifar.archive().url@ == "https://www.cs.toronto.edu/~kriz/cifar-10-binary.tar.gz"@,
            cifar.archive().size == 170052171,
            cifar.archive().md5 matches Some(digest) && digest@
                == "c32a1d4ab5d03f1284b67883e8d87530"@,
            cifar.root() == "./data"@,
    {
        Self::new(
            DatasetRemote::new(
                "https://www.cs.toronto.edu/~kriz/cifar-10-binary.tar.gz",
                170052171,
                Some("c32a1d4ab5d03f1284b67883e8d87530".to_owned()),
            ),
            "./data",
        )
    }
}

impl Cifar10 {
    /// The descriptor of the archive.
    pub closed spec fn archive(&self) -> DatasetRemote {
        self.remote
    }

    /// The cache root.
    pub closed spec fn root(&self) -> Seq<char> {
        self.cache_dir@
    }

    pub fn new(remote: DatasetRemote, cache_dir: &str) -> (cifar: Self)
        ensures
            cifar.archive() == remote,
            cifar.root() == cache_dir@,
    {
        Self { remote, cache_dir: cache_dir.to_owned() }
    }

    /// The descriptor of the archive.
    pub fn remote(&self) -> (remote: &DatasetRemote)
        ensures
            *remote == self.archive(),
    {
        &self.remote
    }

    /// The cache root.
    pub fn cache_dir(&self) -> (dir: &str)
        ensures
            dir@ == self.root(),
    {
        self.cache_dir.as_str()
    }

    /// Where the files of the corpus lie.
    pub fn layout() -> (layout: Layout)
        ensures
            layout@ == cifar10_layout(),
    {
        let mut label_files: Vec<String> = Vec::new();
        label_files.push("batches.meta.txt".to_owned());
        let mut train_files: Vec<String> = Vec::new();
        train_files.push("data_batch_1.bin".to_owned());
        train_files.push("data_batch_2.bin".to_owned());
        train_files.push("data_batch_3.bin".to_owned());
        train_files.push("data_batch_4.bin".to_owned());
        train_files.push("data_batch_5.bin".to_owned());
        let mut test_files: Vec<String> = Vec::new();
        test_files.push("test_batch.bin".to_owned());
        assert(texts(label_files@) =~= cifar10_layout().label_files);
        assert(texts(train_files@) =~= cifar10_layout().train_files);
        assert(texts(test_files@) =~= cifar10_layout().test_files);
        Layout {
            family: "cifar".to_owned(),
            subdir: "cifar-10-batches-bin".to_owned(),
            label_files,
            train_files,
            test_files,
        }
    }

    /// One decision of the preparation: see `Layout::prepare`. Where the
    /// answer is `Download`, the archive is the one of `remote`.
    pub fn prepare(&self, event: PrepareEvent) -> (action: PrepareAction)
        ensures
            action@ == cifar10_layout().step(self.root(), event),
    {
        Self::layout().prepare(self.cache_dir.as_str(), event)
    }
}

/// The preparer of the 100-class corpus.
pub struct Cifar100 {
    remote: DatasetRemote,
    cache_dir: String,
}

impl Default for Cifar100 {
    fn default() -> (cifar: Self)
        ensures
            cifar.archive().url@ == "https://www.cs.toronto.edu/~kriz/cifar-100-binary.tar.gz"@,
            cifar.archive().size == 168513733,
            cifar.archive().md5 matches Some(digest) && digest@
                == "03b5dce01913d631647c71ecec9e9cb8"@,
            cifar.root() == "./data"@,
    {
        Self::new(
            DatasetRemote::new(
                "https://www.cs.toronto.edu/~kriz/cifar-100-binary.tar.gz",
                168513733,
                Some("03b5dce01913d631647c71ecec9e9cb8".to_owned()),
            ),
            "./data",
        )
    }
}

impl Cifar100 {
    /// The descriptor of the archive.
    pub closed spec fn archive(&self) -> DatasetRemote {
        self.remote
    }

    /// The cache root.
    pub closed spec fn root(&self) -> Seq<char> {
        self.cache_dir@
    }

    pub fn new(remote: DatasetRemote, cache_dir: &str) -> (cifar: Self)
        ensures
            cifar.archive() == remote,
            cifar.root() == cache_dir@,
    {
        Self { remote, cache_dir: cache_dir.to_owned() }
    }

    /// The descriptor of the archive.
    pub fn remote(&self) -> (remote: &DatasetRemote)
        ensures
            *remote == self.archive(),
    {
        &self.remote
    }

    /// The cache root.
    pub fn cache_dir(&self) -> (dir: &str)
        ensures
            dir@ == self.root(),
    {
        self.cache_dir.as_str()
    }

    /// Where the files of the corpus lie.
    pub fn layout() -> (layout: Layout)
        ensures
            layout@ == cifar100_layout(),
    {
        let mut label_files: Vec<String> = Vec::new();
        label_files.push("coarse_label_names.txt".to_owned());
        label_files.push("fine_label_names.txt".to_owned());
        let mut train_files: Vec<String> = Vec::new();
        train_files.push("train.bin".to_owned());
        let mut test_files: Vec<String> = Vec::new();
        test_files.push("test.bin".to_owned());
        assert(texts(label_files@) =~= cifar100_layout().label_files);
        assert(texts(train_files@) =~= cifar100_layout().train_files);
        assert(texts(test_files@) =~= cifar100_layout().test_files);
        Layout {
            family: "cifar".to_owned(),
            subdir: "cifar-100-binary".to_owned(),
            label_files,
            train_files,
            test_files,
        }
    }

    /// One decision of the preparation: see `Layout::prepare`. Where the
    /// answer is `Download`, the archive is the one of `remote`.
    pub fn prepare(&self, event: PrepareEvent) -> (action: PrepareAction)
        ensures
            action@ == cifar100_layout().step(self.root(), event),
    {
        Self::layout().prepare(self.cache_dir.as_str(), event)
    }
}

/// The views of a sequence of lists of strings.
pub open spec fn nested_texts(lists: Seq<Vec<String>>) -> Seq<Seq<Seq<char>>> {
    Seq::new(lists.len(), |i: int| texts(lists[i]@))
}

/// The category names of each label file, file by file.
pub open spec fn label_lists(files: Seq<Seq<char>>) -> Seq<Seq<Seq<char>>> {
    Seq::new(files.len(), |i: int| parse_labels(files[i]))
}

/// A prepared corpus: the category names of its label files and the paths
/// of its record files.
#[derive(Debug)]
pub struct CifarDataset {
    labels: Vec<Vec<String>>,
    train_files: Vec<String>,
    test_files: Vec<String>,
}

/// A `CifarDataset` as plain values.
pub struct CifarDatasetView {
    pub labels: Seq<Seq<Seq<char>>>,
    pub train_files: Seq<Seq<char>>,
    pub test_files: Seq<Seq<char>>,
}

impl View for CifarDataset {
    type V = CifarDatasetView;

    closed spec fn view(&self) -> CifarDatasetView {
        CifarDatasetView {
            labels: nested_texts(self.labels@),
            train_files: texts(self.train_files@),
            test_files: texts(self.test_files@),
        }
    }
}

impl CifarDataset {
    /// Builds the dataset from the contents of its label files, in order,
    /// and the paths of its record files.
    pub fn new(label_files: Vec<String>, train_files: Vec<String>, test_files: Vec<String>) -> (dataset:
        Self)
        ensures
            dataset@.labels == label_lists(texts(label_files@)),
            dataset@.train_files == texts(train_files@),
            dataset@.test_files == texts(test_files@),
    {
        Self { labels: Self::read_labels(&label_files), train_files, test_files }
    }

    /// The category names of each label file: one list per file, in order.
    pub fn read_labels(files: &Vec<String>) -> (labels: Vec<Vec<String>>)
        ensures
            nested_texts(labels@) == label_lists(texts(files@)),
    {
        let mut labels: Vec<Vec<String>> = Vec::new();
        let mut i: usize = 0;
        while i < files.len()
            invariant
                i <= files.len(),
                labels@.len() == i,
                forall|k: int| 0 <= k < i ==> texts((#[trigger] labels@[k])@) == parse_labels(files@[k]@),
            decreases files.len() - i,
        {
            labels.push(read_labels(files[i].as_str()));
            i = i + 1;
        }
        assert(nested_texts(labels@) =~= label_lists(texts(files@)));
        labels
    }

    /// The category names, one list per label file.
    pub fn labels(&self) -> (labels: &Vec<Vec<String>>)
        ensures
            nested_texts(labels@) == self@.labels,
    {
        &self.labels
    }

    /// The paths of the files that hold the training records.
    pub fn train_files(&self) -> (files: &Vec<String>)
        ensures
            texts(files@) == self@.train_files,
    {
        &self.train_files
    }

    /// The paths of the files that hold the test records.
    pub fn test_files(&self) -> (files: &Vec<String>)
        ensures
            texts(files@) == self@.test_files,
    {
        &self.test_files
    }

    /// The number of label bytes in front of each record: one per label
    /// file.
    pub open spec fn label_bytes(&self) -> nat {
        self@.labels.len()
    }

    /// The number of bytes of one record.
    pub open spec fn record_size(&self) -> nat {
        self.label_bytes() + 3072
    }

    /// Whether `files` decode to this pair of matrices or, where they do
    /// not divide into records, to `MalformedRecord`.
    pub open spec fn decodes_to(&self, files: Seq<Vec<u8>>, r: Result<(Matrix, Matrix), DatasetError>) -> bool {
        let data = concat(contents(files));
        match r {
            Ok((labels, features)) => {
                &&& decodable(data.len(), self.label_bytes(), self.record_size())
                &&& matrix_width(labels) == self.label_bytes()
                &&& matrix_rows(labels) == label_rows(data, self.label_bytes(), self.record_size())
                &&& matrix_width(features) == 3072
                &&& matrix_rows(features) == feature_rows(
                    data,
                    self.label_bytes(),
                    self.record_size(),
                )
            },
            Err(e) => e == DatasetError::MalformedRecord && !decodable(
                data.len(),
                self.label_bytes(),
                self.record_size(),
            ),
        }
    }

    /// Decodes the contents of record files, given in order, into the
    /// label matrix and the feature matrix.
    pub fn read_data(&self, files: &Vec<Vec<u8>>) -> (r: Result<(Matrix, Matrix), DatasetError>)
        ensures
            self.decodes_to(files@, r),
    {
        let label_count = self.labels.len();
        if label_count > usize::MAX - IMAGE_SIZE {
            return Err(DatasetError::MalformedRecord);
        }
        decode(files, label_count, label_count + IMAGE_SIZE)
    }

    /// Decodes the contents of the training files, given in the order of
    /// `train_files`.
    pub fn get_train_data(&self, files: &Vec<Vec<u8>>) -> (r: Result<(Matrix, Matrix), DatasetError>)
        ensures
            self.decodes_to(files@, r),
    {
        self.read_data(files)
    }

    /// Decodes the contents of the test files, given in the order of
    /// `test_files`.
    pub fn get_test_data(&self, files: &Vec<Vec<u8>>) -> (r: Result<(Matrix, Matrix), DatasetError>)
        ensures
            self.decodes_to(files@, r),
    {
        self.read_data(files)
    }
}

} // verus!
