use datasets::sets::base::DatasetRemote;
use datasets::sets::cifar::{Cifar10, Cifar100, CifarDataset};
use datasets::sets::layout::{all_true, Layout, PrepareAction, PrepareEvent};
use datasets::sets::mnist::{join_all, Mnist, MnistAction, MnistDataset, MnistEvent};
use datasets::utils::DatasetError;

fn strings(items: &[&str]) -> Vec<String> {
    items.iter().map(|s| s.to_string()).collect()
}

fn check(action: PrepareAction) -> Vec<String> {
    match action {
        PrepareAction::Check(files) => files,
        _ => panic!("expected a check"),
    }
}

fn download(action: PrepareAction) -> String {
    match action {
        PrepareAction::Download(dir) => dir,
        _ => panic!("expected a download"),
    }
}

fn load(action: PrepareAction) -> (Vec<String>, Vec<String>, Vec<String>) {
    match action {
        PrepareAction::Load { label_files, train_files, test_files } => (label_files, train_files, test_files),
        _ => panic!("expected a load"),
    }
}

#[test]
fn cifar10_defaults() {
    let cifar = Cifar10::default();
    assert_eq!(cifar.remote().url, "https://www.cs.toronto.edu/~kriz/cifar-10-binary.tar.gz");
    assert_eq!(cifar.remote().size, 170052171);
    assert_eq!(cifar.remote().md5, Some(String::from("c32a1d4ab5d03f1284b67883e8d87530")));
    assert_eq!(cifar.cache_dir(), "./data");
    assert_eq!(cifar.remote().local_path("./data/cifar"), Ok(String::from("./data/cifar/cifar-10-binary.tar.gz")));
}

#[test]
fn cifar100_defaults() {
    let cifar = Cifar100::default();
    assert_eq!(cifar.remote().url, "https://www.cs.toronto.edu/~kriz/cifar-100-binary.tar.gz");
    assert_eq!(cifar.remote().size, 168513733);
    assert_eq!(cifar.remote().md5, Some(String::from("03b5dce01913d631647c71ecec9e9cb8")));
    assert_eq!(cifar.cache_dir(), "./data");
}

#[test]
fn cifar10_expects_its_eight_files() {
    let cifar = Cifar10::new(DatasetRemote::new("http://h/a.tgz", 1, None), "root");
    let files = check(cifar.prepare(PrepareEvent::Start));
    assert_eq!(
        files,
        strings(&[
            "root/cifar/cifar-10-batches-bin/batches.meta.txt",
            "root/cifar/cifar-10-batches-bin/data_batch_1.bin",
            "root/cifar/cifar-10-batches-bin/data_batch_2.bin",
            "root/cifar/cifar-10-batches-bin/data_batch_3.bin",
            "root/cifar/cifar-10-batches-bin/data_batch_4.bin",
            "root/cifar/cifar-10-batches-bin/data_batch_5.bin",
            "root/cifar/cifar-10-batches-bin/test_batch.bin",
        ])
    );
}

#[test]
fn cifar100_expects_its_four_files() {
    let files = check(Cifar100::default().prepare(PrepareEvent::Start));
    assert_eq!(
        files,
        strings(&[
            "./data/cifar/cifar-100-binary/coarse_label_names.txt",
            "./data/cifar/cifar-100-binary/fine_label_names.txt",
            "./data/cifar/cifar-100-binary/train.bin",
            "./data/cifar/cifar-100-binary/test.bin",
        ])
    );
}

#[test]
fn prepare_skips_the_network_where_every_file_is_there() {
    let cifar = Cifar10::default();
    let (labels, train, test) = load(cifar.prepare(PrepareEvent::Checked(vec![true; 7])));
    assert_eq!(labels, strings(&["./data/cifar/cifar-10-batches-bin/batches.meta.txt"]));
    assert_eq!(train.len(), 5);
    assert_eq!(train[4], "./data/cifar/cifar-10-batches-bin/data_batch_5.bin");
    assert_eq!(test, strings(&["./data/cifar/cifar-10-batches-bin/test_batch.bin"]));
}

#[test]
fn prepare_downloads_where_a_file_is_missing() {
    let cifar = Cifar10::default();
    let mut present = vec![true; 7];
    present[6] = false;
    assert_eq!(download(cifar.prepare(PrepareEvent::Checked(present))), "./data/cifar");
    assert_eq!(download(cifar.prepare(PrepareEvent::Checked(vec![false; 7]))), "./data/cifar");
    assert_eq!(download(cifar.prepare(PrepareEvent::Checked(vec![true; 6]))), "./data/cifar");
    assert_eq!(download(cifar.prepare(PrepareEvent::Checked(vec![true; 8]))), "./data/cifar");
    assert_eq!(download(cifar.prepare(PrepareEvent::Checked(Vec::new()))), "./data/cifar");
}

#[test]
fn prepare_loads_after_the_download() {
    let (labels, train, test) = load(Cifar100::default().prepare(PrepareEvent::Downloaded));
    assert_eq!(
        labels,
        strings(&[
            "./data/cifar/cifar-100-binary/coarse_label_names.txt",
            "./data/cifar/cifar-100-binary/fine_label_names.txt",
        ])
    );
    assert_eq!(train, strings(&["./data/cifar/cifar-100-binary/train.bin"]));
    assert_eq!(test, strings(&["./data/cifar/cifar-100-binary/test.bin"]));
}

#[test]
fn layout_takes_any_number_of_files() {
    let layout = Layout {
        family: String::from("fam"),
        subdir: String::from("sub"),
        label_files: Vec::new(),
        train_files: strings(&["a", "b", "c"]),
        test_files: Vec::new(),
    };
    assert_eq!(layout.dir("r"), "r/fam");
    assert_eq!(layout.base("r"), "r/fam/sub");
    assert_eq!(layout.expected("r"), strings(&["r/fam/sub/a", "r/fam/sub/b", "r/fam/sub/c"]));
    assert!(layout.cache_ready(&vec![true, true, true]));
    assert!(!layout.cache_ready(&vec![true, false, true]));
    assert!(!layout.cache_ready(&vec![true, true]));
    let none = Layout {
        family: String::new(),
        subdir: String::new(),
        label_files: Vec::new(),
        train_files: Vec::new(),
        test_files: Vec::new(),
    };
    assert!(none.cache_ready(&Vec::new()));
    let (labels, train, test) = load(none.prepare("r", PrepareEvent::Checked(Vec::new())));
    assert!(labels.is_empty() && train.is_empty() && test.is_empty());
    assert!(all_true(&Vec::new()));
    assert!(!all_true(&vec![true, false]));
}

/// Walks through a preparation over a set of files that exist.
fn walk(step: &dyn Fn(PrepareEvent) -> PrepareAction, disk: &mut Vec<String>) -> (u32, CifarDataset) {
    let mut downloads = 0;
    let mut event = PrepareEvent::Start;
    loop {
        match step(event) {
            PrepareAction::Check(files) => {
                event = PrepareEvent::Checked(files.iter().map(|f| disk.contains(f)).collect());
            }
            PrepareAction::Download(dir) => {
                downloads += 1;
                for f in check(step(PrepareEvent::Start)) {
                    assert!(f.starts_with(&dir));
                    disk.push(f);
                }
                event = PrepareEvent::Downloaded;
            }
            PrepareAction::Load { label_files, train_files, test_files } => {
                let texts = label_files.iter().map(|_| String::from("cat\n\ndog\n")).collect();
                return (downloads, CifarDataset::new(texts, train_files, test_files));
            }
        }
    }
}

#[test]
fn test_cifar_10() {
    let preparer = Cifar10::default();
    let mut disk = Vec::new();
    let (downloads, cifar10) = walk(&|e| preparer.prepare(e), &mut disk);
    println!("cifar10 = {:?}", cifar10);
    assert_eq!(downloads, 1);
    assert_eq!(cifar10.labels(), &vec![strings(&["cat", "dog"])]);
    assert_eq!(cifar10.train_files().len(), 5);
    assert_eq!(cifar10.test_files().len(), 1);
    let (again, _) = walk(&|e| preparer.prepare(e), &mut disk);
    assert_eq!(again, 0);
    let record = vec![1u8; 3073];
    let (labels, features) = cifar10.get_train_data(&vec![record.clone(), record.clone()]).unwrap();
    assert_eq!((labels.nrows(), labels.ncols()), (2, 1));
    assert_eq!((features.nrows(), features.ncols()), (2, 3072));
    cifar10.get_test_data(&vec![record]).unwrap();
}

#[test]
fn test_cifar_100() {
    let preparer = Cifar100::default();
    let mut disk = Vec::new();
    let (downloads, cifar100) = walk(&|e| preparer.prepare(e), &mut disk);
    println!("cifar100 = {:?}", cifar100);
    assert_eq!(downloads, 1);
    assert_eq!(cifar100.labels().len(), 2);
    let record = vec![1u8; 3074];
    let (labels, features) = cifar100.get_train_data(&vec![record.clone()]).unwrap();
    assert_eq!((labels.nrows(), labels.ncols()), (1, 2));
    assert_eq!((features.nrows(), features.ncols()), (1, 3072));
    cifar100.get_test_data(&vec![record]).unwrap();
}

#[test]
fn join_all_gives_all_values_or_the_first_error() {
    let all = [Ok(String::from("a")), Ok(String::from("b"))];
    assert_eq!(join_all(&all), Ok(strings(&["a", "b"])));
    let some = [
        Ok(String::from("a")),
        Err(DatasetError::Integrity),
        Ok(String::from("c")),
        Err(DatasetError::SizeMismatch),
    ];
    assert_eq!(join_all(&some), Err(DatasetError::Integrity));
    assert_eq!(join_all(&[]), Ok(Vec::new()));
    assert_eq!(join_all(&[Err(DatasetError::HttpStatus(404))]), Err(DatasetError::HttpStatus(404)));
}

#[test]
fn mnist_defaults() {
    let mnist = Mnist::default();
    let remotes = mnist.remotes();
    assert_eq!(remotes[0].url, "http://yann.lecun.com/exdb/mnist/train-images-idx3-ubyte.gz");
    assert_eq!(remotes[0].size, 9912422);
    assert_eq!(remotes[0].md5, Some(String::from("f68b3c2dcbeaaa9fbdd348bbdeb94873")));
    assert_eq!(remotes[1].url, "http://yann.lecun.com/exdb/mnist/train-labels-idx1-ubyte.gz");
    assert_eq!(remotes[1].size, 28881);
    assert_eq!(remotes[1].md5, Some(String::from("d53e105ee54ea40749a09fcbcd1e9432")));
    assert_eq!(remotes[2].url, "http://yann.lecun.com/exdb/mnist/t10k-images-idx3-ubyte.gz");
    assert_eq!(remotes[2].size, 1648877);
    assert_eq!(remotes[2].md5, Some(String::from("9fb629c4189551a2d022fa330f9573f3")));
    assert_eq!(remotes[3].url, "http://yann.lecun.com/exdb/mnist/t10k-labels-idx1-ubyte.gz");
    assert_eq!(remotes[3].size, 4542);
    assert_eq!(remotes[3].md5, Some(String::from("ec29112dd5afa0611ce80d1b7f02629c")));
    assert_eq!(mnist.cache_dir(), "./data");
}

#[test]
fn mnist_downloads_into_its_directory() {
    match Mnist::default().prepare(MnistEvent::Start) {
        Ok(MnistAction::Download(dir)) => assert_eq!(dir, "./data/mnist"),
        _ => panic!("expected a download"),
    }
}

#[test]
fn mnist_loads_where_every_download_succeeded() {
    let results = [
        Ok(String::from("d/a")),
        Ok(String::from("d/b")),
        Ok(String::from("d/c")),
        Ok(String::from("d/d")),
    ];
    match Mnist::default().prepare(MnistEvent::Downloaded(results)) {
        Ok(MnistAction::Load { train_data, train_label, test_data, test_label }) => {
            assert_eq!(train_data, "d/a");
            assert_eq!(train_label, "d/b");
            assert_eq!(test_data, "d/c");
            assert_eq!(test_label, "d/d");
        }
        _ => panic!("expected a load"),
    }
}

#[test]
fn mnist_fails_with_the_first_download_that_failed() {
    let results = [
        Ok(String::from("d/a")),
        Err(DatasetError::SizeMismatch),
        Ok(String::from("d/c")),
        Err(DatasetError::Integrity),
    ];
    assert_eq!(
        Mnist::default().prepare(MnistEvent::Downloaded(results)).err(),
        Some(DatasetError::SizeMismatch)
    );
}

#[test]
fn mnist_dataset_reads_its_label_files() {
    let dataset = MnistDataset::new(String::from("d/a"), "0\n1\n\n2\n", String::from("d/c"), "");
    assert_eq!(dataset.train_data(), "d/a");
    assert_eq!(dataset.train_labels(), &strings(&["0", "1", "2"]));
    assert_eq!(dataset.test_data(), "d/c");
    assert!(dataset.test_labels().is_empty());
    assert_eq!(MnistDataset::read_labels("cat\n\ndog\n"), strings(&["cat", "dog"]));
}
