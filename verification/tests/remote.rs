use datasets::sets::base::{
    local_file, DatasetCache, DatasetRemote, DownloadAction, DownloadEvent, FileFormat,
};
use datasets::utils::{md5, DatasetError};

fn remote(digest: Option<&str>, size: u64) -> DatasetRemote {
    DatasetRemote::new("https://example.com/files/archive.tar.gz", size, digest.map(String::from))
}

#[test]
fn new_keeps_its_arguments() {
    let r = DatasetRemote::new("http://host/x", 7, Some(String::from("abc")));
    assert_eq!(r.url, "http://host/x");
    assert_eq!(r.size, 7);
    assert_eq!(r.md5, Some(String::from("abc")));
    assert_eq!(DatasetCache::new(), DatasetCache {});
    assert_ne!(FileFormat::Raw, FileFormat::TarGzip);
}

#[test]
fn local_path_is_named_after_the_last_segment() {
    let r = remote(None, 1);
    assert_eq!(r.local_path("./data/cifar"), Ok(String::from("./data/cifar/archive.tar.gz")));
    let query = DatasetRemote::new("https://example.com/a/b.bin?x=1#frag", 1, None);
    assert_eq!(query.local_path("d"), Ok(String::from("d/b.bin")));
}

#[test]
fn local_path_of_a_url_without_a_file_name() {
    let bare = DatasetRemote::new("https://example.com", 1, None);
    assert_eq!(bare.local_path("d"), Ok(String::from("d/")));
}

#[test]
fn local_path_refuses_what_is_no_url() {
    let r = DatasetRemote::new("not a url", 1, None);
    assert_eq!(r.local_path("d"), Err(DatasetError::MalformedUrl));
    let relative = DatasetRemote::new("/only/a/path", 1, None);
    assert_eq!(relative.local_path("d"), Err(DatasetError::MalformedUrl));
}

#[test]
fn local_path_refuses_a_url_without_segments() {
    let r = DatasetRemote::new("data:text/plain,HelloWorld", 1, None);
    assert_eq!(r.local_path("d"), Err(DatasetError::MalformedUrl));
    let mail = DatasetRemote::new("mailto:someone@example.com", 1, None);
    assert_eq!(mail.local_path("d"), Err(DatasetError::MalformedUrl));
}

#[test]
fn local_file_takes_the_last_of_the_segments() {
    let parts = vec![String::from("a"), String::from("b"), String::from("c.bin")];
    assert_eq!(local_file("root", Some(parts)), Ok(String::from("root/c.bin")));
    assert_eq!(local_file("root", Some(Vec::new())), Err(DatasetError::MalformedUrl));
    assert_eq!(local_file("root", None), Err(DatasetError::MalformedUrl));
}

#[test]
fn a_missing_file_is_not_valid() {
    assert!(!remote(None, 0).is_exists(None));
    assert!(!remote(Some("d41d8cd98f00b204e9800998ecf8427e"), 0).is_exists(None));
}

#[test]
fn a_file_of_the_wrong_size_is_not_valid() {
    let content = b"abc";
    let digest = md5(content);
    assert!(remote(Some(&digest), 3).is_exists(Some(content)));
    assert!(!remote(Some(&digest), 4).is_exists(Some(content)));
    assert!(!remote(None, 2).is_exists(Some(content)));
    let longer = b"abcd";
    let prefix_digest = md5(&longer[..3]);
    assert!(!remote(Some(&prefix_digest), 3).is_exists(Some(longer)));
}

#[test]
fn a_file_with_the_wrong_digest_is_not_valid() {
    assert!(remote(None, 3).is_exists(Some(b"abc")));
    assert!(remote(Some("900150983cd24fb0d6963f7d28e17f72"), 3).is_exists(Some(b"abc")));
    assert!(!remote(Some("900150983cd24fb0d6963f7d28e17f73"), 3).is_exists(Some(b"abc")));
    assert!(!remote(Some("900150983CD24FB0D6963F7D28E17F72"), 3).is_exists(Some(b"abc")));
}

#[test]
fn check_digest_compares_with_the_expected_one() {
    let r = remote(Some("aa"), 1);
    assert_eq!(r.check_digest("aa"), Ok(()));
    assert_eq!(r.check_digest("ab"), Err(DatasetError::Integrity));
    assert_eq!(remote(None, 1).check_digest("anything"), Ok(()));
    assert_eq!(r.accept(b"abc"), Err(DatasetError::Integrity));
    assert_eq!(remote(Some("900150983cd24fb0d6963f7d28e17f72"), 1).accept(b"abc"), Ok(()));
}

fn expect_path(action: Result<DownloadAction, DatasetError>, kind: &str) -> String {
    match action {
        Ok(DownloadAction::Stat(p)) if kind == "stat" => p,
        Ok(DownloadAction::Load(p)) if kind == "load" => p,
        Ok(DownloadAction::Done(p)) if kind == "done" => p,
        Ok(DownloadAction::Fetch(u, _)) if kind == "fetch" => u,
        Ok(DownloadAction::Store(p, _)) if kind == "store" => p,
        _ => panic!("expected {}", kind),
    }
}

#[test]
fn download_starts_with_a_look_at_the_local_file() {
    let r = remote(None, 3);
    assert_eq!(expect_path(r.download_to("dir", DownloadEvent::Start), "stat"), "dir/archive.tar.gz");
}

#[test]
fn download_of_a_malformed_url_fails_at_every_step() {
    let r = DatasetRemote::new("no url", 3, None);
    assert_eq!(r.download_to("dir", DownloadEvent::Start).err(), Some(DatasetError::MalformedUrl));
    assert_eq!(r.download_to("dir", DownloadEvent::Stored).err(), Some(DatasetError::MalformedUrl));
    assert_eq!(
        r.download_to("dir", DownloadEvent::Sized(Some(3))).err(),
        Some(DatasetError::MalformedUrl)
    );
}

#[test]
fn download_fetches_where_the_file_is_missing_or_of_the_wrong_size() {
    let r = remote(Some("900150983cd24fb0d6963f7d28e17f72"), 3);
    match r.download_to("dir", DownloadEvent::Sized(None)) {
        Ok(DownloadAction::Fetch(url, size)) => {
            assert_eq!(url, "https://example.com/files/archive.tar.gz");
            assert_eq!(size, 3);
        }
        _ => panic!("expected a fetch"),
    }
    expect_path(r.download_to("dir", DownloadEvent::Sized(Some(4))), "fetch");
    expect_path(r.download_to("dir", DownloadEvent::Sized(Some(0))), "fetch");
}

#[test]
fn download_reads_the_file_only_where_a_digest_is_expected() {
    let with = remote(Some("900150983cd24fb0d6963f7d28e17f72"), 3);
    assert_eq!(
        expect_path(with.download_to("dir", DownloadEvent::Sized(Some(3))), "load"),
        "dir/archive.tar.gz"
    );
    let without = remote(None, 3);
    assert_eq!(
        expect_path(without.download_to("dir", DownloadEvent::Sized(Some(3))), "done"),
        "dir/archive.tar.gz"
    );
}

#[test]
fn download_judges_the_content_of_the_local_file() {
    let r = remote(Some("900150983cd24fb0d6963f7d28e17f72"), 3);
    expect_path(r.download_to("dir", DownloadEvent::Loaded(Some(b"abc".to_vec()))), "done");
    expect_path(r.download_to("dir", DownloadEvent::Loaded(Some(b"abd".to_vec()))), "fetch");
    expect_path(r.download_to("dir", DownloadEvent::Loaded(None)), "fetch");
}

#[test]
fn download_never_stores_a_body_with_the_wrong_digest() {
    let r = remote(Some("900150983cd24fb0d6963f7d28e17f72"), 3);
    let bad = bytes::Bytes::from_static(b"abd");
    assert_eq!(r.download_to("dir", DownloadEvent::Fetched(bad)).err(), Some(DatasetError::Integrity));
    let good = bytes::Bytes::from_static(b"abc");
    match r.download_to("dir", DownloadEvent::Fetched(good)) {
        Ok(DownloadAction::Store(path, body)) => {
            assert_eq!(path, "dir/archive.tar.gz");
            assert_eq!(&body[..], b"abc");
        }
        _ => panic!("expected a store"),
    }
    expect_path(r.download_to("dir", DownloadEvent::Stored), "done");
}

#[test]
fn download_stores_any_body_where_no_digest_is_expected() {
    let r = remote(None, 3);
    let body = bytes::Bytes::from_static(b"whatever");
    expect_path(r.download_to("dir", DownloadEvent::Fetched(body)), "store");
}

/// Drives `download_to` over a file system of one optional file and counts
/// the transfers.
fn run(r: &DatasetRemote, disk: &mut Option<Vec<u8>>, served: &[u8]) -> (Result<String, DatasetError>, u32) {
    let mut fetches = 0;
    let mut event = DownloadEvent::Start;
    loop {
        match r.download_to("cache", event) {
            Err(e) => return (Err(e), fetches),
            Ok(DownloadAction::Done(path)) => return (Ok(path), fetches),
            Ok(DownloadAction::Stat(_)) => {
                event = DownloadEvent::Sized(disk.as_ref().map(|c| c.len() as u64));
            }
            Ok(DownloadAction::Load(_)) => {
                event = DownloadEvent::Loaded(disk.clone());
            }
            Ok(DownloadAction::Fetch(_, _)) => {
                fetches += 1;
                event = DownloadEvent::Fetched(bytes::Bytes::copy_from_slice(served));
            }
            Ok(DownloadAction::Store(_, body)) => {
                *disk = Some(body.to_vec());
                event = DownloadEvent::Stored;
            }
        }
    }
}

#[test]
fn a_second_download_does_not_touch_the_network() {
    let r = remote(Some("900150983cd24fb0d6963f7d28e17f72"), 3);
    let mut disk = None;
    let (first, fetches) = run(&r, &mut disk, b"abc");
    assert_eq!(first, Ok(String::from("cache/archive.tar.gz")));
    assert_eq!(fetches, 1);
    assert_eq!(disk, Some(b"abc".to_vec()));
    let (second, fetches) = run(&r, &mut disk, b"abc");
    assert_eq!(second, Ok(String::from("cache/archive.tar.gz")));
    assert_eq!(fetches, 0);
}

#[test]
fn a_corrupted_copy_is_fetched_again() {
    let r = remote(Some("900150983cd24fb0d6963f7d28e17f72"), 3);
    let mut disk = Some(b"xyz".to_vec());
    let (path, fetches) = run(&r, &mut disk, b"abc");
    assert!(path.is_ok());
    assert_eq!(fetches, 1);
    assert_eq!(disk, Some(b"abc".to_vec()));
}

#[test]
fn a_body_with_the_wrong_digest_leaves_the_disk_alone() {
    let r = remote(Some("900150983cd24fb0d6963f7d28e17f72"), 3);
    let mut disk = None;
    let (outcome, fetches) = run(&r, &mut disk, b"abd");
    assert_eq!(outcome, Err(DatasetError::Integrity));
    assert_eq!(fetches, 1);
    assert_eq!(disk, None);
}
