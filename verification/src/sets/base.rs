use vstd::prelude::*;

use crate::utils::{bytes_content, bytes_slice, join_path, md5, md5_hex, path_join, texts, DatasetError};

verus! {

/// How a downloaded artifact is packed.
#[derive(Debug, Clone, Copy, PartialEq, Eq, Structural)]
pub enum FileFormat {
    Raw,
    Tar,
    TarGzip,
    Gzip,
}

/// The handle of the local cache. It carries no state: whether a cached file
/// is valid is read off the file itself each time.
#[derive(Debug, Clone, Copy, PartialEq, Eq, Structural)]
pub struct DatasetCache {}

impl DatasetCache {
    pub fn new() -> (cache: Self)
        ensures
            cache == (DatasetCache {  }),
    {
        Self {  }
    }
}

/// What the `url` crate makes of a URL: `None` where it does not parse,
/// `Some(None)` where it parses to a URL whose path has no segments, and
/// else the segments of its path, in order.
pub uninterp spec fn url_path_segments(url: Seq<char>) -> Option<Option<Seq<Seq<char>>>>;

/// `url::ParseError`, carried through as an opaque value.
#[verifier::external_type_specification]
#[verifier::external_body]
pub struct ExParseError(url::ParseError);

/// A list of path segments as plain values.
pub open spec fn segment_texts(segments: Option<Vec<String>>) -> Option<Seq<Seq<char>>> {
    match segments {
        Some(parts) => Some(texts(parts@)),
        None => None,
    }
}

/// The outcome of `path_segments` as plain values.
pub open spec fn segments_view(outcome: Result<Option<Vec<String>>, url::ParseError>) -> Option<
    Option<Seq<Seq<char>>>,
> {
    match outcome {
        Err(_) => None,
        Ok(segments) => Some(segment_texts(segments)),
    }
}

/// Calls `url::Url::parse` and then `Url::path_segments` on the parsed URL.
/// The outcome depends on the text alone. Where segments come back there is
/// at least one, as the crate documents; it may be empty.
#[verifier::external_body]
fn path_segments(url: &str) -> (outcome: Result<Option<Vec<String>>, url::ParseError>)
    ensures
        segments_view(outcome) == url_path_segments(url@),
        outcome matches Ok(Some(segments)) ==> segments@.len() >= 1,
{
    let parsed = url::Url::parse(url)?;
    Ok(parsed.path_segments().map(|parts| parts.map(String::from).collect()))
}

/// The file name that a list of path segments gives: the last of them.
pub open spec fn last_segment(segments: Option<Option<Seq<Seq<char>>>>) -> Option<Seq<char>> {
    match segments {
        Some(Some(parts)) => if parts.len() > 0 {
            Some(parts.last())
        } else {
            None
        },
        _ => None,
    }
}

/// The local path for a file named after the last of `segments`, under `dst`.
pub open spec fn path_from_segments(dst: Seq<char>, segments: Option<Seq<Seq<char>>>) -> Option<
    Seq<char>,
> {
    match last_segment(Some(segments)) {
        Some(name) => Some(path_join(dst, name)),
        None => None,
    }
}

/// Names the local file after the last path segment of a URL: `segments` is
/// what the URL's path holds, `None` where it has no segments.
pub fn local_file(dst: &str, segments: Option<Vec<String>>) -> (r: Result<String, DatasetError>)
    ensures
        match r {
            Ok(path) => path_from_segments(dst@, segment_texts(segments)) == Some(path@),
            Err(e) => e == DatasetError::MalformedUrl && path_from_segments(
                dst@,
                segment_texts(segments),
            ) is None,
        },
{
    match segments {
        None => Err(DatasetError::MalformedUrl),
        Some(parts) => {
            if parts.len() == 0 {
                Err(DatasetError::MalformedUrl)
            } else {
                Ok(join_path(dst, parts[parts.len() - 1].as_str()))
            }
        },
    }
}

/// One downloadable file: where it is, how long it is, and the digest it
/// has, where one is known.
pub struct DatasetRemote {
    pub url: String,
    pub size: u64,
    pub md5: Option<String>,
}

/// What the driver reports back to `DatasetRemote::download_to`.
pub enum DownloadEvent {
    /// Nothing has happened yet.
    Start,
    /// The size of the local file, `None` where there is none to measure.
    Sized(Option<u64>),
    /// The content of the local file, `None` where it cannot be read.
    Loaded(Option<Vec<u8>>),
    /// The body that the transfer brought.
    Fetched(bytes::Bytes),
    /// The body has been written to the local file.
    Stored,
}

/// What `DatasetRemote::download_to` asks the driver to do next.
pub enum DownloadAction {
    /// Measure the file at this path and report `Sized`.
    Stat(String),
    /// Read the file at this path and report `Loaded`.
    Load(String),
    /// Fetch this URL, whose body is expected to have this size, and report `Fetched`.
    Fetch(String, u64),
    /// Create the parent directories, write these bytes to this path and report `Stored`.
    Store(String, bytes::Bytes),
    /// The file at this path is the local copy.
    Done(String),
}

/// A `DownloadAction` as plain values.
pub enum DownloadStep {
    Stat(Seq<char>),
    Load(Seq<char>),
    Fetch(Seq<char>, u64),
    Store(Seq<char>, Seq<u8>),
    Done(Seq<char>),
}

impl View for DownloadAction {
    type V = DownloadStep;

    open spec fn view(&self) -> DownloadStep {
        match self {
            DownloadAction::Stat(path) => DownloadStep::Stat(path@),
            DownloadAction::Load(path) => DownloadStep::Load(path@),
            DownloadAction::Fetch(url, size) => DownloadStep::Fetch(url@, *size),
            DownloadAction::Store(path, body) => DownloadStep::Store(path@, bytes_content(*body)),
            DownloadAction::Done(path) => DownloadStep::Done(path@),
        }
    }
}

/// The outcome of a step as plain values.
pub open spec fn step_view(outcome: Result<DownloadAction, DatasetError>) -> Result<
    DownloadStep,
    DatasetError,
> {
    match outcome {
        Ok(action) => Ok(action@),
        Err(e) => Err(e),
    }
}

impl DatasetRemote {
    pub fn new(url: &str, size: u64, md5: Option<String>) -> (remote: Self)
        ensures
            remote.url@ == url@,
            remote.size == size,
            remote.md5 == md5,
    {
        Self { url: url.to_owned(), size, md5 }
    }

    /// Whether `digest` is the digest that the descriptor expects. A
    /// descriptor without a digest expects any.
    pub open spec fn expects(&self, digest: Seq<char>) -> bool {
        self.md5 matches Some(expected) ==> expected@ == digest
    }

    /// Whether a local file with this content, `None` for no file, can stand
    /// for the remote one: it has the expected size and the expected digest.
    pub open spec fn file_is_valid(&self, file: Option<Seq<u8>>) -> bool {
        file matches Some(content) && content.len() == self.size && self.expects(md5_hex(content))
    }

    /// The path of the local copy under `dst`: the file is named after the
    /// last path segment of the URL. `None` where the URL gives no name.
    pub open spec fn target(&self, dst: Seq<char>) -> Option<Seq<char>> {
        match url_path_segments(self.url@) {
            Some(segments) => path_from_segments(dst, segments),
            None => None,
        }
    }

    /// The next step towards a local copy at `path`, given what the driver
    /// reports.
    pub open spec fn next(&self, path: Seq<char>, event: DownloadEvent) -> Result<
        DownloadStep,
        DatasetError,
    > {
        match event {
            DownloadEvent::Start => Ok(DownloadStep::Stat(path)),
            DownloadEvent::Sized(size) => if size != Some(self.size) {
                Ok(DownloadStep::Fetch(self.url@, self.size))
            } else if self.md5 is Some {
                Ok(DownloadStep::Load(path))
            } else {
                Ok(DownloadStep::Done(path))
            },
            DownloadEvent::Loaded(content) => if content matches Some(bytes) && self.expects(
                md5_hex(bytes@),
            ) {
                Ok(DownloadStep::Done(path))
            } else {
                Ok(DownloadStep::Fetch(self.url@, self.size))
            },
            DownloadEvent::Fetched(body) => if self.expects(md5_hex(bytes_content(body))) {
                Ok(DownloadStep::Store(path, bytes_content(body)))
            } else {
                Err(DatasetError::Integrity)
            },
            DownloadEvent::Stored => Ok(DownloadStep::Done(path)),
        }
    }

    /// The path of the local copy under the directory `dst`.
    pub fn local_path(&self, dst: &str) -> (r: Result<String, DatasetError>)
        ensures
            match r {
                Ok(path) => self.target(dst@) == Some(path@),
                Err(e) => e == DatasetError::MalformedUrl && self.target(dst@) is None,
            },
    {
        match path_segments(self.url.as_str()) {
            Ok(segments) => local_file(dst, segments),
            Err(_) => Err(DatasetError::MalformedUrl),
        }
    }

    /// Whether `digest` is the expected one.
    pub fn check_digest(&self, digest: &str) -> (r: Result<(), DatasetError>)
        ensures
            r == if self.expects(digest@) {
                Ok::<(), DatasetError>(())
            } else {
                Err(DatasetError::Integrity)
            },
    {
        match &self.md5 {
            None => Ok(()),
            Some(expected) => {
                let given = digest.to_owned();
                if *expected == given {
                    Ok(())
                } else {
                    Err(DatasetError::Integrity)
                }
            },
        }
    }

    /// Whether downloaded bytes have the expected digest.
    pub fn accept(&self, body: &[u8]) -> (r: Result<(), DatasetError>)
        ensures
            r == if self.expects(md5_hex(body@)) {
                Ok::<(), DatasetError>(())
            } else {
                Err(DatasetError::Integrity)
            },
    {
        match &self.md5 {
            None => Ok(()),
            Some(_) => {
                let digest = md5(body);
                self.check_digest(digest.as_str())
            },
        }
    }

    /// Whether a local file, given by its content, satisfies the descriptor.
    /// `None` stands for a file that is not there.
    pub fn is_exists(&self, file: Option<&[u8]>) -> (valid: bool)
        ensures
            valid == self.file_is_valid(
                match file {
                    Some(content) => Some(content@),
                    None => None,
                },
            ),
    {
        match file {
            None => false,
            Some(content) => {
                if content.len() as u64 != self.size {
                    false
                } else {
                    self.accept(content).is_ok()
                }
            },
        }
    }

    /// One decision on the way to a local copy under the directory `dst`.
    ///
    /// The driver starts with `Start`, does what each answer asks and
    /// reports the outcome, until the answer is `Done` or an error. The local
    /// file is measured first and read only where its size is right and a
    /// digest is expected; the network is used only where the local file
    /// does not do; and a body with the wrong digest is never stored.
    pub fn download_to(&self, dst: &str, event: DownloadEvent) -> (r: Result<
        DownloadAction,
        DatasetError,
    >)
        ensures
            match self.target(dst@) {
                Some(path) => step_view(r) == self.next(path, event),
                None => r matches Err(e) && e == DatasetError::MalformedUrl,
            },
    {
        let path = match self.local_path(dst) {
            Ok(path) => path,
            Err(e) => {
                return Err(e);
            },
        };
        match event {
            DownloadEvent::Start => Ok(DownloadAction::Stat(path)),
            DownloadEvent::Sized(size) => {
                let fits = match size {
                    Some(n) => n == self.size,
                    None => false,
                };
                if !fits {
                    Ok(DownloadAction::Fetch(self.url.clone(), self.size))
                } else if self.md5.is_some() {
                    Ok(DownloadAction::Load(path))
                } else {
                    Ok(DownloadAction::Done(path))
                }
            },
            DownloadEvent::Loaded(content) => {
                let valid = match &content {
                    Some(bytes) => self.accept(bytes.as_slice()).is_ok(),
                    None => false,
                };
                if valid {
                    Ok(DownloadAction::Done(path))
                } else {
                    Ok(DownloadAction::Fetch(self.url.clone(), self.size))
                }
            },
            DownloadEvent::Fetched(body) => {
                match self.accept(bytes_slice(&body)) {
                    Ok(()) => Ok(DownloadAction::Store(path, body)),
                    Err(e) => Err(e),
                }
            },
            DownloadEvent::Stored => Ok(DownloadAction::Done(path)),
        }
    }
}

/// What the driver truthfully reports of a local file: its size.
pub open spec fn size_report(file: Option<Vec<u8>>) -> Option<u64> {
    match file {
        Some(content) => Some(content@.len() as u64),
        None => None,
    }
}

/// The content of a local file as plain values.
pub open spec fn file_view(file: Option<Vec<u8>>) -> Option<Seq<u8>> {
    match file {
        Some(content) => Some(content@),
        None => None,
    }
}

impl DatasetRemote {
    /// Where the look at the local file ends, given truthful reports: the
    /// answer to its size and, where that asks for the content, the answer
    /// to the content.
    pub open spec fn settles(&self, path: Seq<char>, file: Option<Vec<u8>>) -> Result<
        DownloadStep,
        DatasetError,
    > {
        match self.next(path, DownloadEvent::Sized(size_report(file))) {
            Ok(DownloadStep::Load(_)) => self.next(path, DownloadEvent::Loaded(file)),
            other => other,
        }
    }

    /// The look at the local file ends in `Done` exactly where the file
    /// is valid, and else in `Fetch`: the steps of `download_to` and
    /// `is_exists` judge a file alike.
    pub proof fn lemma_probe_agrees(&self, path: Seq<char>, file: Option<Vec<u8>>)
        requires
            file matches Some(content) ==> content@.len() <= u64::MAX,
        ensures
            self.file_is_valid(file_view(file)) ==> self.settles(path, file) == Ok::<
                DownloadStep,
                DatasetError,
            >(DownloadStep::Done(path)),
            !self.file_is_valid(file_view(file)) ==> self.settles(path, file) == Ok::<
                DownloadStep,
                DatasetError,
            >(DownloadStep::Fetch(self.url@, self.size)),
    {
    }

    /// A local file whose size is not the expected one is not valid,
    /// whatever its digest.
    pub proof fn lemma_wrong_size_is_invalid(&self, content: Seq<u8>)
        requires
            content.len() != self.size,
        ensures
            !self.file_is_valid(Some(content)),
    {
    }

    /// A body whose digest is not the expected one is answered with
    /// `Integrity` and never with `Store`.
    pub proof fn lemma_bad_digest_is_refused(&self, path: Seq<char>, body: bytes::Bytes)
        requires
            self.md5 matches Some(expected) && expected@ != md5_hex(bytes_content(body)),
        ensures
            self.next(path, DownloadEvent::Fetched(body)) == Err::<DownloadStep, DatasetError>(
                DatasetError::Integrity,
            ),
    {
    }

    /// Once a body of the expected size has been accepted and stored, the
    /// next look at the local file ends in `Done` and asks for no
    /// transfer.
    pub proof fn lemma_stored_copy_is_kept(&self, path: Seq<char>, body: bytes::Bytes, file: Vec<u8>)
        requires
            self.next(path, DownloadEvent::Fetched(body)) is Ok,
            file@ == bytes_content(body),
            file@.len() == self.size,
        ensures
            self.next(path, DownloadEvent::Fetched(body)) == Ok::<DownloadStep, DatasetError>(
                DownloadStep::Store(path, file@),
            ),
            self.file_is_valid(Some(file@)),
            self.settles(path, Some(file)) == Ok::<DownloadStep, DatasetError>(
                DownloadStep::Done(path),
            ),
    {
    }
}

} // verus!
