use vstd::prelude::*;

verus! {

/// Why an acquisition or a decoding step was refused.
#[derive(Debug, Clone, Copy, PartialEq, Eq, Structural)]
pub enum DatasetError {
    /// The URL does not parse, or it has no path segment to name a file after.
    MalformedUrl,
    /// The server answered with this status, which is not a success.
    HttpStatus(u16),
    /// The advertised content length differs from the expected size.
    SizeMismatch,
    /// The downloaded bytes do not have the expected digest.
    Integrity,
    /// The transfer broke off before the body was complete.
    Network,
    /// The file system refused an operation.
    Io,
    /// The bytes do not divide into whole records.
    MalformedRecord,
}

/// The MD5 digest of a byte sequence, as the `md-5` crate computes it.
pub uninterp spec fn md5_digest(data: Seq<u8>) -> Seq<u8>;

/// The lower-case hexadecimal digit of a value below sixteen.
pub open spec fn hex_digit(nibble: int) -> char {
    if nibble < 10 {
        ('0' as u8 + nibble) as u8 as char
    } else {
        ('a' as u8 + (nibble - 10)) as u8 as char
    }
}

/// Two lower-case hexadecimal digits per byte, the high one first.
pub open spec fn hex_lower(data: Seq<u8>) -> Seq<char> {
    Seq::new(
        2 * data.len(),
        |i: int| if i % 2 == 0 { hex_digit(data[i / 2] as int / 16) } else { hex_digit(data[i / 2] as int % 16) },
    )
}

/// The digest of `plain` as a lower-case hexadecimal string.
pub open spec fn md5_hex(plain: Seq<u8>) -> Seq<char> {
    hex_lower(md5_digest(plain))
}

/// Calls `md5::Md5::digest`: the result is the sixteen-byte MD5 digest of
/// `plain`, a function of the bytes alone.
#[verifier::external_body]
fn md5_raw(plain: &[u8]) -> (raw: Vec<u8>)
    ensures
        raw@ == md5_digest(plain@),
        raw@.len() == 16,
{
    <md5::Md5 as md5::Digest>::digest(plain).to_vec()
}

/// Calls `hex::encode`: every byte becomes two lower-case hexadecimal digits,
/// the high four bits first.
#[verifier::external_body]
fn hex_encode(data: &[u8]) -> (text: String)
    ensures
        text@ == hex_lower(data@),
{
    hex::encode(data)
}

/// The MD5 digest of `plain`, written as 32 lower-case hexadecimal digits.
pub fn md5(plain: &[u8]) -> (text: String)
    ensures
        text@ == md5_hex(plain@),
        text@.len() == 32,
{
    let raw = md5_raw(plain);
    hex_encode(raw.as_slice())
}

/// The views of a sequence of strings.
pub open spec fn texts(strings: Seq<String>) -> Seq<Seq<char>> {
    Seq::new(strings.len(), |i: int| strings[i]@)
}

/// The path of the entry `name` under the directory `base`: the two parts
/// with one `/` between them. An empty base gives `name` alone, and a base
/// that ends in `/` gets no second one.
pub open spec fn path_join(base: Seq<char>, name: Seq<char>) -> Seq<char> {
    if base.len() == 0 {
        name
    } else if base.last() == '/' {
        base + name
    } else {
        base + seq!['/'] + name
    }
}

/// Each name of `names` joined to `base`, in order.
pub open spec fn paths_under(base: Seq<char>, names: Seq<Seq<char>>) -> Seq<Seq<char>> {
    Seq::new(names.len(), |i: int| path_join(base, names[i]))
}

/// The path of the entry `name` under the directory `base`.
pub fn join_path(base: &str, name: &str) -> (path: String)
    ensures
        path@ == path_join(base@, name@),
{
    let n = base.unicode_len();
    if n == 0 {
        return name.to_owned();
    }
    let mut path = base.to_owned();
    if base.get_char(n - 1) != '/' {
        proof {
            reveal_strlit("/");
        }
        path.append("/");
        assert(path@ == base@ + seq!['/']);
    }
    path.append(name);
    path
}

/// The path of each name of `names` under the directory `base`, in order.
pub fn join_paths(base: &str, names: &Vec<String>) -> (paths: Vec<String>)
    ensures
        texts(paths@) == paths_under(base@, texts(names@)),
{
    let mut paths: Vec<String> = Vec::new();
    let mut i: usize = 0;
    while i < names.len()
        invariant
            i <= names.len(),
            paths.len() == i,
            forall|j: int| 0 <= j < i ==> (#[trigger] paths[j])@ == path_join(base@, names[j]@),
        decreases names.len() - i,
    {
        paths.push(join_path(base, names[i].as_str()));
        i = i + 1;
    }
    assert(texts(paths@) =~= paths_under(base@, texts(names@)));
    paths
}

/// The bytes that a `bytes::Bytes` holds, in order.
pub uninterp spec fn bytes_content(buffer: bytes::Bytes) -> Seq<u8>;

/// The bytes that a `bytes::BytesMut` holds, in order.
pub uninterp spec fn bytes_mut_content(buffer: bytes::BytesMut) -> Seq<u8>;

/// `bytes::Bytes`, an opaque value whose bytes `bytes_content` names.
#[verifier::external_type_specification]
#[verifier::external_body]
pub struct ExBytes(bytes::Bytes);

/// `bytes::BytesMut`, an opaque value whose bytes `bytes_mut_content` names.
#[verifier::external_type_specification]
#[verifier::external_body]
pub struct ExBytesMut(bytes::BytesMut);

/// `BytesMut::new` gives a buffer of length 0.
pub assume_specification[ bytes::BytesMut::new ]() -> (buffer: bytes::BytesMut)
    ensures
        bytes_mut_content(buffer) == Seq::<u8>::empty(),
;

/// `BytesMut::len` is the number of bytes held.
pub assume_specification[ bytes::BytesMut::len ](buffer: &bytes::BytesMut) -> (n: usize)
    ensures
        n == bytes_mut_content(*buffer).len(),
;

/// `BytesMut::freeze` keeps the bytes and makes them immutable.
pub assume_specification[ bytes::BytesMut::freeze ](buffer: bytes::BytesMut) -> (frozen: bytes::Bytes)
    ensures
        bytes_content(frozen) == bytes_mut_content(buffer),
;

/// Calls `BytesMut::extend` with the bytes of `chunk`, which appends them.
/// The buffer reserves room first and panics when the new length overflows
/// `usize`, so that case is left out.
#[verifier::external_body]
fn buffer_extend(buffer: &mut bytes::BytesMut, chunk: bytes::Bytes)
    requires
        bytes_mut_content(*old(buffer)).len() + bytes_content(chunk).len() <= usize::MAX,
    ensures
        bytes_mut_content(*final(buffer)) == bytes_mut_content(*old(buffer)) + bytes_content(chunk),
{
    buffer.extend(chunk);
}

/// Borrows a `Bytes` as a slice, through its `Deref`.
#[verifier::external_body]
pub(crate) fn bytes_slice(buffer: &bytes::Bytes) -> (slice: &[u8])
    ensures
        slice@ == bytes_content(*buffer),
{
    buffer
}

/// What the head of a response decides before any of the body is read:
/// a status outside 200..=299 is refused, and so is an advertised content
/// length that differs from the expected size, where both are known.
pub open spec fn head_refusal(size: Option<u64>, status: u16, content_length: Option<u64>) -> Option<
    DatasetError,
> {
    if !(200 <= status <= 299) {
        Some(DatasetError::HttpStatus(status))
    } else if size is Some && content_length is Some && size->0 != content_length->0 {
        Some(DatasetError::SizeMismatch)
    } else {
        None
    }
}

/// A download in progress: the bytes of the body received so far.
pub struct Transfer {
    buffer: bytes::BytesMut,
}

impl View for Transfer {
    type V = Seq<u8>;

    closed spec fn view(&self) -> Seq<u8> {
        bytes_mut_content(self.buffer)
    }
}

impl Transfer {
    /// Judges the head of the response to a GET and, where it is accepted,
    /// starts with an empty body.
    pub fn begin(size: Option<u64>, status: u16, content_length: Option<u64>) -> (r: Result<
        Transfer,
        DatasetError,
    >)
        ensures
            match r {
                Ok(transfer) => head_refusal(size, status, content_length) is None
                    && transfer@ == Seq::<u8>::empty(),
                Err(e) => head_refusal(size, status, content_length) == Some(e),
            },
    {
        if status < 200 || status > 299 {
            return Err(DatasetError::HttpStatus(status));
        }
        if let Some(advertised) = content_length {
            if let Some(expected) = size {
                if expected != advertised {
                    return Err(DatasetError::SizeMismatch);
                }
            }
        }
        Ok(Transfer { buffer: bytes::BytesMut::new() })
    }

    /// The number of bytes received so far.
    pub fn len(&self) -> (n: usize)
        ensures
            n == self@.len(),
    {
        self.buffer.len()
    }

    /// Appends the next chunk of the body.
    pub fn receive(&mut self, chunk: bytes::Bytes)
        requires
            old(self)@.len() + bytes_content(chunk).len() <= usize::MAX,
        ensures
            final(self)@ == old(self)@ + bytes_content(chunk),
    {
        buffer_extend(&mut self.buffer, chunk);
    }

    /// Ends the download and hands out the whole body.
    pub fn finish(self) -> (body: bytes::Bytes)
        ensures
            bytes_content(body) == self@,
    {
        self.buffer.freeze()
    }
}

} // verus!
