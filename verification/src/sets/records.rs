use vstd::prelude::*;

use crate::utils::DatasetError;

verus! {

/// `ndarray::ShapeError`, carried through as an opaque value.
#[verifier::external_type_specification]
#[verifier::external_body]
pub struct ExShapeError(ndarray::ShapeError);

/// A two-dimensional array of bytes, held as an `ndarray::Array2<u8>`.
/// The verifier sees nothing inside it: what it holds is named by
/// `matrix_rows` and `matrix_width`, and the functions below that call
/// into `ndarray` say over those names what each call does.
#[verifier::external_body]
pub struct Matrix {
    cells: ndarray::Array2<u8>,
}

/// The rows of a matrix, first to last, each with its cells left to right.
pub uninterp spec fn matrix_rows(matrix: Matrix) -> Seq<Seq<u8>>;

/// The number of columns of a matrix, which it has even without rows.
pub uninterp spec fn matrix_width(matrix: Matrix) -> nat;

/// Whether `ndarray` builds an array of `rows` by `cols` cells from `len`
/// elements: the shape must count exactly `len` cells, and the product of
/// its axis lengths that are not zero must not exceed `isize::MAX`.
pub open spec fn shape_fits(rows: nat, cols: nat, len: nat) -> bool {
    &&& rows * cols == len
    &&& (if rows == 0 { 1 } else { rows }) * (if cols == 0 { 1 } else { cols }) <= isize::MAX
}

/// The rows that `data` gives when it is cut into pieces of `cols` cells.
pub open spec fn chunks(data: Seq<u8>, rows: nat, cols: nat) -> Seq<Seq<u8>> {
    Seq::new(rows, |i: int| data.subrange(i * cols, (i + 1) * cols))
}

/// The columns `from..to` of each row.
pub open spec fn columns(rows: Seq<Seq<u8>>, from: int, to: int) -> Seq<Seq<u8>> {
    Seq::new(rows.len(), |i: int| rows[i].subrange(from, to))
}

/// Calls `Array2::from_shape_vec` with the shape `(rows, cols)`, which lays
/// `data` out row by row. It fails exactly when the shape does not fit.
#[verifier::external_body]
fn reshape(rows: usize, cols: usize, data: Vec<u8>) -> (r: Result<Matrix, ndarray::ShapeError>)
    ensures
        r is Ok <==> shape_fits(rows as nat, cols as nat, data@.len()),
        r matches Ok(matrix) ==> matrix_width(matrix) == cols && matrix_rows(matrix) == chunks(
            data@,
            rows as nat,
            cols as nat,
        ),
{
    Ok(Matrix { cells: ndarray::Array2::from_shape_vec((rows, cols), data)? })
}

/// Calls `slice_axis` on the column axis with the range `from..to` and
/// step 1, and copies the view with `to_owned`. The slice panics where the
/// range leaves the axis, so that is left out.
#[verifier::external_body]
fn slice_columns(matrix: &Matrix, from: usize, to: usize) -> (part: Matrix)
    requires
        from <= to <= matrix_width(*matrix),
        to <= isize::MAX,
    ensures
        matrix_width(part) == to - from,
        matrix_rows(part) == columns(matrix_rows(*matrix), from as int, to as int),
{
    let range = ndarray::Slice::new(from as isize, Some(to as isize), 1);
    Matrix { cells: matrix.cells.slice_axis(ndarray::Axis(1), range).to_owned() }
}

/// Calls `Array2::nrows`.
#[verifier::external_body]
fn count_rows(matrix: &Matrix) -> (n: usize)
    ensures
        n == matrix_rows(*matrix).len(),
{
    matrix.cells.nrows()
}

/// Calls `Array2::ncols`. Every row of an array has that many cells.
#[verifier::external_body]
fn count_columns(matrix: &Matrix) -> (n: usize)
    ensures
        n == matrix_width(*matrix),
        forall|i: int| 0 <= i < matrix_rows(*matrix).len() ==> (#[trigger] matrix_rows(*matrix)[i]).len() == n,
{
    matrix.cells.ncols()
}

/// Reads one cell by indexing the array with `[[row, column]]`, which
/// panics out of bounds.
#[verifier::external_body]
fn cell(matrix: &Matrix, row: usize, column: usize) -> (value: u8)
    requires
        row < matrix_rows(*matrix).len(),
        column < matrix_width(*matrix),
    ensures
        value == matrix_rows(*matrix)[row as int][column as int],
{
    matrix.cells[[row, column]]
}

impl Matrix {
    /// The number of rows.
    pub fn nrows(&self) -> (n: usize)
        ensures
            n == matrix_rows(*self).len(),
    {
        count_rows(self)
    }

    /// The number of columns.
    pub fn ncols(&self) -> (n: usize)
        ensures
            n == matrix_width(*self),
    {
        count_columns(self)
    }

    /// The cell at `row` and `column`, where there is one.
    pub fn get(&self, row: usize, column: usize) -> (value: Option<u8>)
        ensures
            value == if row < matrix_rows(*self).len() && column < matrix_width(*self) {
                Some(matrix_rows(*self)[row as int][column as int])
            } else {
                None
            },
    {
        if row < count_rows(self) && column < count_columns(self) {
            Some(cell(self, row, column))
        } else {
            None
        }
    }

    /// The rows as vectors, first to last.
    pub fn to_rows(&self) -> (rows: Vec<Vec<u8>>)
        ensures
            contents(rows@) == matrix_rows(*self),
    {
        let height = count_rows(self);
        let width = count_columns(self);
        let mut rows: Vec<Vec<u8>> = Vec::new();
        let mut i: usize = 0;
        while i < height
            invariant
                i <= height,
                height == matrix_rows(*self).len(),
                width == matrix_width(*self),
                forall|k: int| 0 <= k < height ==> (#[trigger] matrix_rows(*self)[k]).len() == width,
                rows@.len() == i,
                forall|k: int| 0 <= k < i ==> (#[trigger] rows@[k])@ == matrix_rows(*self)[k],
            decreases height - i,
        {
            let mut row: Vec<u8> = Vec::new();
            let mut j: usize = 0;
            while j < width
                invariant
                    i < height,
                    j <= width,
                    height == matrix_rows(*self).len(),
                    width == matrix_width(*self),
                    matrix_rows(*self)[i as int].len() == width,
                    row@ == matrix_rows(*self)[i as int].take(j as int),
                decreases width - j,
            {
                row.push(cell(self, i, j));
                j = j + 1;
                assert(row@ =~= matrix_rows(*self)[i as int].take(j as int));
            }
            assert(row@ =~= matrix_rows(*self)[i as int]);
            rows.push(row);
            i = i + 1;
        }
        assert(contents(rows@) =~= matrix_rows(*self));
        rows
    }
}

/// The contents of a list of files.
pub open spec fn contents(files: Seq<Vec<u8>>) -> Seq<Seq<u8>> {
    Seq::new(files.len(), |i: int| files[i]@)
}

/// The bytes of all files, one file after the other in the given order.
pub open spec fn concat(files: Seq<Seq<u8>>) -> Seq<u8>
    decreases files.len(),
{
    if files.len() == 0 {
        Seq::empty()
    } else {
        concat(files.drop_last()) + files.last()
    }
}

/// Whether `total` bytes divide into records of `record_size` bytes with
/// `label_bytes` of label in front. Neither the bytes nor one record may
/// be longer than `isize::MAX`, which is what an array can hold.
pub open spec fn decodable(total: nat, label_bytes: nat, record_size: nat) -> bool {
    &&& 0 < record_size <= isize::MAX
    &&& label_bytes <= record_size
    &&& total <= isize::MAX
    &&& total % record_size == 0
}

/// The label part of each record of `data`, record by record.
pub open spec fn label_rows(data: Seq<u8>, label_bytes: nat, record_size: nat) -> Seq<Seq<u8>> {
    Seq::new(
        data.len() / record_size,
        |i: int| data.subrange(i * record_size, i * record_size + label_bytes),
    )
}

/// The feature part of each record of `data`, record by record.
pub open spec fn feature_rows(data: Seq<u8>, label_bytes: nat, record_size: nat) -> Seq<Seq<u8>> {
    Seq::new(
        data.len() / record_size,
        |i: int| data.subrange(i * record_size + label_bytes, (i + 1) * record_size),
    )
}

/// The bytes of all files in one buffer, in the given order.
pub fn concat_files(files: &Vec<Vec<u8>>) -> (data: Vec<u8>)
    ensures
        data@ == concat(contents(files@)),
{
    let mut data: Vec<u8> = Vec::new();
    let mut i: usize = 0;
    while i < files.len()
        invariant
            i <= files.len(),
            data@ == concat(contents(files@).take(i as int)),
        decreases files.len() - i,
    {
        let file = &files[i];
        let ghost before = data@;
        let mut j: usize = 0;
        while j < file.len()
            invariant
                j <= file.len(),
                data@ == before + file@.take(j as int),
            decreases file.len() - j,
        {
            data.push(file[j]);
            j = j + 1;
            assert(data@ =~= before + file@.take(j as int));
        }
        proof {
            let next = contents(files@).take(i + 1);
            assert(file@.take(file.len() as int) =~= file@);
            assert(next.drop_last() =~= contents(files@).take(i as int));
            assert(next.last() == file@);
        }
        i = i + 1;
    }
    assert(contents(files@).take(files.len() as int) =~= contents(files@));
    data
}

/// Decodes fixed-width records: the bytes of all files, in the given
/// order, are cut into records of `record_size` bytes, and each record is
/// split after its first `label_bytes` bytes into a row of the label
/// matrix and a row of the feature matrix.
pub fn decode(files: &Vec<Vec<u8>>, label_bytes: usize, record_size: usize) -> (r: Result<
    (Matrix, Matrix),
    DatasetError,
>)
    ensures
        match r {
            Ok((labels, features)) => {
                let data = concat(contents(files@));
                &&& decodable(data.len(), label_bytes as nat, record_size as nat)
                &&& matrix_rows(labels).len() == data.len() / (record_size as nat)
                &&& matrix_rows(features).len() == data.len() / (record_size as nat)
                &&& matrix_width(labels) == label_bytes
                &&& matrix_rows(labels) == label_rows(data, label_bytes as nat, record_size as nat)
                &&& matrix_width(features) == record_size - label_bytes
                &&& matrix_rows(features) == feature_rows(
                    data,
                    label_bytes as nat,
                    record_size as nat,
                )
            },
            Err(e) => e == DatasetError::MalformedRecord && !decodable(
                concat(contents(files@)).len(),
                label_bytes as nat,
                record_size as nat,
            ),
        },
        record_size > 0 && concat(contents(files@)).len() % (record_size as nat) != 0 ==> r is Err,
{
    let data = concat_files(files);
    let total = data.len();
    let limit = isize::MAX as usize;
    if record_size == 0 || record_size > limit || label_bytes > record_size || total > limit
        || total % record_size != 0 {
        return Err(DatasetError::MalformedRecord);
    }
    let rows = total / record_size;
    let ghost bytes = data@;
    proof {
        lemma_whole_records(total as int, record_size as int);
    }
    assert(shape_fits(rows as nat, record_size as nat, bytes.len()));
    match reshape(rows, record_size, data) {
        Err(_) => Err(DatasetError::MalformedRecord),
        Ok(full) => {
            let labels = slice_columns(&full, 0, label_bytes);
            let features = slice_columns(&full, label_bytes, record_size);
            proof {
                lemma_split_rows(bytes, label_bytes as nat, record_size as nat);
            }
            Ok((labels, features))
        },
    }
}

/// A length that is a multiple of the record size is the record size
/// times the number of records.
pub proof fn lemma_whole_records(total: int, record_size: int)
    requires
        0 <= total,
        0 < record_size,
        total % record_size == 0,
    ensures
        (total / record_size) * record_size == total,
        0 <= total / record_size <= total,
        total == 0 <==> total / record_size == 0,
{
    vstd::arithmetic::div_mod::lemma_fundamental_div_mod(total, record_size);
    vstd::arithmetic::div_mod::lemma_div_pos_is_pos(total, record_size);
    let rows = total / record_size;
    assert(rows * record_size == record_size * rows) by (nonlinear_arith);
    assert(rows <= rows * record_size) by (nonlinear_arith)
        requires
            0 <= rows,
            1 <= record_size,
    ;
}

/// Record `i` of `rows` records lies within the bytes, right after the
/// records before it.
pub proof fn lemma_record_bounds(i: int, rows: int, record_size: int)
    requires
        0 <= i < rows,
        0 < record_size,
    ensures
        0 <= i * record_size,
        (i + 1) * record_size == i * record_size + record_size,
        (i + 1) * record_size <= rows * record_size,
{
    assert(0 <= i * record_size) by (nonlinear_arith)
        requires
            0 <= i,
            0 < record_size,
    ;
    assert((i + 1) * record_size <= rows * record_size) by (nonlinear_arith)
        requires
            i + 1 <= rows,
            0 < record_size,
    ;
    assert((i + 1) * record_size == i * record_size + record_size) by (nonlinear_arith);
}

/// Cutting the bytes into records and then each record at `label_bytes`
/// gives the label rows and the feature rows.
pub proof fn lemma_split_rows(data: Seq<u8>, label_bytes: nat, record_size: nat)
    requires
        0 < record_size,
        label_bytes <= record_size,
        data.len() % record_size == 0,
    ensures
        columns(
            chunks(data, data.len() / record_size, record_size),
            0,
            label_bytes as int,
        ) == label_rows(data, label_bytes, record_size),
        columns(
            chunks(data, data.len() / record_size, record_size),
            label_bytes as int,
            record_size as int,
        ) == feature_rows(data, label_bytes, record_size),
{
    let rows = data.len() / record_size;
    let full = chunks(data, rows, record_size);
    lemma_whole_records(data.len() as int, record_size as int);
    assert forall|i: int| 0 <= i < rows implies #[trigger] full[i].subrange(0, label_bytes as int)
        == data.subrange(i * record_size, i * record_size + label_bytes) by {
        lemma_record_bounds(i, rows as int, record_size as int);
        assert(full[i].subrange(0, label_bytes as int) =~= data.subrange(
            i * record_size,
            i * record_size + label_bytes,
        ));
    }
    assert forall|i: int| 0 <= i < rows implies #[trigger] full[i].subrange(
        label_bytes as int,
        record_size as int,
    ) == data.subrange(i * record_size + label_bytes, (i + 1) * record_size) by {
        lemma_record_bounds(i, rows as int, record_size as int);
        assert(full[i].subrange(label_bytes as int, record_size as int) =~= data.subrange(
            i * record_size + label_bytes,
            (i + 1) * record_size,
        ));
    }
    assert(columns(full, 0, label_bytes as int) =~= label_rows(data, label_bytes, record_size));
    assert(columns(full, label_bytes as int, record_size as int) =~= feature_rows(
        data,
        label_bytes,
        record_size,
    ));
}

/// The bytes of two lists of files, one list after the other, are the
/// bytes of the first list followed by those of the second.
pub proof fn lemma_concat_append(first: Seq<Seq<u8>>, second: Seq<Seq<u8>>)
    ensures
        concat(first + second) == concat(first) + concat(second),
    decreases second.len(),
{
    if second.len() == 0 {
        assert(first + second =~= first);
        assert(concat(first) + concat(second) =~= concat(first));
    } else {
        lemma_concat_append(first, second.drop_last());
        assert((first + second).drop_last() =~= first + second.drop_last());
        assert((first + second).last() == second.last());
        assert(concat(first + second) =~= concat(first) + concat(second));
    }
}

/// Decoding the files `a` and `b` is decoding the one file that holds the
/// bytes of `a` followed by the bytes of `b`: the two hold the same
/// bytes, so they are decodable alike and give the same rows.
pub proof fn lemma_files_decode_as_one(a: Seq<u8>, b: Seq<u8>, label_bytes: nat, record_size: nat)
    ensures
        concat(seq![a, b]) == a + b,
        concat(seq![a, b]) == concat(seq![a + b]),
        decodable(concat(seq![a, b]).len(), label_bytes, record_size) == decodable(
            concat(seq![a + b]).len(),
            label_bytes,
            record_size,
        ),
        label_rows(concat(seq![a, b]), label_bytes, record_size) == label_rows(
            concat(seq![a + b]),
            label_bytes,
            record_size,
        ),
        feature_rows(concat(seq![a, b]), label_bytes, record_size) == feature_rows(
            concat(seq![a + b]),
            label_bytes,
            record_size,
        ),
{
    reveal_with_fuel(concat, 3);
    let one = seq![a + b];
    assert(one.drop_last() =~= Seq::<Seq<u8>>::empty());
    assert(concat(one) =~= a + b);
    let two = seq![a, b];
    assert(two.drop_last() =~= seq![a]);
    assert(seq![a].drop_last() =~= Seq::<Seq<u8>>::empty());
    assert(concat(seq![a]) =~= a);
    assert(concat(two) =~= a + b);
}

} // verus!
