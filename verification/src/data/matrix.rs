//! The two-dimensional LED map of a matrix zone.

use vstd::prelude::*;
use array2d::Array2D;
use crate::error::{CommandError, OpenRgbError};
use crate::protocol::message::{ReceivedMessage, WriteMessage};
use crate::protocol::sequence::{lemma_deserialize_n_len, lemma_round_trip_all, read_n_values,
    spec_all_canonical, spec_all_encodable, spec_deserialize_n, spec_models, spec_serialize_all,
    write_all};
use crate::protocol::wire::{lemma_concat, lemma_int_bytes, lemma_skips, spec_u16_bytes,
    spec_u16_le, spec_u32_bytes, spec_u32_le, DeserFromBuf, SerToBuf};

verus! {

/// `array2d::Array2D`: a matrix of a fixed number of rows and columns. Its
/// inside is not known here; what it holds goes by the three names below,
/// and nothing about them is proved.
#[verifier::external_type_specification]
#[verifier::external_body]
#[verifier::reject_recursive_types(T)]
pub struct ExArray2D<T>(Array2D<T>);

/// The cells of a matrix, row after row: what `Array2D::as_row_major` gives.
pub uninterp spec fn matrix_cells(m: Array2D<u32>) -> Seq<u32>;

/// The number of rows of a matrix: what `Array2D::num_rows` gives.
pub uninterp spec fn matrix_rows(m: Array2D<u32>) -> nat;

/// The number of columns of a matrix: what `Array2D::num_columns` gives.
pub uninterp spec fn matrix_columns(m: Array2D<u32>) -> nat;

/// `Array2D::from_row_major`. Claimed of it, not proved: it gives the matrix
/// of the given dimensions whose cells, row after row, are `cells`, and fails
/// exactly where the number of cells is not the product of the dimensions.
/// It multiplies the dimensions, so their product must fit a `usize`.
#[verifier::external_body]
pub(crate) fn matrix_from_row_major(cells: &Vec<u32>, rows: usize, columns: usize) -> (res: Option<
    Array2D<u32>,
>)
    requires
        rows * columns <= usize::MAX,
    ensures
        res is Some <==> cells@.len() == rows * columns,
        res is Some ==> matrix_cells(res->0) == cells@ && matrix_rows(res->0) == rows
            && matrix_columns(res->0) == columns,
{
    Array2D::from_row_major(cells.as_slice(), rows, columns).ok()
}

/// `Array2D::num_rows`. Claimed of it, not proved: it gives the number of
/// rows that the matrix was made with.
#[verifier::external_body]
pub(crate) fn matrix_num_rows(m: &Array2D<u32>) -> (rows: usize)
    ensures
        rows == matrix_rows(*m),
{
    m.num_rows()
}

/// `Array2D::num_columns`. Claimed of it, not proved: it gives the number of
/// columns that the matrix was made with.
#[verifier::external_body]
pub(crate) fn matrix_num_columns(m: &Array2D<u32>) -> (columns: usize)
    ensures
        columns == matrix_columns(*m),
{
    m.num_columns()
}

/// `Array2D::as_row_major`. Claimed of it, not proved: it gives the cells
/// that the matrix was made with, row after row.
#[verifier::external_body]
pub(crate) fn matrix_as_row_major(m: &Array2D<u32>) -> (cells: Vec<u32>)
    ensures
        cells@ == matrix_cells(*m),
{
    m.as_row_major()
}

/// What the LED map of a zone stands for: its dimensions and its cells, row
/// after row.
pub ghost struct MatrixModel {
    pub rows: nat,
    pub columns: nat,
    pub cells: Seq<u32>,
}

/// The model of a matrix.
pub open spec fn spec_matrix_model(m: Array2D<u32>) -> MatrixModel {
    MatrixModel { rows: matrix_rows(m), columns: matrix_columns(m), cells: matrix_cells(m) }
}

/// The number of bytes of a matrix block behind its length: two dimensions
/// and the cells, four bytes each.
pub open spec fn spec_matrix_block_len(rows: nat, columns: nat) -> nat {
    8 + 4 * (rows * columns)
}

/// The models of numbers are the numbers.
pub proof fn lemma_number_models(numbers: Seq<u32>, protocol: u32)
    ensures
        spec_models::<u32>(numbers) == numbers,
        spec_all_canonical::<u32>(numbers, protocol) == numbers,
        spec_all_encodable::<u32>(numbers, protocol),
{
    assert(spec_models::<u32>(numbers) =~= numbers);
    assert(spec_all_canonical::<u32>(numbers, protocol) =~= numbers);
}

/// The product of two numbers that together with their cells fit a block.
fn cell_count(rows: u32, columns: u32) -> (res: Option<u32>)
    ensures
        res is Some <==> spec_matrix_block_len(rows as nat, columns as nat) <= 0xFFFF,
        res is Some ==> res->0 == rows * columns,
{
    if rows == 0 || columns == 0 {
        assert(rows * columns == 0) by (nonlinear_arith)
            requires
                rows == 0 || columns == 0,
        ;
        return Some(0);
    }
    if rows > 16381 || columns > 16381 {
        assert(rows * columns > 16381) by (nonlinear_arith)
            requires
                rows >= 1,
                columns >= 1,
                rows > 16381 || columns > 16381,
        ;
        return None;
    }
    assert(rows * columns <= 16381 * 16381) by (nonlinear_arith)
        requires
            rows <= 16381,
            columns <= 16381,
    ;
    let cells = rows * columns;
    if cells > 16381 {
        None
    } else {
        Some(cells)
    }
}

impl DeserFromBuf for Option<Array2D<u32>> {
    type Model = Option<MatrixModel>;

    open spec fn model(&self) -> Option<MatrixModel> {
        match *self {
            Some(m) => Some(spec_matrix_model(m)),
            None => None,
        }
    }

    /// A 16-bit length; where it is not 0, the number of rows, the number of
    /// columns, and the cells row after row, which together take exactly
    /// that length.
    open spec fn spec_deserialize(bytes: Seq<u8>, protocol: u32) -> Option<
        (Option<MatrixModel>, int),
    > {
        if bytes.len() < 2 {
            None
        } else if spec_u16_le(bytes) == 0 {
            Some((None, 2))
        } else if bytes.len() < 10 {
            None
        } else {
            let rows = spec_u32_le(bytes.skip(2)) as nat;
            let columns = spec_u32_le(bytes.skip(6)) as nat;
            if spec_matrix_block_len(rows, columns) != spec_u16_le(bytes) {
                None
            } else {
                match spec_deserialize_n::<u32>(bytes.skip(10), protocol, rows * columns) {
                    Some((cells, used)) => Some(
                        (Some(MatrixModel { rows, columns, cells }), 10 + used),
                    ),
                    None => None,
                }
            }
        }
    }

    proof fn lemma_deserialize_len(bytes: Seq<u8>, protocol: u32) {
        if bytes.len() >= 10 {
            let rows = spec_u32_le(bytes.skip(2)) as nat;
            let columns = spec_u32_le(bytes.skip(6)) as nat;
            lemma_deserialize_n_len::<u32>(bytes.skip(10), protocol, rows * columns);
        }
    }

    fn deserialize(buf: &mut ReceivedMessage<'_>) -> (res: Result<
        Option<Array2D<u32>>,
        OpenRgbError,
    >) {
        let mut cur = *buf;
        let ghost bytes = cur.remaining();
        let ghost protocol = cur.protocol_version();
        proof {
            lemma_skips(bytes);
        }
        let len = cur.read_u16()?;
        if len == 0 {
            *buf = cur;
            return Ok(None);
        }
        let rows = cur.read_u32()?;
        let columns = cur.read_u32()?;
        let count = match cell_count(rows, columns) {
            Some(count) => count,
            None => {
                return Err(OpenRgbError::MalformedMessage);
            },
        };
        if 8 + 4 * count != len as u32 {
            return Err(OpenRgbError::MalformedMessage);
        }
        let cells = read_n_values::<u32>(&mut cur, count as usize)?;
        proof {
            lemma_deserialize_n_len::<u32>(bytes.skip(10), protocol, count as nat);
            lemma_number_models(cells@, protocol);
        }
        match matrix_from_row_major(&cells, rows as usize, columns as usize) {
            Some(m) => {
                *buf = cur;
                Ok(Some(m))
            },
            None => Err(OpenRgbError::MalformedMessage),
        }
    }
}

impl SerToBuf for Option<Array2D<u32>> {
    open spec fn spec_serialize(m: Option<MatrixModel>, protocol: u32) -> Seq<u8> {
        match m {
            None => spec_u16_bytes(0),
            Some(m) => spec_u16_bytes(spec_matrix_block_len(m.rows, m.columns) as u16) + (
            spec_u32_bytes(m.rows as u32) + (spec_u32_bytes(m.columns as u32)
                + spec_serialize_all::<u32>(m.cells, protocol))),
        }
    }

    open spec fn encodable(m: Option<MatrixModel>, protocol: u32) -> bool {
        m matches Some(m) ==> {
            &&& m.rows <= 0xFFFF_FFFF
            &&& m.columns <= 0xFFFF_FFFF
            &&& m.cells.len() == m.rows * m.columns
            &&& spec_matrix_block_len(m.rows, m.columns) <= 0xFFFF
        }
    }

    open spec fn canonical(m: Option<MatrixModel>, protocol: u32) -> Option<MatrixModel> {
        m
    }

    proof fn lemma_round_trip(m: Option<MatrixModel>, protocol: u32, rest: Seq<u8>) {
        let bytes = Self::spec_serialize(m, protocol) + rest;
        match m {
            None => {
                lemma_int_bytes(0, 0, rest);
            },
            Some(mm) => {
                let len = spec_matrix_block_len(mm.rows, mm.columns) as u16;
                let body = spec_serialize_all::<u32>(mm.cells, protocol);
                let t2 = body + rest;
                let t1 = spec_u32_bytes(mm.columns as u32) + t2;
                let t0 = spec_u32_bytes(mm.rows as u32) + t1;
                lemma_concat(spec_u32_bytes(mm.columns as u32), body, rest);
                lemma_concat(
                    spec_u32_bytes(mm.rows as u32),
                    spec_u32_bytes(mm.columns as u32) + body,
                    rest,
                );
                lemma_concat(
                    spec_u16_bytes(len),
                    spec_u32_bytes(mm.rows as u32) + (spec_u32_bytes(mm.columns as u32) + body),
                    rest,
                );
                assert(bytes == spec_u16_bytes(len) + t0);
                lemma_int_bytes(len, mm.rows as u32, t0);
                lemma_int_bytes(len, mm.rows as u32, t1);
                lemma_int_bytes(len, mm.columns as u32, t2);
                assert(bytes.skip(2) =~= t0);
                assert(bytes.skip(6) =~= t1);
                assert(bytes.skip(10) =~= t2);
                lemma_number_models(mm.cells, protocol);
                lemma_round_trip_all::<u32>(mm.cells, protocol, rest);
            },
        }
    }

    proof fn lemma_decoded_is_canonical(bytes: Seq<u8>, protocol: u32) {
    }

    fn serialize(&self, buf: &mut WriteMessage) -> (res: Result<(), OpenRgbError>) {
        let ghost protocol = buf.protocol_version();
        match self {
            None => {
                buf.write_u16(0);
                Ok(())
            },
            Some(m) => {
                let rows = matrix_num_rows(m);
                let columns = matrix_num_columns(m);
                let cells = matrix_as_row_major(m);
                if rows > 0xFFFF_FFFF || columns > 0xFFFF_FFFF {
                    return Err(OpenRgbError::CommandError(CommandError::NotEncodable));
                }
                let count = match cell_count(rows as u32, columns as u32) {
                    Some(count) => count,
                    None => {
                        return Err(OpenRgbError::CommandError(CommandError::NotEncodable));
                    },
                };
                if cells.len() != count as usize {
                    return Err(OpenRgbError::CommandError(CommandError::NotEncodable));
                }
                let ghost body = spec_serialize_all::<u32>(cells@, protocol);
                let ghost t1 = spec_u32_bytes(columns as u32) + body;
                let ghost t0 = spec_u32_bytes(rows as u32) + t1;
                proof {
                    lemma_number_models(cells@, protocol);
                    lemma_concat(buf.bytes(), spec_u16_bytes((8 + 4 * count) as u16), t0);
                }
                buf.write_u16((8 + 4 * count) as u16);
                proof {
                    lemma_concat(buf.bytes(), spec_u32_bytes(rows as u32), t1);
                }
                buf.write_u32(rows as u32);
                proof {
                    lemma_concat(buf.bytes(), spec_u32_bytes(columns as u32), body);
                }
                buf.write_u32(columns as u32);
                write_all::<u32>(buf, &cells)
            },
        }
    }
}

} // verus!
