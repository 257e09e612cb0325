use vstd::arithmetic::div_mod::lemma_fundamental_div_mod_converse;
use vstd::prelude::*;

use crate::matrix::Bit;

verus! {

/// The cells of a matrix in row-major order.
pub open spec fn cells<const ROW_COUNT: usize, const COL_COUNT: usize>(
    matrix: [[Bit; COL_COUNT]; ROW_COUNT],
) -> Seq<Bit> {
    Seq::new(
        (ROW_COUNT * COL_COUNT) as nat,
        |k: int| matrix[k / (COL_COUNT as int)][k % (COL_COUNT as int)],
    )
}

/// Bit `n` of the stream in which every cell stands with its three bits,
/// the upper edge bit first. Past the last cell the stream is padded with
/// zeros.
pub open spec fn stream_bit(cells: Seq<Bit>, n: int) -> bool {
    if 0 <= n < 3 * cells.len() {
        let code = cells[n / 3].code_spec();
        if n % 3 == 0 {
            code / 4 == 1
        } else if n % 3 == 1 {
            (code / 2) % 2 == 1
        } else {
            code % 2 == 1
        }
    } else {
        false
    }
}

/// A bit as a number.
pub open spec fn bit_value(bit: bool) -> int {
    if bit {
        1
    } else {
        0
    }
}

/// The number that the first `count` bits of byte `index` of the stream
/// spell, the first bit being the most significant.
pub open spec fn byte_prefix(cells: Seq<Bit>, index: int, count: int) -> int
    decreases count,
{
    if count <= 0 {
        0
    } else {
        2 * byte_prefix(cells, index, count - 1) + bit_value(
            stream_bit(cells, 8 * index + count - 1),
        )
    }
}

/// The number of bytes that `cell_count` cells take.
pub open spec fn packed_len(cell_count: nat) -> nat {
    (3 * cell_count + 7) / 8
}

/// The packed form of a sequence of cells.
pub open spec fn packed(cells: Seq<Bit>) -> Seq<u8> {
    Seq::new(packed_len(cells.len()), |index: int| byte_prefix(cells, index, 8) as u8)
}

/// Bit `offset` of a byte, bit 0 being the most significant.
pub open spec fn bit_of_byte(byte: u8, offset: int) -> bool {
    if offset == 0 {
        byte / 128 == 1
    } else if offset == 1 {
        (byte / 64) % 2 == 1
    } else if offset == 2 {
        (byte / 32) % 2 == 1
    } else if offset == 3 {
        (byte / 16) % 2 == 1
    } else if offset == 4 {
        (byte / 8) % 2 == 1
    } else if offset == 5 {
        (byte / 4) % 2 == 1
    } else if offset == 6 {
        (byte / 2) % 2 == 1
    } else {
        byte % 2 == 1
    }
}

/// Bit `n` of a byte string.
pub open spec fn byte_bit(bytes: Seq<u8>, n: int) -> bool {
    bit_of_byte(bytes[n / 8], n % 8)
}

/// The three-bit code that starts at bit `3 * k` of a byte string.
pub open spec fn code_at(bytes: Seq<u8>, k: int) -> u8 {
    (4 * bit_value(byte_bit(bytes, 3 * k)) + 2 * bit_value(byte_bit(bytes, 3 * k + 1))
        + bit_value(byte_bit(bytes, 3 * k + 2))) as u8
}

/// The cells that a packed form holds.
pub open spec fn unpacked(bytes: Seq<u8>, cell_count: nat) -> Seq<Bit> {
    Seq::new(cell_count, |k: int| Bit::of_code(code_at(bytes, k)))
}

spec fn prefix_limit(count: int) -> int
    decreases count,
{
    if count <= 0 {
        0
    } else {
        2 * prefix_limit(count - 1) + 1
    }
}

proof fn lemma_byte_prefix_limit(cells: Seq<Bit>, index: int, count: int)
    ensures
        0 <= byte_prefix(cells, index, count) <= prefix_limit(count),
    decreases count,
{
    if count > 0 {
        lemma_byte_prefix_limit(cells, index, count - 1);
    }
}

proof fn lemma_prefix_limits()
    ensures
        prefix_limit(0) == 0,
        prefix_limit(1) == 1,
        prefix_limit(2) == 3,
        prefix_limit(3) == 7,
        prefix_limit(4) == 15,
        prefix_limit(5) == 31,
        prefix_limit(6) == 63,
        prefix_limit(7) == 127,
        prefix_limit(8) == 255,
{
    reveal_with_fuel(prefix_limit, 10);
}

/// Every byte of the packed form fits a byte.
pub proof fn lemma_byte_prefix_fits(cells: Seq<Bit>, index: int, count: int)
    requires
        0 <= count <= 8,
    ensures
        0 <= byte_prefix(cells, index, count) <= 255,
        count <= 7 ==> byte_prefix(cells, index, count) <= 127,
{
    lemma_byte_prefix_limit(cells, index, count);
    lemma_prefix_limits();
}

proof fn lemma_bits_of_byte(
    value: int,
    b0: bool,
    b1: bool,
    b2: bool,
    b3: bool,
    b4: bool,
    b5: bool,
    b6: bool,
    b7: bool,
)
    requires
        value == 128 * bit_value(b0) + 64 * bit_value(b1) + 32 * bit_value(b2) + 16 * bit_value(b3)
            + 8 * bit_value(b4) + 4 * bit_value(b5) + 2 * bit_value(b6) + bit_value(b7),
    ensures
        0 <= value <= 255,
        bit_of_byte(value as u8, 0) == b0,
        bit_of_byte(value as u8, 1) == b1,
        bit_of_byte(value as u8, 2) == b2,
        bit_of_byte(value as u8, 3) == b3,
        bit_of_byte(value as u8, 4) == b4,
        bit_of_byte(value as u8, 5) == b5,
        bit_of_byte(value as u8, 6) == b6,
        bit_of_byte(value as u8, 7) == b7,
{
}

/// A byte of the packed form holds the bits of the stream at its place.
pub proof fn lemma_packed_byte_bits(cells: Seq<Bit>, index: int, offset: int)
    requires
        0 <= offset < 8,
    ensures
        bit_of_byte(byte_prefix(cells, index, 8) as u8, offset) == stream_bit(
            cells,
            8 * index + offset,
        ),
{
    let prefix1 = byte_prefix(cells, index, 1);
    let prefix2 = byte_prefix(cells, index, 2);
    let prefix3 = byte_prefix(cells, index, 3);
    let prefix4 = byte_prefix(cells, index, 4);
    let prefix5 = byte_prefix(cells, index, 5);
    let prefix6 = byte_prefix(cells, index, 6);
    let prefix7 = byte_prefix(cells, index, 7);
    let prefix8 = byte_prefix(cells, index, 8);
    assert(byte_prefix(cells, index, 0) == 0);
    assert(prefix1 == 2 * byte_prefix(cells, index, 0) + bit_value(
        stream_bit(cells, 8 * index + 0),
    ));
    assert(prefix2 == 2 * prefix1 + bit_value(stream_bit(cells, 8 * index + 1)));
    assert(prefix3 == 2 * prefix2 + bit_value(stream_bit(cells, 8 * index + 2)));
    assert(prefix4 == 2 * prefix3 + bit_value(stream_bit(cells, 8 * index + 3)));
    assert(prefix5 == 2 * prefix4 + bit_value(stream_bit(cells, 8 * index + 4)));
    assert(prefix6 == 2 * prefix5 + bit_value(stream_bit(cells, 8 * index + 5)));
    assert(prefix7 == 2 * prefix6 + bit_value(stream_bit(cells, 8 * index + 6)));
    assert(prefix8 == 2 * prefix7 + bit_value(stream_bit(cells, 8 * index + 7)));
    lemma_bits_of_byte(
        prefix8,
        stream_bit(cells, 8 * index + 0),
        stream_bit(cells, 8 * index + 1),
        stream_bit(cells, 8 * index + 2),
        stream_bit(cells, 8 * index + 3),
        stream_bit(cells, 8 * index + 4),
        stream_bit(cells, 8 * index + 5),
        stream_bit(cells, 8 * index + 6),
        stream_bit(cells, 8 * index + 7),
    );
}

/// The packed form holds every bit of the stream at its place.
pub proof fn lemma_packed_bit(cells: Seq<Bit>, n: int)
    requires
        0 <= n < 3 * cells.len(),
    ensures
        byte_bit(packed(cells), n) == stream_bit(cells, n),
{
    let bytes = packed(cells);
    assert(0 <= n / 8 < bytes.len());
    assert(bytes[n / 8] == byte_prefix(cells, n / 8, 8) as u8);
    lemma_packed_byte_bits(cells, n / 8, n % 8);
}

/// The code read at the place of a cell in the packed form is the code of
/// that cell.
pub proof fn lemma_code_at_packed(cells: Seq<Bit>, k: int)
    requires
        0 <= k < cells.len(),
    ensures
        code_at(packed(cells), k) == cells[k].code_spec(),
{
    lemma_packed_bit(cells, 3 * k);
    lemma_packed_bit(cells, 3 * k + 1);
    lemma_packed_bit(cells, 3 * k + 2);
    assert((3 * k) / 3 == k && (3 * k + 1) / 3 == k && (3 * k + 2) / 3 == k);
}

/// Unpacking the packed form of a sequence of cells gives the sequence
/// back.
pub proof fn lemma_pack_round_trip(cells: Seq<Bit>)
    ensures
        packed(cells).len() == packed_len(cells.len()),
        unpacked(packed(cells), cells.len()) == cells,
{
    assert forall|k: int| 0 <= k < cells.len() implies unpacked(packed(cells), cells.len())[k]
        == cells[k] by {
        lemma_code_at_packed(cells, k);
        crate::matrix::lemma_code_round_trip(cells[k]);
    }
    assert(unpacked(packed(cells), cells.len()) =~= cells);
}

/// The cell at row `i` and column `j` stands at place `i * COL_COUNT + j`
/// of the row-major order.
pub proof fn lemma_cell_place<const ROW_COUNT: usize, const COL_COUNT: usize>(
    matrix: [[Bit; COL_COUNT]; ROW_COUNT],
    i: int,
    j: int,
)
    requires
        0 <= i < ROW_COUNT,
        0 <= j < COL_COUNT,
    ensures
        0 <= i * COL_COUNT + j < ROW_COUNT * COL_COUNT,
        cells(matrix).len() == ROW_COUNT * COL_COUNT,
        cells(matrix)[i * COL_COUNT + j] == matrix[i][j],
{
    let k = i * COL_COUNT + j;
    assert(0 <= i * COL_COUNT && (i + 1) * COL_COUNT <= ROW_COUNT * COL_COUNT
        && (i + 1) * COL_COUNT == i * COL_COUNT + COL_COUNT) by (nonlinear_arith)
        requires
            0 <= i < ROW_COUNT,
            0 <= COL_COUNT,
    ;
    lemma_fundamental_div_mod_converse(k, COL_COUNT as int, i, j);
}

/// Matrices with the same cells in row-major order are the same matrix.
pub proof fn lemma_cells_injective<const ROW_COUNT: usize, const COL_COUNT: usize>(
    a: [[Bit; COL_COUNT]; ROW_COUNT],
    b: [[Bit; COL_COUNT]; ROW_COUNT],
)
    requires
        cells(a) == cells(b),
    ensures
        a == b,
{
    assert forall|i: int| 0 <= i < ROW_COUNT implies a[i] == b[i] by {
        assert forall|j: int| 0 <= j < COL_COUNT implies a[i][j] == b[i][j] by {
            lemma_cell_place(a, i, j);
            lemma_cell_place(b, i, j);
        }
        assert(a[i] =~= b[i]);
    }
    assert(a =~= b);
}

/// Writes the stream bit by bit and gathers it into bytes.
struct BitWriter {
    bytes: Vec<u8>,
    current: u8,
    filled: u8,
}

impl BitWriter {
    /// The writer holds exactly the first `n` bits of the stream of
    /// `cells`.
    spec fn wrote(self, cells: Seq<Bit>, n: int) -> bool {
        &&& n == 8 * self.bytes.len() + self.filled
        &&& self.filled < 8
        &&& self.current == byte_prefix(cells, self.bytes.len() as int, self.filled as int)
        &&& forall|index: int|
            0 <= index < self.bytes.len() ==> #[trigger] self.bytes[index] == byte_prefix(
                cells,
                index,
                8,
            ) as u8
    }

    fn new(Ghost(cells): Ghost<Seq<Bit>>) -> (writer: BitWriter)
        ensures
            writer.wrote(cells, 0),
    {
        BitWriter { bytes: Vec::new(), current: 0, filled: 0 }
    }

    fn push(&mut self, bit: bool, Ghost(cells): Ghost<Seq<Bit>>, Ghost(n): Ghost<int>)
        requires
            old(self).wrote(cells, n),
            bit == stream_bit(cells, n),
        ensures
            final(self).wrote(cells, n + 1),
    {
        proof {
            lemma_byte_prefix_fits(cells, self.bytes.len() as int, self.filled as int);
            lemma_byte_prefix_fits(cells, self.bytes.len() as int, self.filled as int + 1);
        }
        let value: u8 = self.current * 2 + if bit {
            1
        } else {
            0
        };
        if self.filled == 7 {
            self.bytes.push(value);
            self.current = 0;
            self.filled = 0;
        } else {
            self.current = value;
            self.filled = self.filled + 1;
        }
    }

    fn finish(self, Ghost(cells): Ghost<Seq<Bit>>, Ghost(n): Ghost<int>) -> (bytes: Vec<u8>)
        requires
            self.wrote(cells, n),
            n == 3 * cells.len(),
        ensures
            bytes@ == packed(cells),
    {
        let mut writer = self;
        let ghost mut written = n;
        while writer.filled != 0
            invariant
                writer.wrote(cells, written),
                n <= written,
                writer.filled != 0 ==> 8 * writer.bytes.len() < n,
                writer.filled == 0 ==> written < n + 8,
                n == 3 * cells.len(),
            decreases
                    (if writer.filled == 0 {
                        0int
                    } else {
                        8 - writer.filled
                    }),
        {
            writer.push(false, Ghost(cells), Ghost(written));
            proof {
                written = written + 1;
            }
        }
        assert(writer.bytes@ =~= packed(cells));
        writer.bytes
    }
}

/// Packs a matrix: three bits a cell, row by row, the last byte padded
/// with zeros.
pub fn pack_matrix<const ROW_COUNT: usize, const COL_COUNT: usize>(
    matrix: &[[Bit; COL_COUNT]; ROW_COUNT],
) -> (bytes: Vec<u8>)
    ensures
        bytes@ == packed(cells(*matrix)),
{
    let ghost all = cells(*matrix);
    let mut writer = BitWriter::new(Ghost(all));
    let mut i: usize = 0;
    while i < ROW_COUNT
        invariant
            i <= ROW_COUNT,
            all == cells(*matrix),
            writer.wrote(all, 3 * (i * COL_COUNT)),
        decreases ROW_COUNT - i,
    {
        let mut j: usize = 0;
        while j < COL_COUNT
            invariant
                i < ROW_COUNT,
                j <= COL_COUNT,
                all == cells(*matrix),
                writer.wrote(all, 3 * (i * COL_COUNT + j)),
            decreases COL_COUNT - j,
        {
            let code = matrix[i][j].pack();
            let ghost k = i * COL_COUNT + j;
            proof {
                lemma_cell_place(*matrix, i as int, j as int);
                assert((3 * k) / 3 == k && (3 * k + 1) / 3 == k && (3 * k + 2) / 3 == k);
            }
            writer.push(code / 4 == 1, Ghost(all), Ghost(3 * k));
            writer.push((code / 2) % 2 == 1, Ghost(all), Ghost(3 * k + 1));
            writer.push(code % 2 == 1, Ghost(all), Ghost(3 * k + 2));
            j += 1;
        }
        proof {
            assert((i + 1) * COL_COUNT == i * COL_COUNT + COL_COUNT) by (nonlinear_arith);
        }
        i += 1;
    }
    writer.finish(Ghost(all), Ghost(3 * (ROW_COUNT * COL_COUNT)))
}

fn read_bit(byte: u8, offset: u8) -> (bit: bool)
    requires
        offset < 8,
    ensures
        bit == bit_of_byte(byte, offset as int),
{
    match offset {
        0 => byte / 128 == 1,
        1 => (byte / 64) % 2 == 1,
        2 => (byte / 32) % 2 == 1,
        3 => (byte / 16) % 2 == 1,
        4 => (byte / 8) % 2 == 1,
        5 => (byte / 4) % 2 == 1,
        6 => (byte / 2) % 2 == 1,
        _ => byte % 2 == 1,
    }
}

/// Reads a byte string bit by bit.
struct BitReader<'a> {
    bytes: &'a [u8],
    index: usize,
    offset: u8,
}

impl<'a> BitReader<'a> {
    /// The reader stands at bit `n` of its byte string.
    spec fn stands_at(self, bytes: Seq<u8>, n: int) -> bool {
        &&& self.bytes@ == bytes
        &&& self.index <= bytes.len()
        &&& self.offset < 8
        &&& n == 8 * self.index + self.offset
    }

    fn new(bytes: &'a [u8]) -> (reader: BitReader<'a>)
        ensures
            reader.stands_at(bytes@, 0),
    {
        BitReader { bytes, index: 0, offset: 0 }
    }

    fn next(&mut self, Ghost(n): Ghost<int>) -> (bit: Option<bool>)
        requires
            old(self).stands_at(old(self).bytes@, n),
        ensures
            final(self).bytes == old(self).bytes,
            n / 8 < old(self).bytes@.len() ==> bit == Some(byte_bit(old(self).bytes@, n))
                && final(self).stands_at(old(self).bytes@, n + 1),
            n / 8 >= old(self).bytes@.len() ==> bit is None && final(self).stands_at(
                old(self).bytes@,
                n,
            ),
    {
        if self.index >= self.bytes.len() {
            return None;
        }
        let bit = read_bit(self.bytes[self.index], self.offset);
        if self.offset == 7 {
            self.offset = 0;
            self.index = self.index + 1;
        } else {
            self.offset = self.offset + 1;
        }
        Some(bit)
    }

    /// Whether the byte that the reader stands in, if it has begun one, is
    /// the last.
    fn at_end(&self, Ghost(n): Ghost<int>) -> (done: bool)
        requires
            self.stands_at(self.bytes@, n),
        ensures
            done == (self.bytes@.len() == (n + 7) / 8),
    {
        if self.offset == 0 {
            self.index == self.bytes.len()
        } else {
            self.index < self.bytes.len() && self.index == self.bytes.len() - 1
        }
    }
}

/// Unpacks a matrix from a byte string of exactly the length that its
/// cells take. Padding bits are not looked at.
pub fn unpack_matrix<const ROW_COUNT: usize, const COL_COUNT: usize>(bytes: &[u8]) -> (matrix:
    Option<[[Bit; COL_COUNT]; ROW_COUNT]>)
    ensures
        bytes@.len() == packed_len((ROW_COUNT * COL_COUNT) as nat) ==> matrix is Some && cells(
            matrix->0,
        ) == unpacked(bytes@, (ROW_COUNT * COL_COUNT) as nat),
        bytes@.len() != packed_len((ROW_COUNT * COL_COUNT) as nat) ==> matrix is None,
{
    let ghost total = ROW_COUNT * COL_COUNT;
    let mut matrix = [[Bit { edge: crate::key::Edge::NoEdge, pressed: false }; COL_COUNT];
        ROW_COUNT];
    let mut reader = BitReader::new(bytes);
    let mut i: usize = 0;
    while i < ROW_COUNT
        invariant
            i <= ROW_COUNT,
            total == ROW_COUNT * COL_COUNT,
            reader.stands_at(bytes@, 3 * (i * COL_COUNT)),
            forall|a: int, b: int|
                0 <= a < i && 0 <= b < COL_COUNT ==> (#[trigger] matrix[a][b]) == Bit::of_code(
                    code_at(bytes@, a * COL_COUNT + b),
                ),
        decreases ROW_COUNT - i,
    {
        let mut j: usize = 0;
        while j < COL_COUNT
            invariant
                i < ROW_COUNT,
                j <= COL_COUNT,
                total == ROW_COUNT * COL_COUNT,
                reader.stands_at(bytes@, 3 * (i * COL_COUNT + j)),
                forall|a: int, b: int|
                    0 <= a < i && 0 <= b < COL_COUNT ==> (#[trigger] matrix[a][b]) == Bit::of_code(
                        code_at(bytes@, a * COL_COUNT + b),
                    ),
                forall|b: int|
                    0 <= b < j ==> (#[trigger] matrix[i as int][b]) == Bit::of_code(
                        code_at(bytes@, i * COL_COUNT + b),
                    ),
            decreases COL_COUNT - j,
        {
            let ghost k = i * COL_COUNT + j;
            proof {
                assert(0 <= k < total) by (nonlinear_arith)
                    requires
                        k == i * COL_COUNT + j,
                        0 <= i < ROW_COUNT,
                        0 <= j < COL_COUNT,
                        total == ROW_COUNT * COL_COUNT,
                ;
            }
            let high = match reader.next(Ghost(3 * k)) {
                Some(bit) => bit,
                None => {
                    return None;
                },
            };
            let middle = match reader.next(Ghost(3 * k + 1)) {
                Some(bit) => bit,
                None => {
                    return None;
                },
            };
            let low = match reader.next(Ghost(3 * k + 2)) {
                Some(bit) => bit,
                None => {
                    return None;
                },
            };
            let code: u8 = (if high {
                4
            } else {
                0
            }) + (if middle {
                2
            } else {
                0
            }) + (if low {
                1
            } else {
                0
            });
            matrix[i][j] = Bit::unpack(code);
            j += 1;
        }
        proof {
            assert((i + 1) * COL_COUNT == i * COL_COUNT + COL_COUNT) by (nonlinear_arith);
        }
        i += 1;
    }
    if !reader.at_end(Ghost(3 * total)) {
        return None;
    }
    proof {
        assert forall|k: int| 0 <= k < total implies cells(matrix)[k] == unpacked(
            bytes@,
            total as nat,
        )[k] by {
            let a = k / (COL_COUNT as int);
            let b = k % (COL_COUNT as int);
            assert(0 <= a < ROW_COUNT && 0 <= b < COL_COUNT && k == a * COL_COUNT + b) by {
                lemma_place_cell(k, ROW_COUNT as int, COL_COUNT as int);
            }
        }
        assert(cells(matrix) =~= unpacked(bytes@, total as nat));
    }
    Some(matrix)
}

proof fn lemma_place_cell(k: int, rows: int, cols: int)
    requires
        0 <= k < rows * cols,
        0 <= rows,
        0 <= cols,
    ensures
        0 <= k / cols < rows,
        0 <= k % cols < cols,
        k == (k / cols) * cols + k % cols,
{
    assert(cols > 0) by (nonlinear_arith)
        requires
            0 <= k < rows * cols,
            0 <= cols,
    ;
    vstd::arithmetic::div_mod::lemma_fundamental_div_mod(k, cols);
    vstd::arithmetic::div_mod::lemma_mod_bound(k, cols);
    assert(k / cols < rows) by (nonlinear_arith)
        requires
            k == cols * (k / cols) + k % cols,
            0 <= k % cols < cols,
            0 <= k < rows * cols,
            cols > 0,
    ;
    assert(0 <= k / cols) by (nonlinear_arith)
        requires
            k == cols * (k / cols) + k % cols,
            0 <= k % cols < cols,
            0 <= k,
            cols > 0,
    ;
    assert((k / cols) * cols == cols * (k / cols)) by (nonlinear_arith);
}

/// What was packed from a matrix has the length that unpacking asks for,
/// and unpacking it gives that matrix.
pub proof fn lemma_matrix_round_trip<const ROW_COUNT: usize, const COL_COUNT: usize>(
    matrix: [[Bit; COL_COUNT]; ROW_COUNT],
    unpacked_matrix: [[Bit; COL_COUNT]; ROW_COUNT],
)
    requires
        cells(unpacked_matrix) == unpacked(
            packed(cells(matrix)),
            (ROW_COUNT * COL_COUNT) as nat,
        ),
    ensures
        packed(cells(matrix)).len() == packed_len((ROW_COUNT * COL_COUNT) as nat),
        unpacked_matrix == matrix,
{
    lemma_pack_round_trip(cells(matrix));
    lemma_cells_injective(unpacked_matrix, matrix);
}

} // verus!
