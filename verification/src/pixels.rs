//! In-place transformations of flat buffers of 4-byte pixels.

use vstd::prelude::*;
use vstd::arithmetic::div_mod::{
    lemma_fundamental_div_mod, lemma_fundamental_div_mod_converse, lemma_mod_multiples_basic,
};
use crate::animation::LoadError;

verus! {

/// Number of bytes in one pixel.
pub const PIXEL_BYTES: usize = 4;

/// Where the byte at index `i` comes from when every 4-byte group is reversed.
pub open spec fn swapped_index(i: int) -> int {
    i - i % 4 + (3 - i % 4)
}

/// `s` with the four bytes of every pixel in reverse order.
pub open spec fn channel_swapped(s: Seq<u8>) -> Seq<u8> {
    Seq::new(s.len(), |i: int| s[swapped_index(i)])
}

/// Reverses the bytes of every 4-byte pixel of `buff`.
///
/// Fails, leaving the buffer as it was, when its length is not a multiple
/// of four.
pub fn u32_swap_endian(buff: &mut [u8]) -> (r: Result<(), LoadError>)
    ensures
        old(buff)@.len() % 4 == 0 ==> r is Ok && final(buff)@ == channel_swapped(old(buff)@),
        old(buff)@.len() % 4 != 0 ==> r is Err && final(buff)@ == old(buff)@,
        r matches Err(e) ==> e is InvalidBufferLength,
{
    let n: usize = buff.len();
    if n % PIXEL_BYTES != 0 {
        return Err(LoadError::InvalidBufferLength);
    }
    let mut i: usize = 0;
    while i < n
        invariant
            n == buff@.len(),
            n == old(buff)@.len(),
            n % 4 == 0,
            i % 4 == 0,
            i <= n,
            forall|j: int| 0 <= j < i ==> buff@[j] == old(buff)@[swapped_index(j)],
            forall|j: int| i <= j < n ==> buff@[j] == old(buff)@[j],
        decreases n - i,
    {
        let a: u8 = buff[i];
        let b: u8 = buff[i + 1];
        let c: u8 = buff[i + 2];
        let d: u8 = buff[i + 3];
        buff[i] = d;
        buff[i + 1] = c;
        buff[i + 2] = b;
        buff[i + 3] = a;
        i += 4;
    }
    assert(buff@ =~= channel_swapped(old(buff)@));
    Ok(())
}

/// Reversing the bytes of every pixel twice gives back the buffer: the
/// operation is its own inverse on every buffer of whole pixels.
pub proof fn lemma_channel_swap_twice(s: Seq<u8>)
    requires
        s.len() % 4 == 0,
    ensures
        channel_swapped(channel_swapped(s)) == s,
{
    assert forall|i: int| 0 <= i < s.len() implies channel_swapped(channel_swapped(s))[i] == s[i] by {
        assert(swapped_index(swapped_index(i)) == i);
        assert(0 <= swapped_index(i) < s.len());
    }
    assert(channel_swapped(channel_swapped(s)) =~= s);
}

/// `<[T]>::reverse` of std: afterwards the slice holds the elements it held
/// before, in the opposite order.
pub assume_specification<T>[ <[T]>::reverse ](slice: &mut [T])
    ensures
        final(slice)@ == old(slice)@.reverse(),
;

/// Where the byte at index `i` of a buffer of `len` bytes comes from when the
/// order of its pixels is reversed and each pixel keeps its own byte order.
pub open spec fn pixel_reversed_index(len: int, i: int) -> int {
    len - 4 - (i - i % 4) + i % 4
}

/// `s` with its pixels in the opposite order, each pixel's bytes as they were.
pub open spec fn pixels_reversed(s: Seq<u8>) -> Seq<u8> {
    Seq::new(s.len(), |i: int| s[pixel_reversed_index(s.len() as int, i)])
}

/// Reverses the order of the 4-byte pixels of `buff`; the bytes inside each
/// pixel keep their order.
///
/// Fails, leaving the buffer as it was, when its length is not a multiple
/// of four.
pub fn u32_reverse(buff: &mut [u8]) -> (r: Result<(), LoadError>)
    ensures
        old(buff)@.len() % 4 == 0 ==> r is Ok && final(buff)@ == pixels_reversed(old(buff)@),
        old(buff)@.len() % 4 != 0 ==> r is Err && final(buff)@ == old(buff)@,
        r matches Err(e) ==> e is InvalidBufferLength,
{
    if buff.len() % PIXEL_BYTES != 0 {
        return Err(LoadError::InvalidBufferLength);
    }
    buff.reverse();
    // the reversal above also turned every pixel around: undo that
    let r = u32_swap_endian(buff);
    assert(buff@ =~= pixels_reversed(old(buff)@));
    r
}

/// Whether a buffer of `len` bytes is made of whole rows of `row_len` bytes,
/// each made of whole pixels.
pub open spec fn whole_rows(len: int, row_len: int) -> bool {
    &&& row_len % 4 == 0
    &&& if row_len == 0 {
        len == 0
    } else {
        len % row_len == 0
    }
}

/// Where the byte at index `i` of a buffer of `len` bytes comes from when the
/// order of its rows of `row_len` bytes is reversed.
pub open spec fn row_reversed_index(len: int, row_len: int, i: int) -> int {
    (len / row_len - 1 - i / row_len) * row_len + i % row_len
}

/// `s` with its rows of `row_len` bytes in the opposite order, top row last,
/// each row's bytes as they were.
pub open spec fn rows_reversed(s: Seq<u8>, row_len: int) -> Seq<u8> {
    Seq::new(s.len(), |i: int| s[row_reversed_index(s.len() as int, row_len, i)])
}

/// In a buffer of `rows` rows of `row_len` bytes, row `row` of the
/// row-reversed buffer is, byte for byte, row `rows - 1 - row` of the buffer.
pub proof fn lemma_rows_reversed_row(s: Seq<u8>, row_len: int, rows: int, row: int)
    requires
        0 < row_len,
        s.len() == rows * row_len,
        0 <= row < rows,
    ensures
        0 <= row * row_len,
        row * row_len + row_len <= s.len(),
        0 <= (rows - 1 - row) * row_len,
        (rows - 1 - row) * row_len + row_len <= s.len(),
        rows_reversed(s, row_len).subrange(row * row_len, row * row_len + row_len) == s.subrange(
            (rows - 1 - row) * row_len,
            (rows - 1 - row) * row_len + row_len,
        ),
{
    let len = s.len() as int;
    lemma_fundamental_div_mod_converse(len, row_len, rows, 0);
    lemma_row_reversed_index(len, row_len, row, 0);
    lemma_row_reversed_index(len, row_len, rows - 1 - row, 0);
    let out = rows_reversed(s, row_len).subrange(row * row_len, row * row_len + row_len);
    let from = s.subrange((rows - 1 - row) * row_len, (rows - 1 - row) * row_len + row_len);
    assert forall|col: int| 0 <= col < row_len implies out[col] == from[col] by {
        lemma_row_reversed_index(len, row_len, row, col);
    }
    assert(out =~= from);
}

/// In a buffer of whole rows, the byte at column `col` of row `row` has the
/// index `row * row_len + col`, and the row-reversed buffer takes it from the
/// same column of the row that lies as far from the bottom as `row` lies from
/// the top.
proof fn lemma_row_reversed_index(len: int, row_len: int, row: int, col: int)
    requires
        0 < row_len,
        0 <= len,
        len % row_len == 0,
        0 <= row < len / row_len,
        0 <= col < row_len,
    ensures
        0 <= row * row_len + col < len,
        row_reversed_index(len, row_len, row * row_len + col) == (len / row_len - 1 - row)
            * row_len + col,
        row_reversed_index(len, row_len, row * row_len + col) == len - row_len - row * row_len
            + col,
        0 <= row_reversed_index(len, row_len, row * row_len + col) < len,
{
    let i = row * row_len + col;
    let n = len / row_len;
    lemma_fundamental_div_mod(len, row_len);
    lemma_fundamental_div_mod_converse(i, row_len, row, col);
    assert(len == row_len * n);
    assert((n - 1 - row) * row_len == n * row_len - row_len - row * row_len) by (nonlinear_arith);
    assert(row * row_len + row_len <= n * row_len) by (nonlinear_arith)
        requires
            row + 1 <= n,
            0 < row_len,
    ;
    assert(0 <= row * row_len) by (nonlinear_arith)
        requires
            0 <= row,
            0 < row_len,
    ;
}

/// Reverses the order of the rows of `buff`, each `line_size` bytes long: the
/// top row becomes the bottom row. Inside a row every byte stays where it
/// was, so pixels keep their place in the row and their byte order.
///
/// Fails, leaving the buffer as it was, unless `line_size` is a multiple of
/// four and the buffer is made of whole rows. A `line_size` of zero fits the
/// empty buffer only.
pub fn u32_reverse_rows(buff: &mut [u8], line_size: usize) -> (r: Result<(), LoadError>)
    ensures
        whole_rows(old(buff)@.len() as int, line_size as int) ==> r is Ok && final(buff)@
            == rows_reversed(old(buff)@, line_size as int),
        !whole_rows(old(buff)@.len() as int, line_size as int) ==> r is Err && final(buff)@ == old(
            buff,
        )@,
        r matches Err(e) ==> e is InvalidBufferLength,
{
    let n: usize = buff.len();
    if line_size % PIXEL_BYTES != 0 {
        return Err(LoadError::InvalidBufferLength);
    }
    if line_size == 0 {
        if n != 0 {
            return Err(LoadError::InvalidBufferLength);
        }
        assert(buff@ =~= rows_reversed(old(buff)@, 0));
        return Ok(());
    }
    if n % line_size != 0 {
        return Err(LoadError::InvalidBufferLength);
    }
    let ghost rows: int = n as int / line_size as int;
    proof {
        lemma_fundamental_div_mod(n as int, line_size as int);
        lemma_fundamental_div_mod(line_size as int, 4);
        assert(n == (line_size / 4 * rows) * 4) by (nonlinear_arith)
            requires
                n == line_size * rows,
                line_size == 4 * (line_size / 4),
        ;
        lemma_mod_multiples_basic(line_size as int / 4 * rows, 4);
    }
    // turn the whole image around: the rows come out in the opposite order,
    // and so do the pixels of each row
    let _ = u32_reverse(buff);
    let ghost turned: Seq<u8> = buff@;
    let mut i: usize = 0;
    let ghost mut row: int = 0;
    // put the pixels of each row back in their order
    while i < n
        invariant
            n == buff@.len(),
            n == old(buff)@.len(),
            0 < line_size,
            line_size % 4 == 0,
            n == line_size * rows,
            rows == n as int / line_size as int,
            n % line_size == 0,
            i == row * line_size,
            0 <= row <= rows,
            i <= n,
            turned == pixels_reversed(old(buff)@),
            forall|j: int|
                0 <= j < i ==> buff@[j] == old(buff)@[row_reversed_index(
                    n as int,
                    line_size as int,
                    j,
                )],
            forall|j: int| i <= j < n ==> buff@[j] == turned[j],
        decreases n - i,
    {
        proof {
            assert(row < rows) by (nonlinear_arith)
                requires
                    row * line_size < line_size * rows,
                    0 < line_size,
            ;
            assert((row + 1) * line_size <= line_size * rows) by (nonlinear_arith)
                requires
                    row + 1 <= rows,
                    0 < line_size,
            ;
            assert((row + 1) * line_size == row * line_size + line_size) by (nonlinear_arith);
        }
        let ghost before: Seq<u8> = buff@;
        let (_, tail) = buff.split_at_mut(i);
        let (line, _) = tail.split_at_mut(line_size);
        let _ = u32_reverse(line);
        proof {
            assert forall|j: int| 0 <= j < i + line_size implies buff@[j] == old(buff)@[row_reversed_index(
                n as int,
                line_size as int,
                j,
            )] by {
                if j >= i {
                    let k = j - i;
                    lemma_row_reversed_index(n as int, line_size as int, row, k);
                    assert(i % 4 == 0) by {
                        lemma_fundamental_div_mod(line_size as int, 4);
                        assert(i == (row * (line_size / 4)) * 4) by (nonlinear_arith)
                            requires
                                i == row * line_size,
                                line_size == 4 * (line_size / 4),
                        ;
                        lemma_mod_multiples_basic(row * (line_size as int / 4), 4);
                    }
                    let m = i + pixel_reversed_index(line_size as int, k);
                    assert(buff@[j] == before[m]);
                    assert(before[m] == turned[m]);
                }
            }
            assert forall|j: int| i + line_size <= j < n implies buff@[j] == turned[j] by {
                assert(buff@[j] == before[j]);
            }
            row = row + 1;
        }
        i += line_size;
    }
    assert(buff@ =~= rows_reversed(old(buff)@, line_size as int));
    Ok(())
}

} // verus!
