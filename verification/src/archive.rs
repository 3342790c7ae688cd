//! A tar archive that holds one file.
//!
//! The archive is what the engine takes when a file is put into a
//! container: one header block of 512 bytes in the `ustar` layout, the
//! contents padded with zeros to whole blocks, and two blocks of zeros at
//! the end.

use vstd::prelude::*;

verus! {

/// The size of a block.
pub open spec fn block() -> nat {
    512
}

/// The largest name, in bytes, that the header can hold.
pub open spec fn name_limit() -> nat {
    100
}

/// The size that no file in an archive can reach: 8 to the power of 11.
pub open spec fn size_limit() -> nat {
    0x2_0000_0000
}

/// `n` zeros.
pub open spec fn zeros(n: nat) -> Seq<u8> {
    Seq::new(n, |i: int| 0u8)
}

/// The last `width` octal digits of `n` as ASCII, the most significant
/// first.
pub open spec fn octal(n: nat, width: nat) -> Seq<u8>
    decreases width,
{
    if width == 0 {
        Seq::empty()
    } else {
        octal(n / 8, (width - 1) as nat).push((48 + n % 8) as u8)
    }
}

/// The sum of the bytes.
pub open spec fn byte_sum(s: Seq<u8>) -> nat
    decreases s.len(),
{
    if s.len() == 0 {
        0
    } else {
        byte_sum(s.drop_last()) + s.last() as nat
    }
}

/// The header up to the checksum: the name, the mode `644`, the owner and
/// the group 0, the size, and the time 0.
pub open spec fn header_head(name: Seq<u8>, size: nat) -> Seq<u8> {
    name + zeros((name_limit() - name.len()) as nat) + octal(0o644, 7) + zeros(1) + octal(0, 7)
        + zeros(1) + octal(0, 7) + zeros(1) + octal(size, 11) + zeros(1) + octal(0, 11) + zeros(1)
}

/// The header after the checksum: the type of a regular file, no link, the
/// magic `ustar` with its version, and zeros for all that is left.
pub open spec fn header_tail() -> Seq<u8> {
    seq![48u8] + zeros(100) + seq![117u8, 115u8, 116u8, 97u8, 114u8, 0u8, 48u8, 48u8] + zeros(247)
}

/// The checksum of the header: the sum of its bytes, the checksum itself
/// counted as eight spaces.
pub open spec fn checksum(name: Seq<u8>, size: nat) -> nat {
    byte_sum(header_head(name, size)) + 8 * 32 + byte_sum(header_tail())
}

/// The header of a regular file.
pub open spec fn header(name: Seq<u8>, size: nat) -> Seq<u8> {
    header_head(name, size) + octal(checksum(name, size), 6) + seq![0u8, 32u8] + header_tail()
}

/// The number of zeros that fill the contents up to whole blocks.
pub open spec fn padding(size: nat) -> nat {
    ((512 - size % 512) % 512) as nat
}

/// Whether a file of this name and these contents fits into an archive.
pub open spec fn fits(name: Seq<u8>, contents: Seq<u8>) -> bool {
    0 < name.len() <= name_limit() && contents.len() < size_limit()
}

/// The archive that holds the one file.
pub open spec fn archive_of(name: Seq<u8>, contents: Seq<u8>) -> Seq<u8> {
    header(name, contents.len()) + contents + zeros(padding(contents.len())) + zeros(2 * block())
}

/// `n` spaces.
pub open spec fn spaces(n: nat) -> Seq<u8> {
    Seq::new(n, |i: int| 32u8)
}

/// The sum over two sequences, one after the other, is the sum of the sums.
pub proof fn lemma_byte_sum_adds(a: Seq<u8>, b: Seq<u8>)
    ensures
        byte_sum(a + b) == byte_sum(a) + byte_sum(b),
    decreases b.len(),
{
    if b.len() == 0 {
        assert(a + b =~= a);
    } else {
        lemma_byte_sum_adds(a, b.drop_last());
        assert((a + b).drop_last() =~= a + b.drop_last());
    }
}

/// The checksum is the sum of the bytes of the header, read with eight
/// spaces where the checksum itself stands.
pub proof fn lemma_checksum_is_the_sum(name: Seq<u8>, size: nat)
    ensures
        checksum(name, size) == byte_sum(header_head(name, size) + spaces(8) + header_tail()),
{
    lemma_byte_sum_adds(header_head(name, size) + spaces(8), header_tail());
    lemma_byte_sum_adds(header_head(name, size), spaces(8));
    assert(byte_sum(spaces(8)) == 8 * 32) by {
        lemma_byte_sum_of_spaces(8);
    }
}

proof fn lemma_byte_sum_of_spaces(n: nat)
    ensures
        byte_sum(spaces(n)) == n * 32,
    decreases n,
{
    if n > 0 {
        lemma_byte_sum_of_spaces((n - 1) as nat);
        assert(spaces(n).drop_last() =~= spaces((n - 1) as nat));
    }
}

/// A header is one block long.
pub proof fn lemma_header_len(name: Seq<u8>, size: nat)
    requires
        name.len() <= name_limit(),
    ensures
        header(name, size).len() == block(),
        header_head(name, size).len() == 148,
        header_tail().len() == 356,
{
    lemma_octal_len(0o644, 7);
    lemma_octal_len(0, 7);
    lemma_octal_len(size, 11);
    lemma_octal_len(0, 11);
    lemma_octal_len(checksum(name, size), 6);
}

/// An octal field has exactly the width asked for.
pub proof fn lemma_octal_len(n: nat, width: nat)
    ensures
        octal(n, width).len() == width,
    decreases width,
{
    if width > 0 {
        lemma_octal_len(n / 8, (width - 1) as nat);
    }
}

/// An archive is a whole number of blocks.
pub proof fn lemma_archive_len(name: Seq<u8>, contents: Seq<u8>)
    requires
        name.len() <= name_limit(),
    ensures
        archive_of(name, contents).len() == 3 * block() + contents.len() + padding(contents.len()),
        archive_of(name, contents).len() % block() == 0,
{
    lemma_header_len(name, contents.len());
}

fn push_zeros(out: &mut Vec<u8>, n: usize)
    ensures
        final(out)@ == old(out)@ + zeros(n as nat),
{
    let mut i: usize = 0;
    assert(out@ =~= old(out)@ + zeros(0));
    while i < n
        invariant
            i <= n,
            out@ == old(out)@ + zeros(i as nat),
        decreases n - i,
    {
        out.push(0u8);
        i += 1;
        assert(out@ =~= old(out)@ + zeros(i as nat));
    }
}

fn push_octal(out: &mut Vec<u8>, n: u64, width: usize)
    ensures
        final(out)@ == old(out)@ + octal(n as nat, width as nat),
    decreases width,
{
    if width == 0 {
        assert(out@ =~= old(out)@ + octal(n as nat, 0));
    } else {
        push_octal(out, n / 8, width - 1);
        let digit: u8 = (48 + n % 8) as u8;
        out.push(digit);
        assert(out@ =~= old(out)@ + octal(n as nat, width as nat));
    }
}

fn push_bytes(out: &mut Vec<u8>, bytes: &[u8])
    ensures
        final(out)@ == old(out)@ + bytes@,
{
    let mut i: usize = 0;
    assert(out@ =~= old(out)@ + bytes@.take(0));
    while i < bytes.len()
        invariant
            i <= bytes.len(),
            out@ == old(out)@ + bytes@.take(i as int),
        decreases bytes.len() - i,
    {
        out.push(bytes[i]);
        i += 1;
        assert(out@ =~= old(out)@ + bytes@.take(i as int));
    }
    assert(bytes@.take(bytes@.len() as int) =~= bytes@);
}

fn sum_bytes(bytes: &Vec<u8>) -> (sum: u64)
    requires
        bytes.len() <= 512,
    ensures
        sum == byte_sum(bytes@),
        sum <= 255 * bytes.len(),
{
    let mut sum: u64 = 0;
    let mut i: usize = 0;
    assert(bytes@.take(0) =~= Seq::<u8>::empty());
    while i < bytes.len()
        invariant
            i <= bytes.len() <= 512,
            sum == byte_sum(bytes@.take(i as int)),
            sum <= 255 * i,
        decreases bytes.len() - i,
    {
        assert(bytes@.take(i + 1).drop_last() =~= bytes@.take(i as int));
        sum += bytes[i] as u64;
        i += 1;
    }
    assert(bytes@.take(bytes@.len() as int) =~= bytes@);
    sum
}

/// Builds the archive that holds one file of this name with these
/// contents. There is none where the name is empty or longer than the
/// header can hold, or where the contents are too large.
pub fn build_archive(name: &[u8], contents: &[u8]) -> (r: Option<Vec<u8>>)
    ensures
        r is Some == fits(name@, contents@),
        r is Some ==> r->0@ == archive_of(name@, contents@),
{
    if name.len() == 0 || name.len() > 100 {
        return None;
    }
    if contents.len() as u64 >= 0x2_0000_0000u64 {
        return None;
    }
    let size: u64 = contents.len() as u64;
    let mut head: Vec<u8> = Vec::new();
    push_bytes(&mut head, name);
    push_zeros(&mut head, 100 - name.len());
    push_octal(&mut head, 0o644, 7);
    push_zeros(&mut head, 1);
    push_octal(&mut head, 0, 7);
    push_zeros(&mut head, 1);
    push_octal(&mut head, 0, 7);
    push_zeros(&mut head, 1);
    push_octal(&mut head, size, 11);
    push_zeros(&mut head, 1);
    push_octal(&mut head, 0, 11);
    push_zeros(&mut head, 1);
    assert(head@ =~= header_head(name@, size as nat));
    let mut tail: Vec<u8> = Vec::new();
    tail.push(48u8);
    push_zeros(&mut tail, 100);
    tail.push(117u8);
    tail.push(115u8);
    tail.push(116u8);
    tail.push(97u8);
    tail.push(114u8);
    tail.push(0u8);
    tail.push(48u8);
    tail.push(48u8);
    push_zeros(&mut tail, 247);
    assert(tail@ =~= header_tail());
    proof {
        lemma_header_len(name@, size as nat);
    }
    let sum: u64 = sum_bytes(&head) + 256 + sum_bytes(&tail);
    let mut out: Vec<u8> = Vec::new();
    push_bytes(&mut out, head.as_slice());
    push_octal(&mut out, sum, 6);
    out.push(0u8);
    out.push(32u8);
    push_bytes(&mut out, tail.as_slice());
    assert(out@ =~= header(name@, size as nat));
    push_bytes(&mut out, contents);
    let rest: usize = contents.len() % 512;
    let fill: usize = if rest == 0 {
        0
    } else {
        512 - rest
    };
    assert(fill == padding(contents@.len()));
    push_zeros(&mut out, fill);
    push_zeros(&mut out, 1024);
    assert(out@ =~= archive_of(name@, contents@));
    Some(out)
}

} // verus!
