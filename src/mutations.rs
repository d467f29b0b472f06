//! The mutation catalog: primitive byte-level transforms of an input.
//!
//! Each operator is a function of the generator's state, the input and its
//! read-only side inputs (the corpus, a token dictionary, the maximum size); its
//! spec function below states the exact result, so a fixed seed gives fixed
//! output bytes. No operator fails: a degenerate input gives `Skipped`.
use vstd::prelude::*;
use crate::corpus::InMemoryCorpus;
use crate::inputs::BytesInput;
use crate::rand::{below, below_spec, between, between_spec, Rand};
use crate::state::State;
use crate::AflError;

verus! {

/// The outcome of one mutation step.
#[derive(Clone, Copy, Debug, PartialEq, Eq, Structural)]
pub enum MutationResult {
    Mutated,
    Skipped,
}

/// The largest delta of the arithmetic operators.
pub const ARITH_MAX: u64 = 35;

/// The longest block that the block operators insert or set at once.
pub const BLOCK_MAX: usize = 16;

/// The number of the interesting values for one, two and four bytes.
pub const INTERESTING_8_COUNT: u64 = 9;
pub const INTERESTING_16_COUNT: u64 = 19;
pub const INTERESTING_32_COUNT: u64 = 27;

/// The boundary values that the interesting-value operators write. The first
/// nine fit a byte, the first nineteen a 16-bit word.
pub open spec fn interesting_value(i: int) -> i64 {
    if i == 0 { -128i64 }
    else if i == 1 { -1i64 }
    else if i == 2 { 0i64 }
    else if i == 3 { 1i64 }
    else if i == 4 { 16i64 }
    else if i == 5 { 32i64 }
    else if i == 6 { 64i64 }
    else if i == 7 { 100i64 }
    else if i == 8 { 127i64 }
    else if i == 9 { -32768i64 }
    else if i == 10 { -129i64 }
    else if i == 11 { 128i64 }
    else if i == 12 { 255i64 }
    else if i == 13 { 256i64 }
    else if i == 14 { 512i64 }
    else if i == 15 { 1000i64 }
    else if i == 16 { 1024i64 }
    else if i == 17 { 4096i64 }
    else if i == 18 { 32767i64 }
    else if i == 19 { -2147483648i64 }
    else if i == 20 { -100663046i64 }
    else if i == 21 { -32769i64 }
    else if i == 22 { 32768i64 }
    else if i == 23 { 65535i64 }
    else if i == 24 { 65536i64 }
    else if i == 25 { 100663045i64 }
    else { 2147483647i64 }
}

fn interesting_value_exec(i: u64) -> (r: i64)
    ensures
        r == interesting_value(i as int),
{
    if i == 0 { -128 }
    else if i == 1 { -1 }
    else if i == 2 { 0 }
    else if i == 3 { 1 }
    else if i == 4 { 16 }
    else if i == 5 { 32 }
    else if i == 6 { 64 }
    else if i == 7 { 100 }
    else if i == 8 { 127 }
    else if i == 9 { -32768 }
    else if i == 10 { -129 }
    else if i == 11 { 128 }
    else if i == 12 { 255 }
    else if i == 13 { 256 }
    else if i == 14 { 512 }
    else if i == 15 { 1000 }
    else if i == 16 { 1024 }
    else if i == 17 { 4096 }
    else if i == 18 { 32767 }
    else if i == 19 { -2147483648 }
    else if i == 20 { -100663046 }
    else if i == 21 { -32769 }
    else if i == 22 { 32768 }
    else if i == 23 { 65535 }
    else if i == 24 { 65536 }
    else if i == 25 { 100663045 }
    else { 2147483647 }
}

/// A draw in `[0, n)` as an integer (0 without a draw when `n <= 1`).
pub open spec fn pick<R: Rand>(r: R, n: int) -> (R, int) {
    let (r1, v) = below_spec(r, n as u64);
    (r1, v as int)
}

fn pick_exec<R: Rand>(rand: &mut R, n: usize) -> (r: usize)
    ensures
        (*final(rand), r as int) == pick(*old(rand), n as int),
        n >= 1 ==> r < n,
{
    let v = below(rand, n as u64);
    v as usize
}

/// `n` copies of `b`.
pub open spec fn fill(n: int, b: u8) -> Seq<u8> {
    Seq::new(n as nat, |_i: int| b)
}

/// The `w` bytes at `pos`, read as a little-endian number.
pub open spec fn read_le(s: Seq<u8>, pos: int, w: nat) -> u64
    decreases w,
{
    if w == 0 {
        0
    } else {
        (s[pos] as u64) | read_le(s, pos + 1, (w - 1) as nat).wrapping_shl(8u32)
    }
}

/// `s` with the low `w` bytes of `v` written little-endian at `pos`.
pub open spec fn write_le(s: Seq<u8>, pos: int, w: nat, v: u64) -> Seq<u8>
    decreases w,
{
    if w == 0 {
        s
    } else {
        write_le(s.update(pos, v as u8), pos + 1, (w - 1) as nat, v >> 8u64)
    }
}

fn read_le_exec(s: &[u8], pos: usize, w: usize) -> (r: u64)
    requires
        pos + w <= s@.len(),
    ensures
        r == read_le(s@, pos as int, w as nat),
    decreases w,
{
    let _n = s.len();
    if w == 0 {
        0
    } else {
        let rest = read_le_exec(s, pos + 1, w - 1);
        (s[pos] as u64) | rest.wrapping_shl(8u32)
    }
}

fn write_le_exec(input: &mut BytesInput, pos: usize, w: usize, v: u64)
    requires
        pos + w <= old(input)@.len(),
    ensures
        final(input)@ == write_le(old(input)@, pos as int, w as nat, v),
    decreases w,
{
    let _n = input.len();
    if w > 0 {
        input.set_byte(pos, #[verifier::truncate] (v as u8));
        write_le_exec(input, pos + 1, w - 1, v >> 8u64);
    }
}

/// The single-byte operators: on a non-empty input, one byte at a drawn
/// position is changed.
pub open spec fn byte_spec<R: Rand>(kind: MutationKind, r: R, s: Seq<u8>) -> (R, Seq<u8>, MutationResult) {
    if s.len() == 0 {
        (r, s, MutationResult::Skipped)
    } else {
        let (r1, pos) = pick(r, s.len() as int);
        let b = s[pos];
        let (r2, nb) = match kind {
            MutationKind::BitFlip => {
                let (r2, bit) = below_spec(r1, 8);
                (r2, b ^ (1u8 << (bit as u8)))
            },
            MutationKind::ByteFlip => (r1, b ^ 0xffu8),
            MutationKind::ByteInc => (r1, b.wrapping_add(1u8)),
            MutationKind::ByteDec => (r1, b.wrapping_sub(1u8)),
            MutationKind::ByteNeg => (r1, 0u8.wrapping_sub(b)),
            _ => {
                let (r2, v) = below_spec(r1, 255);
                (r2, b ^ ((v + 1) as u8))
            },
        };
        (r2, s.update(pos, nb), MutationResult::Mutated)
    }
}

fn byte_mutate<R: Rand>(kind: MutationKind, rand: &mut R, input: &mut BytesInput) -> (r: MutationResult)
    ensures
        (*final(rand), final(input)@, r) == byte_spec(kind, *old(rand), old(input)@),
{
    let len = input.len();
    if len == 0 {
        return MutationResult::Skipped;
    }
    let pos = pick_exec(rand, len);
    let b = input.byte_at(pos);
    let nb: u8 = match kind {
        MutationKind::BitFlip => {
            let bit = below(rand, 8);
            b ^ (1u8 << (bit as u8))
        },
        MutationKind::ByteFlip => b ^ 0xffu8,
        MutationKind::ByteInc => b.wrapping_add(1u8),
        MutationKind::ByteDec => b.wrapping_sub(1u8),
        MutationKind::ByteNeg => 0u8.wrapping_sub(b),
        _ => {
            let v = below(rand, 255);
            b ^ ((v + 1) as u8)
        },
    };
    input.set_byte(pos, nb);
    MutationResult::Mutated
}

/// The arithmetic operators: a `w`-byte little-endian window at a drawn
/// position gets a drawn delta in `[1, ARITH_MAX]` added or subtracted,
/// wrapping at its width. An input shorter than `w` is skipped.
pub open spec fn arith_spec<R: Rand>(r: R, s: Seq<u8>, w: nat) -> (R, Seq<u8>, MutationResult) {
    if s.len() < w {
        (r, s, MutationResult::Skipped)
    } else {
        let (r1, pos) = pick(r, s.len() - w + 1);
        let (r2, d) = below_spec(r1, ARITH_MAX);
        let (r3, dir) = below_spec(r2, 2);
        let v = read_le(s, pos, w);
        let nv = if dir == 0 {
            v.wrapping_add((d + 1) as u64)
        } else {
            v.wrapping_sub((d + 1) as u64)
        };
        (r3, write_le(s, pos, w, nv), MutationResult::Mutated)
    }
}

fn arith_mutate<R: Rand>(rand: &mut R, input: &mut BytesInput, w: usize) -> (r: MutationResult)
    requires
        1 <= w <= 8,
    ensures
        (*final(rand), final(input)@, r) == arith_spec(*old(rand), old(input)@, w as nat),
{
    let len = input.len();
    if len < w {
        return MutationResult::Skipped;
    }
    let pos = pick_exec(rand, len - w + 1);
    let d = below(rand, ARITH_MAX);
    let dir = below(rand, 2);
    let v = read_le_exec(input.bytes(), pos, w);
    let nv = if dir == 0 {
        v.wrapping_add(d + 1)
    } else {
        v.wrapping_sub(d + 1)
    };
    write_le_exec(input, pos, w, nv);
    MutationResult::Mutated
}

/// The interesting-value operators: a `w`-byte window at a drawn position is
/// overwritten, little-endian, with one of the first `n` interesting values.
pub open spec fn interesting_spec<R: Rand>(r: R, s: Seq<u8>, w: nat, n: u64) -> (R, Seq<u8>, MutationResult) {
    if s.len() < w {
        (r, s, MutationResult::Skipped)
    } else {
        let (r1, pos) = pick(r, s.len() - w + 1);
        let (r2, i) = below_spec(r1, n);
        (r2, write_le(s, pos, w, interesting_value(i as int) as u64), MutationResult::Mutated)
    }
}

fn interesting_mutate<R: Rand>(rand: &mut R, input: &mut BytesInput, w: usize, n: u64) -> (r: MutationResult)
    requires
        1 <= w <= 8,
    ensures
        (*final(rand), final(input)@, r) == interesting_spec(*old(rand), old(input)@, w as nat, n),
{
    let len = input.len();
    if len < w {
        return MutationResult::Skipped;
    }
    let pos = pick_exec(rand, len - w + 1);
    let i = below(rand, n);
    let v = interesting_value_exec(i);
    write_le_exec(input, pos, w, v as u64);
    MutationResult::Mutated
}


fn push_range(dst: &mut Vec<u8>, src: &[u8], from: usize, to: usize)
    requires
        from <= to <= src@.len(),
    ensures
        final(dst)@ == old(dst)@ + src@.subrange(from as int, to as int),
{
    let mut i: usize = from;
    while i < to
        invariant
            from <= i <= to,
            to <= src@.len(),
            dst@ == old(dst)@ + src@.subrange(from as int, i as int),
        decreases to - i,
    {
        dst.push(src[i]);
        proof {
            assert(src@.subrange(from as int, i + 1) =~= src@.subrange(from as int, i as int).push(src@[i as int]));
        }
        i = i + 1;
    }
}

fn push_fill(dst: &mut Vec<u8>, b: u8, n: usize)
    ensures
        final(dst)@ == old(dst)@ + fill(n as int, b),
{
    let mut i: usize = 0;
    while i < n
        invariant
            i <= n,
            dst@ == old(dst)@ + fill(i as int, b),
        decreases n - i,
    {
        dst.push(b);
        proof {
            assert(fill(i + 1, b) =~= fill(i as int, b).push(b));
        }
        i = i + 1;
    }
}

/// The smaller of two integers.
pub open spec fn min_int(a: int, b: int) -> int {
    if a < b { a } else { b }
}

fn min_usize(a: usize, b: usize) -> (r: usize)
    ensures
        r == min_int(a as int, b as int),
{
    if a < b { a } else { b }
}

/// Whether growing an input of `len` bytes by `n` would pass `max_size`.
pub open spec fn too_large(len: int, n: int, max_size: int) -> bool {
    len + n > max_size
}

fn too_large_exec(len: usize, n: usize, max_size: usize) -> (r: bool)
    ensures
        r == too_large(len as int, n as int, max_size as int),
{
    len > max_size || n > max_size - len
}

/// Block delete: a drawn block of at least one byte is removed; inputs of two
/// bytes or fewer are skipped.
pub open spec fn delete_spec<R: Rand>(r: R, s: Seq<u8>) -> (R, Seq<u8>, MutationResult) {
    if s.len() <= 2 {
        (r, s, MutationResult::Skipped)
    } else {
        let (r1, off) = pick(r, s.len() as int);
        let (r2, n0) = pick(r1, s.len() - off);
        let n = n0 + 1;
        (r2, s.subrange(0, off) + s.subrange(off + n, s.len() as int), MutationResult::Mutated)
    }
}

fn delete_mutate<R: Rand>(rand: &mut R, input: &mut BytesInput) -> (r: MutationResult)
    ensures
        (*final(rand), final(input)@, r) == delete_spec(*old(rand), old(input)@),
{
    let len = input.len();
    if len <= 2 {
        return MutationResult::Skipped;
    }
    let off = pick_exec(rand, len);
    let n = pick_exec(rand, len - off) + 1;
    let mut out: Vec<u8> = Vec::new();
    push_range(&mut out, input.bytes(), 0, off);
    push_range(&mut out, input.bytes(), off + n, len);
    input.set_bytes(out);
    MutationResult::Mutated
}

/// Block duplicate: a drawn block of up to `BLOCK_MAX` bytes is inserted again
/// right after itself, unless that passes the maximum size.
pub open spec fn expand_spec<R: Rand>(r: R, s: Seq<u8>, max_size: int) -> (R, Seq<u8>, MutationResult) {
    if s.len() == 0 {
        (r, s, MutationResult::Skipped)
    } else {
        let (r1, off) = pick(r, s.len() as int);
        let (r2, n0) = pick(r1, min_int(BLOCK_MAX as int, s.len() - off));
        let n = n0 + 1;
        if too_large(s.len() as int, n, max_size) {
            (r2, s, MutationResult::Skipped)
        } else {
            (r2, s.subrange(0, off + n) + s.subrange(off, s.len() as int), MutationResult::Mutated)
        }
    }
}

fn expand_mutate<R: Rand>(rand: &mut R, input: &mut BytesInput, max_size: usize) -> (r: MutationResult)
    ensures
        (*final(rand), final(input)@, r) == expand_spec(*old(rand), old(input)@, max_size as int),
{
    let len = input.len();
    if len == 0 {
        return MutationResult::Skipped;
    }
    let off = pick_exec(rand, len);
    let n = pick_exec(rand, min_usize(BLOCK_MAX, len - off)) + 1;
    if too_large_exec(len, n, max_size) {
        return MutationResult::Skipped;
    }
    let mut out: Vec<u8> = Vec::new();
    push_range(&mut out, input.bytes(), 0, off + n);
    push_range(&mut out, input.bytes(), off, len);
    input.set_bytes(out);
    MutationResult::Mutated
}

/// Block insert: up to `BLOCK_MAX` copies of one byte are inserted at a drawn
/// position. The byte is a drawn byte of the input, or with `random` a drawn
/// value (and then an empty input is not skipped). An input already at the
/// maximum size is skipped, as is one that the block would take past it.
pub open spec fn insert_spec<R: Rand>(r: R, s: Seq<u8>, max_size: int, random: bool) -> (R, Seq<u8>, MutationResult) {
    if (!random && s.len() == 0) || s.len() >= max_size {
        (r, s, MutationResult::Skipped)
    } else {
        let (r1, off) = pick(r, s.len() as int + 1);
        let (r2, n0) = pick(r1, BLOCK_MAX as int);
        let n = n0 + 1;
        let (r3, b) = if random {
            let (r3, v) = below_spec(r2, 256);
            (r3, v as u8)
        } else {
            let (r3, src) = pick(r2, s.len() as int);
            (r3, s[src])
        };
        if too_large(s.len() as int, n, max_size) {
            (r3, s, MutationResult::Skipped)
        } else {
            (r3, s.subrange(0, off) + fill(n, b) + s.subrange(off, s.len() as int), MutationResult::Mutated)
        }
    }
}

fn insert_mutate<R: Rand>(rand: &mut R, input: &mut BytesInput, max_size: usize, random: bool) -> (r: MutationResult)
    ensures
        (*final(rand), final(input)@, r) == insert_spec(*old(rand), old(input)@, max_size as int, random),
{
    let len = input.len();
    if (!random && len == 0) || len >= max_size {
        return MutationResult::Skipped;
    }
    let off = pick_exec(rand, len + 1);
    let n = pick_exec(rand, BLOCK_MAX) + 1;
    let b: u8 = if random {
        let v = below(rand, 256);
        v as u8
    } else {
        let src = pick_exec(rand, len);
        input.byte_at(src)
    };
    if too_large_exec(len, n, max_size) {
        return MutationResult::Skipped;
    }
    let mut out: Vec<u8> = Vec::new();
    push_range(&mut out, input.bytes(), 0, off);
    push_fill(&mut out, b, n);
    push_range(&mut out, input.bytes(), off, len);
    input.set_bytes(out);
    MutationResult::Mutated
}

/// Block set: a drawn block of up to `BLOCK_MAX` bytes is overwritten with one
/// byte, a drawn byte of the input or with `random` a drawn value.
pub open spec fn set_spec<R: Rand>(r: R, s: Seq<u8>, random: bool) -> (R, Seq<u8>, MutationResult) {
    if s.len() == 0 {
        (r, s, MutationResult::Skipped)
    } else {
        let (r1, off) = pick(r, s.len() as int);
        let (r2, n0) = pick(r1, min_int(BLOCK_MAX as int, s.len() - off));
        let n = n0 + 1;
        let (r3, b) = if random {
            let (r3, v) = below_spec(r2, 256);
            (r3, v as u8)
        } else {
            let (r3, src) = pick(r2, s.len() as int);
            (r3, s[src])
        };
        (r3, s.subrange(0, off) + fill(n, b) + s.subrange(off + n, s.len() as int), MutationResult::Mutated)
    }
}

fn set_mutate<R: Rand>(rand: &mut R, input: &mut BytesInput, random: bool) -> (r: MutationResult)
    ensures
        (*final(rand), final(input)@, r) == set_spec(*old(rand), old(input)@, random),
{
    let len = input.len();
    if len == 0 {
        return MutationResult::Skipped;
    }
    let off = pick_exec(rand, len);
    let n = pick_exec(rand, min_usize(BLOCK_MAX, len - off)) + 1;
    let b: u8 = if random {
        let v = below(rand, 256);
        v as u8
    } else {
        let src = pick_exec(rand, len);
        input.byte_at(src)
    };
    let mut out: Vec<u8> = Vec::new();
    push_range(&mut out, input.bytes(), 0, off);
    push_fill(&mut out, b, n);
    push_range(&mut out, input.bytes(), off + n, len);
    input.set_bytes(out);
    MutationResult::Mutated
}

/// Block copy: a drawn block is copied over another drawn block of the same
/// input; inputs of one byte or none are skipped.
pub open spec fn copy_spec<R: Rand>(r: R, s: Seq<u8>) -> (R, Seq<u8>, MutationResult) {
    if s.len() <= 1 {
        (r, s, MutationResult::Skipped)
    } else {
        let (r1, from) = pick(r, s.len() as int);
        let (r2, to) = pick(r1, s.len() as int);
        let (r3, n0) = pick(r2, min_int(s.len() - from, s.len() - to));
        let n = n0 + 1;
        (r3, s.subrange(0, to) + s.subrange(from, from + n) + s.subrange(to + n, s.len() as int), MutationResult::Mutated)
    }
}

fn copy_mutate<R: Rand>(rand: &mut R, input: &mut BytesInput) -> (r: MutationResult)
    ensures
        (*final(rand), final(input)@, r) == copy_spec(*old(rand), old(input)@),
{
    let len = input.len();
    if len <= 1 {
        return MutationResult::Skipped;
    }
    let from = pick_exec(rand, len);
    let to = pick_exec(rand, len);
    let n = pick_exec(rand, min_usize(len - from, len - to)) + 1;
    let mut out: Vec<u8> = Vec::new();
    push_range(&mut out, input.bytes(), 0, to);
    push_range(&mut out, input.bytes(), from, from + n);
    push_range(&mut out, input.bytes(), to + n, len);
    input.set_bytes(out);
    MutationResult::Mutated
}

/// Block swap: two drawn, disjoint blocks of the same drawn length trade
/// places; inputs of one byte or none are skipped.
pub open spec fn swap_spec<R: Rand>(r: R, s: Seq<u8>) -> (R, Seq<u8>, MutationResult) {
    if s.len() <= 1 {
        (r, s, MutationResult::Skipped)
    } else {
        let len = s.len() as int;
        let (r1, n0) = pick(r, len / 2);
        let n = n0 + 1;
        let (r2, a) = pick(r1, len - 2 * n + 1);
        let (r3, b0) = pick(r2, len - a - 2 * n + 1);
        let b = a + n + b0;
        (r3, s.subrange(0, a) + s.subrange(b, b + n) + s.subrange(a + n, b) + s.subrange(a, a + n)
            + s.subrange(b + n, len), MutationResult::Mutated)
    }
}

fn swap_mutate<R: Rand>(rand: &mut R, input: &mut BytesInput) -> (r: MutationResult)
    ensures
        (*final(rand), final(input)@, r) == swap_spec(*old(rand), old(input)@),
{
    let len = input.len();
    if len <= 1 {
        return MutationResult::Skipped;
    }
    let n = pick_exec(rand, len / 2) + 1;
    let a = pick_exec(rand, len - 2 * n + 1);
    let b = a + n + pick_exec(rand, len - a - 2 * n + 1);
    let mut out: Vec<u8> = Vec::new();
    push_range(&mut out, input.bytes(), 0, a);
    push_range(&mut out, input.bytes(), b, b + n);
    push_range(&mut out, input.bytes(), a + n, b);
    push_range(&mut out, input.bytes(), a, a + n);
    push_range(&mut out, input.bytes(), b + n, len);
    input.set_bytes(out);
    MutationResult::Mutated
}

/// The bytes of each token of a dictionary.
pub open spec fn token_bytes(tokens: Seq<Vec<u8>>) -> Seq<Seq<u8>> {
    tokens.map_values(|t: Vec<u8>| t@)
}

/// Token insert: a drawn token of the dictionary is inserted at a drawn
/// position. With no dictionary, an empty token, or a result past the maximum
/// size, the input is skipped.
pub open spec fn token_insert_spec<R: Rand>(r: R, s: Seq<u8>, tokens: Seq<Seq<u8>>, max_size: int) -> (R, Seq<u8>, MutationResult) {
    if tokens.len() == 0 || s.len() >= max_size {
        (r, s, MutationResult::Skipped)
    } else {
        let (r1, ti) = pick(r, tokens.len() as int);
        let t = tokens[ti];
        let (r2, off) = pick(r1, s.len() as int + 1);
        if t.len() == 0 || too_large(s.len() as int, t.len() as int, max_size) {
            (r2, s, MutationResult::Skipped)
        } else {
            (r2, s.subrange(0, off) + t + s.subrange(off, s.len() as int), MutationResult::Mutated)
        }
    }
}

fn token_insert_mutate<R: Rand>(rand: &mut R, input: &mut BytesInput, tokens: &Vec<Vec<u8>>, max_size: usize) -> (r: MutationResult)
    ensures
        (*final(rand), final(input)@, r) == token_insert_spec(*old(rand), old(input)@, token_bytes(tokens@), max_size as int),
{
    let len = input.len();
    if tokens.len() == 0 || len >= max_size {
        return MutationResult::Skipped;
    }
    let ti = pick_exec(rand, tokens.len());
    let t = tokens[ti].as_slice();
    let off = pick_exec(rand, len + 1);
    if t.len() == 0 || too_large_exec(len, t.len(), max_size) {
        return MutationResult::Skipped;
    }
    let mut out: Vec<u8> = Vec::new();
    push_range(&mut out, input.bytes(), 0, off);
    push_range(&mut out, t, 0, t.len());
    push_range(&mut out, input.bytes(), off, len);
    assert(t@.subrange(0, t@.len() as int) =~= t@);
    input.set_bytes(out);
    MutationResult::Mutated
}

/// Token replace: the bytes at a drawn position are overwritten with a drawn
/// token, cut at the end of the input. With no dictionary, an empty input or an
/// empty token, the input is skipped.
pub open spec fn token_replace_spec<R: Rand>(r: R, s: Seq<u8>, tokens: Seq<Seq<u8>>) -> (R, Seq<u8>, MutationResult) {
    if tokens.len() == 0 || s.len() == 0 {
        (r, s, MutationResult::Skipped)
    } else {
        let (r1, ti) = pick(r, tokens.len() as int);
        let t = tokens[ti];
        let (r2, off) = pick(r1, s.len() as int);
        let m = min_int(t.len() as int, s.len() - off);
        if t.len() == 0 {
            (r2, s, MutationResult::Skipped)
        } else {
            (r2, s.subrange(0, off) + t.subrange(0, m) + s.subrange(off + m, s.len() as int), MutationResult::Mutated)
        }
    }
}

fn token_replace_mutate<R: Rand>(rand: &mut R, input: &mut BytesInput, tokens: &Vec<Vec<u8>>) -> (r: MutationResult)
    ensures
        (*final(rand), final(input)@, r) == token_replace_spec(*old(rand), old(input)@, token_bytes(tokens@)),
{
    let len = input.len();
    if tokens.len() == 0 || len == 0 {
        return MutationResult::Skipped;
    }
    let ti = pick_exec(rand, tokens.len());
    let t = tokens[ti].as_slice();
    let off = pick_exec(rand, len);
    let m = min_usize(t.len(), len - off);
    if t.len() == 0 {
        return MutationResult::Skipped;
    }
    let mut out: Vec<u8> = Vec::new();
    push_range(&mut out, input.bytes(), 0, off);
    push_range(&mut out, t, 0, m);
    push_range(&mut out, input.bytes(), off + m, len);
    input.set_bytes(out);
    MutationResult::Mutated
}

/// A drawn index of another corpus entry: uniform over the `count` entries,
/// leaving out the current one when it is among them.
pub open spec fn pick_other<R: Rand>(r: R, count: int, current: Option<usize>) -> (R, int) {
    if current is Some && (current->Some_0 as int) < count {
        let c = current->Some_0 as int;
        let (r1, i) = pick(r, count - 1);
        (r1, if i >= c { i + 1 } else { i })
    } else {
        pick(r, count)
    }
}

fn pick_other_exec<R: Rand>(rand: &mut R, count: usize, current: Option<usize>) -> (r: usize)
    requires
        count >= 2,
    ensures
        (*final(rand), r as int) == pick_other(*old(rand), count as int, current),
        r < count,
        current is Some && current->Some_0 < count ==> r != current->Some_0,
{
    match current {
        Some(c) => {
            if c < count {
                let i = pick_exec(rand, count - 1);
                if i >= c { i + 1 } else { i }
            } else {
                pick_exec(rand, count)
            }
        },
        None => pick_exec(rand, count),
    }
}

/// Crossover insert: a drawn block of another corpus entry is inserted at a
/// drawn position. With fewer than two entries, an empty donor, or a result
/// past the maximum size, the input is skipped.
pub open spec fn crossover_insert_spec<R: Rand>(r: R, s: Seq<u8>, corpus: Seq<Seq<u8>>, current: Option<usize>, max_size: int) -> (R, Seq<u8>, MutationResult) {
    if corpus.len() < 2 || s.len() >= max_size {
        (r, s, MutationResult::Skipped)
    } else {
        let (r1, oi) = pick_other(r, corpus.len() as int, current);
        let o = corpus[oi];
        if o.len() == 0 {
            (r1, s, MutationResult::Skipped)
        } else {
            let (r2, from) = pick(r1, o.len() as int);
            let (r3, n0) = pick(r2, o.len() - from);
            let n = n0 + 1;
            let (r4, to) = pick(r3, s.len() as int + 1);
            if too_large(s.len() as int, n, max_size) {
                (r4, s, MutationResult::Skipped)
            } else {
                (r4, s.subrange(0, to) + o.subrange(from, from + n) + s.subrange(to, s.len() as int), MutationResult::Mutated)
            }
        }
    }
}

fn crossover_insert_mutate<R: Rand>(rand: &mut R, input: &mut BytesInput, corpus: &InMemoryCorpus, max_size: usize) -> (r: MutationResult)
    ensures
        (*final(rand), final(input)@, r) == crossover_insert_spec(*old(rand), old(input)@, corpus@, corpus.current_spec(), max_size as int),
{
    let len = input.len();
    let count = corpus.count();
    if count < 2 || len >= max_size {
        return MutationResult::Skipped;
    }
    let oi = pick_other_exec(rand, count, corpus.current());
    let o = match corpus.get(oi) {
        Some(t) => t.input().bytes(),
        None => return MutationResult::Skipped,
    };
    let olen = o.len();
    if olen == 0 {
        return MutationResult::Skipped;
    }
    let from = pick_exec(rand, olen);
    let n = pick_exec(rand, olen - from) + 1;
    let to = pick_exec(rand, len + 1);
    if too_large_exec(len, n, max_size) {
        return MutationResult::Skipped;
    }
    let mut out: Vec<u8> = Vec::new();
    push_range(&mut out, input.bytes(), 0, to);
    push_range(&mut out, o, from, from + n);
    push_range(&mut out, input.bytes(), to, len);
    input.set_bytes(out);
    MutationResult::Mutated
}

/// Crossover replace: a drawn block of another corpus entry overwrites a
/// block of the input at a drawn position. With fewer than two entries, an
/// empty input or an empty donor, the input is skipped.
pub open spec fn crossover_replace_spec<R: Rand>(r: R, s: Seq<u8>, corpus: Seq<Seq<u8>>, current: Option<usize>) -> (R, Seq<u8>, MutationResult) {
    if corpus.len() < 2 || s.len() == 0 {
        (r, s, MutationResult::Skipped)
    } else {
        let (r1, oi) = pick_other(r, corpus.len() as int, current);
        let o = corpus[oi];
        if o.len() == 0 {
            (r1, s, MutationResult::Skipped)
        } else {
            let (r2, from) = pick(r1, o.len() as int);
            let (r3, to) = pick(r2, s.len() as int);
            let (r4, n0) = pick(r3, min_int(o.len() - from, s.len() - to));
            let n = n0 + 1;
            (r4, s.subrange(0, to) + o.subrange(from, from + n) + s.subrange(to + n, s.len() as int), MutationResult::Mutated)
        }
    }
}

fn crossover_replace_mutate<R: Rand>(rand: &mut R, input: &mut BytesInput, corpus: &InMemoryCorpus) -> (r: MutationResult)
    ensures
        (*final(rand), final(input)@, r) == crossover_replace_spec(*old(rand), old(input)@, corpus@, corpus.current_spec()),
{
    let len = input.len();
    let count = corpus.count();
    if count < 2 || len == 0 {
        return MutationResult::Skipped;
    }
    let oi = pick_other_exec(rand, count, corpus.current());
    let o = match corpus.get(oi) {
        Some(t) => t.input().bytes(),
        None => return MutationResult::Skipped,
    };
    let olen = o.len();
    if olen == 0 {
        return MutationResult::Skipped;
    }
    let from = pick_exec(rand, olen);
    let to = pick_exec(rand, len);
    let n = pick_exec(rand, min_usize(olen - from, len - to)) + 1;
    let mut out: Vec<u8> = Vec::new();
    push_range(&mut out, input.bytes(), 0, to);
    push_range(&mut out, o, from, from + n);
    push_range(&mut out, input.bytes(), to + n, len);
    input.set_bytes(out);
    MutationResult::Mutated
}

/// The first and the last index below `n` where `a` and `b` differ, or -1 for
/// both where they agree on all of them.
pub open spec fn diffs(a: Seq<u8>, b: Seq<u8>, n: int) -> (int, int)
    decreases n,
{
    if n <= 0 {
        (-1, -1)
    } else {
        let (f, l) = diffs(a, b, n - 1);
        if a[n - 1] != b[n - 1] {
            (if f < 0 { n - 1 } else { f }, n - 1)
        } else {
            (f, l)
        }
    }
}

proof fn lemma_diffs_range(a: Seq<u8>, b: Seq<u8>, n: int)
    requires
        n >= 0,
    ensures
        (diffs(a, b, n).0 < 0) == (diffs(a, b, n).1 < 0),
        diffs(a, b, n).0 < 0 ==> diffs(a, b, n).0 == -1 && diffs(a, b, n).1 == -1,
        diffs(a, b, n).0 >= 0 ==> diffs(a, b, n).0 <= diffs(a, b, n).1 < n,
    decreases n,
{
    if n > 0 {
        lemma_diffs_range(a, b, n - 1);
    }
}

fn locate_diffs(a: &[u8], b: &[u8]) -> (r: Option<(usize, usize)>)
    ensures
        ({
            let (f, l) = diffs(a@, b@, min_int(a@.len() as int, b@.len() as int));
            &&& r is None <==> f < 0
            &&& r matches Some(p) ==> p.0 as int == f && p.1 as int == l
        }),
{
    let n = min_usize(a.len(), b.len());
    let mut r: Option<(usize, usize)> = None;
    let mut i: usize = 0;
    while i < n
        invariant
            i <= n,
            n == min_int(a@.len() as int, b@.len() as int),
            ({
                let (f, l) = diffs(a@, b@, i as int);
                &&& r is None <==> f < 0
                &&& r matches Some(p) ==> p.0 as int == f && p.1 as int == l
            }),
        decreases n - i,
    {
        proof {
            lemma_diffs_range(a@, b@, i as int);
        }
        if a[i] != b[i] {
            r = match r {
                Some(p) => Some((p.0, i)),
                None => Some((i, i)),
            };
        }
        i = i + 1;
    }
    r
}

/// Splice: the input is cut at a drawn point between the first and the last
/// position where it differs from another corpus entry, and the rest is taken
/// from that entry. Skipped with fewer than two entries, or where the two do
/// not differ at two distinct positions reaching index 2.
pub open spec fn splice_spec<R: Rand>(r: R, s: Seq<u8>, corpus: Seq<Seq<u8>>, current: Option<usize>) -> (R, Seq<u8>, MutationResult) {
    if corpus.len() < 2 {
        (r, s, MutationResult::Skipped)
    } else {
        let (r1, oi) = pick_other(r, corpus.len() as int, current);
        let o = corpus[oi];
        let (f, l) = diffs(s, o, min_int(s.len() as int, o.len() as int));
        if !(f >= 0 && f != l && l >= 2) {
            (r1, s, MutationResult::Skipped)
        } else {
            let (r2, split) = between_spec(r1, f as u64, l as u64);
            (r2, s.subrange(0, split as int) + o.subrange(split as int, o.len() as int), MutationResult::Mutated)
        }
    }
}

fn splice_mutate<R: Rand>(rand: &mut R, input: &mut BytesInput, corpus: &InMemoryCorpus) -> (r: MutationResult)
    ensures
        (*final(rand), final(input)@, r) == splice_spec(*old(rand), old(input)@, corpus@, corpus.current_spec()),
{
    let count = corpus.count();
    if count < 2 {
        return MutationResult::Skipped;
    }
    let oi = pick_other_exec(rand, count, corpus.current());
    let o = match corpus.get(oi) {
        Some(t) => t.input().bytes(),
        None => return MutationResult::Skipped,
    };
    proof {
        lemma_diffs_range(input@, o@, min_int(input@.len() as int, o@.len() as int));
    }
    let (f, l) = match locate_diffs(input.bytes(), o) {
        Some(p) => p,
        None => return MutationResult::Skipped,
    };
    if !(f != l && l >= 2) {
        return MutationResult::Skipped;
    }
    let len = input.len();
    assert(l < len);
    let split = between(rand, f as u64, l as u64) as usize;
    let mut out: Vec<u8> = Vec::new();
    push_range(&mut out, input.bytes(), 0, split);
    push_range(&mut out, o, split, o.len());
    input.set_bytes(out);
    MutationResult::Mutated
}

/// The entries of the catalog.
#[derive(Clone, Copy, Debug, PartialEq, Eq, Structural)]
pub enum MutationKind {
    BitFlip,
    ByteFlip,
    ByteInc,
    ByteDec,
    ByteNeg,
    ByteRand,
    ByteAdd,
    WordAdd,
    DwordAdd,
    QwordAdd,
    ByteInteresting,
    WordInteresting,
    DwordInteresting,
    BytesDelete,
    BytesExpand,
    BytesInsert,
    BytesRandInsert,
    BytesSet,
    BytesRandSet,
    BytesCopy,
    BytesSwap,
    TokenInsert,
    TokenReplace,
    CrossoverInsert,
    CrossoverReplace,
    Splice,
}

impl MutationKind {
    /// The name that provenance metadata records for this entry.
    pub fn name(&self) -> (r: &'static str)
        ensures
            r@ == self.name_spec(),
    {
        match self {
            MutationKind::BitFlip => "BitFlipMutator",
            MutationKind::ByteFlip => "ByteFlipMutator",
            MutationKind::ByteInc => "ByteIncMutator",
            MutationKind::ByteDec => "ByteDecMutator",
            MutationKind::ByteNeg => "ByteNegMutator",
            MutationKind::ByteRand => "ByteRandMutator",
            MutationKind::ByteAdd => "ByteAddMutator",
            MutationKind::WordAdd => "WordAddMutator",
            MutationKind::DwordAdd => "DwordAddMutator",
            MutationKind::QwordAdd => "QwordAddMutator",
            MutationKind::ByteInteresting => "ByteInterestingMutator",
            MutationKind::WordInteresting => "WordInterestingMutator",
            MutationKind::DwordInteresting => "DwordInterestingMutator",
            MutationKind::BytesDelete => "BytesDeleteMutator",
            MutationKind::BytesExpand => "BytesExpandMutator",
            MutationKind::BytesInsert => "BytesInsertMutator",
            MutationKind::BytesRandInsert => "BytesRandInsertMutator",
            MutationKind::BytesSet => "BytesSetMutator",
            MutationKind::BytesRandSet => "BytesRandSetMutator",
            MutationKind::BytesCopy => "BytesCopyMutator",
            MutationKind::BytesSwap => "BytesSwapMutator",
            MutationKind::TokenInsert => "TokenInsert",
            MutationKind::TokenReplace => "TokenReplace",
            MutationKind::CrossoverInsert => "CrossoverInsertMutator",
            MutationKind::CrossoverReplace => "CrossoverReplaceMutator",
            MutationKind::Splice => "SpliceMutator",
        }
    }

    /// The name of this entry, as a sequence of characters.
    pub closed spec fn name_spec(&self) -> Seq<char> {
        match self {
            MutationKind::BitFlip => "BitFlipMutator"@,
            MutationKind::ByteFlip => "ByteFlipMutator"@,
            MutationKind::ByteInc => "ByteIncMutator"@,
            MutationKind::ByteDec => "ByteDecMutator"@,
            MutationKind::ByteNeg => "ByteNegMutator"@,
            MutationKind::ByteRand => "ByteRandMutator"@,
            MutationKind::ByteAdd => "ByteAddMutator"@,
            MutationKind::WordAdd => "WordAddMutator"@,
            MutationKind::DwordAdd => "DwordAddMutator"@,
            MutationKind::QwordAdd => "QwordAddMutator"@,
            MutationKind::ByteInteresting => "ByteInterestingMutator"@,
            MutationKind::WordInteresting => "WordInterestingMutator"@,
            MutationKind::DwordInteresting => "DwordInterestingMutator"@,
            MutationKind::BytesDelete => "BytesDeleteMutator"@,
            MutationKind::BytesExpand => "BytesExpandMutator"@,
            MutationKind::BytesInsert => "BytesInsertMutator"@,
            MutationKind::BytesRandInsert => "BytesRandInsertMutator"@,
            MutationKind::BytesSet => "BytesSetMutator"@,
            MutationKind::BytesRandSet => "BytesRandSetMutator"@,
            MutationKind::BytesCopy => "BytesCopyMutator"@,
            MutationKind::BytesSwap => "BytesSwapMutator"@,
            MutationKind::TokenInsert => "TokenInsert"@,
            MutationKind::TokenReplace => "TokenReplace"@,
            MutationKind::CrossoverInsert => "CrossoverInsertMutator"@,
            MutationKind::CrossoverReplace => "CrossoverReplaceMutator"@,
            MutationKind::Splice => "SpliceMutator"@,
        }
    }
}

/// The read-only side inputs of a mutation: the corpus (its entries' bytes and
/// the entry being fuzzed), the token dictionary and the maximum input size.
pub struct MutationContext {
    pub corpus: Seq<Seq<u8>>,
    pub current: Option<usize>,
    pub tokens: Seq<Seq<u8>>,
    pub max_size: int,
}

/// The side inputs as the executable values hold them.
pub open spec fn context_of(corpus: InMemoryCorpus, tokens: Seq<Vec<u8>>, max_size: usize) -> MutationContext {
    MutationContext {
        corpus: corpus@,
        current: corpus.current_spec(),
        tokens: token_bytes(tokens),
        max_size: max_size as int,
    }
}

/// The exact effect of one catalog entry: the generator after its draws, the
/// new input bytes, and the outcome.
pub open spec fn mutation_spec<R: Rand>(kind: MutationKind, r: R, s: Seq<u8>, ctx: MutationContext) -> (R, Seq<u8>, MutationResult) {
    match kind {
        MutationKind::BitFlip | MutationKind::ByteFlip | MutationKind::ByteInc
        | MutationKind::ByteDec | MutationKind::ByteNeg | MutationKind::ByteRand => byte_spec(kind, r, s),
        MutationKind::ByteAdd => arith_spec(r, s, 1),
        MutationKind::WordAdd => arith_spec(r, s, 2),
        MutationKind::DwordAdd => arith_spec(r, s, 4),
        MutationKind::QwordAdd => arith_spec(r, s, 8),
        MutationKind::ByteInteresting => interesting_spec(r, s, 1, INTERESTING_8_COUNT),
        MutationKind::WordInteresting => interesting_spec(r, s, 2, INTERESTING_16_COUNT),
        MutationKind::DwordInteresting => interesting_spec(r, s, 4, INTERESTING_32_COUNT),
        MutationKind::BytesDelete => delete_spec(r, s),
        MutationKind::BytesExpand => expand_spec(r, s, ctx.max_size),
        MutationKind::BytesInsert => insert_spec(r, s, ctx.max_size, false),
        MutationKind::BytesRandInsert => insert_spec(r, s, ctx.max_size, true),
        MutationKind::BytesSet => set_spec(r, s, false),
        MutationKind::BytesRandSet => set_spec(r, s, true),
        MutationKind::BytesCopy => copy_spec(r, s),
        MutationKind::BytesSwap => swap_spec(r, s),
        MutationKind::TokenInsert => token_insert_spec(r, s, ctx.tokens, ctx.max_size),
        MutationKind::TokenReplace => token_replace_spec(r, s, ctx.tokens),
        MutationKind::CrossoverInsert => crossover_insert_spec(r, s, ctx.corpus, ctx.current, ctx.max_size),
        MutationKind::CrossoverReplace => crossover_replace_spec(r, s, ctx.corpus, ctx.current),
        MutationKind::Splice => splice_spec(r, s, ctx.corpus, ctx.current),
    }
}

/// Applies one catalog entry to `input`, drawing from `rand` and reading the
/// side inputs.
pub fn mutate_with<R: Rand>(
    kind: MutationKind,
    rand: &mut R,
    input: &mut BytesInput,
    corpus: &InMemoryCorpus,
    tokens: &Vec<Vec<u8>>,
    max_size: usize,
) -> (r: MutationResult)
    ensures
        (*final(rand), final(input)@, r) == mutation_spec(kind, *old(rand), old(input)@, context_of(*corpus, tokens@, max_size)),
{
    match kind {
        MutationKind::BitFlip | MutationKind::ByteFlip | MutationKind::ByteInc
        | MutationKind::ByteDec | MutationKind::ByteNeg | MutationKind::ByteRand => byte_mutate(kind, rand, input),
        MutationKind::ByteAdd => arith_mutate(rand, input, 1),
        MutationKind::WordAdd => arith_mutate(rand, input, 2),
        MutationKind::DwordAdd => arith_mutate(rand, input, 4),
        MutationKind::QwordAdd => arith_mutate(rand, input, 8),
        MutationKind::ByteInteresting => interesting_mutate(rand, input, 1, INTERESTING_8_COUNT),
        MutationKind::WordInteresting => interesting_mutate(rand, input, 2, INTERESTING_16_COUNT),
        MutationKind::DwordInteresting => interesting_mutate(rand, input, 4, INTERESTING_32_COUNT),
        MutationKind::BytesDelete => delete_mutate(rand, input),
        MutationKind::BytesExpand => expand_mutate(rand, input, max_size),
        MutationKind::BytesInsert => insert_mutate(rand, input, max_size, false),
        MutationKind::BytesRandInsert => insert_mutate(rand, input, max_size, true),
        MutationKind::BytesSet => set_mutate(rand, input, false),
        MutationKind::BytesRandSet => set_mutate(rand, input, true),
        MutationKind::BytesCopy => copy_mutate(rand, input),
        MutationKind::BytesSwap => swap_mutate(rand, input),
        MutationKind::TokenInsert => token_insert_mutate(rand, input, tokens, max_size),
        MutationKind::TokenReplace => token_replace_mutate(rand, input, tokens),
        MutationKind::CrossoverInsert => crossover_insert_mutate(rand, input, corpus, max_size),
        MutationKind::CrossoverReplace => crossover_replace_mutate(rand, input, corpus),
        MutationKind::Splice => splice_mutate(rand, input, corpus),
    }
}

/// Applies one catalog entry to `input`, drawing from the state's generator and
/// reading its side inputs.
pub fn get_and_mutate<R: Rand>(kind: MutationKind, state: &mut State<R>, input: &mut BytesInput) -> (r: MutationResult)
    ensures
        (final(state).rand, final(input)@, r) == mutation_spec(kind, old(state).rand, old(input)@, old(state).context()),
        final(state).same_but_rand(*old(state)),
{
    mutate_with(kind, &mut state.rand, input, &state.corpus, &state.tokens, state.max_size)
}

/// The splice mutation on its own.
pub struct SpliceMutator {}

impl SpliceMutator {
    /// A splice mutator.
    pub fn new() -> (r: SpliceMutator) {
        SpliceMutator {}
    }

    /// Splices `input` with another corpus entry.
    pub fn mutate<R: Rand>(&mut self, state: &mut State<R>, input: &mut BytesInput, stage_idx: i32) -> (r: Result<MutationResult, AflError>)
        ensures
            ({
                let (rs, bytes, out) = splice_spec(old(state).rand, old(input)@, old(state).corpus@, old(state).corpus.current_spec());
                &&& r == Ok::<MutationResult, AflError>(out)
                &&& final(state).rand == rs
                &&& final(input)@ == bytes
            }),
            final(state).same_but_rand(*old(state)),
    {
        Ok(get_and_mutate(MutationKind::Splice, state, input))
    }
}

} // verus!
