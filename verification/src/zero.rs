//! Payload types for which a block of zero bytes is a value.

use vstd::layout::layout_of_primitives;
use vstd::layout::size_of;
use vstd::prelude::*;

verus! {

/// A sequence of `count` zero bytes.
pub open spec fn zero_bytes(count: nat) -> Seq<u8> {
    Seq::new(count, |i: int| 0u8)
}

/// 256 to the power `exp`: how many values `exp` bytes can tell apart.
pub open spec fn pow256(exp: nat) -> nat
    decreases exp,
{
    if exp == 0 {
        1
    } else {
        256 * pow256((exp - 1) as nat)
    }
}

/// The number that stands for `value` on `count` bytes in two's complement:
/// `value` itself where it is not negative, and `value` raised by
/// `pow256(count)` where it is.
pub open spec fn twos_complement(value: int, count: nat) -> nat {
    if value >= 0 {
        value as nat
    } else {
        (value + pow256(count)) as nat
    }
}

/// The lowest `count` bytes of `value`, least significant byte first.
pub open spec fn le_bytes(value: nat, count: nat) -> Seq<u8>
    decreases count,
{
    if count == 0 {
        Seq::empty()
    } else {
        seq![(value % 256) as u8] + le_bytes(value / 256, (count - 1) as nat)
    }
}

/// `le_bytes` yields exactly as many bytes as were asked for.
pub proof fn lemma_le_bytes_len(value: nat, count: nat)
    ensures
        le_bytes(value, count).len() == count,
    decreases count,
{
    if count > 0 {
        lemma_le_bytes_len(value / 256, (count - 1) as nat);
    }
}

/// The bytes of zero are all zero.
pub proof fn lemma_le_bytes_of_zero(count: nat)
    ensures
        le_bytes(0, count) == zero_bytes(count),
    decreases count,
{
    if count > 0 {
        lemma_le_bytes_of_zero((count - 1) as nat);
        lemma_le_bytes_len(0, (count - 1) as nat);
    }
    assert(le_bytes(0, count) =~= zero_bytes(count));
}

/// Two numbers that fit into `count` bytes and have the same bytes are the
/// same number.
pub proof fn lemma_le_bytes_injective(a: nat, b: nat, count: nat)
    requires
        a < pow256(count),
        b < pow256(count),
        le_bytes(a, count) == le_bytes(b, count),
    ensures
        a == b,
    decreases count,
{
    if count > 0 {
        let rest = (count - 1) as nat;
        let tail_a = le_bytes(a / 256, rest);
        let tail_b = le_bytes(b / 256, rest);
        lemma_le_bytes_len(a / 256, rest);
        lemma_le_bytes_len(b / 256, rest);
        assert(le_bytes(a, count)[0] == (a % 256) as u8);
        assert(le_bytes(b, count)[0] == (b % 256) as u8);
        assert forall|i: int| 0 <= i < rest implies tail_a[i] == tail_b[i] by {
            assert(le_bytes(a, count)[i + 1] == tail_a[i]);
            assert(le_bytes(b, count)[i + 1] == tail_b[i]);
        }
        assert(tail_a =~= tail_b);
        lemma_le_bytes_injective(a / 256, b / 256, rest);
    }
}

/// Writes out the lowest `count` bytes of `value`, least significant first.
fn encode_le(value: u128, count: usize) -> (out: Vec<u8>)
    ensures
        out@ == le_bytes(value as nat, count as nat),
{
    let mut out: Vec<u8> = Vec::new();
    let mut rest: u128 = value;
    let mut done: usize = 0;
    while done < count
        invariant
            done <= count,
            out@.len() == done,
            le_bytes(value as nat, count as nat) == out@ + le_bytes(
                rest as nat,
                (count - done) as nat,
            ),
        decreases count - done,
    {
        let ghost before = out@;
        let low: u8 = (rest % 256) as u8;
        out.push(low);
        proof {
            let tail = le_bytes((rest / 256) as nat, (count - done - 1) as nat);
            assert(le_bytes(rest as nat, (count - done) as nat) == seq![low] + tail);
            assert(before + (seq![low] + tail) =~= before.push(low) + tail);
        }
        rest = rest / 256;
        done = done + 1;
    }
    assert(out@ + le_bytes(rest as nat, 0) =~= out@);
    out
}

/// Marks a payload type whose all-zero bit pattern is one of its values.
///
/// An implementation says how many bytes a value has and which they are, and
/// promises that this account is faithful: every value has `size()` bytes,
/// and the bytes determine the value. `zeroed` is then the one value whose
/// bytes are all zero.
pub trait ZeroValid: Sized {
    /// The number of bytes that a value has.
    spec fn size() -> nat;

    /// The bytes that make up the value.
    spec fn bytes(&self) -> Seq<u8>;

    /// Every value has `size()` bytes, and values with the same bytes are
    /// the same value.
    proof fn lemma_bytes_faithful(a: Self, b: Self)
        ensures
            a.bytes().len() == Self::size(),
            a.bytes() == b.bytes() ==> a == b,
    ;

    /// The value whose bytes are all zero.
    fn zeroed() -> (value: Self)
        ensures
            value.bytes() == zero_bytes(Self::size()),
    ;

    /// Copies the value's bytes out for inspection.
    fn to_bytes(&self) -> (out: Vec<u8>)
        ensures
            out@ == self.bytes(),
    ;
}

/// The bytes of a `u8`, least significant first. Its size is the one it has
/// in memory.
impl ZeroValid for u8 {
    open spec fn size() -> nat {
        size_of::<u8>()
    }

    open spec fn bytes(&self) -> Seq<u8> {
        le_bytes(*self as nat, 1)
    }

    proof fn lemma_bytes_faithful(a: Self, b: Self) {
        broadcast use layout_of_primitives;

        reveal_with_fuel(pow256, 2);
        lemma_le_bytes_len(a as nat, 1);
        if a.bytes() == b.bytes() {
            lemma_le_bytes_injective(a as nat, b as nat, 1);
        }
    }

    fn zeroed() -> (value: Self)
        ensures
            value == 0,
    {
        proof {
            broadcast use layout_of_primitives;

            lemma_le_bytes_of_zero(1);
        }
        0
    }

    fn to_bytes(&self) -> (out: Vec<u8>) {
        encode_le(*self as u128, 1)
    }
}

/// The bytes of a `u16`, least significant first. Its size is the one it has
/// in memory.
impl ZeroValid for u16 {
    open spec fn size() -> nat {
        size_of::<u16>()
    }

    open spec fn bytes(&self) -> Seq<u8> {
        le_bytes(*self as nat, 2)
    }

    proof fn lemma_bytes_faithful(a: Self, b: Self) {
        broadcast use layout_of_primitives;

        reveal_with_fuel(pow256, 3);
        lemma_le_bytes_len(a as nat, 2);
        if a.bytes() == b.bytes() {
            lemma_le_bytes_injective(a as nat, b as nat, 2);
        }
    }

    fn zeroed() -> (value: Self)
        ensures
            value == 0,
    {
        proof {
            broadcast use layout_of_primitives;

            lemma_le_bytes_of_zero(2);
        }
        0
    }

    fn to_bytes(&self) -> (out: Vec<u8>) {
        encode_le(*self as u128, 2)
    }
}

/// The bytes of a `u32`, least significant first. Its size is the one it has
/// in memory.
impl ZeroValid for u32 {
    open spec fn size() -> nat {
        size_of::<u32>()
    }

    open spec fn bytes(&self) -> Seq<u8> {
        le_bytes(*self as nat, 4)
    }

    proof fn lemma_bytes_faithful(a: Self, b: Self) {
        broadcast use layout_of_primitives;

        reveal_with_fuel(pow256, 5);
        lemma_le_bytes_len(a as nat, 4);
        if a.bytes() == b.bytes() {
            lemma_le_bytes_injective(a as nat, b as nat, 4);
        }
    }

    fn zeroed() -> (value: Self)
        ensures
            value == 0,
    {
        proof {
            broadcast use layout_of_primitives;

            lemma_le_bytes_of_zero(4);
        }
        0
    }

    fn to_bytes(&self) -> (out: Vec<u8>) {
        encode_le(*self as u128, 4)
    }
}

/// The bytes of a `u64`, least significant first. Its size is the one it has
/// in memory.
impl ZeroValid for u64 {
    open spec fn size() -> nat {
        size_of::<u64>()
    }

    open spec fn bytes(&self) -> Seq<u8> {
        le_bytes(*self as nat, 8)
    }

    proof fn lemma_bytes_faithful(a: Self, b: Self) {
        broadcast use layout_of_primitives;

        reveal_with_fuel(pow256, 9);
        lemma_le_bytes_len(a as nat, 8);
        if a.bytes() == b.bytes() {
            lemma_le_bytes_injective(a as nat, b as nat, 8);
        }
    }

    fn zeroed() -> (value: Self)
        ensures
            value == 0,
    {
        proof {
            broadcast use layout_of_primitives;

            lemma_le_bytes_of_zero(8);
        }
        0
    }

    fn to_bytes(&self) -> (out: Vec<u8>) {
        encode_le(*self as u128, 8)
    }
}

/// The bytes of a `u128`, least significant first. Its size is the one it has
/// in memory.
impl ZeroValid for u128 {
    open spec fn size() -> nat {
        size_of::<u128>()
    }

    open spec fn bytes(&self) -> Seq<u8> {
        le_bytes(*self as nat, 16)
    }

    proof fn lemma_bytes_faithful(a: Self, b: Self) {
        broadcast use layout_of_primitives;

        reveal_with_fuel(pow256, 17);
        lemma_le_bytes_len(a as nat, 16);
        if a.bytes() == b.bytes() {
            lemma_le_bytes_injective(a as nat, b as nat, 16);
        }
    }

    fn zeroed() -> (value: Self)
        ensures
            value == 0,
    {
        proof {
            broadcast use layout_of_primitives;

            lemma_le_bytes_of_zero(16);
        }
        0
    }

    fn to_bytes(&self) -> (out: Vec<u8>) {
        encode_le(*self, 16)
    }
}

/// The bytes of an `i8` in two's complement, least significant first. Its
/// size is the one it has in memory.
impl ZeroValid for i8 {
    open spec fn size() -> nat {
        size_of::<i8>()
    }

    open spec fn bytes(&self) -> Seq<u8> {
        le_bytes(twos_complement(*self as int, 1), 1)
    }

    proof fn lemma_bytes_faithful(a: Self, b: Self) {
        broadcast use layout_of_primitives;

        reveal_with_fuel(pow256, 2);
        lemma_le_bytes_len(twos_complement(a as int, 1), 1);
        if a.bytes() == b.bytes() {
            lemma_le_bytes_injective(
                twos_complement(a as int, 1),
                twos_complement(b as int, 1),
                1,
            );
        }
    }

    fn zeroed() -> (value: Self)
        ensures
            value == 0,
    {
        proof {
            broadcast use layout_of_primitives;

            lemma_le_bytes_of_zero(1);
        }
        0
    }

    fn to_bytes(&self) -> (out: Vec<u8>) {
        proof {
            reveal_with_fuel(pow256, 2);
        }
        let raw: u128 = if *self >= 0 {
            *self as u128
        } else {
            (*self as i128 + 0x100) as u128
        };
        encode_le(raw, 1)
    }
}

/// The bytes of an `i16` in two's complement, least significant first. Its
/// size is the one it has in memory.
impl ZeroValid for i16 {
    open spec fn size() -> nat {
        size_of::<i16>()
    }

    open spec fn bytes(&self) -> Seq<u8> {
        le_bytes(twos_complement(*self as int, 2), 2)
    }

    proof fn lemma_bytes_faithful(a: Self, b: Self) {
        broadcast use layout_of_primitives;

        reveal_with_fuel(pow256, 3);
        lemma_le_bytes_len(twos_complement(a as int, 2), 2);
        if a.bytes() == b.bytes() {
            lemma_le_bytes_injective(
                twos_complement(a as int, 2),
                twos_complement(b as int, 2),
                2,
            );
        }
    }

    fn zeroed() -> (value: Self)
        ensures
            value == 0,
    {
        proof {
            broadcast use layout_of_primitives;

            lemma_le_bytes_of_zero(2);
        }
        0
    }

    fn to_bytes(&self) -> (out: Vec<u8>) {
        proof {
            reveal_with_fuel(pow256, 3);
        }
        let raw: u128 = if *self >= 0 {
            *self as u128
        } else {
            (*self as i128 + 0x1_0000) as u128
        };
        encode_le(raw, 2)
    }
}

/// The bytes of an `i32` in two's complement, least significant first. Its
/// size is the one it has in memory.
impl ZeroValid for i32 {
    open spec fn size() -> nat {
        size_of::<i32>()
    }

    open spec fn bytes(&self) -> Seq<u8> {
        le_bytes(twos_complement(*self as int, 4), 4)
    }

    proof fn lemma_bytes_faithful(a: Self, b: Self) {
        broadcast use layout_of_primitives;

        reveal_with_fuel(pow256, 5);
        lemma_le_bytes_len(twos_complement(a as int, 4), 4);
        if a.bytes() == b.bytes() {
            lemma_le_bytes_injective(
                twos_complement(a as int, 4),
                twos_complement(b as int, 4),
                4,
            );
        }
    }

    fn zeroed() -> (value: Self)
        ensures
            value == 0,
    {
        proof {
            broadcast use layout_of_primitives;

            lemma_le_bytes_of_zero(4);
        }
        0
    }

    fn to_bytes(&self) -> (out: Vec<u8>) {
        proof {
            reveal_with_fuel(pow256, 5);
        }
        let raw: u128 = if *self >= 0 {
            *self as u128
        } else {
            (*self as i128 + 0x1_0000_0000) as u128
        };
        encode_le(raw, 4)
    }
}

/// The bytes of an `i64` in two's complement, least significant first. Its
/// size is the one it has in memory.
impl ZeroValid for i64 {
    open spec fn size() -> nat {
        size_of::<i64>()
    }

    open spec fn bytes(&self) -> Seq<u8> {
        le_bytes(twos_complement(*self as int, 8), 8)
    }

    proof fn lemma_bytes_faithful(a: Self, b: Self) {
        broadcast use layout_of_primitives;

        reveal_with_fuel(pow256, 9);
        lemma_le_bytes_len(twos_complement(a as int, 8), 8);
        if a.bytes() == b.bytes() {
            lemma_le_bytes_injective(
                twos_complement(a as int, 8),
                twos_complement(b as int, 8),
                8,
            );
        }
    }

    fn zeroed() -> (value: Self)
        ensures
            value == 0,
    {
        proof {
            broadcast use layout_of_primitives;

            lemma_le_bytes_of_zero(8);
        }
        0
    }

    fn to_bytes(&self) -> (out: Vec<u8>) {
        proof {
            reveal_with_fuel(pow256, 9);
        }
        let raw: u128 = if *self >= 0 {
            *self as u128
        } else {
            (*self as i128 + 0x1_0000_0000_0000_0000) as u128
        };
        encode_le(raw, 8)
    }
}

/// The bytes of an `i128` in two's complement, least significant first. Its
/// size is the one it has in memory.
impl ZeroValid for i128 {
    open spec fn size() -> nat {
        size_of::<i128>()
    }

    open spec fn bytes(&self) -> Seq<u8> {
        le_bytes(twos_complement(*self as int, 16), 16)
    }

    proof fn lemma_bytes_faithful(a: Self, b: Self) {
        broadcast use layout_of_primitives;

        reveal_with_fuel(pow256, 17);
        lemma_le_bytes_len(twos_complement(a as int, 16), 16);
        if a.bytes() == b.bytes() {
            lemma_le_bytes_injective(
                twos_complement(a as int, 16),
                twos_complement(b as int, 16),
                16,
            );
        }
    }

    fn zeroed() -> (value: Self)
        ensures
            value == 0,
    {
        proof {
            broadcast use layout_of_primitives;

            lemma_le_bytes_of_zero(16);
        }
        0
    }

    fn to_bytes(&self) -> (out: Vec<u8>) {
        proof {
            reveal_with_fuel(pow256, 17);
        }
        let raw: u128 = if *self >= 0 {
            *self as u128
        } else {
            (*self - i128::MIN) as u128 + 0x8000_0000_0000_0000_0000_0000_0000_0000
        };
        encode_le(raw, 16)
    }
}

/// The bytes of a `usize`, least significant first. Its size is the one it
/// has in memory, which depends on the machine.
impl ZeroValid for usize {
    open spec fn size() -> nat {
        size_of::<usize>()
    }

    open spec fn bytes(&self) -> Seq<u8> {
        le_bytes(*self as nat, size_of::<usize>())
    }

    proof fn lemma_bytes_faithful(a: Self, b: Self) {
        broadcast use layout_of_primitives;

        reveal_with_fuel(pow256, 9);
        lemma_le_bytes_len(a as nat, size_of::<usize>());
        if a.bytes() == b.bytes() {
            lemma_le_bytes_injective(a as nat, b as nat, size_of::<usize>());
        }
    }

    fn zeroed() -> (value: Self)
        ensures
            value == 0,
    {
        proof {
            lemma_le_bytes_of_zero(size_of::<usize>());
        }
        0
    }

    fn to_bytes(&self) -> (out: Vec<u8>) {
        encode_le(*self as u128, core::mem::size_of::<usize>())
    }
}

/// The bytes of an `isize` in two's complement, least significant first. Its
/// size is the one it has in memory, which depends on the machine.
impl ZeroValid for isize {
    open spec fn size() -> nat {
        size_of::<isize>()
    }

    open spec fn bytes(&self) -> Seq<u8> {
        le_bytes(twos_complement(*self as int, size_of::<isize>()), size_of::<isize>())
    }

    proof fn lemma_bytes_faithful(a: Self, b: Self) {
        broadcast use layout_of_primitives;

        reveal_with_fuel(pow256, 9);
        lemma_le_bytes_len(twos_complement(a as int, size_of::<isize>()), size_of::<isize>());
        if a.bytes() == b.bytes() {
            lemma_le_bytes_injective(
                twos_complement(a as int, size_of::<isize>()),
                twos_complement(b as int, size_of::<isize>()),
                size_of::<isize>(),
            );
        }
    }

    fn zeroed() -> (value: Self)
        ensures
            value == 0,
    {
        proof {
            lemma_le_bytes_of_zero(size_of::<isize>());
        }
        0
    }

    fn to_bytes(&self) -> (out: Vec<u8>) {
        proof {
            broadcast use layout_of_primitives;

            reveal_with_fuel(pow256, 9);
        }
        let raw: u128 = if *self >= 0 {
            *self as u128
        } else {
            (*self as i128 + usize::MAX as i128 + 1) as u128
        };
        encode_le(raw, core::mem::size_of::<isize>())
    }
}

/// The byte of a `bool`: zero for `false`, one for `true`.
impl ZeroValid for bool {
    open spec fn size() -> nat {
        size_of::<bool>()
    }

    open spec fn bytes(&self) -> Seq<u8> {
        le_bytes(if *self { 1 } else { 0 }, 1)
    }

    proof fn lemma_bytes_faithful(a: Self, b: Self) {
        broadcast use layout_of_primitives;

        reveal_with_fuel(pow256, 2);
        lemma_le_bytes_len(if a { 1 } else { 0 }, 1);
        if a.bytes() == b.bytes() {
            lemma_le_bytes_injective(if a { 1 } else { 0 }, if b { 1 } else { 0 }, 1);
        }
    }

    fn zeroed() -> (value: Self)
        ensures
            value == false,
    {
        proof {
            broadcast use layout_of_primitives;

            lemma_le_bytes_of_zero(1);
        }
        false
    }

    fn to_bytes(&self) -> (out: Vec<u8>) {
        let raw: u128 = if *self { 1 } else { 0 };
        encode_le(raw, 1)
    }
}

/// A byte array is its own bytes, in order, and has as many of them as it
/// has elements.
impl<const N: usize> ZeroValid for [u8; N] {
    open spec fn size() -> nat {
        N as nat
    }

    open spec fn bytes(&self) -> Seq<u8> {
        self@
    }

    proof fn lemma_bytes_faithful(a: Self, b: Self) {
        if a.bytes() == b.bytes() {
            assert(a =~= b);
        }
    }

    fn zeroed() -> (value: Self)
        ensures
            forall|i: int| 0 <= i < N ==> value@[i] == 0u8,
    {
        let value: [u8; N] = [0u8; N];
        assert(value@ =~= zero_bytes(N as nat));
        value
    }

    fn to_bytes(&self) -> (out: Vec<u8>) {
        let mut out: Vec<u8> = Vec::new();
        let mut done: usize = 0;
        while done < N
            invariant
                done <= N,
                out@ == self@.take(done as int),
            decreases N - done,
        {
            out.push(self[done]);
            done = done + 1;
            assert(out@ =~= self@.take(done as int));
        }
        assert(self@.take(N as int) =~= self@);
        out
    }
}

} // verus!
