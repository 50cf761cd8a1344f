//! Delta decoding: a sequence is written as the differences between neighbours and read back
//! as running totals.

use vstd::prelude::*;

verus! {

/// A number that can be delta coded: every integer type is one. Totals are kept in the number's
/// own width: a total that does not fit wraps around.
pub trait DeltaValue: Copy {
    /// The integer that this value stands for.
    spec fn value(self) -> int;

    /// Whether an integer can be held without wrapping.
    spec fn fits(total: int) -> bool;

    /// The total before the first delta.
    spec fn zero_spec() -> Self;

    /// This total advanced by `delta`.
    spec fn plus(self, delta: Self) -> Self;

    /// The starting total is zero.
    proof fn lemma_zero()
        ensures
            Self::zero_spec().value() == 0,
    ;

    /// Advancing adds exactly, wherever the sum fits.
    proof fn lemma_plus(self, delta: Self)
        ensures
            Self::fits(self.value() + delta.value()) ==> self.plus(delta).value() == self.value()
                + delta.value(),
    ;

    /// The total before the first delta.
    fn zero() -> (r: Self)
        ensures
            r == Self::zero_spec(),
    ;

    /// This total advanced by `delta`.
    fn accumulate(self, delta: Self) -> (r: Self)
        ensures
            r == self.plus(delta),
    ;
}

impl DeltaValue for i8 {
    open spec fn value(self) -> int {
        self as int
    }

    open spec fn fits(total: int) -> bool {
        i8::MIN <= total <= i8::MAX
    }

    open spec fn zero_spec() -> i8 {
        0
    }

    open spec fn plus(self, delta: i8) -> i8 {
        self.wrapping_add(delta)
    }

    proof fn lemma_zero() {
    }

    proof fn lemma_plus(self, delta: i8) {
    }

    fn zero() -> i8 {
        0
    }

    fn accumulate(self, delta: i8) -> i8 {
        self.wrapping_add(delta)
    }
}

impl DeltaValue for i16 {
    open spec fn value(self) -> int {
        self as int
    }

    open spec fn fits(total: int) -> bool {
        i16::MIN <= total <= i16::MAX
    }

    open spec fn zero_spec() -> i16 {
        0
    }

    open spec fn plus(self, delta: i16) -> i16 {
        self.wrapping_add(delta)
    }

    proof fn lemma_zero() {
    }

    proof fn lemma_plus(self, delta: i16) {
    }

    fn zero() -> i16 {
        0
    }

    fn accumulate(self, delta: i16) -> i16 {
        self.wrapping_add(delta)
    }
}

impl DeltaValue for i32 {
    open spec fn value(self) -> int {
        self as int
    }

    open spec fn fits(total: int) -> bool {
        i32::MIN <= total <= i32::MAX
    }

    open spec fn zero_spec() -> i32 {
        0
    }

    open spec fn plus(self, delta: i32) -> i32 {
        self.wrapping_add(delta)
    }

    proof fn lemma_zero() {
    }

    proof fn lemma_plus(self, delta: i32) {
    }

    fn zero() -> i32 {
        0
    }

    fn accumulate(self, delta: i32) -> i32 {
        self.wrapping_add(delta)
    }
}

impl DeltaValue for i64 {
    open spec fn value(self) -> int {
        self as int
    }

    open spec fn fits(total: int) -> bool {
        i64::MIN <= total <= i64::MAX
    }

    open spec fn zero_spec() -> i64 {
        0
    }

    open spec fn plus(self, delta: i64) -> i64 {
        self.wrapping_add(delta)
    }

    proof fn lemma_zero() {
    }

    proof fn lemma_plus(self, delta: i64) {
    }

    fn zero() -> i64 {
        0
    }

    fn accumulate(self, delta: i64) -> i64 {
        self.wrapping_add(delta)
    }
}

impl DeltaValue for i128 {
    open spec fn value(self) -> int {
        self as int
    }

    open spec fn fits(total: int) -> bool {
        i128::MIN <= total <= i128::MAX
    }

    open spec fn zero_spec() -> i128 {
        0
    }

    open spec fn plus(self, delta: i128) -> i128 {
        self.wrapping_add(delta)
    }

    proof fn lemma_zero() {
    }

    proof fn lemma_plus(self, delta: i128) {
    }

    fn zero() -> i128 {
        0
    }

    fn accumulate(self, delta: i128) -> i128 {
        self.wrapping_add(delta)
    }
}

impl DeltaValue for isize {
    open spec fn value(self) -> int {
        self as int
    }

    open spec fn fits(total: int) -> bool {
        isize::MIN <= total <= isize::MAX
    }

    open spec fn zero_spec() -> isize {
        0
    }

    open spec fn plus(self, delta: isize) -> isize {
        self.wrapping_add(delta)
    }

    proof fn lemma_zero() {
    }

    proof fn lemma_plus(self, delta: isize) {
    }

    fn zero() -> isize {
        0
    }

    fn accumulate(self, delta: isize) -> isize {
        self.wrapping_add(delta)
    }
}

impl DeltaValue for u8 {
    open spec fn value(self) -> int {
        self as int
    }

    open spec fn fits(total: int) -> bool {
        0 <= total <= u8::MAX
    }

    open spec fn zero_spec() -> u8 {
        0
    }

    open spec fn plus(self, delta: u8) -> u8 {
        self.wrapping_add(delta)
    }

    proof fn lemma_zero() {
    }

    proof fn lemma_plus(self, delta: u8) {
    }

    fn zero() -> u8 {
        0
    }

    fn accumulate(self, delta: u8) -> u8 {
        self.wrapping_add(delta)
    }
}

impl DeltaValue for u16 {
    open spec fn value(self) -> int {
        self as int
    }

    open spec fn fits(total: int) -> bool {
        0 <= total <= u16::MAX
    }

    open spec fn zero_spec() -> u16 {
        0
    }

    open spec fn plus(self, delta: u16) -> u16 {
        self.wrapping_add(delta)
    }

    proof fn lemma_zero() {
    }

    proof fn lemma_plus(self, delta: u16) {
    }

    fn zero() -> u16 {
        0
    }

    fn accumulate(self, delta: u16) -> u16 {
        self.wrapping_add(delta)
    }
}

impl DeltaValue for u32 {
    open spec fn value(self) -> int {
        self as int
    }

    open spec fn fits(total: int) -> bool {
        0 <= total <= u32::MAX
    }

    open spec fn zero_spec() -> u32 {
        0
    }

    open spec fn plus(self, delta: u32) -> u32 {
        self.wrapping_add(delta)
    }

    proof fn lemma_zero() {
    }

    proof fn lemma_plus(self, delta: u32) {
    }

    fn zero() -> u32 {
        0
    }

    fn accumulate(self, delta: u32) -> u32 {
        self.wrapping_add(delta)
    }
}

impl DeltaValue for u64 {
    open spec fn value(self) -> int {
        self as int
    }

    open spec fn fits(total: int) -> bool {
        0 <= total <= u64::MAX
    }

    open spec fn zero_spec() -> u64 {
        0
    }

    open spec fn plus(self, delta: u64) -> u64 {
        self.wrapping_add(delta)
    }

    proof fn lemma_zero() {
    }

    proof fn lemma_plus(self, delta: u64) {
    }

    fn zero() -> u64 {
        0
    }

    fn accumulate(self, delta: u64) -> u64 {
        self.wrapping_add(delta)
    }
}

impl DeltaValue for u128 {
    open spec fn value(self) -> int {
        self as int
    }

    open spec fn fits(total: int) -> bool {
        0 <= total <= u128::MAX
    }

    open spec fn zero_spec() -> u128 {
        0
    }

    open spec fn plus(self, delta: u128) -> u128 {
        self.wrapping_add(delta)
    }

    proof fn lemma_zero() {
    }

    proof fn lemma_plus(self, delta: u128) {
    }

    fn zero() -> u128 {
        0
    }

    fn accumulate(self, delta: u128) -> u128 {
        self.wrapping_add(delta)
    }
}

impl DeltaValue for usize {
    open spec fn value(self) -> int {
        self as int
    }

    open spec fn fits(total: int) -> bool {
        0 <= total <= usize::MAX
    }

    open spec fn zero_spec() -> usize {
        0
    }

    open spec fn plus(self, delta: usize) -> usize {
        self.wrapping_add(delta)
    }

    proof fn lemma_zero() {
    }

    proof fn lemma_plus(self, delta: usize) {
    }

    fn zero() -> usize {
        0
    }

    fn accumulate(self, delta: usize) -> usize {
        self.wrapping_add(delta)
    }
}

/// The running totals of `deltas` from the total `start`: one total per delta, each the total
/// before it advanced by that delta.
pub open spec fn running_totals<T: DeltaValue>(start: T, deltas: Seq<T>) -> Seq<T>
    decreases deltas.len(),
{
    if deltas.len() == 0 {
        Seq::empty()
    } else {
        let first = start.plus(deltas[0]);
        seq![first] + running_totals(first, deltas.skip(1))
    }
}

/// The sum of the first `n` of `deltas`, as integers.
pub open spec fn delta_sum<T: DeltaValue>(deltas: Seq<T>, n: nat) -> int
    decreases n,
{
    if n == 0 {
        0
    } else {
        delta_sum(deltas, (n - 1) as nat) + deltas[n - 1].value()
    }
}

/// Advances `current` by `delta` and returns the new total, if there is a delta.
pub fn delta_decode<T: DeltaValue>(current: &mut T, delta: Option<&T>) -> (r: Option<T>)
    ensures
        match delta {
            Some(delta) => *final(current) == old(current).plus(*delta) && r == Some(
                *final(current),
            ),
            None => *final(current) == *old(current) && r is None,
        },
{
    match delta {
        Some(delta) => {
            *current = current.accumulate(*delta);
            Some(*current)
        },
        None => None,
    }
}

/// Utility for reading delta-encoded values directly, like the node references of a way and
/// the member ids of a relation.
pub struct DeltaValueReader<'a, T> {
    remaining: &'a [T],
    accumulated: T,
}

impl<'a, T: DeltaValue> DeltaValueReader<'a, T> {
    /// The deltas not read yet.
    pub closed spec fn remaining(&self) -> Seq<T> {
        self.remaining@
    }

    /// The total of the deltas read so far.
    pub closed spec fn accumulated(&self) -> T {
        self.accumulated
    }

    /// The values that the reader has yet to yield, in order.
    pub open spec fn pending(&self) -> Seq<T> {
        running_totals(self.accumulated(), self.remaining())
    }

    /// Constructs a new `DeltaValueReader` from a slice of deltas. It will yield the running
    /// totals of the deltas, starting from zero.
    pub fn new(values: &'a [T]) -> (r: Self)
        ensures
            r.remaining() == values@,
            r.accumulated() == T::zero_spec(),
    {
        DeltaValueReader { remaining: values, accumulated: T::zero() }
    }

    /// Yields the next value: the total so far advanced by the next delta. Returns `None`, and
    /// changes nothing, once every delta was read. So the reader yields its pending values one
    /// by one.
    pub fn next(&mut self) -> (r: Option<T>)
        ensures
            match r {
                Some(value) => {
                    &&& old(self).remaining().len() > 0
                    &&& value == old(self).accumulated().plus(old(self).remaining()[0])
                    &&& final(self).accumulated() == value
                    &&& final(self).remaining() == old(self).remaining().skip(1)
                    &&& old(self).pending().len() > 0
                    &&& value == old(self).pending()[0]
                    &&& final(self).pending() == old(self).pending().skip(1)
                },
                None => {
                    &&& old(self).remaining().len() == 0
                    &&& old(self).pending().len() == 0
                    &&& *final(self) == *old(self)
                },
            },
    {
        if self.remaining.len() > 0 {
            let first = self.remaining[0];
            self.accumulated = self.accumulated.accumulate(first);
            self.remaining = vstd::slice::slice_subrange(self.remaining, 1, self.remaining.len());
            Some(self.accumulated)
        } else {
            None
        }
    }
}

/// There is one running total for each delta.
pub proof fn lemma_running_totals_len<T: DeltaValue>(start: T, deltas: Seq<T>)
    ensures
        running_totals(start, deltas).len() == deltas.len(),
    decreases deltas.len(),
{
    if deltas.len() > 0 {
        lemma_running_totals_len(start.plus(deltas[0]), deltas.skip(1));
    }
}

/// The sum of the first `n + 1` deltas is the first delta plus the sum of the `n` after it.
proof fn lemma_delta_sum_skip<T: DeltaValue>(deltas: Seq<T>, n: nat)
    requires
        n < deltas.len(),
    ensures
        delta_sum(deltas, n + 1) == deltas[0].value() + delta_sum(deltas.skip(1), n),
    decreases n,
{
    if n > 0 {
        lemma_delta_sum_skip(deltas, (n - 1) as nat);
    } else {
        assert(delta_sum(deltas, 1) == delta_sum(deltas, 0) + deltas[0].value());
    }
}

/// Delta decoding is a running sum: from the total `start`, the value with the index `i` is
/// `start` plus the sum of the deltas up to and including the one with the index `i`, wherever
/// every total up to there fits the number's width.
pub proof fn lemma_running_totals_are_sums<T: DeltaValue>(start: T, deltas: Seq<T>, i: int)
    requires
        0 <= i < deltas.len(),
        forall|k: nat| 1 <= k <= i + 1 ==> T::fits(start.value() + #[trigger] delta_sum(deltas, k)),
    ensures
        running_totals(start, deltas).len() == deltas.len(),
        running_totals(start, deltas)[i].value() == start.value() + delta_sum(
            deltas,
            (i + 1) as nat,
        ),
    decreases deltas.len(),
{
    lemma_running_totals_len(start, deltas);
    let first = start.plus(deltas[0]);
    let rest = deltas.skip(1);
    lemma_running_totals_len(first, rest);
    assert(delta_sum(deltas, 1) == delta_sum(deltas, 0) + deltas[0].value());
    start.lemma_plus(deltas[0]);
    if i > 0 {
        assert forall|k: nat| 1 <= k <= i implies T::fits(
            first.value() + #[trigger] delta_sum(rest, k),
        ) by {
            lemma_delta_sum_skip(deltas, k);
            assert(T::fits(start.value() + delta_sum(deltas, k + 1)));
        }
        lemma_running_totals_are_sums(first, rest, i - 1);
        lemma_delta_sum_skip(deltas, i as nat);
    }
}

/// Each running total is the one before it advanced by its delta, and the first is the
/// starting total advanced by the first delta.
pub proof fn lemma_running_totals_step<T: DeltaValue>(start: T, deltas: Seq<T>, i: int)
    requires
        0 <= i < deltas.len(),
    ensures
        running_totals(start, deltas).len() == deltas.len(),
        running_totals(start, deltas)[i] == (if i == 0 {
            start
        } else {
            running_totals(start, deltas)[i - 1]
        }).plus(deltas[i]),
    decreases deltas.len(),
{
    lemma_running_totals_len(start, deltas);
    let first = start.plus(deltas[0]);
    let rest = deltas.skip(1);
    lemma_running_totals_len(first, rest);
    if i > 0 {
        lemma_running_totals_step(first, rest, i - 1);
    }
}

} // verus!
