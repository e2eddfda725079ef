//! A source of consecutive numbers.

use vstd::prelude::*;

verus! {

/// A source of consecutive numbers: each number it gives is one more than the last.
#[derive(Debug)]
pub struct Numbers {
    next: i64,
}

impl View for Numbers {
    type V = int;

    /// The number that the source gives next.
    closed spec fn view(&self) -> int {
        self.next as int
    }
}

/// The numbers `from`, `from + 1`, `from + 2`, ..., `from + count - 1`.
pub open spec fn consecutive(from: int, count: nat) -> Seq<int> {
    Seq::new(count, |i: int| from + i)
}

/// The value of a list of numbers.
pub open spec fn numbers_view(numbers: Seq<i64>) -> Seq<int> {
    Seq::new(numbers.len(), |i: int| numbers[i] as int)
}

/// A source of the numbers `from`, `from + 1`, `from + 2`, and so on.
pub fn numbers(from: i64) -> (source: Numbers)
    ensures
        source@ == from,
{
    Numbers { next: from }
}

impl Numbers {
    /// The number that the source gives next, without taking it.
    pub fn peek(&self) -> (number: i64)
        ensures
            number == self@,
    {
        self.next
    }

    /// Takes the next number from the source.
    pub fn next(&mut self) -> (number: i64)
        requires
            old(self)@ < i64::MAX,
        ensures
            number == old(self)@,
            final(self)@ == old(self)@ + 1,
    {
        let number = self.next;
        self.next = number + 1;
        number
    }

    /// Takes the next `count` numbers from the source, in order.
    pub fn take(self, count: usize) -> (taken: Vec<i64>)
        requires
            self@ + count <= i64::MAX,
        ensures
            numbers_view(taken@) == consecutive(self@, count as nat),
    {
        let mut source = self;
        let mut taken: Vec<i64> = Vec::new();
        let mut i: usize = 0;
        while i < count
            invariant
                i <= count,
                source@ == self@ + i,
                self@ + count <= i64::MAX,
                taken@.len() == i,
                forall|j: int| 0 <= j < i ==> #[trigger] taken@[j] == self@ + j,
            decreases count - i,
        {
            let number = source.next();
            taken.push(number);
            i += 1;
        }
        assert(numbers_view(taken@) =~= consecutive(self@, count as nat));
        taken
    }
}

} // verus!
