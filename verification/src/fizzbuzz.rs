use vstd::prelude::*;

verus! {

/// Classification of an integer by its divisibility by three and five.
#[derive(Debug, Copy, Clone, PartialEq, Eq, Structural)]
pub enum FizzBuzz {
    Fizz,
    Buzz,
    FizzBuzz,
    Number(u32),
}

/// The classification of `n`: `FizzBuzz` when `n` is divisible by both three
/// and five, `Fizz` when only by three, `Buzz` when only by five, and the
/// number itself otherwise.
pub open spec fn fizzbuzz_of(n: u32) -> FizzBuzz {
    if n % 3 == 0 && n % 5 == 0 {
        FizzBuzz::FizzBuzz
    } else if n % 3 == 0 {
        FizzBuzz::Fizz
    } else if n % 5 == 0 {
        FizzBuzz::Buzz
    } else {
        FizzBuzz::Number(n)
    }
}

impl FizzBuzz {
    pub fn from_number(n: u32) -> (r: FizzBuzz)
        ensures
            r == fizzbuzz_of(n),
    {
        match (n % 3 == 0, n % 5 == 0) {
            (true, false) => FizzBuzz::Fizz,
            (false, true) => FizzBuzz::Buzz,
            (true, true) => FizzBuzz::FizzBuzz,
            _ => FizzBuzz::Number(n),
        }
    }
}

} // verus!
