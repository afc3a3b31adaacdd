use typestate::fizzbuzz::FizzBuzz;

#[test]
fn multiples_of_three_alone_are_fizz() {
    assert_eq!(FizzBuzz::from_number(3), FizzBuzz::Fizz);
    assert_eq!(FizzBuzz::from_number(9), FizzBuzz::Fizz);
    assert_eq!(FizzBuzz::from_number(99), FizzBuzz::Fizz);
}

#[test]
fn multiples_of_five_alone_are_buzz() {
    assert_eq!(FizzBuzz::from_number(5), FizzBuzz::Buzz);
    assert_eq!(FizzBuzz::from_number(20), FizzBuzz::Buzz);
}

#[test]
fn multiples_of_fifteen_are_fizzbuzz() {
    assert_eq!(FizzBuzz::from_number(15), FizzBuzz::FizzBuzz);
    assert_eq!(FizzBuzz::from_number(45), FizzBuzz::FizzBuzz);
    assert_eq!(FizzBuzz::from_number(0), FizzBuzz::FizzBuzz);
}

#[test]
fn other_numbers_keep_their_value() {
    assert_eq!(FizzBuzz::from_number(1), FizzBuzz::Number(1));
    assert_eq!(FizzBuzz::from_number(7), FizzBuzz::Number(7));
    assert_eq!(FizzBuzz::from_number(98), FizzBuzz::Number(98));
    assert_eq!(FizzBuzz::from_number(4294967294), FizzBuzz::Number(4294967294));
}

#[test]
fn largest_value_is_divisible_by_both() {
    assert_eq!(FizzBuzz::from_number(u32::MAX), FizzBuzz::FizzBuzz);
}
