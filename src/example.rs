//! Examples of fallible functions that take part in the carrier protocol.
use vstd::prelude::*;

verus! {

/// A simple struct with a fallible method.
pub struct HasIexMethod;

impl HasIexMethod {
    /// Such method. Very wow.
    pub fn iex_method() -> (r: Result<(), ()>)
        ensures
            r == Ok::<(), ()>(()),
    {
        Ok(())
    }
}

/// Fallible talking.
pub trait SayHello {
    /// Say hello.
    fn provided_method(self) -> (r: Result<String, ()>) where Self: Sized
        ensures
            r is Ok,
    {
        Ok("Default implementation says Hello!".to_string())
    }

    /// Do nothing.
    fn required_method(&self) -> (r: Result<(), ()>)
        ensures
            r == Ok::<(), ()>(()),
    ;
}

impl SayHello for String {
    fn provided_method(self) -> (r: Result<String, ()>)
        ensures
            r == Ok::<String, ()>(self),
    {
        Ok(self)
    }

    fn required_method(&self) -> (r: Result<(), ()>) {
        Ok(())
    }
}

/// Adds numbers and checks for overflow.
///
/// Returns the sum when it fits in an `i32`; otherwise the error is the overflowed sum, wrapped
/// around.
pub fn add(a: i32, b: i32) -> (r: Result<i32, i32>)
    ensures
        i32::MIN <= a + b <= i32::MAX ==> r == Ok::<i32, i32>((a + b) as i32),
        !(i32::MIN <= a + b <= i32::MAX) ==> r == Err::<i32, i32>(a.wrapping_add(b)),
{
    a.checked_add(b).ok_or(a.wrapping_add(b))
}

} // verus!
