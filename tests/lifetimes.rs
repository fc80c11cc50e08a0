use iex::{IexResult, Marker, Outcome};
use std::marker::PhantomData;

fn input_lifetimes<'a, 'b>(_x: &'a u32, _y: &'b u32) -> impl Outcome<Output = (), Error = ()> {
    IexResult::new(|_marker: Marker<()>| Ok(()))
}

fn output_lifetime<'a>() -> impl Outcome<Output = &'a u32, Error = ()> {
    IexResult::new(|marker: Marker<()>| Err(()).get_value_or_panic(marker))
}

fn elided_input_lifetimes(_x: &u32, _y: &u32) -> impl Outcome<Output = (), Error = ()> {
    IexResult::new(|_marker: Marker<()>| Ok(()))
}

struct A<'a>(PhantomData<&'a ()>);

fn elided_input_lifetime_struct(_a: A<'_>) -> impl Outcome<Output = (), Error = ()> {
    IexResult::new(|_marker: Marker<()>| Ok(()))
}

fn max_length<'a>(a: &'a str, b: &'a str) -> impl Outcome<Output = &'a str, Error = &'static str> {
    IexResult::new(move |marker: Marker<&'static str>| {
        if a.len() > b.len() {
            Ok(a)
        } else if a.len() < b.len() {
            Ok(b)
        } else {
            Err("Same length!").get_value_or_panic(marker)
        }
    })
}

fn swap<'a, T>(a: &'a mut T, b: &'a mut T) -> impl Outcome<Output = (), Error = String> + 'a {
    IexResult::new(move |_marker: Marker<String>| {
        std::mem::swap(a, b);
        Ok(())
    })
}

#[test]
fn lifetimes() {
    assert_eq!(input_lifetimes(&1, &2).into_result(), Ok(()));
    assert_eq!(output_lifetime().into_result(), Err(()));
    assert_eq!(elided_input_lifetimes(&1, &2).into_result(), Ok(()));
    assert_eq!(
        elided_input_lifetime_struct(A(PhantomData)).into_result(),
        Ok(())
    );
    assert_eq!(max_length("Hello, ", "world!").into_result(), Ok("Hello, "));
}

#[test]
fn mutability() {
    let mut x = 1;
    let mut y = 2;
    assert_eq!(swap(&mut x, &mut y).into_result(), Ok(()));
    assert_eq!(x, 2);
    assert_eq!(y, 1);
}
