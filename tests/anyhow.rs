use iex::{Context, IexResult, Marker, OptionContext, Outcome};
use std::cell::Cell;

fn returns_anyhow_error() -> impl Outcome<Output = (), Error = anyhow::Error> {
    IexResult::new(|marker: Marker<anyhow::Error>| {
        Err(anyhow::Error::msg(r"¯\_(ツ)_/¯")).get_value_or_panic(marker)
    })
}

fn adds_context_to_anyhow_error() -> impl Outcome<Output = (), Error = anyhow::Error> {
    returns_anyhow_error().context("In adds_context_to_anyhow_error()")
}

#[test]
fn iex_matches_result() {
    let expected: anyhow::Result<()> = anyhow::Context::context(
        Err(anyhow::Error::msg(r"¯\_(ツ)_/¯")),
        "In adds_context_to_anyhow_error()",
    );

    assert_eq!(
        format!("{:?}", adds_context_to_anyhow_error().into_result()),
        format!("{:?}", expected),
    );
}

#[test]
fn option_works() {
    let _: anyhow::Result<()> = None.context("Meow");
}

#[test]
fn option_context_keeps_a_value_and_names_a_gap() {
    assert_eq!(Some(3).context("Meow").unwrap(), 3);
    let missing: anyhow::Result<u8> = None.context("Meow");
    assert_eq!(missing.unwrap_err().to_string(), "Meow");
}

#[test]
fn option_with_context_calls_only_on_a_gap() {
    let calls = Cell::new(0);
    let present = Some(5).with_context(|| {
        calls.set(calls.get() + 1);
        "unused"
    });
    assert_eq!(present.unwrap(), 5);
    assert_eq!(calls.get(), 0);
    let missing: anyhow::Result<u8> = None.with_context(|| {
        calls.set(calls.get() + 1);
        "lazy"
    });
    assert_eq!(missing.unwrap_err().to_string(), "lazy");
    assert_eq!(calls.get(), 1);
}

#[test]
fn context_wraps_the_outer_message() {
    let error = adds_context_to_anyhow_error().into_result().unwrap_err();
    assert_eq!(error.to_string(), "In adds_context_to_anyhow_error()");
    assert_eq!(error.root_cause().to_string(), r"¯\_(ツ)_/¯");
}

#[test]
fn with_context_is_lazy_on_success() {
    let calls = Cell::new(0);
    let ok = Ok::<u8, anyhow::Error>(9).with_context(|| {
        calls.set(calls.get() + 1);
        "never"
    });
    assert_eq!(ok.into_result().unwrap(), 9);
    assert_eq!(calls.get(), 0);

    let failed = returns_anyhow_error().with_context(|| {
        calls.set(calls.get() + 1);
        "while failing"
    });
    let error = failed.into_result().unwrap_err();
    assert_eq!(error.to_string(), "while failing");
    assert_eq!(calls.get(), 1);
}
