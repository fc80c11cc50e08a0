use iex::{IexResult, Marker, Outcome};

fn identity<T>(a: T) -> impl Outcome<Output = T, Error = ()> {
    IexResult::new(move |_marker: Marker<()>| Ok(a))
}

fn default<T: Default>() -> impl Outcome<Output = T, Error = ()> {
    IexResult::new(|_marker: Marker<()>| Ok(Default::default()))
}

fn drop<T>(_x: T) -> impl Outcome<Output = (), Error = ()> {
    IexResult::new(|_marker: Marker<()>| Ok(()))
}

fn drop_apit(_x: impl Send) -> impl Outcome<Output = (), Error = ()> {
    IexResult::new(|_marker: Marker<()>| Ok(()))
}

#[test]
fn generics() {
    assert_eq!(identity(123).into_result(), Ok(123));
    assert_eq!(default().into_result(), Ok(0));
    assert_eq!(drop(123).into_result(), Ok(()));
    assert_eq!(drop_apit(123).into_result(), Ok(()));
}
