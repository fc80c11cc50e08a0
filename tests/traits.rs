use iex::{IexResult, Marker, Outcome};

trait FallibleSum {
    type Error;

    fn add(self, other: Self) -> impl Outcome<Output = Self, Error = Self::Error>
    where
        Self: Sized;
}

impl FallibleSum for i32 {
    type Error = &'static str;

    fn add(self, other: Self) -> impl Outcome<Output = Self, Error = Self::Error> {
        IexResult::new(move |marker: Marker<&'static str>| {
            self.checked_add(other).ok_or("Integer overflow").get_value_or_panic(marker)
        })
    }
}

#[test]
fn call_via_trait() {
    assert_eq!(FallibleSum::add(1, 2).into_result(), Ok(3));
    assert_eq!(
        FallibleSum::add(1, i32::MAX).into_result(),
        Err("Integer overflow")
    );
}

trait SayHello {
    fn say_hello(self) -> impl Outcome<Output = String, Error = ()>
    where
        Self: Sized,
    {
        IexResult::new(|_marker: Marker<()>| Ok(format!("Default implementation says Hello!")))
    }
}

impl SayHello for String {
    fn say_hello(self) -> impl Outcome<Output = String, Error = ()> {
        IexResult::new(move |_marker: Marker<()>| Ok(self))
    }
}

impl SayHello for &str {
    #[allow(refining_impl_trait)]
    fn say_hello(self) -> Result<String, ()> {
        Ok(self.to_string())
    }
}

#[test]
fn refined() {
    assert_eq!(
        "test".to_string().say_hello().into_result().unwrap(),
        "test",
    );
    assert_eq!("test".say_hello().into_result().unwrap(), "test");
}
