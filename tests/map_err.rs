use iex::{ExceptionMapper, IexResult, Marker, Outcome};

fn produces_err() -> impl Outcome<Output = (), Error = String> {
    IexResult::new(|marker: Marker<String>| Err("Hello,".to_string()).get_value_or_panic(marker))
}

fn maps_err() -> impl Outcome<Output = (), Error = String> {
    produces_err().map_err(|e: String| format!("{e} world!"))
}

#[test]
fn simple() {
    assert_eq!(maps_err().into_result().unwrap_err(), "Hello, world!");
}

fn produces_err2(s: &str) -> impl Outcome<Output = i32, Error = &'static str> {
    let leaked: &'static str = s.to_string().leak();
    IexResult::new(move |marker: Marker<&'static str>| Err(leaked).get_value_or_panic(marker))
}

fn maps_err_owned() -> impl Outcome<Output = i32, Error = String> {
    IexResult::new(|marker: Marker<String>| {
        let s1 = "Hello,".to_string();
        let mut mapper = ExceptionMapper::new(marker, s1, |s1: String, e: &'static str| {
            let _s1: String = s1;
            format!("{e} world!")
        });
        let inner = produces_err2(mapper.get_state());
        Ok(mapper.guard(inner)?)
    })
}

#[test]
fn shares() {
    assert_eq!(maps_err_owned().into_result().unwrap_err(), "Hello, world!");
}

struct A;

impl A {
    fn produces_err(&mut self) -> impl Outcome<Output = (), Error = ()> {
        IexResult::new(|marker: Marker<()>| Err(()).get_value_or_panic(marker))
    }

    fn maps_err_owned(self) -> impl Outcome<Output = (), Error = ()> {
        IexResult::new(move |marker: Marker<()>| {
            let mut mapper = ExceptionMapper::new(marker, self, |a: A, _e: ()| {
                let _self: A = a;
            });
            let inner = mapper.get_state().produces_err();
            Ok(mapper.guard(inner)?)
        })
    }
}

fn maps_err_mut_ref(mut a: A) -> impl Outcome<Output = (), Error = ()> {
    IexResult::new(move |marker: Marker<()>| {
        let ar = &mut a;
        let mut mapper = ExceptionMapper::new(marker, ar, |ar: &mut A, _e: ()| {
            let _ar: &mut A = ar;
        });
        let inner = mapper.get_state().produces_err();
        mapper.guard(inner)?;
        drop(a);
        Ok(())
    })
}

#[test]
fn owned_method() {
    assert_eq!(A.maps_err_owned().into_result(), Err(()));
}

#[test]
fn mut_ref() {
    assert_eq!(maps_err_mut_ref(A).into_result(), Err(()));
}
