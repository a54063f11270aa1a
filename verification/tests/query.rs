use sunk::dispatch::Request;
use sunk::query::{IntoArg, Query};

fn pair(key: &str, value: &str) -> (String, String) {
    (String::from(key), String::from(value))
}

#[test]
fn with_holds_one_parameter() {
    assert_eq!(Query::with("id", 12u64).build(), vec![pair("id", "12")]);
}

#[test]
fn arg_adds_a_value_that_is_given() {
    let params = Query::with("id", 1u64).arg("count", Some(20usize)).build();
    assert_eq!(params, vec![pair("id", "1"), pair("count", "20")]);
}

#[test]
fn arg_leaves_out_a_value_that_is_absent() {
    let params = Query::with("id", 1u64)
        .arg("count", None::<usize>)
        .arg("includeNotPresent", Some(true))
        .build();
    assert_eq!(params, vec![pair("id", "1"), pair("includeNotPresent", "true")]);
}

#[test]
fn parameters_keep_their_order() {
    let params = Query::with("b", "x")
        .arg("a", Some(String::from("y")))
        .arg("b", Some(false))
        .build();
    assert_eq!(params, vec![pair("b", "x"), pair("a", "y"), pair("b", "false")]);
}

#[test]
fn values_in_wire_form() {
    assert_eq!(0u64.into_arg(), "0");
    assert_eq!(u64::MAX.into_arg(), "18446744073709551615");
    assert_eq!(300usize.into_arg(), "300");
    assert_eq!(true.into_arg(), "true");
    assert_eq!(false.into_arg(), "false");
    assert_eq!("ar-1".into_arg(), "ar-1");
    assert_eq!(String::from("").into_arg(), "");
}

#[test]
fn request_takes_the_parameters_of_the_query() {
    let request = Request::new("getArtist", Query::with("id", 7u64));
    assert_eq!(request.operation, "getArtist");
    assert_eq!(request.params, vec![pair("id", "7")]);
}
