use exun::result::unexpect;
use exun::{
    Expected, Exun, RawUnexpected, ResultErrorExt, ResultExunExt, ResultMsgExt, Unexpected,
    UnexpectedError,
};
use std::fmt;

#[test]
fn unexpect_passes_a_success_through() {
    let res: Result<i32, fmt::Error> = Ok(5);
    let res: Result<i32, RawUnexpected> = unexpect(res);
    assert_eq!(res.unwrap(), 5);
}

#[test]
fn unexpect_boxes_a_failure_as_a_cause() {
    let res: Result<i32, fmt::Error> = Err(fmt::Error);
    let res: Result<i32, RawUnexpected> = unexpect(res);
    let boxed = res.unwrap_err();
    assert_eq!(boxed.to_string(), fmt::Error.to_string());
    assert!(boxed.source().is_none());
}

#[test]
fn parse_failure_boxed_and_wrapped_reads_as_the_parse_failure() {
    let parse_failure = "forty".parse::<i32>().unwrap_err();
    let res: Result<i32, RawUnexpected> = unexpect("forty".parse::<i32>());
    let container: Exun<String, RawUnexpected> = match res {
        Ok(_) => panic!("the text is no number"),
        Err(boxed) => Unexpected(boxed),
    };
    let shown = container.to_string();
    assert_eq!(shown, parse_failure.to_string());
    assert_eq!(shown, "invalid digit found in string");
}

#[test]
fn parse_failure_goes_through_the_try_operator() {
    fn foo(num: &str) -> Result<i32, Exun<(), RawUnexpected>> {
        let num = unexpect(num.parse::<i32>())?;
        Ok(num)
    }
    assert_eq!(foo("12").unwrap(), 12);
    let failure = foo("x").unwrap_err();
    let boxed = failure.unwrap_unexpected();
    assert_eq!(boxed.to_string(), "invalid digit found in string");
}

#[test]
fn a_box_goes_through_the_try_operator_into_its_chainable_form() {
    fn foo() -> Result<i32, UnexpectedError> {
        let res: Result<i32, fmt::Error> = Err(fmt::Error);
        Ok(unexpect(res)?)
    }
    fn bar() -> Result<i32, Exun<(), UnexpectedError>> {
        let res: Result<i32, &str> = Err("failure");
        Ok(res.unexpect_msg()?)
    }
    assert_eq!(foo().unwrap_err().to_string(), fmt::Error.to_string());
    assert_eq!(bar().unwrap_err().unwrap_unexpected().to_string(), "failure");
}

#[test]
fn unexpect_leaves_a_boxed_failure_as_it_is() {
    let res: Result<i32, RawUnexpected> = Err(RawUnexpected::msg("failed"));
    let res = res.unexpect();
    let boxed = res.unwrap_err();
    assert_eq!(boxed.to_string(), "failed");
    assert_eq!(boxed.debug_string(), "\"failed\"");

    let res: Result<i32, RawUnexpected> = Ok(3);
    assert_eq!(res.unexpect().unwrap(), 3);
}

#[test]
fn empty_option_becomes_the_absent_box() {
    let value: Option<i32> = None;
    let res: Result<i32, RawUnexpected> = value.unexpect();
    let boxed = res.unwrap_err();
    assert_eq!(boxed.to_string(), "Called `unexpect` on a `None` value");
    assert_ne!(boxed.to_string(), "");
    assert!(boxed.source().is_none());
    assert_eq!(boxed.debug_string(), "None");
}

#[test]
fn full_option_passes_through() {
    let value: Option<&str> = Some("here");
    let res: Result<&str, RawUnexpected> = value.unexpect();
    assert_eq!(res.unwrap(), "here");
}

#[test]
fn unexpect_msg_passes_a_success_through() {
    let res: Result<i32, &str> = Ok(8);
    let res: Result<i32, RawUnexpected> = res.unexpect_msg();
    assert_eq!(res.unwrap(), 8);
}

#[test]
fn unexpect_msg_boxes_a_failure_as_a_message() {
    let res: Result<i32, &str> = Err("failure");
    let res: Result<i32, RawUnexpected> = res.unexpect_msg();
    let boxed = res.unwrap_err();
    assert_eq!(boxed.to_string(), "failure");
    assert_eq!(boxed.debug_string(), "\"failure\"");
    assert!(boxed.source().is_none());
}

#[test]
fn unexpect_msg_leaves_a_boxed_failure_as_it_is() {
    let res: Result<i32, RawUnexpected> = Err(RawUnexpected::new(fmt::Error));
    let boxed = res.unexpect_msg().unwrap_err();
    assert_eq!(boxed.to_string(), fmt::Error.to_string());
    assert_eq!(boxed.debug_string(), "Error");

    let res: Result<i32, RawUnexpected> = Err(RawUnexpected::none());
    let boxed = res.unexpect_msg().unexpect_msg().unwrap_err();
    assert_eq!(boxed.to_string(), "Called `unexpect` on a `None` value");
    assert_eq!(boxed.debug_string(), "None");

    let res: Result<i32, RawUnexpected> = Ok(1);
    assert_eq!(res.unexpect_msg().unwrap(), 1);
}

#[test]
fn expected_err_takes_the_expected_failure() {
    let x: Result<u32, Exun<&str, &str>> = Ok(2);
    assert_eq!(x.expected_err(), None);

    let x: Result<u32, Exun<&str, &str>> = Err(Expected("expected"));
    assert_eq!(x.expected_err(), Some("expected"));

    let x: Result<u32, Exun<&str, &str>> = Err(Unexpected("unexpected"));
    assert_eq!(x.expected_err(), None);
}

#[test]
fn unexpected_err_takes_the_unexpected_failure() {
    let x: Result<u32, Exun<&str, &str>> = Ok(2);
    assert_eq!(x.unexpected_err(), None);

    let x: Result<u32, Exun<&str, &str>> = Err(Unexpected("unexpected"));
    assert_eq!(x.unexpected_err(), Some("unexpected"));

    let x: Result<u32, Exun<&str, &str>> = Err(Expected("expected"));
    assert_eq!(x.unexpected_err(), None);
}

fn code_text(x: u32) -> String {
    format!("error code: {x}")
}

fn prefixed(x: &str) -> String {
    format!("error: {x}")
}

#[test]
fn map_expected_err_changes_the_expected_failure_only() {
    let x: Result<u32, Exun<u32, &str>> = Ok(2);
    assert_eq!(x.map_expected_err(code_text), Ok(2));

    let x: Result<u32, Exun<u32, &str>> = Err(Expected(13));
    assert_eq!(x.map_expected_err(code_text), Err(Expected("error code: 13".to_string())));

    let x: Result<u32, Exun<u32, &str>> = Err(Unexpected("hi"));
    assert_eq!(x.map_expected_err(code_text), Err(Unexpected("hi")));
}

#[test]
fn map_unexpected_err_changes_the_unexpected_failure_only() {
    let x: Result<u32, Exun<u32, &str>> = Ok(2);
    assert_eq!(x.map_unexpected_err(prefixed), Ok(2));

    let x: Result<u32, Exun<u32, &str>> = Err(Unexpected("hi"));
    assert_eq!(x.map_unexpected_err(prefixed), Err(Unexpected("error: hi".to_string())));

    let x: Result<u32, Exun<u32, &str>> = Err(Expected(13));
    assert_eq!(x.map_unexpected_err(prefixed), Err(Expected(13)));
}

#[test]
fn unwrap_result_takes_the_expected_failure_out() {
    let x: Result<u32, Exun<&str, &str>> = Ok(2);
    assert_eq!(x.unwrap_result(), Ok(2));

    let x: Result<u32, Exun<&str, &str>> = Err(Expected("failure"));
    assert_eq!(x.unwrap_result(), Err("failure"));
}

#[test]
fn unwrap_expected_err_returns_the_expected_failure() {
    let x: Result<u32, Exun<&str, &str>> = Err(Expected("failure"));
    assert_eq!(x.unwrap_expected_err(), "failure");
}

#[test]
fn unwrap_unexpected_err_returns_the_unexpected_failure() {
    let x: Result<u32, Exun<&str, &str>> = Err(Unexpected("failure"));
    assert_eq!(x.unwrap_unexpected_err(), "failure");
}
