use arm_service::response::{wrap_result, Response, CODE_ERROR, CODE_SUCCESS};

#[test]
fn test_success() {
    let r = Response::success(41);
    assert_eq!(r.code, 0);
    assert_eq!(r.code, CODE_SUCCESS);
    assert_eq!(r.data, Some(41));
    assert_eq!(r.message, "success");
}

#[test]
fn test_error() {
    let r: Response<String> = Response::error("Server is not running");
    assert_eq!(r.code, -1);
    assert_eq!(r.code, CODE_ERROR);
    assert_eq!(r.data, None);
    assert_eq!(r.message, "Server is not running");
    let r: Response<u8> = Response::error("");
    assert_eq!(r.message, "");
}

#[test]
fn test_new() {
    let r = Response::new(7, Some("x"), "seven");
    assert_eq!(r.code, 7);
    assert_eq!(r.data, Some("x"));
    assert_eq!(r.message, "seven");
    let r: Response<u8> = Response::new(-3, None, "none");
    assert_eq!(r.code, -3);
    assert_eq!(r.data, None);
}

#[test]
fn test_wrap_result() {
    let ok: Result<u32, String> = Ok(5);
    let r = wrap_result(ok).ok().unwrap();
    assert_eq!((r.code, r.data, r.message.as_str()), (0, Some(5), "success"));

    let err: Result<u32, String> = Err(String::from("boom"));
    let r = wrap_result(err).ok().unwrap();
    assert_eq!(r.code, -1);
    assert_eq!(r.data, None);
    assert_eq!(r.message, "\"boom\"");

    let err: Result<u32, i32> = Err(-4);
    let r = wrap_result(err).ok().unwrap();
    assert_eq!(r.message, "-4");
}

#[test]
fn test_from_result() {
    let ok: Result<u32, String> = Ok(5);
    let r = Response::from(ok);
    assert_eq!((r.code, r.data, r.message.as_str()), (0, Some(5), "success"));

    let err: Result<u32, String> = Err(String::from("boom"));
    let r = Response::from(err);
    assert_eq!((r.code, r.data, r.message.as_str()), (-1, None, "boom"));

    let err: Result<u32, std::num::ParseIntError> = "x".parse::<u32>();
    let r: Response<u32> = err.into();
    assert_eq!(r.code, -1);
    assert_eq!(r.message, "invalid digit found in string");
}
