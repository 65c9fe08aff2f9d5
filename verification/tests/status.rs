use primitiv::handle::Handle;
use primitiv::library::message;
use primitiv::marshal::{flag, truth};
use primitiv::status::{
    check_api_status, from_api_status, io_result, Code, Failure, IoFailure, INVALID_ARGUMENT,
    NOT_SUPPORTED, OK, OUT_OF_MEMORY, RUNTIME_ERROR,
};

fn failing(raw: u32, text: &str) -> primitiv::status::Status {
    from_api_status(raw, (), text).unwrap_err()
}

#[test]
fn raw_words_have_their_codes() {
    assert_eq!(Code::from_raw(0), Code::Success);
    assert_eq!(Code::from_raw(1), Code::InvalidArgument);
    assert_eq!(Code::from_raw(2), Code::OutOfMemory);
    assert_eq!(Code::from_raw(3), Code::RuntimeError);
    assert_eq!(Code::from_raw(4), Code::NotSupported);
    assert_eq!(Code::from_raw(OK), Code::Success);
    assert_eq!(Code::from_raw(INVALID_ARGUMENT), Code::InvalidArgument);
    assert_eq!(Code::from_raw(OUT_OF_MEMORY), Code::OutOfMemory);
    assert_eq!(Code::from_raw(RUNTIME_ERROR), Code::RuntimeError);
    assert_eq!(Code::from_raw(NOT_SUPPORTED), Code::NotSupported);
}

#[test]
fn a_word_outside_the_table_is_unknown() {
    assert_eq!(Code::from_raw(5), Code::Unknown);
    assert_eq!(Code::from_raw(u32::MAX), Code::Unknown);
}

#[test]
fn codes_have_their_names() {
    assert_eq!(Code::Success.name(), "Ok");
    assert_eq!(Code::InvalidArgument.name(), "InvalidArgument");
    assert_eq!(Code::OutOfMemory.name(), "OutOfMemory");
    assert_eq!(Code::RuntimeError.name(), "RuntimeError");
    assert_eq!(Code::NotSupported.name(), "NotSupported");
    assert_eq!(Code::Unknown.name(), "Unknown");
}

#[test]
fn an_ok_word_yields_the_value() {
    let result = from_api_status(OK, 42u64, "left over from an earlier failure");
    assert_eq!(result.unwrap(), 42);
}

#[test]
fn a_failing_word_keeps_word_and_message() {
    let status = from_api_status(RUNTIME_ERROR, 42u64, "Invalid parameter.").unwrap_err();
    assert_eq!(status.raw(), RUNTIME_ERROR);
    assert_eq!(status.code(), Code::RuntimeError);
    assert_eq!(status.message(), "Invalid parameter.");
}

#[test]
fn an_unknown_word_is_a_failure_too() {
    let status = from_api_status(u32::MAX, (), "something broke").unwrap_err();
    assert_eq!(status.raw(), u32::MAX);
    assert_eq!(status.code(), Code::Unknown);
    assert_eq!(status.message(), "something broke");
}

#[test]
fn invalid_argument_is_a_shape_mismatch() {
    match Failure::from_status(failing(INVALID_ARGUMENT, "mismatch")) {
        Failure::ShapeMismatch(status) => {
            assert_eq!(status.raw(), INVALID_ARGUMENT);
            assert_eq!(status.message(), "mismatch");
        }
        other => panic!("{:?}", other),
    }
}

#[test]
fn runtime_error_is_an_invalid_state() {
    match Failure::from_status(failing(RUNTIME_ERROR, "not ready")) {
        Failure::InvalidState(status) => {
            assert_eq!(status.raw(), RUNTIME_ERROR);
            assert_eq!(status.message(), "not ready");
        }
        other => panic!("{:?}", other),
    }
}

#[test]
fn other_failing_words_are_construction_failures() {
    for raw in [OUT_OF_MEMORY, NOT_SUPPORTED, 5, 77, u32::MAX] {
        match Failure::from_status(failing(raw, "no luck")) {
            Failure::Construction(status) => {
                assert_eq!(status.raw(), raw);
                assert_eq!(status.message(), "no luck");
            }
            other => panic!("{:?}", other),
        }
    }
}

#[test]
fn a_hard_failure_shows_code_and_message() {
    let failure = Failure::from_status(failing(INVALID_ARGUMENT, "Shape mismatch: 6 != 5"));
    assert_eq!(failure.describe(), "InvalidArgument: Shape mismatch: 6 != 5");
    let failure = Failure::from_status(failing(OUT_OF_MEMORY, ""));
    assert_eq!(failure.describe(), "OutOfMemory: ");
    let failure = Failure::from_status(failing(9, "odd"));
    assert_eq!(failure.describe(), "Unknown: odd");
    assert_eq!(Failure::NullHandle.describe(), "pointer must not be null");
}

#[test]
fn check_api_status_passes_ok_and_fails_hard() {
    assert!(check_api_status(OK, "ignored").is_ok());
    assert!(matches!(
        check_api_status(RUNTIME_ERROR, "bad state"),
        Err(Failure::InvalidState(_))
    ));
    assert!(matches!(
        check_api_status(INVALID_ARGUMENT, "bad length"),
        Err(Failure::ShapeMismatch(_))
    ));
    assert!(matches!(
        check_api_status(NOT_SUPPORTED, "bad handle"),
        Err(Failure::Construction(_))
    ));
}

#[test]
fn a_recoverable_failure_names_file_and_message() {
    assert!(io_result(OK, "weights.bin", "ignored").is_ok());
    let failure: IoFailure = io_result(RUNTIME_ERROR, "weights.bin", "file not found").unwrap_err();
    assert_eq!(failure.path, "weights.bin");
    assert_eq!(failure.message, "file not found");
}

#[test]
fn recoverable_presentation_keeps_the_message_verbatim() {
    let text = "  Could not open:\t'/tmp/p' \u{e9}\n";
    let failure = IoFailure::from_status("/tmp/p", failing(7, text));
    assert_eq!(failure.path, "/tmp/p");
    assert_eq!(failure.message, text);
}

#[test]
fn the_table_has_a_message_for_each_word() {
    assert_eq!(message(OK), "no failure");
    assert_eq!(
        message(INVALID_ARGUMENT),
        "the number of values is not the element count of the shape"
    );
    assert_eq!(message(OUT_OF_MEMORY), "out of memory");
    assert_eq!(
        message(RUNTIME_ERROR),
        "the object is not in a state that admits the operation"
    );
    assert_eq!(
        message(NOT_SUPPORTED),
        "the handle does not name a live object of the expected kind"
    );
    assert_eq!(message(99), "unknown failure");
}

#[test]
fn truth_values_travel_as_words() {
    assert_eq!(flag(true), 1);
    assert_eq!(flag(false), 0);
    assert!(truth(1));
    assert!(!truth(0));
    assert!(!truth(2));
    assert!(!truth(u32::MAX));
}

#[test]
fn a_null_pointer_is_not_wrapped() {
    assert!(matches!(Handle::from_raw(0, true), Err(Failure::NullHandle)));
    assert!(matches!(Handle::from_raw(0, false), Err(Failure::NullHandle)));
}

#[test]
fn a_handle_keeps_address_and_tag() {
    let mut owner = Handle::from_raw(17, true).unwrap();
    assert_eq!(owner.as_ptr(), 17);
    assert_eq!(owner.as_mut_ptr(), 17);
    assert!(owner.is_owned());
    let view = Handle::from_raw(usize::MAX, false).unwrap();
    assert_eq!(view.as_ptr(), usize::MAX);
    assert!(!view.is_owned());
}

#[test]
fn an_owner_hands_out_its_release_and_a_view_does_not() {
    let owner = Handle::from_raw(17, true).unwrap();
    assert_eq!(owner.release(), Some(17));
    let view = Handle::from_raw(17, false).unwrap();
    assert_eq!(view.release(), None);
}
