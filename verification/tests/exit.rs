use mief::exit::{failure_line, Code};

#[test]
fn exit_code_success() {
    assert_eq!(0, Code::Success.into());
}

#[test]
fn exit_code_piston_failure() {
    assert_eq!(1, Code::PistonFailure.into());
}

#[test]
fn exit_code_io_failure() {
    assert_eq!(2, Code::IOFailure.into());
}

#[test]
fn exit_codes_differ() {
    let codes: [i32; 3] = [
        i32::from(Code::Success),
        i32::from(Code::PistonFailure),
        i32::from(Code::IOFailure),
    ];
    assert_eq!(codes, [0, 1, 2]);
}

#[test]
fn failure_line_names_the_failure() {
    assert_eq!(failure_line("The folder could not be found"), "Error: The folder could not be found");
    assert_eq!(failure_line("Piston Failure"), "Error: Piston Failure");
    assert_eq!(failure_line(""), "Error: ");
}
