use blog_os::{handle_test_panic, panic_handler, test_runner, QemuExitCode};

#[test]
fn runner_announces_the_number_of_tests() {
    let run = test_runner(3);
    assert_eq!(run.header, b"Running 3 tests\n".to_vec());
    assert_eq!(run.test_count, 3);
    assert_eq!(run.exit_code, QemuExitCode::Success);
}

#[test]
fn runner_with_no_tests_and_many_tests() {
    assert_eq!(test_runner(0).header, b"Running 0 tests\n".to_vec());
    assert_eq!(test_runner(1234).header, b"Running 1234 tests\n".to_vec());
    assert_eq!(test_runner(10).header, b"Running 10 tests\n".to_vec());
    assert_eq!(
        String::from_utf8(test_runner(usize::MAX).header).unwrap(),
        format!("Running {} tests\n", usize::MAX)
    );
    assert_eq!(test_runner(0).exit_code, QemuExitCode::Success);
}

#[test]
fn panic_is_reported_as_failure() {
    let report = handle_test_panic("panicked at src/lib.rs:3:5:\nboom");
    assert_eq!(
        report.output,
        b"[failed]\n\nError: panicked at src/lib.rs:3:5:\nboom\n\n".to_vec()
    );
    assert_eq!(report.exit_code, QemuExitCode::Failed);
}

#[test]
fn test_build_panic_handler_reports_failure() {
    let report = panic_handler("");
    assert_eq!(report.output, b"[failed]\n\nError: \n\n".to_vec());
    assert_eq!(report.exit_code, QemuExitCode::Failed);
}

#[test]
fn exit_code_values() {
    assert_eq!(QemuExitCode::Success.value(), 0x10);
    assert_eq!(QemuExitCode::Failed.value(), 0x11);
}
