//! A small x86-64 kernel: VGA text output, keyboard input, interrupt setup, and the
//! harness that runs its tests under QEMU.
pub mod gdt;
pub mod interrupts;
pub mod keyborad;
pub mod vga_buffer;

use vstd::prelude::*;
use vstd::string::StringSliceAdditionalSpecFns;

verus! {

/// The status the kernel reports to QEMU through its `isa-debug-exit` device.
#[derive(Debug, Clone, Copy, PartialEq, Eq, Structural)]
pub enum QemuExitCode {
    Success,
    Failed,
}

/// The value written to the exit port for each status.
pub open spec fn exit_code_value(code: QemuExitCode) -> u32 {
    match code {
        QemuExitCode::Success => 0x10,
        QemuExitCode::Failed => 0x11,
    }
}

impl QemuExitCode {
    /// The value written to the exit port for this status.
    pub fn value(self) -> (v: u32)
        ensures
            v == exit_code_value(self),
    {
        match self {
            QemuExitCode::Success => 0x10,
            QemuExitCode::Failed => 0x11,
        }
    }
}

/// Something the test harness can run.
pub trait Testable {
    fn run(&self);
}

/// The decimal digits of `n`, most significant first, as ASCII bytes.
pub open spec fn decimal(n: nat) -> Seq<u8>
    decreases n,
{
    if n < 10 {
        seq![(0x30 + n) as u8]
    } else {
        decimal(n / 10).push((0x30 + n % 10) as u8)
    }
}

/// The number that a string of ASCII decimal digits spells, most significant first.
pub open spec fn digits_value(digits: Seq<u8>) -> int
    decreases digits.len(),
{
    if digits.len() == 0 {
        0
    } else {
        digits_value(digits.drop_last()) * 10 + (digits.last() - 0x30)
    }
}

/// `decimal(n)` is the usual decimal numeral of `n`: it is made of the digits `0` to `9`,
/// spells `n`, and has no leading zero unless `n` is zero.
pub proof fn lemma_decimal_spells(n: nat)
    ensures
        decimal(n).len() >= 1,
        forall|i: int| 0 <= i < decimal(n).len() ==> 0x30 <= #[trigger] decimal(n)[i] <= 0x39,
        digits_value(decimal(n)) == n,
        n > 0 ==> decimal(n)[0] != 0x30,
    decreases n,
{
    if n >= 10 {
        lemma_decimal_spells(n / 10);
        let d = decimal(n);
        assert(d.drop_last() =~= decimal(n / 10));
        assert(d[0] == decimal(n / 10)[0]);
        assert(d.last() == (0x30 + n % 10) as u8);
        assert(digits_value(d) == digits_value(decimal(n / 10)) * 10 + (d.last() - 0x30));
        assert((n / 10) * 10 + n % 10 == n);
        assert forall|i: int| 0 <= i < d.len() implies 0x30 <= #[trigger] d[i] <= 0x39 by {
            if i < d.len() - 1 {
                assert(d[i] == decimal(n / 10)[i]);
            }
        }
    } else {
        let d = decimal(n);
        assert(d.drop_last() =~= Seq::<u8>::empty());
        assert(digits_value(d) == digits_value(d.drop_last()) * 10 + (d.last() - 0x30));
    }
}

/// The values written to the exit port: 0x10 for success and 0x11 for failure.
pub proof fn lemma_exit_code_values()
    ensures
        exit_code_value(QemuExitCode::Success) == 0x10,
        exit_code_value(QemuExitCode::Failed) == 0x11,
{
}

/// Appends the decimal digits of `n`.
fn push_decimal(out: &mut Vec<u8>, n: usize)
    ensures
        final(out)@ == old(out)@ + decimal(n as nat),
    decreases n,
{
    let ghost start = out@;
    if n >= 10 {
        push_decimal(out, n / 10);
    }
    out.push(0x30u8 + (n % 10) as u8);
    proof {
        if n >= 10 {
            assert(start + decimal(n as nat) =~= (start + decimal((n / 10) as nat)).push(
                (0x30 + n % 10) as u8,
            ));
        } else {
            assert(start + decimal(n as nat) =~= start.push((0x30 + n % 10) as u8));
        }
    }
}

/// Appends the UTF-8 bytes of `s`.
fn push_str(out: &mut Vec<u8>, s: &str)
    ensures
        final(out)@ == old(out)@ + s.spec_bytes(),
{
    let bytes = s.as_bytes();
    let ghost start = out@;
    let mut i: usize = 0;
    while i < bytes.len()
        invariant
            i <= bytes@.len(),
            bytes@ == s.spec_bytes(),
            out@ == start + bytes@.take(i as int),
        decreases bytes@.len() - i,
    {
        out.push(bytes[i]);
        assert(bytes@.take(i as int + 1) =~= bytes@.take(i as int).push(bytes@[i as int]));
        i = i + 1;
    }
    assert(bytes@.take(bytes@.len() as int) =~= bytes@);
}

/// The line the harness prints before running `count` tests: `Running {count} tests`.
pub open spec fn running_line(count: nat) -> Seq<u8> {
    "Running ".spec_bytes() + decimal(count) + " tests\n".spec_bytes()
}

/// What the harness does for a run of tests: print `header`, run the `test_count` tests
/// in order, then report `exit_code` to QEMU.
pub struct TestRun {
    pub header: Vec<u8>,
    pub test_count: usize,
    pub exit_code: QemuExitCode,
}

/// The run of `test_count` tests: announce their number, run each, and exit with
/// success, since a failing test panics instead of returning.
pub fn test_runner(test_count: usize) -> (run: TestRun)
    ensures
        run.header@ == running_line(test_count as nat),
        run.test_count == test_count,
        run.exit_code == QemuExitCode::Success,
{
    let mut header: Vec<u8> = Vec::new();
    push_str(&mut header, "Running ");
    push_decimal(&mut header, test_count);
    push_str(&mut header, " tests\n");
    TestRun { header, test_count, exit_code: QemuExitCode::Success }
}

/// What the harness does when a test panics: print `output`, then report `exit_code`.
pub struct PanicReport {
    pub output: Vec<u8>,
    pub exit_code: QemuExitCode,
}

/// The lines printed for a panic with the given message.
pub open spec fn failure_text(message: Seq<u8>) -> Seq<u8> {
    "[failed]\n\n".spec_bytes() + "Error: ".spec_bytes() + message + "\n\n".spec_bytes()
}

/// A test panicked with `message`: report the failure and exit with failure.
pub fn handle_test_panic(message: &str) -> (report: PanicReport)
    ensures
        report.output@ == failure_text(message.spec_bytes()),
        report.exit_code == QemuExitCode::Failed,
{
    let mut output: Vec<u8> = Vec::new();
    push_str(&mut output, "[failed]\n\n");
    push_str(&mut output, "Error: ");
    push_str(&mut output, message);
    push_str(&mut output, "\n\n");
    PanicReport { output, exit_code: QemuExitCode::Failed }
}

/// The panic handler of the test build: every panic is a failed test.
pub fn panic_handler(message: &str) -> (report: PanicReport)
    ensures
        report.output@ == failure_text(message.spec_bytes()),
        report.exit_code == QemuExitCode::Failed,
{
    handle_test_panic(message)
}

} // verus!
