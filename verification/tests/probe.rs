use os_detect::detector::OsInfo;
use os_detect::error::ProbeError;
use os_detect::probe::Execution;

fn completed(stdout: &[u8]) -> Execution {
    Execution::Completed { code: Some(0), stdout: stdout.to_vec() }
}

fn ok(value: &str) -> Result<String, ProbeError> {
    Ok(value.to_string())
}

#[test]
fn run_returns_the_output_without_the_final_newline() {
    assert_eq!(OsInfo::run("uname", &completed(b"x86_64\n")), ok("x86_64"));
}

#[test]
fn run_strips_whitespace_at_both_ends_only() {
    assert_eq!(OsInfo::run("lsb_release", &completed(b" \t Ubuntu \r\n\n")), ok("Ubuntu"));
    assert_eq!(
        OsInfo::run("lsb_release", &completed(b"\nDebian GNU/Linux  12\n")),
        ok("Debian GNU/Linux  12")
    );
    assert_eq!(OsInfo::run("hostname", &completed(b"host1")), ok("host1"));
}

#[test]
fn run_strips_whitespace_beyond_ascii() {
    let output = "\u{a0}\u{2003}h\u{f6}st\u{3000}\u{2028}";
    assert_eq!(OsInfo::run("hostname", &completed(output.as_bytes())), ok("h\u{f6}st"));
}

#[test]
fn run_decodes_multibyte_text() {
    let output = "\u{65e5}\u{672c}\u{8a9e} \u{1f600}\n";
    assert_eq!(
        OsInfo::run("hostname", &completed(output.as_bytes())),
        ok("\u{65e5}\u{672c}\u{8a9e} \u{1f600}")
    );
}

#[test]
fn run_passes_on_a_spawn_failure() {
    let execution = Execution::SpawnFailed { reason: "permission denied".to_string() };
    assert_eq!(
        OsInfo::run("lsb_release", &execution),
        Err(ProbeError::SpawnFailure {
            command: "lsb_release".to_string(),
            reason: "permission denied".to_string(),
        })
    );
}

#[test]
fn run_reports_an_unsuccessful_exit_with_its_status() {
    for code in [Some(1), Some(127), Some(-1), Some(i32::MAX), None] {
        let execution = Execution::Completed { code, stdout: b"x86_64\n".to_vec() };
        assert_eq!(
            OsInfo::run("uname", &execution),
            Err(ProbeError::NonZeroExit { command: "uname".to_string(), code })
        );
    }
}

#[test]
fn run_rejects_output_that_is_not_utf8() {
    let outputs: [&[u8]; 5] = [
        &[0xff],
        // a truncated two-byte sequence
        &[b'a', 0xc3],
        // an overlong encoding of '/'
        &[0xc0, 0xaf],
        // a surrogate
        &[0xed, 0xa0, 0x80],
        // beyond the last code point
        &[0xf4, 0x90, 0x80, 0x80],
    ];
    for stdout in outputs {
        assert_eq!(
            OsInfo::run("uname", &completed(stdout)),
            Err(ProbeError::InvalidEncoding { command: "uname".to_string() })
        );
    }
}

#[test]
fn run_rejects_output_that_is_empty_once_trimmed() {
    let outputs: [&[u8]; 4] = [b"", b"\n", b" \t\r\n ", "\u{a0}\u{3000}".as_bytes()];
    for stdout in outputs {
        assert_eq!(
            OsInfo::run("hostname", &completed(stdout)),
            Err(ProbeError::EmptyOutput { command: "hostname".to_string() })
        );
    }
}

#[test]
fn run_checks_the_status_before_the_output() {
    let execution = Execution::Completed { code: Some(2), stdout: vec![0xff] };
    assert_eq!(
        OsInfo::run("uname", &execution),
        Err(ProbeError::NonZeroExit { command: "uname".to_string(), code: Some(2) })
    );
    let execution = Execution::Completed { code: Some(2), stdout: Vec::new() };
    assert_eq!(
        OsInfo::run("uname", &execution),
        Err(ProbeError::NonZeroExit { command: "uname".to_string(), code: Some(2) })
    );
}

#[test]
fn run_checks_the_encoding_before_emptiness() {
    assert_eq!(
        OsInfo::run("uname", &completed(&[b' ', 0x80, b' '])),
        Err(ProbeError::InvalidEncoding { command: "uname".to_string() })
    );
}

#[test]
fn run_keeps_a_character_that_is_not_whitespace() {
    // U+200B, the zero-width space, does not count as whitespace.
    assert_eq!(OsInfo::run("hostname", &completed("\u{200b}\n".as_bytes())), ok("\u{200b}"));
}
