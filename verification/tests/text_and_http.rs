use service_supervisor::http::{head_request, is_success_code, parse_status_line, service_url};
use service_supervisor::script::{
    exec_failure_text, missing_executable_text, read_failure_text, script_report,
};
use service_supervisor::text::{file_name_from_url, greet, host_of_url, u64_to_string};

#[test]
fn decimal_rendering_is_exact() {
    assert_eq!(u64_to_string(0), "0");
    assert_eq!(u64_to_string(7), "7");
    assert_eq!(u64_to_string(42), "42");
    assert_eq!(u64_to_string(3000), "3000");
    assert_eq!(u64_to_string(u64::MAX), "18446744073709551615");
}

#[test]
fn greeting_wraps_the_name() {
    assert_eq!(greet("world"), "Hello, world!");
    assert_eq!(greet(""), "Hello, !");
}

#[test]
fn host_strips_only_a_leading_scheme() {
    assert_eq!(host_of_url("http://127.0.0.1"), "127.0.0.1");
    assert_eq!(host_of_url("localhost"), "localhost");
    assert_eq!(host_of_url("http://"), "");
    assert_eq!(host_of_url("http:"), "http:");
    assert_eq!(host_of_url("ahttp://x"), "ahttp://x");
}

#[test]
fn file_name_is_what_follows_the_last_slash() {
    assert_eq!(file_name_from_url("https://host/dir/pkg.zip"), "pkg.zip");
    assert_eq!(file_name_from_url("plain"), "plain");
    assert_eq!(file_name_from_url("ends/with/"), "");
    assert_eq!(file_name_from_url(""), "");
}

#[test]
fn service_url_is_loopback_at_the_port() {
    assert_eq!(service_url(3000), "http://127.0.0.1:3000");
    assert_eq!(service_url(65535), "http://127.0.0.1:65535");
}

#[test]
fn head_request_has_the_fixed_shape() {
    assert_eq!(
        head_request("127.0.0.1", 8080),
        "HEAD / HTTP/1.1\r\nHost: 127.0.0.1:8080\r\nConnection: close\r\n\r\n"
    );
}

#[test]
fn status_lines_parse_to_their_codes() {
    assert_eq!(parse_status_line(b"HTTP/1.1 200 OK"), Some(200));
    assert_eq!(parse_status_line(b"HTTP/1.1 404 Not Found"), Some(404));
    assert_eq!(parse_status_line(b"HTTP/1.0 301"), Some(301));
    assert_eq!(parse_status_line(b"nonsense"), None);
    assert_eq!(parse_status_line(b"HTTP/1.1 20"), None);
    assert_eq!(parse_status_line(b"HTTP/1.1 2x0 OK"), None);
    assert_eq!(parse_status_line(b""), None);
}

#[test]
fn success_codes_are_exactly_the_two_hundreds() {
    assert!(is_success_code(200));
    assert!(is_success_code(204));
    assert!(is_success_code(299));
    assert!(!is_success_code(199));
    assert!(!is_success_code(300));
    assert!(!is_success_code(404));
}

#[test]
fn script_reports_quote_output_and_exit_code() {
    assert_eq!(
        script_report(true, Some(0), "done\n", ""),
        Ok(String::from("script ran successfully\noutput: done\n"))
    );
    assert_eq!(
        script_report(false, Some(1), "", "bad input"),
        Err(String::from("script failed with exit code 1\nstderr: bad input"))
    );
    assert_eq!(
        script_report(false, Some(-9), "", "killed"),
        Err(String::from("script failed with exit code -9\nstderr: killed"))
    );
    assert_eq!(
        script_report(false, None, "", "gone"),
        Err(String::from("script failed with exit code unknown\nstderr: gone"))
    );
}

#[test]
fn diagnostic_texts_carry_the_underlying_error() {
    assert_eq!(missing_executable_text("/opt/bin/run"), "executable not found at: /opt/bin/run");
    assert_eq!(read_failure_text("is a directory"), "failed to read script: is a directory");
    assert_eq!(exec_failure_text("permission denied"), "failed to execute script: permission denied");
}
