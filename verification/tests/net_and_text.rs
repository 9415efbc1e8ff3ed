use hostbroker::errors::BrokerError;
use hostbroker::files::collect_entry_names;
use hostbroker::files::list_failure;
use hostbroker::files::read_failure;
use hostbroker::files::write_confirmation;
use hostbroker::files::write_failure;
use hostbroker::net::download_confirmation;
use hostbroker::net::download_failure;
use hostbroker::net::response_read_failure;
use hostbroker::net::save_failure;
use hostbroker::net::search_excerpt;
use hostbroker::net::search_failure;
use hostbroker::net::search_url;
use hostbroker::numfmt::fmt_i32;
use hostbroker::numfmt::fmt_u32;
use hostbroker::script::pip_invocation;
use hostbroker::script::powershell_invocation;
use hostbroker::script::python_invocation;
use hostbroker::script::python_script_name;
use hostbroker::script::script_write_failure;
use hostbroker::textutil::str_eq;

#[test]
fn search_url_percent_encodes_the_query() {
    let url = search_url("hello world");
    assert_eq!(url, "https://html.duckduckgo.com/html/?q=hello%20world");
}

#[test]
fn search_url_keeps_unreserved_characters() {
    let url = search_url("rust-2.0_faq~intro.html");
    assert_eq!(url, "https://html.duckduckgo.com/html/?q=rust-2.0_faq~intro.html");
}

#[test]
fn search_excerpt_caps_an_oversized_body_at_1000_characters() {
    let body: String = "a".repeat(1500);
    let r = search_excerpt(body);
    assert_eq!(r.chars().count(), 1000);
    assert_eq!(r, "a".repeat(1000));
}

#[test]
fn search_excerpt_keeps_a_small_body_verbatim() {
    let r = search_excerpt("short page".to_string());
    assert_eq!(r, "short page");
}

#[test]
fn search_excerpt_keeps_a_body_of_exactly_1000_characters() {
    let body: String = "b".repeat(1000);
    let r = search_excerpt(body.clone());
    assert_eq!(r, body);
}

#[test]
fn an_empty_listing_yields_an_empty_sequence() {
    let r = collect_entry_names(vec![]);
    assert!(r.is_empty());
}

#[test]
fn listing_keeps_readable_names_in_order_and_skips_the_rest() {
    let entries = vec![
        Some("a.txt".to_string()),
        None,
        Some("b.txt".to_string()),
        Some("c".to_string()),
        None,
    ];
    let r = collect_entry_names(entries);
    assert_eq!(r, vec!["a.txt".to_string(), "b.txt".to_string(), "c".to_string()]);
}

#[test]
fn confirmations_echo_their_paths() {
    assert_eq!(download_confirmation("/tmp/out.bin"), "Downloaded to: /tmp/out.bin");
    assert_eq!(write_confirmation("/tmp/a.txt"), "File written: /tmp/a.txt");
}

#[test]
fn failure_builders_carry_exact_prefixes() {
    let cases: Vec<(BrokerError, &str)> = vec![
        (download_failure("timeout".to_string()), "Download failed: timeout"),
        (search_failure("dns".to_string()), "Search failed: dns"),
        (response_read_failure("cut off".to_string()), "Failed to read response: cut off"),
        (save_failure("disk full".to_string()), "Failed to save file: disk full"),
        (read_failure("denied".to_string()), "Failed to read file: denied"),
        (write_failure("denied".to_string()), "Failed to write file: denied"),
        (list_failure("not a dir".to_string()), "Failed to read directory: not a dir"),
        (script_write_failure("read-only".to_string()), "Failed to write temp file: read-only"),
    ];
    for (err, want) in cases {
        assert_eq!(err.message(), want);
    }
}

#[test]
fn interpreter_invocations_are_exact() {
    let (prog, args) = python_invocation("/tmp/jarvis_temp.py".to_string());
    assert_eq!(prog, "python");
    assert_eq!(args, vec!["/tmp/jarvis_temp.py".to_string()]);

    let (prog, args) = powershell_invocation("Get-Date".to_string());
    assert_eq!(prog, "powershell");
    assert_eq!(args, vec!["-Command".to_string(), "Get-Date".to_string()]);

    let (prog, args) = pip_invocation("requests".to_string());
    assert_eq!(prog, "pip");
    assert_eq!(args, vec!["install".to_string(), "requests".to_string()]);
}

#[test]
fn the_transient_script_file_name_is_fixed() {
    assert_eq!(python_script_name(), "jarvis_temp.py");
}

#[test]
fn decimal_rendering_is_exact() {
    assert_eq!(fmt_u32(0), "0");
    assert_eq!(fmt_u32(7), "7");
    assert_eq!(fmt_u32(90210), "90210");
    assert_eq!(fmt_u32(u32::MAX), "4294967295");
    assert_eq!(fmt_i32(0), "0");
    assert_eq!(fmt_i32(123), "123");
    assert_eq!(fmt_i32(-45), "-45");
    assert_eq!(fmt_i32(i32::MAX), "2147483647");
    assert_eq!(fmt_i32(i32::MIN), "-2147483648");
}

#[test]
fn string_equality_is_by_characters() {
    assert!(str_eq("", ""));
    assert!(str_eq("abc", "abc"));
    assert!(!str_eq("abc", "abd"));
    assert!(!str_eq("abc", "abcd"));
    assert!(str_eq("naïve", "naïve"));
}
