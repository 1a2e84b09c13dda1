use libresolve::dlsym::{flush_dlsym_log, resolve_dlsym, DlsymLog};
use libresolve::files::{dlsym_log_path, idify_file_path, runtime_err_path, runtime_log_path};
use libresolve::text::RawName;

#[test]
fn per_process_file_naming() {
    assert_eq!(runtime_log_path(Some("trace.out"), "1234"), "trace_1234.out");
    assert_eq!(runtime_log_path(Some("trace"), "1234"), "trace_1234");
}

#[test]
fn id_goes_before_the_last_dot() {
    assert_eq!(idify_file_path("a.b.c", "7"), "a.b_7.c");
    assert_eq!(idify_file_path("log.", "7"), "log_7.");
    assert_eq!(idify_file_path(".hidden", "7"), "_7.hidden");
    assert_eq!(idify_file_path(".", "7"), "_7.");
    assert_eq!(idify_file_path("", "7"), "_7");
    assert_eq!(idify_file_path("dir.d/file", "7"), "dir_7.d/file");
    assert_eq!(idify_file_path("/tmp/r\u{e9}sum\u{e9}.txt", "42"), "/tmp/r\u{e9}sum\u{e9}_42.txt");
    assert_eq!(idify_file_path("trace.out", ""), "trace_.out");
}

#[test]
fn default_log_paths() {
    assert_eq!(dlsym_log_path(None, "1"), "resolve_dlsym_1.json");
    assert_eq!(runtime_log_path(None, "1"), "resolve_log_1.out");
    assert_eq!(runtime_err_path(None, "1"), "resolve_err_log_1.out");
    assert_eq!(dlsym_log_path(Some("/var/log/syms.json"), "99"), "/var/log/syms_99.json");
    assert_eq!(runtime_err_path(Some("err"), "99"), "err_99");
}

/// Applies to `file` what closing the log asks for.
fn close(file: &mut String, log: &DlsymLog) {
    let step = flush_dlsym_log(log);
    file.truncate(file.len() - step.rewind);
    file.push_str(step.text);
}

#[test]
fn dlsym_json_envelope() {
    let mut log = DlsymLog::new();
    let mut file = String::new();
    file.push_str(&resolve_dlsym(&mut log, RawName::Text("a"), RawName::Text("liba.so")));
    file.push_str(&resolve_dlsym(&mut log, RawName::Text("b"), RawName::Text("/usr/lib/libb.so")));
    close(&mut file, &log);
    assert_eq!(
        file,
        "{\n \"loaded_symbols\": [\n    { \"symbol\": \"a\", \"library\": \"liba.so\" },\n    { \"symbol\": \"b\", \"library\": \"/usr/lib/libb.so\" }\n  ]\n}\n"
    );
    let compact: String = file.chars().filter(|c| !c.is_whitespace()).collect();
    assert_eq!(
        compact,
        "{\"loaded_symbols\":[{\"symbol\":\"a\",\"library\":\"liba.so\"},{\"symbol\":\"b\",\"library\":\"/usr/lib/libb.so\"}]}"
    );
}

#[test]
fn dlsym_header_is_written_once() {
    let mut log = DlsymLog::new();
    let first = resolve_dlsym(&mut log, RawName::Text("a"), RawName::Text("l"));
    let second = resolve_dlsym(&mut log, RawName::Text("a"), RawName::Text("l"));
    assert_eq!(first, "{\n \"loaded_symbols\": [\n    { \"symbol\": \"a\", \"library\": \"l\" },\n");
    assert_eq!(second, "    { \"symbol\": \"a\", \"library\": \"l\" },\n");
}

#[test]
fn dlsym_labels_for_missing_names() {
    let mut log = DlsymLog::new();
    let _ = resolve_dlsym(&mut log, RawName::Text("a"), RawName::Text("l"));
    assert_eq!(
        resolve_dlsym(&mut log, RawName::Null, RawName::Null),
        "    { \"symbol\": \"<null>\", \"library\": \"<unknown>\" },\n"
    );
    assert_eq!(
        resolve_dlsym(&mut log, RawName::NotUtf8, RawName::NotUtf8),
        "    { \"symbol\": \"<invalid>\", \"library\": \"<invalid>\" },\n"
    );
}

#[test]
fn dlsym_flush_step() {
    let log = DlsymLog::new();
    let step = flush_dlsym_log(&log);
    assert_eq!(step.rewind, 2);
    assert_eq!(step.text, "\n  ]\n}\n");
}
