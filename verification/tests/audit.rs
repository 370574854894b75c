use cuenv::audit::{audit_outcome, plan_audit, tracer_launch_failure, AUDIT_LOG_PATH, TRACER};
use cuenv::report::parse_audit_log;
use cuenv::{extract_file_path, extract_network_address, AuditReport, Error, Platform};

fn sorted(mut items: Vec<String>) -> Vec<String> {
    items.sort();
    items
}

#[test]
fn extracts_the_first_quoted_path() {
    let line = "openat(AT_FDCWD, \"/home/user/project/file.txt\", O_RDONLY) = 3";
    assert_eq!(extract_file_path(line), Some("/home/user/project/file.txt".to_string()));
}

#[test]
fn extracts_only_the_first_of_two_quoted_texts() {
    let line = "rename(\"/tmp/a\", \"/tmp/b\") = 0";
    assert_eq!(extract_file_path(line), Some("/tmp/a".to_string()));
}

#[test]
fn ignored_paths_give_nothing() {
    assert_eq!(extract_file_path("openat(AT_FDCWD, \"/etc/ld.so.cache\", O_RDONLY) = 3"), None);
    assert_eq!(extract_file_path("openat(AT_FDCWD, \"/proc/self/maps\", O_RDONLY) = 3"), None);
    assert_eq!(extract_file_path("openat(AT_FDCWD, \"/sys/devices/x\", O_RDONLY) = 3"), None);
    assert_eq!(extract_file_path("openat(AT_FDCWD, \"/dev/null\", O_RDONLY) = 3"), None);
}

#[test]
fn near_misses_of_ignored_paths_are_kept() {
    assert_eq!(extract_file_path("open(\"/etc/ld.so.cache.d\")"), Some("/etc/ld.so.cache.d".into()));
    assert_eq!(extract_file_path("open(\"/etc/ld.so.cach\")"), Some("/etc/ld.so.cach".into()));
    assert_eq!(extract_file_path("open(\"/proc\")"), Some("/proc".into()));
    assert_eq!(extract_file_path("open(\"/device\")"), Some("/device".into()));
    assert_eq!(extract_file_path("open(\"x/proc/\")"), Some("x/proc/".into()));
}

#[test]
fn lines_without_a_closed_quote_give_nothing() {
    assert_eq!(extract_file_path(""), None);
    assert_eq!(extract_file_path("openat(AT_FDCWD, 3) = 0"), None);
    assert_eq!(extract_file_path("openat(AT_FDCWD, \"/unterminated"), None);
    assert_eq!(extract_file_path("\""), None);
}

#[test]
fn an_empty_quoted_text_is_an_empty_path() {
    assert_eq!(extract_file_path("open(\"\")"), Some(String::new()));
}

#[test]
fn paths_keep_characters_beyond_ascii() {
    assert_eq!(extract_file_path("é open(\"/tmp/naïve/文件\") = 3"), Some("/tmp/naïve/文件".into()));
}

#[test]
fn extracts_the_address_inside_inet_addr() {
    let line = "connect(3, {sa_family=AF_INET, sin_port=htons(80), sin_addr=inet_addr(\"93.184.216.34\")}, 16) = 0";
    assert_eq!(extract_network_address(line), Some("93.184.216.34".to_string()));
}

#[test]
fn address_needs_the_family_marker() {
    let line = "connect(3, {sa_family=AF_UNIX, sin_addr=inet_addr(\"93.184.216.34\")}, 16) = 0";
    assert_eq!(extract_network_address(line), None);
    assert_eq!(extract_network_address("connect(3, 93.184.216.34)"), None);
}

#[test]
fn address_needs_the_wrapper_and_its_closing_quote() {
    assert_eq!(extract_network_address("AF_INET \"127.0.0.1\""), None);
    assert_eq!(extract_network_address("AF_INET inet_addr(\"127.0.0.1"), None);
    assert_eq!(extract_network_address("AF_INET inet_addr(\"\")"), Some(String::new()));
    assert_eq!(
        extract_network_address("inet_addr(\"10.0.0.1\") inet_addr(\"10.0.0.2\") AF_INET"),
        Some("10.0.0.1".to_string())
    );
}

#[test]
fn parse_collects_files_and_connections_once_each() {
    let log = "\
1234 openat(AT_FDCWD, \"/etc/ld.so.cache\", O_RDONLY|O_CLOEXEC) = 3\n\
1234 openat(AT_FDCWD, \"/home/user/project/file.txt\", O_RDONLY) = 3\n\
1234 open(\"/home/user/project/other.txt\", O_RDONLY) = 4\n\
1234 stat(\"/not/an/open/call\", 0x7ffd) = 0\n\
1234 openat(AT_FDCWD, \"/home/user/project/file.txt\", O_RDONLY) = 5\n\
1234 connect(3, {sa_family=AF_INET, sin_port=htons(443), sin_addr=inet_addr(\"93.184.216.34\")}, 16) = 0\n\
1234 bind(4, {sa_family=AF_INET, sin_port=htons(8080), sin_addr=inet_addr(\"0.0.0.0\")}, 16) = 0\n\
1234 connect(5, {sa_family=AF_UNIX, sun_path=\"/run/sock\"}, 110) = 0\n\
1234 connect(3, {sa_family=AF_INET, sin_port=htons(80), sin_addr=inet_addr(\"93.184.216.34\")}, 16) = 0\n";
    let report = parse_audit_log(log);
    assert_eq!(
        report.accessed_files,
        vec![
            "/home/user/project/file.txt".to_string(),
            "/home/user/project/other.txt".to_string()
        ]
    );
    assert_eq!(
        report.network_connections,
        vec!["93.184.216.34".to_string(), "0.0.0.0".to_string()]
    );
}

#[test]
fn parse_handles_carriage_returns_and_a_missing_last_newline() {
    let log = "open(\"/a\")\r\nopen(\"/b\")\n\nopen(\"/c\")";
    let report = parse_audit_log(log);
    assert_eq!(report.accessed_files, vec!["/a".to_string(), "/b".to_string(), "/c".to_string()]);
    assert!(report.network_connections.is_empty());
}

#[test]
fn parse_does_not_join_lines() {
    let report = parse_audit_log("open(\"/a\nb\")\n");
    assert!(report.accessed_files.is_empty());
}

#[test]
fn parse_of_nothing_is_empty() {
    let report = parse_audit_log("");
    assert!(report.accessed_files.is_empty());
    assert!(report.network_connections.is_empty());
}

#[test]
fn parsing_twice_gives_the_same_sets() {
    let log = "open(\"/b\")\nopen(\"/a\")\nopen(\"/b\")\nconnect(AF_INET inet_addr(\"1.2.3.4\"))\n";
    let first = parse_audit_log(log);
    let second = parse_audit_log(log);
    assert_eq!(sorted(first.accessed_files), sorted(second.accessed_files));
    assert_eq!(sorted(first.network_connections), sorted(second.network_connections));
}

#[test]
fn a_line_can_report_a_file_and_a_connection() {
    let report = parse_audit_log("open(\"/x\") connect(AF_INET inet_addr(\"1.1.1.1\"))");
    assert_eq!(report.accessed_files, vec!["/x".to_string()]);
    assert_eq!(report.network_connections, vec!["1.1.1.1".to_string()]);
}

#[test]
fn summary_of_nothing_says_so_and_recommends_nothing() {
    let report = AuditReport { accessed_files: Vec::new(), network_connections: Vec::new() };
    let text = report.summary();
    assert_eq!(
        text,
        "🔍 Audit Report:\n================\n  No file or network access detected\n"
    );
    assert!(!text.contains("Recommendations"));
    assert_eq!(AuditReport::empty().summary(), text);
}

#[test]
fn summary_lists_files_and_connections() {
    let report = AuditReport {
        accessed_files: vec!["/a".to_string(), "/b c".to_string()],
        network_connections: vec!["1.2.3.4".to_string()],
    };
    let expected = "🔍 Audit Report:\n\
================\n\
\n\
📁 File Access (2 unique paths):\n  • /a\n  • /b c\n\
\n\
🌐 Network Access (1 unique connections):\n  • 1.2.3.4\n\
\n\
💡 Recommendations:\n  Add to security.readOnlyPaths or security.readWritePaths:\n    - \"/a\"\n    - \"/b c\"\n  Add to security.allowedHosts:\n    - \"1.2.3.4\"\n";
    assert_eq!(report.summary(), expected);
}

#[test]
fn summary_with_files_only() {
    let report =
        AuditReport { accessed_files: vec!["/a".to_string()], network_connections: Vec::new() };
    let expected = "🔍 Audit Report:\n================\n\n📁 File Access (1 unique paths):\n  • /a\n\n💡 Recommendations:\n  Add to security.readOnlyPaths or security.readWritePaths:\n    - \"/a\"\n";
    assert_eq!(report.summary(), expected);
}

#[test]
fn summary_counts_in_decimal() {
    let files: Vec<String> = (0..12).map(|i| format!("/f{}", i)).collect();
    let report = AuditReport { accessed_files: files, network_connections: Vec::new() };
    assert!(report.summary().contains("📁 File Access (12 unique paths):\n"));
}

#[test]
fn tracer_wraps_program_and_arguments() {
    let args = vec![Some("test".to_string()), None, Some("-n".to_string())];
    let tracer = plan_audit(Platform::Linux, Some("echo"), &args).unwrap();
    assert_eq!(tracer.program, "strace");
    assert_eq!(TRACER, "strace");
    assert_eq!(
        tracer.args,
        vec!["-f", "-e", "trace=file,network", "-o", "/tmp/cuenv_audit.log", "--", "echo", "test", "-n"]
    );
    assert_eq!(tracer.args[4], AUDIT_LOG_PATH);
}

#[test]
fn tracer_without_a_textual_program() {
    let tracer = plan_audit(Platform::Linux, None, &vec![Some("x".to_string())]).unwrap();
    assert_eq!(tracer.args, vec!["-f", "-e", "trace=file,network", "-o", AUDIT_LOG_PATH, "--", "x"]);
}

#[test]
fn audit_is_refused_off_linux() {
    let error = plan_audit(Platform::Other, Some("echo"), &Vec::new()).unwrap_err();
    assert!(error.is_configuration());
    assert_eq!(error.message(), "Audit mode is only supported on Linux systems");
}

#[test]
fn launch_failure_names_the_tracer_and_the_cause() {
    let error = tracer_launch_failure("No such file or directory (os error 2)");
    assert_eq!(
        error,
        Error::CommandExecution {
            command: "strace".to_string(),
            args: vec!["monitoring command".to_string()],
            message: "Failed to run audit command: No such file or directory (os error 2)"
                .to_string(),
            exit_code: None,
        }
    );
    assert!(!error.is_configuration());
    assert_eq!(
        error.message(),
        "Failed to run audit command: No such file or directory (os error 2)"
    );
}

#[test]
fn outcome_reports_the_tracer_exit_code() {
    let (code, report) = audit_outcome(Some(0), Some("open(\"/a\")\n"));
    assert_eq!(code, 0);
    assert_eq!(report.accessed_files, vec!["/a".to_string()]);
    let (code, _) = audit_outcome(Some(-7), None);
    assert_eq!(code, -7);
    let (code, report) = audit_outcome(None, None);
    assert_eq!(code, 1);
    assert!(report.accessed_files.is_empty());
    assert!(report.network_connections.is_empty());
}
