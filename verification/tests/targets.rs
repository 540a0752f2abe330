use invisiwind::injector::{Action, Procedure, Reply};
use invisiwind::targets::{parse_pid, request_for_process, windows_by_process};
use invisiwind::window::WindowInfo;

#[test]
fn decimal_targets_are_process_ids() {
    assert_eq!(parse_pid("1234"), Some(1234));
    assert_eq!(parse_pid("0"), Some(0));
    assert_eq!(parse_pid("7"), Some(7));
    assert_eq!(parse_pid("0012"), Some(12));
    assert_eq!(parse_pid("+42"), Some(42));
}

#[test]
fn process_ids_fit_32_bits() {
    assert_eq!(parse_pid("4294967295"), Some(u32::MAX));
    assert_eq!(parse_pid("4294967296"), None);
    assert_eq!(parse_pid("42949672950"), None);
    assert_eq!(parse_pid("99999999999999999999999"), None);
    assert_eq!(parse_pid("00000000000000000000001"), Some(1));
}

#[test]
fn other_targets_are_names() {
    assert_eq!(parse_pid("notepad.exe"), None);
    assert_eq!(parse_pid(""), None);
    assert_eq!(parse_pid("+"), None);
    assert_eq!(parse_pid("-"), None);
    assert_eq!(parse_pid("-1"), None);
    assert_eq!(parse_pid("++1"), None);
    assert_eq!(parse_pid("12a"), None);
    assert_eq!(parse_pid(" 12"), None);
    assert_eq!(parse_pid("12 "), None);
    assert_eq!(parse_pid("1_000"), None);
    assert_eq!(parse_pid("0x10"), None);
    assert_eq!(parse_pid("١٢٣"), None);
    assert_eq!(parse_pid("99999999999x"), None);
}

#[test]
fn process_ids_are_read_as_the_standard_library_reads_them() {
    for target in [
        "", "+", "-", "0", "+0", "-0", "1", "+1", "-1", "007", "4294967295", "4294967296",
        "+4294967295", "18446744073709551616", "12.5", "1e3", "abc", "１２", "12\n", "\t12",
    ] {
        assert_eq!(parse_pid(target), target.parse::<u32>().ok());
    }
}

fn window(hwnd: u32, pid: u32) -> WindowInfo {
    WindowInfo { hwnd, title: "w".to_string(), pid, hidden: false }
}

#[test]
fn windows_are_grouped_by_process() {
    let windows = vec![window(1, 10), window(2, 20), window(3, 10), window(4, 30)];
    let groups = windows_by_process(&windows);
    assert_eq!(groups.len(), 3);
    assert_eq!(groups.get(&10), Some(&vec![1, 3]));
    assert_eq!(groups.get(&20), Some(&vec![2]));
    assert_eq!(groups.get(&30), Some(&vec![4]));
    assert_eq!(groups.get(&40), None);
    assert!(windows_by_process(&Vec::new()).is_empty());
}

#[test]
fn process_without_windows_gets_no_request() {
    let mut groups = windows_by_process(&vec![window(1, 10), window(2, 20)]);
    assert!(request_for_process(&mut groups, 30, true, false).is_none());
    assert_eq!(groups.len(), 2);
    let mut empty = windows_by_process(&Vec::new());
    assert!(request_for_process(&mut empty, 10, true, false).is_none());
}

#[test]
fn process_gets_one_request_for_all_its_windows() {
    let windows = vec![window(1, 10), window(2, 20), window(3, 10)];
    let mut groups = windows_by_process(&windows);
    let mut injector = request_for_process(&mut groups, 10, true, false).unwrap();
    assert_eq!(groups.len(), 1);
    assert!(request_for_process(&mut groups, 10, true, false).is_none());
    let mut calls = Vec::new();
    while injector.result().is_none() {
        let reply = match injector.action() {
            Action::Invoke { procedure, hwnd, flag } => {
                calls.push((procedure, hwnd, flag));
                Reply::Flag(true)
            }
            Action::InjectModule { .. } => Reply::Done,
            Action::FindModule { .. } => Reply::Flag(false),
            Action::QueryArchitecture => Reply::Flag(false),
            _ => Reply::Flag(true),
        };
        injector.advance(reply);
    }
    assert_eq!(injector.result(), Some(Ok(())));
    assert_eq!(
        calls,
        vec![(Procedure::SetVisibility, 1, true), (Procedure::SetVisibility, 3, true)]
    );
}
