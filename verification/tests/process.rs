use std::collections::HashSet;

use ra_killer::monitor::{App, CLEANUP_PERCENT};
use ra_killer::process::{find_matching_processes, select_top, ProcessInfo};

fn proc_info(pid: u32, name: &str, memory: u64) -> ProcessInfo {
    ProcessInfo { pid, name: name.to_string(), memory, cpu_bits: 0 }
}

fn sample() -> Vec<ProcessInfo> {
    vec![
        proc_info(10, "rust-analyzer", 300),
        proc_info(11, "bash", 900),
        proc_info(12, "rust-analyzer-proc-macro-srv", 500),
        proc_info(13, "rust-analyzer", 500),
        proc_info(14, "node", 50),
        proc_info(15, "rust-analyzer", 100),
    ]
}

#[test]
fn matching_keeps_order_and_substrings() {
    let m = find_matching_processes(&sample(), "rust-analyzer");
    let pids: Vec<u32> = m.iter().map(|p| p.pid).collect();
    assert_eq!(pids, vec![10, 12, 13, 15]);
    assert_eq!(find_matching_processes(&sample(), "zzz").len(), 0);
    assert_eq!(find_matching_processes(&sample(), "").len(), 6);
    let m = find_matching_processes(&sample(), "analyzer-proc");
    assert_eq!(m.len(), 1);
    assert_eq!(m[0].pid, 12);
}

#[test]
fn matching_is_case_sensitive_and_unicode_aware() {
    let ps = vec![proc_info(1, "Rust-Analyzer", 1), proc_info(2, "进程监控", 2), proc_info(3, "监", 3)];
    assert_eq!(find_matching_processes(&ps, "rust").len(), 0);
    let m = find_matching_processes(&ps, "监");
    assert_eq!(m.iter().map(|p| p.pid).collect::<Vec<_>>(), vec![2, 3]);
}

#[test]
fn top_selection_heaviest_first_ties_keep_order() {
    let ps = sample();
    assert_eq!(select_top(&ps, 3), vec![1, 2, 3]);
    assert_eq!(select_top(&ps, 6), vec![1, 2, 3, 0, 5, 4]);
    assert_eq!(select_top(&ps, 100), vec![1, 2, 3, 0, 5, 4]);
    assert_eq!(select_top(&ps, 0), Vec::<usize>::new());
    assert_eq!(select_top(&Vec::new(), 5), Vec::<usize>::new());
}

fn app_with(ps: &Vec<ProcessInfo>) -> App {
    let mut app = App::new(85, 20, "rust-analyzer".to_string());
    app.set_processes(ps);
    app
}

#[test]
fn cleanup_takes_forty_percent_rounded_up() {
    let app = app_with(&sample());
    // 4 targets: ceil(4 * 40 / 100) = 2, heaviest first, earlier first on ties.
    assert_eq!(app.kill_targets(CLEANUP_PERCENT), vec![12, 13]);
    assert_eq!(app.kill_targets(100), vec![12, 13, 10, 15]);
    assert_eq!(app.kill_targets(200), vec![12, 13, 10, 15]);
    assert_eq!(app.kill_targets(1), vec![12]);
    assert_eq!(app.kill_targets(0), Vec::<u32>::new());
    let single = app_with(&vec![proc_info(7, "rust-analyzer", 1)]);
    assert_eq!(single.kill_targets(CLEANUP_PERCENT), vec![7]);
    let empty = app_with(&Vec::new());
    assert_eq!(empty.kill_targets(CLEANUP_PERCENT), Vec::<u32>::new());
}

#[test]
fn removing_killed_processes_clamps_selection() {
    let mut app = app_with(&sample());
    app.selected_index = 3;
    app.remove_processes(&HashSet::from([12, 13]));
    assert_eq!(app.processes.iter().map(|p| p.pid).collect::<Vec<_>>(), vec![10, 15]);
    assert_eq!(app.selected_index, 1);
    app.remove_processes(&HashSet::from([99]));
    assert_eq!(app.processes.len(), 2);
    assert_eq!(app.selected_index, 1);
    app.remove_processes(&HashSet::from([10, 15]));
    assert_eq!(app.processes.len(), 0);
    assert_eq!(app.selected_index, 1);
}

#[test]
fn refresh_clamps_selection() {
    let mut app = app_with(&sample());
    app.selected_index = 3;
    app.set_processes(&vec![proc_info(1, "rust-analyzer", 5), proc_info(2, "bash", 5)]);
    assert_eq!(app.processes.len(), 1);
    assert_eq!(app.selected_index, 0);
    assert_eq!(app.selected_pid(), Some(1));
    app.selected_index = 4;
    app.set_processes(&Vec::new());
    assert_eq!(app.selected_index, 4);
    assert_eq!(app.selected_pid(), None);
}
