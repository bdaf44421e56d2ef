use std::sync::atomic::{AtomicUsize, Ordering};
use std::sync::Arc;

use unit_of_work::{Freshness, Job, Work};

#[derive(Debug, Default, PartialEq)]
struct Disk {
    files: Vec<(String, String)>,
    log: Vec<String>,
}

fn write_file(name: &'static str, contents: &'static str) -> Work<Disk, String> {
    Work::new(move |disk: &mut Disk| {
        disk.files.push((name.to_string(), contents.to_string()));
        Ok(())
    })
}

fn append_log(line: &'static str) -> Work<Disk, String> {
    Work::new(move |disk: &mut Disk| {
        disk.log.push(line.to_string());
        Ok(())
    })
}

fn fail(message: &'static str) -> Work<Disk, String> {
    Work::new(move |_disk: &mut Disk| Err(message.to_string()))
}

fn counting_unit(counter: &Arc<AtomicUsize>) -> Work<Disk, String> {
    let counter = Arc::clone(counter);
    Work::new(move |_disk: &mut Disk| {
        counter.fetch_add(1, Ordering::SeqCst);
        Ok(())
    })
}

fn task_is_send<T: Send>(_value: &T) -> bool {
    true
}

#[test]
fn new_does_not_run_either_unit() {
    let dirty = Arc::new(AtomicUsize::new(0));
    let fresh = Arc::new(AtomicUsize::new(0));
    let job = Job::new(counting_unit(&dirty), counting_unit(&fresh));
    assert_eq!(dirty.load(Ordering::SeqCst), 0);
    assert_eq!(fresh.load(Ordering::SeqCst), 0);
    drop(job);
    assert_eq!(dirty.load(Ordering::SeqCst), 0);
    assert_eq!(fresh.load(Ordering::SeqCst), 0);
}

#[test]
fn dirty_runs_the_dirty_unit_only() {
    let dirty = Arc::new(AtomicUsize::new(0));
    let fresh = Arc::new(AtomicUsize::new(0));
    let job = Job::new(counting_unit(&dirty), counting_unit(&fresh));
    let mut disk = Disk::default();
    assert_eq!(job.run(Freshness::Dirty, &mut disk), Ok(()));
    assert_eq!(dirty.load(Ordering::SeqCst), 1);
    assert_eq!(fresh.load(Ordering::SeqCst), 0);
}

#[test]
fn fresh_runs_the_fresh_unit_only() {
    let dirty = Arc::new(AtomicUsize::new(0));
    let fresh = Arc::new(AtomicUsize::new(0));
    let job = Job::new(counting_unit(&dirty), counting_unit(&fresh));
    let mut disk = Disk::default();
    assert_eq!(job.run(Freshness::Fresh, &mut disk), Ok(()));
    assert_eq!(dirty.load(Ordering::SeqCst), 0);
    assert_eq!(fresh.load(Ordering::SeqCst), 1);
}

#[test]
fn failure_of_the_dirty_unit_is_returned_without_fallback() {
    let fresh = Arc::new(AtomicUsize::new(0));
    let job = Job::new(fail("compiler crashed"), counting_unit(&fresh));
    let mut disk = Disk::default();
    assert_eq!(job.run(Freshness::Dirty, &mut disk), Err("compiler crashed".to_string()));
    assert_eq!(fresh.load(Ordering::SeqCst), 0);
    assert_eq!(disk, Disk::default());
}

#[test]
fn failure_of_the_fresh_unit_is_returned_without_fallback() {
    let dirty = Arc::new(AtomicUsize::new(0));
    let job = Job::new(counting_unit(&dirty), fail("stale output"));
    let mut disk = Disk::default();
    assert_eq!(job.run(Freshness::Fresh, &mut disk), Err("stale output".to_string()));
    assert_eq!(dirty.load(Ordering::SeqCst), 0);
}

#[test]
fn dirty_task_writes_the_file_and_logs_once() {
    let job = Job::new(write_file("X", "contents").then(append_log("built X")), Work::noop());
    let mut disk = Disk::default();
    assert_eq!(job.run(Freshness::Dirty, &mut disk), Ok(()));
    assert_eq!(disk.files, vec![("X".to_string(), "contents".to_string())]);
    assert_eq!(disk.log, vec!["built X".to_string()]);
}

#[test]
fn fresh_task_leaves_the_file_untouched() {
    let job = Job::new(write_file("X", "contents").then(append_log("built X")), Work::noop());
    let mut disk = Disk {
        files: vec![("X".to_string(), "earlier contents".to_string())],
        log: Vec::new(),
    };
    assert_eq!(job.run(Freshness::Fresh, &mut disk), Ok(()));
    assert_eq!(disk.files, vec![("X".to_string(), "earlier contents".to_string())]);
    assert!(disk.log.is_empty());
}

#[test]
fn dirty_task_stops_at_the_failure_of_its_first_step() {
    let second = Arc::new(AtomicUsize::new(0));
    let dirty = fail("step one failed").then(counting_unit(&second).then(append_log("step two")));
    let job = Job::new(dirty, Work::noop());
    let mut disk = Disk::default();
    assert_eq!(job.run(Freshness::Dirty, &mut disk), Err("step one failed".to_string()));
    assert_eq!(second.load(Ordering::SeqCst), 0);
    assert!(disk.log.is_empty());
    assert!(disk.files.is_empty());
}

#[test]
fn describe_hides_the_units() {
    let job = Job::new(write_file("X", "contents"), append_log("fresh"));
    assert_eq!(job.describe(), "Job { ... }");
}

#[test]
fn freshness_has_two_distinct_values() {
    assert_ne!(Freshness::Fresh, Freshness::Dirty);
    assert_eq!(Freshness::Fresh, Freshness::Fresh);
    assert_eq!(Freshness::Dirty, Freshness::Dirty);
    let copy = Freshness::Dirty;
    assert_eq!(format!("{:?} {:?}", copy, Freshness::Fresh), "Dirty Fresh");
}

#[test]
fn a_task_is_send() {
    let job = Job::new(write_file("X", "contents"), Work::noop());
    assert!(task_is_send(&job));
    let moved = job;
    let mut disk = Disk::default();
    assert_eq!(moved.run(Freshness::Dirty, &mut disk), Ok(()));
    assert_eq!(disk.files, vec![("X".to_string(), "contents".to_string())]);
}

struct Report<'a> {
    lines: &'a mut Vec<String>,
}

#[test]
fn a_handle_may_borrow_from_its_scheduler() {
    let mut lines: Vec<String> = Vec::new();
    {
        let mut report = Report { lines: &mut lines };
        let dirty = Work::new(|report: &mut Report<'_>| {
            report.lines.push("compiling".to_string());
            Ok::<(), String>(())
        });
        let fresh = Work::new(|report: &mut Report<'_>| {
            report.lines.push("fresh".to_string());
            Ok::<(), String>(())
        });
        let job = Job::new(dirty, fresh);
        assert_eq!(job.run(Freshness::Fresh, &mut report), Ok(()));
    }
    assert_eq!(lines, vec!["fresh".to_string()]);
}
