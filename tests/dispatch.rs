use sstun::dispatch::{Dispatcher, TaskStatus};

#[test]
fn failed_task_does_not_stop_siblings_or_loop() {
    let mut d = Dispatcher::new();
    let n: usize = 5;
    for i in 0..n {
        assert_eq!(d.accept(), Some(i));
    }
    d.finish(2, false);
    for j in 0..n {
        if j != 2 {
            assert_eq!(d.status(j), Some(TaskStatus::Running));
            d.finish(j, true);
        }
    }
    for j in 0..n {
        let want = if j == 2 { TaskStatus::Failed } else { TaskStatus::Completed };
        assert_eq!(d.status(j), Some(want));
    }
    assert!(d.is_accepting());
    assert_eq!(d.accept(), Some(5));
}

#[test]
fn finished_task_stays_finished() {
    let mut d = Dispatcher::new();
    assert_eq!(d.accept(), Some(0));
    d.finish(0, true);
    d.finish(0, false);
    assert_eq!(d.status(0), Some(TaskStatus::Completed));
    d.finish(9, false);
    assert_eq!(d.status(9), None);
}

#[test]
fn shutdown_stops_acceptance_but_keeps_tasks() {
    let mut d = Dispatcher::new();
    assert_eq!(d.accept(), Some(0));
    d.shutdown();
    assert!(!d.is_accepting());
    assert_eq!(d.accept(), None);
    assert_eq!(d.status(0), Some(TaskStatus::Running));
    d.finish(0, true);
    assert_eq!(d.status(0), Some(TaskStatus::Completed));
}
