use task_once::{Task, TaskError, TaskErrorCode};

#[test]
fn test_resolve_local_task() {
    let (foo, mut foo_recv) = Task::new(|| {
        return Ok(100);
    });

    foo.call_once();
    let result = foo_recv.try_recv().ok().unwrap();
    match result {
        Some(t) => {
            assert_eq!(t.ok().unwrap(), 100);
        }
        None => {
            unreachable!()
        }
    };
}

#[test]
fn test_resolve_local_task_with_error() {
    let (foo, mut foo_recv) = Task::new(|| {
        if false {
            return Ok(0);
        }
        return Err(TaskError::from("Aborted"));
    });

    foo.call_once();
    let result = foo_recv.try_recv().ok().unwrap();
    match result {
        Some(t) => {
            assert!(t.is_err());
        }
        None => {
            unreachable!()
        }
    };
}

#[test]
fn test_resolve_local_task_with_panic() {
    let (foo, mut foo_recv) = Task::new(|| {
        if false {
            return Ok(0);
        }
        panic!();
    });

    foo.call_once();
    let result = foo_recv.try_recv().ok().unwrap();
    match result {
        Some(t) => {
            assert!(t.is_err());
        }
        None => {
            unreachable!()
        }
    };
}

#[test]
fn error_result_is_delivered_unchanged() {
    let (task, mut recv) = Task::new(|| {
        if false {
            return Ok(0);
        }
        return Err(TaskError::from("Aborted"));
    });

    task.call_once();
    let err = recv.try_recv().unwrap().unwrap().err().unwrap();
    assert_eq!(err.code(), TaskErrorCode::Unknown);
    assert_eq!(err.description(), "Unknown: \"Aborted\"");
}

#[test]
fn panic_is_delivered_as_panic_error() {
    let (task, mut recv) = Task::new(|| {
        if false {
            return Ok(0);
        }
        panic!("boom");
    });

    task.call_once();
    let err = recv.try_recv().unwrap().unwrap().err().unwrap();
    assert_eq!(err.code(), TaskErrorCode::Panic);
    assert_eq!(err.description(), "Panic");
}

#[test]
fn success_is_delivered_exactly_once() {
    let (task, mut recv) = Task::new(|| Ok(1000));

    task.call_once();
    let delivered = recv.try_recv().unwrap().unwrap().ok().unwrap();
    assert_eq!(delivered, 1000);
    // The handle is one-shot: after the single delivery was taken, nothing
    // more ever arrives on it.
    let again = recv.try_recv();
    assert!(match again {
        Ok(v) => v.is_none(),
        Err(_) => true,
    });
}

#[test]
fn dropped_task_disconnects_handle() {
    let (task, mut recv) = Task::new(|| Ok(7u32));

    drop(task);
    assert!(recv.try_recv().is_err());
}

#[test]
fn two_tasks_resolve_independently() {
    let (t1, mut r1) = Task::new(|| Ok(true));
    let (t2, mut r2) = Task::new(|| Ok(false));

    t1.call_once();
    t2.call_once();

    assert_eq!(r1.try_recv().unwrap().unwrap().ok().unwrap(), true);
    assert_eq!(r2.try_recv().unwrap().unwrap().ok().unwrap(), false);
}
