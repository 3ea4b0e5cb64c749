use libindy::coordinator::Completion;
use libindy::dispatcher::CommandDispatcher;
use libindy::error::CacheError;
use libindy::worker::settle;

#[test]
fn commands_are_taken_in_arrival_order() {
    let mut dispatcher: CommandDispatcher<&str, u32> = CommandDispatcher::new();
    let a = dispatcher.enqueue("a", 10).ok().unwrap();
    let b = dispatcher.enqueue("b", 20).ok().unwrap();
    let c = dispatcher.enqueue("c", 30).ok().unwrap();
    assert_eq!((a, b, c), (0, 1, 2));
    assert_eq!(dispatcher.waiting(), 3);
    assert_eq!(dispatcher.next(), Some((0, "a")));
    assert_eq!(dispatcher.next(), Some((1, "b")));
    assert_eq!(dispatcher.waiting(), 1);
    assert_eq!(dispatcher.in_progress(), 2);
    assert_eq!(dispatcher.next(), Some((2, "c")));
    assert_eq!(dispatcher.next(), None);
}

#[test]
fn completion_routine_is_handed_out_once() {
    let mut dispatcher: CommandDispatcher<&str, String> = CommandDispatcher::new();
    let handle = dispatcher.enqueue("work", "routine".to_string()).ok().unwrap();
    assert!(dispatcher.is_pending(handle));
    assert_eq!(dispatcher.complete(handle), None);
    assert_eq!(dispatcher.next(), Some((handle, "work")));
    assert!(dispatcher.is_pending(handle));
    assert_eq!(dispatcher.complete(handle), Some("routine".to_string()));
    assert!(!dispatcher.is_pending(handle));
    assert_eq!(dispatcher.complete(handle), None);
    assert_eq!(dispatcher.in_progress(), 0);
    let later = dispatcher.enqueue("more", "other".to_string()).ok().unwrap();
    assert!(later != handle);
    assert_eq!(dispatcher.complete(handle), None);
}

#[test]
fn completions_may_come_in_any_order() {
    let mut dispatcher: CommandDispatcher<u8, u8> = CommandDispatcher::new();
    let first = dispatcher.enqueue(1, 101).ok().unwrap();
    let second = dispatcher.enqueue(2, 102).ok().unwrap();
    let third = dispatcher.enqueue(3, 103).ok().unwrap();
    dispatcher.next();
    dispatcher.next();
    dispatcher.next();
    assert_eq!(dispatcher.complete(second), Some(102));
    assert_eq!(dispatcher.complete(third), Some(103));
    assert_eq!(dispatcher.complete(first), Some(101));
    assert_eq!(dispatcher.complete(second), None);
    assert_eq!(dispatcher.in_progress(), 0);
}

#[test]
fn handle_that_was_never_issued_completes_nothing() {
    let mut dispatcher: CommandDispatcher<u8, u8> = CommandDispatcher::new();
    assert_eq!(dispatcher.complete(0), None);
    assert_eq!(dispatcher.complete(u64::MAX), None);
    assert!(!dispatcher.is_pending(5));
    assert_eq!(dispatcher.next(), None);
}

#[test]
fn failed_work_is_completed_like_any_other() {
    let mut dispatcher: CommandDispatcher<&str, Vec<u8>> = CommandDispatcher::new();
    let handle = dispatcher.enqueue("will fail", vec![1]).ok().unwrap();
    let (taken, _) = dispatcher.next().unwrap();
    assert_eq!(taken, handle);
    let outcome: Result<(), ()> = Err(());
    let routine = dispatcher.complete(handle);
    assert!(outcome.is_err());
    assert_eq!(routine, Some(vec![1]));
    assert_eq!(dispatcher.complete(handle), None);
}

#[test]
fn answers_meet_their_routines_once() {
    let mut dispatcher: CommandDispatcher<&str, &str> = CommandDispatcher::new();
    let a = dispatcher.enqueue("get a", "routine a").ok().unwrap();
    let b = dispatcher.enqueue("get b", "routine b").ok().unwrap();
    let c = dispatcher.enqueue("get c", "routine c").ok().unwrap();
    dispatcher.next();
    dispatcher.next();
    let answers = vec![
        Completion { handle: b, result: Ok(vec![1, 2]) },
        Completion { handle: c, result: Ok(vec![3]) },
        Completion { handle: b, result: Err(CacheError::TransportFailure) },
        Completion { handle: a, result: Err(CacheError::StaleRequired) },
        Completion { handle: 99, result: Ok(vec![]) },
    ];
    let due = settle(&mut dispatcher, &answers);
    assert_eq!(due.len(), 2);
    assert_eq!(due[0].routine, "routine b");
    assert_eq!(due[0].result, Ok(vec![1, 2]));
    assert_eq!(due[1].routine, "routine a");
    assert_eq!(due[1].result, Err(CacheError::StaleRequired));
    assert!(dispatcher.is_pending(c));
    assert!(!dispatcher.is_pending(a));
    assert!(!dispatcher.is_pending(b));
    assert!(settle(&mut dispatcher, &answers).is_empty());
    dispatcher.attest();
}

#[test]
fn last_handle_is_never_issued() {
    let mut dispatcher: CommandDispatcher<&str, &str> = CommandDispatcher::starting_at(u64::MAX - 1);
    assert_eq!(dispatcher.enqueue("a", "ra").ok(), Some(u64::MAX - 1));
    match dispatcher.enqueue("b", "rb") {
        Err(refused) => {
            assert_eq!(refused.command, "b");
            assert_eq!(refused.completion, "rb");
        }
        Ok(_) => panic!("a handle was issued twice"),
    }
    assert_eq!(dispatcher.waiting(), 1);
    assert_eq!(dispatcher.next(), Some((u64::MAX - 1, "a")));
    assert_eq!(dispatcher.complete(u64::MAX - 1), Some("ra"));
}
