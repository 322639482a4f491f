use lazy_async_promise::{BoxedSendError, DirectCacheAccess, ImmediateValueState, Progress};

#[test]
fn from_percent_clamps_and_scales() {
    assert_eq!(Progress::from_percent(-40).percent(), 0);
    assert_eq!(Progress::from_percent(0).percent(), 0);
    assert_eq!(Progress::from_percent(1).percent(), 1);
    assert_eq!(Progress::from_percent(37).percent(), 37);
    assert_eq!(Progress::from_percent(99).percent(), 99);
    assert_eq!(Progress::from_percent(100).percent(), 100);
    assert_eq!(Progress::from_percent(250).percent(), 100);
    assert_eq!(Progress::from_percent(i64::MIN).percent(), 0);
    assert_eq!(Progress::from_percent(i64::MAX).percent(), 100);
    assert_eq!(Progress::default().percent(), 0);
    assert_eq!(Progress::from_percent(0), Progress::default());
}

#[test]
fn from_percent_is_monotonic() {
    let mut last = 0;
    for x in -10..=110i64 {
        let p = Progress::from_percent(x).percent();
        assert!(p >= last);
        last = p;
    }
}

#[test]
fn complete_only_moves_an_updating_state() {
    let mut s: ImmediateValueState<i32> = ImmediateValueState::Updating;
    s.complete(Ok(34));
    assert!(matches!(s, ImmediateValueState::Success(34)));
    s.complete(Ok(1));
    assert!(matches!(s, ImmediateValueState::Success(34)));
    s.complete(Err(BoxedSendError::new("late".to_string())));
    assert!(matches!(s, ImmediateValueState::Success(34)));

    let mut f: ImmediateValueState<i32> = ImmediateValueState::Updating;
    f.complete(Err(BoxedSendError::new("bad".to_string())));
    match &f {
        ImmediateValueState::Error(e) => assert_eq!(e.description(), "bad"),
        _ => unreachable!(),
    }

    let mut e: ImmediateValueState<i32> = ImmediateValueState::Empty;
    e.complete(Ok(3));
    assert!(matches!(e, ImmediateValueState::Empty));
}

#[test]
fn take_value_succeeds_once() {
    let mut s: ImmediateValueState<i32> = ImmediateValueState::Success(34);
    assert_eq!(s.take_value(), Some(34));
    assert_eq!(s.take_value(), None);
    assert!(s.get_value().is_none());
    assert!(s.get_result().is_none());
    assert!(matches!(s, ImmediateValueState::Empty));
}

#[test]
fn mutation_through_get_value_mut_is_visible() {
    let mut s: ImmediateValueState<i32> = ImmediateValueState::Success(34);
    *s.get_value_mut().unwrap() = 33;
    assert_eq!(s.get_value(), Some(&33));
    assert!(matches!(s.get_result(), Some(Ok(33))));
    let mut u: ImmediateValueState<i32> = ImmediateValueState::Updating;
    assert!(u.get_value_mut().is_none());
}

#[test]
fn take_value_leaves_an_error_in_place() {
    let mut s: ImmediateValueState<i32> =
        ImmediateValueState::Error(BoxedSendError::new("no".to_string()));
    assert_eq!(s.take_value(), None);
    assert!(matches!(s, ImmediateValueState::Error(_)));
    match s.take_result() {
        Some(Err(e)) => assert_eq!(e.description(), "no"),
        _ => unreachable!(),
    }
    assert!(s.take_result().is_none());
}

#[test]
fn take_result_on_success_and_on_updating() {
    let mut s: ImmediateValueState<&str> = ImmediateValueState::Success("v");
    assert!(matches!(s.take_result(), Some(Ok("v"))));
    assert!(s.take_result().is_none());
    let mut u: ImmediateValueState<&str> = ImmediateValueState::Updating;
    assert!(u.take_result().is_none());
    assert!(matches!(u, ImmediateValueState::Updating));
}
