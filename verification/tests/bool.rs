use extension_traits::BoolExt;

#[test]
fn then_and_runs_the_mapper_only_on_true() {
    assert_eq!(true.then_and(|| Some(1)), Some(1));
    assert_eq!(true.then_and(|| Option::<i32>::None), None);
    let mut called = false;
    assert_eq!(
        false.then_and(|| {
            called = true;
            Some(1)
        }),
        None
    );
    assert!(!called);
}

#[test]
fn try_then_and_runs_the_mapper_only_on_true() {
    assert_eq!(true.try_then_and(|| Ok::<Option<i32>, String>(Some(1))), Ok(Some(1)));
    assert_eq!(true.try_then_and(|| Ok::<Option<i32>, String>(None)), Ok(None));
    assert_eq!(
        true.try_then_and(|| Err::<Option<i32>, String>("bad".to_owned())),
        Err("bad".to_owned())
    );
    assert_eq!(
        false.try_then_and(|| Err::<Option<i32>, String>("bad".to_owned())),
        Ok(None)
    );
}

#[test]
fn try_then_wraps_what_the_mapper_made() {
    assert_eq!(true.try_then(|| Ok::<i32, String>(1)), Ok(Some(1)));
    assert_eq!(true.try_then(|| Err::<i32, String>("bad".to_owned())), Err("bad".to_owned()));
    assert_eq!(false.try_then(|| Err::<i32, String>("bad".to_owned())), Ok(None));
}
