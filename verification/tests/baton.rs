use test_napi::{execute, AsyncWork, Baton, Fault, Reference};

fn baton(called: bool, func: usize) -> Baton {
    Baton { called, func: Reference { addr: func }, task: AsyncWork { addr: 0x30 } }
}

#[test]
fn execute_marks_the_baton_called() {
    let mut b = baton(false, 0x20);
    assert_eq!(execute(&mut b), Ok(()));
    assert_eq!(b, baton(true, 0x20));
}

#[test]
fn execute_refuses_a_second_run() {
    let mut b = baton(false, 0x20);
    assert_eq!(execute(&mut b), Ok(()));
    assert_eq!(execute(&mut b), Err(Fault::AlreadyCalled));
    assert_eq!(b, baton(true, 0x20));
}

#[test]
fn execute_refuses_a_null_function() {
    let mut b = baton(false, 0);
    assert_eq!(execute(&mut b), Err(Fault::NullFunction));
    assert_eq!(b, baton(false, 0));
}

#[test]
fn execute_looks_at_called_before_the_function() {
    let mut b = baton(true, 0);
    assert_eq!(execute(&mut b), Err(Fault::AlreadyCalled));
}
