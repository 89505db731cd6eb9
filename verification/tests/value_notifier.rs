use std::cell::RefCell;
use std::rc::Rc;
use trailbase::value_notifier::ValueNotifier;

type Listener = Box<dyn Fn(&i32) -> bool>;

/// A listener that records each value it hears of and stays while the value is below
/// `limit`.
fn recorder(heard: Rc<RefCell<Vec<i32>>>, limit: i32) -> Listener {
    Box::new(move |value: &i32| {
        heard.borrow_mut().push(*value);
        *value < limit
    })
}

#[test]
fn test_value_notifier() {
    let mut v: ValueNotifier<i32, Listener> = ValueNotifier::new(42);
    assert_eq!(*v.load(), 42);
    v.store(23);
    assert_eq!(*v.load(), 23);
}

#[test]
fn listeners_hear_each_value_until_they_decline() {
    let short = Rc::new(RefCell::new(Vec::new()));
    let long = Rc::new(RefCell::new(Vec::new()));
    let mut v: ValueNotifier<i32, Listener> = ValueNotifier::new(0);
    v.listen(recorder(short.clone(), 2));
    v.listen(recorder(long.clone(), 100));
    assert_eq!(v.num_listeners(), 2);
    v.store(1);
    v.store(5);
    assert_eq!(v.num_listeners(), 1);
    v.store(7);
    assert_eq!(*v.load(), 7);
    assert_eq!(*short.borrow(), vec![1, 5]);
    assert_eq!(*long.borrow(), vec![1, 5, 7]);
}

#[test]
fn a_listener_that_declines_at_once_hears_one_value() {
    let heard = Rc::new(RefCell::new(Vec::new()));
    let mut v: ValueNotifier<i32, Listener> = ValueNotifier::new(0);
    v.listen(recorder(heard.clone(), 0));
    v.store(3);
    v.store(4);
    assert_eq!(v.num_listeners(), 0);
    assert_eq!(*heard.borrow(), vec![3]);
}
