use js_function_promisify::{
    notify, Boundary, Callback, CallbackFuture, CallbackInner, CallbackKind, CallbackPair,
    CallbackPairInner, CallbackWrapper, ClosureKind, Phase, Polled, PromiseWrapper, Side,
};
use std::rc::Rc;
use std::sync::{Arc, Mutex};
use std::task::{Wake, Waker};

#[derive(Debug, Clone, PartialEq)]
enum Val {
    Null,
    Undefined,
    Num(i64),
    Text(String),
}

impl Boundary for Val {
    fn spec_is_null(&self) -> bool {
        matches!(self, Val::Null)
    }

    fn spec_is_undefined(&self) -> bool {
        matches!(self, Val::Undefined)
    }

    fn is_null(&self) -> bool {
        matches!(self, Val::Null)
    }

    fn is_undefined(&self) -> bool {
        matches!(self, Val::Undefined)
    }
}

type Out = Result<Val, Val>;
type Kind = CallbackKind<
    Box<dyn FnOnce() -> Out>,
    Box<dyn FnOnce(Val) -> Out>,
    Box<dyn FnOnce(Val, Val) -> Out>,
    Box<dyn FnOnce(Val, Val, Val) -> Out>,
    Box<dyn FnOnce(Val, Val, Val, Val) -> Out>,
    Box<dyn FnOnce(Val, Val, Val, Val, Val) -> Out>,
    Box<dyn FnOnce(Val, Val, Val, Val, Val, Val) -> Out>,
>;

/// Stands for a foreign callable.
#[derive(Debug, PartialEq)]
struct Token(&'static str);

type Tokens = ClosureKind<Token, Token, Token, Token, Token, Token, Token>;

struct Counter {
    wakes: Mutex<usize>,
}

impl Wake for Counter {
    fn wake(self: Arc<Self>) {
        *self.wakes.lock().unwrap() += 1;
    }
}

fn counter() -> (Arc<Counter>, Waker) {
    let counter = Arc::new(Counter { wakes: Mutex::new(0) });
    let waker = Waker::from(Arc::clone(&counter));
    (counter, waker)
}

fn wakes(counter: &Arc<Counter>) -> usize {
    *counter.wakes.lock().unwrap()
}

fn waker() -> Waker {
    counter().1
}

fn text(s: &str) -> Val {
    Val::Text(s.to_string())
}

fn nums(n: i64) -> Vec<Val> {
    (1..=n).map(Val::Num).collect()
}

fn total(values: &[Val]) -> Val {
    Val::Num(
        values
            .iter()
            .map(|v| match v {
                Val::Num(n) => *n,
                _ => 0,
            })
            .sum(),
    )
}

fn kind_of(arity: usize, ok: bool) -> Kind {
    fn wrap(ok: bool, v: Val) -> Out {
        if ok {
            Ok(v)
        } else {
            Err(v)
        }
    }
    match arity {
        0 => CallbackKind::Arg0(Box::new(move || wrap(ok, total(&[])))),
        1 => CallbackKind::Arg1(Box::new(move |a| wrap(ok, total(&[a])))),
        2 => CallbackKind::Arg2(Box::new(move |a, b| wrap(ok, total(&[a, b])))),
        3 => CallbackKind::Arg3(Box::new(move |a, b, c| wrap(ok, total(&[a, b, c])))),
        4 => CallbackKind::Arg4(Box::new(move |a, b, c, d| wrap(ok, total(&[a, b, c, d])))),
        5 => CallbackKind::Arg5(Box::new(move |a, b, c, d, e| wrap(ok, total(&[a, b, c, d, e])))),
        _ => CallbackKind::Arg6(Box::new(move |a, b, c, d, e, f| {
            wrap(ok, total(&[a, b, c, d, e, f]))
        })),
    }
}

fn triangle(n: i64) -> Val {
    Val::Num(n * (n + 1) / 2)
}

#[test]
fn inner_starts_armed_and_bare() {
    let inner: CallbackInner<Val, Kind, Token> = CallbackInner::new(CallbackKind::Identity);
    assert_eq!(inner.phase(), Phase::Armed);
    assert!(inner.is_armed());
}

#[test]
fn inner_finish_delivers_and_releases() {
    let mut inner: CallbackInner<Val, Kind, Token> = CallbackInner::new(CallbackKind::Identity);
    assert!(inner.finish(Ok(text("done"))).is_none());
    assert_eq!(inner.phase(), Phase::Fired);
    assert!(!inner.is_armed());
}

#[test]
fn callback_finish_delivers_as_given() {
    let mut callback: Callback<Val, Kind, Token> = Callback::new(kind_of(3, true));
    assert!(callback.attach(Rc::new(Token("cb"))));
    let observer = Rc::downgrade(&callback.as_closure());
    assert!(observer.upgrade().is_some());
    let (count, task) = counter();
    assert_eq!(callback.poll(task), Polled::Pending);
    notify(callback.finish(Err(text("given"))));
    assert_eq!(wakes(&count), 1);
    assert_eq!(callback.phase(), Phase::Fired);
    assert!(!callback.is_armed());
    assert!(!callback.has_handle());
    assert!(observer.upgrade().is_none());
    assert_eq!(callback.poll(waker()), Polled::Ready(Err(text("given"))));
    assert_eq!(callback.phase(), Phase::Observed);
    assert!(!callback.is_armed());
}

#[test]
fn fires_with_any_args_ok() {
    for arity in 0..=6usize {
        let mut callback: Callback<Val, Kind, Token> = Callback::new(kind_of(arity, true));
        assert_eq!(callback.arity(), arity);
        assert_eq!(callback.poll(waker()), Polled::Pending);
        let _ = callback.fire(nums(arity as i64));
        assert_eq!(callback.poll(waker()), Polled::Ready(Ok(triangle(arity as i64))));
    }
}

#[test]
fn fires_with_any_args_err() {
    for arity in 0..=6usize {
        let mut callback: Callback<Val, Kind, Token> = Callback::new(kind_of(arity, false));
        assert_eq!(callback.arity(), arity);
        let _ = callback.fire(nums(arity as i64));
        assert_eq!(callback.poll(waker()), Polled::Ready(Err(triangle(arity as i64))));
    }
}

#[test]
fn callback_fires_once() {
    let mut callback: Callback<Val, Kind, Token> = Callback::new(kind_of(1, true));
    assert!(callback.is_armed());
    let _ = callback.fire(nums(1));
    assert!(!callback.is_armed());
    assert_eq!(callback.phase(), Phase::Fired);
    assert_eq!(callback.poll(waker()), Polled::Ready(Ok(Val::Num(1))));
    assert!(!callback.is_armed());
    assert_eq!(callback.phase(), Phase::Observed);
}

#[test]
fn callback_wakes_the_waiting_task() {
    let mut callback: Callback<Val, Kind, Token> = Callback::new(kind_of(0, true));
    let (count, task) = counter();
    assert_eq!(callback.poll(task), Polled::Pending);
    assert_eq!(wakes(&count), 0);
    notify(callback.fire(vec![]));
    assert_eq!(wakes(&count), 1);
}

#[test]
fn callback_fired_before_any_poll() {
    let mut callback: Callback<Val, Kind, Token> = Callback::new(kind_of(2, false));
    assert!(callback.fire(nums(2)).is_none());
    assert_eq!(callback.poll(waker()), Polled::Ready(Err(Val::Num(3))));
}

#[test]
fn closure_dropped_after_await() {
    let mut callback: Callback<Val, Kind, Token> = Callback::default();
    assert!(!callback.has_handle());
    assert!(callback.attach(Rc::new(Token("resolve"))));
    assert!(callback.has_handle());
    let observer = {
        let weak = Rc::downgrade(&callback.as_closure());
        assert!(weak.upgrade().is_some());
        weak
    };
    assert_eq!(callback.poll(waker()), Polled::Pending);
    assert!(observer.upgrade().is_some());
    notify(callback.fire(vec![text("value")]));
    assert!(!callback.has_handle());
    assert!(observer.upgrade().is_none());
    assert_eq!(callback.poll(waker()), Polled::Ready(Ok(text("value"))));
    assert!(observer.upgrade().is_none());
}

#[test]
fn shared_closure_outlives_the_bridge_only_while_shared() {
    let mut callback: Callback<Val, Kind, Token> = Callback::default();
    assert!(callback.attach(Rc::new(Token("resolve"))));
    let shared = callback.as_closure();
    assert_eq!(*shared, Token("resolve"));
    let observer = Rc::downgrade(&shared);
    let _ = callback.fire(vec![Val::Null]);
    assert!(observer.upgrade().is_some());
    drop(shared);
    assert!(observer.upgrade().is_none());
}

#[test]
fn attach_after_firing_is_refused() {
    let mut callback: Callback<Val, Kind, Token> = Callback::default();
    let _ = callback.fire(vec![Val::Null]);
    let late = Rc::new(Token("late"));
    let observer = Rc::downgrade(&late);
    assert!(!callback.attach(late));
    assert!(!callback.has_handle());
    assert!(observer.upgrade().is_none());

    let mut pair: CallbackPair<Val, Kind, Kind, Token, Token> = CallbackPair::default();
    let _ = pair.fire(Side::Left, vec![Val::Null]);
    assert!(!pair.attach(Rc::new((Token("l"), Token("r")))));
    assert!(!pair.has_handles());

    let mut promise: PromiseWrapper<Val, Kind, Kind, Token> = PromiseWrapper::new();
    let _ = promise.reject(Val::Null);
    assert!(!promise.attach_resolve(Rc::new(Token("resolve"))));
    assert!(!promise.attach_reject(Rc::new(Token("reject"))));
    assert!(!promise.has_resolve_closure());
    assert!(!promise.has_reject_closure());

    let mut future: CallbackFuture<Val, Kind, Token> = CallbackFuture::new();
    assert!(!future.attach(0, Rc::new(Token("none"))));
    let slot = future.get().unwrap();
    assert!(!future.attach(slot + 1, Rc::new(Token("beyond"))));
    let _ = future.fire(slot, vec![Val::Null]);
    assert!(!future.attach(slot, Rc::new(Token("late"))));
    assert!(!future.has_closure(slot));
}

#[test]
fn wrapper_takes_only_a_closure_of_its_arity() {
    let mut wrapper: CallbackWrapper<Val, Kind, Tokens> = CallbackWrapper::new_node();
    assert!(!wrapper.attach(Rc::new(ClosureKind::Arg1(Token("one")))));
    assert!(!wrapper.has_closure());
    assert!(wrapper.attach(Rc::new(ClosureKind::Arg2(Token("two")))));
    assert_eq!(wrapper.get_closure().arity(), 2);
    assert!(!wrapper.attach(Rc::new(ClosureKind::Arg3(Token("three")))));
    assert_eq!(wrapper.get_closure().arity(), 2);
    let _ = wrapper.fire(vec![Val::Null, Val::Num(1)]);
    assert!(!wrapper.attach(Rc::new(ClosureKind::Arg2(Token("late")))));
    assert!(!wrapper.has_closure());
}

#[test]
fn default_callback_is_identity() {
    let mut callback: Callback<Val, Kind, Token> = Callback::default();
    assert_eq!(callback.arity(), 1);
    let _ = callback.fire(vec![text("data")]);
    assert_eq!(callback.poll(waker()), Polled::Ready(Ok(text("data"))));
}

#[test]
fn node_callback_ok_if_arg0_null() {
    let mut callback: Callback<Val, Kind, Token> = Callback::default_node();
    assert_eq!(callback.arity(), 2);
    let _ = callback.fire(vec![Val::Null, text("success")]);
    assert_eq!(callback.poll(waker()), Polled::Ready(Ok(text("success"))));
}

#[test]
fn node_callback_ok_if_arg0_undefined() {
    let mut callback: Callback<Val, Kind, Token> = Callback::default_node();
    let _ = callback.fire(vec![Val::Undefined, text("success")]);
    assert_eq!(callback.poll(waker()), Polled::Ready(Ok(text("success"))));
}

#[test]
fn node_callback_err_if_arg0_defined() {
    let mut callback: Callback<Val, Kind, Token> = Callback::default_node();
    let _ = callback.fire(vec![text("failure"), text("success")]);
    assert_eq!(callback.poll(waker()), Polled::Ready(Err(text("failure"))));
}

#[test]
fn pair_inner_finish_releases_both() {
    let mut inner: CallbackPairInner<Val, Kind, Kind, Token, Token> =
        CallbackPairInner::new(CallbackKind::Identity, CallbackKind::Reject);
    assert!(inner.is_armed());
    assert_eq!(inner.phase(), Phase::Armed);
    let task = inner.finish(Err(text("given")));
    assert!(task.is_none());
    assert!(!inner.is_armed());
    assert_eq!(inner.phase(), Phase::Fired);
}

#[test]
fn pair_with_any_args() {
    for left in 0..=6usize {
        for right in 0..=6usize {
            let mut pair: CallbackPair<Val, Kind, Kind, Token, Token> =
                CallbackPair::new(kind_of(left, true), kind_of(right, false));
            assert_eq!(pair.arity(Side::Left), left);
            assert_eq!(pair.arity(Side::Right), right);
            let _ = pair.fire(Side::Left, nums(left as i64));
            assert_eq!(pair.poll(waker()), Polled::Ready(Ok(triangle(left as i64))));

            let mut pair: CallbackPair<Val, Kind, Kind, Token, Token> =
                CallbackPair::new(kind_of(left, true), kind_of(right, false));
            let _ = pair.fire(Side::Right, nums(right as i64));
            assert_eq!(pair.poll(waker()), Polled::Ready(Err(triangle(right as i64))));
        }
    }
}

#[test]
fn new_promise_left_resolve() {
    let mut pair: CallbackPair<Val, Kind, Kind, Token, Token> = CallbackPair::default();
    let (count, task) = counter();
    assert_eq!(pair.poll(task), Polled::Pending);
    notify(pair.fire(Side::Left, vec![Val::Undefined]));
    assert_eq!(wakes(&count), 1);
    assert_eq!(pair.poll(waker()), Polled::Ready(Ok(Val::Undefined)));
}

#[test]
fn new_promise_right_reject() {
    let mut pair: CallbackPair<Val, Kind, Kind, Token, Token> = CallbackPair::default();
    let (count, task) = counter();
    assert_eq!(pair.poll(task), Polled::Pending);
    notify(pair.fire(Side::Right, vec![Val::Undefined]));
    assert_eq!(wakes(&count), 1);
    assert_eq!(pair.poll(waker()), Polled::Ready(Err(Val::Undefined)));
}

#[test]
fn pair_closures_dropped_after_await() {
    let mut pair: CallbackPair<Val, Kind, Kind, Token, Token> =
        CallbackPair::new(kind_of(0, true), kind_of(0, false));
    assert!(!pair.has_handles());
    assert!(pair.attach(Rc::new((Token("resolve"), Token("reject")))));
    assert!(pair.has_handles());
    let observer = {
        let closures = pair.as_closures();
        assert_eq!(closures.0, Token("resolve"));
        assert_eq!(closures.1, Token("reject"));
        Rc::downgrade(&closures)
    };
    assert!(observer.upgrade().is_some());
    let _ = pair.fire(Side::Left, vec![]);
    assert!(!pair.has_handles());
    assert!(!pair.is_armed());
    assert!(observer.upgrade().is_none());
    assert_eq!(pair.poll(waker()), Polled::Ready(Ok(Val::Num(0))));
}

#[test]
fn pair_fires_once() {
    let mut pair: CallbackPair<Val, Kind, Kind, Token, Token> = CallbackPair::default();
    assert!(pair.is_armed());
    let _ = pair.fire(Side::Right, vec![text("first")]);
    assert!(!pair.is_armed());
    assert_eq!(pair.phase(), Phase::Fired);
    assert_eq!(pair.poll(waker()), Polled::Ready(Err(text("first"))));
    assert!(!pair.is_armed());
}

#[test]
fn wrapper_is_identity() {
    let mut wrapper: CallbackWrapper<Val, Kind, Tokens> = CallbackWrapper::new();
    assert_eq!(wrapper.arity(), 1);
    assert_eq!(wrapper.poll(waker()), Polled::Pending);
    let _ = wrapper.fire(vec![text("data")]);
    assert_eq!(wrapper.poll(waker()), Polled::Ready(Ok(text("data"))));
}

#[test]
fn wrapper_node_convention() {
    let mut wrapper: CallbackWrapper<Val, Kind, Tokens> = CallbackWrapper::new_node();
    assert_eq!(wrapper.arity(), 2);
    let _ = wrapper.fire(vec![Val::Null, text("data")]);
    assert_eq!(wrapper.poll(waker()), Polled::Ready(Ok(text("data"))));

    let mut wrapper: CallbackWrapper<Val, Kind, Tokens> = CallbackWrapper::new_node();
    let _ = wrapper.fire(vec![Val::Undefined, text("data")]);
    assert_eq!(wrapper.poll(waker()), Polled::Ready(Ok(text("data"))));

    let mut wrapper: CallbackWrapper<Val, Kind, Tokens> = CallbackWrapper::new_node();
    let _ = wrapper.fire(vec![Val::Num(0), text("data")]);
    assert_eq!(wrapper.poll(waker()), Polled::Ready(Err(Val::Num(0))));
}

#[test]
fn wrapper_from_any_kind() {
    for arity in 0..=6usize {
        let mut wrapper: CallbackWrapper<Val, Kind, Tokens> =
            CallbackWrapper::from(kind_of(arity, arity % 2 == 0));
        assert_eq!(wrapper.arity(), arity);
        let closure: Tokens = match arity {
            0 => ClosureKind::Arg0(Token("0")),
            1 => ClosureKind::Arg1(Token("1")),
            2 => ClosureKind::Arg2(Token("2")),
            3 => ClosureKind::Arg3(Token("3")),
            4 => ClosureKind::Arg4(Token("4")),
            5 => ClosureKind::Arg5(Token("5")),
            _ => ClosureKind::Arg6(Token("6")),
        };
        assert_eq!(closure.arity(), wrapper.arity());
        assert!(wrapper.attach(Rc::new(closure)));
        assert!(wrapper.has_closure());
        let observer = Rc::downgrade(&wrapper.get_closure());
        assert_eq!(observer.upgrade().unwrap().arity(), arity);
        let _ = wrapper.fire(nums(arity as i64));
        assert!(!wrapper.has_closure());
        assert!(!wrapper.is_armed());
        assert!(observer.upgrade().is_none());
        let expected = if arity % 2 == 0 {
            Ok(triangle(arity as i64))
        } else {
            Err(triangle(arity as i64))
        };
        assert_eq!(wrapper.poll(waker()), Polled::Ready(expected));
        assert_eq!(wrapper.phase(), Phase::Observed);
    }
}

#[test]
fn wrapper_finish_delivers_as_given() {
    let mut wrapper: CallbackWrapper<Val, Kind, Tokens> = CallbackWrapper::new();
    assert!(wrapper.attach(Rc::new(ClosureKind::Arg1(Token("cb")))));
    let observer = Rc::downgrade(&wrapper.get_closure());
    let (count, task) = counter();
    assert_eq!(wrapper.poll(task), Polled::Pending);
    notify(wrapper.finish(Err(text("given"))));
    assert_eq!(wakes(&count), 1);
    assert!(observer.upgrade().is_none());
    assert_eq!(wrapper.poll(waker()), Polled::Ready(Err(text("given"))));
}

#[test]
fn promise_resolves() {
    let mut promise: PromiseWrapper<Val, Kind, Kind, Token> = PromiseWrapper::new();
    assert!(promise.is_armed());
    assert_eq!(promise.poll(waker()), Polled::Pending);
    let _ = promise.resolve(text("value"));
    assert!(!promise.is_armed());
    assert_eq!(promise.phase(), Phase::Fired);
    assert_eq!(promise.poll(waker()), Polled::Ready(Ok(text("value"))));
    assert_eq!(promise.phase(), Phase::Observed);
}

#[test]
fn promise_rejects() {
    let mut promise: PromiseWrapper<Val, Kind, Kind, Token> = PromiseWrapper::new();
    let (count, task) = counter();
    assert_eq!(promise.poll(task), Polled::Pending);
    notify(promise.reject(text("reason")));
    assert_eq!(wakes(&count), 1);
    assert_eq!(promise.poll(waker()), Polled::Ready(Err(text("reason"))));
}

#[test]
fn promise_from_own_mappings() {
    let doubled: Kind = CallbackKind::Arg1(Box::new(|v| match v {
        Val::Num(n) => Ok(Val::Num(2 * n)),
        other => Err(other),
    }));
    let mut promise: PromiseWrapper<Val, Kind, Kind, Token> =
        PromiseWrapper::from(doubled, kind_of(1, true));
    let _ = promise.resolve(Val::Num(21));
    assert_eq!(promise.poll(waker()), Polled::Ready(Ok(Val::Num(42))));

    let mut promise: PromiseWrapper<Val, Kind, Kind, Token> =
        PromiseWrapper::from(kind_of(1, false), kind_of(1, true));
    let _ = promise.reject(Val::Num(5));
    assert_eq!(promise.poll(waker()), Polled::Ready(Ok(Val::Num(5))));
}

#[test]
fn promise_releases_both_closures() {
    let mut promise: PromiseWrapper<Val, Kind, Kind, Token> = PromiseWrapper::new();
    assert!(!promise.has_resolve_closure());
    assert!(!promise.has_reject_closure());
    assert!(promise.attach_resolve(Rc::new(Token("resolve"))));
    assert!(promise.attach_reject(Rc::new(Token("reject"))));
    assert!(promise.has_resolve_closure());
    assert!(promise.has_reject_closure());
    assert_eq!(*promise.get_resolve_closure(), Token("resolve"));
    assert_eq!(*promise.get_reject_closure(), Token("reject"));
    let resolve = Rc::downgrade(&promise.get_resolve_closure());
    let reject = Rc::downgrade(&promise.get_reject_closure());
    assert!(resolve.upgrade().is_some());
    assert!(reject.upgrade().is_some());
    let _ = promise.resolve(Val::Null);
    assert!(resolve.upgrade().is_none());
    assert!(reject.upgrade().is_none());
    assert!(!promise.has_resolve_closure());
    assert!(!promise.has_reject_closure());
}

#[test]
fn promise_finish_delivers_as_given() {
    let mut promise: PromiseWrapper<Val, Kind, Kind, Token> = PromiseWrapper::new();
    assert!(promise.attach_reject(Rc::new(Token("reject"))));
    let reject = Rc::downgrade(&promise.get_reject_closure());
    let _ = promise.finish(Ok(text("given")));
    assert!(reject.upgrade().is_none());
    assert_eq!(promise.poll(waker()), Polled::Ready(Ok(text("given"))));
}

#[test]
fn future_starts_without_handles() {
    let future: CallbackFuture<Val, Kind, Token> = CallbackFuture::new();
    assert!(future.is_armed());
    assert_eq!(future.len(), 0);
    assert!(!future.has_closure(0));
}

#[test]
fn future_hands_out_slots_in_order() {
    let mut future: CallbackFuture<Val, Kind, Token> = CallbackFuture::new();
    assert_eq!(future.get_arg0(Box::new(|| Ok(Val::Null))), Some(0));
    assert_eq!(future.get_arg1(Box::new(|a| Ok(a))), Some(1));
    assert_eq!(future.get_arg2(Box::new(|a, _| Ok(a))), Some(2));
    assert_eq!(future.get_arg3(Box::new(|a, _, _| Ok(a))), Some(3));
    assert_eq!(future.get_arg4(Box::new(|a, _, _, _| Ok(a))), Some(4));
    assert_eq!(future.get_arg5(Box::new(|a, _, _, _, _| Ok(a))), Some(5));
    assert_eq!(future.get_arg6(Box::new(|a, _, _, _, _, _| Ok(a))), Some(6));
    assert_eq!(future.get(), Some(7));
    assert_eq!(future.get_resolve(), Some(8));
    assert_eq!(future.get_reject(), Some(9));
    assert_eq!(future.get_node(), Some(10));
    assert_eq!(future.register(CallbackKind::Reject), Some(11));
    assert_eq!(future.len(), 12);
    let arities: Vec<usize> = (0..12).map(|slot| future.arity(slot)).collect();
    assert_eq!(arities, vec![0, 1, 2, 3, 4, 5, 6, 1, 1, 1, 2, 1]);
}

#[test]
fn future_fires_the_slot_that_was_called() {
    for fired in 0..4usize {
        let mut future: CallbackFuture<Val, Kind, Token> = CallbackFuture::new();
        assert_eq!(future.get(), Some(0));
        assert_eq!(future.get_reject(), Some(1));
        assert_eq!(future.get_node(), Some(2));
        assert_eq!(future.get_arg3(Box::new(|a, b, c| Ok(total(&[a, b, c])))), Some(3));
        let (args, expected) = match fired {
            0 => (vec![text("v")], Ok(text("v"))),
            1 => (vec![text("v")], Err(text("v"))),
            2 => (vec![Val::Undefined, text("d")], Ok(text("d"))),
            _ => (nums(3), Ok(Val::Num(6))),
        };
        let (count, task) = counter();
        assert_eq!(future.poll(task), Polled::Pending);
        notify(future.fire(fired, args));
        assert_eq!(wakes(&count), 1);
        assert_eq!(future.len(), 0);
        assert!(!future.is_armed());
        assert_eq!(future.poll(waker()), Polled::Ready(expected));
    }
}

#[test]
fn future_node_handle_err_if_arg0_defined() {
    let mut future: CallbackFuture<Val, Kind, Token> = CallbackFuture::new();
    let slot = future.get_node().unwrap();
    let _ = future.fire(slot, vec![text("failure"), text("success")]);
    assert_eq!(future.poll(waker()), Polled::Ready(Err(text("failure"))));
}

#[test]
fn future_releases_every_closure() {
    let mut future: CallbackFuture<Val, Kind, Token> = CallbackFuture::new();
    let resolve = future.get_resolve().unwrap();
    let reject = future.get_reject().unwrap();
    let bare = future.get().unwrap();
    assert!(future.attach(resolve, Rc::new(Token("resolve"))));
    assert!(future.attach(reject, Rc::new(Token("reject"))));
    assert!(future.has_closure(resolve));
    assert!(future.has_closure(reject));
    assert!(!future.has_closure(bare));
    assert_eq!(future.len(), 3);
    assert_eq!(future.arity(resolve), 1);
    assert_eq!(*future.as_closure(resolve), Token("resolve"));
    assert_eq!(*future.as_closure(reject), Token("reject"));
    let observers = vec![
        Rc::downgrade(&future.as_closure(resolve)),
        Rc::downgrade(&future.as_closure(reject)),
    ];
    assert!(observers.iter().all(|o| o.upgrade().is_some()));
    let _ = future.fire(reject, vec![text("no")]);
    assert!(observers.iter().all(|o| o.upgrade().is_none()));
    assert!(!future.has_closure(resolve));
    assert_eq!(future.poll(waker()), Polled::Ready(Err(text("no"))));
}

#[test]
fn future_hands_out_nothing_after_it_fired() {
    let mut future: CallbackFuture<Val, Kind, Token> = CallbackFuture::new();
    let slot = future.get().unwrap();
    let _ = future.fire(slot, vec![Val::Num(1)]);
    assert_eq!(future.get(), None);
    assert_eq!(future.get_resolve(), None);
    assert_eq!(future.get_reject(), None);
    assert_eq!(future.get_node(), None);
    assert_eq!(future.get_arg0(Box::new(|| Ok(Val::Null))), None);
    assert_eq!(future.register(CallbackKind::Identity), None);
    assert_eq!(future.len(), 0);
    assert_eq!(future.poll(waker()), Polled::Ready(Ok(Val::Num(1))));
    assert_eq!(future.get(), None);
    assert_eq!(future.phase(), Phase::Observed);
}

#[test]
fn future_finish_delivers_as_given() {
    let mut future: CallbackFuture<Val, Kind, Token> = CallbackFuture::new();
    let slot = future.get_node().unwrap();
    assert!(future.attach(slot, Rc::new(Token("node"))));
    let observer = Rc::downgrade(&future.as_closure(slot));
    let _ = future.finish(Ok(text("given")));
    assert!(observer.upgrade().is_none());
    assert_eq!(future.len(), 0);
    assert_eq!(future.poll(waker()), Polled::Ready(Ok(text("given"))));
}

#[test]
fn future_attach_replaces_the_closure_of_its_slot_only() {
    let mut future: CallbackFuture<Val, Kind, Token> = CallbackFuture::new();
    let a = future.get().unwrap();
    let b = future.get_reject().unwrap();
    assert!(future.attach(a, Rc::new(Token("a"))));
    assert!(future.attach(b, Rc::new(Token("b"))));
    assert!(future.attach(a, Rc::new(Token("a2"))));
    assert_eq!(*future.as_closure(a), Token("a2"));
    assert_eq!(*future.as_closure(b), Token("b"));
    assert_eq!(future.arity(a), 1);
    let _ = future.fire(b, vec![text("x")]);
    assert_eq!(future.poll(waker()), Polled::Ready(Err(text("x"))));
}
