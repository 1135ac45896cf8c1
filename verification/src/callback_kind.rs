//! The arity adapter: mappings of zero to six arguments, and the three preset
//! conventions, behind one contract.

use crate::boundary::{identity, node_outcome, node_style, reject, Boundary};
use vstd::prelude::*;

verus! {

/// The largest number of arguments a handle takes.
pub const MAX_ARITY: usize = 6;

/// What stands behind a handle: a rule that takes the values the handle was
/// called with and gives the outcome of the bridge.
///
/// A mapping is used up by its one application.
pub trait Mapping<V>: Sized {
    /// The number of values the mapping takes.
    spec fn spec_arity(&self) -> nat;

    /// Whether the mapping may be applied to `args`.
    spec fn accepts(&self, args: Seq<V>) -> bool;

    /// Whether `out` is an outcome of applying the mapping to `args`.
    spec fn maps(&self, args: Seq<V>, out: Result<V, V>) -> bool;

    /// The number of values the mapping takes.
    fn arity(&self) -> (n: usize)
        ensures
            n == self.spec_arity(),
    ;

    /// Applies the mapping to the values a handle was called with.
    fn apply(self, args: Vec<V>) -> (out: Result<V, V>)
        requires
            self.accepts(args@),
        ensures
            self.maps(args@, out),
    ;
}

/// A mapping, tagged by the number of arguments it takes.
///
/// `Arg0` to `Arg6` hold a function of that many values. The last three are
/// the presets and hold nothing: `Identity` and `Reject` take one value and
/// give it back as `Ok` and as `Err`; `NodeStyle` takes `(err, data)` and
/// gives `Ok(data)` when `err` is the null or the undefined sentinel,
/// `Err(err)` otherwise.
pub enum CallbackKind<F0, F1, F2, F3, F4, F5, F6> {
    Arg0(F0),
    Arg1(F1),
    Arg2(F2),
    Arg3(F3),
    Arg4(F4),
    Arg5(F5),
    Arg6(F6),
    Identity,
    Reject,
    NodeStyle,
}

impl<F0, F1, F2, F3, F4, F5, F6> CallbackKind<F0, F1, F2, F3, F4, F5, F6> {
    /// The name of the variant, as `name` gives it.
    pub open spec fn spec_name(&self) -> Seq<char> {
        match self {
            CallbackKind::Arg0(_) => "CallbackKind::Arg0"@,
            CallbackKind::Arg1(_) => "CallbackKind::Arg1"@,
            CallbackKind::Arg2(_) => "CallbackKind::Arg2"@,
            CallbackKind::Arg3(_) => "CallbackKind::Arg3"@,
            CallbackKind::Arg4(_) => "CallbackKind::Arg4"@,
            CallbackKind::Arg5(_) => "CallbackKind::Arg5"@,
            CallbackKind::Arg6(_) => "CallbackKind::Arg6"@,
            CallbackKind::Identity => "CallbackKind::Identity"@,
            CallbackKind::Reject => "CallbackKind::Reject"@,
            CallbackKind::NodeStyle => "CallbackKind::NodeStyle"@,
        }
    }

    /// The name of the variant, for a log or a debugger. What a function
    /// variant holds cannot be shown and is left out.
    pub fn name(&self) -> (name: &'static str)
        ensures
            name@ == self.spec_name(),
    {
        match self {
            CallbackKind::Arg0(_) => "CallbackKind::Arg0",
            CallbackKind::Arg1(_) => "CallbackKind::Arg1",
            CallbackKind::Arg2(_) => "CallbackKind::Arg2",
            CallbackKind::Arg3(_) => "CallbackKind::Arg3",
            CallbackKind::Arg4(_) => "CallbackKind::Arg4",
            CallbackKind::Arg5(_) => "CallbackKind::Arg5",
            CallbackKind::Arg6(_) => "CallbackKind::Arg6",
            CallbackKind::Identity => "CallbackKind::Identity",
            CallbackKind::Reject => "CallbackKind::Reject",
            CallbackKind::NodeStyle => "CallbackKind::NodeStyle",
        }
    }
}

impl<V: Boundary, F0, F1, F2, F3, F4, F5, F6> Mapping<V> for CallbackKind<
    F0,
    F1,
    F2,
    F3,
    F4,
    F5,
    F6,
> where
    F0: FnOnce() -> Result<V, V>,
    F1: FnOnce(V) -> Result<V, V>,
    F2: FnOnce(V, V) -> Result<V, V>,
    F3: FnOnce(V, V, V) -> Result<V, V>,
    F4: FnOnce(V, V, V, V) -> Result<V, V>,
    F5: FnOnce(V, V, V, V, V) -> Result<V, V>,
    F6: FnOnce(V, V, V, V, V, V) -> Result<V, V>,
{
    open spec fn spec_arity(&self) -> nat {
        match self {
            CallbackKind::Arg0(_) => 0,
            CallbackKind::Arg1(_) => 1,
            CallbackKind::Arg2(_) => 2,
            CallbackKind::Arg3(_) => 3,
            CallbackKind::Arg4(_) => 4,
            CallbackKind::Arg5(_) => 5,
            CallbackKind::Arg6(_) => 6,
            CallbackKind::Identity => 1,
            CallbackKind::Reject => 1,
            CallbackKind::NodeStyle => 2,
        }
    }

    /// The right number of values, and for a function its own precondition.
    open spec fn accepts(&self, args: Seq<V>) -> bool {
        &&& args.len() == <Self as Mapping<V>>::spec_arity(self)
        &&& match self {
            CallbackKind::Arg0(f) => call_requires(*f, ()),
            CallbackKind::Arg1(f) => call_requires(*f, (args[0],)),
            CallbackKind::Arg2(f) => call_requires(*f, (args[0], args[1])),
            CallbackKind::Arg3(f) => call_requires(*f, (args[0], args[1], args[2])),
            CallbackKind::Arg4(f) => call_requires(*f, (args[0], args[1], args[2], args[3])),
            CallbackKind::Arg5(f) => call_requires(
                *f,
                (args[0], args[1], args[2], args[3], args[4]),
            ),
            CallbackKind::Arg6(f) => call_requires(
                *f,
                (args[0], args[1], args[2], args[3], args[4], args[5]),
            ),
            CallbackKind::Identity => true,
            CallbackKind::Reject => true,
            CallbackKind::NodeStyle => true,
        }
    }

    /// A function maps its arguments, in the order given, to whatever it
    /// returns on them; a preset maps them as its convention says.
    open spec fn maps(&self, args: Seq<V>, out: Result<V, V>) -> bool {
        match self {
            CallbackKind::Arg0(f) => call_ensures(*f, (), out),
            CallbackKind::Arg1(f) => call_ensures(*f, (args[0],), out),
            CallbackKind::Arg2(f) => call_ensures(*f, (args[0], args[1]), out),
            CallbackKind::Arg3(f) => call_ensures(*f, (args[0], args[1], args[2]), out),
            CallbackKind::Arg4(f) => call_ensures(*f, (args[0], args[1], args[2], args[3]), out),
            CallbackKind::Arg5(f) => call_ensures(
                *f,
                (args[0], args[1], args[2], args[3], args[4]),
                out,
            ),
            CallbackKind::Arg6(f) => call_ensures(
                *f,
                (args[0], args[1], args[2], args[3], args[4], args[5]),
                out,
            ),
            CallbackKind::Identity => out == Ok::<V, V>(args[0]),
            CallbackKind::Reject => out == Err::<V, V>(args[0]),
            CallbackKind::NodeStyle => out == node_outcome(args[0], args[1]),
        }
    }

    fn arity(&self) -> (n: usize) {
        match self {
            CallbackKind::Arg0(_) => 0,
            CallbackKind::Arg1(_) => 1,
            CallbackKind::Arg2(_) => 2,
            CallbackKind::Arg3(_) => 3,
            CallbackKind::Arg4(_) => 4,
            CallbackKind::Arg5(_) => 5,
            CallbackKind::Arg6(_) => 6,
            CallbackKind::Identity => 1,
            CallbackKind::Reject => 1,
            CallbackKind::NodeStyle => 2,
        }
    }

    fn apply(self, args: Vec<V>) -> (out: Result<V, V>) {
        let mut args = args;
        match self {
            CallbackKind::Arg0(f) => f(),
            CallbackKind::Arg1(f) => {
                let a0 = args.pop().unwrap();
                f(a0)
            },
            CallbackKind::Arg2(f) => {
                let a1 = args.pop().unwrap();
                let a0 = args.pop().unwrap();
                f(a0, a1)
            },
            CallbackKind::Arg3(f) => {
                let a2 = args.pop().unwrap();
                let a1 = args.pop().unwrap();
                let a0 = args.pop().unwrap();
                f(a0, a1, a2)
            },
            CallbackKind::Arg4(f) => {
                let a3 = args.pop().unwrap();
                let a2 = args.pop().unwrap();
                let a1 = args.pop().unwrap();
                let a0 = args.pop().unwrap();
                f(a0, a1, a2, a3)
            },
            CallbackKind::Arg5(f) => {
                let a4 = args.pop().unwrap();
                let a3 = args.pop().unwrap();
                let a2 = args.pop().unwrap();
                let a1 = args.pop().unwrap();
                let a0 = args.pop().unwrap();
                f(a0, a1, a2, a3, a4)
            },
            CallbackKind::Arg6(f) => {
                let a5 = args.pop().unwrap();
                let a4 = args.pop().unwrap();
                let a3 = args.pop().unwrap();
                let a2 = args.pop().unwrap();
                let a1 = args.pop().unwrap();
                let a0 = args.pop().unwrap();
                f(a0, a1, a2, a3, a4, a5)
            },
            CallbackKind::Identity => {
                let data = args.pop().unwrap();
                identity(data)
            },
            CallbackKind::Reject => {
                let err = args.pop().unwrap();
                reject(err)
            },
            CallbackKind::NodeStyle => {
                let data = args.pop().unwrap();
                let err = args.pop().unwrap();
                node_style(err, data)
            },
        }
    }
}

/// Every mapping of this kind takes at most [`MAX_ARITY`] values, and takes
/// them only in that number.
pub proof fn lemma_arity_bounded<V: Boundary, F0, F1, F2, F3, F4, F5, F6>(
    kind: CallbackKind<F0, F1, F2, F3, F4, F5, F6>,
    args: Seq<V>,
) where
    F0: FnOnce() -> Result<V, V>,
    F1: FnOnce(V) -> Result<V, V>,
    F2: FnOnce(V, V) -> Result<V, V>,
    F3: FnOnce(V, V, V) -> Result<V, V>,
    F4: FnOnce(V, V, V, V) -> Result<V, V>,
    F5: FnOnce(V, V, V, V, V) -> Result<V, V>,
    F6: FnOnce(V, V, V, V, V, V) -> Result<V, V>,

    ensures
        Mapping::<V>::spec_arity(&kind) <= MAX_ARITY,
        Mapping::<V>::accepts(&kind, args) ==> args.len() == Mapping::<V>::spec_arity(&kind),
{
}

} // verus!
