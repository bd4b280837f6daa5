//! Small additions to `Option` and `Result`.

use vstd::prelude::*;

verus! {

pub trait OptionFromPredicate<T> {
    /// What `f` gives if the predicate holds, `None` otherwise.
    fn from_predicate<F>(predicate: bool, f: F) -> (made: Option<T>) where F: FnOnce() -> Option<T>
        requires
            predicate ==> f.requires(()),
        ensures
            predicate ==> f.ensures((), made),
            !predicate ==> made is None,
    ;
}

pub trait PeekOption<T>: Sized {
    /// The value that `peek` shows, if there is one.
    spec fn shown(&self) -> Option<T>;

    /// Shows the value inside, if there is one, to `f`, and hands back
    /// what it was given.
    fn peek<F>(self, f: F) -> (same: Self) where F: FnOnce(&T)
        requires
            self.shown() matches Some(value) ==> f.requires((&value,)),
        ensures
            same == self,
            self.shown() matches Some(value) ==> f.ensures((&value,), ()),
    ;
}

impl<T> PeekOption<T> for Option<T> {
    open spec fn shown(&self) -> Option<T> {
        *self
    }

    fn peek<F>(self, f: F) -> (same: Self) where F: FnOnce(&T) {
        if let Some(ref value) = self {
            f(value)
        }
        self
    }
}

impl<T> OptionFromPredicate<T> for Option<T> {
    fn from_predicate<F>(predicate: bool, f: F) -> (made: Option<T>) where
        F: FnOnce() -> Option<T>,
     {
        if predicate {
            f()
        } else {
            None
        }
    }
}

pub trait ResultFromPredicate<T, E> {
    /// `Ok` of what `on_true` gives if the predicate holds, `Err` of what
    /// `on_false` gives otherwise.
    fn from_predicate<OnTrue, OnFalse>(predicate: bool, on_true: OnTrue, on_false: OnFalse) -> (made:
        Result<T, E>) where OnTrue: FnOnce() -> T, OnFalse: FnOnce() -> E
        requires
            predicate ==> on_true.requires(()),
            !predicate ==> on_false.requires(()),
        ensures
            predicate ==> (made matches Ok(value) && on_true.ensures((), value)),
            !predicate ==> (made matches Err(error) && on_false.ensures((), error)),
    ;
}

impl<T, E> ResultFromPredicate<T, E> for Result<T, E> {
    fn from_predicate<OnTrue, OnFalse>(predicate: bool, on_true: OnTrue, on_false: OnFalse) -> (made:
        Result<T, E>) where OnTrue: FnOnce() -> T, OnFalse: FnOnce() -> E {
        if predicate {
            Ok(on_true())
        } else {
            Err(on_false())
        }
    }
}

} // verus!
