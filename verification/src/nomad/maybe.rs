//! Values that may be a result, and values that may be a future.

use core::convert::Infallible;
use core::future::Future;
use vstd::prelude::*;

verus! {

/// A value that can be turned into a `Result`.
pub trait MaybeResult<T> {
    /// The error of the result.
    type Error;

    /// The value as a result.
    fn into_result(self) -> Result<T, Self::Error>;
}

impl<T> MaybeResult<T> for T {
    type Error = Infallible;

    fn into_result(self) -> (res: Result<T, <Self as MaybeResult<T>>::Error>)
        ensures
            res == Ok::<T, Infallible>(self),
    {
        Ok(self)
    }
}

impl<T, E> MaybeResult<T> for Result<T, E> {
    type Error = E;

    fn into_result(self) -> Result<T, E>
        returns
            self,
    {
        self
    }
}

/// Either a value that is ready, or a future that will produce one.
#[verifier::reject_recursive_types(T)]
pub enum MaybeFutureEnum<F: Future<Output = T>, T> {
    /// The value is ready.
    Ready(T),
    /// The value will come from the future.
    Future(F),
}

impl<F: Future<Output = T>, T> MaybeFutureEnum<F, T> {
    /// The future, as a value that is not ready yet.
    pub fn from_future(future: F) -> (this: Self)
        ensures
            this == MaybeFutureEnum::<F, T>::Future(future),
    {
        MaybeFutureEnum::Future(future)
    }

    /// The ready value. A future is not ready: the precondition rules it out.
    pub fn into_ready(self) -> (output: T)
        requires
            self is Ready,
        ensures
            self == MaybeFutureEnum::<F, T>::Ready(output),
    {
        match self {
            MaybeFutureEnum::Ready(output) => output,
            MaybeFutureEnum::Future(_) => vstd::pervasive::unreached(),
        }
    }
}

/// The std future that is ready at once.
#[verifier::external_type_specification]
#[verifier::external_body]
#[verifier::reject_recursive_types(T)]
pub struct ExReady<T>(core::future::Ready<T>);

/// A value that is either ready or a future that will produce it.
pub trait MaybeFuture: Sized {
    /// What the value produces.
    type Output;

    /// The future that produces it when it is not ready.
    type IntoFuture: Future<Output = Self::Output>;

    /// The value as a ready value or a future.
    fn into_enum(self) -> MaybeFutureEnum<Self::IntoFuture, Self::Output>;
}

impl<F: Future<Output = T>, T> MaybeFuture for MaybeFutureEnum<F, T> {
    type Output = T;

    type IntoFuture = F;

    fn into_enum(self) -> (e: MaybeFutureEnum<F, T>)
        ensures
            e == self,
    {
        self
    }
}

impl MaybeFuture for () {
    type Output = ();

    type IntoFuture = core::future::Ready<()>;

    fn into_enum(self) -> (e: MaybeFutureEnum<core::future::Ready<()>, ()>)
        ensures
            e == MaybeFutureEnum::<core::future::Ready<()>, ()>::Ready(self),
    {
        MaybeFutureEnum::Ready(self)
    }
}

impl<T> MaybeFuture for Option<T> {
    type Output = Option<T>;

    type IntoFuture = core::future::Ready<Option<T>>;

    fn into_enum(self) -> (e: MaybeFutureEnum<core::future::Ready<Option<T>>, Option<T>>)
        ensures
            e == MaybeFutureEnum::<core::future::Ready<Option<T>>, Option<T>>::Ready(self),
    {
        MaybeFutureEnum::Ready(self)
    }
}

impl<T, E> MaybeFuture for Result<T, E> {
    type Output = Result<T, E>;

    type IntoFuture = core::future::Ready<Result<T, E>>;

    fn into_enum(self) -> (e: MaybeFutureEnum<core::future::Ready<Result<T, E>>, Result<T, E>>)
        ensures
            e == MaybeFutureEnum::<core::future::Ready<Result<T, E>>, Result<T, E>>::Ready(self),
    {
        MaybeFutureEnum::Ready(self)
    }
}

} // verus!
