use std::pin::Pin;
use std::task::{Context, Poll};
use vstd::prelude::*;

verus! {

/// Makes `std::pin::Pin` usable in signatures; its contents stay hidden.
#[verifier::external_type_specification]
#[verifier::external_body]
#[verifier::reject_recursive_types(Ptr)]
pub struct ExPin<Ptr>(Pin<Ptr>);

/// Makes `std::task::Context` usable in signatures; its contents stay hidden.
#[verifier::external_type_specification]
#[verifier::external_body]
pub struct ExContext<'a>(Context<'a>);

/// Makes `std::task::Poll` usable in signatures; its contents stay hidden.
#[verifier::external_type_specification]
#[verifier::external_body]
#[verifier::reject_recursive_types(T)]
pub struct ExPoll<T>(Poll<T>);

/// A computation that may not have finished yet.
///
/// Whoever owns the value drives it by calling `poll`: the answer is either
/// the finished output or a note that the computation is still waiting, in
/// which case the owner polls again later.
pub trait Future {
    type Output;

    fn poll(self: Pin<&mut Self>, cx: &mut Context) -> Poll<Self::Output>;
}

} // verus!
