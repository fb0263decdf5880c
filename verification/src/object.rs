//! Recovery of the concrete type of a state that is held as a trait object.
use downcast_rs::Downcast;
use vstd::prelude::*;

verus! {

/// Returns true if the trait object wraps an object of type `S`.
///
/// Calls `downcast_rs::Downcast::as_any` and asks the `dyn Any` it gives for `S`.
/// Which type is wrapped is known at run time only, and nothing is claimed of the
/// answer here: other contracts refer to this function by its outcome.
#[verifier::external_body]
pub fn is<X: Downcast + ?Sized, S: 'static>(object: &X) -> (wraps: bool) {
    object.as_any().is::<S>()
}

/// Returns a reference to the wrapped object if it is of type `S`.
///
/// Calls `downcast_rs::Downcast::as_any` and `downcast_ref` of the `dyn Any` it gives.
/// That finds an `S` if and only if the type test [`is`] answers `true` for the object, and
/// none if and only if it answers `false`: both compare the type of the wrapped object with `S`.
/// What the wrapped object holds is known at run time only, and nothing is claimed of it.
#[verifier::external_body]
pub fn find<X: Downcast + ?Sized, S: 'static>(object: &X) -> (found: Option<&S>)
    ensures
        found is Some <==> call_ensures(is::<X, S>, (object,), true),
        found is None <==> call_ensures(is::<X, S>, (object,), false),
{
    object.as_any().downcast_ref::<S>()
}

/// Takes the object of type `S` out of a trait object for which [`is`] answers `true`.
///
/// Calls `downcast_rs::Downcast::into_any` and downcasts the `Box<dyn Any>` it gives,
/// which cannot fail on an object that is an `S`. What is taken out is what [`find`] refers to.
#[verifier::external_body]
fn into_concrete<X: Downcast + ?Sized, S: 'static>(object: Box<X>) -> (concrete: Box<S>)
    requires
        call_ensures(is::<X, S>, (&*object,), true),
    ensures
        forall|found: &S| #[trigger]
            call_ensures(find::<X, S>, (&*object,), Some(found)) ==> *found == *concrete,
{
    object.into_any().downcast::<S>().unwrap()
}

/// Returns a boxed object from a boxed trait object if the underlying object is of type
/// `S`. Returns the boxed trait object itself if it isn't.
pub fn downcast<X: Downcast + ?Sized, S: 'static>(object: Box<X>) -> (result: Result<
    Box<S>,
    Box<X>,
>)
    ensures
        result is Ok <==> call_ensures(is::<X, S>, (&*object,), true),
        result is Err <==> call_ensures(is::<X, S>, (&*object,), false),
        match result {
            Ok(concrete) => {
                &&& call_ensures(find::<X, S>, (&*object,), Some(&*concrete))
                &&& forall|found: &S| #[trigger]
                    call_ensures(find::<X, S>, (&*object,), Some(found)) ==> *found == *concrete
            },
            Err(unchanged) => unchanged == object,
        },
{
    match find::<X, S>(&*object) {
        Some(found) => {
            assert(call_ensures(find::<X, S>, (&*object,), Some(found)));
            Ok(into_concrete::<X, S>(object))
        },
        None => Err(object),
    }
}

/// A downcast succeeds if and only if the type test answers `true` for the object, however long
/// before it was made. One that fails returns the object as it was.
pub proof fn law_downcast_agrees_with_type_test<X: Downcast + ?Sized, S: 'static>(
    object: Box<X>,
    answer: bool,
    result: Result<Box<S>, Box<X>>,
)
    requires
        call_ensures(is::<X, S>, (&*object,), answer),
        call_ensures(downcast::<X, S>, (object,), result),
    ensures
        result is Ok <==> answer,
        result matches Err(unchanged) ==> unchanged == object,
{
}

/// An object that has been found inside a trait object is what a downcast yields.
pub proof fn law_downcast_yields_what_is_found<X: Downcast + ?Sized, S: 'static>(
    object: Box<X>,
    found: &S,
    result: Result<Box<S>, Box<X>>,
)
    requires
        call_ensures(find::<X, S>, (&*object,), Some(found)),
        call_ensures(downcast::<X, S>, (object,), result),
    ensures
        result matches Ok(concrete) && *concrete == *found,
{
}

} // verus!
