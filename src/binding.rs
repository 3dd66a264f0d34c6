use vstd::prelude::*;

verus! {

/// The value the map's view takes before a render: a bound outside value wins.
pub open spec fn bound_before<T>(bound: Option<T>, current: T) -> T {
    match bound {
        Some(v) => v,
        None => current,
    }
}

/// The outside value after a render: where one is bound and the map's view has a
/// value, the view's value replaces it; otherwise it stays as it was.
pub open spec fn bound_after<T>(bound: Option<T>, view: Option<T>) -> Option<T> {
    match (bound, view) {
        (Some(_), Some(v)) => Some(v),
        _ => bound,
    }
}

/// The value to give the map's view before rendering, given the bound outside value,
/// if any, and the view's current one.
pub fn value_before_render<T>(bound: Option<T>, current: T) -> (r: T)
    ensures
        r == bound_before(bound, current),
{
    match bound {
        Some(v) => v,
        None => current,
    }
}

/// The new outside value after rendering, given the bound outside value, if any, and
/// the view's value after the render.
pub fn value_after_render<T>(bound: Option<T>, view: Option<T>) -> (r: Option<T>)
    ensures
        r == bound_after(bound, view),
{
    match bound {
        Some(b) => match view {
            Some(v) => Some(v),
            None => Some(b),
        },
        None => None,
    }
}

/// A bound outside value `given` sets the view before the render; when the render leaves
/// the view at `moved` (after user interaction moved it), the outside value becomes
/// `moved`, not `given`. Without a binding the view keeps its own value and nothing is
/// written out.
pub proof fn lemma_binding_round_trip<T>(given: T, view: T, moved: T)
    ensures
        bound_before(Some(given), view) == given,
        bound_after(Some(given), Some(moved)) == Some(moved),
        bound_before(None::<T>, view) == view,
        bound_after(None::<T>, Some(moved)) is None,
{
}

} // verus!
