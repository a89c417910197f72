use vstd::prelude::*;

verus! {

/// The launch decision of the windowed application: go ahead exactly when
/// the platform's instance probe reported that no other instance of the
/// application holds the instance mutex. The probe itself is platform
/// glue outside this library; its verdict is handed in as a plain value,
/// and a second instance backs off.
pub fn handle_single_instance(is_first_instance: bool) -> (r: bool)
    ensures
        r == is_first_instance,
{
    is_first_instance
}

} // verus!
