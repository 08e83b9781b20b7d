//! Sets of device extensions, as the graphics driver binding represents them.

use vstd::prelude::*;
use vulkano::device::DeviceExtensions;

verus! {

/// `vulkano::device::DeviceExtensions`: one flag per device extension the
/// binding knows. The flags are not visible to the verifier.
#[verifier::external_type_specification]
#[verifier::external_body]
pub struct ExDeviceExtensions(DeviceExtensions);

/// The names of the extensions whose flag is set in `extensions`.
pub uninterp spec fn enabled_extensions(extensions: DeviceExtensions) -> Set<Seq<char>>;

/// `DeviceExtensions::is_superset_of`: true exactly when every extension
/// whose flag is set in `other` also has its flag set in `extensions`.
pub assume_specification[ DeviceExtensions::is_superset_of ](
    extensions: &DeviceExtensions,
    other: &DeviceExtensions,
) -> (superset: bool)
    ensures
        superset == enabled_extensions(*other).subset_of(enabled_extensions(*extensions)),
;

/// `DeviceExtensions::union`: the flag of an extension is set in the result
/// exactly when it is set in at least one of the two operands.
pub assume_specification[ DeviceExtensions::union ](
    extensions: &DeviceExtensions,
    other: &DeviceExtensions,
) -> (both: DeviceExtensions)
    ensures
        enabled_extensions(both) == enabled_extensions(*extensions).union(
            enabled_extensions(*other),
        ),
;

} // verus!
