//! Setup and teardown of the GL ES 2.0 backend.
use crate::gles2::device_context::{RafxDeviceContextGles2, RafxDeviceContextGles2Inner};
use crate::sync::{arc_strong_count, arc_try_unwrap};
use crate::text::{push_decimal, spec_decimal};
use crate::types::{RafxError, RafxResult};
use std::sync::Arc;
use vstd::prelude::*;

verus! {

/// Gl-specific configuration
pub struct RafxApiDefGles2 {
    pub validate_shaders: bool,
}

impl Default for RafxApiDefGles2 {
    fn default() -> (r: Self)
        ensures
            !r.validate_shaders,
    {
        RafxApiDefGles2 { validate_shaders: false }
    }
}

/// The GL ES 2.0 backend: it owns the device context until it is destroyed.
pub struct RafxApiGles2<G> {
    device_context: Option<RafxDeviceContextGles2<G>>,
}

/// The message of the error that destroying a device still in use gives.
pub open spec fn spec_destroy_in_use_message(reference_count: usize) -> Seq<char> {
    "Could not destroy device, "@ + spec_decimal(reference_count as nat) + " references to it exist"@
}

/// What destroying the device state returns, once it is known whether this
/// was the last reference to it: success when it was, else an error that
/// says how many references there were.
pub fn device_release_result<G>(
    released: Result<RafxDeviceContextGles2Inner<G>, Arc<RafxDeviceContextGles2Inner<G>>>,
    reference_count: usize,
) -> (r: RafxResult<()>)
    ensures
        released is Ok ==> r is Ok,
        released is Err ==> (r matches Err(RafxError::StringError(message)) && message@
            == spec_destroy_in_use_message(reference_count)),
{
    match released {
        Ok(_inner) => Ok(()),
        Err(_arc) => {
            let mut message = String::from_str("Could not destroy device, ");
            push_decimal(&mut message, reference_count);
            message.append(" references to it exist");
            proof {
                reveal_strlit("Could not destroy device, ");
                reveal_strlit(" references to it exist");
            }
            Err(RafxError::StringError(message))
        },
    }
}

impl<G> RafxApiGles2<G> {
    pub closed spec fn spec_device_context(&self) -> Option<RafxDeviceContextGles2<G>> {
        self.device_context
    }

    /// The device context; the backend must not have been destroyed.
    pub fn device_context(&self) -> (r: &RafxDeviceContextGles2<G>)
        requires
            self.spec_device_context() is Some,
        ensures
            *r == self.spec_device_context().unwrap(),
    {
        self.device_context.as_ref().unwrap()
    }

    /// Creates the backend around the device state that GL initialization
    /// produced.
    pub fn new(inner: RafxDeviceContextGles2Inner<G>) -> (r: RafxResult<Self>)
        ensures
            r matches Ok(api) && api.spec_device_context() matches Some(context)
                && context.spec_inner() == inner,
    {
        let device_context = RafxDeviceContextGles2::new(Arc::new(inner))?;
        Ok(RafxApiGles2 { device_context: Some(device_context) })
    }

    /// Releases the device context. The device state is dropped when this
    /// was the last reference to it; otherwise an error says how many
    /// references remain. Destroying twice does nothing the second time.
    pub fn destroy(&mut self) -> (r: RafxResult<()>)
        ensures
            final(self).spec_device_context() is None,
            old(self).spec_device_context() is None ==> r is Ok,
            r matches Err(RafxError::StringError(message)) ==> exists|count: usize|
                count >= 1 && message@ == #[trigger] spec_destroy_in_use_message(count),
    {
        if let Some(device_context) = self.device_context.take() {
            // This should be the final reference to the device state
            let inner = device_context.inner;
            let strong_count = arc_strong_count(&inner);
            let released = arc_try_unwrap(inner);
            return device_release_result(released, strong_count);
        }
        Ok(())
    }
}

} // verus!
