use vstd::prelude::*;

use crate::types::{BleError, BleErrorView};

verus! {

/// Whether the Android Bluetooth bridge may be used, given what the one-time
/// JNI initialization recorded (`None` while it has not run): its failure is
/// reported as `AndroidNotInitialized` with the recorded reason.
pub fn ensure_initialized(recorded: Option<&Result<(), String>>) -> (r: Result<(), BleError>)
    ensures
        match recorded {
            Some(Ok(())) => r is Ok,
            Some(Err(reason)) => r matches Err(e) && e@ == BleErrorView::AndroidNotInitialized(reason@),
            None => r matches Err(e) && e@ == BleErrorView::AndroidNotInitialized(
                "GDBLEPlugin.initializeNative() has not been called"@,
            ),
        },
{
    match recorded {
        Some(Ok(())) => Ok(()),
        Some(Err(reason)) => Err(BleError::AndroidNotInitialized(reason.clone())),
        None => Err(
            BleError::AndroidNotInitialized(
                String::from_str("GDBLEPlugin.initializeNative() has not been called"),
            ),
        ),
    }
}

} // verus!
