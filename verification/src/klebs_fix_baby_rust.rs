use vstd::prelude::*;

verus! {

/// Configuration for the fix-up capability a loaded plugin provides. The
/// computation itself lives in the plugin library behind the foreign
/// boundary; this type only names its host-side settings.
#[derive(Clone, Copy, Debug)]
pub struct KlebsFixBabyRustConfig {}

} // verus!
