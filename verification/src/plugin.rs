//! The plugin registry type of the host application.
//!
//! Plugins are folders read from disk; their manifests are parsed and their
//! frontend scripts handed to the UI runtime by the unverified loader.  The
//! registry records a loaded plugin with this marker type.

use vstd::prelude::*;

verus! {

/// A loaded plugin.
pub struct Plugin {}

} // verus!
