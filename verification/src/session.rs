//! Markers for the session-side feature bundles layered on the importer.
//!
//! The live session runtime hosts the imported world and wires a set of
//! gameplay features around it.  The features themselves run inside the
//! hosting runtime and are not part of the import pipeline; these unit
//! types name the bundles so that a host can refer to them.

use vstd::prelude::*;

verus! {

/// Names the bundle of sheeptag gameplay features a hosting session
/// installs around an imported world: teams, disguises, permissions and
/// the movement tweaks.
#[derive(Clone, Copy, Debug, PartialEq, Eq, Structural)]
pub struct SheeptagPlugins;

/// Names the server branding feature of the hosting session.
#[derive(Clone, Copy, Debug, PartialEq, Eq, Structural)]
pub struct SheeptagBrandPlugin;

/// Names the jump-disabling movement tweak of the hosting session.
#[derive(Clone, Copy, Debug, PartialEq, Eq, Structural)]
pub struct AnticheatPlugin;

} // verus!
