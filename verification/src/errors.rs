//! Error taxonomy of the engine core.
//!
//! Construction and import failures are fatal to the operation that
//! triggered them and bubble to its initiator; the triggering collection is
//! left exactly as it was, never partially constructed. Degenerate timing
//! windows are not errors: a `LifeCycle` with an empty or inverted window
//! is normalized to "never active" instead.

use vstd::prelude::*;

verus! {

/// A new emitter or effect could not be built.
#[derive(Clone, Debug)]
pub enum ConstructionError {
    /// The configuration references an asset key the collection does not
    /// hold.
    UnknownAssetKey { key: String },
    /// The device failed to create a resource; carried through from the
    /// device layer.
    DeviceResourceFailure { label: String },
}

/// Imported configuration did not match the schema its tag demands. The
/// import that hit it aborts as a whole; nothing is defaulted silently.
#[derive(Clone, Debug)]
pub enum DeserializationError {
    /// No registered kind owns this tag.
    UnknownTag { tag: String },
    /// The tag is known but the data is shaped for another kind.
    SchemaMismatch { tag: String },
}

/// Why restoring a saved emitter failed. The failure bubbles to the load's
/// initiator and nothing half-restored is kept.
#[derive(Clone, Debug)]
pub enum ImportError {
    /// The emitter itself could not be constructed.
    Construction(ConstructionError),
    /// One of its saved animations did not match its schema.
    Deserialization(DeserializationError),
}

} // verus!
