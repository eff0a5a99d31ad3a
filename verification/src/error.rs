use vstd::prelude::*;

verus! {

/// Everything that can end a layout. Every kind is terminal: nothing is
/// retried and no partial result is handed out.
#[derive(Clone, Copy, Debug, PartialEq, Eq, Structural)]
pub enum Error {
    /// A glyph was asked to render after its outline had been given away.
    NoGlyphsLoaded,
    /// A glyph has no pixel bounding box: it covers no pixel at all.
    BoundingBoxError,
    /// A strip was asked for its last glyph and has none.
    LastGlyphNotFound,
    /// A strip was asked for its first glyph and has none.
    FirstGlyphNotFound,
}

} // verus!
