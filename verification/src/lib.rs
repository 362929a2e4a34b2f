//! Schema compiler core: an embed-resolution pass over a schema model and a
//! text backend that renders type declarations and wire-format codecs.

pub mod ast;
pub mod elm;
pub mod elm_decoders;
pub mod elm_encoders;
pub mod embeds;
pub mod emit;
pub mod text;

use vstd::prelude::*;

verus! {

/// Which generated surface a backend run produces.
#[derive(Clone, Copy, Debug, PartialEq, Eq, Structural)]
pub enum Artifact {
    TypesOnly,
    ClientEndpoints,
    ServerEndpoints,
}

/// The fatal errors of the compiler core. Every variant carries enough
/// context to locate the faulty schema entry or configuration.
#[derive(Debug, PartialEq)]
pub enum LibError {
    /// The output path is missing or is not a directory.
    OutputMustBeFolder { backend: String },
    /// The output directory is not empty.
    OutputFolderNotEmpty { backend: String },
    /// The requested artifact kind is not implemented by the chosen backend.
    UnsupportedArtifact { artifact: Artifact, backend: String },
    /// An embed marker names a struct absent from the schema.
    UnknownEmbedTarget { name: String },
    /// Embed resolution did not reach a fixed point within the pass budget,
    /// which covers both legitimately deep chains and embed cycles.
    EmbedDepthExceeded { max_depth: usize },
    /// A map key type other than the string atom was asked for in a codec;
    /// the payload is the rendering of the offending key type.
    MapKeyMustBeString { key: String },
}

} // verus!
