//! One visual unit of the source collection: an image reference together
//! with its upper and lower caption lines.

use vstd::prelude::*;
use crate::error::{Error, Kind};

verus! {

/// One chunk: a source image reference plus ordered caption lines.
///
/// Chunks are created once by the caller's loader and are read-only for the
/// whole run.
#[derive(Debug, Clone)]
pub struct Chunk {
    /// Where the source image lives; the caller decodes it.
    pub img_path: String,
    /// Caption lines drawn in the upper caption band, in order.
    pub text_up: Vec<String>,
    /// Caption lines drawn in the lower caption band, in order.
    pub text_down: Vec<String>,
}

impl Chunk {
    /// Builds a chunk record. An empty image reference is rejected, since
    /// nothing could ever be loaded from it.
    pub fn new(img_path: String, text_up: Vec<String>, text_down: Vec<String>) -> (r: Result<
        Chunk,
        Error,
    >)
        ensures
            r is Ok <==> img_path@.len() > 0,
            r matches Ok(c) ==> c == (Chunk { img_path, text_up, text_down }),
            r matches Err(e) ==> e.kind == Kind::Other,
    {
        if img_path.as_str().is_empty() {
            Err(Error::new(Kind::Other, "empty image path"))
        } else {
            Ok(Chunk { img_path, text_up, text_down })
        }
    }
}

} // verus!
