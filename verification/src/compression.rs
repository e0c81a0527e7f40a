//! The compression algorithms a configuration can ask for.

use vstd::prelude::*;

verus! {

/// A compression algorithm, as named in the `algorithm` key of a
/// `[[compression]]` entry.
#[derive(Clone, Copy, Debug, PartialEq, Eq, Structural)]
pub enum Compressor {
    Gzip,
    Brotli,
    Zstd,
}

/// Options handed to a compression algorithm.
#[derive(Clone, Copy, Debug, PartialEq, Eq, Structural)]
pub struct CompressorOptions {
    pub level: Option<usize>,
}

/// A number as a configuration file writes it: whole, or with a fraction.
/// A number with a fraction is held as the bits of its IEEE 754 double.
#[derive(Clone, Copy, Debug, PartialEq, Eq, Structural)]
pub enum Number {
    Integer(i64),
    Real(u64),
}

/// The algorithm that `name` stands for.
pub open spec fn compressor_named(name: Seq<char>) -> Option<Compressor> {
    if name == "gzip"@ {
        Some(Compressor::Gzip)
    } else if name == "brotli"@ {
        Some(Compressor::Brotli)
    } else if name == "zstd"@ {
        Some(Compressor::Zstd)
    } else {
        None
    }
}

impl Compressor {
    /// The algorithm that `name` stands for: `gzip`, `brotli` or `zstd`.
    pub fn from_name(name: &String) -> (found: Option<Compressor>)
        ensures
            found == compressor_named(name@),
    {
        if *name == String::from_str("gzip") {
            Some(Compressor::Gzip)
        } else if *name == String::from_str("brotli") {
            Some(Compressor::Brotli)
        } else if *name == String::from_str("zstd") {
            Some(Compressor::Zstd)
        } else {
            None
        }
    }
}

} // verus!
