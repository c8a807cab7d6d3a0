//! How a finished image is to be written out: the format and the effort of
//! compression, as callers name them.

use vstd::prelude::*;

verus! {

/// The formats an image can be written in.
#[derive(Clone, Copy, Debug, PartialEq, Eq, Structural)]
pub enum OutputFormat {
    Png,
    Jpeg,
}

/// How hard the encoder tries: for PNG the compression preset, for JPEG the
/// quality.
#[derive(Clone, Copy, Debug, PartialEq, Eq, Structural)]
pub enum CompressionLevel {
    Fast,
    Balanced,
    Best,
}

/// The output configuration of one call.
#[derive(Clone, Copy, Debug, PartialEq, Eq, Structural)]
pub struct EncodeOptions {
    pub format: OutputFormat,
    pub compression: CompressionLevel,
}

impl OutputFormat {
    /// The format that a name stands for: `"jpeg"` is JPEG, every other name PNG.
    pub open spec fn of_name(name: Seq<char>) -> OutputFormat {
        if name == "jpeg"@ {
            OutputFormat::Jpeg
        } else {
            OutputFormat::Png
        }
    }

    /// Reads a format from its name.
    pub fn from_name(name: &str) -> (format: OutputFormat)
        ensures
            format == Self::of_name(name@),
    {
        let given = name.to_owned();
        let jpeg = "jpeg".to_owned();
        if given.eq(&jpeg) {
            OutputFormat::Jpeg
        } else {
            OutputFormat::Png
        }
    }
}

impl CompressionLevel {
    /// The level that a number stands for: 0 fast, 1 balanced, 2 best, and
    /// balanced for every other number.
    pub open spec fn of_number(level: u8) -> CompressionLevel {
        if level == 0 {
            CompressionLevel::Fast
        } else if level == 2 {
            CompressionLevel::Best
        } else {
            CompressionLevel::Balanced
        }
    }

    /// Reads a level from its number.
    pub fn from_number(level: u8) -> (out: CompressionLevel)
        ensures
            out == Self::of_number(level),
    {
        match level {
            0 => CompressionLevel::Fast,
            2 => CompressionLevel::Best,
            _ => CompressionLevel::Balanced,
        }
    }

    /// The JPEG quality of a level: 75, 85 or 95.
    pub open spec fn quality(self) -> u8 {
        match self {
            CompressionLevel::Fast => 75,
            CompressionLevel::Balanced => 85,
            CompressionLevel::Best => 95,
        }
    }

    /// The JPEG quality of this level.
    pub fn jpeg_quality(&self) -> (q: u8)
        ensures
            q == self.quality(),
    {
        match self {
            CompressionLevel::Fast => 75,
            CompressionLevel::Balanced => 85,
            CompressionLevel::Best => 95,
        }
    }
}

impl EncodeOptions {
    /// Reads the output configuration from a level number and a format name.
    pub fn from_params(compression_level: u8, output_format: &str) -> (options: EncodeOptions)
        ensures
            options.format == OutputFormat::of_name(output_format@),
            options.compression == CompressionLevel::of_number(compression_level),
    {
        EncodeOptions {
            format: OutputFormat::from_name(output_format),
            compression: CompressionLevel::from_number(compression_level),
        }
    }
}

} // verus!
