//! The configuration record the capture pipeline consumes.
//!
//! The surrounding application is responsible for persisting and
//! parsing it; the core only reads a validated value.

use vstd::prelude::*;

use crate::wav::valid_bits;

verus! {

/// On-disk sample format of one recording session.
#[derive(Clone, Copy, PartialEq, Eq, Structural, Debug)]
pub enum AudioFormat {
    Wave,
    Pcm,
    Flac,
}

/// Display language of the surrounding application.
#[derive(Clone, Copy, PartialEq, Eq, Structural, Debug)]
pub enum Language {
    Japanese,
    English,
}

/// The language a two-letter code stands for: `"en"` is English,
/// everything else falls back to Japanese.
pub open spec fn language_of_code(code: Seq<char>) -> Language {
    if code.len() == 2 && code[0] == 'e' && code[1] == 'n' {
        Language::English
    } else {
        Language::Japanese
    }
}

/// The two-letter code of a language.
pub open spec fn code_of_language(l: Language) -> Seq<char> {
    match l {
        Language::Japanese => seq!['j', 'a'],
        Language::English => seq!['e', 'n'],
    }
}

impl Language {
    /// The two-letter code of this language.
    pub fn code(&self) -> (r: &'static str)
        ensures
            r@ == code_of_language(*self),
    {
        match self {
            Language::Japanese => {
                let r = "ja";
                proof {
                    reveal_strlit("ja");
                    assert(r@ =~= code_of_language(Language::Japanese));
                }
                r
            },
            Language::English => {
                let r = "en";
                proof {
                    reveal_strlit("en");
                    assert(r@ =~= code_of_language(Language::English));
                }
                r
            },
        }
    }

    /// Parse a two-letter code, falling back to Japanese on anything
    /// unknown.
    pub fn from_code(code: &str) -> (r: Language)
        ensures
            r == language_of_code(code@),
    {
        if code.unicode_len() == 2 {
            let c0 = code.get_char(0);
            let c1 = code.get_char(1);
            if c0 == 'e' && c1 == 'n' {
                Language::English
            } else {
                Language::Japanese
            }
        } else {
            Language::Japanese
        }
    }
}

/// Settings of one recording session.
///
/// The compressor threshold and ratio are stored as fixed-point values
/// with one million units to one (the threshold in decibels, the ratio
/// as a plain factor). They are persisted for the surrounding
/// application; the capture path itself runs with fixed compressor
/// constants.
#[derive(Clone, Copy, PartialEq, Eq, Structural, Debug)]
pub struct AppSettings {
    pub audio_format: AudioFormat,
    pub sample_rate: u32,
    pub bit_depth: u16,
    pub compressor_enabled: bool,
    pub compressor_threshold_db: i64,
    pub compressor_ratio: i64,
}

impl AppSettings {
    /// A configuration the capture pipeline can run with: a supported
    /// container width. The sample rate may be any value its field
    /// holds; a rate one container cannot carry is rejected at that
    /// sink's boundary.
    pub open spec fn wf(&self) -> bool {
        valid_bits(self.bit_depth as int)
    }

    /// Whether this configuration is valid for the capture pipeline.
    pub fn is_valid(&self) -> (r: bool)
        ensures
            r == self.wf(),
    {
        self.bit_depth == 16 || self.bit_depth == 24 || self.bit_depth == 32
    }
}

impl Default for AppSettings {
    /// WAV at 44.1 kHz, 16 bits, compressor off with a threshold of
    /// -20 dB and a ratio of 4.
    fn default() -> (r: AppSettings)
        ensures
            r == (AppSettings {
                audio_format: AudioFormat::Wave,
                sample_rate: 44100u32,
                bit_depth: 16u16,
                compressor_enabled: false,
                compressor_threshold_db: -20_000_000i64,
                compressor_ratio: 4_000_000i64,
            }),
            r.wf(),
    {
        AppSettings {
            audio_format: AudioFormat::Wave,
            sample_rate: 44100,
            bit_depth: 16,
            compressor_enabled: false,
            compressor_threshold_db: -20_000_000,
            compressor_ratio: 4_000_000,
        }
    }
}

} // verus!
