//! Track metadata gathered from a source's tags, and the errors of opening and decoding.

use vstd::prelude::*;
use crate::text::{parse_u32, split_once_char};

verus! {

/// Errors that can occur while opening or decoding a source.
#[derive(Debug, Clone, PartialEq, Eq)]
pub enum DecoderError {
    /// The file could not be opened; holds the system's message.
    FileOpen(String),
    UnsupportedFormat,
    NoAudioTrack,
    DecoderCreation(String),
    Decode(String),
    Seek(String),
}

/// The standard tag keys that metadata is taken from.
#[derive(Debug, Clone, Copy, PartialEq, Eq, Structural)]
pub enum TagKey {
    TrackTitle,
    Artist,
    Album,
    AlbumArtist,
    TrackNumber,
    Genre,
    Date,
    ReleaseDate,
    /// Any other key; ignored.
    Other,
}

/// Audio metadata extracted from a source.
#[derive(Debug, Clone, PartialEq, Eq)]
pub struct AudioMetadata {
    pub title: Option<String>,
    pub artist: Option<String>,
    pub album: Option<String>,
    pub album_artist: Option<String>,
    pub track_number: Option<u32>,
    pub genre: Option<String>,
    pub year: Option<u32>,
    pub codec: Option<String>,
    pub bitrate: Option<u32>,
    pub sample_rate: Option<u32>,
    pub channels: Option<u32>,
}

/// The year of a date text such as `2023` or `2023-01-15`: its part before the first `-`.
pub open spec fn year_text(s: Seq<char>) -> Seq<char> {
    match crate::text::split_first(s, '-') {
        Some((a, _b)) => a,
        None => s,
    }
}

/// Reads the year of a date text.
pub fn parse_year(value: &str) -> (r: Option<u32>)
    ensures
        match crate::text::unsigned_value(year_text(value@), u32::MAX as nat) {
            Some(v) => r == Some(v as u32),
            None => r is None,
        },
{
    match split_once_char(value, '-') {
        Some((year, _rest)) => parse_u32(year),
        None => parse_u32(value),
    }
}

/// Approximate bit rate in kbit/s: bits per sample times sample rate times channels, over
/// 1000 (`u32::MAX` if that does not fit).
pub fn approximate_bitrate(bits_per_sample: u32, sample_rate: u32, channels: u32) -> (r: u32)
    ensures
        r == if bits_per_sample as int * sample_rate as int * channels as int / 1000 <= u32::MAX {
            bits_per_sample as int * sample_rate as int * channels as int / 1000
        } else {
            u32::MAX as int
        },
{
    assert(bits_per_sample as u128 * sample_rate as u128 <= u64::MAX) by (nonlinear_arith)
        requires
            bits_per_sample <= u32::MAX,
            sample_rate <= u32::MAX,
    ;
    assert(bits_per_sample as u128 * sample_rate as u128 * channels as u128 <= u128::MAX)
        by (nonlinear_arith)
        requires
            bits_per_sample as u128 * sample_rate as u128 <= u64::MAX,
            channels <= u32::MAX,
    ;
    let total = (bits_per_sample as u128) * (sample_rate as u128) * (channels as u128) / 1000;
    if total <= u32::MAX as u128 {
        total as u32
    } else {
        u32::MAX
    }
}

/// Keeps `old` if set, else takes `new`.
pub open spec fn first_of<T>(old: Option<T>, new: Option<T>) -> Option<T> {
    if old is Some {
        old
    } else {
        new
    }
}

impl AudioMetadata {
    /// Metadata with no field set.
    pub fn new() -> (r: Self)
        ensures
            r.title is None && r.artist is None && r.album is None && r.album_artist is None,
            r.track_number is None && r.genre is None && r.year is None && r.codec is None,
            r.bitrate is None && r.sample_rate is None && r.channels is None,
    {
        AudioMetadata {
            title: None,
            artist: None,
            album: None,
            album_artist: None,
            track_number: None,
            genre: None,
            year: None,
            codec: None,
            bitrate: None,
            sample_rate: None,
            channels: None,
        }
    }

    /// Takes the tag `key = value` into the field it names, unless that field is set already
    /// (the first tag found wins). Track numbers and years that do not read as numbers are
    /// left unset.
    pub fn apply_tag(&mut self, key: TagKey, value: String)
        ensures
            final(self).title == if key == TagKey::TrackTitle {
                first_of(old(self).title, Some(value))
            } else {
                old(self).title
            },
            final(self).artist == if key == TagKey::Artist {
                first_of(old(self).artist, Some(value))
            } else {
                old(self).artist
            },
            final(self).album == if key == TagKey::Album {
                first_of(old(self).album, Some(value))
            } else {
                old(self).album
            },
            final(self).album_artist == if key == TagKey::AlbumArtist {
                first_of(old(self).album_artist, Some(value))
            } else {
                old(self).album_artist
            },
            final(self).genre == if key == TagKey::Genre {
                first_of(old(self).genre, Some(value))
            } else {
                old(self).genre
            },
            final(self).track_number == if key == TagKey::TrackNumber {
                first_of(
                    old(self).track_number,
                    match crate::text::unsigned_value(value@, u32::MAX as nat) {
                        Some(v) => Some(v as u32),
                        None => None,
                    },
                )
            } else {
                old(self).track_number
            },
            final(self).year == if key == TagKey::Date || key == TagKey::ReleaseDate {
                first_of(
                    old(self).year,
                    match crate::text::unsigned_value(year_text(value@), u32::MAX as nat) {
                        Some(v) => Some(v as u32),
                        None => None,
                    },
                )
            } else {
                old(self).year
            },
            final(self).codec == old(self).codec,
            final(self).bitrate == old(self).bitrate,
            final(self).sample_rate == old(self).sample_rate,
            final(self).channels == old(self).channels,
    {
        match key {
            TagKey::TrackTitle => {
                if self.title.is_none() {
                    self.title = Some(value);
                }
            },
            TagKey::Artist => {
                if self.artist.is_none() {
                    self.artist = Some(value);
                }
            },
            TagKey::Album => {
                if self.album.is_none() {
                    self.album = Some(value);
                }
            },
            TagKey::AlbumArtist => {
                if self.album_artist.is_none() {
                    self.album_artist = Some(value);
                }
            },
            TagKey::TrackNumber => {
                if self.track_number.is_none() {
                    self.track_number = parse_u32(value.as_str());
                }
            },
            TagKey::Genre => {
                if self.genre.is_none() {
                    self.genre = Some(value);
                }
            },
            TagKey::Date | TagKey::ReleaseDate => {
                if self.year.is_none() {
                    self.year = parse_year(value.as_str());
                }
            },
            TagKey::Other => {},
        }
    }
}

} // verus!
