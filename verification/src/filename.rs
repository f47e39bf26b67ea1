//! Names of the on-disk artifacts.
//!
//! One recording session persists to
//! `"{year}-{month}-{day}-{hour}-{minute}-{second}-{device}.{ext}"`:
//! a sortable zero-padded local timestamp, then the device name with
//! spaces replaced by underscores, then the extension matching the
//! configured format.

use vstd::prelude::*;

use crate::clock::Timestamp;
use crate::settings::AudioFormat;

verus! {

/// The decimal digit character of a value below ten.
pub open spec fn digit_char(d: int) -> char {
    if d == 0 {
        '0'
    } else if d == 1 {
        '1'
    } else if d == 2 {
        '2'
    } else if d == 3 {
        '3'
    } else if d == 4 {
        '4'
    } else if d == 5 {
        '5'
    } else if d == 6 {
        '6'
    } else if d == 7 {
        '7'
    } else if d == 8 {
        '8'
    } else {
        '9'
    }
}

/// Two zero-padded decimal digits.
pub open spec fn dec2(v: int) -> Seq<char> {
    seq![digit_char(v / 10), digit_char(v % 10)]
}

/// Four zero-padded decimal digits.
pub open spec fn dec4(v: int) -> Seq<char> {
    seq![
        digit_char(v / 1000),
        digit_char((v / 100) % 10),
        digit_char((v / 10) % 10),
        digit_char(v % 10),
    ]
}

/// The sortable `year-month-day-hour-minute-second` form of a
/// timestamp.
pub open spec fn timestamp_chars(ts: Timestamp) -> Seq<char> {
    dec4(ts.year as int) + seq!['-'] + dec2(ts.month as int) + seq!['-'] + dec2(ts.day as int)
        + seq!['-'] + dec2(ts.hour as int) + seq!['-'] + dec2(ts.minute as int) + seq!['-'] + dec2(
        ts.second as int,
    )
}

/// A device name with every space turned into an underscore.
pub open spec fn sanitized(name: Seq<char>) -> Seq<char> {
    name.map_values(
        |c: char|
            if c == ' ' {
                '_'
            } else {
                c
            },
    )
}

/// The filename extension of a format.
pub open spec fn extension_chars(format: AudioFormat) -> Seq<char> {
    match format {
        AudioFormat::Wave => seq!['w', 'a', 'v'],
        AudioFormat::Pcm => seq!['p', 'c', 'm'],
        AudioFormat::Flac => seq!['f', 'l', 'a', 'c'],
    }
}

/// The full artifact name of one session.
pub open spec fn recording_filename_chars(
    ts: Timestamp,
    device_name: Seq<char>,
    format: AudioFormat,
) -> Seq<char> {
    timestamp_chars(ts) + seq!['-'] + sanitized(device_name) + seq!['.'] + extension_chars(format)
}

/// Relies on `String::push`: appends exactly the one character.
#[verifier::external_body]
fn push_char(s: &mut String, c: char)
    ensures
        final(s)@ == old(s)@ + seq![c],
{
    s.push(c)
}

/// Append one decimal digit character.
fn push_digit(s: &mut String, d: u32)
    requires
        d < 10,
    ensures
        final(s)@ == old(s)@ + seq![digit_char(d as int)],
{
    let c: char = match d {
        0 => '0',
        1 => '1',
        2 => '2',
        3 => '3',
        4 => '4',
        5 => '5',
        6 => '6',
        7 => '7',
        8 => '8',
        _ => '9',
    };
    push_char(s, c);
}

/// Append two zero-padded decimal digits.
fn push_dec2(s: &mut String, v: u32)
    requires
        v < 100,
    ensures
        final(s)@ == old(s)@ + dec2(v as int),
{
    push_digit(s, v / 10);
    push_digit(s, v % 10);
    proof {
        assert(final(s)@ =~= old(s)@ + dec2(v as int));
    }
}

/// Append four zero-padded decimal digits.
fn push_dec4(s: &mut String, v: u32)
    requires
        v < 10000,
    ensures
        final(s)@ == old(s)@ + dec4(v as int),
{
    push_digit(s, v / 1000);
    push_digit(s, (v / 100) % 10);
    push_digit(s, (v / 10) % 10);
    push_digit(s, v % 10);
    proof {
        assert(final(s)@ =~= old(s)@ + dec4(v as int));
    }
}

/// The device name with spaces replaced by underscores.
pub fn sanitize_name(name: &str) -> (r: String)
    ensures
        r@ == sanitized(name@),
{
    let n = name.unicode_len();
    let mut out = String::new();
    let mut i: usize = 0;
    while i < n
        invariant
            i <= n,
            n == name@.len(),
            out@ == sanitized(name@).take(i as int),
        decreases n - i,
    {
        let c = name.get_char(i);
        if c == ' ' {
            push_char(&mut out, '_');
        } else {
            push_char(&mut out, c);
        }
        proof {
            assert(out@ =~= sanitized(name@).take(i + 1 as int));
        }
        i += 1;
    }
    proof {
        assert(sanitized(name@).take(n as int) =~= sanitized(name@));
    }
    out
}

/// The artifact name of one session: sortable timestamp, sanitized
/// device name, format extension.
pub fn recording_filename(ts: &Timestamp, device_name: &str, format: AudioFormat) -> (r: String)
    requires
        ts.wf(),
    ensures
        r@ == recording_filename_chars(*ts, device_name@, format),
{
    let mut s = String::new();
    push_dec4(&mut s, ts.year);
    push_char(&mut s, '-');
    push_dec2(&mut s, ts.month);
    push_char(&mut s, '-');
    push_dec2(&mut s, ts.day);
    push_char(&mut s, '-');
    push_dec2(&mut s, ts.hour);
    push_char(&mut s, '-');
    push_dec2(&mut s, ts.minute);
    push_char(&mut s, '-');
    push_dec2(&mut s, ts.second);
    push_char(&mut s, '-');
    let name = sanitize_name(device_name);
    s.append(name.as_str());
    push_char(&mut s, '.');
    match format {
        AudioFormat::Wave => {
            s.append("wav");
            proof {
                reveal_strlit("wav");
                assert(s@ =~= recording_filename_chars(*ts, device_name@, format));
            }
        },
        AudioFormat::Pcm => {
            s.append("pcm");
            proof {
                reveal_strlit("pcm");
                assert(s@ =~= recording_filename_chars(*ts, device_name@, format));
            }
        },
        AudioFormat::Flac => {
            s.append("flac");
            proof {
                reveal_strlit("flac");
                assert(s@ =~= recording_filename_chars(*ts, device_name@, format));
            }
        },
    }
    s
}

} // verus!
