//! The records that the gallery service exchanges, and what is derived
//! from them.

use vstd::prelude::*;
use vstd::string::StringExecFns;

use crate::text::{dec_digits, dec_int, decimal_i64, decimal_u64, digit_char, digit_str};

verus! {

/// An album as the service reports it.
#[derive(Debug, Clone)]
pub struct AlbumInfo {
    pub id: i64,
    pub image_preview_id: i64,
    pub name: String,
    pub description: String,
    pub is_protected: bool,
}

/// A stored file as the service reports it.
#[derive(Debug, Clone)]
pub struct DataInfo {
    pub id: i64,
    pub album_id: i64,
    pub size: i64,
    /// Milliseconds since the Unix epoch.
    pub created_timestamp: i64,
    pub name: String,
    pub extension: String,
    pub description: String,
    pub mime_type: String,
    pub tags: String,
}

/// What is sent to create an album.
#[derive(Debug, Clone)]
pub struct CreateAlbumInfo {
    pub name: String,
    pub description: String,
    pub token: String,
    pub allow_remove_data: bool,
}

/// An instant given as whole seconds since the Unix epoch (rounded towards
/// the past) and the nanoseconds past that second.
#[derive(Debug, Clone, Copy, PartialEq, Eq)]
pub struct EpochTime {
    pub secs: i64,
    pub nanos: u32,
}

/// The headers of a range response, each as the server sent it.
#[derive(Debug, Clone)]
pub struct VideoHeaders {
    pub content_range: Option<String>,
    pub content_length: Option<String>,
    pub content_type: Option<String>,
}

/// `1024` raised to `e`.
pub open spec fn pow1024(e: nat) -> nat
    decreases e,
{
    if e == 0 {
        1
    } else {
        1024 * pow1024((e - 1) as nat)
    }
}

/// The largest unit index, counting up from `e`, whose unit fits in `n`;
/// it stops at petabytes.
pub open spec fn unit_from(n: nat, e: nat) -> nat
    decreases 5 - e,
{
    if e < 5 && n >= pow1024(e + 1) {
        unit_from(n, e + 1)
    } else {
        e
    }
}

/// The name of the unit `1024^e` bytes.
pub open spec fn unit_name(e: nat) -> Seq<char> {
    if e == 0 {
        seq!['B']
    } else if e == 1 {
        seq!['K', 'B']
    } else if e == 2 {
        seq!['M', 'B']
    } else if e == 3 {
        seq!['G', 'B']
    } else if e == 4 {
        seq!['T', 'B']
    } else {
        seq!['P', 'B']
    }
}

/// `a / b` rounded to the nearest integer, ties to the even one.
pub open spec fn round_half_even(a: nat, b: nat) -> nat
    recommends
        b > 0,
{
    let q = a / b;
    let r = a % b;
    if 2 * r > b || (2 * r == b && q % 2 == 1) {
        q + 1
    } else {
        q
    }
}

/// The human-readable form of a size in bytes: below 1024 the number
/// itself with `B`; above, the size in the largest binary unit that fits
/// (up to `PB`), to one decimal place.
pub open spec fn size_text(size: int) -> Seq<char> {
    if size < 1024 {
        dec_int(size) + seq![' ', 'B']
    } else {
        let e = unit_from(size as nat, 1);
        let tenths = round_half_even((size * 10) as nat, pow1024(e));
        dec_digits(tenths / 10) + seq!['.', digit_char(tenths % 10), ' '] + unit_name(e)
    }
}

/// The instant `ms` milliseconds after the Unix epoch.
pub open spec fn epoch_time_of(ms: int) -> EpochTime {
    EpochTime { secs: (ms / 1000) as i64, nanos: ((ms % 1000) * 1_000_000) as u32 }
}

fn unit_str(e: u64) -> (r: &'static str)
    requires
        e <= 5,
    ensures
        r@ == unit_name(e as nat),
{
    proof {
        reveal_strlit("B");
        reveal_strlit("KB");
        reveal_strlit("MB");
        reveal_strlit("GB");
        reveal_strlit("TB");
        reveal_strlit("PB");
    }
    if e == 0 {
        "B"
    } else if e == 1 {
        "KB"
    } else if e == 2 {
        "MB"
    } else if e == 3 {
        "GB"
    } else if e == 4 {
        "TB"
    } else {
        "PB"
    }
}

impl DataInfo {
    /// The creation instant.
    pub fn created_time(&self) -> (r: EpochTime)
        ensures
            r == epoch_time_of(self.created_timestamp as int),
            r.nanos < 1_000_000_000,
            r.secs * 1000 + r.nanos / 1_000_000 == self.created_timestamp,
    {
        let ts = self.created_timestamp;
        if ts >= 0 {
            EpochTime { secs: ts / 1000, nanos: ((ts % 1000) as u32) * 1_000_000 }
        } else {
            let m: u64 = (-(ts + 1)) as u64;
            let secs: i64 = -((m / 1000) as i64) - 1;
            let rem: u64 = 999 - m % 1000;
            assert(ts as int == secs * 1000 + rem as int);
            assert(secs as int == (ts as int) / 1000 && rem as int == (ts as int) % 1000) by {
                vstd::arithmetic::div_mod::lemma_fundamental_div_mod_converse(
                    ts as int,
                    1000,
                    secs as int,
                    rem as int,
                );
            }
            EpochTime { secs, nanos: (rem as u32) * 1_000_000 }
        }
    }

    /// The size in a human-readable form, such as `100 B` or `1.5 KB`.
    pub fn format_size(&self) -> (r: String)
        ensures
            r@ == size_text(self.size as int),
    {
        proof {
            reveal_strlit(" B");
            reveal_strlit(".");
            reveal_strlit(" ");
        }
        let size = self.size;
        if size < 1024 {
            let s = decimal_i64(size);
            return s.concat(" B");
        }
        let n = size as u128;
        let mut e: u64 = 1;
        let mut unit: u128 = 1024;
        assert(pow1024(1) == 1024 && pow1024(5) == 0x4_0000_0000_0000) by {
            reveal_with_fuel(pow1024, 6);
        }
        while e < 5 && n >= unit * 1024
            invariant
                1 <= e <= 5,
                unit == pow1024(e as nat),
                unit <= pow1024(5),
                pow1024(5) == 0x4_0000_0000_0000,
                n < 0x8000_0000_0000_0000,
                unit_from(n as nat, e as nat) == unit_from(n as nat, 1),
            decreases 5 - e,
        {
            proof {
                lemma_pow1024_mono(e as nat + 1, 5);
            }
            unit = unit * 1024;
            e = e + 1;
        }
        assert(unit_from(n as nat, e as nat) == e);
        let a = n * 10;
        let q = a / unit;
        let rem = a % unit;
        let tenths = if 2 * rem > unit || (2 * rem == unit && q % 2 == 1) {
            q + 1
        } else {
            q
        };
        proof {
            lemma_pow1024_mono(1, e as nat);
            vstd::arithmetic::div_mod::lemma_div_is_ordered_by_denominator(a as int, 1, unit as int);
        }
        assert(tenths <= a + 1);
        let whole = (tenths / 10) as u64;
        let frac = (tenths % 10) as u64;
        let mut s = decimal_u64(whole);
        s.append(".");
        s.append(digit_str(frac));
        s.append(" ");
        s.append(unit_str(e));
        proof {
            assert(s@ =~= dec_digits(whole as nat) + seq!['.', digit_char(frac as nat), ' ']
                + unit_name(e as nat));
        }
        s
    }
}

/// `1024^e` grows with `e`.
proof fn lemma_pow1024_mono(e: nat, f: nat)
    requires
        e <= f,
    ensures
        pow1024(e) <= pow1024(f),
    decreases f - e,
{
    if e < f {
        lemma_pow1024_mono(e, (f - 1) as nat);
    }
}

} // verus!
