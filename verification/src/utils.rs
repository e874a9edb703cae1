//! Small arithmetic and parsing helpers shared across the renderer core.

use vstd::prelude::*;
use vstd::string::*;

verus! {

/// Compare two string slices character by character.
pub fn str_eq(a: &str, b: &str) -> (r: bool)
    ensures
        r == (a@ == b@),
{
    let a_len = a.unicode_len();
    let b_len = b.unicode_len();
    if a_len != b_len {
        return false;
    }
    let mut i: usize = 0;
    while i < a_len
        invariant
            a_len == a@.len(),
            b_len == b@.len(),
            a_len == b_len,
            i <= a_len,
            forall|j: int| 0 <= j < i ==> a@[j] == b@[j],
        decreases a_len - i,
    {
        if a.get_char(i) != b.get_char(i) {
            return false;
        }
        i += 1;
    }
    proof {
        assert(a@ =~= b@);
    }
    true
}

/// Value of a hexadecimal digit character, or -1 for any other character.
pub open spec fn hex_digit_value(c: char) -> int {
    if '0' as u32 <= c as u32 && c as u32 <= '9' as u32 {
        c as u32 - '0' as u32
    } else if 'a' as u32 <= c as u32 && c as u32 <= 'f' as u32 {
        c as u32 - 'a' as u32 + 10
    } else if 'A' as u32 <= c as u32 && c as u32 <= 'F' as u32 {
        c as u32 - 'A' as u32 + 10
    } else {
        -1
    }
}

/// Value of a two-digit hexadecimal channel; a pair with any non-digit
/// character falls back to zero.
pub open spec fn hex_pair_value(hi: char, lo: char) -> int {
    if hex_digit_value(hi) >= 0 && hex_digit_value(lo) >= 0 {
        16 * hex_digit_value(hi) + hex_digit_value(lo)
    } else {
        0
    }
}

/// The string with every leading `#` removed.
pub open spec fn strip_hash(s: Seq<char>) -> Seq<char>
    decreases s.len(),
{
    if s.len() > 0 && s[0] == '#' {
        strip_hash(s.drop_first())
    } else {
        s
    }
}

/// The three channels of a CSS hex color string: after leading `#` signs,
/// three two-digit pairs; a string with fewer than six remaining characters
/// is black.
pub open spec fn hex_color_channels(s: Seq<char>) -> (int, int, int) {
    let t = strip_hash(s);
    if t.len() < 6 {
        (0, 0, 0)
    } else {
        (hex_pair_value(t[0], t[1]), hex_pair_value(t[2], t[3]), hex_pair_value(t[4], t[5]))
    }
}

/// Stripping leading hash signs one by one reaches the suffix past them.
proof fn lemma_strip_hash_skip(s: Seq<char>, i: int)
    requires
        0 <= i <= s.len(),
        forall|j: int| 0 <= j < i ==> s[j] == '#',
    ensures
        strip_hash(s) == strip_hash(s.skip(i)),
    decreases i,
{
    if i > 0 {
        assert(s[0] == '#');
        lemma_strip_hash_skip(s.drop_first(), i - 1);
        assert(s.drop_first().skip(i - 1) =~= s.skip(i));
    } else {
        assert(s.skip(0) =~= s);
    }
}

/// Parse a CSS hex color string `#RRGGBB` into its three byte channels.
///
/// Leading `#` signs are stripped; a short remainder gives black, and a
/// channel whose pair holds a non-digit gives zero for that channel.
pub fn parse_hex_color(hex: &str) -> (r: (u8, u8, u8))
    ensures
        r.0 == hex_color_channels(hex@).0,
        r.1 == hex_color_channels(hex@).1,
        r.2 == hex_color_channels(hex@).2,
{
    let n = hex.unicode_len();
    let mut i: usize = 0;
    while i < n && hex.get_char(i) == '#'
        invariant
            n == hex@.len(),
            i <= n,
            forall|j: int| 0 <= j < i ==> hex@[j] == '#',
        decreases n - i,
    {
        i += 1;
    }
    proof {
        lemma_strip_hash_skip(hex@, i as int);
        if i < n {
            assert(hex@.skip(i as int)[0] == hex@[i as int]);
        }
        assert(strip_hash(hex@) == hex@.skip(i as int));
    }
    if n - i < 6 {
        return (0, 0, 0);
    }
    proof {
        assert(hex@.skip(i as int).len() == n - i);
    }
    let c0 = hex.get_char(i);
    let c1 = hex.get_char(i + 1);
    let c2 = hex.get_char(i + 2);
    let c3 = hex.get_char(i + 3);
    let c4 = hex.get_char(i + 4);
    let c5 = hex.get_char(i + 5);
    proof {
        assert(forall|k: int|
            0 <= k < 6 ==> #[trigger] hex@.skip(i as int)[k] == hex@[i + k]);
    }
    (hex_pair(c0, c1), hex_pair(c2, c3), hex_pair(c4, c5))
}

/// Value of one hexadecimal digit character, or -1.
fn hex_digit(c: char) -> (r: i32)
    ensures
        r == hex_digit_value(c),
{
    let u = c as u32;
    if '0' as u32 <= u && u <= '9' as u32 {
        (u - '0' as u32) as i32
    } else if 'a' as u32 <= u && u <= 'f' as u32 {
        (u - 'a' as u32 + 10) as i32
    } else if 'A' as u32 <= u && u <= 'F' as u32 {
        (u - 'A' as u32 + 10) as i32
    } else {
        -1
    }
}

/// Value of one two-digit hexadecimal channel, zero on a non-digit.
fn hex_pair(hi: char, lo: char) -> (r: u8)
    ensures
        r == hex_pair_value(hi, lo),
{
    let h = hex_digit(hi);
    let l = hex_digit(lo);
    if h >= 0 && l >= 0 {
        (16 * h + l) as u8
    } else {
        0
    }
}

/// Clamp an `i32` to the inclusive range `[min, max]`.
pub fn clampi(v: i32, min: i32, max: i32) -> (r: i32)
    ensures
        r == if v < min {
            min
        } else if v > max {
            max
        } else {
            v
        },
{
    if v < min {
        min
    } else if v > max {
        max
    } else {
        v
    }
}

} // verus!
