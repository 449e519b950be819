// Colors and the ANSI truecolor escapes that paint one block with them.

use vstd::prelude::*;

verus! {

/// An 8-bit RGB triple.
pub type Rgb = (u8, u8, u8);

/// The character for decimal digit `d` (0 to 9).
pub open spec fn digit_char(d: nat) -> char {
    ((d + 48) as u8) as char
}

/// Decimal digits of `n`, most significant first, with no leading zeros.
pub open spec fn decimal(n: nat) -> Seq<char>
    decreases n,
{
    if n < 10 {
        seq![digit_char(n)]
    } else {
        decimal(n / 10).push(digit_char(n % 10))
    }
}

/// The start of every truecolor foreground escape: `ESC [ 38 ; 2 ;`.
pub open spec fn truecolor_prefix() -> Seq<char> {
    seq!['\x1b', '[', '3', '8', ';', '2', ';']
}

/// The escape that resets all attributes: `ESC [ 0 m`.
pub open spec fn reset_escape() -> Seq<char> {
    seq!['\x1b', '[', '0', 'm']
}

/// One block `██` painted with color `c`, followed by a reset.
pub open spec fn ansi_block(c: Rgb) -> Seq<char> {
    truecolor_prefix() + decimal(c.0 as nat) + seq![';'] + decimal(c.1 as nat) + seq![';']
        + decimal(c.2 as nat) + seq!['m', '█', '█'] + reset_escape()
}

/// The light gray that fills the leading part of every row.
pub open spec fn base_color() -> Rgb {
    (230, 230, 230)
}

/// The ten-stop rainbow, indigo to red; indices past the end clamp to red.
pub open spec fn rainbow(i: int) -> Rgb {
    if i <= 0 {
        (63, 81, 181)
    } else if i == 1 {
        (33, 150, 243)
    } else if i == 2 {
        (3, 169, 244)
    } else if i == 3 {
        (0, 150, 136)
    } else if i == 4 {
        (76, 175, 80)
    } else if i == 5 {
        (205, 220, 57)
    } else if i == 6 {
        (255, 193, 7)
    } else if i == 7 {
        (255, 152, 0)
    } else if i == 8 {
        (255, 87, 34)
    } else {
        (244, 67, 54)
    }
}

/// How many blocks at the end of a row of `total` blocks take rainbow colors:
/// a fifth of them, and at least one.
pub open spec fn rainbow_len(total: nat) -> nat {
    if total / 5 >= 1 {
        total / 5
    } else {
        1
    }
}

/// Index of the first rainbow block in a row of `total` blocks.
pub open spec fn rainbow_start(total: nat) -> nat {
    if total >= rainbow_len(total) {
        (total - rainbow_len(total)) as nat
    } else {
        0
    }
}

/// Color of block `k` (counted from 0) in a row of `total` blocks: the base
/// gray before the rainbow zone, then the rainbow stop at the block's
/// position within that zone, scaled to the ten stops.
pub open spec fn block_color(k: nat, total: nat) -> Rgb {
    if k >= rainbow_start(total) {
        rainbow(((k - rainbow_start(total)) * 10 / (rainbow_len(total) as int)) as int)
    } else {
        base_color()
    }
}

pub struct RgbColor {
    pub r: u8,
    pub g: u8,
    pub b: u8,
}

impl RgbColor {
    pub open spec fn rgb(&self) -> Rgb {
        (self.r, self.g, self.b)
    }

    pub fn new(r: u8, g: u8, b: u8) -> (c: Self)
        ensures
            c.rgb() == (r, g, b),
    {
        RgbColor { r, g, b }
    }

    /// The block `██` painted in this color.
    pub fn to_ansi(&self) -> (s: Vec<char>)
        ensures
            s@ == ansi_block(self.rgb()),
    {
        let mut s: Vec<char> = Vec::new();
        push_str(&mut s, "\x1b[38;2;");
        push_decimal(&mut s, self.r);
        s.push(';');
        push_decimal(&mut s, self.g);
        s.push(';');
        push_decimal(&mut s, self.b);
        push_str(&mut s, "m██\x1b[0m");
        proof {
            reveal_strlit("\x1b[38;2;");
            reveal_strlit("m██\x1b[0m");
            assert(s@ =~= ansi_block(self.rgb()));
        }
        s
    }
}

/// Appends the characters of `t` to `out`.
pub fn push_str(out: &mut Vec<char>, t: &str)
    ensures
        final(out)@ == old(out)@ + t@,
{
    let n = t.unicode_len();
    let mut i: usize = 0;
    while i < n
        invariant
            n == t@.len(),
            i <= n,
            out@ == old(out)@ + t@.subrange(0, i as int),
        decreases n - i,
    {
        let c = t.get_char(i);
        out.push(c);
        i = i + 1;
        assert(t@.subrange(0, i as int) =~= t@.subrange(0, i - 1).push(c));
    }
    assert(t@.subrange(0, n as int) =~= t@);
}

fn digit(d: u8) -> (c: char)
    requires
        d < 10,
    ensures
        c == digit_char(d as nat),
{
    (d + 48) as char
}

/// Appends the decimal digits of `n` to `out`.
pub fn push_decimal(out: &mut Vec<char>, n: u8)
    ensures
        final(out)@ == old(out)@ + decimal(n as nat),
{
    let ghost n0 = n as nat;
    if n >= 100 {
        out.push(digit(n / 100));
        out.push(digit((n / 10) % 10));
        out.push(digit(n % 10));
        proof {
            assert(decimal((n0 / 10) / 10) == seq![digit_char(n0 / 100)]);
            assert(decimal(n0 / 10) == decimal(n0 / 10 / 10).push(digit_char((n0 / 10) % 10)));
            assert(decimal(n0) =~= seq![digit_char(n0 / 100), digit_char((n0 / 10) % 10), digit_char(n0 % 10)]);
        }
    } else if n >= 10 {
        out.push(digit(n / 10));
        out.push(digit(n % 10));
        proof {
            assert(decimal(n0 / 10) == seq![digit_char(n0 / 10)]);
            assert(decimal(n0) =~= seq![digit_char(n0 / 10), digit_char(n0 % 10)]);
        }
    } else {
        out.push(digit(n));
        assert(decimal(n0) =~= seq![digit_char(n0)]);
    }
    assert(final(out)@ =~= old(out)@ + decimal(n as nat));
}

/// The gray that fills the leading blocks of a row.
pub fn base() -> (c: RgbColor)
    ensures
        c.rgb() == base_color(),
{
    RgbColor::new(230, 230, 230)
}

/// Rainbow stop `i`; indices past the last stop clamp to it.
pub fn rainbow_color(i: usize) -> (c: RgbColor)
    ensures
        c.rgb() == rainbow(i as int),
{
    match i {
        0 => RgbColor::new(63, 81, 181),
        1 => RgbColor::new(33, 150, 243),
        2 => RgbColor::new(3, 169, 244),
        3 => RgbColor::new(0, 150, 136),
        4 => RgbColor::new(76, 175, 80),
        5 => RgbColor::new(205, 220, 57),
        6 => RgbColor::new(255, 193, 7),
        7 => RgbColor::new(255, 152, 0),
        8 => RgbColor::new(255, 87, 34),
        _ => RgbColor::new(244, 67, 54),
    }
}

/// Color of block `k` in a row of `total` blocks.
pub fn color_for_block(k: usize, total: usize) -> (c: RgbColor)
    ensures
        c.rgb() == block_color(k as nat, total as nat),
{
    let len: usize = if total / 5 >= 1 { total / 5 } else { 1 };
    let start: usize = if total >= len { total - len } else { 0 };
    if k >= start {
        let idx: u128 = ((k - start) as u128) * 10 / (len as u128);
        if idx >= 9 {
            rainbow_color(9)
        } else {
            rainbow_color(idx as usize)
        }
    } else {
        base()
    }
}

} // verus!
