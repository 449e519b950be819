// The banner builder, its validation, and the renderer.

use vstd::prelude::*;

use crate::color::{ansi_block, block_color, color_for_block, push_str};
use crate::glyphs::{get_char_line, glyph_row};

verus! {

/// The one error of this library: a configuration that cannot become a banner.
#[derive(Debug)]
pub enum IncrediError {
    InvalidConfig(String),
}

/// What the builder holds: the text as given and the options set so far.
pub struct UnvalidatedView {
    pub text: Seq<char>,
    pub colors: bool,
    pub subtitle: Option<Seq<char>>,
    pub line_length: Option<usize>,
}

/// What a validated banner holds.
pub struct BannerView {
    pub text: Seq<char>,
    pub colors: bool,
    pub subtitle: Option<Seq<char>>,
    pub line_length: usize,
}

/// Line length used when none was set.
pub const DEFAULT_LINE_LENGTH: usize = 80;

/// The characters a banner accepts: ASCII letters of either case and space.
pub open spec fn is_supported(c: char) -> bool {
    ('A' <= c && c <= 'Z') || ('a' <= c && c <= 'z') || c == ' '
}

/// The characters a validated banner holds: upper-case ASCII letters and space.
pub open spec fn is_banner_char(c: char) -> bool {
    ('A' <= c && c <= 'Z') || c == ' '
}

/// ASCII upper case of `c`; any other character is left as it is.
pub open spec fn upper_char(c: char) -> char {
    if 'a' <= c && c <= 'z' {
        ((c as u32 - 32) as u8) as char
    } else {
        c
    }
}

pub open spec fn upper_seq(t: Seq<char>) -> Seq<char> {
    t.map_values(|c: char| upper_char(c))
}

/// Index of the first unsupported character of `t` at or after `i`, or
/// `t.len()` when there is none.
pub open spec fn first_unsupported_from(t: Seq<char>, i: nat) -> nat
    decreases t.len() - i,
{
    if i >= t.len() {
        t.len()
    } else if !is_supported(t[i as int]) {
        i
    } else {
        first_unsupported_from(t, i + 1)
    }
}

pub open spec fn first_unsupported(t: Seq<char>) -> nat {
    first_unsupported_from(t, 0)
}

pub open spec fn empty_text_reason() -> Seq<char> {
    "Text cannot be empty"@
}

/// The reason given for an unsupported character: it names the character.
pub open spec fn unsupported_reason(c: char) -> Seq<char> {
    "Unsupported character '"@ + seq![c] + "'"@
}

/// What finalizing a configuration yields: the banner, or the reason it is
/// refused. Empty text is refused first; otherwise the first unsupported
/// character is named. An accepted text is upper-cased.
pub open spec fn build_outcome(u: UnvalidatedView) -> Result<BannerView, Seq<char>> {
    if u.text.len() == 0 {
        Err(empty_text_reason())
    } else if first_unsupported(u.text) < u.text.len() {
        Err(unsupported_reason(u.text[first_unsupported(u.text) as int]))
    } else {
        Ok(
            BannerView {
                text: upper_seq(u.text),
                colors: u.colors,
                subtitle: u.subtitle,
                line_length: match u.line_length {
                    Some(n) => n,
                    None => DEFAULT_LINE_LENGTH,
                },
            },
        )
    }
}

/// A validated banner's text is non-empty and holds only upper-case letters
/// and spaces.
pub open spec fn banner_text_ok(t: Seq<char>) -> bool {
    t.len() > 0 && forall|j: int| 0 <= j < t.len() ==> is_banner_char(#[trigger] t[j])
}

/// Row `line` of the text: the glyph rows of its characters side by side.
pub open spec fn text_row(t: Seq<char>, line: int) -> Seq<char>
    decreases t.len(),
{
    if t.len() == 0 {
        Seq::empty()
    } else {
        text_row(t.drop_last(), line) + glyph_row(t.last(), line)
    }
}

/// A block `██` starts at position `p` of `row`.
pub open spec fn block_at(row: Seq<char>, p: int) -> bool {
    0 <= p && p + 1 < row.len() && row[p] == '█' && row[p + 1] == '█'
}

/// Number of blocks in `row` from position `p` on, read left to right
/// without overlap.
pub open spec fn blocks_from(row: Seq<char>, p: nat) -> nat
    decreases row.len() - p,
{
    if p >= row.len() {
        0
    } else if block_at(row, p as int) {
        1 + blocks_from(row, p + 2)
    } else {
        blocks_from(row, p + 1)
    }
}

pub open spec fn block_count(row: Seq<char>) -> nat {
    blocks_from(row, 0)
}

/// `row` from position `p` on with each block painted: `k` blocks came
/// before, out of `total` in the row. Other characters pass through.
pub open spec fn colorize_from(row: Seq<char>, p: nat, k: nat, total: nat) -> Seq<char>
    decreases row.len() - p,
{
    if p >= row.len() {
        Seq::empty()
    } else if block_at(row, p as int) {
        ansi_block(block_color(k, total)) + colorize_from(row, p + 2, k + 1, total)
    } else {
        seq![row[p as int]] + colorize_from(row, p + 1, k, total)
    }
}

pub open spec fn colorize(row: Seq<char>) -> Seq<char> {
    colorize_from(row, 0, 0, block_count(row))
}

/// Output line `line` of the banner's art, newline included.
pub open spec fn render_line(b: BannerView, line: int) -> Seq<char> {
    let row = text_row(b.text, line);
    (if b.colors {
        colorize(row)
    } else {
        row
    }).push('\n')
}

/// The first `n` output lines of the art.
pub open spec fn render_lines(b: BannerView, n: nat) -> Seq<char>
    decreases n,
{
    if n == 0 {
        Seq::empty()
    } else {
        render_lines(b, (n - 1) as nat) + render_line(b, n - 1)
    }
}

/// A horizontal rule of `n` full blocks.
pub open spec fn rule_line(n: usize) -> Seq<char> {
    Seq::new(n as nat, |_i: int| '█')
}

/// Everything after the art: with a subtitle, a rule of the line length and
/// then the subtitle, each on its own line; without one, nothing.
pub open spec fn render_footer(b: BannerView) -> Seq<char> {
    match b.subtitle {
        Some(s) => rule_line(b.line_length).push('\n') + s.push('\n'),
        None => Seq::empty(),
    }
}

/// The whole rendered banner: four lines of art, then the footer.
pub open spec fn render_view(b: BannerView) -> Seq<char> {
    render_lines(b, 4) + render_footer(b)
}

/// Relies on `String`'s `FromIterator<char>`: the string holds the
/// characters in order.
#[verifier::external_body]
fn string_from_chars(v: &Vec<char>) -> (s: String)
    ensures
        s@ == v@,
{
    v.iter().collect()
}

impl IncrediError {
    /// The reason the configuration was refused.
    pub open spec fn reason(&self) -> Seq<char> {
        match self {
            IncrediError::InvalidConfig(m) => m@,
        }
    }

    /// A sentence that describes the error.
    pub fn message(&self) -> (s: String)
        ensures
            s@ == "Invalid banner configuration: "@ + self.reason(),
    {
        match self {
            IncrediError::InvalidConfig(m) => {
                let mut out: Vec<char> = Vec::new();
                push_str(&mut out, "Invalid banner configuration: ");
                push_str(&mut out, m.as_str());
                string_from_chars(&out)
            },
        }
    }
}

/// A banner configuration that has not been validated yet.
#[derive(Debug)]
pub struct UnvalidatedBanner {
    text: String,
    colors: bool,
    subtitle: Option<String>,
    line_length: Option<usize>,
}

/// A validated banner, ready to render.
#[derive(Debug)]
pub struct Banner {
    text: String,
    colors: bool,
    subtitle: Option<String>,
    line_length: usize,
}

pub open spec fn opt_string_view(o: Option<String>) -> Option<Seq<char>> {
    match o {
        Some(s) => Some(s@),
        None => None,
    }
}

impl View for UnvalidatedBanner {
    type V = UnvalidatedView;

    closed spec fn view(&self) -> UnvalidatedView {
        UnvalidatedView {
            text: self.text@,
            colors: self.colors,
            subtitle: opt_string_view(self.subtitle),
            line_length: self.line_length,
        }
    }
}

impl View for Banner {
    type V = BannerView;

    closed spec fn view(&self) -> BannerView {
        BannerView {
            text: self.text@,
            colors: self.colors,
            subtitle: opt_string_view(self.subtitle),
            line_length: self.line_length,
        }
    }
}

impl Banner {
    #[verifier::type_invariant]
    spec fn inv(&self) -> bool {
        banner_text_ok(self.text@)
    }
}

/// Row `line` of `text`: the glyph rows of its characters side by side.
fn text_row_chars(text: &Vec<char>, line: usize) -> (row: Vec<char>)
    requires
        line < 4,
    ensures
        row@ == text_row(text@, line as int),
{
    let mut row: Vec<char> = Vec::new();
    let mut j: usize = 0;
    while j < text.len()
        invariant
            line < 4,
            j <= text.len(),
            row@ == text_row(text@.subrange(0, j as int), line as int),
        decreases text.len() - j,
    {
        push_str(&mut row, get_char_line(text[j], line));
        proof {
            let t = text@.subrange(0, j + 1);
            assert(t.drop_last() =~= text@.subrange(0, j as int));
            assert(t.last() == text@[j as int]);
        }
        j = j + 1;
    }
    assert(text@.subrange(0, text.len() as int) =~= text@);
    row
}

impl Banner {
    /// Number of blocks `██` in `row`, read left to right without overlap.
    fn count_blocks(row: &Vec<char>) -> (n: usize)
        ensures
            n == block_count(row@),
    {
        let mut p: usize = 0;
        let mut n: usize = 0;
        while p < row.len()
            invariant
                p <= row.len(),
                n <= p,
                n + blocks_from(row@, p as nat) == block_count(row@),
            decreases row.len() - p,
        {
            if p + 1 < row.len() && row[p] == '█' && row[p + 1] == '█' {
                n = n + 1;
                p = p + 2;
            } else {
                p = p + 1;
            }
        }
        n
    }

    /// Appends `row` to `out` with each block painted by its position.
    fn colorize_row(row: &Vec<char>, out: &mut Vec<char>)
        ensures
            final(out)@ == old(out)@ + colorize(row@),
    {
        let total = Self::count_blocks(row);
        let mut p: usize = 0;
        let mut k: usize = 0;
        while p < row.len()
            invariant
                p <= row.len(),
                k <= p,
                total == block_count(row@),
                k + blocks_from(row@, p as nat) == total,
                old(out)@ + colorize(row@) == out@ + colorize_from(row@, p as nat, k as nat, total as nat),
            decreases row.len() - p,
        {
            let ghost before = out@;
            if p + 1 < row.len() && row[p] == '█' && row[p + 1] == '█' {
                let mut painted = color_for_block(k, total).to_ansi();
                out.append(&mut painted);
                proof {
                    let rest = colorize_from(row@, (p + 2) as nat, (k + 1) as nat, total as nat);
                    assert(before + (ansi_block(block_color(k as nat, total as nat)) + rest) =~= out@ + rest);
                }
                k = k + 1;
                p = p + 2;
            } else {
                out.push(row[p]);
                proof {
                    let rest = colorize_from(row@, (p + 1) as nat, k as nat, total as nat);
                    assert(before + (seq![row@[p as int]] + rest) =~= out@ + rest);
                }
                p = p + 1;
            }
        }
        assert(out@ =~= old(out)@ + colorize(row@));
    }
}

impl Banner {
    /// The banner as text: four lines of block art, each ending in a newline,
    /// painted when colors are on; then, with a subtitle, a rule of the line
    /// length and the subtitle, each on its own line.
    pub fn render(&self) -> (r: String)
        ensures
            r@ == render_view(self@),
    {
        let mut text: Vec<char> = Vec::new();
        push_str(&mut text, self.text.as_str());
        let mut out: Vec<char> = Vec::new();
        let mut line: usize = 0;
        while line < 4
            invariant
                line <= 4,
                text@ == self@.text,
                out@ == render_lines(self@, line as nat),
            decreases 4 - line,
        {
            let mut row = text_row_chars(&text, line);
            if self.colors {
                Self::colorize_row(&row, &mut out);
            } else {
                out.append(&mut row);
            }
            out.push('\n');
            line = line + 1;
        }
        if let Some(subtitle) = &self.subtitle {
            let mut i: usize = 0;
            while i < self.line_length
                invariant
                    i <= self.line_length,
                    out@ == render_lines(self@, 4) + rule_line(i),
                decreases self.line_length - i,
            {
                out.push('█');
                i = i + 1;
                assert(out@ =~= render_lines(self@, 4) + rule_line(i));
            }
            out.push('\n');
            push_str(&mut out, subtitle.as_str());
            out.push('\n');
            assert(out@ =~= render_view(self@));
        } else {
            assert(out@ =~= render_view(self@));
        }
        string_from_chars(&out)
    }
}

/// ASCII upper case of `c`.
fn to_upper(c: char) -> (u: char)
    ensures
        u == upper_char(c),
{
    if 'a' <= c && c <= 'z' {
        ((c as u32 - 32) as u8) as char
    } else {
        c
    }
}

impl UnvalidatedBanner {
    /// Validates the configuration. Empty text is refused, and so is text
    /// with a character other than an ASCII letter or a space, naming the
    /// first such character. Otherwise the banner holds the text upper-cased
    /// and the options as set, with the line length defaulting to 80.
    pub fn build(self) -> (r: Result<Banner, IncrediError>)
        ensures
            match r {
                Ok(b) => build_outcome(self@) == Ok::<BannerView, Seq<char>>(b@),
                Err(e) => build_outcome(self@) == Err::<BannerView, Seq<char>>(e.reason()),
            },
    {
        let mut text: Vec<char> = Vec::new();
        push_str(&mut text, self.text.as_str());
        if text.len() == 0 {
            return Err(IncrediError::InvalidConfig("Text cannot be empty".to_owned()));
        }
        let mut upper: Vec<char> = Vec::new();
        let mut i: usize = 0;
        while i < text.len()
            invariant
                i <= text.len(),
                text@ == self@.text,
                forall|k: int| 0 <= k < i ==> is_supported(#[trigger] text@[k]),
                first_unsupported(text@) == first_unsupported_from(text@, i as nat),
                upper@ == upper_seq(text@.subrange(0, i as int)),
            decreases text.len() - i,
        {
            let c = text[i];
            if !(('A' <= c && c <= 'Z') || ('a' <= c && c <= 'z') || c == ' ') {
                let mut reason: Vec<char> = Vec::new();
                push_str(&mut reason, "Unsupported character '");
                reason.push(c);
                push_str(&mut reason, "'");
                assert(reason@ =~= unsupported_reason(c));
                return Err(IncrediError::InvalidConfig(string_from_chars(&reason)));
            }
            upper.push(to_upper(c));
            i = i + 1;
            assert(upper@ =~= upper_seq(text@.subrange(0, i as int)));
        }
        assert(text@.subrange(0, i as int) =~= text@);
        let line_length = match self.line_length {
            Some(n) => n,
            None => DEFAULT_LINE_LENGTH,
        };
        Ok(
            Banner {
                text: string_from_chars(&upper),
                colors: self.colors,
                subtitle: self.subtitle,
                line_length,
            },
        )
    }

    /// Turns colors on.
    pub fn with_colors(self) -> (r: Self)
        ensures
            r@ == (UnvalidatedView { colors: true, ..self@ }),
    {
        let mut b = self;
        b.colors = true;
        b
    }

    /// Sets the subtitle, shown verbatim under the art.
    pub fn with_subtitle(self, subtitle: &str) -> (r: Self)
        ensures
            r@ == (UnvalidatedView { subtitle: Some(subtitle@), ..self@ }),
    {
        let mut b = self;
        b.subtitle = Some(subtitle.to_owned());
        b
    }

    /// Sets the line length, the width of the rule above the subtitle.
    pub fn with_line_length(self, length: usize) -> (r: Self)
        ensures
            r@ == (UnvalidatedView { line_length: Some(length), ..self@ }),
    {
        let mut b = self;
        b.line_length = Some(length);
        b
    }
}

impl Banner {
    /// Starts a configuration for `text`: no colors, no subtitle, no line
    /// length set.
    pub fn new(text: &str) -> (r: UnvalidatedBanner)
        ensures
            r@ == (UnvalidatedView { text: text@, colors: false, subtitle: None, line_length: None }),
    {
        UnvalidatedBanner { text: text.to_owned(), colors: false, subtitle: None, line_length: None }
    }
}

} // verus!
