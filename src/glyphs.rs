// The block-letter font: four rows of `██` cells and spaces for each
// character that it draws.

use vstd::prelude::*;

verus! {

/// Row `line` of the four rows `r0`..`r3`.
pub open spec fn pick(line: int, r0: Seq<char>, r1: Seq<char>, r2: Seq<char>, r3: Seq<char>) -> Seq<char> {
    if line == 0 {
        r0
    } else if line == 1 {
        r1
    } else if line == 2 {
        r2
    } else {
        r3
    }
}

/// A row of block art: every character is a block half `█` or a space.
pub open spec fn is_block_art(row: Seq<char>) -> bool {
    forall|j: int| 0 <= j < row.len() ==> row[j] == '█' || row[j] == ' '
}

/// Row `line` (0 to 3) of the glyph drawn for `c`. A character the font does
/// not hold is drawn with the font's last glyph, `>`.
pub open spec fn glyph_row(c: char, line: int) -> Seq<char> {
    match c {
        'A' => pick(line, "██████   "@, "██    ██ "@, "████████ "@, "██    ██ "@),
        'B' => pick(line, "██████   "@, "██    ██ "@, "██████   "@, "████████ "@),
        'C' => pick(line, "  ████ "@, "██     "@, "██     "@, "██████ "@),
        'D' => pick(line, "██████   "@, "██    ██ "@, "██    ██ "@, "██████   "@),
        'E' => pick(line, "██████ "@, "██     "@, "████   "@, "██████ "@),
        'F' => pick(line, "  ████ "@, "██     "@, "██████ "@, "██     "@),
        'G' => pick(line, "  ████ "@, "██     "@, "██  ██ "@, "██████ "@),
        'H' => pick(line, "██    ██ "@, "██    ██ "@, "████████ "@, "██    ██ "@),
        'I' => pick(line, "██ "@, "██ "@, "██ "@, "██ "@),
        'J' => pick(line, "    ██ "@, "    ██ "@, "██  ██ "@, "██████ "@),
        'K' => pick(line, "██    ██ "@, "██  ██   "@, "████     "@, "██    ██ "@),
        'L' => pick(line, "██     "@, "██     "@, "██     "@, "██████ "@),
        'M' => pick(line, "████████   "@, "██  ██  ██ "@, "██  ██  ██ "@, "██  ██  ██ "@),
        'N' => pick(line, "██████   "@, "██    ██ "@, "██    ██ "@, "██    ██ "@),
        'O' => pick(line, "██████   "@, "██    ██ "@, "██    ██ "@, "  ██████ "@),
        'P' => pick(line, "  ██████ "@, "██    ██ "@, "██████   "@, "██       "@),
        'Q' => pick(line, "██████   "@, "██    ██ "@, "██  ████ "@, "████  ██ "@),
        'R' => pick(line, "██████   "@, "██    ██ "@, "██████   "@, "██    ██ "@),
        'S' => pick(line, "██████ "@, "██     "@, "    ██ "@, "██████ "@),
        'T' => pick(line, "████████ "@, "   ██    "@, "   ██    "@, "   ██    "@),
        'U' => pick(line, "██    ██ "@, "██    ██ "@, "██    ██ "@, "  ██████ "@),
        'V' => pick(line, "██    ██ "@, "██    ██ "@, "██  ██   "@, "████     "@),
        'W' => pick(line, "██  ██  ██ "@, "██  ██  ██ "@, "██  ██  ██ "@, "  ████████ "@),
        'X' => pick(line, "██    ██ "@, "  ██     "@, "    ██   "@, "██    ██ "@),
        'Y' => pick(line, "██    ██ "@, "████████ "@, "   ██    "@, "   ██    "@),
        'Z' => pick(line, "████  ██ "@, "    ██   "@, "  ██     "@, "████████ "@),
        ' ' => pick(line, "   "@, "   "@, "   "@, "   "@),
        '1' => pick(line, "  ██   "@, "████   "@, "  ██   "@, "██████ "@),
        '2' => pick(line, "██████ "@, "    ██ "@, "██     "@, "██████ "@),
        '3' => pick(line, "██████ "@, "    ██ "@, "  ████ "@, "██████ "@),
        '4' => pick(line, "██  ██ "@, "██  ██ "@, "██████ "@, "    ██ "@),
        '5' => pick(line, "██████ "@, "██     "@, "    ██ "@, "██████ "@),
        '6' => pick(line, "██     "@, "██████ "@, "██  ██ "@, "██████ "@),
        '7' => pick(line, "██████ "@, "    ██ "@, "  ██   "@, "██     "@),
        '8' => pick(line, "██████ "@, "██  ██ "@, "██  ██ "@, "██████ "@),
        '9' => pick(line, "██████ "@, "██  ██ "@, "██████ "@, "    ██ "@),
        '.' => pick(line, "    "@, "    "@, "██  "@, "██  "@),
        ',' => pick(line, "    "@, "    "@, "██  "@, "██  "@),
        '!' => pick(line, "██  "@, "██  "@, "    "@, "██  "@),
        '?' => pick(line, "██████ "@, "    ██ "@, "      "@, "  ██   "@),
        '-' => pick(line, "      "@, "██████"@, "      "@, "      "@),
        '+' => pick(line, "  ██  "@, "██████"@, "  ██  "@, "      "@),
        '=' => pick(line, "      "@, "██████"@, "██████"@, "      "@),
        '@' => pick(line, "██████  "@, "██  ████"@, "██    ██"@, "  ██████"@),
        '#' => pick(line, " ██  ██ "@, "████████"@, "████████"@, " ██  ██ "@),
        '$' => pick(line, "██    "@, "██████"@, "██████"@, "    ██"@),
        '%' => pick(line, "██  ██"@, "  ██  "@, "██    "@, "██  ██"@),
        '&' => pick(line, "████  "@, "██  ██"@, "  ██  "@, "██  ██"@),
        '*' => pick(line, "██  ██"@, "  ██  "@, "██  ██"@, "      "@),
        '(' => pick(line, "  ██"@, "██  "@, "██  "@, "  ██"@),
        ')' => pick(line, "██  "@, "  ██"@, "  ██"@, "██  "@),
        '[' => pick(line, "████"@, "██  "@, "██  "@, "████"@),
        ']' => pick(line, "████"@, "  ██"@, "  ██"@, "████"@),
        '{' => pick(line, "  ██"@, "██  "@, "██  "@, "  ██"@),
        '}' => pick(line, "██  "@, "  ██"@, "  ██"@, "██  "@),
        '|' => pick(line, "██ "@, "██ "@, "██ "@, "██ "@),
        '/' => pick(line, "      ██"@, "    ██  "@, "  ██    "@, "██      "@),
        '\\' => pick(line, "██      "@, "  ██    "@, "    ██  "@, "      ██"@),
        '_' => pick(line, "      "@, "      "@, "      "@, "██████"@),
        '^' => pick(line, "  ██  "@, "██  ██"@, "      "@, "      "@),
        '~' => pick(line, "        "@, "██  ██  "@, "  ██  ██"@, "        "@),
        '\'' => pick(line, "██"@, "██"@, "  "@, "  "@),
        '"' => pick(line, "██ ██"@, "██ ██"@, "     "@, "     "@),
        ':' => pick(line, "  "@, "██"@, "  "@, "██"@),
        ';' => pick(line, "  "@, "██"@, "  "@, "██"@),
        '<' => pick(line, "  ██"@, "██  "@, "██  "@, "  ██"@),
        _ => pick(line, "██  "@, "  ██"@, "  ██"@, "██  "@),
    }
}

fn pick_row(line: usize, r0: &'static str, r1: &'static str, r2: &'static str, r3: &'static str) -> (r: &'static str)
    requires
        line < 4,
    ensures
        r@ == pick(line as int, r0@, r1@, r2@, r3@),
{
    if line == 0 {
        r0
    } else if line == 1 {
        r1
    } else if line == 2 {
        r2
    } else {
        r3
    }
}

/// Row `line` of the glyph for `c`; characters outside the font fall back to
/// its last glyph.
pub fn get_char_line(c: char, line: usize) -> (r: &'static str)
    requires
        line < 4,
    ensures
        r@ == glyph_row(c, line as int),
{
    match c {
        'A' => pick_row(line, "██████   ", "██    ██ ", "████████ ", "██    ██ "),
        'B' => pick_row(line, "██████   ", "██    ██ ", "██████   ", "████████ "),
        'C' => pick_row(line, "  ████ ", "██     ", "██     ", "██████ "),
        'D' => pick_row(line, "██████   ", "██    ██ ", "██    ██ ", "██████   "),
        'E' => pick_row(line, "██████ ", "██     ", "████   ", "██████ "),
        'F' => pick_row(line, "  ████ ", "██     ", "██████ ", "██     "),
        'G' => pick_row(line, "  ████ ", "██     ", "██  ██ ", "██████ "),
        'H' => pick_row(line, "██    ██ ", "██    ██ ", "████████ ", "██    ██ "),
        'I' => pick_row(line, "██ ", "██ ", "██ ", "██ "),
        'J' => pick_row(line, "    ██ ", "    ██ ", "██  ██ ", "██████ "),
        'K' => pick_row(line, "██    ██ ", "██  ██   ", "████     ", "██    ██ "),
        'L' => pick_row(line, "██     ", "██     ", "██     ", "██████ "),
        'M' => pick_row(line, "████████   ", "██  ██  ██ ", "██  ██  ██ ", "██  ██  ██ "),
        'N' => pick_row(line, "██████   ", "██    ██ ", "██    ██ ", "██    ██ "),
        'O' => pick_row(line, "██████   ", "██    ██ ", "██    ██ ", "  ██████ "),
        'P' => pick_row(line, "  ██████ ", "██    ██ ", "██████   ", "██       "),
        'Q' => pick_row(line, "██████   ", "██    ██ ", "██  ████ ", "████  ██ "),
        'R' => pick_row(line, "██████   ", "██    ██ ", "██████   ", "██    ██ "),
        'S' => pick_row(line, "██████ ", "██     ", "    ██ ", "██████ "),
        'T' => pick_row(line, "████████ ", "   ██    ", "   ██    ", "   ██    "),
        'U' => pick_row(line, "██    ██ ", "██    ██ ", "██    ██ ", "  ██████ "),
        'V' => pick_row(line, "██    ██ ", "██    ██ ", "██  ██   ", "████     "),
        'W' => pick_row(line, "██  ██  ██ ", "██  ██  ██ ", "██  ██  ██ ", "  ████████ "),
        'X' => pick_row(line, "██    ██ ", "  ██     ", "    ██   ", "██    ██ "),
        'Y' => pick_row(line, "██    ██ ", "████████ ", "   ██    ", "   ██    "),
        'Z' => pick_row(line, "████  ██ ", "    ██   ", "  ██     ", "████████ "),
        ' ' => pick_row(line, "   ", "   ", "   ", "   "),
        '1' => pick_row(line, "  ██   ", "████   ", "  ██   ", "██████ "),
        '2' => pick_row(line, "██████ ", "    ██ ", "██     ", "██████ "),
        '3' => pick_row(line, "██████ ", "    ██ ", "  ████ ", "██████ "),
        '4' => pick_row(line, "██  ██ ", "██  ██ ", "██████ ", "    ██ "),
        '5' => pick_row(line, "██████ ", "██     ", "    ██ ", "██████ "),
        '6' => pick_row(line, "██     ", "██████ ", "██  ██ ", "██████ "),
        '7' => pick_row(line, "██████ ", "    ██ ", "  ██   ", "██     "),
        '8' => pick_row(line, "██████ ", "██  ██ ", "██  ██ ", "██████ "),
        '9' => pick_row(line, "██████ ", "██  ██ ", "██████ ", "    ██ "),
        '.' => pick_row(line, "    ", "    ", "██  ", "██  "),
        ',' => pick_row(line, "    ", "    ", "██  ", "██  "),
        '!' => pick_row(line, "██  ", "██  ", "    ", "██  "),
        '?' => pick_row(line, "██████ ", "    ██ ", "      ", "  ██   "),
        '-' => pick_row(line, "      ", "██████", "      ", "      "),
        '+' => pick_row(line, "  ██  ", "██████", "  ██  ", "      "),
        '=' => pick_row(line, "      ", "██████", "██████", "      "),
        '@' => pick_row(line, "██████  ", "██  ████", "██    ██", "  ██████"),
        '#' => pick_row(line, " ██  ██ ", "████████", "████████", " ██  ██ "),
        '$' => pick_row(line, "██    ", "██████", "██████", "    ██"),
        '%' => pick_row(line, "██  ██", "  ██  ", "██    ", "██  ██"),
        '&' => pick_row(line, "████  ", "██  ██", "  ██  ", "██  ██"),
        '*' => pick_row(line, "██  ██", "  ██  ", "██  ██", "      "),
        '(' => pick_row(line, "  ██", "██  ", "██  ", "  ██"),
        ')' => pick_row(line, "██  ", "  ██", "  ██", "██  "),
        '[' => pick_row(line, "████", "██  ", "██  ", "████"),
        ']' => pick_row(line, "████", "  ██", "  ██", "████"),
        '{' => pick_row(line, "  ██", "██  ", "██  ", "  ██"),
        '}' => pick_row(line, "██  ", "  ██", "  ██", "██  "),
        '|' => pick_row(line, "██ ", "██ ", "██ ", "██ "),
        '/' => pick_row(line, "      ██", "    ██  ", "  ██    ", "██      "),
        '\\' => pick_row(line, "██      ", "  ██    ", "    ██  ", "      ██"),
        '_' => pick_row(line, "      ", "      ", "      ", "██████"),
        '^' => pick_row(line, "  ██  ", "██  ██", "      ", "      "),
        '~' => pick_row(line, "        ", "██  ██  ", "  ██  ██", "        "),
        '\'' => pick_row(line, "██", "██", "  ", "  "),
        '"' => pick_row(line, "██ ██", "██ ██", "     ", "     "),
        ':' => pick_row(line, "  ", "██", "  ", "██"),
        ';' => pick_row(line, "  ", "██", "  ", "██"),
        '<' => pick_row(line, "  ██", "██  ", "██  ", "  ██"),
        _ => pick_row(line, "██  ", "  ██", "  ██", "██  "),
    }
}

/// Every character has exactly four glyph rows, each of them non-empty
/// block art.
pub proof fn lemma_glyph_rows(c: char)
    ensures
        forall|line: int|
            0 <= line < 4 ==> #[trigger] glyph_row(c, line).len() > 0 && is_block_art(glyph_row(c, line)),
{
    reveal_strlit("██████   ");
    reveal_strlit("██    ██ ");
    reveal_strlit("████████ ");
    reveal_strlit("  ████ ");
    reveal_strlit("██     ");
    reveal_strlit("██████ ");
    reveal_strlit("████   ");
    reveal_strlit("██  ██ ");
    reveal_strlit("██ ");
    reveal_strlit("    ██ ");
    reveal_strlit("██  ██   ");
    reveal_strlit("████     ");
    reveal_strlit("████████   ");
    reveal_strlit("██  ██  ██ ");
    reveal_strlit("  ██████ ");
    reveal_strlit("██       ");
    reveal_strlit("██  ████ ");
    reveal_strlit("████  ██ ");
    reveal_strlit("   ██    ");
    reveal_strlit("  ████████ ");
    reveal_strlit("  ██     ");
    reveal_strlit("    ██   ");
    reveal_strlit("   ");
    reveal_strlit("  ██   ");
    reveal_strlit("    ");
    reveal_strlit("██  ");
    reveal_strlit("      ");
    reveal_strlit("██████");
    reveal_strlit("  ██  ");
    reveal_strlit("██████  ");
    reveal_strlit("██  ████");
    reveal_strlit("██    ██");
    reveal_strlit("  ██████");
    reveal_strlit(" ██  ██ ");
    reveal_strlit("████████");
    reveal_strlit("██    ");
    reveal_strlit("    ██");
    reveal_strlit("██  ██");
    reveal_strlit("████  ");
    reveal_strlit("  ██");
    reveal_strlit("████");
    reveal_strlit("      ██");
    reveal_strlit("    ██  ");
    reveal_strlit("  ██    ");
    reveal_strlit("██      ");
    reveal_strlit("        ");
    reveal_strlit("██  ██  ");
    reveal_strlit("  ██  ██");
    reveal_strlit("██");
    reveal_strlit("  ");
    reveal_strlit("██ ██");
    reveal_strlit("     ");
}

} // verus!
