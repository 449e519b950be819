// Properties that relate the builder and the renderer.

use vstd::prelude::*;

use crate::banner::{
    block_at, block_count, blocks_from, build_outcome, colorize, colorize_from, empty_text_reason,
    first_unsupported, first_unsupported_from, is_supported, render_footer, render_line, render_lines,
    render_view, rule_line, text_row, unsupported_reason, upper_char, upper_seq, BannerView,
    UnvalidatedView,
};
use crate::color::{ansi_block, truecolor_prefix};
use crate::glyphs::{glyph_row, is_block_art, lemma_glyph_rows};

verus! {

/// `s` holds no escape character.
pub open spec fn escape_free(s: Seq<char>) -> bool {
    forall|j: int| 0 <= j < s.len() ==> s[j] != '\x1b'
}

/// `s` holds `p` as a contiguous part.
pub open spec fn contains(s: Seq<char>, p: Seq<char>) -> bool {
    exists|i: int| 0 <= i && i + p.len() <= s.len() && #[trigger] s.subrange(i, i + p.len()) == p
}

/// Finalizing refuses empty text, with the empty-text reason.
pub proof fn lemma_empty_refused(u: UnvalidatedView)
    requires
        u.text.len() == 0,
    ensures
        build_outcome(u) == Err::<BannerView, Seq<char>>(empty_text_reason()),
{
}

proof fn lemma_first_unsupported_upto(t: Seq<char>, i: nat, j: int)
    requires
        i <= j < t.len(),
        !is_supported(t[j]),
    ensures
        i <= first_unsupported_from(t, i) <= j,
        !is_supported(t[first_unsupported_from(t, i) as int]),
        forall|k: int| i <= k < first_unsupported_from(t, i) ==> is_supported(#[trigger] t[k]),
    decreases j - i,
{
    if is_supported(t[i as int]) {
        lemma_first_unsupported_upto(t, i + 1, j);
    }
}

/// Finalizing refuses text that holds an unsupported character, and the
/// reason names the first unsupported character of the text.
pub proof fn lemma_unsupported_refused(u: UnvalidatedView, j: int)
    requires
        0 <= j < u.text.len(),
        !is_supported(u.text[j]),
    ensures
        exists|i: int|
            0 <= i <= j && !is_supported(#[trigger] u.text[i]) && (forall|k: int|
                0 <= k < i ==> is_supported(#[trigger] u.text[k])) && build_outcome(u)
                == Err::<BannerView, Seq<char>>(unsupported_reason(u.text[i])),
{
    lemma_first_unsupported_upto(u.text, 0, j);
    let i = first_unsupported(u.text) as int;
    assert(0 <= i <= j && !is_supported(u.text[i]));
}

/// Rendering is a function of the banner alone: the same banner renders to
/// the same text every time.
pub proof fn lemma_render_deterministic(a: BannerView, b: BannerView)
    requires
        a == b,
    ensures
        render_view(a) == render_view(b),
{
}

proof fn lemma_upper_char(c: char)
    ensures
        is_supported(upper_char(c)) == is_supported(c),
        !is_supported(c) ==> upper_char(c) == c,
{
}

proof fn lemma_first_unsupported_case(t1: Seq<char>, t2: Seq<char>, i: nat)
    requires
        upper_seq(t1) == upper_seq(t2),
    ensures
        first_unsupported_from(t1, i) == first_unsupported_from(t2, i),
    decreases t1.len() - i,
{
    assert(t1.len() == upper_seq(t1).len());
    assert(t2.len() == upper_seq(t2).len());
    if i < t1.len() {
        let c1 = t1[i as int];
        let c2 = t2[i as int];
        assert(upper_seq(t1)[i as int] == upper_char(c1));
        assert(upper_seq(t2)[i as int] == upper_char(c2));
        lemma_upper_char(c1);
        lemma_upper_char(c2);
        lemma_first_unsupported_case(t1, t2, i + 1);
    }
}

proof fn lemma_first_unsupported_found(t: Seq<char>, i: nat)
    ensures
        first_unsupported_from(t, i) < t.len() ==> !is_supported(
            t[first_unsupported_from(t, i) as int],
        ),
    decreases t.len() - i,
{
    if i < t.len() && is_supported(t[i as int]) {
        lemma_first_unsupported_found(t, i + 1);
    }
}

/// Case does not matter: two texts that agree up to ASCII case, with the
/// same options, finalize to the same outcome, so their banners render alike.
pub proof fn lemma_case_invariant(u1: UnvalidatedView, u2: UnvalidatedView)
    requires
        upper_seq(u1.text) == upper_seq(u2.text),
        u1.colors == u2.colors,
        u1.subtitle == u2.subtitle,
        u1.line_length == u2.line_length,
    ensures
        build_outcome(u1) == build_outcome(u2),
        build_outcome(u1) is Ok ==> render_view(build_outcome(u1)->Ok_0) == render_view(
            build_outcome(u2)->Ok_0,
        ),
{
    let t1 = u1.text;
    let t2 = u2.text;
    assert(t1.len() == upper_seq(t1).len());
    assert(t2.len() == upper_seq(t2).len());
    lemma_first_unsupported_case(t1, t2, 0);
    lemma_first_unsupported_found(t1, 0);
    let i = first_unsupported(t1) as int;
    if 0 <= i < t1.len() {
        assert(upper_seq(t1)[i] == upper_char(t1[i]));
        assert(upper_seq(t2)[i] == upper_char(t2[i]));
        lemma_upper_char(t1[i]);
        lemma_upper_char(t2[i]);
    }
}

proof fn lemma_text_row_block_art(t: Seq<char>, line: int)
    requires
        0 <= line < 4,
    ensures
        is_block_art(text_row(t, line)),
    decreases t.len(),
{
    if t.len() > 0 {
        lemma_text_row_block_art(t.drop_last(), line);
        lemma_glyph_rows(t.last());
        let a = text_row(t.drop_last(), line);
        let g = glyph_row(t.last(), line);
        assert forall|j: int| 0 <= j < (a + g).len() implies (a + g)[j] == '█' || (a + g)[j]
            == ' ' by {
            if j >= a.len() {
                assert((a + g)[j] == g[j - a.len()]);
            }
        }
    }
}

proof fn lemma_plain_lines_escape_free(b: BannerView, n: nat)
    requires
        !b.colors,
        n <= 4,
    ensures
        escape_free(render_lines(b, n)),
    decreases n,
{
    if n > 0 {
        lemma_plain_lines_escape_free(b, (n - 1) as nat);
        lemma_text_row_block_art(b.text, n - 1);
        let a = render_lines(b, (n - 1) as nat);
        let l = render_line(b, n - 1);
        assert forall|j: int| 0 <= j < (a + l).len() implies (a + l)[j] != '\x1b' by {
            if j >= a.len() {
                assert((a + l)[j] == l[j - a.len()]);
            }
        }
    }
}

/// Without colors the rendering holds no escape character at all, provided
/// the subtitle holds none.
pub proof fn lemma_plain_render_escape_free(b: BannerView)
    requires
        !b.colors,
        match b.subtitle {
            Some(s) => escape_free(s),
            None => true,
        },
    ensures
        escape_free(render_view(b)),
{
    lemma_plain_lines_escape_free(b, 4);
    let a = render_lines(b, 4);
    let f = render_footer(b);
    if let Some(s) = b.subtitle {
        let r = rule_line(b.line_length).push('\n');
        assert(f == r + s.push('\n'));
        assert forall|j: int| 0 <= j < f.len() implies f[j] != '\x1b' by {
            if j >= r.len() {
                assert(f[j] == s.push('\n')[j - r.len()]);
            } else {
                assert(f[j] == r[j]);
            }
        }
    }
    assert forall|j: int| 0 <= j < (a + f).len() implies (a + f)[j] != '\x1b' by {
        if j >= a.len() {
            assert((a + f)[j] == f[j - a.len()]);
        }
    }
}

proof fn lemma_contains_extend(a: Seq<char>, s: Seq<char>, c: Seq<char>, p: Seq<char>)
    requires
        contains(s, p),
    ensures
        contains(a + s + c, p),
{
    let i = choose|i: int| 0 <= i && i + p.len() <= s.len() && #[trigger] s.subrange(i, i + p.len()) == p;
    let w = a + s + c;
    assert(w.subrange(a.len() + i, a.len() + i + p.len()) =~= s.subrange(i, i + p.len()));
}

proof fn lemma_colorize_from_has_escape(row: Seq<char>, p: nat, k: nat, total: nat)
    requires
        blocks_from(row, p) > 0,
    ensures
        contains(colorize_from(row, p, k, total), truecolor_prefix()),
    decreases row.len() - p,
{
    let pre = truecolor_prefix();
    if block_at(row, p as int) {
        let a = ansi_block(crate::color::block_color(k, total));
        let rest = colorize_from(row, p + 2, k + 1, total);
        assert(colorize_from(row, p, k, total) == a + rest);
        assert((a + rest).subrange(0int, 0int + pre.len()) =~= pre);
    } else {
        lemma_colorize_from_has_escape(row, p + 1, k, total);
        lemma_contains_extend(seq![row[p as int]], colorize_from(row, p + 1, k, total), Seq::empty(), pre);
        assert(seq![row[p as int]] + colorize_from(row, p + 1, k, total) + Seq::<char>::empty()
            =~= colorize_from(row, p, k, total));
    }
}

proof fn lemma_lines_contain(b: BannerView, n: nat, line: int)
    requires
        0 <= line < n <= 4,
        contains(render_line(b, line), truecolor_prefix()),
    ensures
        contains(render_lines(b, n), truecolor_prefix()),
    decreases n,
{
    let a = render_lines(b, (n - 1) as nat);
    let l = render_line(b, n - 1);
    if line == n - 1 {
        lemma_contains_extend(a, l, Seq::empty(), truecolor_prefix());
        assert(a + l + Seq::<char>::empty() =~= render_lines(b, n));
    } else {
        lemma_lines_contain(b, (n - 1) as nat, line);
        lemma_contains_extend(Seq::empty(), a, l, truecolor_prefix());
        assert(Seq::<char>::empty() + a + l =~= render_lines(b, n));
    }
}

/// With colors on, a banner whose art holds at least one block renders with
/// at least one truecolor escape.
pub proof fn lemma_colored_render_has_escape(b: BannerView)
    requires
        b.colors,
        exists|line: int| 0 <= line < 4 && block_count(#[trigger] text_row(b.text, line)) > 0,
    ensures
        contains(render_view(b), truecolor_prefix()),
{
    let line = choose|line: int| 0 <= line < 4 && block_count(#[trigger] text_row(b.text, line)) > 0;
    let row = text_row(b.text, line);
    lemma_colorize_from_has_escape(row, 0, 0, block_count(row));
    lemma_contains_extend(Seq::empty(), colorize(row), seq!['\n'], truecolor_prefix());
    assert(Seq::<char>::empty() + colorize(row) + seq!['\n'] =~= render_line(b, line));
    lemma_lines_contain(b, 4, line);
    lemma_contains_extend(Seq::empty(), render_lines(b, 4), render_footer(b), truecolor_prefix());
    assert(Seq::<char>::empty() + render_lines(b, 4) + render_footer(b) =~= render_view(b));
}

} // verus!
