//! The status line renderer: an ordered sequence of labeled segments drawn
//! as a powerline-style chain.  Each segment is a padded label on its own
//! background, followed by a directional separator glyph whose foreground
//! is the current segment's background and whose background is the next
//! segment's background.  The backgrounds come from a cyclic color
//! sequence, advanced independently of the segment count, so the chain
//! never runs out of colors.

use vstd::prelude::*;
use vstd::string::StringExecFns;
use crate::palette::{Palette, Rgb};

verus! {

/// What one emitted span shows: a segment's label text, or the separator
/// glyph between two segments.
pub enum SpanKind {
    Label(String),
    Separator(char),
}

/// One styled span of the status line.
pub struct StatusSpan {
    pub kind: SpanKind,
    pub fg: Rgb,
    pub bg: Rgb,
    pub bold: bool,
}

/// A label as displayed: the segment text with one space of padding on
/// each side.
pub open spec fn padded(s: Seq<char>) -> Seq<char> {
    " "@ + s + " "@
}

/// What it means for the pair of spans emitted for segment `i` to be
/// correct: the label span shows the padded segment text in the base text
/// color on background `colors[i mod C]`, and the separator span shows the
/// glyph with foreground `colors[i mod C]` and background
/// `colors[(i + 1) mod C]`.
pub open spec fn pair_models(
    label: StatusSpan,
    sep_span: StatusSpan,
    seg: Seq<char>,
    colors: Seq<Rgb>,
    i: int,
    text_fg: Rgb,
    sep: char,
) -> bool {
    &&& label.kind matches SpanKind::Label(l) && l@ == padded(seg)
    &&& label.fg == text_fg
    &&& label.bg == colors[i % colors.len() as int]
    &&& label.bold
    &&& sep_span.kind matches SpanKind::Separator(c) && c == sep
    &&& sep_span.fg == colors[i % colors.len() as int]
    &&& sep_span.bg == colors[(i + 1) % colors.len() as int]
    &&& !sep_span.bold
}

/// Render the status line: for N segments and a color cycle of length C,
/// exactly N label+separator pairs are emitted, and segment `i`'s
/// separator background is always `colors[(i + 1) mod C]`, the color the
/// next segment's label will be drawn on.  A single segment still yields
/// one label and one separator.
pub fn status_line_spans(
    segments: &Vec<String>,
    colors: &Vec<Rgb>,
    text_fg: Rgb,
    sep: char,
) -> (r: Vec<StatusSpan>)
    requires
        colors@.len() >= 1,
    ensures
        r@.len() == 2 * segments@.len(),
        forall|i: int|
            0 <= i < segments@.len() ==> pair_models(
                #[trigger] r@[2 * i],
                r@[2 * i + 1],
                segments@[i]@,
                colors@,
                i,
                text_fg,
                sep,
            ),
{
    let c = colors.len();
    let n = segments.len();
    let mut out: Vec<StatusSpan> = Vec::new();
    let mut i: usize = 0;
    while i < n
        invariant
            i <= n,
            n == segments@.len(),
            c == colors@.len(),
            c >= 1,
            out@.len() == 2 * i,
            forall|k: int|
                0 <= k < i ==> pair_models(
                    #[trigger] out@[2 * k],
                    out@[2 * k + 1],
                    segments@[k]@,
                    colors@,
                    k,
                    text_fg,
                    sep,
                ),
        decreases n - i,
    {
        let cur = colors[i % c];
        let nxt = colors[(i + 1) % c];
        let mut label = String::from_str(" ");
        label.append(segments[i].as_str());
        label.append(" ");
        out.push(StatusSpan { kind: SpanKind::Label(label), fg: text_fg, bg: cur, bold: true });
        out.push(StatusSpan { kind: SpanKind::Separator(sep), fg: cur, bg: nxt, bold: false });
        i += 1;
    }
    out
}

/// The fixed segment texts the dashboard currently shows.
pub fn status_segments() -> (r: Vec<String>)
    ensures
        r@.len() == 3,
        r@[0]@ == "Hello there"@,
        r@[1]@ == "Oh yes"@,
        r@[2]@ == "Very nice"@,
{
    let mut v: Vec<String> = Vec::new();
    v.push(String::from_str("Hello there"));
    v.push(String::from_str("Oh yes"));
    v.push(String::from_str("Very nice"));
    v
}

/// The cyclic background color sequence the status line draws from, in
/// cycle order.
pub fn status_colors(p: &Palette) -> (r: Vec<Rgb>)
    ensures
        r@ == seq![p.rosewater, p.flamingo, p.mauve, p.sky, p.sapphire],
{
    let mut v: Vec<Rgb> = Vec::new();
    v.push(p.rosewater);
    v.push(p.flamingo);
    v.push(p.mauve);
    v.push(p.sky);
    v.push(p.sapphire);
    proof {
        assert(v@ =~= seq![p.rosewater, p.flamingo, p.mauve, p.sky, p.sapphire]);
    }
    v
}

} // verus!
