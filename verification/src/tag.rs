//! The per-host visual tag: the text `[hostname]`, shown in a color that is a
//! pure function of the host's position in the list, cycling through a fixed
//! palette of seven names.

use vstd::prelude::*;
use vstd::string::StringExecFns;
use vstd::arithmetic::div_mod::lemma_mod_add_multiples_vanish;

verus! {

/// The palette entry for a reduced index below seven.
pub open spec fn palette_spec(k: int) -> Seq<char> {
    if k == 0 {
        "red"@
    } else if k == 1 {
        "green"@
    } else if k == 2 {
        "yellow"@
    } else if k == 3 {
        "blue"@
    } else if k == 4 {
        "magenta"@
    } else if k == 5 {
        "cyan"@
    } else {
        "white"@
    }
}

/// The color of the host at position `index`: the palette cycled with period
/// seven.
pub open spec fn color_spec(index: int) -> Seq<char> {
    palette_spec(index % 7)
}

/// Picks the color name for the host at position `index`.
pub fn color_name(index: usize) -> (r: String)
    ensures
        r@ == color_spec(index as int),
{
    let k = index % 7;
    let s: &str = match k {
        0 => "red",
        1 => "green",
        2 => "yellow",
        3 => "blue",
        4 => "magenta",
        5 => "cyan",
        _ => "white",
    };
    proof {
        assert(k as int == (index as int) % 7);
        assert(s@ == palette_spec(k as int));
    }
    String::from_str(s)
}

/// The plain text of a host's tag: the hostname in square brackets.
pub open spec fn tag_text_spec(host: Seq<char>) -> Seq<char> {
    "["@ + host + "]"@
}

/// Builds the plain tag text for one host.
pub fn tag_text(host: &str) -> (r: String)
    ensures
        r@ == tag_text_spec(host@),
{
    let mut s = String::from_str("[");
    s.append(host);
    s.append("]");
    proof {
        assert(s@ =~= tag_text_spec(host@));
    }
    s
}

/// The ANSI reset sequence, the one piece of text the terminal renderer
/// rewrites when it occurs inside the text it colors.
pub open spec fn reset_seq() -> Seq<char> {
    "\x1b[0m"@
}

/// `sub` occurs contiguously somewhere in `s`.
pub open spec fn has_subseq(s: Seq<char>, sub: Seq<char>) -> bool {
    exists|k: int|
        0 <= k && k + sub.len() <= s.len() && #[trigger] s.subrange(k, k + sub.len() as int) == sub
}

/// Relies on `colored::Colorize::color` for `&str` and the `Display` impl of
/// `colored::ColoredString`: the rendered result is either the input text
/// itself (when coloring is off) or the input wrapped between a style
/// sequence and the ANSI reset, the input being rewritten only where it holds
/// a reset sequence of its own. Either way the result is at least as long as
/// the input, and an input free of reset sequences appears in the result
/// unchanged and contiguous.
#[verifier::external_body]
fn colorize(text: &str, color: &str) -> (r: String)
    ensures
        r@.len() >= text@.len(),
        !has_subseq(text@, reset_seq()) ==> has_subseq(r@, text@),
{
    format!("{}", colored::Colorize::color(text, color))
}

/// Renders the colored tag of the host at position `index`: the text
/// `[host]` in the palette color of that position. The rendering keeps the
/// plain tag text intact inside whatever styling the terminal layer adds,
/// as long as the hostname itself holds no ANSI reset sequence.
pub fn get_colored_prefix(host: &str, index: usize) -> (r: String)
    ensures
        r@.len() >= tag_text_spec(host@).len(),
        !has_subseq(tag_text_spec(host@), reset_seq()) ==> has_subseq(r@, tag_text_spec(host@)),
{
    let tag = tag_text(host);
    let color = color_name(index);
    colorize(tag.as_str(), color.as_str())
}

/// Law: a host's color is a pure function of its position alone and cycles
/// with the palette's period: position `i + 7` always shows the color of
/// position `i`, and in particular position 7 repeats position 0.
pub proof fn lemma_color_cycles(i: int)
    requires
        i >= 0,
    ensures
        color_spec(i + 7) == color_spec(i),
        color_spec(7) == color_spec(0),
{
    lemma_mod_add_multiples_vanish(i, 7);
    lemma_mod_add_multiples_vanish(0, 7);
}

} // verus!
