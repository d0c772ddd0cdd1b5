//! Rendering of the one JSON line the status bar consumes: the display text
//! ("<title> - <artist>", ampersands spelled out, long text cut with an
//! ellipsis marker) wrapped in a fixed three-field JSON object.

use vstd::prelude::*;
use vstd::string::{StrSliceExecFns, StringExecFns};
use crate::status::TrackMetadata;

verus! {

/// What one character contributes to the display text: an ampersand reads as
/// "and", every other character stands for itself.
pub open spec fn amp_expanded_char(c: char) -> Seq<char> {
    if c == '&' {
        seq!['a', 'n', 'd']
    } else {
        seq![c]
    }
}

/// `s` with every ampersand replaced by "and".
pub open spec fn amp_expanded(s: Seq<char>) -> Seq<char>
    decreases s.len(),
{
    if s.len() == 0 {
        Seq::empty()
    } else {
        amp_expanded(s.drop_last()) + amp_expanded_char(s.last())
    }
}

/// `s` cut to its first 60 characters plus a five-character ellipsis marker
/// when it is longer than 60 characters; `s` unchanged otherwise.
pub open spec fn ellipsized(s: Seq<char>) -> Seq<char> {
    if s.len() > 60 {
        s.take(60) + seq!['.', '.', '.', '.', '.']
    } else {
        s
    }
}

/// The widget text for a track: title and artist joined by " - ", ampersands
/// spelled out, then cut to the display width.
pub open spec fn display_text_of(title: Seq<char>, artist: Seq<char>) -> Seq<char> {
    ellipsized(amp_expanded(title + " - "@ + artist))
}

/// Law: a text without ampersands is left unchanged by the substitution.
pub proof fn lemma_amp_free(s: Seq<char>)
    requires
        forall|i: int| 0 <= i < s.len() ==> s[i] != '&',
    ensures
        amp_expanded(s) == s,
    decreases s.len(),
{
    if s.len() == 0 {
        assert(amp_expanded(s) =~= s);
    } else {
        lemma_amp_free(s.drop_last());
        assert(s.drop_last() + seq![s.last()] =~= s);
    }
}

/// Law: text truncation. Text longer than 60 characters is cut to its first
/// 60 characters followed by the five-character ellipsis marker, so a
/// 61-character text renders as 65 characters; text of at most 60 characters
/// is unchanged.
pub proof fn lemma_truncation(s: Seq<char>)
    ensures
        s.len() > 60 ==> ellipsized(s) == s.take(60) + seq!['.', '.', '.', '.', '.'],
        s.len() > 60 ==> ellipsized(s).len() == 65,
        s.len() <= 60 ==> ellipsized(s) == s,
{
}

/// `s` with every ampersand replaced by "and".
pub fn expand_amp(s: &str) -> (r: String)
    ensures
        r@ == amp_expanded(s@),
{
    let len = s.unicode_len();
    let mut out = String::new();
    let mut i: usize = 0;
    while i < len
        invariant
            len == s@.len(),
            i <= len,
            out@ == amp_expanded(s@.take(i as int)),
        decreases len - i,
    {
        let c = s.get_char(i);
        if c == '&' {
            out.append("and");
            proof {
                reveal_strlit("and");
                assert("and"@ =~= seq!['a', 'n', 'd']);
            }
        } else {
            let one = s.substring_char(i, i + 1);
            out.append(one);
            proof {
                assert(s@.subrange(i as int, i + 1) =~= seq![s@[i as int]]);
            }
        }
        proof {
            assert(s@.take(i + 1).drop_last() =~= s@.take(i as int));
            assert(s@.take(i + 1).last() == s@[i as int]);
        }
        i = i + 1;
    }
    proof {
        assert(s@.take(len as int) =~= s@);
    }
    out
}

/// The widget text for a track.
pub fn display_text(title: &str, artist: &str) -> (r: String)
    ensures
        r@ == display_text_of(title@, artist@),
{
    let joined = String::from_str(title).concat(" - ").concat(artist);
    let expanded = expand_amp(joined.as_str());
    let elen = expanded.as_str().unicode_len();
    if elen > 60 {
        let cut = expanded.as_str().substring_char(0, 60);
        let r = String::from_str(cut).concat(".....");
        proof {
            reveal_strlit(".....");
            assert("....."@ =~= seq!['.', '.', '.', '.', '.']);
        }
        r
    } else {
        expanded
    }
}

/// The hexadecimal digit for `n`, for `n` from 0 to 15.
pub open spec fn hex_digit(n: int) -> char {
    if n == 0 {
        '0'
    } else if n == 1 {
        '1'
    } else if n == 2 {
        '2'
    } else if n == 3 {
        '3'
    } else if n == 4 {
        '4'
    } else if n == 5 {
        '5'
    } else if n == 6 {
        '6'
    } else if n == 7 {
        '7'
    } else if n == 8 {
        '8'
    } else if n == 9 {
        '9'
    } else if n == 10 {
        'a'
    } else if n == 11 {
        'b'
    } else if n == 12 {
        'c'
    } else if n == 13 {
        'd'
    } else if n == 14 {
        'e'
    } else {
        'f'
    }
}

/// How one character appears inside a JSON string: quotes and backslashes get
/// a backslash escape, control characters take the \u00XX form, every other
/// character stands for itself.
pub open spec fn json_escaped_char(c: char) -> Seq<char> {
    if c == '"' {
        seq!['\\', '"']
    } else if c == '\\' {
        seq!['\\', '\\']
    } else if (c as u32) < 32 {
        seq!['\\', 'u', '0', '0', hex_digit((c as u32) as int / 16), hex_digit(
            (c as u32) as int % 16,
        )]
    } else {
        seq![c]
    }
}

/// `s` as it appears inside a JSON string literal.
pub open spec fn json_escaped(s: Seq<char>) -> Seq<char>
    decreases s.len(),
{
    if s.len() == 0 {
        Seq::empty()
    } else {
        json_escaped(s.drop_last()) + json_escaped_char(s.last())
    }
}

/// `s` escaped for use inside a JSON string literal.
pub fn escape_json(s: &str) -> (r: String)
    ensures
        r@ == json_escaped(s@),
{
    let len = s.unicode_len();
    let mut out = String::new();
    let mut i: usize = 0;
    while i < len
        invariant
            len == s@.len(),
            i <= len,
            out@ == json_escaped(s@.take(i as int)),
        decreases len - i,
    {
        let c = s.get_char(i);
        if c == '"' {
            out.append("\\\"");
            proof {
                reveal_strlit("\\\"");
                assert("\\\""@ =~= seq!['\\', '"']);
            }
        } else if c == '\\' {
            out.append("\\\\");
            proof {
                reveal_strlit("\\\\");
                assert("\\\\"@ =~= seq!['\\', '\\']);
            }
        } else if (c as u32) < 32 {
            let n = c as u32;
            let hexd = "0123456789abcdef";
            proof {
                reveal_strlit("0123456789abcdef");
                reveal_strlit("\\u00");
            }
            out.append("\\u00");
            let hi = (n / 16) as usize;
            let lo = (n % 16) as usize;
            let dh = hexd.substring_char(hi, hi + 1);
            out.append(dh);
            let dl = hexd.substring_char(lo, lo + 1);
            out.append(dl);
            proof {
                assert(hexd@.subrange(hi as int, hi as int + 1) =~= seq![hexd@[hi as int]]);
                assert(hexd@.subrange(lo as int, lo as int + 1) =~= seq![hexd@[lo as int]]);
                assert(hexd@[hi as int] == hex_digit((c as u32) as int / 16));
                assert(hexd@[lo as int] == hex_digit((c as u32) as int % 16));
                assert("\\u00"@ + seq![hexd@[hi as int]] + seq![hexd@[lo as int]]
                    =~= json_escaped_char(c));
            }
        } else {
            let one = s.substring_char(i, i + 1);
            out.append(one);
            proof {
                assert(s@.subrange(i as int, i + 1) =~= seq![s@[i as int]]);
            }
        }
        proof {
            assert(s@.take(i + 1).drop_last() =~= s@.take(i as int));
            assert(s@.take(i + 1).last() == s@[i as int]);
        }
        i = i + 1;
    }
    proof {
        assert(s@.take(len as int) =~= s@);
    }
    out
}

/// The one JSON line the widget prints for a playing track: a three-field
/// object with the display text, the widget's CSS class and the "playing"
/// alt tag, in that order.
pub open spec fn json_line_of(text: Seq<char>) -> Seq<char> {
    "{\"text\":\""@ + json_escaped(text) + "\",\"class\":\"custom-player\",\"alt\":\"playing\"}"@
}

/// Render the widget line for the given track.
pub fn render_line(metadata: &TrackMetadata) -> (r: String)
    ensures
        r@ == json_line_of(display_text_of(metadata.title@, metadata.artist@)),
{
    let text = display_text(metadata.title.as_str(), metadata.artist.as_str());
    let esc = escape_json(text.as_str());
    String::from_str("{\"text\":\"").concat(esc.as_str()).concat(
        "\",\"class\":\"custom-player\",\"alt\":\"playing\"}",
    )
}

} // verus!
