//! The text of the terminal spinner that runs beside each check.
use vstd::prelude::*;

use crate::style::{cyan_spec, paint_cyan};
use crate::text::{chars_of, push_char};
use crate::{icon, icon_spec, prefix_spec, prefix_text, PREFIX};

verus! {

/// The animation frames, shown in turn.
pub open spec fn frames_spec() -> Seq<Seq<char>> {
    seq!["⠋"@, "⠙"@, "⠹"@, "⠸"@, "⠼"@, "⠴"@, "⠦"@, "⠧"@, "⠇"@, "⠏"@]
}

/// The number of animation frames.
pub const FRAME_COUNT: usize = 10;

/// The frame shown at tick `tick`; the frames repeat.
pub fn frame(tick: usize) -> (r: &'static str)
    ensures
        r@ == frames_spec()[(tick % FRAME_COUNT) as int],
{
    let k = tick % FRAME_COUNT;
    if k == 0 {
        "⠋"
    } else if k == 1 {
        "⠙"
    } else if k == 2 {
        "⠹"
    } else if k == 3 {
        "⠸"
    } else if k == 4 {
        "⠼"
    } else if k == 5 {
        "⠴"
    } else if k == 6 {
        "⠦"
    } else if k == 7 {
        "⠧"
    } else if k == 8 {
        "⠇"
    } else {
        "⠏"
    }
}

/// What a disabled spinner prints once when its check starts.
pub open spec fn start_line_spec(msg: Seq<char>, no_color: bool) -> Seq<char> {
    prefix_spec(no_color) + seq![' '] + msg + " ... "@
}

/// Builds what a disabled spinner prints when its check starts.
pub fn start_line(msg: &str, no_color: bool) -> (r: String)
    ensures
        r@ == start_line_spec(msg@, no_color),
{
    let mut r = prefix_text(no_color);
    push_char(&mut r, ' ');
    r.append(msg);
    r.append(" ... ");
    r
}

/// What an animated spinner prints at tick `tick`: back to the line's start,
/// the prefix, the frame (cyan when colours are on), the message.
pub open spec fn frame_line_spec(msg: Seq<char>, tick: usize, no_color: bool) -> Seq<char> {
    let f = frames_spec()[(tick % FRAME_COUNT) as int];
    seq!['\r'] + prefix_spec(no_color) + seq![' '] + (if no_color {
        f
    } else {
        cyan_spec(f)
    }) + seq![' '] + msg + " ... "@
}

/// Builds the line an animated spinner prints at tick `tick`.
pub fn frame_line(msg: &str, tick: usize, no_color: bool) -> (r: String)
    ensures
        r@ == frame_line_spec(msg@, tick, no_color),
{
    let mut r = String::new();
    push_char(&mut r, '\r');
    let p = prefix_text(no_color);
    r.append(p.as_str());
    push_char(&mut r, ' ');
    let f = frame(tick);
    if no_color {
        r.append(f);
    } else {
        let c = paint_cyan(f);
        r.append(c.as_str());
    }
    push_char(&mut r, ' ');
    r.append(msg);
    r.append(" ... ");
    r
}

/// The number of bytes that UTF-8 takes for `c`.
pub open spec fn utf8_width(c: char) -> nat {
    if (c as u32) < 0x80 {
        1
    } else if (c as u32) < 0x800 {
        2
    } else if (c as u32) < 0x10000 {
        3
    } else {
        4
    }
}

/// The length of `s` in UTF-8 bytes (what `str::len` returns).
pub open spec fn utf8_len(s: Seq<char>) -> nat
    decreases s.len(),
{
    if s.len() == 0 {
        0
    } else {
        utf8_len(s.drop_last()) + utf8_width(s.last())
    }
}

/// `min(utf8_len(s), cap)`, computed without going past `cap`.
fn utf8_len_capped(s: &str, cap: usize) -> (r: usize)
    requires
        cap > 0,
    ensures
        r == if utf8_len(s@) >= cap { cap as nat } else { utf8_len(s@) },
{
    let v = chars_of(s);
    let mut total: usize = 0;
    let mut i: usize = 0;
    while i < v.len()
        invariant
            v@ == s@,
            i <= v.len(),
            total < cap,
            total == utf8_len(s@.take(i as int)),
        decreases v.len() - i,
    {
        let c = v[i];
        assert(s@.take(i + 1).drop_last() == s@.take(i as int));
        let w: usize = if (c as u32) < 0x80 {
            1
        } else if (c as u32) < 0x800 {
            2
        } else if (c as u32) < 0x10000 {
            3
        } else {
            4
        };
        if w >= cap - total {
            proof {
                lemma_utf8_len_prefix_monotone(s@, i + 1);
            }
            return cap;
        }
        total = total + w;
        i = i + 1;
    }
    assert(s@.take(v.len() as int) == s@);
    total
}

proof fn lemma_utf8_len_prefix_monotone(s: Seq<char>, k: int)
    requires
        0 <= k <= s.len(),
    ensures
        utf8_len(s.take(k)) <= utf8_len(s),
    decreases s.len() - k,
{
    if k < s.len() {
        lemma_utf8_len_prefix_monotone(s, k + 1);
        assert(s.take(k + 1).drop_last() == s.take(k));
    }
    else {
        assert(s.take(k) == s);
    }
}

/// The spaces that align the icon of an animated spinner's final line:
/// 34 less 14 less the message's length in UTF-8 bytes, or none.
pub open spec fn finish_padding_spec(msg: Seq<char>) -> nat {
    if utf8_len(msg) + 14 >= 34 {
        0
    } else {
        (34 - (utf8_len(msg) + 14)) as nat
    }
}

/// What a spinner prints when its check ends: a disabled one only the icon;
/// an animated one rewrites its line with the message, padding and icon.
pub open spec fn finish_line_spec(msg: Seq<char>, success: bool, disabled: bool, no_color: bool) -> Seq<
    char,
> {
    if disabled {
        icon_spec(success)
    } else {
        seq!['\r'] + prefix_spec(no_color) + seq![' '] + msg + " ... "@ + Seq::new(
            finish_padding_spec(msg),
            |k: int| ' ',
        ) + icon_spec(success)
    }
}

/// Builds what a spinner prints when its check ends.
pub fn finish_line(msg: &str, success: bool, disabled: bool, no_color: bool) -> (r: String)
    ensures
        r@ == finish_line_spec(msg@, success, disabled, no_color),
{
    if disabled {
        return icon(success).to_owned();
    }
    let len = utf8_len_capped(msg, 20);
    let padding: usize = if len >= 20 {
        0
    } else {
        34 - (len + 14)
    };
    let mut r = String::new();
    push_char(&mut r, '\r');
    let p = prefix_text(no_color);
    r.append(p.as_str());
    push_char(&mut r, ' ');
    r.append(msg);
    r.append(" ... ");
    let mut k: usize = 0;
    let ghost base = r@;
    while k < padding
        invariant
            k <= padding,
            r@ == base + Seq::new(k as nat, |i: int| ' '),
        decreases padding - k,
    {
        push_char(&mut r, ' ');
        assert(Seq::new((k + 1) as nat, |i: int| ' ') =~= Seq::new(k as nat, |i: int| ' ').push(' '));
        k = k + 1;
    }
    r.append(icon(success));
    r
}

} // verus!
