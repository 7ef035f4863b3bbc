//! Text as the game handles it: resources cut into lines, numbers written in
//! decimal for resource paths, and the typewriter that reveals a message one
//! character per tick.

use vstd::prelude::*;

verus! {

/// The lines still to come when a scan of `text` stands at position `at` in a
/// line that began at position `start`.
pub open spec fn lines_scan(text: Seq<char>, start: int, at: int) -> Seq<Seq<char>>
    decreases text.len() - at,
{
    if at >= text.len() {
        seq![text.subrange(start, text.len() as int)]
    } else if text[at] == '\n' {
        seq![text.subrange(start, at)] + lines_scan(text, at + 1, at + 1)
    } else {
        lines_scan(text, start, at + 1)
    }
}

/// The lines of a text: the pieces between its line feeds, in order. A text
/// with `n` line feeds has `n + 1` lines; the empty text has one empty line.
pub open spec fn split_lines(text: Seq<char>) -> Seq<Seq<char>> {
    lines_scan(text, 0, 0)
}

/// The view of a list of strings as a list of character sequences.
pub open spec fn lines_view(lines: Seq<String>) -> Seq<Seq<char>> {
    Seq::new(lines.len(), |i: int| lines[i]@)
}

/// A scan yields at least one line, and no line of it holds a line feed.
pub proof fn lemma_lines_scan_shape(text: Seq<char>, start: int, at: int)
    requires
        0 <= start <= at <= text.len(),
        forall|k: int| start <= k < at ==> text[k] != '\n',
    ensures
        lines_scan(text, start, at).len() >= 1,
        forall|i: int, k: int|
            0 <= i < lines_scan(text, start, at).len() && 0 <= k < lines_scan(
                text,
                start,
                at,
            )[i].len() ==> lines_scan(text, start, at)[i][k] != '\n',
    decreases text.len() - at,
{
    let all = lines_scan(text, start, at);
    if at >= text.len() {
    } else if text[at] == '\n' {
        lemma_lines_scan_shape(text, at + 1, at + 1);
        let rest = lines_scan(text, at + 1, at + 1);
        assert(all == seq![text.subrange(start, at)] + rest);
        assert forall|i: int, k: int| 0 <= i < all.len() && 0 <= k < all[i].len() implies all[i][k]
            != '\n' by {
            if i > 0 {
                assert(all[i] == rest[i - 1]);
            }
        }
    } else {
        lemma_lines_scan_shape(text, start, at + 1);
    }
}

/// Every text has at least one line, and no line holds a line feed.
pub proof fn lemma_split_lines_shape(text: Seq<char>)
    ensures
        split_lines(text).len() >= 1,
        forall|i: int, k: int|
            0 <= i < split_lines(text).len() && 0 <= k < split_lines(text)[i].len()
                ==> split_lines(text)[i][k] != '\n',
{
    lemma_lines_scan_shape(text, 0, 0);
}

/// The lines of a text are no more than its characters and one, and none is
/// longer than the text.
pub proof fn lemma_lines_fit(source: Seq<char>)
    ensures
        split_lines(source).len() <= source.len() + 1,
        forall|i: int|
            0 <= i < split_lines(source).len() ==> (#[trigger] split_lines(source)[i]).len()
                <= source.len(),
{
    lemma_scan_fit(source, 0, 0);
}

/// The lines still to come in a scan are no more than the characters still
/// to come and one, and none is longer than the text.
pub proof fn lemma_scan_fit(source: Seq<char>, start: int, at: int)
    requires
        0 <= start <= at <= source.len(),
    ensures
        lines_scan(source, start, at).len() <= source.len() - at + 1,
        forall|i: int|
            0 <= i < lines_scan(source, start, at).len() ==> (
            #[trigger] lines_scan(source, start, at)[i]).len() <= source.len(),
    decreases source.len() - at,
{
    let all = lines_scan(source, start, at);
    if at >= source.len() {
    } else if source[at] == '\n' {
        lemma_scan_fit(source, at + 1, at + 1);
        let rest = lines_scan(source, at + 1, at + 1);
        assert(all == seq![source.subrange(start, at)] + rest);
        assert forall|i: int| 0 <= i < all.len() implies (#[trigger] all[i]).len()
            <= source.len() by {
            if i > 0 {
                assert(all[i] == rest[i - 1]);
            }
        }
    } else {
        lemma_scan_fit(source, start, at + 1);
    }
}

/// Cuts a text into its lines: the pieces between its line feeds, in order.
/// There is always at least one line, and no line holds a line feed.
pub fn read_lines(text: &str) -> (lines: Vec<String>)
    ensures
        lines_view(lines@) == split_lines(text@),
        lines@.len() >= 1,
        forall|i: int, k: int|
            0 <= i < lines@.len() && 0 <= k < lines@[i]@.len() ==> lines@[i]@[k] != '\n',
{
    proof {
        lemma_split_lines_shape(text@);
    }
    let total: usize = text.unicode_len();
    let mut lines: Vec<String> = Vec::new();
    let mut start: usize = 0;
    let mut at: usize = 0;
    proof {
        assert(lines_view(lines@) =~= Seq::<Seq<char>>::empty());
    }
    for c in it: text.chars()
        invariant
            it.seq() == text@,
            total == text@.len(),
            at == it.index(),
            start <= at,
            lines_view(lines@) + lines_scan(text@, start as int, at as int) == split_lines(text@),
    {
        if c == '\n' {
            let line: String = String::from_str(text.substring_char(start, at));
            let ghost before = lines@;
            lines.push(line);
            proof {
                assert(lines_view(lines@) =~= lines_view(before) + seq![
                    text@.subrange(start as int, at as int),
                ]);
                assert(lines_view(lines@) + lines_scan(text@, at + 1, at + 1) =~= lines_view(before)
                    + lines_scan(text@, start as int, at as int));
            }
            start = at + 1;
        }
        at = at + 1;
    }
    let line: String = String::from_str(text.substring_char(start, total));
    let ghost before = lines@;
    lines.push(line);
    proof {
        assert(lines_view(lines@) =~= lines_view(before) + seq![
            text@.subrange(start as int, at as int),
        ]);
        assert forall|i: int, k: int|
            0 <= i < lines@.len() && 0 <= k < lines@[i]@.len() implies lines@[i]@[k] != '\n' by {
            assert(lines_view(lines@)[i] == lines@[i]@);
        }
    }
    lines
}

/// The text on display after one tick of the typewriter: one character more
/// of the message while the display is shorter than the message, else unchanged.
pub open spec fn typed(shown: Seq<char>, msg: Seq<char>) -> Seq<char> {
    if shown.len() < msg.len() {
        msg.take(shown.len() as int + 1)
    } else {
        shown
    }
}

/// The text on display after `ticks` ticks of the typewriter.
pub open spec fn typed_after(shown: Seq<char>, msg: Seq<char>, ticks: nat) -> Seq<char>
    decreases ticks,
{
    if ticks == 0 {
        shown
    } else {
        typed(typed_after(shown, msg, (ticks - 1) as nat), msg)
    }
}

/// Whether the message has played once the tick that finds `shown` on
/// display is over: the display is then at least as long as the message.
pub open spec fn played_after(shown: Seq<char>, msg: Seq<char>) -> bool {
    typed(shown, msg).len() >= msg.len()
}

/// One tick of the typewriter. While the display is shorter than the message
/// it becomes the message's prefix that is one character longer than the
/// display was; a display that is already as long as the message stays. The
/// call reports whether the message has played: `true` from the tick on which
/// the display first reaches the message's length.
pub fn update_msg(current_msg: &str, shown: &mut String) -> (played: bool)
    ensures
        final(shown)@ == typed(old(shown)@, current_msg@),
        played == (final(shown)@.len() >= current_msg@.len()),
        played == played_after(old(shown)@, current_msg@),
{
    let have: usize = shown.as_str().unicode_len();
    let want: usize = current_msg.unicode_len();
    if have < want {
        *shown = String::from_str(current_msg.substring_char(0, have + 1));
        have + 1 >= want
    } else {
        true
    }
}

/// Empties the display.
pub fn clear_msg(shown: &mut String)
    ensures
        final(shown)@ == Seq::<char>::empty(),
{
    if !shown.as_str().is_empty() {
        *shown = String::new();
    }
    assert(shown@ =~= Seq::<char>::empty());
}

/// From an empty display the typewriter shows, after `ticks` ticks, the first
/// `ticks` characters of the message, and the whole message from then on.
pub proof fn lemma_typewriter_prefix(msg: Seq<char>, ticks: nat)
    ensures
        typed_after(Seq::empty(), msg, ticks) == if ticks <= msg.len() {
            msg.take(ticks as int)
        } else {
            msg
        },
    decreases ticks,
{
    if ticks == 0 {
        assert(msg.take(0) =~= Seq::<char>::empty());
    } else {
        lemma_typewriter_prefix(msg, (ticks - 1) as nat);
        if ticks <= msg.len() {
            assert(msg.take(ticks - 1).len() == ticks - 1);
        } else {
            assert(msg.take(msg.len() as int) =~= msg);
        }
    }
}

/// The typewriter is monotone. Started on an empty display, each tick adds
/// exactly one character until the message is complete; after as many ticks as
/// the message has characters, and after any number more, the display is the
/// message. The tick that follows `ticks` ticks reports the message as played
/// exactly when it completes the message or finds it complete.
pub proof fn lemma_typewriter_monotone(msg: Seq<char>, ticks: nat)
    ensures
        ticks >= msg.len() ==> typed_after(Seq::empty(), msg, ticks) == msg,
        ticks < msg.len() ==> typed_after(Seq::empty(), msg, ticks + 1).len() == typed_after(
            Seq::empty(),
            msg,
            ticks,
        ).len() + 1,
        ticks >= msg.len() ==> typed_after(Seq::empty(), msg, ticks + 1) == typed_after(
            Seq::empty(),
            msg,
            ticks,
        ),
        typed_after(Seq::empty(), msg, ticks).len() == if ticks <= msg.len() {
            ticks
        } else {
            msg.len()
        },
        played_after(typed_after(Seq::empty(), msg, ticks), msg) <==> ticks + 1 >= msg.len(),
{
    lemma_typewriter_prefix(msg, ticks);
    lemma_typewriter_prefix(msg, ticks + 1);
    if ticks == msg.len() {
        assert(msg.take(msg.len() as int) =~= msg);
    }
}

/// The one character that writes the digit `d`.
pub open spec fn digit_text(d: nat) -> Seq<char> {
    if d == 0 {
        "0"@
    } else if d == 1 {
        "1"@
    } else if d == 2 {
        "2"@
    } else if d == 3 {
        "3"@
    } else if d == 4 {
        "4"@
    } else if d == 5 {
        "5"@
    } else if d == 6 {
        "6"@
    } else if d == 7 {
        "7"@
    } else if d == 8 {
        "8"@
    } else {
        "9"@
    }
}

/// The decimal writing of a number, without leading zeros.
pub open spec fn decimal(n: nat) -> Seq<char>
    decreases n,
{
    if n < 10 {
        digit_text(n)
    } else {
        decimal(n / 10) + digit_text(n % 10)
    }
}

/// The one character that writes the digit `d`.
fn digit_str(d: u32) -> (s: &'static str)
    requires
        d < 10,
    ensures
        s@ == digit_text(d as nat),
{
    if d == 0 {
        "0"
    } else if d == 1 {
        "1"
    } else if d == 2 {
        "2"
    } else if d == 3 {
        "3"
    } else if d == 4 {
        "4"
    } else if d == 5 {
        "5"
    } else if d == 6 {
        "6"
    } else if d == 7 {
        "7"
    } else if d == 8 {
        "8"
    } else {
        "9"
    }
}

/// Writes a number in decimal.
pub fn decimal_text(n: u32) -> (s: String)
    ensures
        s@ == decimal(n as nat),
    decreases n,
{
    if n < 10 {
        String::from_str(digit_str(n))
    } else {
        let mut s: String = decimal_text(n / 10);
        s.append(digit_str(n % 10));
        s
    }
}

} // verus!
