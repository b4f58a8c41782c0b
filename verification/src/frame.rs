use crate::text::views;
use vstd::prelude::*;
use vstd::utf8::encode_utf8;

verus! {

/// The length of a text in bytes of UTF-8.
pub open spec fn byte_len(text: Seq<char>) -> usize {
    encode_utf8(text).len() as usize
}

/// The greatest length in bytes among `lines`; 0 for no line.
pub open spec fn widest(lines: Seq<Seq<char>>) -> usize
    decreases lines.len(),
{
    if lines.len() == 0 {
        0
    } else if byte_len(lines.last()) > widest(lines.drop_last()) {
        byte_len(lines.last())
    } else {
        widest(lines.drop_last())
    }
}

pub open spec fn dashes(n: nat) -> Seq<char> {
    Seq::new(n, |i: int| '-')
}

/// How many dashes fill a text of `used` characters up to `width`.
pub open spec fn fill(used: nat, width: nat) -> nat {
    if used < width {
        (width - used) as nat
    } else {
        0
    }
}

/// A text between two `#`, filled up with dashes to `width` characters. A
/// text that is longer than that is not cut.
pub open spec fn framed(text: Seq<char>, width: nat) -> Seq<char> {
    seq!['#'] + text + dashes(fill(text.len(), width)) + seq!['#']
}

/// The lines in a box: a border of dashes, each line framed, and the border
/// again. The box is as wide as the longest line has bytes.
pub open spec fn boxed(lines: Seq<Seq<char>>) -> Seq<Seq<char>> {
    let width = widest(lines) as nat;
    seq![framed(Seq::empty(), width)] + Seq::new(lines.len(), |i: int| framed(lines[i], width))
        + seq![framed(Seq::empty(), width)]
}

fn frame(text: &str, width: usize) -> (line: String)
    ensures
        line@ == framed(text@, width as nat),
{
    let mut line = String::new();
    line.push('#');
    line.append(text);
    let used = text.unicode_len();
    let mut filled: usize = 0;
    assert(line@ =~= seq!['#'] + text@ + dashes(0));
    while filled < width && used < width - filled
        invariant
            used == text@.len(),
            filled <= fill(used as nat, width as nat),
            line@ == seq!['#'] + text@ + dashes(filled as nat),
        decreases width - filled,
    {
        line.push('-');
        filled += 1;
        assert(line@ =~= seq!['#'] + text@ + dashes(filled as nat));
    }
    line.push('#');
    line
}

/// Sets the lines of a report in a box.
pub fn box_lines(texts: &Vec<String>) -> (lines: Vec<String>)
    ensures
        views(lines@) == boxed(views(texts@)),
{
    let n = texts.len();
    let mut width: usize = 0;
    let mut i: usize = 0;
    assert(views(texts@).take(0) =~= Seq::<Seq<char>>::empty());
    while i < n
        invariant
            n == texts.len(),
            i <= n,
            width == widest(views(texts@).take(i as int)),
        decreases n - i,
    {
        assert(views(texts@).take(i + 1).drop_last() =~= views(texts@).take(i as int));
        let len = texts[i].as_str().len();
        if len > width {
            width = len;
        }
        i += 1;
    }
    assert(views(texts@).take(n as int) =~= views(texts@));
    let mut lines: Vec<String> = Vec::new();
    lines.push(frame("", width));
    let mut j: usize = 0;
    while j < n
        invariant
            n == texts.len(),
            j <= n,
            lines.len() == j + 1,
            lines[0]@ == framed(""@, width as nat),
            forall|k: int|
                1 <= k <= j ==> (#[trigger] lines[k])@ == framed(texts[k - 1]@, width as nat),
        decreases n - j,
    {
        lines.push(frame(texts[j].as_str(), width));
        j += 1;
    }
    lines.push(frame("", width));
    proof {
        reveal_strlit("");
        assert(""@ =~= Seq::<char>::empty());
        let got = views(lines@);
        let want = boxed(views(texts@));
        assert(got.len() == want.len());
        assert forall|k: int| 0 <= k < got.len() implies got[k] == want[k] by {
            if 1 <= k <= n {
                assert(lines[k]@ == framed(texts[k - 1]@, width as nat));
            }
        }
        assert(got =~= want);
    }
    lines
}

} // verus!
