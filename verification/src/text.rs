//! Texts: white space, lines and decimal numbers.
use vstd::prelude::*;

verus! {

/// Whether a character has the Unicode property White_Space.
pub open spec fn white_space(c: char) -> bool {
    let code = c as u32;
    ||| 0x9 <= code <= 0xd
    ||| code == 0x20
    ||| code == 0x85
    ||| code == 0xa0
    ||| code == 0x1680
    ||| 0x2000 <= code <= 0x200a
    ||| code == 0x2028
    ||| code == 0x2029
    ||| code == 0x202f
    ||| code == 0x205f
    ||| code == 0x3000
}

/// A text without the white space that it starts with.
pub open spec fn trim_start(text: Seq<char>) -> Seq<char>
    decreases text.len(),
{
    if text.len() > 0 && white_space(text.first()) {
        trim_start(text.drop_first())
    } else {
        text
    }
}

/// A text without the white space that it ends with.
pub open spec fn trim_end(text: Seq<char>) -> Seq<char>
    decreases text.len(),
{
    if text.len() > 0 && white_space(text.last()) {
        trim_end(text.drop_last())
    } else {
        text
    }
}

/// Whether a text is empty or white space only.
pub open spec fn blank(text: Seq<char>) -> bool {
    forall|i: int| 0 <= i < text.len() ==> white_space(#[trigger] text[i])
}

/// `str::trim` takes the leading and the trailing white space away, as Unicode defines it.
pub assume_specification[ str::trim ](text: &str) -> (trimmed: &str)
    ensures
        trimmed@ == trim_end(trim_start(text@)),
;

/// Whether two texts are the same.
pub fn same_text(left: &str, right: &str) -> (same: bool)
    ensures
        same == (left@ == right@),
{
    left.to_string() == right.to_string()
}

proof fn lemma_trim_start_blank(text: Seq<char>)
    ensures
        blank(text) ==> trim_start(text).len() == 0,
        !blank(text) ==> trim_start(text).len() > 0 && !white_space(trim_start(text).first()),
    decreases text.len(),
{
    if text.len() > 0 && white_space(text.first()) {
        let rest = text.drop_first();
        lemma_trim_start_blank(rest);
        if blank(text) {
            assert(blank(rest));
        } else {
            let i = choose|i: int| 0 <= i < text.len() && !white_space(#[trigger] text[i]);
            assert(!white_space(rest[i - 1]));
        }
    } else if text.len() > 0 {
        assert(!white_space(text[0]));
    }
}

proof fn lemma_trim_end_keeps(text: Seq<char>)
    requires
        text.len() > 0,
        !white_space(text.first()),
    ensures
        trim_end(text).len() > 0,
    decreases text.len(),
{
    if white_space(text.last()) {
        lemma_trim_end_keeps(text.drop_last());
    }
}

/// Trimming leaves nothing of a text just when the text is blank.
pub proof fn law_trim_blank(text: Seq<char>)
    ensures
        trim_end(trim_start(text)).len() == 0 <==> blank(text),
{
    lemma_trim_start_blank(text);
    if !blank(text) {
        lemma_trim_end_keeps(trim_start(text));
    }
}

/// Whether a text is empty or white space only.
pub fn is_blank(text: &str) -> (result: bool)
    ensures
        result == blank(text@),
{
    proof {
        law_trim_blank(text@);
    }
    text.trim().is_empty()
}

/// The contents of a sequence of strings.
pub open spec fn texts(strings: Seq<String>) -> Seq<Seq<char>> {
    strings.map_values(|text: String| text@)
}

/// Lines with a line feed between each and the next.
pub open spec fn joined(lines: Seq<Seq<char>>) -> Seq<char>
    decreases lines.len(),
{
    if lines.len() == 0 {
        Seq::empty()
    } else if lines.len() == 1 {
        lines.last()
    } else {
        joined(lines.drop_last()) + "\n"@ + lines.last()
    }
}

/// A text with a line put below it. An empty text takes the line as it is.
pub open spec fn with_line(text: Seq<char>, line: Seq<char>) -> Seq<char> {
    if text.len() == 0 {
        line
    } else {
        text + "\n"@ + line
    }
}

/// Lines put below one another, where what is empty so far takes up no line.
pub open spec fn stacked(lines: Seq<Seq<char>>) -> Seq<char>
    decreases lines.len(),
{
    if lines.len() == 0 {
        Seq::empty()
    } else {
        with_line(stacked(lines.drop_last()), lines.last())
    }
}

/// Lines put below one another are lines joined, unless the first is empty.
pub proof fn law_stacked_is_joined(lines: Seq<Seq<char>>)
    requires
        lines.len() > 0,
        lines.first().len() > 0,
    ensures
        stacked(lines) == joined(lines),
        stacked(lines).len() > 0,
    decreases lines.len(),
{
    let before = lines.drop_last();
    if before.len() == 0 {
        assert(stacked(before).len() == 0);
    } else {
        law_stacked_is_joined(before);
    }
}

/// Joins lines with a line feed between each and the next.
pub fn join_lines(lines: &Vec<String>) -> (text: String)
    ensures
        text@ == joined(texts(lines@)),
{
    let mut text = String::new();
    let ghost all = texts(lines@);
    let mut i: usize = 0;
    while i < lines.len()
        invariant
            i <= lines.len(),
            all == texts(lines@),
            text@ == joined(all.take(i as int)),
        decreases lines.len() - i,
    {
        proof {
            assert(all.take(i + 1).drop_last() =~= all.take(i as int));
        }
        if i > 0 {
            text.append("\n");
        }
        text.append(lines[i].as_str());
        i = i + 1;
        proof {
            assert(text@ =~= joined(all.take(i as int)));
        }
    }
    proof {
        assert(all.take(lines.len() as int) =~= all);
    }
    text
}

/// Puts a line below a text.
pub fn add_line(text: &mut String, line: &str)
    ensures
        final(text)@ == with_line(old(text)@, line@),
{
    if !text.as_str().is_empty() {
        text.append("\n");
    }
    text.append(line);
    proof {
        assert(text@ =~= with_line(old(text)@, line@));
    }
}

/// The digit that stands for a number below ten.
pub open spec fn digit(n: nat) -> char {
    (0x30 + n) as char
}

/// A number in decimal, without leading zeros.
pub open spec fn decimal(n: nat) -> Seq<char>
    decreases n,
{
    if n < 10 {
        seq![digit(n)]
    } else {
        decimal(n / 10).push(digit(n % 10))
    }
}

fn digit_text(n: usize) -> (text: &'static str)
    requires
        n < 10,
    ensures
        text@ == seq![digit(n as nat)],
{
    proof {
        reveal_strlit("0");
        reveal_strlit("1");
        reveal_strlit("2");
        reveal_strlit("3");
        reveal_strlit("4");
        reveal_strlit("5");
        reveal_strlit("6");
        reveal_strlit("7");
        reveal_strlit("8");
        reveal_strlit("9");
    }
    if n == 0 {
        "0"
    } else if n == 1 {
        "1"
    } else if n == 2 {
        "2"
    } else if n == 3 {
        "3"
    } else if n == 4 {
        "4"
    } else if n == 5 {
        "5"
    } else if n == 6 {
        "6"
    } else if n == 7 {
        "7"
    } else if n == 8 {
        "8"
    } else {
        "9"
    }
}

/// Writes a number in decimal.
pub fn decimal_text(n: usize) -> (text: String)
    ensures
        text@ == decimal(n as nat),
    decreases n,
{
    if n < 10 {
        digit_text(n).to_string()
    } else {
        let mut text = decimal_text(n / 10);
        text.append(digit_text(n % 10));
        proof {
            assert(text@ =~= decimal(n as nat));
        }
        text
    }
}

/// Different numbers have different decimals.
pub proof fn law_decimal_injective(m: nat, n: nat)
    requires
        decimal(m) == decimal(n),
    ensures
        m == n,
    decreases m,
{
    let left = decimal(m);
    let right = decimal(n);
    lemma_decimal_not_empty(m / 10);
    lemma_decimal_not_empty(n / 10);
    assert(left.last() == digit(m % 10));
    assert(right.last() == digit(n % 10));
    assert(m % 10 == n % 10);
    if m >= 10 && n >= 10 {
        assert(left.drop_last() =~= decimal(m / 10));
        assert(right.drop_last() =~= decimal(n / 10));
        law_decimal_injective(m / 10, n / 10);
    }
}

proof fn lemma_decimal_not_empty(n: nat)
    ensures
        decimal(n).len() > 0,
{
}

} // verus!
