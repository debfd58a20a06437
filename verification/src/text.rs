//! Character level helpers: indentation, tab replacement, decimal numbers.

use vstd::prelude::*;
use vstd::string::*;

verus! {

/// `text` with `pad` inserted after every line break.
pub open spec fn indented(text: Seq<char>, pad: Seq<char>) -> Seq<char>
    decreases text.len(),
{
    if text.len() == 0 {
        Seq::empty()
    } else if text.last() == '\n' {
        indented(text.drop_last(), pad).push('\n') + pad
    } else {
        indented(text.drop_last(), pad).push(text.last())
    }
}

/// `text` with every tab turned into one space.
pub open spec fn tabs_to_spaces(text: Seq<char>) -> Seq<char> {
    Seq::new(text.len(), |i: int| if text[i] == '\t' { ' ' } else { text[i] })
}

/// The character that writes the digit `d`.
pub open spec fn digit(d: nat) -> char {
    if d == 0 {
        '0'
    } else if d == 1 {
        '1'
    } else if d == 2 {
        '2'
    } else if d == 3 {
        '3'
    } else if d == 4 {
        '4'
    } else if d == 5 {
        '5'
    } else if d == 6 {
        '6'
    } else if d == 7 {
        '7'
    } else if d == 8 {
        '8'
    } else {
        '9'
    }
}

/// `n` written in base ten, most significant digit first, without padding.
pub open spec fn decimal(n: nat) -> Seq<char>
    decreases n,
{
    if n < 10 {
        seq![digit(n)]
    } else {
        decimal(n / 10).push(digit(n % 10))
    }
}

/// `count` copies of `c`.
pub open spec fn repeated(c: char, count: nat) -> Seq<char> {
    Seq::new(count, |i: int| c)
}

/// Appends one character to a string. This is `String::push` of the standard
/// library, which the contract takes to add exactly `c` at the end and to
/// leave what was there before as it was.
#[verifier::external_body]
pub(crate) fn push_char(out: &mut String, c: char)
    ensures
        final(out)@ == old(out)@.push(c),
{
    out.push(c)
}

/// The characters of `text`, in order.
pub fn chars_of(text: &str) -> (chars: Vec<char>)
    ensures
        chars@ == text@,
{
    let mut chars: Vec<char> = Vec::new();
    for c in it: text.chars()
        invariant
            it.seq() == text@,
            chars@ == text@.take(it.index() as int),
    {
        assert(text@.take(it.index() as int).push(c) =~= text@.take(it.index() + 1));
        chars.push(c);
    }
    assert(text@.take(text@.len() as int) =~= text@);
    chars
}

/// Inserts `pad` after every line break of `text`.
pub fn indent(text: &str, pad: &str) -> (out: String)
    ensures
        out@ == indented(text@, pad@),
{
    let chars = chars_of(text);
    let mut out = String::new();
    let mut i: usize = 0;
    while i < chars.len()
        invariant
            chars@ == text@,
            i <= chars.len(),
            out@ == indented(text@.take(i as int), pad@),
        decreases chars.len() - i,
    {
        let c: char = chars[i];
        assert(text@.take(i + 1).drop_last() =~= text@.take(i as int));
        push_char(&mut out, c);
        if c == '\n' {
            out.append(pad);
        }
        i += 1;
    }
    assert(text@.take(chars.len() as int) =~= text@);
    out
}

/// Appends the characters `from..to` of `chars` to `out`, each tab as a space.
pub(crate) fn push_without_tabs(out: &mut String, chars: &Vec<char>, from: usize, to: usize)
    requires
        from <= to <= chars.len(),
    ensures
        final(out)@ == old(out)@ + tabs_to_spaces(chars@.subrange(from as int, to as int)),
{
    let mut i: usize = from;
    while i < to
        invariant
            from <= i <= to <= chars.len(),
            out@ == old(out)@ + tabs_to_spaces(chars@.subrange(from as int, i as int)),
        decreases to - i,
    {
        let c: char = chars[i];
        if c == '\t' {
            push_char(out, ' ');
        } else {
            push_char(out, c);
        }
        assert(out@ =~= old(out)@ + tabs_to_spaces(chars@.subrange(from as int, i + 1)));
        i += 1;
    }
}

/// The character that writes the digit `d`.
fn digit_char(d: usize) -> (c: char)
    requires
        d < 10,
    ensures
        c == digit(d as nat),
{
    if d == 0 {
        '0'
    } else if d == 1 {
        '1'
    } else if d == 2 {
        '2'
    } else if d == 3 {
        '3'
    } else if d == 4 {
        '4'
    } else if d == 5 {
        '5'
    } else if d == 6 {
        '6'
    } else if d == 7 {
        '7'
    } else if d == 8 {
        '8'
    } else {
        '9'
    }
}

/// Appends `n` in base ten to `out`.
pub(crate) fn push_decimal(out: &mut String, n: usize)
    ensures
        final(out)@ == old(out)@ + decimal(n as nat),
    decreases n,
{
    if n >= 10 {
        push_decimal(out, n / 10);
    }
    push_char(out, digit_char(n % 10));
    assert(out@ =~= old(out)@ + decimal(n as nat));
}

/// Appends `count` copies of `c` to `out`.
pub(crate) fn push_repeated(out: &mut String, c: char, count: usize)
    ensures
        final(out)@ == old(out)@ + repeated(c, count as nat),
{
    let mut i: usize = 0;
    assert(out@ =~= old(out)@ + repeated(c, 0));
    while i < count
        invariant
            i <= count,
            out@ == old(out)@ + repeated(c, i as nat),
        decreases count - i,
    {
        push_char(out, c);
        assert(out@ =~= old(out)@ + repeated(c, (i + 1) as nat));
        i += 1;
    }
}

/// `n` written in base ten.
pub fn decimal_string(n: usize) -> (out: String)
    ensures
        out@ == decimal(n as nat),
{
    let mut out = String::new();
    push_decimal(&mut out, n);
    assert(out@ =~= decimal(n as nat));
    out
}

/// `text` with every tab turned into one space.
pub fn replace_tabs(text: &str) -> (out: String)
    ensures
        out@ == tabs_to_spaces(text@),
{
    let chars = chars_of(text);
    let mut out = String::new();
    push_without_tabs(&mut out, &chars, 0, chars.len());
    assert(chars@.subrange(0, chars.len() as int) =~= text@);
    assert(out@ =~= tabs_to_spaces(text@));
    out
}

/// Replacing tabs keeps the length, leaves no tab behind and changes no other
/// character.
pub proof fn lemma_tabs_to_spaces_keeps_length(text: Seq<char>)
    ensures
        tabs_to_spaces(text).len() == text.len(),
        forall|i: int| 0 <= i < text.len() ==> #[trigger] tabs_to_spaces(text)[i] != '\t',
        forall|i: int|
            0 <= i < text.len() && text[i] != '\t' ==> #[trigger] tabs_to_spaces(text)[i]
                == text[i],
        forall|i: int|
            0 <= i < text.len() && text[i] == '\t' ==> #[trigger] tabs_to_spaces(text)[i] == ' ',
{
}

/// Indenting twice is indenting once by the second pad followed by the first,
/// as long as the second pad holds no line break of its own.
pub proof fn lemma_indented_twice(text: Seq<char>, first: Seq<char>, second: Seq<char>)
    requires
        forall|i: int| 0 <= i < first.len() ==> first[i] != '\n',
    ensures
        indented(indented(text, first), second) == indented(text, second + first),
    decreases text.len(),
{
    if text.len() > 0 {
        lemma_indented_twice(text.drop_last(), first, second);
        let head = indented(text.drop_last(), first);
        if text.last() == '\n' {
            lemma_indented_append(head.push('\n'), first, second);
            assert(head.push('\n').drop_last() =~= head);
            lemma_indented_plain(first, second);
            assert(indented(head, second).push('\n') + second + first =~= indented(
                text.drop_last(),
                second + first,
            ).push('\n') + (second + first));
        } else {
            assert(head.push(text.last()).drop_last() =~= head);
        }
    }
}

/// A text without line breaks is left as it is.
pub proof fn lemma_indented_plain(text: Seq<char>, pad: Seq<char>)
    requires
        forall|i: int| 0 <= i < text.len() ==> text[i] != '\n',
    ensures
        indented(text, pad) == text,
    decreases text.len(),
{
    if text.len() > 0 {
        lemma_indented_plain(text.drop_last(), pad);
        assert(text.drop_last().push(text.last()) =~= text);
    }
}

/// Indentation works through a text piece by piece.
pub proof fn lemma_indented_append(left: Seq<char>, right: Seq<char>, pad: Seq<char>)
    ensures
        indented(left + right, pad) == indented(left, pad) + indented(right, pad),
    decreases right.len(),
{
    if right.len() == 0 {
        assert(left + right =~= left);
        assert(indented(left, pad) + indented(right, pad) =~= indented(left, pad));
    } else {
        lemma_indented_append(left, right.drop_last(), pad);
        assert((left + right).drop_last() =~= left + right.drop_last());
        assert((left + right).last() == right.last());
        if right.last() == '\n' {
            assert((indented(left, pad) + indented(right.drop_last(), pad)).push('\n') + pad
                =~= indented(left, pad) + (indented(right.drop_last(), pad).push('\n') + pad));
        } else {
            assert((indented(left, pad) + indented(right.drop_last(), pad)).push(right.last())
                =~= indented(left, pad) + indented(right.drop_last(), pad).push(right.last()));
        }
    }
}

} // verus!
