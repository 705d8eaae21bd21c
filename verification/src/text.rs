//! Text as sequences of characters: what the contracts say of strings.

use vstd::prelude::*;

verus! {

/// `String::push` of std appends the one character to the end of the string
/// and changes nothing else. Verus takes this on trust.
pub assume_specification[ String::push ](text: &mut String, ch: char)
    ensures
        final(text)@ == old(text)@.push(ch),
;

/// `String::pop` of std removes the last character and returns it; on an
/// empty string it returns `None` and leaves the string empty. Verus takes
/// this on trust.
pub assume_specification[ String::pop ](text: &mut String) -> (last: Option<char>)
    ensures
        old(text)@.len() > 0 ==> last == Some(old(text)@.last()) && final(text)@ == old(
            text,
        )@.drop_last(),
        old(text)@.len() == 0 ==> last.is_none() && final(text)@ == old(text)@,
;

/// The strings of a sequence, each as its characters.
pub open spec fn texts(strings: Seq<String>) -> Seq<Seq<char>> {
    Seq::new(strings.len(), |i: int| strings[i]@)
}

/// Appending a string appends its characters.
pub proof fn lemma_texts_push(strings: Seq<String>, last: String)
    ensures
        texts(strings.push(last)) == texts(strings).push(last@),
{
    assert(texts(strings.push(last)) =~= texts(strings).push(last@));
}

/// The character of a decimal digit.
pub open spec fn digit(d: nat) -> char
    recommends
        d < 10,
{
    (48 + d) as u8 as char
}

/// A number in decimal, most significant digit first, without leading zeros.
pub open spec fn decimal(n: nat) -> Seq<char>
    decreases n,
{
    if n < 10 {
        seq![digit(n)]
    } else {
        decimal(n / 10).push(digit(n % 10))
    }
}

/// Appends `n` in decimal to `text`.
pub fn push_decimal(text: &mut String, n: usize)
    ensures
        final(text)@ == old(text)@ + decimal(n as nat),
    decreases n,
{
    if n >= 10 {
        push_decimal(text, n / 10);
    }
    let low: u8 = (n % 10) as u8;
    text.push((48u8 + low) as char);
    assert(text@ =~= old(text)@ + decimal(n as nat));
}

/// The text of the statistics line: how many items match, a slash, how many
/// candidates there are.
pub open spec fn stats_text(matching: nat, total: nat) -> Seq<char> {
    decimal(matching) + seq!['/'] + decimal(total)
}

/// The statistics line for `matching` matches among `total` candidates.
pub fn stats_string(total: usize, matching: usize) -> (text: String)
    ensures
        text@ == stats_text(matching as nat, total as nat),
{
    let mut text = String::new();
    push_decimal(&mut text, matching);
    text.push('/');
    push_decimal(&mut text, total);
    assert(text@ =~= stats_text(matching as nat, total as nat));
    text
}

} // verus!
