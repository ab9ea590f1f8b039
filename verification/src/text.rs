//! Text helpers: decimal numbers, lines, and bytes read as UTF-8.

use vstd::prelude::*;
use vstd::utf8::{decode_utf8, valid_utf8};

verus! {

/// `std::string::FromUtf8Error`, carried as it is; nothing is known of its inside.
#[verifier::external_type_specification]
#[verifier::external_body]
pub struct ExFromUtf8Error(std::string::FromUtf8Error);

/// `String::push` appends one character at the end.
pub assume_specification[ String::push ](text: &mut String, c: char)
    ensures
        final(text)@ == old(text)@.push(c),
;

/// `String::from_utf8` succeeds on exactly the byte sequences that are valid
/// UTF-8 and then returns the text that they encode.
pub assume_specification[ String::from_utf8 ](bytes: Vec<u8>) -> (text: Result<
    String,
    std::string::FromUtf8Error,
>)
    ensures
        text is Ok <==> valid_utf8(bytes@),
        text is Ok ==> text->Ok_0@ == decode_utf8(bytes@),
;

/// The decimal digit for a value below ten.
pub open spec fn digit(d: nat) -> char
    recommends
        d < 10,
{
    ((48 + d) as u8) as char
}

/// The decimal numeral of a number, without leading zeros.
pub open spec fn decimal(n: nat) -> Seq<char>
    decreases n,
{
    if n < 10 {
        seq![digit(n)]
    } else {
        decimal(n / 10).push(digit(n % 10))
    }
}

/// The number that a row of decimal digits stands for.
pub open spec fn number_of(digits: Seq<char>) -> nat
    decreases digits.len(),
{
    if digits.len() == 0 {
        0
    } else {
        (number_of(digits.drop_last()) * 10 + (digits.last() as nat - 48)) as nat
    }
}

/// A numeral is made of digits alone, has no leading zero but for zero
/// itself, and stands for the number that it was made of.
pub proof fn lemma_decimal_reads_back(n: nat)
    ensures
        decimal(n).len() >= 1,
        forall|i: int| 0 <= i < decimal(n).len() ==> '0' <= #[trigger] decimal(n)[i] <= '9',
        n > 0 ==> decimal(n)[0] != '0',
        number_of(decimal(n)) == n,
    decreases n,
{
    if n < 10 {
        assert(decimal(n).drop_last() =~= Seq::<char>::empty());
        assert(number_of(decimal(n).drop_last()) == 0);
    } else {
        lemma_decimal_reads_back(n / 10);
        assert(decimal(n).drop_last() =~= decimal(n / 10));
    }
}

/// Appends the decimal numeral of `n` to `text`.
pub fn push_decimal(text: &mut String, n: u64)
    ensures
        final(text)@ == old(text)@ + decimal(n as nat),
    decreases n,
{
    if n >= 10 {
        push_decimal(text, n / 10);
    }
    let d: u8 = (n % 10) as u8;
    text.push((48u8 + d) as char);
    proof {
        let before = old(text)@;
        if n >= 10 {
            assert(before + decimal(n as nat / 10).push(digit(n as nat % 10)) =~= (before + decimal(
                n as nat / 10,
            )).push(digit(n as nat % 10)));
        } else {
            assert(before + seq![digit(n as nat)] =~= before.push(digit(n as nat)));
        }
    }
}

/// The lines of a text: the pieces that its newline characters separate. A
/// text without a newline is one line; a newline at the end opens an empty
/// last line.
pub open spec fn lines(text: Seq<char>) -> Seq<Seq<char>>
    decreases text.len(),
{
    if text.len() == 0 {
        seq![Seq::empty()]
    } else {
        let before = lines(text.drop_last());
        if text.last() == '\n' {
            before.push(Seq::empty())
        } else {
            before.update(before.len() - 1, before.last().push(text.last()))
        }
    }
}

/// Lines put together again, with a newline between each two.
pub open spec fn joined(lines: Seq<Seq<char>>) -> Seq<char>
    decreases lines.len(),
{
    if lines.len() == 0 {
        Seq::empty()
    } else if lines.len() == 1 {
        lines[0]
    } else {
        joined(lines.drop_last()).push('\n') + lines.last()
    }
}

/// The lines of a text hold no newline, and put together again they give
/// the text back.
pub proof fn lemma_lines_split_at_newlines(text: Seq<char>)
    ensures
        lines(text).len() >= 1,
        forall|i: int| 0 <= i < lines(text).len() ==> !(#[trigger] lines(text)[i]).contains('\n'),
        joined(lines(text)) == text,
    decreases text.len(),
{
    if text.len() == 0 {
        assert(joined(lines(text)) =~= text);
    } else {
        let before = text.drop_last();
        let c = text.last();
        lemma_lines_split_at_newlines(before);
        let old_lines = lines(before);
        let new_lines = lines(text);
        if c == '\n' {
            assert(new_lines.drop_last() =~= old_lines);
            assert(joined(new_lines) =~= text);
        } else {
            let grown = old_lines.last().push(c);
            assert(new_lines.drop_last() =~= old_lines.drop_last());
            assert(joined(new_lines) =~= joined(old_lines).push(c));
            assert(joined(new_lines) =~= text);
            assert forall|i: int| 0 <= i < new_lines.len() implies !(#[trigger] new_lines[i]).contains(
                '\n',
            ) by {
                if i == new_lines.len() - 1 {
                    if grown.contains('\n') {
                        let j = choose|j: int| 0 <= j < grown.len() && grown[j] == '\n';
                        assert(old_lines.last()[j] == '\n');
                    }
                } else {
                    assert(new_lines[i] == old_lines[i]);
                }
            }
        }
    }
}

/// A text with every dot taken out.
pub open spec fn without_dots(text: Seq<char>) -> Seq<char> {
    text.filter(|c: char| c != '.')
}

/// How one more character changes the lines and the dot-free text.
proof fn lemma_push(text: Seq<char>, c: char)
    ensures
        lines(text).len() >= 1,
        c == '\n' ==> lines(text.push(c)) == lines(text).push(Seq::empty()),
        c != '\n' ==> lines(text.push(c)) == lines(text).update(
            lines(text).len() - 1,
            lines(text).last().push(c),
        ),
        c == '.' ==> without_dots(text.push(c)) == without_dots(text),
        c != '.' ==> without_dots(text.push(c)) == without_dots(text).push(c),
{
    lemma_lines_split_at_newlines(text);
    assert(text.push(c).drop_last() =~= text);
    reveal(Seq::filter);
}

/// The second line of a text with its dots taken out, where the text has
/// more than two lines; `None` where it has two lines or fewer.
pub fn status_code(diagnostic: &str) -> (code: Option<String>)
    ensures
        code is Some <==> lines(diagnostic@).len() > 2,
        code is Some ==> code->0@ == without_dots(lines(diagnostic@)[1]),
{
    let mut newlines: u8 = 0;
    let mut code = String::new();
    let ghost mut seen: Seq<char> = Seq::empty();
    for c in iter: diagnostic.chars()
        invariant
            iter.seq() == diagnostic@,
            seen == diagnostic@.take(iter.index() as int),
            newlines <= 2,
            newlines < 2 ==> lines(seen).len() == newlines + 1,
            newlines == 2 ==> lines(seen).len() > 2,
            newlines == 0 ==> code@.len() == 0,
            newlines > 0 ==> code@ == without_dots(lines(seen)[1]),
    {
        proof {
            lemma_push(seen, c);
            assert(diagnostic@.take(iter.index() + 1) =~= seen.push(c));
            lemma_push(lines(seen)[1], c);
            seen = seen.push(c);
        }
        if c == '\n' {
            if newlines < 2 {
                newlines = newlines + 1;
            }
        } else if newlines == 1 && c != '.' {
            code.push(c);
        }
    }
    assert(seen =~= diagnostic@);
    if newlines == 2 {
        Some(code)
    } else {
        None
    }
}

} // verus!
