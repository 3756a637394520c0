use vstd::prelude::*;

verus! {

/// `String::push` of std appends one character to the end of the string.
pub assume_specification[ String::push ](s: &mut String, ch: char)
    ensures
        final(s)@ == old(s)@.push(ch),
;

/// The character of one decimal digit.
pub open spec fn digit_char(d: int) -> char {
    (0x30 + d) as u8 as char
}

/// The decimal numeral of `n`, without leading zeros.
pub open spec fn decimal_text(n: nat) -> Seq<char>
    decreases n,
{
    if n < 10 {
        seq![digit_char(n as int)]
    } else {
        decimal_text(n / 10).push(digit_char((n % 10) as int))
    }
}

/// `name` with every slash turned into a dot.
pub open spec fn dotted_text(name: Seq<char>) -> Seq<char> {
    name.map_values(
        |c: char|
            if c == '/' {
                '.'
            } else {
                c
            },
    )
}

/// Appends the decimal numeral of `n` to `text`.
pub fn push_decimal(text: &mut String, n: u64)
    ensures
        final(text)@ == old(text)@ + decimal_text(n as nat),
    decreases n,
{
    if n >= 10 {
        push_decimal(text, n / 10);
    }
    let d: u8 = (n % 10) as u8;
    text.push((0x30 + d) as char);
    proof {
        let before = old(text)@;
        if n >= 10 {
            assert(before + decimal_text(n as nat) =~= (before + decimal_text((n / 10) as nat)).push(
                digit_char((n % 10) as int),
            ));
        } else {
            assert(before + decimal_text(n as nat) =~= before.push(digit_char(n as int)));
        }
    }
}

/// A copy of `name` in which every slash is a dot.
pub fn dotted(name: &str) -> (text: String)
    ensures
        text@ == dotted_text(name@),
{
    let mut text = String::new();
    for c in it: name.chars()
        invariant
            it.seq() == name@,
            text@ == dotted_text(name@.take(it.index())),
    {
        proof {
            let i = it.index();
            assert(name@.take(i + 1) =~= name@.take(i).push(c));
            assert(dotted_text(name@.take(i + 1)) =~= dotted_text(name@.take(i)).push(
                if c == '/' {
                    '.'
                } else {
                    c
                },
            ));
        }
        text.push(
            if c == '/' {
                '.'
            } else {
                c
            },
        );
    }
    assert(name@.take(name@.len() as int) =~= name@);
    text
}

} // verus!
