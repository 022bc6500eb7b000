//! Rendering of error messages.

use vstd::prelude::*;

verus! {

/// The decimal digit `d`, for `d < 10`.
pub open spec fn digit(d: nat) -> Seq<char> {
    if d == 0 {
        "0"@
    } else if d == 1 {
        "1"@
    } else if d == 2 {
        "2"@
    } else if d == 3 {
        "3"@
    } else if d == 4 {
        "4"@
    } else if d == 5 {
        "5"@
    } else if d == 6 {
        "6"@
    } else if d == 7 {
        "7"@
    } else if d == 8 {
        "8"@
    } else {
        "9"@
    }
}

/// The decimal numeral of `n`, without leading zeros.
pub open spec fn decimal(n: nat) -> Seq<char>
    decreases n,
{
    if n < 10 {
        digit(n)
    } else {
        decimal(n / 10) + digit(n % 10)
    }
}

fn digit_text(d: u64) -> (text: &'static str)
    requires
        d < 10,
    ensures
        text@ == digit(d as nat),
{
    if d == 0 {
        "0"
    } else if d == 1 {
        "1"
    } else if d == 2 {
        "2"
    } else if d == 3 {
        "3"
    } else if d == 4 {
        "4"
    } else if d == 5 {
        "5"
    } else if d == 6 {
        "6"
    } else if d == 7 {
        "7"
    } else if d == 8 {
        "8"
    } else {
        "9"
    }
}

fn append_decimal(text: &mut String, n: u64)
    ensures
        final(text)@ == old(text)@ + decimal(n as nat),
    decreases n,
{
    if n < 10 {
        text.append(digit_text(n));
    } else {
        append_decimal(text, n / 10);
        text.append(digit_text(n % 10));
        assert(text@ =~= old(text)@ + (decimal((n / 10) as nat) + digit((n % 10) as nat)));
    }
}

/// A message under construction; its view is the text so far.
pub struct Message {
    text: String,
}

impl View for Message {
    type V = Seq<char>;

    closed spec fn view(&self) -> Seq<char> {
        self.text@
    }
}

impl Message {
    /// Starts with the given text.
    pub fn new(start: &str) -> (message: Message)
        ensures
            message@ == start@,
    {
        Message { text: String::from_str(start) }
    }

    /// Adds text at the end.
    pub fn text(self, more: &str) -> (message: Message)
        ensures
            message@ == self@ + more@,
    {
        let mut text = self.text;
        text.append(more);
        Message { text }
    }

    /// Adds a number in decimal.
    pub fn number(self, n: u64) -> (message: Message)
        ensures
            message@ == self@ + decimal(n as nat),
    {
        let mut text = self.text;
        append_decimal(&mut text, n);
        Message { text }
    }

    /// Adds a count in decimal.
    pub fn count(self, n: usize) -> (message: Message)
        ensures
            message@ == self@ + decimal(n as nat),
    {
        self.number(n as u64)
    }

    /// The finished text.
    pub fn finish(self) -> (text: String)
        ensures
            text@ == self@,
    {
        self.text
    }
}

/// The number that a numeral denotes.
pub open spec fn denoted(numeral: Seq<char>) -> int
    decreases numeral.len(),
{
    if numeral.len() == 0 {
        0
    } else {
        denoted(numeral.drop_last()) * 10 + (numeral.last() as int - '0' as int)
    }
}

proof fn digits_are_digits(d: nat)
    requires
        d < 10,
    ensures
        digit(d).len() == 1,
        digit(d)[0] as int == '0' as int + d,
{
    reveal_strlit("0");
    reveal_strlit("1");
    reveal_strlit("2");
    reveal_strlit("3");
    reveal_strlit("4");
    reveal_strlit("5");
    reveal_strlit("6");
    reveal_strlit("7");
    reveal_strlit("8");
    reveal_strlit("9");
}

/// The numeral of a number denotes it, is made of digits only, and has no
/// leading zero unless the number is zero.
pub proof fn numerals_denote(n: nat)
    ensures
        denoted(decimal(n)) == n,
        decimal(n).len() > 0,
        n > 0 ==> decimal(n)[0] != '0',
        forall|i: int| 0 <= i < decimal(n).len() ==> '0' <= #[trigger] decimal(n)[i] <= '9',
    decreases n,
{
    let numeral = decimal(n);
    digits_are_digits(n % 10);
    if n < 10 {
        assert(numeral.drop_last() =~= Seq::<char>::empty());
        assert(denoted(numeral.drop_last()) == 0);
        assert(numeral == digit(n % 10));
    } else {
        numerals_denote(n / 10);
        assert(numeral.drop_last() =~= decimal(n / 10));
        assert(numeral.last() == digit(n % 10)[0]);
        assert forall|i: int| 0 <= i < numeral.len() implies '0' <= #[trigger] numeral[i]
            <= '9' by {
            if i < numeral.len() - 1 {
                assert(numeral[i] == decimal(n / 10)[i]);
            }
        }
        assert(numeral[0] == decimal(n / 10)[0]);
    }
}

} // verus!
