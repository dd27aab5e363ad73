//! Binary text of integer lists, for looking at packed values.

use vstd::prelude::*;
use vstd::string::*;

verus! {

/// A list of integers that is written out in binary.
#[derive(Clone, Debug, PartialEq, Eq)]
pub struct V(pub Vec<u32>);

/// The character of one binary digit.
pub open spec fn digit(bit: bool) -> char {
    if bit {
        '1'
    } else {
        '0'
    }
}

/// `n` in binary, most significant digit first, without leading zeros; zero
/// is a single `0`.
pub open spec fn binary_digits(n: nat) -> Seq<char>
    decreases n,
{
    if n < 2 {
        seq![digit(n == 1)]
    } else {
        binary_digits(n / 2).push(digit(n % 2 == 1))
    }
}

/// The numbers of `values` in binary, in order, with one space between
/// neighbours.
pub open spec fn binary_text(values: Seq<u32>) -> Seq<char>
    decreases values.len(),
{
    if values.len() == 0 {
        Seq::empty()
    } else if values.len() == 1 {
        binary_digits(values[0] as nat)
    } else {
        binary_text(values.drop_last()) + seq![' '] + binary_digits(values.last() as nat)
    }
}

/// The digits of `bits` with the last bit first.
spec fn digits_reversed(bits: Seq<bool>) -> Seq<char> {
    Seq::new(bits.len(), |k: int| digit(bits[bits.len() - 1 - k]))
}

proof fn lemma_digits_reversed_push(bits: Seq<bool>, bit: bool)
    ensures
        digits_reversed(bits.push(bit)) == seq![digit(bit)] + digits_reversed(bits),
{
    assert(digits_reversed(bits.push(bit)) =~= seq![digit(bit)] + digits_reversed(bits));
}

/// Writes `n` in binary.
pub fn binary_of(n: u32) -> (text: String)
    ensures
        text@ == binary_digits(n as nat),
{
    let mut low_first: Vec<bool> = Vec::new();
    let mut m: u32 = n;
    assert(binary_digits(m as nat) + digits_reversed(low_first@) =~= binary_digits(n as nat));
    while m >= 2
        invariant
            binary_digits(n as nat) == binary_digits(m as nat) + digits_reversed(low_first@),
        decreases m,
    {
        let bit: bool = m % 2 == 1;
        proof {
            lemma_digits_reversed_push(low_first@, bit);
            assert(binary_digits(m as nat) == binary_digits((m / 2) as nat).push(digit(bit)));
            assert(binary_digits((m / 2) as nat).push(digit(bit)) + digits_reversed(low_first@)
                =~= binary_digits((m / 2) as nat) + (seq![digit(bit)] + digits_reversed(
                low_first@,
            )));
        }
        low_first.push(bit);
        m = m / 2;
    }
    proof {
        lemma_digits_reversed_push(low_first@, m == 1);
        assert(binary_digits(m as nat) =~= seq![digit(m == 1)]);
    }
    low_first.push(m == 1);
    let len: usize = low_first.len();
    let mut text = String::new();
    let mut i: usize = len;
    while i > 0
        invariant
            len == low_first@.len(),
            i <= len,
            text@ == digits_reversed(low_first@).subrange(0, len - i),
        decreases i,
    {
        i = i - 1;
        proof {
            reveal_strlit("1");
            reveal_strlit("0");
        }
        let ghost before = text@;
        if low_first[i] {
            text.append("1");
        } else {
            text.append("0");
        }
        assert(text@ =~= digits_reversed(low_first@).subrange(0, len - i)) by {
            assert(text@ == before + seq![digit(low_first@[i as int])]);
        }
    }
    assert(text@ =~= digits_reversed(low_first@));
    text
}

impl V {
    /// What [`V::to_binary_string`] returns.
    pub open spec fn spec_binary(&self) -> Seq<char> {
        binary_text(self.0@)
    }

    /// The numbers in binary, in order, with one space between neighbours.
    pub fn to_binary_string(&self) -> (text: String)
        ensures
            text@ == self.spec_binary(),
    {
        let n: usize = self.0.len();
        let mut text = String::new();
        let mut count: usize = 0;
        while count < n
            invariant
                n == self.0@.len(),
                count <= n,
                text@ == binary_text(self.0@.subrange(0, count as int)),
            decreases n - count,
        {
            let ghost before = self.0@.subrange(0, count as int);
            let ghost after = self.0@.subrange(0, count + 1);
            proof {
                reveal_strlit(" ");
                assert(after.drop_last() =~= before);
                assert(after.last() == self.0@[count as int]);
            }
            if count != 0 {
                text.append(" ");
            }
            let digits = binary_of(self.0[count]);
            text.append(digits.as_str());
            count = count + 1;
            assert(text@ =~= binary_text(after));
        }
        assert(self.0@.subrange(0, n as int) =~= self.0@);
        text
    }
}

} // verus!
