//! The outcome of a check: a code, and words on what went wrong; and how
//! numbers, hashes and epochs are put in words.

use crate::epoch::EpochNumberWithFraction;
use crate::u256::{lemma_limbs_of_view, limb_of, U256};
use vstd::prelude::*;
use vstd::string::StringExecFns;

verus! {

/// Why a response was turned down; `OK` where it was not.
#[derive(Clone, Copy, Debug, PartialEq, Eq, Structural)]
pub enum StatusCode {
    /// Nothing is wrong.
    OK,
    /// The peer sent a proof that nobody asked it for.
    PeerIsNotOnProcess,
    /// A chain root is not valid, or the last blocks are many and still lie
    /// below the difficulty boundary.
    InvalidChainRootForSamples,
    /// A sampled block covers none of the difficulties asked for.
    InvalidTotalDifficultyForSamples,
    /// The headers of a reorganisation do not end just before the start
    /// block.
    InvalidReorgHeaders,
    /// A header does not name the header before it as its parent.
    InvalidParentHash,
    /// Two headers of one epoch differ in their compact target.
    InvalidCompactTarget,
    /// The proof does not hold, or the tip does not commit to the root.
    FailedToVerifyTheProof,
    /// The total difficulty does not fit the difficulties observed.
    InvalidTotalDifficulty,
}

/// A code with an optional context.
#[derive(Clone, Debug, PartialEq, Eq)]
pub struct Status {
    pub code: StatusCode,
    pub context: Option<String>,
}

impl View for Status {
    type V = (StatusCode, Option<Seq<char>>);

    open spec fn view(&self) -> (StatusCode, Option<Seq<char>>) {
        (
            self.code,
            match self.context {
                Some(text) => Some(text@),
                None => None,
            },
        )
    }
}

impl StatusCode {
    /// The status with this code and no context.
    pub fn into_status(self) -> (r: Status)
        ensures
            r@ == (self, None::<Seq<char>>),
    {
        Status { code: self, context: None }
    }

    /// The status with this code and `context`.
    pub fn with_context(self, context: String) -> (r: Status)
        ensures
            r@ == (self, Some(context@)),
    {
        Status { code: self, context: Some(context) }
    }
}

impl Status {
    /// The status that says that nothing is wrong.
    pub fn ok() -> (r: Status)
        ensures
            r@ == (StatusCode::OK, None::<Seq<char>>),
    {
        Status { code: StatusCode::OK, context: None }
    }

    /// Whether nothing is wrong.
    pub fn is_ok(&self) -> (r: bool)
        ensures
            r == (self.code == StatusCode::OK),
    {
        self.code == StatusCode::OK
    }

    /// The code.
    pub fn code(&self) -> (r: StatusCode)
        ensures
            r == self.code,
    {
        self.code
    }
}

/// The character of a decimal digit.
pub open spec fn digit_char(d: nat) -> char
    recommends
        d < 10,
{
    if d == 0 {
        '0'
    } else if d == 1 {
        '1'
    } else if d == 2 {
        '2'
    } else if d == 3 {
        '3'
    } else if d == 4 {
        '4'
    } else if d == 5 {
        '5'
    } else if d == 6 {
        '6'
    } else if d == 7 {
        '7'
    } else if d == 8 {
        '8'
    } else {
        '9'
    }
}

/// `n` in decimal, without leading zeros.
pub open spec fn decimal(n: nat) -> Seq<char>
    decreases n,
{
    if n < 10 {
        seq![digit_char(n)]
    } else {
        decimal(n / 10).push(digit_char(n % 10))
    }
}

fn digit_str(d: u64) -> (r: &'static str)
    requires
        d < 10,
    ensures
        r@ == seq![digit_char(d as nat)],
{
    proof {
        reveal_strlit("0");
        reveal_strlit("1");
        reveal_strlit("2");
        reveal_strlit("3");
        reveal_strlit("4");
        reveal_strlit("5");
        reveal_strlit("6");
        reveal_strlit("7");
        reveal_strlit("8");
        reveal_strlit("9");
    }
    let r = if d == 0 {
        "0"
    } else if d == 1 {
        "1"
    } else if d == 2 {
        "2"
    } else if d == 3 {
        "3"
    } else if d == 4 {
        "4"
    } else if d == 5 {
        "5"
    } else if d == 6 {
        "6"
    } else if d == 7 {
        "7"
    } else if d == 8 {
        "8"
    } else {
        "9"
    };
    r
}

/// Appends `n` in decimal to `text`.
pub fn push_decimal(text: &mut String, n: u64)
    ensures
        final(text)@ == old(text)@ + decimal(n as nat),
    decreases n,
{
    if n >= 10 {
        push_decimal(text, n / 10);
    }
    text.append(digit_str(n % 10));
}

/// `prefix`, then `n` in decimal.
pub fn text_with_number(prefix: &str, n: u64) -> (r: String)
    ensures
        r@ == prefix@ + decimal(n as nat),
{
    let mut text = String::from_str(prefix);
    push_decimal(&mut text, n);
    text
}

/// The character of a hexadecimal digit, in lower case.
pub open spec fn hex_digit_char(d: nat) -> char
    recommends
        d < 16,
{
    if d < 10 {
        digit_char(d)
    } else if d == 10 {
        'a'
    } else if d == 11 {
        'b'
    } else if d == 12 {
        'c'
    } else if d == 13 {
        'd'
    } else if d == 14 {
        'e'
    } else {
        'f'
    }
}

/// The first `n` of `bytes` in hexadecimal, two digits for each byte.
pub open spec fn hex_prefix(bytes: Seq<u8>, n: nat) -> Seq<char>
    decreases n,
{
    if n == 0 {
        Seq::empty()
    } else {
        hex_prefix(bytes, (n - 1) as nat).push(hex_digit_char((bytes[n - 1] / 16) as nat)).push(
            hex_digit_char((bytes[n - 1] % 16) as nat),
        )
    }
}

/// `bytes` in hexadecimal after `0x`, two digits for each byte.
pub open spec fn hex(bytes: Seq<u8>) -> Seq<char> {
    "0x"@ + hex_prefix(bytes, bytes.len())
}

fn hex_digit_str(d: u8) -> (r: &'static str)
    requires
        d < 16,
    ensures
        r@ == seq![hex_digit_char(d as nat)],
{
    proof {
        reveal_strlit("a");
        reveal_strlit("b");
        reveal_strlit("c");
        reveal_strlit("d");
        reveal_strlit("e");
        reveal_strlit("f");
    }
    let r = if d < 10 {
        digit_str(d as u64)
    } else if d == 10 {
        "a"
    } else if d == 11 {
        "b"
    } else if d == 12 {
        "c"
    } else if d == 13 {
        "d"
    } else if d == 14 {
        "e"
    } else {
        "f"
    };
    assert(r@ =~= seq![hex_digit_char(d as nat)]);
    r
}

/// Appends `bytes` in hexadecimal, after `0x`, to `text`.
pub fn push_hex(text: &mut String, bytes: &[u8])
    ensures
        final(text)@ == old(text)@ + hex(bytes@),
{
    text.append("0x");
    let mut i: usize = 0;
    while i < bytes.len()
        invariant
            i <= bytes.len(),
            text@ == old(text)@ + "0x"@ + hex_prefix(bytes@, i as nat),
        decreases bytes.len() - i,
    {
        let byte = bytes[i];
        text.append(hex_digit_str(byte / 16));
        text.append(hex_digit_str(byte % 16));
        assert(text@ =~= old(text)@ + "0x"@ + hex_prefix(bytes@, (i + 1) as nat));
        i += 1;
    }
    assert(text@ =~= old(text)@ + hex(bytes@));
}

/// A 64-bit word in hexadecimal, without leading zeros.
pub open spec fn word_hex(word: u64) -> Seq<char>
    decreases word,
{
    if word < 16 {
        seq![hex_digit_char(word as nat)]
    } else {
        word_hex(word / 16).push(hex_digit_char((word % 16) as nat))
    }
}

/// The low `digits` hexadecimal digits of a 64-bit word, leading zeros
/// included.
pub open spec fn padded_hex(word: u64, digits: nat) -> Seq<char>
    decreases digits,
{
    if digits == 0 {
        Seq::empty()
    } else {
        padded_hex(word / 16, (digits - 1) as nat).push(hex_digit_char((word % 16) as nat))
    }
}

/// A number below 2^256 in hexadecimal after `0x`, without leading zeros:
/// its highest limb that is not zero as it is, and each limb below it with
/// all its 16 digits.
pub open spec fn number_hex(value: nat) -> Seq<char> {
    let l0 = limb_of(value, 0);
    let l1 = limb_of(value, 1);
    let l2 = limb_of(value, 2);
    let l3 = limb_of(value, 3);
    "0x"@ + if l3 != 0 {
        word_hex(l3) + padded_hex(l2, 16) + padded_hex(l1, 16) + padded_hex(l0, 16)
    } else if l2 != 0 {
        word_hex(l2) + padded_hex(l1, 16) + padded_hex(l0, 16)
    } else if l1 != 0 {
        word_hex(l1) + padded_hex(l0, 16)
    } else {
        word_hex(l0)
    }
}

fn push_word_hex(text: &mut String, word: u64)
    ensures
        final(text)@ == old(text)@ + word_hex(word),
    decreases word,
{
    if word >= 16 {
        push_word_hex(text, word / 16);
    }
    text.append(hex_digit_str((word % 16) as u8));
    assert(final(text)@ =~= old(text)@ + word_hex(word));
}

fn push_padded_hex(text: &mut String, word: u64, digits: u64)
    ensures
        final(text)@ == old(text)@ + padded_hex(word, digits as nat),
    decreases digits,
{
    if digits > 0 {
        push_padded_hex(text, word / 16, digits - 1);
        text.append(hex_digit_str((word % 16) as u8));
    }
    assert(final(text)@ =~= old(text)@ + padded_hex(word, digits as nat));
}

/// Appends `value` in hexadecimal, after `0x` and without leading zeros, to
/// `text`.
pub fn push_number_hex(text: &mut String, value: &U256)
    ensures
        final(text)@ == old(text)@ + number_hex(value@),
{
    proof {
        lemma_limbs_of_view(*value);
    }
    let l0: u64 = value.limbs[0];
    let l1: u64 = value.limbs[1];
    let l2: u64 = value.limbs[2];
    let l3: u64 = value.limbs[3];
    text.append("0x");
    if l3 != 0 {
        push_word_hex(text, l3);
        push_padded_hex(text, l2, 16);
        push_padded_hex(text, l1, 16);
        push_padded_hex(text, l0, 16);
    } else if l2 != 0 {
        push_word_hex(text, l2);
        push_padded_hex(text, l1, 16);
        push_padded_hex(text, l0, 16);
    } else if l1 != 0 {
        push_word_hex(text, l1);
        push_padded_hex(text, l0, 16);
    } else {
        push_word_hex(text, l0);
    }
    assert(final(text)@ =~= old(text)@ + number_hex(value@));
}

/// The place of a block in its epoch in words: the number, then index and
/// length in brackets.
pub open spec fn epoch_text(epoch: EpochNumberWithFraction) -> Seq<char> {
    decimal(epoch.number as nat) + "("@ + decimal(epoch.index as nat) + "/"@ + decimal(
        epoch.length as nat,
    ) + ")"@
}

/// Appends the place of a block in its epoch to `text`.
pub fn push_epoch(text: &mut String, epoch: &EpochNumberWithFraction)
    ensures
        final(text)@ == old(text)@ + epoch_text(*epoch),
{
    push_decimal(text, epoch.number);
    text.append("(");
    push_decimal(text, epoch.index);
    text.append("/");
    push_decimal(text, epoch.length);
    text.append(")");
    assert(final(text)@ =~= old(text)@ + epoch_text(*epoch));
}

} // verus!
