//! Textual rendering of the payloads a guest can read on its own.
//!
//! Only three tags have guest-computable text: `Nil` renders as the fixed
//! literal, a boolean as its word, an integer as its decimal form. Float
//! text needs the platform's float formatter, and a string variant's
//! contents live host-side in this ABI generation, so those tags render to
//! nothing here; an embedder that wants them formats outside the library.

use vstd::prelude::*;
use vstd::string::StringExecFns;

use crate::variant::Variant;

verus! {

/// The character for the decimal digit `d`.
pub open spec fn digit_char(d: nat) -> char {
    if d == 0 {
        '0'
    } else if d == 1 {
        '1'
    } else if d == 2 {
        '2'
    } else if d == 3 {
        '3'
    } else if d == 4 {
        '4'
    } else if d == 5 {
        '5'
    } else if d == 6 {
        '6'
    } else if d == 7 {
        '7'
    } else if d == 8 {
        '8'
    } else {
        '9'
    }
}

/// Decimal digits of `n`, most significant first, without leading zeros
/// (a single zero for zero itself).
pub open spec fn dec_digits(n: nat) -> Seq<char>
    decreases n,
{
    if n < 10 {
        seq![digit_char(n)]
    } else {
        dec_digits(n / 10).push(digit_char(n % 10))
    }
}

/// Decimal rendering of a signed value: a minus sign before the digits of
/// the magnitude.
pub open spec fn int_text(i: int) -> Seq<char> {
    if i < 0 {
        seq!['-'] + dec_digits((-i) as nat)
    } else {
        dec_digits(i as nat)
    }
}

/// What [`Variant::to_string`] yields under each tag.
pub open spec fn render(v: Variant) -> Option<Seq<char>> {
    match v {
        Variant::Nil => Some("nil"@),
        Variant::Bool(b) => Some(
            if b {
                "true"@
            } else {
                "false"@
            },
        ),
        Variant::Integer(i) => Some(int_text(i as int)),
        _ => None,
    }
}

/// A nil variant always renders as the fixed literal, whatever bytes its
/// payload region may once have held: the rendering depends on the tag
/// alone.
pub proof fn lemma_nil_renders_nil()
    ensures
        render(Variant::Nil) == Some("nil"@),
{
}

/// The one-character string for a decimal digit.
fn digit_str(d: u64) -> (r: &'static str)
    requires
        d < 10,
    ensures
        r@ == seq![digit_char(d as nat)],
{
    if d == 0 {
        proof {
            reveal_strlit("0");
            assert("0"@ =~= seq!['0']);
        }
        "0"
    } else if d == 1 {
        proof {
            reveal_strlit("1");
            assert("1"@ =~= seq!['1']);
        }
        "1"
    } else if d == 2 {
        proof {
            reveal_strlit("2");
            assert("2"@ =~= seq!['2']);
        }
        "2"
    } else if d == 3 {
        proof {
            reveal_strlit("3");
            assert("3"@ =~= seq!['3']);
        }
        "3"
    } else if d == 4 {
        proof {
            reveal_strlit("4");
            assert("4"@ =~= seq!['4']);
        }
        "4"
    } else if d == 5 {
        proof {
            reveal_strlit("5");
            assert("5"@ =~= seq!['5']);
        }
        "5"
    } else if d == 6 {
        proof {
            reveal_strlit("6");
            assert("6"@ =~= seq!['6']);
        }
        "6"
    } else if d == 7 {
        proof {
            reveal_strlit("7");
            assert("7"@ =~= seq!['7']);
        }
        "7"
    } else if d == 8 {
        proof {
            reveal_strlit("8");
            assert("8"@ =~= seq!['8']);
        }
        "8"
    } else {
        proof {
            reveal_strlit("9");
            assert("9"@ =~= seq!['9']);
        }
        "9"
    }
}

/// Appends the decimal digits of `n`.
fn push_dec(n: u64, out: &mut String)
    ensures
        final(out)@ == old(out)@ + dec_digits(n as nat),
    decreases n,
{
    if n >= 10 {
        push_dec(n / 10, out);
    }
    out.append(digit_str(n % 10));
    proof {
        if n < 10 {
            assert(old(out)@ + seq![digit_char(n as nat)] =~= old(out)@ + dec_digits(n as nat));
        } else {
            assert(old(out)@ + dec_digits((n / 10) as nat) + seq![digit_char((n % 10) as nat)]
                =~= old(out)@ + dec_digits(n as nat));
        }
    }
}

impl Variant {
    /// Text for the payloads a guest can render on its own: the fixed
    /// `Nil` literal, the boolean words, and an integer's decimal form.
    /// `None` under every other tag (see the module's description).
    pub fn to_string(&self) -> (r: Option<String>)
        ensures
            r is Some <==> render(*self) is Some,
            r matches Some(s) ==> render(*self) == Some(s@),
    {
        match self {
            Variant::Nil => Some(String::from_str("nil")),
            Variant::Bool(b) => Some(
                String::from_str(
                    if *b {
                        "true"
                    } else {
                        "false"
                    },
                ),
            ),
            Variant::Integer(i) => {
                let mut out = String::new();
                if *i < 0 {
                    out.append("-");
                    let m: u64 = ((-(*i + 1)) as u64) + 1;
                    push_dec(m, &mut out);
                    proof {
                        reveal_strlit("-");
                        assert(Seq::<char>::empty() + "-"@ + dec_digits(m as nat) =~= int_text(
                            *i as int,
                        ));
                    }
                } else {
                    push_dec(*i as u64, &mut out);
                    proof {
                        assert(Seq::<char>::empty() + dec_digits(*i as nat) =~= int_text(
                            *i as int,
                        ));
                    }
                }
                Some(out)
            },
            _ => None,
        }
    }
}

} // verus!
