//! The output sink of one render call.
//!
//! An `Encoder` owns the text a single render call produces.  It offers an
//! escaped write, an unescaped write, decimal formatting for integers, and a
//! lightweight-markup write; every operation reports success through the one
//! error type the rendering protocol propagates.

use vstd::prelude::*;

verus! {

broadcast use Seq::add_empty_right, Seq::add_empty_left;

/// What the markup-significant characters become under escaping.
pub open spec fn esc_char(c: char) -> Seq<char> {
    if c == '<' {
        seq!['&', 'l', 't', ';']
    } else if c == '>' {
        seq!['&', 'g', 't', ';']
    } else if c == '&' {
        seq!['&', 'a', 'm', 'p', ';']
    } else if c == '"' {
        seq!['&', 'q', 'u', 'o', 't', ';']
    } else {
        seq![c]
    }
}

/// Entity-escaping of a whole text, character by character.
pub open spec fn escape(s: Seq<char>) -> Seq<char>
    decreases s,
{
    if s.len() == 0 {
        Seq::empty()
    } else {
        escape(s.drop_last()) + esc_char(s.last())
    }
}

/// The decimal digits of a non-negative number, most significant first.
pub open spec fn dec_digits(n: nat) -> Seq<char>
    decreases n,
{
    if n < 10 {
        seq![digit_char(n)]
    } else {
        dec_digits(n / 10) + seq![digit_char(n % 10)]
    }
}

/// The character of one decimal digit.
pub open spec fn digit_char(d: nat) -> char {
    if d == 0 {
        '0'
    } else if d == 1 {
        '1'
    } else if d == 2 {
        '2'
    } else if d == 3 {
        '3'
    } else if d == 4 {
        '4'
    } else if d == 5 {
        '5'
    } else if d == 6 {
        '6'
    } else if d == 7 {
        '7'
    } else if d == 8 {
        '8'
    } else {
        '9'
    }
}

/// The decimal rendering of an integer, with a leading minus when negative.
pub open spec fn int_str(i: int) -> Seq<char> {
    if i < 0 {
        seq!['-'] + dec_digits((-i) as nat)
    } else {
        dec_digits(i as nat)
    }
}

/// What the lightweight-markup conversion of a text writes: final markup,
/// a function of the text alone.
pub uninterp spec fn cmark_of(s: Seq<char>) -> Seq<char>;

/// The error type every rendering operation propagates.  The built-in
/// encoder never fails, so no value of it is ever produced here; the type
/// exists because the protocol's results carry the sink's error.
#[derive(Debug)]
pub struct EncodeError;

/// The write destination of one render call.
pub struct Encoder {
    out: String,
}

impl View for Encoder {
    type V = Seq<char>;

    closed spec fn view(&self) -> Seq<char> {
        self.out@
    }
}

impl Encoder {
    /// An empty encoder.
    pub fn new() -> (e: Encoder)
        ensures
            e@ == Seq::<char>::empty(),
    {
        Encoder { out: String::new() }
    }

    /// An empty encoder whose buffer is pre-sized to a capacity hint.
    /// The hint is advisory: it never changes what is written.
    ///
    /// Relies on `String::with_capacity`: returns an empty string, whatever
    /// the requested capacity.
    #[verifier::external_body]
    pub fn with_capacity(cap: usize) -> (e: Encoder)
        ensures
            e@ == Seq::<char>::empty(),
    {
        Encoder { out: String::with_capacity(cap) }
    }

    /// Hands the written text out.
    pub fn into_string(self) -> (s: String)
        ensures
            s@ == self@,
    {
        self.out
    }

    /// Writes `s` exactly as it is.
    pub fn write_unescaped(&mut self, s: &str) -> (r: Result<(), EncodeError>)
        ensures
            r is Ok,
            final(self)@ == old(self)@ + s@,
    {
        self.out.append(s);
        Ok(())
    }

    /// Writes `s` with markup-significant characters entity-escaped.
    pub fn write_escaped(&mut self, s: &str) -> (r: Result<(), EncodeError>)
        ensures
            r is Ok,
            final(self)@ == old(self)@ + escape(s@),
    {
        let len: usize = s.unicode_len();
        let mut i: usize = 0;
        while i < len
            invariant
                0 <= i <= len,
                len == s@.len(),
                self@ == old(self)@ + escape(s@.take(i as int)),
            decreases len - i,
        {
            proof {
                assert(s@.take(i + 1).drop_last() =~= s@.take(i as int));
                assert(s@.take(i + 1).last() == s@[i as int]);
            }
            let c = s.get_char(i);
            if c == '<' {
                proof {
                    reveal_strlit("&lt;");
                    assert("&lt;"@ =~= seq!['&', 'l', 't', ';']);
                }
                self.out.append("&lt;");
            } else if c == '>' {
                proof {
                    reveal_strlit("&gt;");
                    assert("&gt;"@ =~= seq!['&', 'g', 't', ';']);
                }
                self.out.append("&gt;");
            } else if c == '&' {
                proof {
                    reveal_strlit("&amp;");
                    assert("&amp;"@ =~= seq!['&', 'a', 'm', 'p', ';']);
                }
                self.out.append("&amp;");
            } else if c == '"' {
                proof {
                    reveal_strlit("&quot;");
                    assert("&quot;"@ =~= seq!['&', 'q', 'u', 'o', 't', ';']);
                }
                self.out.append("&quot;");
            } else {
                let piece = s.substring_char(i, i + 1);
                proof {
                    assert(piece@ =~= seq![s@[i as int]]);
                }
                self.out.append(piece);
            }
            i = i + 1;
        }
        proof {
            assert(s@.take(len as int) =~= s@);
        }
        Ok(())
    }

    /// Writes the decimal digits of `n`.
    pub fn format_u128(&mut self, n: u128) -> (r: Result<(), EncodeError>)
        ensures
            r is Ok,
            final(self)@ == old(self)@ + dec_digits(n as nat),
        decreases n,
    {
        if n >= 10 {
            self.format_u128(n / 10)?;
        }
        let d: u128 = n % 10;
        let piece: &str = if d == 0 {
            "0"
        } else if d == 1 {
            "1"
        } else if d == 2 {
            "2"
        } else if d == 3 {
            "3"
        } else if d == 4 {
            "4"
        } else if d == 5 {
            "5"
        } else if d == 6 {
            "6"
        } else if d == 7 {
            "7"
        } else if d == 8 {
            "8"
        } else {
            "9"
        };
        proof {
            reveal_strlit("0");
            reveal_strlit("1");
            reveal_strlit("2");
            reveal_strlit("3");
            reveal_strlit("4");
            reveal_strlit("5");
            reveal_strlit("6");
            reveal_strlit("7");
            reveal_strlit("8");
            reveal_strlit("9");
            assert(piece@ =~= seq![digit_char((n % 10) as nat)]);
        }
        self.out.append(piece);
        Ok(())
    }

    /// Writes the decimal digits of `n`, with a minus sign when negative.
    pub fn format_i128(&mut self, n: i128) -> (r: Result<(), EncodeError>)
        ensures
            r is Ok,
            final(self)@ == old(self)@ + int_str(n as int),
    {
        if n < 0 {
            proof {
                reveal_strlit("-");
                assert("-"@ =~= seq!['-']);
            }
            self.out.append("-");
            let m: u128 = ((-(n + 1)) as u128) + 1;
            proof {
                assert(m as nat == (-(n as int)) as nat);
            }
            let r = self.format_u128(m);
            proof {
                assert((old(self)@ + seq!['-']) + dec_digits(m as nat) =~= old(self)@ + (seq![
                    '-',
                ] + dec_digits(m as nat)));
            }
            r
        } else {
            self.format_u128(n as u128)
        }
    }

    /// Writes the lightweight-markup conversion of `s`: final markup,
    /// escaped by nobody afterwards.
    ///
    /// Relies on `pulldown_cmark::html::push_html` over
    /// `pulldown_cmark::Parser::new(s)`: appends to the buffer the HTML of
    /// the CommonMark text `s`, a pure function of `s`.
    #[verifier::external_body]
    pub fn write_markup(&mut self, s: &str) -> (r: Result<(), EncodeError>)
        ensures
            r is Ok,
            final(self)@ == old(self)@ + cmark_of(s@),
    {
        pulldown_cmark::html::push_html(&mut self.out, pulldown_cmark::Parser::new(s));
        Ok(())
    }
}

} // verus!
