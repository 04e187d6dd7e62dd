//! Operand field values: an unresolved label, or a resolved offset.
use vstd::prelude::*;
use vstd::std_specs::iter::IteratorSpec;
use vstd::string::StringExecFns;

verus! {

broadcast use vstd::string::axiom_spec_iter, vstd::string::next_postcondition;

/// Signed offset into the core. Offsets are taken modulo the core size, but
/// may exceed it before the core size is known.
pub type Offset = i32;

/// Unsigned offset into the core, with the same caveat as `Offset`.
pub type UOffset = u32;

/// An operand field: a symbolic label not yet resolved, or a numeric offset.
#[derive(Clone, Debug, PartialEq)]
pub enum Value {
    Label(String),
    Literal(Offset),
}

impl Default for Value {
    fn default() -> (r: Self)
        ensures
            r == Value::Literal(0),
    {
        Value::Literal(0)
    }
}

/// The character of a decimal digit.
pub open spec fn digit_char(d: nat) -> char {
    if d == 0 {
        '0'
    } else if d == 1 {
        '1'
    } else if d == 2 {
        '2'
    } else if d == 3 {
        '3'
    } else if d == 4 {
        '4'
    } else if d == 5 {
        '5'
    } else if d == 6 {
        '6'
    } else if d == 7 {
        '7'
    } else if d == 8 {
        '8'
    } else {
        '9'
    }
}

/// The decimal digits of `n`, most significant first, without leading zeros.
pub open spec fn digits_of(n: nat) -> Seq<char>
    decreases n,
{
    if n < 10 {
        seq![digit_char(n)]
    } else {
        digits_of(n / 10).push(digit_char(n % 10))
    }
}

/// The decimal form of `n`, with a leading `-` when it is negative.
pub open spec fn decimal(n: int) -> Seq<char> {
    if n < 0 {
        seq!['-'] + digits_of((-n) as nat)
    } else {
        digits_of(n as nat)
    }
}

/// `s` with spaces put in front until it is `width` characters long; `s`
/// itself when it is that long already.
pub open spec fn pad_left(s: Seq<char>, width: nat) -> Seq<char> {
    if s.len() >= width {
        s
    } else {
        Seq::new((width - s.len()) as nat, |i: int| ' ') + s
    }
}

impl Value {
    /// The text of a value: a label's name, or an offset in decimal.
    pub open spec fn spec_text(&self) -> Seq<char> {
        match self {
            Value::Label(name) => name@,
            Value::Literal(offset) => decimal(*offset as int),
        }
    }

    /// A label, not yet resolved to an offset.
    pub fn label(name: String) -> (r: Value)
        requires
            name@.len() > 0,
        ensures
            r == Value::Label(name),
    {
        Value::Label(name)
    }

    /// A resolved offset.
    pub fn literal(offset: Offset) -> (r: Value)
        ensures
            r == Value::Literal(offset),
    {
        Value::Literal(offset)
    }

    /// The text of the value, right-aligned in a field `width` characters
    /// wide.
    pub fn render(&self, width: usize) -> (r: String)
        ensures
            r@ == pad_left(self.spec_text(), width as nat),
    {
        let text = match self {
            Value::Label(name) => name.clone(),
            Value::Literal(offset) => decimal_string(*offset),
        };
        proof {
            assert(text@ == self.spec_text());
        }
        let pad = padding_for(text.as_str(), width);
        let mut r = String::new();
        let mut i: usize = 0;
        while i < pad
            invariant
                i <= pad,
                r@ == Seq::new(i as nat, |j: int| ' '),
            decreases pad - i,
        {
            proof {
                reveal_strlit(" ");
            }
            r.append(" ");
            i = i + 1;
            proof {
                assert(r@ =~= Seq::new(i as nat, |j: int| ' '));
            }
        }
        r.append(text.as_str());
        proof {
            assert(r@ =~= pad_left(self.spec_text(), width as nat));
        }
        r
    }
}

/// The one-character string of a decimal digit.
fn digit_str(d: u32) -> (r: &'static str)
    requires
        d < 10,
    ensures
        r@ == seq![digit_char(d as nat)],
{
    proof {
        reveal_strlit("0");
        reveal_strlit("1");
        reveal_strlit("2");
        reveal_strlit("3");
        reveal_strlit("4");
        reveal_strlit("5");
        reveal_strlit("6");
        reveal_strlit("7");
        reveal_strlit("8");
        reveal_strlit("9");
    }
    let r = if d == 0 {
        "0"
    } else if d == 1 {
        "1"
    } else if d == 2 {
        "2"
    } else if d == 3 {
        "3"
    } else if d == 4 {
        "4"
    } else if d == 5 {
        "5"
    } else if d == 6 {
        "6"
    } else if d == 7 {
        "7"
    } else if d == 8 {
        "8"
    } else {
        "9"
    };
    proof {
        assert(r@ =~= seq![digit_char(d as nat)]);
    }
    r
}

/// Appends the decimal digits of `m` to `out`.
fn push_digits(out: &mut String, m: u32)
    ensures
        final(out)@ == old(out)@ + digits_of(m as nat),
    decreases m,
{
    if m >= 10 {
        push_digits(out, m / 10);
    }
    out.append(digit_str(m % 10));
    proof {
        if m >= 10 {
            assert(final(out)@ =~= old(out)@ + digits_of(m as nat));
        } else {
            assert(final(out)@ =~= old(out)@ + digits_of(m as nat));
        }
    }
}

/// The decimal form of an offset.
fn decimal_string(n: Offset) -> (r: String)
    ensures
        r@ == decimal(n as int),
{
    let mut r = String::new();
    let magnitude: u32 = if n < 0 {
        proof {
            reveal_strlit("-");
        }
        r.append("-");
        (0i64 - n as i64) as u32
    } else {
        n as u32
    };
    push_digits(&mut r, magnitude);
    proof {
        assert(r@ =~= decimal(n as int));
    }
    r
}

/// How many spaces bring `s` up to `width` characters.
fn padding_for(s: &str, width: usize) -> (r: usize)
    ensures
        r as int == if s@.len() >= width { 0 } else { width - s@.len() },
{
    let mut chars = s.chars();
    let mut pad: usize = width;
    let ghost mut seen: int = 0;
    loop
        invariant
            0 <= seen,
            seen + chars.remaining().len() == s@.len(),
            pad as int == if seen >= width { 0 } else { width - seen },
            chars.decrease() is Some,
        decreases chars.decrease()->0,
    {
        match chars.next() {
            Some(_) => {
                if pad > 0 {
                    pad = pad - 1;
                }
                proof {
                    seen = seen + 1;
                }
            },
            None => {
                return pad;
            },
        }
    }
}

} // verus!
