//! Operand-field modifiers, and the modifier an instruction gets when its
//! source text names none.
use vstd::prelude::*;

use crate::address_mode::AddressMode;
use crate::opcode::Opcode;
use crate::registry::{lookup, unknown_variant, unknown_variant_text};

verus! {

/// Which fields of its operands an instruction works on.
#[derive(Clone, Copy, Debug, PartialEq, Eq, Structural)]
pub enum Modifier {
    A,
    B,
    AB,
    BA,
    F,
    X,
    I,
}

impl Default for Modifier {
    fn default() -> (r: Self)
        ensures
            r == Modifier::F,
    {
        Modifier::F
    }
}

impl Modifier {
    /// The canonical spelling of a variant.
    pub open spec fn spec_canonical(self) -> Seq<char> {
        match self {
            Modifier::A => "A"@,
            Modifier::B => "B"@,
            Modifier::AB => "AB"@,
            Modifier::BA => "BA"@,
            Modifier::F => "F"@,
            Modifier::X => "X"@,
            Modifier::I => "I"@,
        }
    }

    /// Every variant, in declaration order.
    pub open spec fn spec_values() -> Seq<Modifier> {
        seq![
            Modifier::A,
            Modifier::B,
            Modifier::AB,
            Modifier::BA,
            Modifier::F,
            Modifier::X,
            Modifier::I,
        ]
    }

    /// Position of a variant in declaration order.
    pub open spec fn spec_index(self) -> int {
        match self {
            Modifier::A => 0,
            Modifier::B => 1,
            Modifier::AB => 2,
            Modifier::BA => 3,
            Modifier::F => 4,
            Modifier::X => 5,
            Modifier::I => 6,
        }
    }

    /// The variant spelled exactly `s`, if there is one.
    pub open spec fn spec_parse(s: Seq<char>) -> Option<Modifier> {
        if s == "A"@ {
            Some(Modifier::A)
        } else if s == "B"@ {
            Some(Modifier::B)
        } else if s == "AB"@ {
            Some(Modifier::AB)
        } else if s == "BA"@ {
            Some(Modifier::BA)
        } else if s == "F"@ {
            Some(Modifier::F)
        } else if s == "X"@ {
            Some(Modifier::X)
        } else if s == "I"@ {
            Some(Modifier::I)
        } else {
            None
        }
    }

    /// The canonical spelling, as a string slice.
    pub fn canonical(self) -> (r: &'static str)
        ensures
            r@ == self.spec_canonical(),
    {
        match self {
            Modifier::A => "A",
            Modifier::B => "B",
            Modifier::AB => "AB",
            Modifier::BA => "BA",
            Modifier::F => "F",
            Modifier::X => "X",
            Modifier::I => "I",
        }
    }

    /// The canonical spelling, as an owned string.
    pub fn to_string(&self) -> (r: String)
        ensures
            r@ == self.spec_canonical(),
    {
        self.canonical().to_owned()
    }

    /// Every variant once, in declaration order.
    pub fn iter_values() -> (r: Vec<Modifier>)
        ensures
            r@ == Self::spec_values(),
    {
        let mut r: Vec<Modifier> = Vec::new();
        r.push(Modifier::A);
        r.push(Modifier::B);
        r.push(Modifier::AB);
        r.push(Modifier::BA);
        r.push(Modifier::F);
        r.push(Modifier::X);
        r.push(Modifier::I);
        proof {
            assert(r@ =~= Self::spec_values());
        }
        r
    }

    /// The canonical spellings, in declaration order.
    fn canonical_names(values: &Vec<Modifier>) -> (r: Vec<&'static str>)
        ensures
            r@.len() == values@.len(),
            forall|i: int| 0 <= i < values@.len() ==> #[trigger] r@[i]@ == values@[i].spec_canonical(),
    {
        let mut r: Vec<&'static str> = Vec::new();
        let mut i: usize = 0;
        while i < values.len()
            invariant
                i <= values@.len(),
                r@.len() == i,
                forall|j: int| 0 <= j < i ==> #[trigger] r@[j]@ == values@[j].spec_canonical(),
            decreases values@.len() - i,
        {
            r.push(values[i].canonical());
            i = i + 1;
        }
        r
    }

    /// Reads a variant from its canonical spelling. Matching is exact and
    /// case-sensitive; any other string gives the unknown-variant message.
    pub fn from_str(s: &str) -> (r: Result<Modifier, String>)
        ensures
            match r {
                Ok(v) => Self::spec_parse(s@) == Some(v),
                Err(e) => Self::spec_parse(s@) is None && e@ == unknown_variant_text(s@, "Modifier"@),
            },
    {
        let values = Self::iter_values();
        let names = Self::canonical_names(&values);
        match lookup(names.as_slice(), s) {
            Some(i) => {
                proof {
                    Self::lemma_round_trip(values@[i as int]);
                }
                Ok(values[i])
            },
            None => {
                proof {
                    if let Some(v) = Self::spec_parse(s@) {
                        Self::lemma_parse_spells(s@);
                        Self::lemma_every_value_listed(v);
                        assert(names@[v.spec_index()]@ == s@);
                    }
                }
                Err(unknown_variant(s, "Modifier"))
            },
        }
    }

    /// The canonical spellings tell the variants apart.
    proof fn lemma_spellings_distinct()
        ensures
            forall|v: Modifier, u: Modifier| v.spec_canonical() == u.spec_canonical() ==> v == u,
    {
        reveal_strlit("A");
        reveal_strlit("AB");
        reveal_strlit("B");
        reveal_strlit("BA");
        reveal_strlit("F");
        reveal_strlit("I");
        reveal_strlit("X");
        assert forall|v: Modifier, u: Modifier| v.spec_canonical() == u.spec_canonical() implies v == u by {
            if v != u {
                let sv = v.spec_canonical();
                let su = u.spec_canonical();
                assert(sv.len() != su.len() || sv[0] != su[0] || sv[1] != su[1]);
            }
        }
    }

    /// Whatever `spec_parse` returns is spelled by the string it read.
    proof fn lemma_parse_spells(s: Seq<char>)
        ensures
            Self::spec_parse(s) matches Some(v) ==> v.spec_canonical() == s,
    {
    }

    /// Reading back the canonical spelling of a variant gives that variant.
    pub proof fn lemma_round_trip(v: Modifier)
        ensures
            Self::spec_parse(v.spec_canonical()) == Some(v),
    {
        Self::lemma_spellings_distinct();
        Self::lemma_parse_spells(v.spec_canonical());
        match v {
            Modifier::A => {},
            Modifier::B => {},
            Modifier::AB => {},
            Modifier::BA => {},
            Modifier::F => {},
            Modifier::X => {},
            Modifier::I => {},
        }
    }

    /// The enumeration lists every variant, at its position.
    pub proof fn lemma_every_value_listed(v: Modifier)
        ensures
            0 <= v.spec_index() < Self::spec_values().len(),
            Self::spec_values()[v.spec_index()] == v,
            Self::spec_values().contains(v),
    {
    }

    /// The enumeration has one entry per variant, 7 in all, none twice.
    pub proof fn lemma_values_distinct()
        ensures
            Self::spec_values().len() == 7,
            forall|i: int, j: int|
                0 <= i < j < Self::spec_values().len() ==> Self::spec_values()[i] != Self::spec_values()[j],
    {
        assert forall|i: int| 0 <= i < 7 implies #[trigger] Self::spec_values()[i].spec_index() == i by {
        }
    }
}

impl std::str::FromStr for Modifier {
    type Err = String;

    fn from_str(s: &str) -> Result<Modifier, String> {
        Modifier::from_str(s)
    }
}

/// Opcodes whose ICWS'88 behaviour depends on the B-field alone.
pub open spec fn is_b_field_opcode(op: Opcode) -> bool {
    op == Opcode::Jmp || op == Opcode::Jmz || op == Opcode::Jmn || op == Opcode::Djn || op
        == Opcode::Spl || op == Opcode::Nop
}

/// Opcodes that move or compare whole instructions.
pub open spec fn is_whole_instruction_opcode(op: Opcode) -> bool {
    op == Opcode::Mov || op == Opcode::Cmp || op == Opcode::SkipEq || op == Opcode::Sne
}

/// Opcodes that do arithmetic on both fields.
pub open spec fn is_arithmetic_opcode(op: Opcode) -> bool {
    op == Opcode::Add || op == Opcode::Sub || op == Opcode::Mul || op == Opcode::Div || op
        == Opcode::Mod
}

/// The ICWS'88 to ICWS'94 conversion: the modifier an instruction takes
/// when its source names none.
pub open spec fn spec_default_88_to_94(op: Opcode, a_mode: AddressMode, b_mode: AddressMode) -> Modifier {
    if op == Opcode::Dat {
        Modifier::F
    } else if is_b_field_opcode(op) {
        Modifier::B
    } else if a_mode == AddressMode::Immediate {
        Modifier::AB
    } else if b_mode == AddressMode::Immediate {
        Modifier::B
    } else if is_whole_instruction_opcode(op) {
        Modifier::I
    } else if is_arithmetic_opcode(op) {
        Modifier::F
    } else {
        // only SLT is left
        Modifier::B
    }
}

impl Modifier {
    /// The modifier for an instruction whose source omits one, from its
    /// opcode and the addressing modes of its two fields.
    pub fn default_88_to_94(opcode: Opcode, a_mode: AddressMode, b_mode: AddressMode) -> (r: Self)
        ensures
            r == spec_default_88_to_94(opcode, a_mode, b_mode),
    {
        match opcode {
            Opcode::Dat => Modifier::F,
            Opcode::Jmp | Opcode::Jmz | Opcode::Jmn | Opcode::Djn | Opcode::Spl | Opcode::Nop => {
                Modifier::B
            },
            Opcode::Mov | Opcode::Cmp | Opcode::SkipEq | Opcode::Sne | Opcode::Slt | Opcode::Add
            | Opcode::Sub | Opcode::Mul | Opcode::Div | Opcode::Mod => {
                if a_mode == AddressMode::Immediate {
                    Modifier::AB
                } else if b_mode == AddressMode::Immediate {
                    Modifier::B
                } else {
                    match opcode {
                        Opcode::Add | Opcode::Sub | Opcode::Mul | Opcode::Div | Opcode::Mod => {
                            Modifier::F
                        },
                        Opcode::Slt => Modifier::B,
                        _ => Modifier::I,
                    }
                }
            },
        }
    }
}

/// DAT takes F whatever the modes of its fields.
pub proof fn lemma_dat_defaults_to_f(a_mode: AddressMode, b_mode: AddressMode)
    ensures
        spec_default_88_to_94(Opcode::Dat, a_mode, b_mode) == Modifier::F,
{
}

/// JMP, JMZ, JMN, DJN, SPL and NOP take B whatever the modes of their fields.
pub proof fn lemma_b_field_opcodes_default_to_b(op: Opcode, a_mode: AddressMode, b_mode: AddressMode)
    requires
        op == Opcode::Jmp || op == Opcode::Jmz || op == Opcode::Jmn || op == Opcode::Djn || op
            == Opcode::Spl || op == Opcode::Nop,
    ensures
        spec_default_88_to_94(op, a_mode, b_mode) == Modifier::B,
{
}

/// Every two-field opcode with an immediate A-field takes AB, whatever the
/// mode of its B-field.
pub proof fn lemma_immediate_a_defaults_to_ab(op: Opcode, b_mode: AddressMode)
    requires
        op == Opcode::Mov || op == Opcode::Add || op == Opcode::Sub || op == Opcode::Mul || op
            == Opcode::Div || op == Opcode::Mod || op == Opcode::Cmp || op == Opcode::SkipEq || op
            == Opcode::Sne || op == Opcode::Slt,
    ensures
        spec_default_88_to_94(op, AddressMode::Immediate, b_mode) == Modifier::AB,
{
}

/// With neither field immediate, MOV, CMP, SEQ and SNE take I, SLT takes B,
/// and ADD, SUB, MUL, DIV and MOD take F.
pub proof fn lemma_non_immediate_defaults(op: Opcode, a_mode: AddressMode, b_mode: AddressMode)
    requires
        a_mode != AddressMode::Immediate,
        b_mode != AddressMode::Immediate,
    ensures
        (op == Opcode::Mov || op == Opcode::Cmp || op == Opcode::SkipEq || op == Opcode::Sne)
            ==> spec_default_88_to_94(op, a_mode, b_mode) == Modifier::I,
        op == Opcode::Slt ==> spec_default_88_to_94(op, a_mode, b_mode) == Modifier::B,
        (op == Opcode::Add || op == Opcode::Sub || op == Opcode::Mul || op == Opcode::Div || op
            == Opcode::Mod) ==> spec_default_88_to_94(op, a_mode, b_mode) == Modifier::F,
{
}

} // verus!
