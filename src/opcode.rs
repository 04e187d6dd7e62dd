//! The operation codes and assembler directives of Redcode.
use vstd::prelude::*;

use crate::registry::{lookup, unknown_variant, unknown_variant_text};

verus! {

/// A Redcode operation code.
#[derive(Clone, Copy, Debug, PartialEq, Eq, Structural)]
pub enum Opcode {
    Dat,
    Mov,
    Add,
    Sub,
    Mul,
    Div,
    Mod,
    Jmp,
    Jmz,
    Jmn,
    Djn,
    Cmp,
    SkipEq,
    Sne,
    Slt,
    Spl,
    Nop,
}

impl Default for Opcode {
    fn default() -> (r: Self)
        ensures
            r == Opcode::Dat,
    {
        Opcode::Dat
    }
}

impl Opcode {
    /// The canonical spelling of a variant.
    pub open spec fn spec_canonical(self) -> Seq<char> {
        match self {
            Opcode::Dat => "DAT"@,
            Opcode::Mov => "MOV"@,
            Opcode::Add => "ADD"@,
            Opcode::Sub => "SUB"@,
            Opcode::Mul => "MUL"@,
            Opcode::Div => "DIV"@,
            Opcode::Mod => "MOD"@,
            Opcode::Jmp => "JMP"@,
            Opcode::Jmz => "JMZ"@,
            Opcode::Jmn => "JMN"@,
            Opcode::Djn => "DJN"@,
            Opcode::Cmp => "CMP"@,
            Opcode::SkipEq => "SEQ"@,
            Opcode::Sne => "SNE"@,
            Opcode::Slt => "SLT"@,
            Opcode::Spl => "SPL"@,
            Opcode::Nop => "NOP"@,
        }
    }

    /// Every variant, in declaration order.
    pub open spec fn spec_values() -> Seq<Opcode> {
        seq![
            Opcode::Dat,
            Opcode::Mov,
            Opcode::Add,
            Opcode::Sub,
            Opcode::Mul,
            Opcode::Div,
            Opcode::Mod,
            Opcode::Jmp,
            Opcode::Jmz,
            Opcode::Jmn,
            Opcode::Djn,
            Opcode::Cmp,
            Opcode::SkipEq,
            Opcode::Sne,
            Opcode::Slt,
            Opcode::Spl,
            Opcode::Nop,
        ]
    }

    /// Position of a variant in declaration order.
    pub open spec fn spec_index(self) -> int {
        match self {
            Opcode::Dat => 0,
            Opcode::Mov => 1,
            Opcode::Add => 2,
            Opcode::Sub => 3,
            Opcode::Mul => 4,
            Opcode::Div => 5,
            Opcode::Mod => 6,
            Opcode::Jmp => 7,
            Opcode::Jmz => 8,
            Opcode::Jmn => 9,
            Opcode::Djn => 10,
            Opcode::Cmp => 11,
            Opcode::SkipEq => 12,
            Opcode::Sne => 13,
            Opcode::Slt => 14,
            Opcode::Spl => 15,
            Opcode::Nop => 16,
        }
    }

    /// The variant spelled exactly `s`, if there is one.
    pub open spec fn spec_parse(s: Seq<char>) -> Option<Opcode> {
        if s == "DAT"@ {
            Some(Opcode::Dat)
        } else if s == "MOV"@ {
            Some(Opcode::Mov)
        } else if s == "ADD"@ {
            Some(Opcode::Add)
        } else if s == "SUB"@ {
            Some(Opcode::Sub)
        } else if s == "MUL"@ {
            Some(Opcode::Mul)
        } else if s == "DIV"@ {
            Some(Opcode::Div)
        } else if s == "MOD"@ {
            Some(Opcode::Mod)
        } else if s == "JMP"@ {
            Some(Opcode::Jmp)
        } else if s == "JMZ"@ {
            Some(Opcode::Jmz)
        } else if s == "JMN"@ {
            Some(Opcode::Jmn)
        } else if s == "DJN"@ {
            Some(Opcode::Djn)
        } else if s == "CMP"@ {
            Some(Opcode::Cmp)
        } else if s == "SEQ"@ {
            Some(Opcode::SkipEq)
        } else if s == "SNE"@ {
            Some(Opcode::Sne)
        } else if s == "SLT"@ {
            Some(Opcode::Slt)
        } else if s == "SPL"@ {
            Some(Opcode::Spl)
        } else if s == "NOP"@ {
            Some(Opcode::Nop)
        } else {
            None
        }
    }

    /// The canonical spelling, as a string slice.
    pub fn canonical(self) -> (r: &'static str)
        ensures
            r@ == self.spec_canonical(),
    {
        match self {
            Opcode::Dat => "DAT",
            Opcode::Mov => "MOV",
            Opcode::Add => "ADD",
            Opcode::Sub => "SUB",
            Opcode::Mul => "MUL",
            Opcode::Div => "DIV",
            Opcode::Mod => "MOD",
            Opcode::Jmp => "JMP",
            Opcode::Jmz => "JMZ",
            Opcode::Jmn => "JMN",
            Opcode::Djn => "DJN",
            Opcode::Cmp => "CMP",
            Opcode::SkipEq => "SEQ",
            Opcode::Sne => "SNE",
            Opcode::Slt => "SLT",
            Opcode::Spl => "SPL",
            Opcode::Nop => "NOP",
        }
    }

    /// The canonical spelling, as an owned string.
    pub fn to_string(&self) -> (r: String)
        ensures
            r@ == self.spec_canonical(),
    {
        self.canonical().to_owned()
    }

    /// Every variant once, in declaration order.
    pub fn iter_values() -> (r: Vec<Opcode>)
        ensures
            r@ == Self::spec_values(),
    {
        let mut r: Vec<Opcode> = Vec::new();
        r.push(Opcode::Dat);
        r.push(Opcode::Mov);
        r.push(Opcode::Add);
        r.push(Opcode::Sub);
        r.push(Opcode::Mul);
        r.push(Opcode::Div);
        r.push(Opcode::Mod);
        r.push(Opcode::Jmp);
        r.push(Opcode::Jmz);
        r.push(Opcode::Jmn);
        r.push(Opcode::Djn);
        r.push(Opcode::Cmp);
        r.push(Opcode::SkipEq);
        r.push(Opcode::Sne);
        r.push(Opcode::Slt);
        r.push(Opcode::Spl);
        r.push(Opcode::Nop);
        proof {
            assert(r@ =~= Self::spec_values());
        }
        r
    }

    /// The canonical spellings, in declaration order.
    fn canonical_names(values: &Vec<Opcode>) -> (r: Vec<&'static str>)
        ensures
            r@.len() == values@.len(),
            forall|i: int| 0 <= i < values@.len() ==> #[trigger] r@[i]@ == values@[i].spec_canonical(),
    {
        let mut r: Vec<&'static str> = Vec::new();
        let mut i: usize = 0;
        while i < values.len()
            invariant
                i <= values@.len(),
                r@.len() == i,
                forall|j: int| 0 <= j < i ==> #[trigger] r@[j]@ == values@[j].spec_canonical(),
            decreases values@.len() - i,
        {
            r.push(values[i].canonical());
            i = i + 1;
        }
        r
    }

    /// Reads a variant from its canonical spelling. Matching is exact and
    /// case-sensitive; any other string gives the unknown-variant message.
    pub fn from_str(s: &str) -> (r: Result<Opcode, String>)
        ensures
            match r {
                Ok(v) => Self::spec_parse(s@) == Some(v),
                Err(e) => Self::spec_parse(s@) is None && e@ == unknown_variant_text(s@, "Opcode"@),
            },
    {
        let values = Self::iter_values();
        let names = Self::canonical_names(&values);
        match lookup(names.as_slice(), s) {
            Some(i) => {
                proof {
                    Self::lemma_round_trip(values@[i as int]);
                }
                Ok(values[i])
            },
            None => {
                proof {
                    if let Some(v) = Self::spec_parse(s@) {
                        Self::lemma_parse_spells(s@);
                        Self::lemma_every_value_listed(v);
                        assert(names@[v.spec_index()]@ == s@);
                    }
                }
                Err(unknown_variant(s, "Opcode"))
            },
        }
    }

    /// The canonical spellings tell the variants apart.
    proof fn lemma_spellings_distinct()
        ensures
            forall|v: Opcode, u: Opcode| v.spec_canonical() == u.spec_canonical() ==> v == u,
    {
        reveal_strlit("ADD");
        reveal_strlit("CMP");
        reveal_strlit("DAT");
        reveal_strlit("DIV");
        reveal_strlit("DJN");
        reveal_strlit("JMN");
        reveal_strlit("JMP");
        reveal_strlit("JMZ");
        reveal_strlit("MOD");
        reveal_strlit("MOV");
        reveal_strlit("MUL");
        reveal_strlit("NOP");
        reveal_strlit("SEQ");
        reveal_strlit("SLT");
        reveal_strlit("SNE");
        reveal_strlit("SPL");
        reveal_strlit("SUB");
        assert forall|v: Opcode, u: Opcode| v.spec_canonical() == u.spec_canonical() implies v == u by {
            if v != u {
                let sv = v.spec_canonical();
                let su = u.spec_canonical();
                assert(sv.len() != su.len() || sv[0] != su[0] || sv[1] != su[1] || sv[2] != su[2]);
            }
        }
    }

    /// Whatever `spec_parse` returns is spelled by the string it read.
    proof fn lemma_parse_spells(s: Seq<char>)
        ensures
            Self::spec_parse(s) matches Some(v) ==> v.spec_canonical() == s,
    {
    }

    /// Reading back the canonical spelling of a variant gives that variant.
    pub proof fn lemma_round_trip(v: Opcode)
        ensures
            Self::spec_parse(v.spec_canonical()) == Some(v),
    {
        Self::lemma_spellings_distinct();
        Self::lemma_parse_spells(v.spec_canonical());
        match v {
            Opcode::Dat => {},
            Opcode::Mov => {},
            Opcode::Add => {},
            Opcode::Sub => {},
            Opcode::Mul => {},
            Opcode::Div => {},
            Opcode::Mod => {},
            Opcode::Jmp => {},
            Opcode::Jmz => {},
            Opcode::Jmn => {},
            Opcode::Djn => {},
            Opcode::Cmp => {},
            Opcode::SkipEq => {},
            Opcode::Sne => {},
            Opcode::Slt => {},
            Opcode::Spl => {},
            Opcode::Nop => {},
        }
    }

    /// The enumeration lists every variant, at its position.
    pub proof fn lemma_every_value_listed(v: Opcode)
        ensures
            0 <= v.spec_index() < Self::spec_values().len(),
            Self::spec_values()[v.spec_index()] == v,
            Self::spec_values().contains(v),
    {
    }

    /// The enumeration has one entry per variant, 17 in all, none twice.
    pub proof fn lemma_values_distinct()
        ensures
            Self::spec_values().len() == 17,
            forall|i: int, j: int|
                0 <= i < j < Self::spec_values().len() ==> Self::spec_values()[i] != Self::spec_values()[j],
    {
        assert forall|i: int| 0 <= i < 17 implies #[trigger] Self::spec_values()[i].spec_index() == i by {
        }
    }
}

impl std::str::FromStr for Opcode {
    type Err = String;

    fn from_str(s: &str) -> Result<Opcode, String> {
        Opcode::from_str(s)
    }
}

/// An assembler directive.
#[derive(Clone, Copy, Debug, PartialEq, Eq, Structural)]
pub enum PseudoOpcode {
    Org,
    End,
    Equ,
    For,
}

impl PseudoOpcode {
    /// The canonical spelling of a variant.
    pub open spec fn spec_canonical(self) -> Seq<char> {
        match self {
            PseudoOpcode::Org => "ORG"@,
            PseudoOpcode::End => "END"@,
            PseudoOpcode::Equ => "EQU"@,
            PseudoOpcode::For => "FOR"@,
        }
    }

    /// Every variant, in declaration order.
    pub open spec fn spec_values() -> Seq<PseudoOpcode> {
        seq![
            PseudoOpcode::Org,
            PseudoOpcode::End,
            PseudoOpcode::Equ,
            PseudoOpcode::For,
        ]
    }

    /// Position of a variant in declaration order.
    pub open spec fn spec_index(self) -> int {
        match self {
            PseudoOpcode::Org => 0,
            PseudoOpcode::End => 1,
            PseudoOpcode::Equ => 2,
            PseudoOpcode::For => 3,
        }
    }

    /// The variant spelled exactly `s`, if there is one.
    pub open spec fn spec_parse(s: Seq<char>) -> Option<PseudoOpcode> {
        if s == "ORG"@ {
            Some(PseudoOpcode::Org)
        } else if s == "END"@ {
            Some(PseudoOpcode::End)
        } else if s == "EQU"@ {
            Some(PseudoOpcode::Equ)
        } else if s == "FOR"@ {
            Some(PseudoOpcode::For)
        } else {
            None
        }
    }

    /// The canonical spelling, as a string slice.
    pub fn canonical(self) -> (r: &'static str)
        ensures
            r@ == self.spec_canonical(),
    {
        match self {
            PseudoOpcode::Org => "ORG",
            PseudoOpcode::End => "END",
            PseudoOpcode::Equ => "EQU",
            PseudoOpcode::For => "FOR",
        }
    }

    /// The canonical spelling, as an owned string.
    pub fn to_string(&self) -> (r: String)
        ensures
            r@ == self.spec_canonical(),
    {
        self.canonical().to_owned()
    }

    /// Every variant once, in declaration order.
    pub fn iter_values() -> (r: Vec<PseudoOpcode>)
        ensures
            r@ == Self::spec_values(),
    {
        let mut r: Vec<PseudoOpcode> = Vec::new();
        r.push(PseudoOpcode::Org);
        r.push(PseudoOpcode::End);
        r.push(PseudoOpcode::Equ);
        r.push(PseudoOpcode::For);
        proof {
            assert(r@ =~= Self::spec_values());
        }
        r
    }

    /// The canonical spellings, in declaration order.
    fn canonical_names(values: &Vec<PseudoOpcode>) -> (r: Vec<&'static str>)
        ensures
            r@.len() == values@.len(),
            forall|i: int| 0 <= i < values@.len() ==> #[trigger] r@[i]@ == values@[i].spec_canonical(),
    {
        let mut r: Vec<&'static str> = Vec::new();
        let mut i: usize = 0;
        while i < values.len()
            invariant
                i <= values@.len(),
                r@.len() == i,
                forall|j: int| 0 <= j < i ==> #[trigger] r@[j]@ == values@[j].spec_canonical(),
            decreases values@.len() - i,
        {
            r.push(values[i].canonical());
            i = i + 1;
        }
        r
    }

    /// Reads a variant from its canonical spelling. Matching is exact and
    /// case-sensitive; any other string gives the unknown-variant message.
    pub fn from_str(s: &str) -> (r: Result<PseudoOpcode, String>)
        ensures
            match r {
                Ok(v) => Self::spec_parse(s@) == Some(v),
                Err(e) => Self::spec_parse(s@) is None && e@ == unknown_variant_text(s@, "PseudoOpcode"@),
            },
    {
        let values = Self::iter_values();
        let names = Self::canonical_names(&values);
        match lookup(names.as_slice(), s) {
            Some(i) => {
                proof {
                    Self::lemma_round_trip(values@[i as int]);
                }
                Ok(values[i])
            },
            None => {
                proof {
                    if let Some(v) = Self::spec_parse(s@) {
                        Self::lemma_parse_spells(s@);
                        Self::lemma_every_value_listed(v);
                        assert(names@[v.spec_index()]@ == s@);
                    }
                }
                Err(unknown_variant(s, "PseudoOpcode"))
            },
        }
    }

    /// The canonical spellings tell the variants apart.
    proof fn lemma_spellings_distinct()
        ensures
            forall|v: PseudoOpcode, u: PseudoOpcode| v.spec_canonical() == u.spec_canonical() ==> v == u,
    {
        reveal_strlit("END");
        reveal_strlit("EQU");
        reveal_strlit("FOR");
        reveal_strlit("ORG");
        assert forall|v: PseudoOpcode, u: PseudoOpcode| v.spec_canonical() == u.spec_canonical() implies v == u by {
            if v != u {
                let sv = v.spec_canonical();
                let su = u.spec_canonical();
                assert(sv.len() != su.len() || sv[0] != su[0] || sv[1] != su[1] || sv[2] != su[2]);
            }
        }
    }

    /// Whatever `spec_parse` returns is spelled by the string it read.
    proof fn lemma_parse_spells(s: Seq<char>)
        ensures
            Self::spec_parse(s) matches Some(v) ==> v.spec_canonical() == s,
    {
    }

    /// Reading back the canonical spelling of a variant gives that variant.
    pub proof fn lemma_round_trip(v: PseudoOpcode)
        ensures
            Self::spec_parse(v.spec_canonical()) == Some(v),
    {
        Self::lemma_spellings_distinct();
        Self::lemma_parse_spells(v.spec_canonical());
        match v {
            PseudoOpcode::Org => {},
            PseudoOpcode::End => {},
            PseudoOpcode::Equ => {},
            PseudoOpcode::For => {},
        }
    }

    /// The enumeration lists every variant, at its position.
    pub proof fn lemma_every_value_listed(v: PseudoOpcode)
        ensures
            0 <= v.spec_index() < Self::spec_values().len(),
            Self::spec_values()[v.spec_index()] == v,
            Self::spec_values().contains(v),
    {
    }

    /// The enumeration has one entry per variant, 4 in all, none twice.
    pub proof fn lemma_values_distinct()
        ensures
            Self::spec_values().len() == 4,
            forall|i: int, j: int|
                0 <= i < j < Self::spec_values().len() ==> Self::spec_values()[i] != Self::spec_values()[j],
    {
        assert forall|i: int| 0 <= i < 4 implies #[trigger] Self::spec_values()[i].spec_index() == i by {
        }
    }
}

impl std::str::FromStr for PseudoOpcode {
    type Err = String;

    fn from_str(s: &str) -> Result<PseudoOpcode, String> {
        PseudoOpcode::from_str(s)
    }
}

} // verus!
