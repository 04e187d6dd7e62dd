//! How an operand field is dereferenced.
use vstd::prelude::*;

use crate::registry::{lookup, unknown_variant, unknown_variant_text};

verus! {

/// How an operand field is dereferenced.
#[derive(Clone, Copy, Debug, PartialEq, Eq, Structural)]
pub enum AddressMode {
    Immediate,
    Direct,
    IndirectA,
    IndirectB,
    PreDecIndirectA,
    PreDecIndirectB,
    PostIncIndirectA,
    PostIncIndirectB,
}

impl Default for AddressMode {
    fn default() -> (r: Self)
        ensures
            r == AddressMode::Direct,
    {
        AddressMode::Direct
    }
}

impl AddressMode {
    /// The canonical spelling of a variant.
    pub open spec fn spec_canonical(self) -> Seq<char> {
        match self {
            AddressMode::Immediate => "#"@,
            AddressMode::Direct => "$"@,
            AddressMode::IndirectA => "*"@,
            AddressMode::IndirectB => "@"@,
            AddressMode::PreDecIndirectA => "{"@,
            AddressMode::PreDecIndirectB => "<"@,
            AddressMode::PostIncIndirectA => "}"@,
            AddressMode::PostIncIndirectB => ">"@,
        }
    }

    /// Every variant, in declaration order.
    pub open spec fn spec_values() -> Seq<AddressMode> {
        seq![
            AddressMode::Immediate,
            AddressMode::Direct,
            AddressMode::IndirectA,
            AddressMode::IndirectB,
            AddressMode::PreDecIndirectA,
            AddressMode::PreDecIndirectB,
            AddressMode::PostIncIndirectA,
            AddressMode::PostIncIndirectB,
        ]
    }

    /// Position of a variant in declaration order.
    pub open spec fn spec_index(self) -> int {
        match self {
            AddressMode::Immediate => 0,
            AddressMode::Direct => 1,
            AddressMode::IndirectA => 2,
            AddressMode::IndirectB => 3,
            AddressMode::PreDecIndirectA => 4,
            AddressMode::PreDecIndirectB => 5,
            AddressMode::PostIncIndirectA => 6,
            AddressMode::PostIncIndirectB => 7,
        }
    }

    /// The variant spelled exactly `s`, if there is one.
    pub open spec fn spec_parse(s: Seq<char>) -> Option<AddressMode> {
        if s == "#"@ {
            Some(AddressMode::Immediate)
        } else if s == "$"@ {
            Some(AddressMode::Direct)
        } else if s == "*"@ {
            Some(AddressMode::IndirectA)
        } else if s == "@"@ {
            Some(AddressMode::IndirectB)
        } else if s == "{"@ {
            Some(AddressMode::PreDecIndirectA)
        } else if s == "<"@ {
            Some(AddressMode::PreDecIndirectB)
        } else if s == "}"@ {
            Some(AddressMode::PostIncIndirectA)
        } else if s == ">"@ {
            Some(AddressMode::PostIncIndirectB)
        } else {
            None
        }
    }

    /// The canonical spelling, as a string slice.
    pub fn canonical(self) -> (r: &'static str)
        ensures
            r@ == self.spec_canonical(),
    {
        match self {
            AddressMode::Immediate => "#",
            AddressMode::Direct => "$",
            AddressMode::IndirectA => "*",
            AddressMode::IndirectB => "@",
            AddressMode::PreDecIndirectA => "{",
            AddressMode::PreDecIndirectB => "<",
            AddressMode::PostIncIndirectA => "}",
            AddressMode::PostIncIndirectB => ">",
        }
    }

    /// The canonical spelling, as an owned string.
    pub fn to_string(&self) -> (r: String)
        ensures
            r@ == self.spec_canonical(),
    {
        self.canonical().to_owned()
    }

    /// Every variant once, in declaration order.
    pub fn iter_values() -> (r: Vec<AddressMode>)
        ensures
            r@ == Self::spec_values(),
    {
        let mut r: Vec<AddressMode> = Vec::new();
        r.push(AddressMode::Immediate);
        r.push(AddressMode::Direct);
        r.push(AddressMode::IndirectA);
        r.push(AddressMode::IndirectB);
        r.push(AddressMode::PreDecIndirectA);
        r.push(AddressMode::PreDecIndirectB);
        r.push(AddressMode::PostIncIndirectA);
        r.push(AddressMode::PostIncIndirectB);
        proof {
            assert(r@ =~= Self::spec_values());
        }
        r
    }

    /// The canonical spellings, in declaration order.
    fn canonical_names(values: &Vec<AddressMode>) -> (r: Vec<&'static str>)
        ensures
            r@.len() == values@.len(),
            forall|i: int| 0 <= i < values@.len() ==> #[trigger] r@[i]@ == values@[i].spec_canonical(),
    {
        let mut r: Vec<&'static str> = Vec::new();
        let mut i: usize = 0;
        while i < values.len()
            invariant
                i <= values@.len(),
                r@.len() == i,
                forall|j: int| 0 <= j < i ==> #[trigger] r@[j]@ == values@[j].spec_canonical(),
            decreases values@.len() - i,
        {
            r.push(values[i].canonical());
            i = i + 1;
        }
        r
    }

    /// Reads a variant from its canonical spelling. Matching is exact and
    /// case-sensitive; any other string gives the unknown-variant message.
    pub fn from_str(s: &str) -> (r: Result<AddressMode, String>)
        ensures
            match r {
                Ok(v) => Self::spec_parse(s@) == Some(v),
                Err(e) => Self::spec_parse(s@) is None && e@ == unknown_variant_text(s@, "AddressMode"@),
            },
    {
        let values = Self::iter_values();
        let names = Self::canonical_names(&values);
        match lookup(names.as_slice(), s) {
            Some(i) => {
                proof {
                    Self::lemma_round_trip(values@[i as int]);
                }
                Ok(values[i])
            },
            None => {
                proof {
                    if let Some(v) = Self::spec_parse(s@) {
                        Self::lemma_parse_spells(s@);
                        Self::lemma_every_value_listed(v);
                        assert(names@[v.spec_index()]@ == s@);
                    }
                }
                Err(unknown_variant(s, "AddressMode"))
            },
        }
    }

    /// The canonical spellings tell the variants apart.
    proof fn lemma_spellings_distinct()
        ensures
            forall|v: AddressMode, u: AddressMode| v.spec_canonical() == u.spec_canonical() ==> v == u,
    {
        reveal_strlit("#");
        reveal_strlit("$");
        reveal_strlit("*");
        reveal_strlit("<");
        reveal_strlit(">");
        reveal_strlit("@");
        reveal_strlit("{");
        reveal_strlit("}");
        assert forall|v: AddressMode, u: AddressMode| v.spec_canonical() == u.spec_canonical() implies v == u by {
            if v != u {
                let sv = v.spec_canonical();
                let su = u.spec_canonical();
                assert(sv.len() != su.len() || sv[0] != su[0]);
            }
        }
    }

    /// Whatever `spec_parse` returns is spelled by the string it read.
    proof fn lemma_parse_spells(s: Seq<char>)
        ensures
            Self::spec_parse(s) matches Some(v) ==> v.spec_canonical() == s,
    {
    }

    /// Reading back the canonical spelling of a variant gives that variant.
    pub proof fn lemma_round_trip(v: AddressMode)
        ensures
            Self::spec_parse(v.spec_canonical()) == Some(v),
    {
        Self::lemma_spellings_distinct();
        Self::lemma_parse_spells(v.spec_canonical());
        match v {
            AddressMode::Immediate => {},
            AddressMode::Direct => {},
            AddressMode::IndirectA => {},
            AddressMode::IndirectB => {},
            AddressMode::PreDecIndirectA => {},
            AddressMode::PreDecIndirectB => {},
            AddressMode::PostIncIndirectA => {},
            AddressMode::PostIncIndirectB => {},
        }
    }

    /// The enumeration lists every variant, at its position.
    pub proof fn lemma_every_value_listed(v: AddressMode)
        ensures
            0 <= v.spec_index() < Self::spec_values().len(),
            Self::spec_values()[v.spec_index()] == v,
            Self::spec_values().contains(v),
    {
    }

    /// The enumeration has one entry per variant, 8 in all, none twice.
    pub proof fn lemma_values_distinct()
        ensures
            Self::spec_values().len() == 8,
            forall|i: int, j: int|
                0 <= i < j < Self::spec_values().len() ==> Self::spec_values()[i] != Self::spec_values()[j],
    {
        assert forall|i: int| 0 <= i < 8 implies #[trigger] Self::spec_values()[i].spec_index() == i by {
        }
    }
}

impl std::str::FromStr for AddressMode {
    type Err = String;

    fn from_str(s: &str) -> Result<AddressMode, String> {
        AddressMode::from_str(s)
    }
}

} // verus!
