use corewars_core::{AddressMode, Modifier, Opcode, PseudoOpcode, Value};

use Opcode::{
    Add, Cmp, Dat, Div, Djn, Jmn, Jmp, Jmz, Mod, Mov, Mul, Nop, SkipEq, Slt, Sne, Spl, Sub,
};

#[test]
fn dat_default() {
    for &a_mode in AddressMode::iter_values().iter() {
        for &b_mode in AddressMode::iter_values().iter() {
            assert_eq!(
                Modifier::default_88_to_94(Opcode::Dat, a_mode, b_mode),
                Modifier::F
            );
        }
    }
}

#[test]
fn modifier_b_default() {
    let opcodes = [Mov, Cmp, SkipEq, Sne];

    for &opcode in opcodes.iter() {
        for &a_mode in AddressMode::iter_values().iter() {
            if a_mode != AddressMode::Immediate {
                assert_eq!(
                    Modifier::default_88_to_94(opcode, a_mode, AddressMode::Immediate),
                    Modifier::B
                );
            }
        }
    }

    let opcodes = [Add, Sub, Mul, Div, Mod];

    for &opcode in opcodes.iter() {
        for &a_mode in AddressMode::iter_values().iter() {
            if a_mode != AddressMode::Immediate {
                assert_eq!(
                    Modifier::default_88_to_94(opcode, a_mode, AddressMode::Immediate),
                    Modifier::B
                );
            }
        }
    }

    for &a_mode in AddressMode::iter_values().iter() {
        for &b_mode in AddressMode::iter_values().iter() {
            if a_mode != AddressMode::Immediate {
                assert_eq!(
                    Modifier::default_88_to_94(Opcode::Slt, a_mode, b_mode),
                    Modifier::B
                )
            }
        }
    }

    let opcodes = [Jmp, Jmz, Jmn, Djn, Spl, Nop];

    for &opcode in opcodes.iter() {
        for &a_mode in AddressMode::iter_values().iter() {
            for &b_mode in AddressMode::iter_values().iter() {
                assert_eq!(
                    Modifier::default_88_to_94(opcode, a_mode, b_mode),
                    Modifier::B
                );
            }
        }
    }
}

#[test]
fn modifier_ab_default() {
    let opcodes = [Mov, Cmp, SkipEq, Sne, Add, Sub, Mul, Div, Mod, Slt];

    for &opcode in opcodes.iter() {
        for &b_mode in AddressMode::iter_values().iter() {
            assert_eq!(
                Modifier::default_88_to_94(opcode, AddressMode::Immediate, b_mode),
                Modifier::AB
            );
        }
    }
}

#[test]
fn modifier_i_default() {
    let opcodes = [Mov, Cmp, SkipEq, Sne];

    for &opcode in opcodes.iter() {
        for &a_mode in AddressMode::iter_values().iter() {
            for &b_mode in AddressMode::iter_values().iter() {
                if a_mode != AddressMode::Immediate && b_mode != AddressMode::Immediate {
                    assert_eq!(
                        Modifier::default_88_to_94(opcode, a_mode, b_mode),
                        Modifier::I
                    );
                }
            }
        }
    }
}

#[test]
fn modifier_f_default() {
    let opcodes = [Add, Sub, Mul, Div, Mod];

    for &opcode in opcodes.iter() {
        for &a_mode in AddressMode::iter_values().iter() {
            for &b_mode in AddressMode::iter_values().iter() {
                if a_mode != AddressMode::Immediate && b_mode != AddressMode::Immediate {
                    assert_eq!(
                        Modifier::default_88_to_94(opcode, a_mode, b_mode),
                        Modifier::F
                    );
                }
            }
        }
    }
}

#[test]
fn value_to_string() {
    assert_eq!(
        String::from("some_label"),
        Value::Label(String::from("some_label")).render(0)
    );

    assert_eq!(String::from("123"), Value::Literal(123).render(0));
}

#[test]
fn round_trip_every_vocabulary() {
    for &v in Opcode::iter_values().iter() {
        assert_eq!(Opcode::from_str(&v.to_string()), Ok(v));
    }
    for &v in PseudoOpcode::iter_values().iter() {
        assert_eq!(PseudoOpcode::from_str(&v.to_string()), Ok(v));
    }
    for &v in AddressMode::iter_values().iter() {
        assert_eq!(AddressMode::from_str(&v.to_string()), Ok(v));
    }
    for &v in Modifier::iter_values().iter() {
        assert_eq!(Modifier::from_str(&v.to_string()), Ok(v));
    }
}

#[test]
fn enumeration_order_and_counts() {
    assert_eq!(Opcode::iter_values().len(), 17);
    assert_eq!(PseudoOpcode::iter_values().len(), 4);
    assert_eq!(AddressMode::iter_values().len(), 8);
    assert_eq!(Modifier::iter_values().len(), 7);
    assert_eq!(
        Opcode::iter_values(),
        vec![Dat, Mov, Add, Sub, Mul, Div, Mod, Jmp, Jmz, Jmn, Djn, Cmp, SkipEq, Sne, Slt, Spl, Nop]
    );
    assert_eq!(
        PseudoOpcode::iter_values(),
        vec![PseudoOpcode::Org, PseudoOpcode::End, PseudoOpcode::Equ, PseudoOpcode::For]
    );
    assert_eq!(
        Modifier::iter_values(),
        vec![Modifier::A, Modifier::B, Modifier::AB, Modifier::BA, Modifier::F, Modifier::X, Modifier::I]
    );
    assert_eq!(Opcode::iter_values(), Opcode::iter_values());
}

#[test]
fn canonical_strings() {
    assert_eq!(SkipEq.to_string(), "SEQ");
    assert_eq!(Nop.to_string(), "NOP");
    assert_eq!(PseudoOpcode::Equ.to_string(), "EQU");
    assert_eq!(Modifier::BA.to_string(), "BA");
    let symbols: Vec<String> = AddressMode::iter_values().iter().map(|m| m.to_string()).collect();
    assert_eq!(symbols, vec!["#", "$", "*", "@", "{", "<", "}", ">"]);
    assert_eq!(AddressMode::from_str("{"), Ok(AddressMode::PreDecIndirectA));
    assert_eq!(Opcode::from_str("SEQ"), Ok(SkipEq));
}

#[test]
fn unknown_strings_fail_for_every_vocabulary() {
    assert_eq!(
        Opcode::from_str("Should fail"),
        Err("No variant 'Should fail' found for enum 'Opcode'".to_owned())
    );
    assert_eq!(
        PseudoOpcode::from_str("Should fail"),
        Err("No variant 'Should fail' found for enum 'PseudoOpcode'".to_owned())
    );
    assert_eq!(
        AddressMode::from_str("Should fail"),
        Err("No variant 'Should fail' found for enum 'AddressMode'".to_owned())
    );
    assert_eq!(
        Modifier::from_str("Should fail"),
        Err("No variant 'Should fail' found for enum 'Modifier'".to_owned())
    );
}

#[test]
fn matching_is_case_sensitive_and_untrimmed() {
    assert!(Opcode::from_str("mov").is_err());
    assert!(Opcode::from_str(" MOV").is_err());
    assert!(Modifier::from_str("ab").is_err());
    assert!(AddressMode::from_str("").is_err());
}

#[test]
fn nullary_defaults() {
    assert_eq!(Opcode::default(), Dat);
    assert_eq!(AddressMode::default(), AddressMode::Direct);
    assert_eq!(Modifier::default(), Modifier::F);
    assert_eq!(Value::default(), Value::Literal(0));
}

#[test]
fn value_rendering_pads_on_the_left() {
    assert_eq!(Value::literal(-5).render(4), "  -5");
    assert_eq!(Value::literal(-5).render(1), "-5");
    assert_eq!(Value::literal(0).render(0), "0");
    assert_eq!(Value::label(String::from("some_label")).render(0), "some_label");
    assert_eq!(Value::label(String::from("lbl")).render(6), "   lbl");
    assert_eq!(Value::label(String::from("äö")).render(3), " äö");
    assert_eq!(Value::literal(i32::MIN).render(0), "-2147483648");
    assert_eq!(Value::literal(i32::MAX).render(12), "  2147483647");
    assert_eq!(Value::literal(1090).render(0), "1090");
}

#[test]
fn value_constructors() {
    assert_eq!(Value::label(String::from("x")), Value::Label(String::from("x")));
    assert_eq!(Value::literal(7), Value::Literal(7));
}

#[test]
fn inference_is_deterministic() {
    for &opcode in Opcode::iter_values().iter() {
        for &a_mode in AddressMode::iter_values().iter() {
            for &b_mode in AddressMode::iter_values().iter() {
                assert_eq!(
                    Modifier::default_88_to_94(opcode, a_mode, b_mode),
                    Modifier::default_88_to_94(opcode, a_mode, b_mode)
                );
            }
        }
    }
    assert_eq!(Modifier::default_88_to_94(Slt, AddressMode::Direct, AddressMode::IndirectB), Modifier::B);
    assert_eq!(Modifier::default_88_to_94(Dat, AddressMode::Immediate, AddressMode::Immediate), Modifier::F);
}

#[test]
fn parse_goes_through_from_str() {
    assert_eq!("DJN".parse::<Opcode>(), Ok(Djn));
    assert_eq!("FOR".parse::<PseudoOpcode>(), Ok(PseudoOpcode::For));
    assert_eq!(">".parse::<AddressMode>(), Ok(AddressMode::PostIncIndirectB));
    assert_eq!("X".parse::<Modifier>(), Ok(Modifier::X));
    assert_eq!(
        "x".parse::<Modifier>(),
        Err("No variant 'x' found for enum 'Modifier'".to_owned())
    );
}
