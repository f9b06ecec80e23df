use jxx::{Jc, Jge, Jl, Jlo, Jmp, Jn, Jnz, Jxx, Jz};

const OFFSETS: [i16; 11] = [i16::MIN, -513, -512, -6, -1, 0, 1, 6, 511, 512, i16::MAX];

fn describe<J: Jxx>(insn: &J) -> (String, i16, usize) {
    (insn.mnemonic().to_string(), insn.offset(), insn.size())
}

#[test]
fn jnz_keeps_offset_and_size() {
    for o in OFFSETS {
        assert_eq!(Jnz::new(o).offset(), o);
        assert_eq!(Jnz::new(o).size(), 2);
    }
}

#[test]
fn jz_keeps_offset_and_size() {
    for o in OFFSETS {
        assert_eq!(Jz::new(o).offset(), o);
        assert_eq!(Jz::new(o).size(), 2);
    }
}

#[test]
fn jlo_keeps_offset_and_size() {
    for o in OFFSETS {
        assert_eq!(Jlo::new(o).offset(), o);
        assert_eq!(Jlo::new(o).size(), 2);
    }
}

#[test]
fn jc_keeps_offset_and_size() {
    for o in OFFSETS {
        assert_eq!(Jc::new(o).offset(), o);
        assert_eq!(Jc::new(o).size(), 2);
    }
}

#[test]
fn jn_keeps_offset_and_size() {
    for o in OFFSETS {
        assert_eq!(Jn::new(o).offset(), o);
        assert_eq!(Jn::new(o).size(), 2);
    }
}

#[test]
fn jge_keeps_offset_and_size() {
    for o in OFFSETS {
        assert_eq!(Jge::new(o).offset(), o);
        assert_eq!(Jge::new(o).size(), 2);
    }
}

#[test]
fn jl_keeps_offset_and_size() {
    for o in OFFSETS {
        assert_eq!(Jl::new(o).offset(), o);
        assert_eq!(Jl::new(o).size(), 2);
    }
}

#[test]
fn jmp_keeps_offset_and_size() {
    for o in OFFSETS {
        assert_eq!(Jmp::new(o).offset(), o);
        assert_eq!(Jmp::new(o).size(), 2);
    }
}

#[test]
fn every_offset_is_stored_verbatim() {
    for o in i16::MIN..=i16::MAX {
        assert_eq!(Jmp::new(o).offset(), o);
    }
}

#[test]
fn mnemonics_are_the_fixed_names() {
    assert_eq!(Jnz::new(0).mnemonic(), "jnz");
    assert_eq!(Jz::new(0).mnemonic(), "jz");
    assert_eq!(Jlo::new(0).mnemonic(), "jlo");
    assert_eq!(Jc::new(0).mnemonic(), "jc");
    assert_eq!(Jn::new(0).mnemonic(), "jn");
    assert_eq!(Jge::new(0).mnemonic(), "jge");
    assert_eq!(Jl::new(0).mnemonic(), "jl");
    assert_eq!(Jmp::new(0).mnemonic(), "jmp");
}

#[test]
fn mnemonic_does_not_depend_on_offset() {
    for o in OFFSETS {
        assert_eq!(Jnz::new(o).mnemonic(), "jnz");
        assert_eq!(Jz::new(o).mnemonic(), "jz");
        assert_eq!(Jlo::new(o).mnemonic(), "jlo");
        assert_eq!(Jc::new(o).mnemonic(), "jc");
        assert_eq!(Jn::new(o).mnemonic(), "jn");
        assert_eq!(Jge::new(o).mnemonic(), "jge");
        assert_eq!(Jl::new(o).mnemonic(), "jl");
        assert_eq!(Jmp::new(o).mnemonic(), "jmp");
    }
}

#[test]
fn kinds_work_through_the_shared_interface() {
    assert_eq!(describe(&Jnz::new(-2)), ("jnz".to_string(), -2, 2));
    assert_eq!(describe(&Jz::new(3)), ("jz".to_string(), 3, 2));
    assert_eq!(describe(&Jlo::new(-512)), ("jlo".to_string(), -512, 2));
    assert_eq!(describe(&Jc::new(511)), ("jc".to_string(), 511, 2));
    assert_eq!(describe(&Jn::new(0)), ("jn".to_string(), 0, 2));
    assert_eq!(describe(&Jge::new(7)), ("jge".to_string(), 7, 2));
    assert_eq!(describe(&Jl::new(-7)), ("jl".to_string(), -7, 2));
    assert_eq!(describe(&Jmp::new(1)), ("jmp".to_string(), 1, 2));
}

#[test]
fn kinds_can_be_stored_together() {
    let listing: Vec<Box<dyn Jxx>> = vec![
        Box::new(Jnz::new(1)),
        Box::new(Jz::new(2)),
        Box::new(Jlo::new(3)),
        Box::new(Jc::new(4)),
        Box::new(Jn::new(5)),
        Box::new(Jge::new(6)),
        Box::new(Jl::new(7)),
        Box::new(Jmp::new(8)),
    ];
    let names: Vec<&str> = listing.iter().map(|insn| insn.mnemonic()).collect();
    assert_eq!(names, vec!["jnz", "jz", "jlo", "jc", "jn", "jge", "jl", "jmp"]);
    let offsets: Vec<i16> = listing.iter().map(|insn| insn.offset()).collect();
    assert_eq!(offsets, vec![1, 2, 3, 4, 5, 6, 7, 8]);
    assert!(listing.iter().all(|insn| insn.size() == 2));
}

#[test]
fn equality_follows_the_offset() {
    assert_eq!(Jc::new(6), Jc::new(6));
    assert_ne!(Jc::new(6), Jc::new(-6));
    assert_eq!(Jmp::new(i16::MIN), Jmp::new(i16::MIN));
    assert_ne!(Jmp::new(i16::MIN), Jmp::new(i16::MAX));
    assert_eq!(Jnz::new(0), Jnz::new(0));
    assert_ne!(Jz::new(0), Jz::new(1));
}

#[test]
fn instructions_are_copied_by_value() {
    let first = Jge::new(-3);
    let second = first;
    let third = first.clone();
    assert_eq!(first, second);
    assert_eq!(first, third);
    assert_eq!(second.offset(), -3);
}

#[test]
fn debug_output_names_the_kind() {
    assert_eq!(format!("{:?}", Jlo::new(4)), "Jlo { offset: 4 }");
}
