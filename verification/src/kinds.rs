//! The eight jump instructions.
//!
//! Each kind is a type of its own that holds nothing but the displacement.
//! The kinds differ in their mnemonic alone.

use vstd::prelude::*;
use crate::jxx::{jump_text, render_jump, Jxx};

verus! {

/// `jnz`: jump if the zero flag is clear.
#[derive(Debug, Clone, Copy, PartialEq, Eq, Structural)]
pub struct Jnz {
    offset: i16,
}

impl Jnz {
    /// The `jnz` instruction that carries `offset`.
    pub closed spec fn spec_new(offset: i16) -> Jnz {
        Jnz { offset }
    }

    /// Wraps `offset`, which is stored as it is given.
    pub fn new(offset: i16) -> (insn: Jnz)
        ensures
            insn == Jnz::spec_new(offset),
            insn.spec_offset() == offset,
    {
        Jnz { offset }
    }

    /// The instruction in assembler text.
    pub fn render(&self) -> (text: String)
        ensures
            text@ == jump_text(self.spec_mnemonic(), self.spec_offset() as int),
    {
        render_jump(self.mnemonic(), self.offset)
    }

    /// A new instruction carries the displacement it was built from.
    pub proof fn lemma_new_keeps_offset(offset: i16)
        ensures
            Jnz::spec_new(offset).spec_offset() == offset,
    {
    }

    /// Two `jnz` instructions are equal exactly when their displacements are.
    pub proof fn lemma_equal_by_offset(a: Jnz, b: Jnz)
        ensures
            a == b <==> a.spec_offset() == b.spec_offset(),
    {
    }

    /// Every instruction of this kind has the mnemonic `jnz`.
    pub proof fn lemma_mnemonic_fixed(self)
        ensures
            self.spec_mnemonic() == "jnz"@,
    {
        reveal_strlit("jnz");
        assert(self.spec_mnemonic() =~= "jnz"@);
    }
}

impl Jxx for Jnz {
    open spec fn spec_mnemonic(&self) -> Seq<char> {
        seq!['j', 'n', 'z']
    }

    closed spec fn spec_offset(&self) -> i16 {
        self.offset
    }

    fn mnemonic(&self) -> (name: &str)
        ensures
            name@ == "jnz"@,
    {
        proof {
            self.lemma_mnemonic_fixed();
        }
        "jnz"
    }

    fn offset(&self) -> (offset: i16) {
        self.offset
    }

    fn size(&self) -> (size: usize) {
        2
    }
}

/// `jz`: jump if the zero flag is set.
#[derive(Debug, Clone, Copy, PartialEq, Eq, Structural)]
pub struct Jz {
    offset: i16,
}

impl Jz {
    /// The `jz` instruction that carries `offset`.
    pub closed spec fn spec_new(offset: i16) -> Jz {
        Jz { offset }
    }

    /// Wraps `offset`, which is stored as it is given.
    pub fn new(offset: i16) -> (insn: Jz)
        ensures
            insn == Jz::spec_new(offset),
            insn.spec_offset() == offset,
    {
        Jz { offset }
    }

    /// The instruction in assembler text.
    pub fn render(&self) -> (text: String)
        ensures
            text@ == jump_text(self.spec_mnemonic(), self.spec_offset() as int),
    {
        render_jump(self.mnemonic(), self.offset)
    }

    /// A new instruction carries the displacement it was built from.
    pub proof fn lemma_new_keeps_offset(offset: i16)
        ensures
            Jz::spec_new(offset).spec_offset() == offset,
    {
    }

    /// Two `jz` instructions are equal exactly when their displacements are.
    pub proof fn lemma_equal_by_offset(a: Jz, b: Jz)
        ensures
            a == b <==> a.spec_offset() == b.spec_offset(),
    {
    }

    /// Every instruction of this kind has the mnemonic `jz`.
    pub proof fn lemma_mnemonic_fixed(self)
        ensures
            self.spec_mnemonic() == "jz"@,
    {
        reveal_strlit("jz");
        assert(self.spec_mnemonic() =~= "jz"@);
    }
}

impl Jxx for Jz {
    open spec fn spec_mnemonic(&self) -> Seq<char> {
        seq!['j', 'z']
    }

    closed spec fn spec_offset(&self) -> i16 {
        self.offset
    }

    fn mnemonic(&self) -> (name: &str)
        ensures
            name@ == "jz"@,
    {
        proof {
            self.lemma_mnemonic_fixed();
        }
        "jz"
    }

    fn offset(&self) -> (offset: i16) {
        self.offset
    }

    fn size(&self) -> (size: usize) {
        2
    }
}

/// `jlo`: jump if lower, that is, if the carry flag is clear.
#[derive(Debug, Clone, Copy, PartialEq, Eq, Structural)]
pub struct Jlo {
    offset: i16,
}

impl Jlo {
    /// The `jlo` instruction that carries `offset`.
    pub closed spec fn spec_new(offset: i16) -> Jlo {
        Jlo { offset }
    }

    /// Wraps `offset`, which is stored as it is given.
    pub fn new(offset: i16) -> (insn: Jlo)
        ensures
            insn == Jlo::spec_new(offset),
            insn.spec_offset() == offset,
    {
        Jlo { offset }
    }

    /// The instruction in assembler text.
    pub fn render(&self) -> (text: String)
        ensures
            text@ == jump_text(self.spec_mnemonic(), self.spec_offset() as int),
    {
        render_jump(self.mnemonic(), self.offset)
    }

    /// A new instruction carries the displacement it was built from.
    pub proof fn lemma_new_keeps_offset(offset: i16)
        ensures
            Jlo::spec_new(offset).spec_offset() == offset,
    {
    }

    /// Two `jlo` instructions are equal exactly when their displacements are.
    pub proof fn lemma_equal_by_offset(a: Jlo, b: Jlo)
        ensures
            a == b <==> a.spec_offset() == b.spec_offset(),
    {
    }

    /// Every instruction of this kind has the mnemonic `jlo`.
    pub proof fn lemma_mnemonic_fixed(self)
        ensures
            self.spec_mnemonic() == "jlo"@,
    {
        reveal_strlit("jlo");
        assert(self.spec_mnemonic() =~= "jlo"@);
    }
}

impl Jxx for Jlo {
    open spec fn spec_mnemonic(&self) -> Seq<char> {
        seq!['j', 'l', 'o']
    }

    closed spec fn spec_offset(&self) -> i16 {
        self.offset
    }

    fn mnemonic(&self) -> (name: &str)
        ensures
            name@ == "jlo"@,
    {
        proof {
            self.lemma_mnemonic_fixed();
        }
        "jlo"
    }

    fn offset(&self) -> (offset: i16) {
        self.offset
    }

    fn size(&self) -> (size: usize) {
        2
    }
}

/// `jc`: jump if the carry flag is set.
#[derive(Debug, Clone, Copy, PartialEq, Eq, Structural)]
pub struct Jc {
    offset: i16,
}

impl Jc {
    /// The `jc` instruction that carries `offset`.
    pub closed spec fn spec_new(offset: i16) -> Jc {
        Jc { offset }
    }

    /// Wraps `offset`, which is stored as it is given.
    pub fn new(offset: i16) -> (insn: Jc)
        ensures
            insn == Jc::spec_new(offset),
            insn.spec_offset() == offset,
    {
        Jc { offset }
    }

    /// The instruction in assembler text.
    pub fn render(&self) -> (text: String)
        ensures
            text@ == jump_text(self.spec_mnemonic(), self.spec_offset() as int),
    {
        render_jump(self.mnemonic(), self.offset)
    }

    /// A new instruction carries the displacement it was built from.
    pub proof fn lemma_new_keeps_offset(offset: i16)
        ensures
            Jc::spec_new(offset).spec_offset() == offset,
    {
    }

    /// Two `jc` instructions are equal exactly when their displacements are.
    pub proof fn lemma_equal_by_offset(a: Jc, b: Jc)
        ensures
            a == b <==> a.spec_offset() == b.spec_offset(),
    {
    }

    /// Every instruction of this kind has the mnemonic `jc`.
    pub proof fn lemma_mnemonic_fixed(self)
        ensures
            self.spec_mnemonic() == "jc"@,
    {
        reveal_strlit("jc");
        assert(self.spec_mnemonic() =~= "jc"@);
    }
}

impl Jxx for Jc {
    open spec fn spec_mnemonic(&self) -> Seq<char> {
        seq!['j', 'c']
    }

    closed spec fn spec_offset(&self) -> i16 {
        self.offset
    }

    fn mnemonic(&self) -> (name: &str)
        ensures
            name@ == "jc"@,
    {
        proof {
            self.lemma_mnemonic_fixed();
        }
        "jc"
    }

    fn offset(&self) -> (offset: i16) {
        self.offset
    }

    fn size(&self) -> (size: usize) {
        2
    }
}

/// `jn`: jump if the negative flag is set.
#[derive(Debug, Clone, Copy, PartialEq, Eq, Structural)]
pub struct Jn {
    offset: i16,
}

impl Jn {
    /// The `jn` instruction that carries `offset`.
    pub closed spec fn spec_new(offset: i16) -> Jn {
        Jn { offset }
    }

    /// Wraps `offset`, which is stored as it is given.
    pub fn new(offset: i16) -> (insn: Jn)
        ensures
            insn == Jn::spec_new(offset),
            insn.spec_offset() == offset,
    {
        Jn { offset }
    }

    /// The instruction in assembler text.
    pub fn render(&self) -> (text: String)
        ensures
            text@ == jump_text(self.spec_mnemonic(), self.spec_offset() as int),
    {
        render_jump(self.mnemonic(), self.offset)
    }

    /// A new instruction carries the displacement it was built from.
    pub proof fn lemma_new_keeps_offset(offset: i16)
        ensures
            Jn::spec_new(offset).spec_offset() == offset,
    {
    }

    /// Two `jn` instructions are equal exactly when their displacements are.
    pub proof fn lemma_equal_by_offset(a: Jn, b: Jn)
        ensures
            a == b <==> a.spec_offset() == b.spec_offset(),
    {
    }

    /// Every instruction of this kind has the mnemonic `jn`.
    pub proof fn lemma_mnemonic_fixed(self)
        ensures
            self.spec_mnemonic() == "jn"@,
    {
        reveal_strlit("jn");
        assert(self.spec_mnemonic() =~= "jn"@);
    }
}

impl Jxx for Jn {
    open spec fn spec_mnemonic(&self) -> Seq<char> {
        seq!['j', 'n']
    }

    closed spec fn spec_offset(&self) -> i16 {
        self.offset
    }

    fn mnemonic(&self) -> (name: &str)
        ensures
            name@ == "jn"@,
    {
        proof {
            self.lemma_mnemonic_fixed();
        }
        "jn"
    }

    fn offset(&self) -> (offset: i16) {
        self.offset
    }

    fn size(&self) -> (size: usize) {
        2
    }
}

/// `jge`: jump if greater or equal, as signed numbers.
#[derive(Debug, Clone, Copy, PartialEq, Eq, Structural)]
pub struct Jge {
    offset: i16,
}

impl Jge {
    /// The `jge` instruction that carries `offset`.
    pub closed spec fn spec_new(offset: i16) -> Jge {
        Jge { offset }
    }

    /// Wraps `offset`, which is stored as it is given.
    pub fn new(offset: i16) -> (insn: Jge)
        ensures
            insn == Jge::spec_new(offset),
            insn.spec_offset() == offset,
    {
        Jge { offset }
    }

    /// The instruction in assembler text.
    pub fn render(&self) -> (text: String)
        ensures
            text@ == jump_text(self.spec_mnemonic(), self.spec_offset() as int),
    {
        render_jump(self.mnemonic(), self.offset)
    }

    /// A new instruction carries the displacement it was built from.
    pub proof fn lemma_new_keeps_offset(offset: i16)
        ensures
            Jge::spec_new(offset).spec_offset() == offset,
    {
    }

    /// Two `jge` instructions are equal exactly when their displacements are.
    pub proof fn lemma_equal_by_offset(a: Jge, b: Jge)
        ensures
            a == b <==> a.spec_offset() == b.spec_offset(),
    {
    }

    /// Every instruction of this kind has the mnemonic `jge`.
    pub proof fn lemma_mnemonic_fixed(self)
        ensures
            self.spec_mnemonic() == "jge"@,
    {
        reveal_strlit("jge");
        assert(self.spec_mnemonic() =~= "jge"@);
    }
}

impl Jxx for Jge {
    open spec fn spec_mnemonic(&self) -> Seq<char> {
        seq!['j', 'g', 'e']
    }

    closed spec fn spec_offset(&self) -> i16 {
        self.offset
    }

    fn mnemonic(&self) -> (name: &str)
        ensures
            name@ == "jge"@,
    {
        proof {
            self.lemma_mnemonic_fixed();
        }
        "jge"
    }

    fn offset(&self) -> (offset: i16) {
        self.offset
    }

    fn size(&self) -> (size: usize) {
        2
    }
}

/// `jl`: jump if less, as signed numbers.
#[derive(Debug, Clone, Copy, PartialEq, Eq, Structural)]
pub struct Jl {
    offset: i16,
}

impl Jl {
    /// The `jl` instruction that carries `offset`.
    pub closed spec fn spec_new(offset: i16) -> Jl {
        Jl { offset }
    }

    /// Wraps `offset`, which is stored as it is given.
    pub fn new(offset: i16) -> (insn: Jl)
        ensures
            insn == Jl::spec_new(offset),
            insn.spec_offset() == offset,
    {
        Jl { offset }
    }

    /// The instruction in assembler text.
    pub fn render(&self) -> (text: String)
        ensures
            text@ == jump_text(self.spec_mnemonic(), self.spec_offset() as int),
    {
        render_jump(self.mnemonic(), self.offset)
    }

    /// A new instruction carries the displacement it was built from.
    pub proof fn lemma_new_keeps_offset(offset: i16)
        ensures
            Jl::spec_new(offset).spec_offset() == offset,
    {
    }

    /// Two `jl` instructions are equal exactly when their displacements are.
    pub proof fn lemma_equal_by_offset(a: Jl, b: Jl)
        ensures
            a == b <==> a.spec_offset() == b.spec_offset(),
    {
    }

    /// Every instruction of this kind has the mnemonic `jl`.
    pub proof fn lemma_mnemonic_fixed(self)
        ensures
            self.spec_mnemonic() == "jl"@,
    {
        reveal_strlit("jl");
        assert(self.spec_mnemonic() =~= "jl"@);
    }
}

impl Jxx for Jl {
    open spec fn spec_mnemonic(&self) -> Seq<char> {
        seq!['j', 'l']
    }

    closed spec fn spec_offset(&self) -> i16 {
        self.offset
    }

    fn mnemonic(&self) -> (name: &str)
        ensures
            name@ == "jl"@,
    {
        proof {
            self.lemma_mnemonic_fixed();
        }
        "jl"
    }

    fn offset(&self) -> (offset: i16) {
        self.offset
    }

    fn size(&self) -> (size: usize) {
        2
    }
}

/// `jmp`: jump unconditionally.
#[derive(Debug, Clone, Copy, PartialEq, Eq, Structural)]
pub struct Jmp {
    offset: i16,
}

impl Jmp {
    /// The `jmp` instruction that carries `offset`.
    pub closed spec fn spec_new(offset: i16) -> Jmp {
        Jmp { offset }
    }

    /// Wraps `offset`, which is stored as it is given.
    pub fn new(offset: i16) -> (insn: Jmp)
        ensures
            insn == Jmp::spec_new(offset),
            insn.spec_offset() == offset,
    {
        Jmp { offset }
    }

    /// The instruction in assembler text.
    pub fn render(&self) -> (text: String)
        ensures
            text@ == jump_text(self.spec_mnemonic(), self.spec_offset() as int),
    {
        render_jump(self.mnemonic(), self.offset)
    }

    /// A new instruction carries the displacement it was built from.
    pub proof fn lemma_new_keeps_offset(offset: i16)
        ensures
            Jmp::spec_new(offset).spec_offset() == offset,
    {
    }

    /// Two `jmp` instructions are equal exactly when their displacements are.
    pub proof fn lemma_equal_by_offset(a: Jmp, b: Jmp)
        ensures
            a == b <==> a.spec_offset() == b.spec_offset(),
    {
    }

    /// Every instruction of this kind has the mnemonic `jmp`.
    pub proof fn lemma_mnemonic_fixed(self)
        ensures
            self.spec_mnemonic() == "jmp"@,
    {
        reveal_strlit("jmp");
        assert(self.spec_mnemonic() =~= "jmp"@);
    }
}

impl Jxx for Jmp {
    open spec fn spec_mnemonic(&self) -> Seq<char> {
        seq!['j', 'm', 'p']
    }

    closed spec fn spec_offset(&self) -> i16 {
        self.offset
    }

    fn mnemonic(&self) -> (name: &str)
        ensures
            name@ == "jmp"@,
    {
        proof {
            self.lemma_mnemonic_fixed();
        }
        "jmp"
    }

    fn offset(&self) -> (offset: i16) {
        self.offset
    }

    fn size(&self) -> (size: usize) {
        2
    }
}

} // verus!
