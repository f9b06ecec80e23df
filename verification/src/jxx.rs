//! The interface that every jump instruction offers, and the textual form
//! that all of them share.

use vstd::prelude::*;
use vstd::string::StringExecFns;
use crate::hex::{
    hex_digits, hex_value, is_hex_digit, lemma_hex_digits_canonical, lemma_hex_digits_len_u16,
    lemma_hex_digits_value, push_hex,
};

verus! {

/// The interface shared by the jump instructions, through which instructions
/// of different kinds can be kept and handled together.
pub trait Jxx {
    /// The characters of this instruction's mnemonic.
    spec fn spec_mnemonic(&self) -> Seq<char>;

    /// The displacement that this instruction adds to the program counter.
    spec fn spec_offset(&self) -> i16;

    /// The assembler's name for this kind of jump.
    fn mnemonic(&self) -> (name: &str)
        ensures
            name@ == self.spec_mnemonic(),
    ;

    /// The signed displacement of the jump.
    fn offset(&self) -> (offset: i16)
        ensures
            offset == self.spec_offset(),
    ;

    /// The size of the encoded instruction, which is 2 for every jump.
    fn size(&self) -> (size: usize)
        ensures
            size == 2,
    ;
}

/// The distance of `offset` from zero.
pub open spec fn magnitude(offset: int) -> nat {
    if offset < 0 {
        (-offset) as nat
    } else {
        offset as nat
    }
}

/// The characters between the mnemonic and the digits: a space, the `#` of
/// an immediate, a minus sign for a negative displacement, and the `0x`
/// prefix.
pub open spec fn operand_prefix(offset: int) -> Seq<char> {
    if offset < 0 {
        seq![' ', '#', '-', '0', 'x']
    } else {
        seq![' ', '#', '0', 'x']
    }
}

/// The assembler text of a jump: the mnemonic, then the displacement as a
/// signed hexadecimal immediate. Sign and magnitude are written separately,
/// so a negative displacement never shows as its two's-complement pattern.
pub open spec fn jump_text(mnemonic: Seq<char>, offset: int) -> Seq<char> {
    mnemonic + operand_prefix(offset) + hex_digits(magnitude(offset))
}

/// Renders a jump with the given mnemonic and displacement.
pub fn render_jump(mnemonic: &str, offset: i16) -> (text: String)
    ensures
        text@ == jump_text(mnemonic@, offset as int),
{
    let mut text = String::from_str(mnemonic);
    if offset < 0 {
        proof {
            reveal_strlit(" #-0x");
        }
        text.append(" #-0x");
        assert(text@ =~= mnemonic@ + operand_prefix(offset as int));
        let wide: i32 = offset as i32;
        push_hex(&mut text, (-wide) as u16);
    } else {
        proof {
            reveal_strlit(" #0x");
        }
        text.append(" #0x");
        assert(text@ =~= mnemonic@ + operand_prefix(offset as int));
        push_hex(&mut text, offset as u16);
    }
    text
}

/// What stands in a rendered jump: first the mnemonic, then a minus sign in
/// the operand exactly when the displacement is negative, and last a
/// lowercase hexadecimal numeral that denotes the distance of the
/// displacement from zero, never its two's-complement pattern.
pub proof fn lemma_jump_text_operand(mnemonic: Seq<char>, offset: int)
    ensures
        ({
            let text = jump_text(mnemonic, offset);
            let digits = text.skip((mnemonic.len() + operand_prefix(offset).len()) as int);
            &&& text.subrange(0, mnemonic.len() as int) == mnemonic
            &&& text[mnemonic.len() as int + 2] == '-' <==> offset < 0
            &&& digits == hex_digits(magnitude(offset))
            &&& digits.len() >= 1
            &&& forall|i: int| 0 <= i < digits.len() ==> is_hex_digit(#[trigger] digits[i])
            &&& hex_value(digits) == magnitude(offset)
        }),
{
    let text = jump_text(mnemonic, offset);
    let digits = hex_digits(magnitude(offset));
    lemma_hex_digits_value(magnitude(offset));
    lemma_hex_digits_canonical(magnitude(offset));
    assert(text.subrange(0, mnemonic.len() as int) =~= mnemonic);
    assert(text.skip((mnemonic.len() + operand_prefix(offset).len()) as int) =~= digits);
}

/// The rendering of a sixteen-bit displacement is short: between five and
/// nine characters follow the mnemonic.
pub proof fn lemma_jump_text_len(mnemonic: Seq<char>, offset: i16)
    ensures
        mnemonic.len() + 5 <= jump_text(mnemonic, offset as int).len() <= mnemonic.len() + 9,
{
    lemma_hex_digits_len_u16(magnitude(offset as int) as u16);
}

} // verus!
