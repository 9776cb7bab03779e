//! The text of decoded instructions, and the disassembly of a whole byte
//! sequence into a listing.

use vstd::prelude::*;
use vstd::string::*;
use vstd::slice::slice_subrange;
use crate::decode::{decode, decode_operands, DecodedInstruction};
use crate::error::{DecodeError, DecodeFailure};
use crate::opcode::{classify, MovInstructionType};
use crate::operand::{operand_text, Operand, OperandWidth};

verus! {

/// The size written before an immediate value that goes to memory, where
/// nothing else tells how many bytes are stored; empty otherwise.
pub open spec fn size_text(instruction: DecodedInstruction) -> Seq<char> {
    match (instruction.destination, instruction.source) {
        (Operand::Memory(_, _), Operand::Immediate(_, OperandWidth::Byte)) => "byte "@,
        (Operand::Memory(_, _), Operand::Immediate(_, OperandWidth::Word)) => "word "@,
        _ => Seq::<char>::empty(),
    }
}

/// The line of a listing that shows an instruction: the mnemonic, a space,
/// the destination, a comma and a space, and the source.
pub open spec fn instruction_text(instruction: DecodedInstruction) -> Seq<char> {
    instruction.mnemonic@ + " "@ + operand_text(instruction.destination) + ", "@ + size_text(instruction)
        + operand_text(instruction.source)
}

impl DecodedInstruction {
    /// Appends the line that shows this instruction to `out`.
    pub fn push_text(&self, out: &mut String)
        ensures
            final(out)@ == old(out)@ + instruction_text(*self),
    {
        out.append(self.mnemonic);
        out.append(" ");
        self.destination.push_text(out);
        out.append(", ");
        match (self.destination, self.source) {
            (Operand::Memory(_, _), Operand::Immediate(_, OperandWidth::Byte)) => {
                out.append("byte ");
            },
            (Operand::Memory(_, _), Operand::Immediate(_, OperandWidth::Word)) => {
                out.append("word ");
            },
            _ => {},
        }
        self.source.push_text(out);
        assert(out@ =~= old(out)@ + instruction_text(*self));
    }

    /// The line of a listing that shows this instruction.
    pub fn render(&self) -> (text: String)
        ensures
            text@ == instruction_text(*self),
    {
        let mut text = String::new();
        self.push_text(&mut text);
        assert(text@ =~= instruction_text(*self));
        text
    }
}

/// The instructions that `data` holds from offset `from` to its end, in
/// order, or the first failure with the offset of the instruction that
/// failed. Each instruction starts where the one before it ended.
pub open spec fn decode_all(data: Seq<u8>, from: int) -> Result<Seq<DecodedInstruction>, DecodeFailure>
    decreases data.len() - from,
{
    if from < 0 || from >= data.len() {
        Ok(Seq::empty())
    } else {
        match classify(data[from]) {
            None => Err(
                DecodeFailure { offset: from as usize, error: DecodeError::UnrecognizedOpcode(data[from]) },
            ),
            Some(form) => match decode(form, data.subrange(from, data.len() as int)) {
                Err(error) => Err(DecodeFailure { offset: from as usize, error }),
                Ok(instruction) => match decode_all(data, from + instruction.byte_length) {
                    Err(failure) => Err(failure),
                    Ok(rest) => Ok(seq![instruction] + rest),
                },
            },
        }
    }
}

/// The lines joined by single line feeds, with none after the last line.
pub open spec fn join_lines(lines: Seq<Seq<char>>) -> Seq<char>
    decreases lines.len(),
{
    if lines.len() == 0 {
        Seq::empty()
    } else if lines.len() == 1 {
        lines[0]
    } else {
        join_lines(lines.drop_last()) + seq!['\n'] + lines.last()
    }
}

/// The listing of a sequence of instructions: one line each, in order.
pub open spec fn listing_text(instructions: Seq<DecodedInstruction>) -> Seq<char> {
    join_lines(Seq::new(instructions.len(), |i: int| instruction_text(instructions[i])))
}

/// Number of bytes that a sequence of instructions occupies.
pub open spec fn total_len(instructions: Seq<DecodedInstruction>) -> nat
    decreases instructions.len(),
{
    if instructions.len() == 0 {
        0
    } else {
        instructions[0].byte_length as nat + total_len(instructions.drop_first())
    }
}

/// Input that decodes without failure is used up exactly: the lengths of
/// its instructions add up to the number of bytes from `from` to the end, so
/// that no byte is read twice and none is skipped.
pub proof fn lemma_decode_all_consumes_everything(data: Seq<u8>, from: int)
    requires
        0 <= from <= data.len(),
        decode_all(data, from) is Ok,
    ensures
        total_len(decode_all(data, from)->Ok_0) == data.len() - from,
    decreases data.len() - from,
{
    if from < data.len() {
        let form = classify(data[from])->0;
        let rest = data.subrange(from, data.len() as int);
        let instruction = decode(form, rest)->Ok_0;
        crate::decode::lemma_decoded_length(form, rest);
        let next = from + instruction.byte_length;
        lemma_decode_all_consumes_everything(data, next);
        let tail = decode_all(data, next)->Ok_0;
        assert((seq![instruction] + tail).drop_first() =~= tail);
    }
}

/// Bytes in front of the input do not change what the input decodes to.
pub proof fn lemma_decode_all_after_prefix(prefix: Seq<u8>, data: Seq<u8>, from: int)
    requires
        0 <= from <= data.len(),
        decode_all(data, from) is Ok,
    ensures
        decode_all(prefix + data, prefix.len() + from) == decode_all(data, from),
    decreases data.len() - from,
{
    let whole = prefix + data;
    if from < data.len() {
        let form = classify(data[from])->0;
        let rest = data.subrange(from, data.len() as int);
        let instruction = decode(form, rest)->Ok_0;
        crate::decode::lemma_decoded_length(form, rest);
        assert(whole[prefix.len() + from] == data[from]);
        assert(whole.subrange(prefix.len() + from, whole.len() as int) =~= rest);
        lemma_decode_all_after_prefix(prefix, data, from + instruction.byte_length);
    }
}

/// Input that decodes without failure, followed by more such input, decodes
/// to the instructions of the one followed by those of the other.
pub proof fn lemma_decode_all_before_suffix(data: Seq<u8>, suffix: Seq<u8>, from: int)
    requires
        0 <= from <= data.len(),
        decode_all(data, from) is Ok,
        decode_all(suffix, 0) is Ok,
    ensures
        decode_all(data + suffix, from) == Ok::<Seq<DecodedInstruction>, DecodeFailure>(
            decode_all(data, from)->Ok_0 + decode_all(suffix, 0)->Ok_0,
        ),
    decreases data.len() - from,
{
    let whole = data + suffix;
    if from < data.len() {
        let form = classify(data[from])->0;
        let rest = data.subrange(from, data.len() as int);
        let instruction = decode(form, rest)->Ok_0;
        crate::decode::lemma_decoded_length(form, rest);
        let needed = crate::decode::needed_len(form, rest) as int;
        let whole_rest = whole.subrange(from, whole.len() as int);
        assert(whole[from] == data[from]);
        assert(whole_rest.take(needed) =~= rest.take(needed));
        crate::decode::lemma_decode_reads_only_its_bytes(form, rest, whole_rest);
        let next = from + instruction.byte_length;
        lemma_decode_all_before_suffix(data, suffix, next);
        let tail = decode_all(data, next)->Ok_0;
        let more = decode_all(suffix, 0)->Ok_0;
        assert(seq![instruction] + (tail + more) =~= (seq![instruction] + tail) + more);
    } else {
        lemma_decode_all_after_prefix(data, suffix, 0);
        assert(Seq::<DecodedInstruction>::empty() + decode_all(suffix, 0)->Ok_0 =~= decode_all(suffix, 0)->Ok_0);
    }
}

/// Two inputs that each decode without failure decode, one after the
/// other, to the instructions of the first followed by those of the second.
pub proof fn lemma_decode_all_concat(first: Seq<u8>, second: Seq<u8>)
    requires
        decode_all(first, 0) is Ok,
        decode_all(second, 0) is Ok,
    ensures
        decode_all(first + second, 0) == Ok::<Seq<DecodedInstruction>, DecodeFailure>(
            decode_all(first, 0)->Ok_0 + decode_all(second, 0)->Ok_0,
        ),
{
    lemma_decode_all_before_suffix(first, second, 0);
}

/// The bytes of exactly one instruction decode to that instruction alone.
pub proof fn lemma_decode_all_single(form: MovInstructionType, bytes: Seq<u8>)
    requires
        bytes.len() > 0,
        classify(bytes[0]) == Some(form),
        decode(form, bytes) is Ok,
        decode(form, bytes)->Ok_0.byte_length == bytes.len(),
    ensures
        decode_all(bytes, 0) == Ok::<Seq<DecodedInstruction>, DecodeFailure>(seq![decode(form, bytes)->Ok_0]),
{
    assert(bytes.subrange(0, bytes.len() as int) =~= bytes);
    assert(decode_all(bytes, bytes.len() as int) == Ok::<Seq<DecodedInstruction>, DecodeFailure>(Seq::empty()));
    assert(seq![decode(form, bytes)->Ok_0] + Seq::<DecodedInstruction>::empty() =~= seq![
        decode(form, bytes)->Ok_0,
    ]);
}

/// The bytes of one instruction followed by the bytes of another decode to
/// exactly those two instructions, in that order.
pub proof fn lemma_two_instructions(
    first_form: MovInstructionType,
    first: Seq<u8>,
    second_form: MovInstructionType,
    second: Seq<u8>,
)
    requires
        first.len() > 0,
        classify(first[0]) == Some(first_form),
        decode(first_form, first) is Ok,
        decode(first_form, first)->Ok_0.byte_length == first.len(),
        second.len() > 0,
        classify(second[0]) == Some(second_form),
        decode(second_form, second) is Ok,
        decode(second_form, second)->Ok_0.byte_length == second.len(),
    ensures
        decode_all(first + second, 0) == Ok::<Seq<DecodedInstruction>, DecodeFailure>(
            seq![decode(first_form, first)->Ok_0, decode(second_form, second)->Ok_0],
        ),
{
    lemma_decode_all_single(first_form, first);
    lemma_decode_all_single(second_form, second);
    lemma_decode_all_concat(first, second);
    assert(seq![decode(first_form, first)->Ok_0] + seq![decode(second_form, second)->Ok_0] =~= seq![
        decode(first_form, first)->Ok_0,
        decode(second_form, second)->Ok_0,
    ]);
}

/// What follows `done` when the rest of the input decodes to `rest`.
pub open spec fn continued(done: Seq<DecodedInstruction>, rest: Result<Seq<DecodedInstruction>, DecodeFailure>)
    -> Result<Seq<DecodedInstruction>, DecodeFailure> {
    match rest {
        Ok(instructions) => Ok(done + instructions),
        Err(failure) => Err(failure),
    }
}

/// A listing grows by one line feed and one line, or by the line alone when
/// it was empty.
pub proof fn lemma_listing_text_push(done: Seq<DecodedInstruction>, instruction: DecodedInstruction)
    ensures
        listing_text(done.push(instruction)) == if done.len() == 0 {
            instruction_text(instruction)
        } else {
            listing_text(done) + seq!['\n'] + instruction_text(instruction)
        },
{
    let more = done.push(instruction);
    let lines = Seq::new(more.len(), |i: int| instruction_text(more[i]));
    let before = Seq::new(done.len(), |i: int| instruction_text(done[i]));
    assert(lines.drop_last() =~= before);
    assert(lines.last() == instruction_text(instruction));
}

/// Disassembles `data`: decodes the instructions that it holds, one after
/// the other from its first byte to its last, and returns their lines in
/// that order, joined by line feeds. The first byte that starts no MOV
/// instruction, and the first instruction that cannot be decoded or that
/// the input ends in the middle of, ends the work with that failure and the
/// offset of the instruction.
pub fn disassemble_binary(data: &[u8]) -> (listing: Result<String, DecodeFailure>)
    ensures
        match decode_all(data@, 0) {
            Ok(instructions) => listing is Ok && listing->Ok_0@ == listing_text(instructions),
            Err(failure) => listing == Err::<String, DecodeFailure>(failure),
        },
{
    let mut out = String::new();
    let mut cursor: usize = 0;
    let ghost mut done: Seq<DecodedInstruction> = Seq::empty();
    assert(listing_text(done) =~= Seq::<char>::empty());
    while cursor < data.len()
        invariant
            cursor <= data.len(),
            decode_all(data@, 0) == continued(done, decode_all(data@, cursor as int)),
            out@ == listing_text(done),
            (cursor == 0) == (done.len() == 0),
        decreases data.len() - cursor,
    {
        let form = match MovInstructionType::find_instruction(data[cursor]) {
            Ok(form) => form,
            Err(error) => {
                return Err(DecodeFailure { offset: cursor, error });
            },
        };
        let rest = slice_subrange(data, cursor, data.len());
        let instruction = match decode_operands(form, rest) {
            Ok(instruction) => instruction,
            Err(error) => {
                return Err(DecodeFailure { offset: cursor, error });
            },
        };
        proof {
            crate::decode::lemma_decoded_length(form, rest@);
            lemma_listing_text_push(done, instruction);
            reveal_strlit("\n");
            assert("\n"@ =~= seq!['\n']);
            let after = decode_all(data@, cursor + instruction.byte_length);
            assert(continued(done, decode_all(data@, cursor as int)) == continued(
                done.push(instruction),
                after,
            )) by {
                if after is Ok {
                    assert(done + (seq![instruction] + after->Ok_0) =~= done.push(instruction) + after->Ok_0);
                }
            }
        }
        if cursor > 0 {
            out.append("\n");
        }
        instruction.push_text(&mut out);
        proof {
            done = done.push(instruction);
        }
        cursor += instruction.byte_length;
    }
    assert(done + Seq::<DecodedInstruction>::empty() =~= done);
    Ok(out)
}

} // verus!
