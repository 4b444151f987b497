# mil_std_1553b

Parsing and construction of MIL STD 1553B words and messages, verified with
Verus.

A 1553B word is 20 bits on the bus: three sync bits, sixteen body bits and a
parity bit that makes the number of ones odd. Command and status words open a
message; data words follow it.

## Layout

- `src/errors.rs`: the error enums, the parity bit and its specification.
- `src/fields.rs`: masks and offsets of the fields of a word.
- `src/flags.rs`: the flags held by those fields (mode codes, addresses, ...).
- `src/word/`: the command, status and data words, the `Word` and `Header`
  traits and the `WordType` container.
- `src/message/`: packets (the 20-bit frames of a word) and messages.
- `tests/`: tests of the public interface.
- `app/`: a small program that builds a message and prints its text.

## Memory

A `Message` keeps its words in a `Vec` and so allocates. A fixed array of
`WORDS` words would avoid that, but Verus does not take an array fill
expression whose length is a const generic (`[x; WORDS]`), and a `Vec` of
words with a length bound as its invariant is what the proofs are stated
over.

## What is proved

Every public function states its result in its `ensures` clause. Beside them
stand proof functions named `law_...`, among them:

- the parity bit makes the number of ones odd;
- every flag converts to its number and back;
- reading a field gives back what was written to it, and writing it leaves
  the other bits alone;
- a packet written at any offset reads back unchanged;
- a valid message written to bytes reads back as the same message, and the
  bytes of a message read back write out as the same bytes;
- writing a message leaves every byte past the bytes it takes unchanged.
