//! Messages made of a header word and data words

use vstd::prelude::*;
use vstd::string::StringSliceAdditionalSpecFns;

use crate::errors::{count_ones, parity_of, Error, Result};
use crate::fields::{field_value, COMMAND_WORD_COUNT};
use crate::message::{Packet, MAX_WORDS};
use crate::word::{be_value, high_byte, low_byte, CommandWord, DataWord, Header, StatusWord, Word, WordType};

verus! {

/// The number of data words in a sequence of words
pub open spec fn data_count(words: Seq<WordType>) -> nat
    decreases words.len(),
{
    if words.len() == 0 {
        0
    } else {
        data_count(words.drop_last()) + if words.last() is Data {
            1nat
        } else {
            0nat
        }
    }
}

/// The two bytes of chunk `k` of a byte sequence: bytes `2k` and `2k + 1`,
/// where a missing second byte is 0
pub open spec fn chunk_bytes(data: Seq<u8>, k: int) -> [u8; 2] {
    [data[2 * k], if 2 * k + 1 < data.len() { data[2 * k + 1] } else { 0u8 }]
}

/// The data word made of chunk `k` of a byte sequence, with its parity bit
pub open spec fn chunk_word(data: Seq<u8>, k: int) -> WordType {
    WordType::Data(
        DataWord::spec_with(chunk_bytes(data, k), parity_of(be_value(chunk_bytes(data, k)))),
    )
}

/// The data words made of a byte sequence, two bytes each
pub open spec fn chunk_words(data: Seq<u8>) -> Seq<WordType> {
    Seq::new(((data.len() + 1) / 2) as nat, |k: int| chunk_word(data, k))
}

/// The words of a message after `added` are added in order to `words`
/// when it can hold `limit` words: the words that fit are kept
pub open spec fn words_after_adding(words: Seq<WordType>, added: Seq<WordType>, limit: nat) -> Seq<
    WordType,
> {
    if words.len() >= limit {
        words
    } else {
        words + added.take(vstd::math::min(added.len() as int, limit - words.len()))
    }
}

/// The error of a message after `count` words are added to a message
/// holding `len` words when it can hold `limit` words: adding a word to a
/// full message records [Error::OutOfBounds]
pub open spec fn error_after_adding(error: Option<Error>, len: nat, count: nat, limit: nat) -> Option<
    Error,
> {
    if len + count > limit {
        Some(Error::OutOfBounds)
    } else {
        error
    }
}

/// The number of data words a command word asks for
pub open spec fn command_count(word: CommandWord) -> nat {
    CommandWord::spec_word_count(field_value(COMMAND_WORD_COUNT, 0, word.spec_value())) as nat
}

/// Whether the parity bit of a word is correct
pub open spec fn word_parity_ok(word: WordType) -> bool {
    word.spec_parity() == parity_of(word.spec_value())
}

/// The outcome of validating a message with these words and this error
pub open spec fn validation(words: Seq<WordType>, error: Option<Error>) -> Result<()> {
    if error is Some {
        Err(error->Some_0)
    } else if data_count(words) != words.len() - 1 {
        Err(Error::WordIsInvalid)
    } else if exists|i: int| 0 <= i < words.len() && !word_parity_ok(#[trigger] words[i]) {
        Err(Error::WordIsInvalid)
    } else if words.len() > 0 && words[0] is Data {
        Err(Error::FirstWordIsData)
    } else if words.len() > 0 && words[0] is Command && command_count(words[0]->Command_0)
        != data_count(words) {
        Err(Error::InvalidMessage)
    } else {
        Ok(())
    }
}

/// The parity bit a word should have: the parity of its value
fn parity_of_word(word: &WordType) -> (p: u8)
    ensures
        p == parity_of(word.spec_value()),
{
    match word {
        WordType::Command(w) => w.calculate_parity(),
        WordType::Status(w) => w.calculate_parity(),
        WordType::Data(w) => w.calculate_parity(),
        WordType::Empty => crate::errors::parity(0),
    }
}

/// The number of bytes that hold `count` words of 20 bits each
pub open spec fn bytes_for_words(count: nat) -> nat {
    (count * 20 + 7) / 8
}

/// The byte at which word `index` of a message starts
pub open spec fn word_byte(index: nat) -> nat {
    index * 20 / 8
}

/// The bit offset in its first byte at which word `index` of a message starts
pub open spec fn word_offset(index: nat) -> usize {
    (index * 20 % 8) as usize
}

/// The bytes after the first `n` words of a message are written in order
/// over `data`, each at the bit position where it starts
pub open spec fn written_words(data: Seq<u8>, words: Seq<WordType>, n: nat) -> Seq<u8>
    decreases n,
{
    if n == 0 {
        data
    } else {
        let prev = written_words(data, words, (n - 1) as nat);
        let i = word_byte((n - 1) as nat) as int;
        let packet = Packet::spec_from_word(words[n - 1])->Ok_0;
        prev.subrange(0, i) + packet.spec_write(prev.subrange(i, prev.len() as int), word_offset((n - 1) as nat))
    }
}

/// The packet of word `index` of a message held in `data`
pub open spec fn word_packet(data: Seq<u8>, index: nat) -> Packet {
    Packet::spec_read(data.subrange(word_byte(index) as int, data.len() as int), word_offset(index))
}

/// The data words 1 to `n` of a message held in `data`, or the error of the
/// first packet among them that does not hold a data word
pub open spec fn data_words(data: Seq<u8>, n: nat) -> Result<Seq<WordType>>
    decreases n,
{
    if n == 0 {
        Ok(Seq::empty())
    } else {
        match data_words(data, (n - 1) as nat) {
            Err(e) => Err(e),
            Ok(words) => match DataWord::spec_from_packet(word_packet(data, n)) {
                Ok(w) => Ok(words.push(WordType::Data(w))),
                Err(e) => Err(e),
            },
        }
    }
}

/// The data words that follow a header word asking for `count` of them, or
/// [Error::InvalidMessage] if `data` is too short to hold them
pub open spec fn message_body(data: Seq<u8>, count: nat) -> Result<Seq<WordType>> {
    if data.len() < bytes_for_words(count + 1) {
        Err(Error::InvalidMessage)
    } else {
        data_words(data, count)
    }
}

/// The number of data words a message in `data` has after a header word
/// whose count is `count`: that count, or for a header without one, as many
/// whole words as fit after the header
pub open spec fn body_count(count: Option<usize>, len: nat) -> nat {
    match count {
        Some(c) => c as nat,
        None => if len * 8 / 20 >= 1 {
            (len * 8 / 20 - 1) as nat
        } else {
            0
        },
    }
}

/// The words of a message that starts with the header `header` once it is
/// added to an empty message that holds at most `limit` words
pub open spec fn header_words(header: WordType, limit: nat) -> Seq<WordType> {
    if limit > 0 && !(header is Empty) {
        seq![header]
    } else {
        Seq::empty()
    }
}

/// The outcome of reading a message in `data` that starts with the header
/// `header`, whose count is `count`, into a message holding at most
/// `limit` words: its words and recorded error
pub open spec fn read_outcome(
    data: Seq<u8>,
    header: WordType,
    count: Option<usize>,
    limit: nat,
) -> Result<(Seq<WordType>, Option<Error>)> {
    match message_body(data, body_count(count, data.len())) {
        Err(e) => Err(e),
        Ok(body) => Ok(
            (
                words_after_adding(header_words(header, limit), body, limit),
                error_after_adding(
                    error_after_adding(None, 0, 1, limit),
                    header_words(header, limit).len(),
                    body.len(),
                    limit,
                ),
            ),
        ),
    }
}

/// Whether the header packet of a message in `data` has a correct parity bit
pub open spec fn header_parity_ok(data: Seq<u8>) -> bool {
    Packet::spec_read(data, 0).parity == parity_of(be_value(Packet::spec_read(data, 0).body))
}

/// Once a packet among the first `n` data words fails, reading more data
/// words fails with the same error
proof fn lemma_data_words_err(data: Seq<u8>, n: nat, m: nat)
    requires
        n <= m,
        data_words(data, n) is Err,
    ensures
        data_words(data, m) == data_words(data, n),
    decreases m,
{
    if m > n {
        lemma_data_words_err(data, n, (m - 1) as nat);
    }
}

/// Word `k` of a message starts `5` bytes after word `k - 2`, at byte
/// `5 * (k / 2)`, or two bytes further and four bits in for an odd `k`
proof fn lemma_word_position(k: nat)
    ensures
        word_byte(k) == 5 * (k / 2) + 2 * (k % 2),
        word_offset(k) == 4 * (k % 2),
{
    let m = k / 2;
    let t = k % 2;
    assert(k * 20 == 8 * (5 * m + 2 * t) + 4 * t) by (nonlinear_arith)
        requires
            k == 2 * m + t,
    ;
}

/// The three bytes that hold word `k` lie within the bytes of a message of
/// more than `k` words, and a later word starts at least two bytes further
proof fn lemma_word_bounds(k: nat, j: nat, len: nat)
    requires
        k < j,
        j < len,
    ensures
        word_byte(k) + 3 <= bytes_for_words(len),
        word_byte(j) + 3 <= bytes_for_words(len),
        word_byte(k) + 2 <= word_byte(j),
        j == k + 1 && k % 2 == 0 ==> word_byte(j) == word_byte(k) + 2,
        j == k + 1 && k % 2 == 1 ==> word_byte(j) == word_byte(k) + 3,
        j > k + 1 ==> word_byte(j) >= word_byte(k) + 5,
{
    lemma_word_position(k);
    lemma_word_position(j);
    lemma_word_position((j - 1) as nat);
    assert(len * 20 + 7 >= (j + 1) * 20 + 7);
}

/// Writing word `j` over `data` leaves the packet of an earlier word as it was
proof fn lemma_write_keeps_earlier(data: Seq<u8>, packet: Packet, j: nat, k: nat, len: nat)
    requires
        k < j,
        j < len,
        data.len() >= bytes_for_words(len),
    ensures
        ({
            let i = word_byte(j) as int;
            let after = data.subrange(0, i) + packet.spec_write(
                data.subrange(i, data.len() as int),
                word_offset(j),
            );
            &&& after.len() == data.len()
            &&& word_packet(after, k) == word_packet(data, k)
        }),
{
    lemma_word_bounds(k, j, len);
    lemma_word_position(k);
    lemma_word_position(j);
    let i = word_byte(j) as int;
    let rest = data.subrange(i, data.len() as int);
    let written = packet.spec_write(rest, word_offset(j));
    let after = data.subrange(0, i) + written;
    let a = word_byte(k) as int;
    let before_k = data.subrange(a, data.len() as int);
    let after_k = after.subrange(a, after.len() as int);
    if j == k + 1 && k % 2 == 0 {
        crate::message::packets::lemma_write_keeps_high_bits(packet, rest);
        assert(after_k[2] == written[0]);
    }
    crate::message::packets::lemma_read_unchanged(before_k, after_k, word_offset(k));
}

/// The words of a message, with their parity bits, can be written as packets
pub open spec fn writable_words(words: Seq<WordType>) -> bool {
    forall|i: int|
        0 <= i < words.len() ==> !(#[trigger] words[i] is Empty) && words[i].spec_parity() < 2
}

/// After the first `n` words are written, each of them is read back as the
/// packet that carries it
proof fn lemma_written_packets(data: Seq<u8>, words: Seq<WordType>, n: nat)
    requires
        n <= words.len(),
        data.len() >= bytes_for_words(words.len()),
        writable_words(words),
    ensures
        written_words(data, words, n).len() == data.len(),
        forall|k: nat|
            k < n ==> #[trigger] word_packet(written_words(data, words, n), k)
                == Packet::spec_from_word(words[k as int])->Ok_0,
    decreases n,
{
    if n > 0 {
        let j = (n - 1) as nat;
        lemma_written_packets(data, words, j);
        let prev = written_words(data, words, j);
        let i = word_byte(j) as int;
        let packet = Packet::spec_from_word(words[j as int])->Ok_0;
        let rest = prev.subrange(i, prev.len() as int);
        let out = written_words(data, words, n);
        lemma_word_position(j);
        if j > 0 {
            lemma_word_bounds((j - 1) as nat, j, words.len());
        } else {
            assert(bytes_for_words(words.len()) >= 3);
        }
        assert forall|k: nat| k < n implies #[trigger] word_packet(out, k)
            == Packet::spec_from_word(words[k as int])->Ok_0 by {
            if k < j {
                lemma_write_keeps_earlier(prev, packet, j, k, words.len());
            } else {
                crate::message::packets::law_packet_write_read(packet, rest, word_offset(j));
                assert(out.subrange(i, out.len() as int) =~= packet.spec_write(rest, word_offset(j)));
            }
        }
    }
}

/// The number of data words is at most the number of words, and at most
/// one less (two less) when one word (two words) is not a data word
proof fn lemma_data_count_bounds(words: Seq<WordType>, i: int, j: int)
    ensures
        data_count(words) <= words.len(),
        0 <= i < words.len() && !(words[i] is Data) ==> data_count(words) + 1 <= words.len(),
        0 <= i < j < words.len() && !(words[i] is Data) && !(words[j] is Data) ==> data_count(words)
            + 2 <= words.len(),
    decreases words.len(),
{
    if words.len() > 0 {
        let last = words.len() - 1;
        lemma_data_count_bounds(words.drop_last(), i, j);
        if j == last {
            lemma_data_count_bounds(words.drop_last(), i, i);
        }
        if i == last {
            lemma_data_count_bounds(words.drop_last(), -1, -1);
        }
    }
}

/// The data words read from the packets of words `1` to `count` of a
/// message are those words
proof fn lemma_data_words_written(out: Seq<u8>, words: Seq<WordType>, count: nat)
    requires
        count < words.len(),
        forall|k: nat|
            k < words.len() ==> #[trigger] word_packet(out, k) == Packet::spec_from_word(
                words[k as int],
            )->Ok_0,
        forall|i: int| 1 <= i < words.len() ==> #[trigger] words[i] is Data,
        forall|i: int| 0 <= i < words.len() ==> word_parity_ok(#[trigger] words[i]),
    ensures
        data_words(out, count) == Ok::<Seq<WordType>, Error>(words.subrange(1, count + 1int)),
    decreases count,
{
    if count > 0 {
        lemma_data_words_written(out, words, (count - 1) as nat);
        let w = words[count as int]->Data_0;
        let v = w.spec_value();
        assert(word_packet(out, count) == Packet::spec_from_word(words[count as int])->Ok_0);
        crate::word::words::law_bytes_value_roundtrip([high_byte(v), low_byte(v)], v);
        DataWord::lemma_spec_with([high_byte(v), low_byte(v)], w.spec_parity(), w);
        assert(words.subrange(1, count as int).push(words[count as int]) =~= words.subrange(
            1,
            count + 1int,
        ));
    } else {
        assert(words.subrange(1, 1) =~= Seq::<WordType>::empty());
    }
}

/// The bytes written for a valid message hold its header packet at the
/// start, with a correct parity bit, and its data words after it
proof fn lemma_written_message(data: Seq<u8>, words: Seq<WordType>)
    requires
        validation(words, None) is Ok,
        forall|i: int| 0 <= i < words.len() ==> !(#[trigger] words[i] is Empty),
        data.len() >= bytes_for_words(words.len()),
    ensures
        ({
            let out = written_words(data, words, words.len());
            &&& words.len() > 0
            &&& out.len() == data.len()
            &&& out.len() >= 3
            &&& header_parity_ok(out)
            &&& Packet::spec_read(out, 0) == Packet::spec_from_word(words[0])->Ok_0
            &&& data_words(out, (words.len() - 1) as nat) == Ok::<Seq<WordType>, Error>(
                words.subrange(1, words.len() as int),
            )
        }),
{
    let out = written_words(data, words, words.len());
    assert(words.len() > 0);
    assert forall|i: int| 1 <= i < words.len() implies #[trigger] words[i] is Data by {
        if !(words[i] is Data) {
            lemma_data_count_bounds(words, 0, i);
        }
    }
    assert forall|i: int| 0 <= i < words.len() implies !(#[trigger] words[i] is Empty)
        && words[i].spec_parity() < 2 by {
        assert(word_parity_ok(words[i]));
    }
    lemma_written_packets(data, words, words.len());
    lemma_data_words_written(out, words, (words.len() - 1) as nat);
    assert(word_packet(out, 0) == Packet::spec_from_word(words[0])->Ok_0);
    assert(out.subrange(0, out.len() as int) =~= out);
    let v = words[0].spec_value();
    crate::word::words::law_bytes_value_roundtrip([high_byte(v), low_byte(v)], v);
    assert(word_parity_ok(words[0]));
    assert(bytes_for_words(words.len()) >= 3);
}

/// The three bytes that hold a word of a message lie within its bytes
proof fn lemma_word_fits(k: nat, len: nat)
    requires
        k < len,
    ensures
        word_byte(k) + 3 <= bytes_for_words(len),
{
    lemma_word_position(k);
    assert(len * 20 + 7 >= (k + 1) * 20 + 7);
}

/// Two byte sequences that hold the same packet at the position of every
/// word of a message agree on every byte the message takes, but for the low
/// four bits of the last byte when the number of words is odd
proof fn lemma_bytes_from_packets(x: Seq<u8>, y: Seq<u8>, len: nat)
    requires
        x.len() >= bytes_for_words(len),
        y.len() >= bytes_for_words(len),
        forall|k: nat| k < len ==> #[trigger] word_packet(x, k) == word_packet(y, k),
        len % 2 == 1 ==> x[bytes_for_words(len) - 1] & 0x0fu8 == y[bytes_for_words(len) - 1]
            & 0x0fu8,
    ensures
        forall|i: int| 0 <= i < bytes_for_words(len) ==> x[i] == y[i],
{
    let total = bytes_for_words(len) as int;
    assert forall|i: int| 0 <= i < total implies x[i] == y[i] by {
        let m = i / 5;
        let k0 = (2 * m) as nat;
        let k1 = (2 * m + 1) as nat;
        lemma_word_position(k0);
        lemma_word_position(k1);
        assert(k0 < len);
        lemma_word_fits(k0, len);
        let b0 = 5 * m;
        assert(word_packet(x, k0) == word_packet(y, k0));
        crate::message::packets::lemma_read_determines(
            x.subrange(b0, x.len() as int),
            y.subrange(b0, y.len() as int),
            0,
        );
        if i >= b0 + 2 {
            if k1 < len {
                lemma_word_fits(k1, len);
                assert(word_packet(x, k1) == word_packet(y, k1));
                crate::message::packets::lemma_read_determines(
                    x.subrange(b0 + 2, x.len() as int),
                    y.subrange(b0 + 2, y.len() as int),
                    4,
                );
                if i == b0 + 2 {
                    crate::message::packets::lemma_byte_halves(x[i], y[i]);
                }
            } else {
                assert(len == k1);
                assert(i == total - 1);
                crate::message::packets::lemma_byte_halves(x[i], y[i]);
            }
        }
    }
}

/// After all the words of a message with an odd number of words are
/// written, the low four bits of the last byte it takes are cleared
proof fn lemma_written_trailing_bits(data: Seq<u8>, words: Seq<WordType>)
    requires
        words.len() % 2 == 1,
        data.len() >= bytes_for_words(words.len()),
    ensures
        written_words(data, words, words.len())[bytes_for_words(words.len()) - 1] & 0x0fu8 == 0,
{
    let n = words.len();
    let j = (n - 1) as nat;
    lemma_word_position(j);
    lemma_word_fits(j, n);
    let prev = written_words(data, words, j);
    lemma_written_rest(data, words, j);
    let i = word_byte(j) as int;
    let packet = Packet::spec_from_word(words[j as int])->Ok_0;
    let rest = prev.subrange(i, prev.len() as int);
    crate::message::packets::lemma_write_clears_low_bits(packet, rest);
    assert(bytes_for_words(n) - 1 == i + 2);
}

/// The data words read from a message are those its packets carry: each
/// data word read is the one whose packet stands at its position
proof fn lemma_read_packets(data: Seq<u8>, count: nat)
    requires
        data_words(data, count) is Ok,
    ensures
        ({
            let body = data_words(data, count)->Ok_0;
            &&& body.len() == count
            &&& forall|k: int|
                0 <= k < count ==> #[trigger] body[k] is Data && body[k].spec_parity() < 2
                    && word_packet(data, (k + 1) as nat) == Packet::spec_from_word(body[k])->Ok_0
        }),
    decreases count,
{
    if count > 0 {
        let c = (count - 1) as nat;
        lemma_read_packets(data, c);
        let packet = word_packet(data, count);
        let w = DataWord::spec_with(packet.body, packet.parity);
        DataWord::lemma_spec_with(packet.body, packet.parity, w);
        crate::word::words::law_bytes_value_roundtrip(packet.body, 0);
        assert(Packet::spec_from_word(WordType::Data(w))->Ok_0.body =~= packet.body);
        crate::errors::law_parity_is_odd(be_value(packet.body));
    }
}

/// Bytes that hold the packet of every word of a message, taking just the
/// bytes the message takes, with the low four bits of the last byte cleared
/// when the number of words is odd, are what writing the message gives back
proof fn lemma_read_write_bytes(data: Seq<u8>, words: Seq<WordType>, buffer: Seq<u8>)
    requires
        forall|k: nat|
            k < words.len() ==> #[trigger] word_packet(data, k) == Packet::spec_from_word(
                words[k as int],
            )->Ok_0,
        writable_words(words),
        data.len() == bytes_for_words(words.len()),
        words.len() % 2 == 1 ==> data[data.len() - 1] & 0x0fu8 == 0,
        buffer.len() >= data.len(),
    ensures
        written_words(buffer, words, words.len()).subrange(0, data.len() as int) == data,
{
    let out = written_words(buffer, words, words.len());
    lemma_written_packets(buffer, words, words.len());
    if words.len() % 2 == 1 {
        lemma_written_trailing_bits(buffer, words);
    }
    assert forall|k: nat| k < words.len() implies #[trigger] word_packet(out, k) == word_packet(
        data,
        k,
    ) by {
        assert(word_packet(out, k) == Packet::spec_from_word(words[k as int])->Ok_0);
    }
    lemma_bytes_from_packets(out, data, words.len());
    assert(out.subrange(0, data.len() as int) =~= data);
}

/// What is read of a command message writes back as the bytes it was read
/// from: for bytes that start with a packet with the service sync pattern,
/// read as a command message whose words all fit and that records no error,
/// that take just the bytes those words take and whose unused low four bits
/// at the end (for an odd number of words) are cleared, writing the words
/// read over any slice at least as long gives back those bytes.
pub proof fn law_command_message_read_write<const WORDS: usize>(
    data: Seq<u8>,
    words: Seq<WordType>,
    buffer: Seq<u8>,
)
    requires
        data.len() >= 3,
        Packet::spec_read(data, 0).sync == Packet::SERV_SYNC,
        read_outcome(
            data,
            WordType::Command(
                CommandWord::spec_with(Packet::spec_read(data, 0).body, Packet::spec_read(data, 0).parity),
            ),
            CommandWord::spec_with(
                Packet::spec_read(data, 0).body,
                Packet::spec_read(data, 0).parity,
            ).spec_count(),
            WORDS as nat,
        ) == Ok::<(Seq<WordType>, Option<Error>), Error>((words, None::<Error>)),
        data.len() == bytes_for_words(words.len()),
        words.len() % 2 == 1 ==> data[data.len() - 1] & 0x0fu8 == 0,
        buffer.len() >= data.len(),
    ensures
        written_words(buffer, words, words.len()).subrange(0, data.len() as int) == data,
{
    let p = Packet::spec_read(data, 0);
    let header = CommandWord::spec_with(p.body, p.parity);
    CommandWord::lemma_spec_with(p.body, p.parity, header);
    crate::message::packets::lemma_read_parity_bit(data, 0);
    lemma_read_header(data, WordType::Command(header), header.spec_count(), WORDS as nat, words);
    crate::word::words::law_bytes_value_roundtrip(p.body, 0);
    assert(Packet::spec_from_word(words[0])->Ok_0.body =~= p.body);
    assert(data.subrange(0, data.len() as int) =~= data);
    assert(word_packet(data, 0) == Packet::spec_from_word(words[0])->Ok_0);
    lemma_read_write_bytes(data, words, buffer);
}

/// What is read of a status message writes back as the bytes it was read
/// from: for bytes that start with a packet with the service sync pattern,
/// read as a status message whose words all fit and that records no error,
/// that take just the bytes those words take and whose unused low four bits
/// at the end (for an odd number of words) are cleared, writing the words
/// read over any slice at least as long gives back those bytes.
pub proof fn law_status_message_read_write<const WORDS: usize>(
    data: Seq<u8>,
    words: Seq<WordType>,
    buffer: Seq<u8>,
)
    requires
        data.len() >= 3,
        Packet::spec_read(data, 0).sync == Packet::SERV_SYNC,
        read_outcome(
            data,
            WordType::Status(
                StatusWord::spec_with(Packet::spec_read(data, 0).body, Packet::spec_read(data, 0).parity),
            ),
            StatusWord::spec_with(
                Packet::spec_read(data, 0).body,
                Packet::spec_read(data, 0).parity,
            ).spec_count(),
            WORDS as nat,
        ) == Ok::<(Seq<WordType>, Option<Error>), Error>((words, None::<Error>)),
        data.len() == bytes_for_words(words.len()),
        words.len() % 2 == 1 ==> data[data.len() - 1] & 0x0fu8 == 0,
        buffer.len() >= data.len(),
    ensures
        written_words(buffer, words, words.len()).subrange(0, data.len() as int) == data,
{
    let p = Packet::spec_read(data, 0);
    let header = StatusWord::spec_with(p.body, p.parity);
    StatusWord::lemma_spec_with(p.body, p.parity, header);
    crate::message::packets::lemma_read_parity_bit(data, 0);
    lemma_read_header(data, WordType::Status(header), header.spec_count(), WORDS as nat, words);
    crate::word::words::law_bytes_value_roundtrip(p.body, 0);
    assert(Packet::spec_from_word(words[0])->Ok_0.body =~= p.body);
    assert(data.subrange(0, data.len() as int) =~= data);
    assert(word_packet(data, 0) == Packet::spec_from_word(words[0])->Ok_0);
    lemma_read_write_bytes(data, words, buffer);
}

/// A message read with no error recorded holds the header word and then the
/// data words whose packets stand in the bytes after it
proof fn lemma_read_header(
    data: Seq<u8>,
    header: WordType,
    count: Option<usize>,
    limit: nat,
    words: Seq<WordType>,
)
    requires
        !(header is Empty),
        header.spec_parity() < 2,
        read_outcome(data, header, count, limit) == Ok::<(Seq<WordType>, Option<Error>), Error>(
            (words, None::<Error>),
        ),
    ensures
        words.len() >= 1,
        words[0] == header,
        writable_words(words),
        forall|k: nat|
            1 <= k < words.len() ==> #[trigger] word_packet(data, k) == Packet::spec_from_word(
                words[k as int],
            )->Ok_0,
{
    let n = body_count(count, data.len());
    let body = data_words(data, n)->Ok_0;
    lemma_read_packets(data, n);
    assert(limit > 0);
    assert(header_words(header, limit) == seq![header]);
    assert(1 + body.len() <= limit);
    assert(body.take(vstd::math::min(body.len() as int, limit - 1)) =~= body);
    assert(words =~= seq![header] + body);
    assert forall|k: nat| 1 <= k < words.len() implies #[trigger] word_packet(data, k)
        == Packet::spec_from_word(words[k as int])->Ok_0 by {
        assert(words[k as int] == body[k - 1]);
    }
}

/// Writing the first `n` words of a message leaves every byte from the end
/// of the bytes the whole message takes as it was
proof fn lemma_written_rest(data: Seq<u8>, words: Seq<WordType>, n: nat)
    requires
        n <= words.len(),
        data.len() >= bytes_for_words(words.len()),
    ensures
        written_words(data, words, n).len() == data.len(),
        forall|i: int|
            bytes_for_words(words.len()) <= i < data.len() ==> #[trigger] written_words(
                data,
                words,
                n,
            )[i] == data[i],
    decreases n,
{
    if n > 0 {
        let j = (n - 1) as nat;
        lemma_written_rest(data, words, j);
        lemma_word_fits(j, words.len());
        lemma_word_position(j);
        let prev = written_words(data, words, j);
        let out = written_words(data, words, n);
        assert forall|i: int| bytes_for_words(words.len()) <= i < data.len() implies #[trigger] out[i]
            == data[i] by {
            assert(prev[i] == data[i]);
        }
    }
}

/// Writing a message touches no byte past the bytes its words take: every
/// byte of the slice from `(length * 20 + 7) / 8` on keeps its value, and
/// the slice keeps its length.
pub proof fn law_message_write_keeps_rest(data: Seq<u8>, words: Seq<WordType>)
    requires
        data.len() >= bytes_for_words(words.len()),
    ensures
        written_words(data, words, words.len()).len() == data.len(),
        written_words(data, words, words.len()).subrange(
            bytes_for_words(words.len()) as int,
            data.len() as int,
        ) == data.subrange(bytes_for_words(words.len()) as int, data.len() as int),
{
    lemma_written_rest(data, words, words.len());
    assert(written_words(data, words, words.len()).subrange(
        bytes_for_words(words.len()) as int,
        data.len() as int,
    ) =~= data.subrange(bytes_for_words(words.len()) as int, data.len() as int));
}

/// What is written of a command message reads back as that message: for a
/// message that passes validation and starts with a command word, the bytes
/// written over a slice long enough for it start with a command word with a
/// correct parity bit, equal to the message's own, and reading them gives
/// back every word of the message and no error.
pub proof fn law_command_message_write_read<const WORDS: usize>(
    message: Message<WORDS>,
    data: Seq<u8>,
)
    requires
        message.wf(),
        validation(message.spec_words(), message.spec_error()) is Ok,
        message.spec_words().len() > 0,
        message.spec_words()[0] is Command,
        data.len() >= bytes_for_words(message.spec_words().len()),
    ensures
        ({
            let words = message.spec_words();
            let out = written_words(data, words, words.len());
            let packet = Packet::spec_read(out, 0);
            let header = CommandWord::spec_with(packet.body, packet.parity);
            &&& out.len() >= 3
            &&& header_parity_ok(out)
            &&& WordType::Command(header) == words[0]
            &&& read_outcome(out, WordType::Command(header), header.spec_count(), WORDS as nat)
                == Ok::<(Seq<WordType>, Option<Error>), Error>((words, None::<Error>))
        }),
{
    let words = message.spec_words();
    let out = written_words(data, words, words.len());
    lemma_written_message(data, words);
    let packet = Packet::spec_read(out, 0);
    let w = words[0]->Command_0;
    let v = w.spec_value();
    crate::word::words::law_bytes_value_roundtrip([high_byte(v), low_byte(v)], v);
    CommandWord::lemma_spec_with(packet.body, packet.parity, w);
    let header = CommandWord::spec_with(packet.body, packet.parity);
    assert(header == w);
    let count = (words.len() - 1) as nat;
    assert(body_count(header.spec_count(), out.len()) == count);
    let body = words.subrange(1, words.len() as int);
    assert(header_words(WordType::Command(header), WORDS as nat) == seq![words[0]]);
    if words.len() < WORDS {
        assert(body.take(vstd::math::min(body.len() as int, WORDS - 1)) =~= body);
    }
    assert(seq![words[0]] + body =~= words);
    assert(message_body(out, count) == Ok::<Seq<WordType>, Error>(body));
    assert(words_after_adding(seq![words[0]], body, WORDS as nat) == words);
    assert(error_after_adding(None, 0, 1, WORDS as nat) == None::<Error>);
    assert(error_after_adding(None, 1, body.len(), WORDS as nat) == None::<Error>);
}

/// What is written of a status message reads back as that message: for a
/// message that passes validation and starts with a status word, the bytes
/// written over a slice of exactly the length the message takes start with
/// a status word with a correct parity bit, equal to the message's own, and
/// reading them gives back every word of the message and no error.
pub proof fn law_status_message_write_read<const WORDS: usize>(
    message: Message<WORDS>,
    data: Seq<u8>,
)
    requires
        message.wf(),
        validation(message.spec_words(), message.spec_error()) is Ok,
        message.spec_words().len() > 0,
        message.spec_words()[0] is Status,
        data.len() == bytes_for_words(message.spec_words().len()),
    ensures
        ({
            let words = message.spec_words();
            let out = written_words(data, words, words.len());
            let packet = Packet::spec_read(out, 0);
            let header = StatusWord::spec_with(packet.body, packet.parity);
            &&& out.len() >= 3
            &&& header_parity_ok(out)
            &&& WordType::Status(header) == words[0]
            &&& read_outcome(out, WordType::Status(header), header.spec_count(), WORDS as nat)
                == Ok::<(Seq<WordType>, Option<Error>), Error>((words, None::<Error>))
        }),
{
    let words = message.spec_words();
    let out = written_words(data, words, words.len());
    lemma_written_message(data, words);
    let packet = Packet::spec_read(out, 0);
    let w = words[0]->Status_0;
    let v = w.spec_value();
    crate::word::words::law_bytes_value_roundtrip([high_byte(v), low_byte(v)], v);
    StatusWord::lemma_spec_with(packet.body, packet.parity, w);
    let header = StatusWord::spec_with(packet.body, packet.parity);
    assert(header == w);
    let count = (words.len() - 1) as nat;
    assert(out.len() * 8 / 20 == words.len());
    assert(body_count(header.spec_count(), out.len()) == count);
    let body = words.subrange(1, words.len() as int);
    assert(header_words(WordType::Status(header), WORDS as nat) == seq![words[0]]);
    if words.len() < WORDS {
        assert(body.take(vstd::math::min(body.len() as int, WORDS - 1)) =~= body);
    }
    assert(seq![words[0]] + body =~= words);
    assert(message_body(out, count) == Ok::<Seq<WordType>, Error>(body));
    assert(words_after_adding(seq![words[0]], body, WORDS as nat) == words);
    assert(error_after_adding(None, 0, 1, WORDS as nat) == None::<Error>);
    assert(error_after_adding(None, 1, body.len(), WORDS as nat) == None::<Error>);
}

/// A message sent between two terminals on the bus
///
/// The Message struct does very minimal message validation
/// for the message structure:
///
/// * Command or status words are always the first word.
/// * Data words are limited based on the command word count.
/// * For status words, data words are parsed to the end of the buffer
///
/// A message holds at most `WORDS` words. Adding a word to a full
/// message records [Error::OutOfBounds], which [Message::validate]
/// reports.
#[derive(Clone, Eq, PartialEq, Debug)]
pub struct Message<const WORDS: usize> {
    words: Vec<WordType>,
    error: Option<Error>,
}

impl<const WORDS: usize> Message<WORDS> {
    /// The words of the message, in order
    pub closed spec fn spec_words(&self) -> Seq<WordType> {
        self.words@
    }

    /// The error recorded while the message was built, if any
    pub closed spec fn spec_error(&self) -> Option<Error> {
        self.error
    }

    /// A message holds at most `WORDS` words, none of them empty
    pub open spec fn wf(&self) -> bool {
        &&& self.spec_words().len() <= WORDS
        &&& forall|i: int| 0 <= i < self.spec_words().len() ==> !(#[trigger] self.spec_words()[i] is Empty)
    }

    /// Create a new message struct
    pub fn new() -> (m: Self)
        ensures
            m.wf(),
            m.spec_words() == Seq::<WordType>::empty(),
            m.spec_error() is None,
    {
        Self { words: Vec::new(), error: None }
    }

    /// Add a word to the message
    ///
    /// If the message is full, the word is dropped and [Error::OutOfBounds]
    /// is recorded.
    pub fn add<T: Word>(&mut self, word: T)
        requires
            old(self).wf(),
        ensures
            final(self).wf(),
            final(self).spec_words() == if old(self).spec_words().len() < WORDS
                && !(word.spec_word_type() is Empty) {
                old(self).spec_words().push(word.spec_word_type())
            } else {
                old(self).spec_words()
            },
            final(self).spec_error() == error_after_adding(
                old(self).spec_error(),
                old(self).spec_words().len(),
                1,
                WORDS as nat,
            ),
    {
        let word = word.into_word_type();
        if self.words.len() < WORDS {
            if !word.is_none() {
                self.words.push(word);
            }
        } else {
            self.error = Some(Error::OutOfBounds);
        }
    }

    /// Add a data word to the message
    pub fn add_data(&mut self, word: DataWord)
        requires
            old(self).wf(),
        ensures
            final(self).wf(),
            final(self).spec_words() == words_after_adding(
                old(self).spec_words(),
                seq![WordType::Data(word)],
                WORDS as nat,
            ),
            final(self).spec_error() == error_after_adding(
                old(self).spec_error(),
                old(self).spec_words().len(),
                1,
                WORDS as nat,
            ),
    {
        self.add(word);
        assert(seq![WordType::Data(word)].take(1) =~= seq![WordType::Data(word)]);
        assert(old(self).spec_words() + seq![WordType::Data(word)] =~= old(self).spec_words().push(WordType::Data(word)));
    }

    /// Add a status word to the message
    pub fn add_status(&mut self, word: StatusWord)
        requires
            old(self).wf(),
        ensures
            final(self).wf(),
            final(self).spec_words() == words_after_adding(
                old(self).spec_words(),
                seq![WordType::Status(word)],
                WORDS as nat,
            ),
            final(self).spec_error() == error_after_adding(
                old(self).spec_error(),
                old(self).spec_words().len(),
                1,
                WORDS as nat,
            ),
    {
        self.add(word);
        assert(seq![WordType::Status(word)].take(1) =~= seq![WordType::Status(word)]);
        assert(old(self).spec_words() + seq![WordType::Status(word)] =~= old(self).spec_words().push(WordType::Status(word)));
    }

    /// Add a command word to the message
    pub fn add_command(&mut self, word: CommandWord)
        requires
            old(self).wf(),
        ensures
            final(self).wf(),
            final(self).spec_words() == words_after_adding(
                old(self).spec_words(),
                seq![WordType::Command(word)],
                WORDS as nat,
            ),
            final(self).spec_error() == error_after_adding(
                old(self).spec_error(),
                old(self).spec_words().len(),
                1,
                WORDS as nat,
            ),
    {
        self.add(word);
        assert(seq![WordType::Command(word)].take(1) =~= seq![WordType::Command(word)]);
        assert(old(self).spec_words() + seq![WordType::Command(word)] =~= old(self).spec_words().push(WordType::Command(word)));
    }

    /// Add data words made of a byte slice, two bytes each
    ///
    /// A last single byte is padded with a zero byte. Words that do not
    /// fit in the message are dropped and [Error::OutOfBounds] is recorded.
    pub fn add_bytes(&mut self, data: &[u8])
        requires
            old(self).wf(),
        ensures
            final(self).wf(),
            final(self).spec_words() == words_after_adding(
                old(self).spec_words(),
                chunk_words(data@),
                WORDS as nat,
            ),
            final(self).spec_error() == error_after_adding(
                old(self).spec_error(),
                old(self).spec_words().len(),
                chunk_words(data@).len(),
                WORDS as nat,
            ),
    {
        let ghost words0 = self.spec_words();
        let ghost error0 = self.spec_error();
        let ghost chunks = chunk_words(data@);
        let mut i: usize = 0;
        let ghost mut k: int = 0;
        proof {
            assert(chunks.take(0) =~= Seq::<WordType>::empty());
            assert(words0 + Seq::<WordType>::empty() =~= words0);
        }
        while i < data.len()
            invariant
                self.wf(),
                0 <= k <= chunks.len(),
                i == data@.len() ==> k == chunks.len(),
                i < data@.len() ==> i == 2 * k,
                i <= data@.len(),
                chunks == chunk_words(data@),
                self.spec_words() == words_after_adding(words0, chunks.take(k), WORDS as nat),
                self.spec_error() == error_after_adding(error0, words0.len(), k as nat, WORDS as nat),
            decreases data@.len() - i,
        {
            let b0 = data[i];
            let b1 = if i + 1 < data.len() {
                data[i + 1]
            } else {
                0
            };
            let word = DataWord::from_bytes([b0, b1]);
            proof {
                assert([b0, b1] =~= chunk_bytes(data@, k));
                DataWord::lemma_spec_with(
                    chunk_bytes(data@, k),
                    parity_of(be_value(chunk_bytes(data@, k))),
                    word,
                );
                assert(WordType::Data(word) == chunks[k]);
                assert(chunks.take(k + 1) =~= chunks.take(k).push(chunks[k]));
                if words0.len() < WORDS {
                    let taken = vstd::math::min(k, WORDS - words0.len());
                    let taken2 = vstd::math::min(k + 1, WORDS - words0.len());
                    if k < WORDS - words0.len() {
                        assert(words0 + chunks.take(k + 1).take(taken2) =~= (words0 + chunks.take(
                            k,
                        ).take(taken)).push(chunks[k]));
                    } else {
                        assert(chunks.take(k + 1).take(taken2) =~= chunks.take(k).take(taken));
                    }
                }
            }
            self.add_data(word);
            proof {
                k = k + 1;
            }
            if i + 1 < data.len() {
                i = i + 2;
            } else {
                i = data.len();
            }
        }
        proof {
            assert(chunks.take(k) =~= chunks);
        }
    }

    /// Add data words made of the UTF-8 bytes of a string, two bytes each
    ///
    /// See [Message::add_bytes] for more information.
    pub fn add_string(&mut self, data: &str)
        requires
            old(self).wf(),
        ensures
            final(self).wf(),
            final(self).spec_words() == words_after_adding(
                old(self).spec_words(),
                chunk_words(data.spec_bytes()),
                WORDS as nat,
            ),
            final(self).spec_error() == error_after_adding(
                old(self).spec_error(),
                old(self).spec_words().len(),
                chunk_words(data.spec_bytes()).len(),
                WORDS as nat,
            ),
    {
        self.add_bytes(data.as_bytes());
    }

    /// Replace the data words of the message with words made of a byte slice
    ///
    /// The header word (the first word) is kept. See [Message::add_bytes]
    /// for more information.
    pub fn set_bytes(&mut self, data: &[u8])
        requires
            old(self).wf(),
            WORDS >= 1,
        ensures
            final(self).wf(),
            final(self).spec_words() == words_after_adding(
                old(self).spec_words().take(vstd::math::min(1, old(self).spec_words().len() as int)),
                chunk_words(data@),
                WORDS as nat,
            ),
            final(self).spec_error() == error_after_adding(
                old(self).spec_error(),
                vstd::math::min(1, old(self).spec_words().len() as int) as nat,
                chunk_words(data@).len(),
                WORDS as nat,
            ),
    {
        self.words.truncate(1);
        assert(self.spec_words() =~= old(self).spec_words().take(
            vstd::math::min(1, old(self).spec_words().len() as int),
        ));
        self.add_bytes(data);
    }

    /// Replace the data words of the message with words made of a string
    ///
    /// See [Message::set_bytes] for more information.
    pub fn set_string(&mut self, data: &str)
        requires
            old(self).wf(),
            WORDS >= 1,
        ensures
            final(self).wf(),
            final(self).spec_words() == words_after_adding(
                old(self).spec_words().take(vstd::math::min(1, old(self).spec_words().len() as int)),
                chunk_words(data.spec_bytes()),
                WORDS as nat,
            ),
            final(self).spec_error() == error_after_adding(
                old(self).spec_error(),
                vstd::math::min(1, old(self).spec_words().len() as int) as nat,
                chunk_words(data.spec_bytes()).len(),
                WORDS as nat,
            ),
    {
        self.set_bytes(data.as_bytes());
    }

    /// Constructor method to set the message body from a string
    ///
    /// See [Message::set_string] for more information.
    pub fn with_string(self, data: &str) -> (m: Self)
        requires
            self.wf(),
            WORDS >= 1,
        ensures
            m.wf(),
            m.spec_words() == words_after_adding(
                self.spec_words().take(vstd::math::min(1, self.spec_words().len() as int)),
                chunk_words(data.spec_bytes()),
                WORDS as nat,
            ),
            m.spec_error() == error_after_adding(
                self.spec_error(),
                vstd::math::min(1, self.spec_words().len() as int) as nat,
                chunk_words(data.spec_bytes()).len(),
                WORDS as nat,
            ),
    {
        let mut m = self;
        m.set_string(data);
        m
    }

    /// Constructor method to set the message body from bytes
    ///
    /// See [Message::set_bytes] for more information.
    pub fn with_bytes(self, data: &[u8]) -> (m: Self)
        requires
            self.wf(),
            WORDS >= 1,
        ensures
            m.wf(),
            m.spec_words() == words_after_adding(
                self.spec_words().take(vstd::math::min(1, self.spec_words().len() as int)),
                chunk_words(data@),
                WORDS as nat,
            ),
            m.spec_error() == error_after_adding(
                self.spec_error(),
                vstd::math::min(1, self.spec_words().len() as int) as nat,
                chunk_words(data@).len(),
                WORDS as nat,
            ),
    {
        let mut m = self;
        m.set_bytes(data);
        m
    }

    /// Constructor method to add a command word to the message
    ///
    /// The word is made with the `From` conversion of [CommandWord].
    pub fn with_command<T>(self, word: T) -> (m: Self) where CommandWord: From<T>
        requires
            self.wf(),
        ensures
            m.wf(),
            exists|converted: CommandWord|
                call_ensures(CommandWord::from, (word,), converted) && m.spec_words() == words_after_adding(
                    self.spec_words(),
                    seq![WordType::Command(converted)],
                    WORDS as nat,
                ),
            m.spec_error() == error_after_adding(
                self.spec_error(),
                self.spec_words().len(),
                1,
                WORDS as nat,
            ),
    {
        let mut m = self;
        let converted = CommandWord::from(word);
        m.add_command(converted);
        m
    }

    /// Constructor method to add a status word to the message
    ///
    /// The word is made with the `From` conversion of [StatusWord].
    pub fn with_status<T>(self, word: T) -> (m: Self) where StatusWord: From<T>
        requires
            self.wf(),
        ensures
            m.wf(),
            exists|converted: StatusWord|
                call_ensures(StatusWord::from, (word,), converted) && m.spec_words() == words_after_adding(
                    self.spec_words(),
                    seq![WordType::Status(converted)],
                    WORDS as nat,
                ),
            m.spec_error() == error_after_adding(
                self.spec_error(),
                self.spec_words().len(),
                1,
                WORDS as nat,
            ),
    {
        let mut m = self;
        let converted = StatusWord::from(word);
        m.add_status(converted);
        m
    }

    /// Constructor method to add a data word to the message
    ///
    /// The word is made with the `From` conversion of [DataWord].
    pub fn with_data<T>(self, word: T) -> (m: Self) where DataWord: From<T>
        requires
            self.wf(),
        ensures
            m.wf(),
            exists|converted: DataWord|
                call_ensures(DataWord::from, (word,), converted) && m.spec_words() == words_after_adding(
                    self.spec_words(),
                    seq![WordType::Data(converted)],
                    WORDS as nat,
                ),
            m.spec_error() == error_after_adding(
                self.spec_error(),
                self.spec_words().len(),
                1,
                WORDS as nat,
            ),
    {
        let mut m = self;
        let converted = DataWord::from(word);
        m.add_data(converted);
        m
    }

    /// Constructor method to add a word to the message
    ///
    /// See [Message::add] for more information.
    pub fn with_word<T: Word>(self, word: T) -> (m: Self)
        requires
            self.wf(),
        ensures
            m.wf(),
            m.spec_words() == if self.spec_words().len() < WORDS && !(word.spec_word_type() is Empty) {
                self.spec_words().push(word.spec_word_type())
            } else {
                self.spec_words()
            },
            m.spec_error() == error_after_adding(
                self.spec_error(),
                self.spec_words().len(),
                1,
                WORDS as nat,
            ),
    {
        let mut m = self;
        m.add(word);
        m
    }

    /// Method to finalize construction
    ///
    /// Performs basic checks for message validity, returning
    /// an error as [Message::validate] does.
    pub fn build(self) -> (r: Result<Self>)
        requires
            self.wf(),
            self.spec_error() is Some || self.spec_words().len() > 0,
        ensures
            r is Ok <==> validation(self.spec_words(), self.spec_error()) is Ok,
            r matches Ok(m) ==> m == self,
            r matches Err(e) ==> validation(self.spec_words(), self.spec_error()) == Err::<(), Error>(e),
    {
        match self.validate() {
            Ok(()) => Ok(self),
            Err(e) => Err(e),
        }
    }

    /// Get the command word of the message, if it starts with one
    pub fn command(&self) -> (r: Option<&CommandWord>)
        ensures
            r is Some <==> (self.spec_words().len() > 0 && self.spec_words()[0] is Command),
            r matches Some(w) ==> self.spec_words()[0] == WordType::Command(*w),
    {
        if self.words.len() > 0 {
            match &self.words[0] {
                WordType::Command(w) => Some(w),
                _ => None,
            }
        } else {
            None
        }
    }

    /// Get the status word of the message, if it starts with one
    pub fn status(&self) -> (r: Option<&StatusWord>)
        ensures
            r is Some <==> (self.spec_words().len() > 0 && self.spec_words()[0] is Status),
            r matches Some(w) ==> self.spec_words()[0] == WordType::Status(*w),
    {
        if self.words.len() > 0 {
            match &self.words[0] {
                WordType::Status(w) => Some(w),
                _ => None,
            }
        } else {
            None
        }
    }

    /// Get a data word by its index among the words after the header word
    pub fn at(&self, index: usize) -> (r: Option<&DataWord>)
        requires
            index < usize::MAX,
        ensures
            r is Some <==> (index + 1 < self.spec_words().len() && self.spec_words()[index + 1] is Data),
            r matches Some(w) ==> self.spec_words()[index + 1] == WordType::Data(*w),
    {
        if index + 1 < self.words.len() {
            match &self.words[index + 1] {
                WordType::Data(w) => Some(w),
                _ => None,
            }
        } else {
            None
        }
    }

    /// Get a data word by its index among the words after the header word,
    /// converted to another type
    ///
    /// Returns `None` if there is no data word at the index or if the
    /// conversion fails.
    pub fn get<'a, T>(&'a self, index: usize) -> (r: Option<T>) where T: TryFrom<&'a DataWord>
        requires
            index < usize::MAX,
        ensures
            r is Some ==> (index + 1 < self.spec_words().len() && self.spec_words()[index + 1] is Data),
            (index + 1 < self.spec_words().len() && self.spec_words()[index + 1] is Data) ==> exists|
                converted: core::result::Result<T, <T as TryFrom<&'a DataWord>>::Error>,
            |
                #[trigger] call_ensures(T::try_from, (&self.spec_words()[index + 1]->Data_0,), converted)
                    && r == converted.ok(),
    {
        match self.at(index) {
            Some(w) => {
                let converted = T::try_from(w);
                let ghost witness = converted;
                let r = match converted {
                    Ok(v) => Some(v),
                    Err(_) => None,
                };
                assert(call_ensures(T::try_from, (w,), witness));
                assert(call_ensures(T::try_from, (&self.spec_words()[index + 1]->Data_0,), witness));
                r
            },
            None => None,
        }
    }

    /// Check if the message starts with a command word
    pub fn is_command(&self) -> (r: bool)
        ensures
            r == (self.spec_words().len() > 0 && self.spec_words()[0] is Command),
    {
        self.command().is_some()
    }

    /// Check if the message starts with a status word
    pub fn is_status(&self) -> (r: bool)
        ensures
            r == (self.spec_words().len() > 0 && self.spec_words()[0] is Status),
    {
        self.status().is_some()
    }

    /// Get the number of data words
    pub fn count(&self) -> (r: usize)
        ensures
            r == data_count(self.spec_words()),
    {
        let mut n: usize = 0;
        let mut i: usize = 0;
        while i < self.words.len()
            invariant
                i <= self.spec_words().len(),
                n == data_count(self.spec_words().take(i as int)),
                n <= i,
            decreases self.spec_words().len() - i,
        {
            assert(self.spec_words().take(i + 1).drop_last() =~= self.spec_words().take(i as int));
            if self.words[i].is_data() {
                n = n + 1;
            }
            i = i + 1;
        }
        assert(self.spec_words().take(i as int) =~= self.spec_words());
        n
    }

    /// Get the number of words
    pub fn length(&self) -> (r: usize)
        ensures
            r == self.spec_words().len(),
    {
        self.words.len()
    }

    /// Get the maximum number of words
    pub fn size(&self) -> (r: usize)
        ensures
            r == WORDS,
    {
        WORDS
    }

    /// Get the number of data words the message can hold: the word count
    /// of its command word, or one less than its size otherwise
    pub fn limit(&self) -> (r: usize)
        ensures
            r == if self.spec_words().len() > 0 && self.spec_words()[0] is Command {
                command_count(self.spec_words()[0]->Command_0) as int
            } else if WORDS == 0 {
                0
            } else {
                WORDS - 1
            },
    {
        match self.command() {
            Some(w) => w.count(),
            None => self.size().saturating_sub(1),
        }
    }

    /// Check if the message holds all the words it can
    ///
    /// A message with a command word is full when it holds as many data
    /// words as the command asks for; any other message when it holds
    /// `WORDS` words.
    pub fn is_full(&self) -> (r: bool)
        ensures
            r == if self.spec_words().len() > 0 && self.spec_words()[0] is Command {
                data_count(self.spec_words()) == command_count(self.spec_words()[0]->Command_0)
            } else {
                self.spec_words().len() == WORDS
            },
    {
        match self.command() {
            Some(w) => self.count() == w.count(),
            None => self.length() == self.size(),
        }
    }

    /// Check if the message holds no words
    pub fn is_empty(&self) -> (r: bool)
        ensures
            r == (self.spec_words().len() == 0),
    {
        self.length() == 0
    }

    /// Check if the message is valid
    ///
    /// See [Message::validate] for more information.
    pub fn is_valid(&self) -> (r: bool)
        requires
            self.wf(),
            self.spec_error() is Some || self.spec_words().len() > 0,
        ensures
            r == (validation(self.spec_words(), self.spec_error()) is Ok),
    {
        self.validate().is_ok()
    }

    /// Check the message for errors
    ///
    /// Returns, in this order of checks:
    ///
    /// * the error recorded while building, if any
    /// * [Error::WordIsInvalid] if there is not exactly one header word
    /// * [Error::WordIsInvalid] if any word has a bad parity bit
    /// * [Error::FirstWordIsData] if the first word is a data word
    /// * [Error::InvalidMessage] if the command word count differs from
    ///   the number of data words
    pub fn validate(&self) -> (r: Result<()>)
        requires
            self.wf(),
            self.spec_error() is Some || self.spec_words().len() > 0,
        ensures
            r == validation(self.spec_words(), self.spec_error()),
    {
        if let Some(e) = self.error {
            return Err(e);
        }
        if self.count() != (self.length() - 1) {
            return Err(Error::WordIsInvalid);
        }
        let mut i: usize = 0;
        while i < self.words.len()
            invariant
                i <= self.spec_words().len(),
                self.spec_error() is None,
                forall|j: int| 0 <= j < i ==> word_parity_ok(#[trigger] self.spec_words()[j]),
            decreases self.spec_words().len() - i,
        {
            let w = &self.words[i];
            if w.parity() != parity_of_word(w) {
                proof {
                    assert(!word_parity_ok(self.spec_words()[i as int]));
                }
                return Err(Error::WordIsInvalid);
            }
            i = i + 1;
        }
        if self.words.len() > 0 && self.words[0].is_data() {
            return Err(Error::FirstWordIsData);
        }
        if let Some(w) = self.command() {
            if w.count() != self.count() {
                return Err(Error::InvalidMessage);
            }
        }
        Ok(())
    }

    /// The error recorded while the message was built, if any
    pub fn error(&self) -> (r: Option<Error>)
        ensures
            r == self.spec_error(),
    {
        self.error
    }

    /// Remove all words and the recorded error
    pub fn clear(&mut self)
        ensures
            final(self).wf(),
            final(self).spec_words() == Seq::<WordType>::empty(),
            final(self).spec_error() is None,
    {
        self.words = Vec::new();
        self.error = None;
    }

    /// Write the message into a byte slice
    ///
    /// The words are written one after another, 20 bits each: three sync
    /// bits, sixteen body bits and a parity bit. Fails with
    /// [Error::OutOfBounds], leaving the slice unchanged, if the slice is
    /// too short for all the words.
    pub fn write(&self, data: &mut [u8]) -> (r: Result<()>)
        requires
            self.wf(),
            self.spec_words().len() * 20 + 7 <= usize::MAX,
        ensures
            r is Ok <==> old(data)@.len() >= bytes_for_words(self.spec_words().len()),
            r is Ok ==> final(data)@ == written_words(old(data)@, self.spec_words(), self.spec_words().len()),
            r is Err ==> r == Err::<(), Error>(Error::OutOfBounds) && final(data)@ == old(data)@,
    {
        let count = ((self.length() * 20) + 7) / 8;

        if data.len() < count {
            return Err(Error::OutOfBounds);
        }
        let ghost data0 = data@;
        let mut index: usize = 0;
        while index < self.words.len()
            invariant
                self.wf(),
                index <= self.spec_words().len(),
                self.spec_words().len() * 20 + 7 <= usize::MAX,
                count == bytes_for_words(self.spec_words().len()),
                data@.len() == data0.len(),
                data0.len() >= count,
                data@ == written_words(data0, self.spec_words(), index as nat),
            decreases self.spec_words().len() - index,
        {
            let b = index * 20;
            let i = b / 8;
            let o = b % 8;
            let word = &self.words[index];
            let packet = match Packet::try_from(word) {
                Ok(p) => p,
                Err(e) => {
                    return Err(e);
                },
            };
            let ghost before = data@;
            let (_, rest) = data.split_at_mut(i);
            let written = packet.write(rest, o);
            match written {
                Ok(()) => {},
                Err(e) => {
                    return Err(e);
                },
            }
            proof {
                assert(data@ =~= written_words(data0, self.spec_words(), (index + 1) as nat));
            }
            index = index + 1;
        }
        Ok(())
    }

    /// Whether a result of reading is this outcome
    pub open spec fn is_outcome(r: Result<Self>, outcome: Result<(Seq<WordType>, Option<Error>)>) -> bool {
        match outcome {
            Err(e) => r == Err::<Self, Error>(e),
            Ok((words, error)) => r matches Ok(m) && m.wf() && m.spec_words() == words
                && m.spec_error() == error,
        }
    }

    /// Parse a slice of bytes into a message starting with a header word
    ///
    /// The slice is read as a series of 20-bit words. The header word
    /// (of type `T`) determines how many data words follow; a header
    /// without a count (a status word) is followed by as many whole words
    /// as fit in the slice. Fails with [Error::InvalidMessage] if the slice
    /// is shorter than 3 bytes or too short for the words, with
    /// [Error::WordIsInvalid] if a word has a bad parity bit, and with
    /// [Error::PacketIsInvalid] if a data word does not have the data sync
    /// pattern.
    pub fn read<T: Word + Header>(data: &[u8]) -> (r: Result<Self>)
        requires
            data@.len() <= usize::MAX / 8,
            forall|h: T| #[trigger] h.spec_count() matches Some(c) ==> (c + 1) * 20 + 7 <= usize::MAX,
        ensures
            data@.len() < 3 ==> r == Err::<Self, Error>(Error::InvalidMessage),
            data@.len() >= 3 && !header_parity_ok(data@) ==> r == Err::<Self, Error>(Error::WordIsInvalid),
            data@.len() >= 3 && header_parity_ok(data@) ==> exists|h: T|
                #![trigger h.spec_word_type()]
                h.spec_value() == be_value(Packet::spec_read(data@, 0).body)
                && h.spec_parity() == Packet::spec_read(data@, 0).parity
                && Self::is_outcome(r, read_outcome(data@, h.spec_word_type(), h.spec_count(), WORDS as nat)),
    {
        let min: usize = 3;

        if data.len() < min {
            return Err(Error::InvalidMessage);
        }
        let estimate = ((data.len() * 8) / 20).saturating_sub(1);

        let packet = match Packet::read(data, 0) {
            Ok(p) => p,
            Err(e) => {
                return Err(e);
            },
        };
        let word: T = match packet.as_word::<T>() {
            Ok(w) => w,
            Err(e) => {
                return Err(e);
            },
        };
        let count = match word.count() {
            Some(c) => c,
            None => estimate,
        };
        let expected = (((count + 1) * 20) + 7) / 8;

        if data.len() < expected {
            return Err(Error::InvalidMessage);
        }
        let ghost hword = word;
        let ghost header = word.spec_word_type();
        let ghost hcount = word.spec_count();
        let mut message = Self::new().with_word(word);
        let ghost start = message.spec_words();
        let ghost start_error = message.spec_error();
        let end = count + 1;
        let mut index: usize = 1;
        while index < end
            invariant
                1 <= index <= end,
                end == count + 1,
                data@.len() >= 3,
                header_parity_ok(data@),
                hword.spec_value() == be_value(Packet::spec_read(data@, 0).body),
                hword.spec_parity() == Packet::spec_read(data@, 0).parity,
                header == hword.spec_word_type(),
                hcount == hword.spec_count(),
                (count + 1) * 20 + 7 <= usize::MAX,
                count == body_count(hcount, data@.len()),
                data@.len() >= bytes_for_words((count + 1) as nat),
                message.wf(),
                start == header_words(header, WORDS as nat),
                start_error == error_after_adding(None, 0, 1, WORDS as nat),
                data_words(data@, (index - 1) as nat) matches Ok(body) && message.spec_words()
                    == words_after_adding(start, body, WORDS as nat) && message.spec_error()
                    == error_after_adding(start_error, start.len(), body.len(), WORDS as nat)
                    && body.len() == index - 1,
            decreases end - index,
        {
            let b = index * 20;
            let i = b / 8;
            let o = b % 8;
            let bytes = &data[i..data.len()];
            let packet = match Packet::read(bytes, o) {
                Ok(p) => p,
                Err(e) => {
                    return Err(e);
                },
            };
            proof {
                assert(bytes@ =~= data@.subrange(word_byte(index as nat) as int, data@.len() as int));
            }
            let word = match DataWord::try_from(packet) {
                Ok(w) => w,
                Err(e) => {
                    proof {
                        lemma_data_words_err(data@, index as nat, count as nat);
                        assert(hword.spec_word_type() == header);
                    }
                    return Err(e);
                },
            };
            let ghost prev = message.spec_words();
            message.add_data(word);
            proof {
                let body = data_words(data@, (index - 1) as nat)->Ok_0;
                let body2 = body.push(WordType::Data(word));
                assert(data_words(data@, index as nat) == Ok::<Seq<WordType>, Error>(body2));
                if start.len() < WORDS {
                    let t1 = vstd::math::min(body.len() as int, WORDS - start.len());
                    let t2 = vstd::math::min(body2.len() as int, WORDS - start.len());
                    if body.len() < WORDS - start.len() {
                        assert(start + body2.take(t2) =~= (start + body.take(t1)).push(WordType::Data(word)));
                    } else {
                        assert(body2.take(t2) =~= body.take(t1));
                    }
                }
            }
            index = index + 1;
        }
        proof {
            assert(hword.spec_word_type() == header);
        }
        Ok(message)
    }

    /// Parse a slice of bytes into a command message
    ///
    /// The word count of the leading command word determines how many
    /// data words are parsed. See [Message::read] for more information.
    pub fn read_command(data: &[u8]) -> (r: Result<Self>)
        requires
            data@.len() <= usize::MAX / 8,
        ensures
            data@.len() < 3 ==> r == Err::<Self, Error>(Error::InvalidMessage),
            data@.len() >= 3 && !header_parity_ok(data@) ==> r == Err::<Self, Error>(Error::WordIsInvalid),
            data@.len() >= 3 && header_parity_ok(data@) ==> ({
                let header = CommandWord::spec_with(
                    Packet::spec_read(data@, 0).body,
                    Packet::spec_read(data@, 0).parity,
                );
                Self::is_outcome(
                    r,
                    read_outcome(data@, WordType::Command(header), header.spec_count(), WORDS as nat),
                )
            }),
    {
        let r = Self::read::<CommandWord>(data);
        proof {
            if data@.len() >= 3 && header_parity_ok(data@) {
                let p = Packet::spec_read(data@, 0);
                let h = choose|h: CommandWord|
                    #![trigger h.spec_word_type()]
                    h.spec_value() == be_value(p.body) && h.spec_parity() == p.parity
                        && Self::is_outcome(r, read_outcome(data@, h.spec_word_type(), h.spec_count(), WORDS as nat));
                CommandWord::lemma_spec_with(p.body, p.parity, h);
            }
        }
        r
    }

    /// Parse a slice of bytes into a status message
    ///
    /// Because status words do not have a word count field, data words are
    /// parsed to the end of the byte slice. See [Message::read] for more
    /// information.
    pub fn read_status(data: &[u8]) -> (r: Result<Self>)
        requires
            data@.len() <= usize::MAX / 8,
        ensures
            data@.len() < 3 ==> r == Err::<Self, Error>(Error::InvalidMessage),
            data@.len() >= 3 && !header_parity_ok(data@) ==> r == Err::<Self, Error>(Error::WordIsInvalid),
            data@.len() >= 3 && header_parity_ok(data@) ==> ({
                let header = StatusWord::spec_with(
                    Packet::spec_read(data@, 0).body,
                    Packet::spec_read(data@, 0).parity,
                );
                Self::is_outcome(
                    r,
                    read_outcome(data@, WordType::Status(header), header.spec_count(), WORDS as nat),
                )
            }),
    {
        let r = Self::read::<StatusWord>(data);
        proof {
            if data@.len() >= 3 && header_parity_ok(data@) {
                let p = Packet::spec_read(data@, 0);
                let h = choose|h: StatusWord|
                    #![trigger h.spec_word_type()]
                    h.spec_value() == be_value(p.body) && h.spec_parity() == p.parity
                        && Self::is_outcome(r, read_outcome(data@, h.spec_word_type(), h.spec_count(), WORDS as nat));
                StatusWord::lemma_spec_with(p.body, p.parity, h);
            }
        }
        r
    }
}


impl Default for Message<MAX_WORDS> {
    fn default() -> (m: Self)
        ensures
            m.wf(),
            m.spec_words() == Seq::<WordType>::empty(),
            m.spec_error() is None,
    {
        Self::new()
    }
}

/// A word whose parity bit makes the number of ones in its value and the
/// bit odd
pub open spec fn odd_ones(word: WordType) -> bool {
    word.spec_parity() <= 1 && (count_ones(word.spec_value()) + word.spec_parity()) % 2 == 1
}

/// A correct parity bit is exactly one that makes the number of ones odd
proof fn lemma_parity_ok_odd(word: WordType)
    ensures
        word_parity_ok(word) <==> odd_ones(word),
{
    crate::errors::law_parity_is_odd(word.spec_value());
}

/// Adding bytes to a message that has room for them adds one data word for
/// every two bytes, and one more for a last single byte: byte `i` is the
/// high byte of added word `i / 2` when `i` is even and its low byte when
/// `i` is odd, a last single byte is followed by a zero byte, and every added
/// word has a parity bit that makes its number of ones odd. The words that
/// were there stay, and no error is recorded.
pub proof fn law_add_bytes(words: Seq<WordType>, error: Option<Error>, data: Seq<u8>, limit: nat)
    requires
        words.len() + (data.len() + 1) / 2 <= limit,
    ensures
        ({
            let added = words_after_adding(words, chunk_words(data), limit);
            &&& added.len() == words.len() + (data.len() + 1) / 2
            &&& added.take(words.len() as int) == words
            &&& forall|i: int|
                0 <= i < data.len() ==> {
                    let w = #[trigger] added[words.len() + i / 2];
                    &&& w is Data
                    &&& odd_ones(w)
                    &&& (i % 2 == 0 ==> high_byte(w.spec_value()) == data[i])
                    &&& (i % 2 == 1 ==> low_byte(w.spec_value()) == data[i])
                }
            &&& data.len() % 2 == 1 ==> low_byte(added[(words.len() + data.len() / 2) as int].spec_value()) == 0
            &&& error_after_adding(error, words.len(), chunk_words(data).len(), limit) == error
        }),
{
    let chunks = chunk_words(data);
    let added = words_after_adding(words, chunks, limit);
    assert(chunks.len() == (data.len() + 1) / 2);
    if words.len() < limit {
        assert(chunks.take(vstd::math::min(chunks.len() as int, limit - words.len())) =~= chunks);
    } else {
        assert(chunks.len() == 0);
        assert(chunks =~= Seq::<WordType>::empty());
        assert(words + chunks =~= words);
    }
    assert(added =~= words + chunks);
    assert(added.take(words.len() as int) =~= words);
    assert forall|k: int| 0 <= k < chunks.len() implies #[trigger] chunks[k] is Data && odd_ones(
        chunks[k],
    ) && chunks[k]->Data_0.spec_value() == be_value(chunk_bytes(data, k)) by {
        let b = chunk_bytes(data, k);
        DataWord::lemma_spec_with(b, parity_of(be_value(b)), DataWord::spec_with(b, parity_of(be_value(b))));
        lemma_parity_ok_odd(chunks[k]);
    }
    assert forall|i: int| 0 <= i < data.len() implies {
        let w = #[trigger] added[words.len() + i / 2];
        &&& w is Data
        &&& odd_ones(w)
        &&& (i % 2 == 0 ==> high_byte(w.spec_value()) == data[i])
        &&& (i % 2 == 1 ==> low_byte(w.spec_value()) == data[i])
    } by {
        let k = i / 2;
        assert(added[words.len() + k] == chunks[k]);
        crate::word::words::law_bytes_value_roundtrip(chunk_bytes(data, k), 0);
    }
    if data.len() % 2 == 1 {
        let k = data.len() / 2;
        assert(added[words.len() + k as int] == chunks[k as int]);
        crate::word::words::law_bytes_value_roundtrip(chunk_bytes(data, k as int), 0);
    }
}

/// Reading a message that records no error gives the header word and then
/// the data words it asks for: as many as its count says, or, for a header
/// without a count (a status word), every whole 20-bit word that fits in
/// the bytes after it.
pub proof fn law_read_word_count(
    data: Seq<u8>,
    header: WordType,
    count: Option<usize>,
    limit: nat,
    words: Seq<WordType>,
)
    requires
        !(header is Empty),
        read_outcome(data, header, count, limit) == Ok::<(Seq<WordType>, Option<Error>), Error>(
            (words, None::<Error>),
        ),
    ensures
        words.len() >= 1,
        words[0] == header,
        count is None ==> words.len() * 20 <= data.len() * 8 < words.len() * 20 + 20,
        count matches Some(c) ==> words.len() == c + 1,
{
    let n = body_count(count, data.len());
    let body = data_words(data, n)->Ok_0;
    lemma_read_packets(data, n);
    assert(limit > 0);
    assert(header_words(header, limit) == seq![header]);
    assert(1 + body.len() <= limit);
    assert(body.take(vstd::math::min(body.len() as int, limit - 1)) =~= body);
    assert(words =~= seq![header] + body);
    assert(data.len() >= bytes_for_words(n + 1));
}

/// Every data word after the first word of a sequence makes the number of
/// data words one less than the number of words
proof fn lemma_data_count_rest(words: Seq<WordType>)
    requires
        words.len() >= 1,
        !(words[0] is Data),
        forall|i: int| 1 <= i < words.len() ==> #[trigger] words[i] is Data,
    ensures
        data_count(words) == words.len() - 1,
    decreases words.len(),
{
    if words.len() > 1 {
        lemma_data_count_rest(words.drop_last());
        assert(words.last() is Data);
    } else {
        assert(data_count(words.drop_last()) == 0);
        assert(words.last() == words[0]);
    }
}

/// A message that starts with a command word followed by data words only,
/// each word with a parity bit that makes its number of ones odd, is valid
/// exactly when the number of data words is the command's word count (the
/// low five bits of its value, where 0 stands for 32); otherwise its
/// validation fails with [Error::InvalidMessage].
pub proof fn law_validate_command_message(words: Seq<WordType>)
    requires
        words.len() >= 1,
        words[0] is Command,
        forall|i: int| 1 <= i < words.len() ==> #[trigger] words[i] is Data,
        forall|i: int| 0 <= i < words.len() ==> odd_ones(#[trigger] words[i]),
    ensures
        validation(words, None) == if words.len() - 1 == (if words[0].spec_value() & 0x1f == 0 {
            32
        } else {
            words[0].spec_value() & 0x1f
        }) {
            Ok::<(), Error>(())
        } else {
            Err::<(), Error>(Error::InvalidMessage)
        },
{
    lemma_data_count_rest(words);
    assert forall|i: int| 0 <= i < words.len() implies word_parity_ok(#[trigger] words[i]) by {
        lemma_parity_ok_odd(words[i]);
    }
    let v = words[0].spec_value();
    assert(field_value(COMMAND_WORD_COUNT, 0, v) == (v & 0x1f) as u8) by (bit_vector);
    assert((v & 0x1f) < 32) by (bit_vector);
}

/// A message that starts with a status word followed by data words only,
/// each word with a parity bit that makes its number of ones odd, is valid,
/// whatever the number of data words.
pub proof fn law_validate_status_message(words: Seq<WordType>)
    requires
        words.len() >= 1,
        words[0] is Status,
        forall|i: int| 1 <= i < words.len() ==> #[trigger] words[i] is Data,
        forall|i: int| 0 <= i < words.len() ==> odd_ones(#[trigger] words[i]),
    ensures
        validation(words, None) == Ok::<(), Error>(()),
{
    lemma_data_count_rest(words);
    assert forall|i: int| 0 <= i < words.len() implies word_parity_ok(#[trigger] words[i]) by {
        lemma_parity_ok_odd(words[i]);
    }
}

} // verus!
