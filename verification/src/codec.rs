//! Wire protocol codec for network-attached auxiliary devices.
//!
//! Each UDP datagram carries one frame: a magic byte, a type code, and a
//! payload. A state frame (`0x00`) carries exactly one big-endian 32-bit
//! word per configured channel — the IEEE-754 bit pattern of that channel's
//! sample. An error frame (`0x01`) carries a single status byte, with `0xFF`
//! substituted when the byte is absent.

use vstd::prelude::*;

verus! {

/// First byte of every well-formed frame.
pub const MAGIC: u8 = 0xDE;

/// Type code of a state frame.
pub const STATE_CODE: u8 = 0x00;

/// Type code of an error frame.
pub const ERROR_CODE: u8 = 0x01;

/// Status byte reported for an error frame whose status byte is missing.
pub const DEFAULT_STATUS: u8 = 0xFF;

/// One decoded frame. A state frame holds one 32-bit word per channel, in
/// channel order; each word is the big-endian bit pattern of the channel's
/// 32-bit floating-point sample.
#[derive(Clone, Debug, PartialEq)]
pub enum Message {
    State(Vec<u32>),
    Error(u8),
}

/// Why a buffer failed to decode.
#[derive(Clone, Debug, PartialEq)]
pub enum ProtocolError {
    /// The buffer is empty or its first byte is not the magic byte.
    BadMagic,
    /// The magic byte is present but the type code is missing.
    MissingCode,
    /// A state frame whose payload is not exactly four bytes per channel.
    LengthMismatch { expected: usize, got: usize },
    /// A type code that is neither the state code nor the error code.
    UnsupportedCode(u8),
}

/// The 32-bit word formed by four bytes in big-endian order.
pub open spec fn word_of_bytes(b0: u8, b1: u8, b2: u8, b3: u8) -> u32 {
    ((b0 as u32) << 24) | ((b1 as u32) << 16) | ((b2 as u32) << 8) | (b3 as u32)
}

/// Byte `j` (0 through 3) of a 32-bit word, in big-endian order.
pub open spec fn byte_of_word(w: u32, j: int) -> u8 {
    if j == 0 {
        (w >> 24) as u8
    } else if j == 1 {
        (w >> 16) as u8
    } else if j == 2 {
        (w >> 8) as u8
    } else {
        w as u8
    }
}

/// The `n` payload words of a state frame, read big-endian from byte 2 on.
pub open spec fn payload_words(frame: Seq<u8>, n: nat) -> Seq<u32> {
    Seq::new(n, |i: int| word_of_bytes(
        frame[2 + 4 * i],
        frame[3 + 4 * i],
        frame[4 + 4 * i],
        frame[5 + 4 * i],
    ))
}

/// The state frame that encodes the given words: magic byte, state code,
/// then four big-endian bytes per word.
pub open spec fn state_frame(words: Seq<u32>) -> Seq<u8> {
    seq![MAGIC, STATE_CODE] + Seq::new(4 * words.len(), |i: int| byte_of_word(words[i / 4], i % 4))
}

/// Decodes one datagram against the device's configured channel count.
///
/// The postconditions partition all possible buffers: exactly one clause
/// applies to any input, so the result is pinned down completely.
pub fn decode(buf: &Vec<u8>, n_channels: usize) -> (r: Result<Message, ProtocolError>)
    requires
        4 * n_channels + 2 <= usize::MAX,
    ensures
        (r matches Err(ProtocolError::BadMagic)) <==> (buf@.len() == 0 || buf@[0] != MAGIC),
        (r matches Err(ProtocolError::MissingCode)) <==> (buf@.len() == 1 && buf@[0] == MAGIC),
        (buf@.len() >= 2 && buf@[0] == MAGIC && buf@[1] == STATE_CODE && buf@.len() == 2 + 4
            * n_channels) ==> (r matches Ok(Message::State(w)) && w@ == payload_words(
            buf@,
            n_channels as nat,
        )),
        (buf@.len() >= 2 && buf@[0] == MAGIC && buf@[1] == STATE_CODE && buf@.len() != 2 + 4
            * n_channels) ==> (r matches Err(ProtocolError::LengthMismatch { expected, got })
            && expected == 4 * n_channels && got == buf@.len() - 2),
        (buf@.len() >= 2 && buf@[0] == MAGIC && buf@[1] == ERROR_CODE) ==> (r matches Ok(
            Message::Error(status),
        ) && status == (if buf@.len() >= 3 {
            buf@[2]
        } else {
            DEFAULT_STATUS
        })),
        (buf@.len() >= 2 && buf@[0] == MAGIC && buf@[1] != STATE_CODE && buf@[1] != ERROR_CODE)
            ==> (r matches Err(ProtocolError::UnsupportedCode(c)) && c == buf@[1]),
{
    if buf.len() == 0 {
        return Err(ProtocolError::BadMagic);
    }
    if buf[0] != MAGIC {
        return Err(ProtocolError::BadMagic);
    }
    if buf.len() == 1 {
        return Err(ProtocolError::MissingCode);
    }
    let code = buf[1];
    if code == STATE_CODE {
        let expected: usize = 4 * n_channels;
        let got: usize = buf.len() - 2;
        if got != expected {
            return Err(ProtocolError::LengthMismatch { expected, got });
        }
        let mut words: Vec<u32> = Vec::new();
        let mut i: usize = 0;
        while i < n_channels
            invariant
                i <= n_channels,
                buf@.len() == 2 + 4 * n_channels,
                4 * n_channels + 2 <= usize::MAX,
                words@.len() == i as int,
                forall|j: int| 0 <= j < i ==> words@[j] == payload_words(
                    buf@,
                    n_channels as nat,
                )[j],
            decreases n_channels - i,
        {
            let b0 = buf[2 + 4 * i];
            let b1 = buf[3 + 4 * i];
            let b2 = buf[4 + 4 * i];
            let b3 = buf[5 + 4 * i];
            let w: u32 = ((b0 as u32) << 24) | ((b1 as u32) << 16) | ((b2 as u32) << 8) | (
            b3 as u32);
            words.push(w);
            i = i + 1;
        }
        proof {
            assert(words@ =~= payload_words(buf@, n_channels as nat));
        }
        Ok(Message::State(words))
    } else if code == ERROR_CODE {
        let status = if buf.len() >= 3 {
            buf[2]
        } else {
            DEFAULT_STATUS
        };
        Ok(Message::Error(status))
    } else {
        Err(ProtocolError::UnsupportedCode(code))
    }
}

/// Encodes one state frame from the given payload words.
pub fn encode_state(words: &Vec<u32>) -> (frame: Vec<u8>)
    requires
        4 * words@.len() + 2 <= usize::MAX,
    ensures
        frame@ == state_frame(words@),
{
    let mut frame: Vec<u8> = Vec::new();
    frame.push(MAGIC);
    frame.push(STATE_CODE);
    let mut i: usize = 0;
    while i < words.len()
        invariant
            i <= words@.len(),
            4 * words@.len() + 2 <= usize::MAX,
            frame@.len() == 2 + 4 * i,
            frame@[0] == MAGIC,
            frame@[1] == STATE_CODE,
            forall|k: int| 2 <= k < 2 + 4 * i ==> #[trigger] frame@[k] == byte_of_word(
                words@[(k - 2) / 4],
                (k - 2) % 4,
            ),
        decreases words@.len() - i,
    {
        let w = words[i];
        let b0: u8 = #[verifier::truncate] ((w >> 24) as u8);
        let b1: u8 = #[verifier::truncate] ((w >> 16) as u8);
        let b2: u8 = #[verifier::truncate] ((w >> 8) as u8);
        let b3: u8 = #[verifier::truncate] (w as u8);
        frame.push(b0);
        frame.push(b1);
        frame.push(b2);
        frame.push(b3);
        i = i + 1;
    }
    proof {
        assert(frame@ =~= state_frame(words@));
    }
    frame
}

/// Law: the codec round-trips. The frame that encodes any word sequence is a
/// well-formed state frame, and decoding it with the matching channel count
/// yields exactly the words that were encoded.
pub proof fn lemma_state_round_trip(words: Seq<u32>)
    ensures
        state_frame(words).len() == 2 + 4 * words.len(),
        state_frame(words)[0] == MAGIC,
        state_frame(words)[1] == STATE_CODE,
        payload_words(state_frame(words), words.len()) =~= words,
{
    let f = state_frame(words);
    assert forall|i: int| 0 <= i < words.len() implies payload_words(f, words.len())[i]
        == words[i] by {
        let w = words[i];
        assert(f[2 + 4 * i] == byte_of_word(words[(4 * i) / 4], (4 * i) % 4));
        assert(f[3 + 4 * i] == byte_of_word(words[(4 * i + 1) / 4], (4 * i + 1) % 4));
        assert(f[4 + 4 * i] == byte_of_word(words[(4 * i + 2) / 4], (4 * i + 2) % 4));
        assert(f[5 + 4 * i] == byte_of_word(words[(4 * i + 3) / 4], (4 * i + 3) % 4));
        assert((4 * i) / 4 == i && (4 * i) % 4 == 0);
        assert((4 * i + 1) / 4 == i && (4 * i + 1) % 4 == 1);
        assert((4 * i + 2) / 4 == i && (4 * i + 2) % 4 == 2);
        assert((4 * i + 3) / 4 == i && (4 * i + 3) % 4 == 3);
        assert(word_of_bytes((w >> 24) as u8, (w >> 16) as u8, (w >> 8) as u8, w as u8) == w)
            by (bit_vector);
    }
}

} // verus!

