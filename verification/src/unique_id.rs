//! The identifier that the ranks of a communicator share before they meet.
//!
//! One rank asks NCCL for an identifier and passes it to the others as base64
//! text; each rank decodes the text and initialises its communicator with the
//! bytes.
use vstd::prelude::*;

verus! {

/// The size of an `ncclUniqueId`.
pub const NCCL_UNIQUE_ID_BYTES: usize = 128;

/// Why a text is no base64.
#[derive(Clone, Copy, Debug, PartialEq, Eq, Structural)]
pub enum Base64Error {
    /// The byte at this offset does not belong there.
    InvalidByte(usize, u8),
    /// No base64 text has this length.
    InvalidLength,
    /// The last symbol, at this offset, sets bits that no byte takes up.
    InvalidLastSymbol(usize, u8),
}

/// Why a text stands for no identifier.
#[derive(Clone, Copy, Debug, PartialEq, Eq, Structural)]
pub enum UniqueIdError {
    /// The text is no base64.
    Encoding(Base64Error),
    /// The text stands for this many bytes, too few for an identifier.
    TooShort(usize),
}

/// What `base64::encode` returns for these bytes.
pub uninterp spec fn base64_encoded(bytes: Seq<u8>) -> Seq<char>;

/// What `base64::decode` returns for this text.
pub uninterp spec fn base64_decoded(text: Seq<char>) -> Result<Seq<u8>, Base64Error>;

/// The bytes themselves in place of the vector that holds them.
pub open spec fn content<E>(bytes: Result<Vec<u8>, E>) -> Result<Seq<u8>, E> {
    match bytes {
        Ok(held) => Ok(held@),
        Err(error) => Err(error),
    }
}

/// A character of the standard base64 alphabet.
pub open spec fn base64_symbol(c: char) -> bool {
    'A' <= c <= 'Z' || 'a' <= c <= 'z' || '0' <= c <= '9' || c == '+' || c == '/'
}

/// The shape of a text for `size` bytes: four characters for every three
/// bytes that are begun, all of them symbols but for the padding at the end,
/// one `=` for each byte that the last three lack.
pub open spec fn padded_base64(text: Seq<char>, size: nat) -> bool {
    let symbols = text.len() - (3 - size % 3) % 3;
    &&& text.len() == (size + 2) / 3 * 4
    &&& forall|i: int| 0 <= i < symbols ==> base64_symbol(#[trigger] text[i])
    &&& forall|i: int| symbols <= i < text.len() ==> #[trigger] text[i] == '='
}

/// Encodes bytes with `base64::encode`: the standard alphabet, padded.
///
/// The text is a function of the bytes, it has the shape of base64 for that
/// many bytes, and `base64::decode` turns it back into them. The bound leaves room for the text, a third longer than the
/// bytes, in one allocation.
#[verifier::external_body]
fn encode_base64(bytes: &[u8]) -> (text: String)
    requires
        bytes@.len() <= isize::MAX / 2,
    ensures
        text@ == base64_encoded(bytes@),
        padded_base64(text@, bytes@.len()),
        base64_decoded(text@) is Ok,
        base64_decoded(text@)->Ok_0 == bytes@,
{
    base64::encode(bytes)
}

/// Decodes a text with `base64::decode`: the standard alphabet, the padding
/// optional.
///
/// The bytes, or the error and the place it reports, are a function of the
/// text.
#[verifier::external_body]
fn decode_base64(text: &str) -> (bytes: Result<Vec<u8>, Base64Error>)
    ensures
        content(bytes) == base64_decoded(text@),
{
    match base64::decode(text) {
        Ok(decoded) => Ok(decoded),
        Err(base64::DecodeError::InvalidByte(offset, byte)) => Err(Base64Error::InvalidByte(offset, byte)),
        Err(base64::DecodeError::InvalidLength) => Err(Base64Error::InvalidLength),
        Err(base64::DecodeError::InvalidLastSymbol(offset, byte)) => Err(
            Base64Error::InvalidLastSymbol(offset, byte),
        ),
    }
}

/// The byte that has the same bits as a C `char`.
pub open spec fn char_bits(c: i8) -> u8 {
    if c >= 0 {
        c as u8
    } else {
        (c + 256) as u8
    }
}

/// The bytes of an identifier that NCCL filled in as C `char`s.
pub open spec fn id_bytes(chars: Seq<i8>) -> Seq<u8> {
    chars.map_values(|c: i8| char_bits(c))
}

/// The identifier in what was decoded: the leading bytes, if there are enough
/// of them. What follows them plays no role.
pub open spec fn leading_id(decoded: Result<Seq<u8>, Base64Error>) -> Result<
    Seq<u8>,
    UniqueIdError,
> {
    match decoded {
        Ok(bytes) => if bytes.len() >= NCCL_UNIQUE_ID_BYTES {
            Ok(bytes.take(NCCL_UNIQUE_ID_BYTES as int))
        } else {
            Err(UniqueIdError::TooShort(bytes.len() as usize))
        },
        Err(error) => Err(UniqueIdError::Encoding(error)),
    }
}

/// Takes the identifier out of what `base64::decode` returned.
pub fn take_unique_id(decoded: Result<Vec<u8>, Base64Error>) -> (id: Result<
    Vec<u8>,
    UniqueIdError,
>)
    ensures
        content(id) == leading_id(content(decoded)),
{
    match decoded {
        Ok(mut bytes) => {
            if bytes.len() >= NCCL_UNIQUE_ID_BYTES {
                bytes.truncate(NCCL_UNIQUE_ID_BYTES);
                Ok(bytes)
            } else {
                Err(UniqueIdError::TooShort(bytes.len()))
            }
        },
        Err(error) => Err(UniqueIdError::Encoding(error)),
    }
}

/// Reads an identifier from its text.
pub(crate) fn decode_unique_id(text: &str) -> (id: Result<Vec<u8>, UniqueIdError>)
    ensures
        content(id) == leading_id(base64_decoded(text@)),
{
    take_unique_id(decode_base64(text))
}

/// Writes an identifier as text that [`decode_unique_id`] reads back.
pub(crate) fn encode_unique_id(chars: &[i8; NCCL_UNIQUE_ID_BYTES]) -> (text: String)
    ensures
        text@ == base64_encoded(id_bytes(chars@)),
        padded_base64(text@, NCCL_UNIQUE_ID_BYTES as nat),
        base64_decoded(text@) is Ok,
        base64_decoded(text@)->Ok_0 == id_bytes(chars@),
        leading_id(base64_decoded(text@)) is Ok,
        leading_id(base64_decoded(text@))->Ok_0 == id_bytes(chars@),
{
    let mut bytes: Vec<u8> = Vec::new();
    let mut next: usize = 0;
    while next < NCCL_UNIQUE_ID_BYTES
        invariant
            next <= NCCL_UNIQUE_ID_BYTES,
            bytes@ == id_bytes(chars@).take(next as int),
        decreases NCCL_UNIQUE_ID_BYTES - next,
    {
        let c: i8 = chars[next];
        let byte: u8 = #[verifier::truncate]
        (c as u8);
        assert(byte == char_bits(c)) by {
            assert(c < 0i8 ==> c as u8 == c + 256) by (bit_vector);
        }
        bytes.push(byte);
        next = next + 1;
    }
    assert(id_bytes(chars@).take(NCCL_UNIQUE_ID_BYTES as int) =~= id_bytes(chars@));
    encode_base64(bytes.as_slice())
}

} // verus!
