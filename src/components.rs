use vstd::prelude::*;
use base64::Engine;

verus! {

#[verifier::external_type_specification]
#[verifier::external_body]
pub struct ExDecodeError(base64::DecodeError);

/// The padded, standard-alphabet base64 text of some bytes.
pub uninterp spec fn base64_text(b: Seq<u8>) -> Seq<char>;

/// The bytes that a text decodes to as padded, standard-alphabet base64, if
/// it is such text.
pub uninterp spec fn base64_bytes(s: Seq<char>) -> Option<Seq<u8>>;

/// Relies on base64's STANDARD engine `encode`: the padded base64 text of
/// the bytes, four characters for each started group of three bytes. It
/// panics only when that length overflows, which the bound rules out.
#[verifier::external_body]
fn encode_base64(bytes: &Vec<u8>) -> (r: String)
    requires
        bytes@.len() <= usize::MAX / 2,
    ensures
        r@ == base64_text(bytes@),
        r@.len() == 4 * ((bytes@.len() + 2) / 3),
{
    base64::engine::general_purpose::STANDARD.encode(bytes)
}

/// Relies on base64's STANDARD engine `decode`: the decoded bytes, or an
/// error when the text is not padded, standard-alphabet base64.
#[verifier::external_body]
fn decode_base64(text: &str) -> (r: Result<Vec<u8>, base64::DecodeError>)
    ensures
        r matches Ok(v) ==> base64_bytes(text@) == Some(v@),
        r is Err ==> base64_bytes(text@) is None,
{
    base64::engine::general_purpose::STANDARD.decode(text)
}

/// Why the metadata of a message component could not be read.
#[derive(Clone, Copy, Debug, PartialEq, Eq, Structural)]
pub enum ComponentError {
    /// The component's custom id is not base64 text.
    InvalidCustomId,
}

/// The custom id that carries a component's serialized metadata: its base64
/// text.
pub fn proto_to_custom_id(proto_bytes: &Vec<u8>) -> (r: String)
    requires
        proto_bytes@.len() <= usize::MAX / 2,
    ensures
        r@ == base64_text(proto_bytes@),
        r@.len() == 4 * ((proto_bytes@.len() + 2) / 3),
{
    encode_base64(proto_bytes)
}

/// The serialized metadata that a component's custom id carries.
pub fn custom_id_metadata(custom_id: &str) -> (r: Result<Vec<u8>, ComponentError>)
    ensures
        match base64_bytes(custom_id@) {
            Some(b) => r matches Ok(v) && v@ == b,
            None => r == Err::<Vec<u8>, ComponentError>(ComponentError::InvalidCustomId),
        },
{
    match decode_base64(custom_id) {
        Ok(v) => Ok(v),
        Err(_) => Err(ComponentError::InvalidCustomId),
    }
}

} // verus!
