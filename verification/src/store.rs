use crate::pubkey::Pubkey;
use crate::state::Config;
use crate::text::byte_len;
use vstd::bytes::*;
use vstd::prelude::*;
use vstd::slice::*;
use vstd::string::*;
use vstd::utf8::*;

verus! {

/// The number of bytes of the tag that tells what kind of record an account
/// holds.
pub const DISCRIMINATOR_LENGTH: usize = 8;

/// A text as it is stored: the number of its bytes in four bytes, lowest
/// first, and then the bytes.
pub open spec fn prefixed(text: Seq<char>) -> Seq<u8> {
    spec_u32_to_le_bytes(byte_len(text) as u32) + encode_utf8(text)
}

/// A flag as it is stored: one byte, 1 for true and 0 for false.
pub open spec fn flag_byte(flag: bool) -> u8 {
    if flag {
        1
    } else {
        0
    }
}

/// The head of a line store as it is stored: the tag of the record, the
/// authority, the identifier, the symbol, the two flags and the base uri.
pub open spec fn header_bytes(
    discriminator: Seq<u8>,
    authority: Pubkey,
    uuid: Seq<char>,
    symbol: Seq<char>,
    is_mutable: bool,
    retain_authority: bool,
    uri: Seq<char>,
) -> Seq<u8> {
    discriminator + authority@ + prefixed(uuid) + prefixed(symbol) + seq![flag_byte(is_mutable)]
        + seq![flag_byte(retain_authority)] + prefixed(uri)
}

/// The head of the line store that `config` describes.
pub open spec fn config_header(discriminator: Seq<u8>, config: Config) -> Seq<u8> {
    header_bytes(
        discriminator,
        config.authority,
        config.data.uuid@,
        config.data.symbol@,
        config.data.is_mutable,
        config.data.retain_authority,
        config.data.uri@,
    )
}

/// How long a stored text is.
pub proof fn lemma_prefixed_len(text: Seq<char>)
    ensures
        prefixed(text).len() == 4 + byte_len(text),
{
    lemma_auto_spec_u32_to_from_le_bytes();
}

/// Writes down a text with the number of its bytes before it.
fn encode_text(text: &String) -> (out: Vec<u8>)
    requires
        byte_len(text@) <= u32::MAX,
    ensures
        out@ == prefixed(text@),
{
    let bytes = text.as_str().as_bytes();
    let mut out = u32_to_le_bytes(bytes.len() as u32);
    let mut rest = slice_to_vec(bytes);
    out.append(&mut rest);
    out
}

/// Writes down the head of a line store.
pub fn encode_header(discriminator: &[u8; 8], config: &Config) -> (out: Vec<u8>)
    requires
        byte_len(config.data.uuid@) <= u32::MAX,
        byte_len(config.data.symbol@) <= u32::MAX,
        byte_len(config.data.uri@) <= u32::MAX,
    ensures
        out@ == config_header(discriminator@, *config),
{
    let mut out: Vec<u8> = Vec::new();
    let mut i: usize = 0;
    while i < 8
        invariant
            i <= 8,
            out@ == discriminator@.take(i as int),
        decreases 8 - i,
    {
        out.push(discriminator[i]);
        i = i + 1;
    }
    assert(discriminator@.take(8) == discriminator@);
    let mut authority = config.authority.to_vec();
    out.append(&mut authority);
    let mut uuid = encode_text(&config.data.uuid);
    out.append(&mut uuid);
    let mut symbol = encode_text(&config.data.symbol);
    out.append(&mut symbol);
    out.push(if config.data.is_mutable { 1 } else { 0 });
    out.push(if config.data.retain_authority { 1 } else { 0 });
    let mut uri = encode_text(&config.data.uri);
    out.append(&mut uri);
    assert(out@ =~= config_header(discriminator@, *config));
    out
}

/// The bytes of an account once `header` has been written at its start:
/// what stood behind the head stands as it was.
pub open spec fn with_header(data: Seq<u8>, header: Seq<u8>) -> Seq<u8> {
    header + data.skip(header.len() as int)
}

/// Writes `header` at the start of the bytes of an account and touches
/// nothing behind it.
pub fn write_header(data: &mut Vec<u8>, header: &Vec<u8>)
    requires
        header@.len() <= old(data)@.len(),
    ensures
        final(data)@ == with_header(old(data)@, header@),
        final(data)@.len() == old(data)@.len(),
{
    let mut i: usize = 0;
    while i < header.len()
        invariant
            i <= header.len(),
            header@.len() <= data@.len(),
            data@.len() == old(data)@.len(),
            data@ == header@.take(i as int) + old(data)@.skip(i as int),
        decreases header.len() - i,
    {
        data[i] = header[i];
        i = i + 1;
        assert(data@ =~= header@.take(i as int) + old(data)@.skip(i as int));
    }
    assert(header@.take(header.len() as int) == header@);
}

} // verus!
