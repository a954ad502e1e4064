use vstd::prelude::*;
use vstd::utf8::*;
use borsh::{BorshDeserialize, BorshSerialize};

verus! {

broadcast use vstd::utf8::encode_utf8_decode_utf8;

/// The issuance parameters carried by an instruction payload.
#[derive(Debug)]
pub struct MintConfig {
    /// Supply minted to the recipient, in base units.
    pub initial_supply: u64,
    pub token_name: String,
    pub token_symbol: String,
    /// Reference to off-ledger descriptive content.
    pub token_uri: String,
}

pub struct MintConfigView {
    pub initial_supply: u64,
    pub token_name: Seq<char>,
    pub token_symbol: Seq<char>,
    pub token_uri: Seq<char>,
}

impl View for MintConfig {
    type V = MintConfigView;

    open spec fn view(&self) -> MintConfigView {
        MintConfigView {
            initial_supply: self.initial_supply,
            token_name: self.token_name@,
            token_symbol: self.token_symbol@,
            token_uri: self.token_uri@,
        }
    }
}

/// Little-endian bytes of a 64-bit integer.
pub open spec fn u64_le(v: u64) -> Seq<u8> {
    seq![
        (v & 0xff) as u8,
        ((v >> 8u64) & 0xff) as u8,
        ((v >> 16u64) & 0xff) as u8,
        ((v >> 24u64) & 0xff) as u8,
        ((v >> 32u64) & 0xff) as u8,
        ((v >> 40u64) & 0xff) as u8,
        ((v >> 48u64) & 0xff) as u8,
        ((v >> 56u64) & 0xff) as u8,
    ]
}

/// Little-endian bytes of a 32-bit integer.
pub open spec fn u32_le(v: u32) -> Seq<u8> {
    seq![
        (v & 0xff) as u8,
        ((v >> 8u32) & 0xff) as u8,
        ((v >> 16u32) & 0xff) as u8,
        ((v >> 24u32) & 0xff) as u8,
    ]
}

/// A text fits the format when its UTF-8 length fits the 32-bit prefix.
pub open spec fn text_fits(s: Seq<char>) -> bool {
    encode_utf8(s).len() <= u32::MAX
}

/// A text field: its UTF-8 byte length as a 32-bit little-endian prefix,
/// then the UTF-8 bytes.
pub open spec fn text_field(s: Seq<char>) -> Seq<u8> {
    u32_le(encode_utf8(s).len() as u32) + encode_utf8(s)
}

/// A configuration that the payload format can carry.
pub open spec fn config_valid(c: MintConfigView) -> bool {
    text_fits(c.token_name) && text_fits(c.token_symbol) && text_fits(c.token_uri)
}

/// The payload of a configuration: the supply, then name, symbol and URI.
pub open spec fn payload_bytes(c: MintConfigView) -> Seq<u8> {
    u64_le(c.initial_supply) + (text_field(c.token_name) + (text_field(c.token_symbol)
        + text_field(c.token_uri)))
}

/// The configuration that a payload holds, if it holds one.
pub open spec fn decode_spec(bytes: Seq<u8>) -> Option<MintConfigView> {
    if exists|c: MintConfigView| config_valid(c) && payload_bytes(c) == bytes {
        Some(choose|c: MintConfigView| config_valid(c) && payload_bytes(c) == bytes)
    } else {
        None
    }
}

proof fn lemma_u64_bytes_bounded(a: u64)
    ensures
        (a & 0xff) <= 0xff,
        ((a >> 8u64) & 0xff) <= 0xff,
        ((a >> 16u64) & 0xff) <= 0xff,
        ((a >> 24u64) & 0xff) <= 0xff,
        ((a >> 32u64) & 0xff) <= 0xff,
        ((a >> 40u64) & 0xff) <= 0xff,
        ((a >> 48u64) & 0xff) <= 0xff,
        ((a >> 56u64) & 0xff) <= 0xff,
{
    assert((a & 0xff) <= 0xff) by (bit_vector);
    assert(((a >> 8u64) & 0xff) <= 0xff) by (bit_vector);
    assert(((a >> 16u64) & 0xff) <= 0xff) by (bit_vector);
    assert(((a >> 24u64) & 0xff) <= 0xff) by (bit_vector);
    assert(((a >> 32u64) & 0xff) <= 0xff) by (bit_vector);
    assert(((a >> 40u64) & 0xff) <= 0xff) by (bit_vector);
    assert(((a >> 48u64) & 0xff) <= 0xff) by (bit_vector);
    assert(((a >> 56u64) & 0xff) <= 0xff) by (bit_vector);
}

proof fn lemma_u32_bytes_bounded(a: u32)
    ensures
        (a & 0xff) <= 0xff,
        ((a >> 8u32) & 0xff) <= 0xff,
        ((a >> 16u32) & 0xff) <= 0xff,
        ((a >> 24u32) & 0xff) <= 0xff,
{
    assert((a & 0xff) <= 0xff) by (bit_vector);
    assert(((a >> 8u32) & 0xff) <= 0xff) by (bit_vector);
    assert(((a >> 16u32) & 0xff) <= 0xff) by (bit_vector);
    assert(((a >> 24u32) & 0xff) <= 0xff) by (bit_vector);
}

proof fn lemma_u64_le_injective(a: u64, b: u64)
    requires
        u64_le(a) == u64_le(b),
    ensures
        a == b,
{
    let (sa, sb) = (u64_le(a), u64_le(b));
    lemma_u64_bytes_bounded(a);
    lemma_u64_bytes_bounded(b);
    assert(sa[0] == sb[0] && sa[1] == sb[1] && sa[2] == sb[2] && sa[3] == sb[3]);
    assert(sa[4] == sb[4] && sa[5] == sb[5] && sa[6] == sb[6] && sa[7] == sb[7]);
    assert(a == b) by (bit_vector)
        requires
            (a & 0xff) == (b & 0xff),
            ((a >> 8u64) & 0xff) == ((b >> 8u64) & 0xff),
            ((a >> 16u64) & 0xff) == ((b >> 16u64) & 0xff),
            ((a >> 24u64) & 0xff) == ((b >> 24u64) & 0xff),
            ((a >> 32u64) & 0xff) == ((b >> 32u64) & 0xff),
            ((a >> 40u64) & 0xff) == ((b >> 40u64) & 0xff),
            ((a >> 48u64) & 0xff) == ((b >> 48u64) & 0xff),
            ((a >> 56u64) & 0xff) == ((b >> 56u64) & 0xff),
    ;
}

proof fn lemma_u32_le_injective(a: u32, b: u32)
    requires
        u32_le(a) == u32_le(b),
    ensures
        a == b,
{
    let (sa, sb) = (u32_le(a), u32_le(b));
    lemma_u32_bytes_bounded(a);
    lemma_u32_bytes_bounded(b);
    assert(sa[0] == sb[0] && sa[1] == sb[1] && sa[2] == sb[2] && sa[3] == sb[3]);
    assert(a == b) by (bit_vector)
        requires
            (a & 0xff) == (b & 0xff),
            ((a >> 8u32) & 0xff) == ((b >> 8u32) & 0xff),
            ((a >> 16u32) & 0xff) == ((b >> 16u32) & 0xff),
            ((a >> 24u32) & 0xff) == ((b >> 24u32) & 0xff),
    ;
}

/// A text field followed by anything determines the text and what follows.
proof fn lemma_text_field_prefix(a: Seq<char>, b: Seq<char>, ra: Seq<u8>, rb: Seq<u8>)
    requires
        text_fits(a),
        text_fits(b),
        text_field(a) + ra == text_field(b) + rb,
    ensures
        a == b,
        ra == rb,
{
    let x = text_field(a) + ra;
    let (ea, eb) = (encode_utf8(a), encode_utf8(b));
    assert(x.subrange(0, 4) =~= u32_le(ea.len() as u32));
    assert(x.subrange(0, 4) =~= u32_le(eb.len() as u32));
    lemma_u32_le_injective(ea.len() as u32, eb.len() as u32);
    assert(x.subrange(4, 4 + ea.len() as int) =~= ea);
    assert(x.subrange(4, 4 + eb.len() as int) =~= eb);
    assert(decode_utf8(ea) == a);
    assert(decode_utf8(eb) == b);
    assert(x.subrange(4 + ea.len() as int, x.len() as int) =~= ra);
    assert(x.subrange(4 + eb.len() as int, x.len() as int) =~= rb);
}

/// Two valid configurations with the same payload are the same configuration.
pub proof fn lemma_payload_injective(c: MintConfigView, d: MintConfigView)
    requires
        config_valid(c),
        config_valid(d),
        payload_bytes(c) == payload_bytes(d),
    ensures
        c == d,
{
    let x = payload_bytes(c);
    let rc = text_field(c.token_name) + (text_field(c.token_symbol) + text_field(c.token_uri));
    let rd = text_field(d.token_name) + (text_field(d.token_symbol) + text_field(d.token_uri));
    assert(x.subrange(0, 8) =~= u64_le(c.initial_supply));
    assert(x.subrange(0, 8) =~= u64_le(d.initial_supply));
    lemma_u64_le_injective(c.initial_supply, d.initial_supply);
    assert(x.subrange(8, x.len() as int) =~= rc);
    assert(x.subrange(8, x.len() as int) =~= rd);
    lemma_text_field_prefix(
        c.token_name,
        d.token_name,
        text_field(c.token_symbol) + text_field(c.token_uri),
        text_field(d.token_symbol) + text_field(d.token_uri),
    );
    assert(text_field(c.token_uri) + Seq::empty() =~= text_field(c.token_uri));
    assert(text_field(d.token_uri) + Seq::empty() =~= text_field(d.token_uri));
    lemma_text_field_prefix(
        c.token_symbol,
        d.token_symbol,
        text_field(c.token_uri),
        text_field(d.token_uri),
    );
    lemma_text_field_prefix(c.token_uri, d.token_uri, Seq::empty(), Seq::empty());
}

/// Decoding the payload of a valid configuration gives that configuration back.
pub proof fn lemma_round_trip(c: MintConfigView)
    requires
        config_valid(c),
    ensures
        decode_spec(payload_bytes(c)) == Some(c),
{
    let bytes = payload_bytes(c);
    assert(config_valid(c) && payload_bytes(c) == bytes);
    let d = choose|d: MintConfigView| config_valid(d) && payload_bytes(d) == bytes;
    lemma_payload_injective(c, d);
}

/// Relies on borsh's `BorshDeserialize::try_from_slice` for
/// `(u64, String, String, String)`: it accepts exactly the bytes that hold a
/// little-endian `u64` and three strings, each a `u32` little-endian byte
/// length and that many bytes of valid UTF-8, with nothing left over.
#[verifier::external_body]
fn borsh_decode(bytes: &[u8]) -> (r: Option<MintConfig>)
    ensures
        r matches Some(c) ==> config_valid(c@) && payload_bytes(c@) == bytes@,
        (exists|c: MintConfigView| config_valid(c) && payload_bytes(c) == bytes@) ==> r is Some,
{
    let t = <(u64, String, String, String)>::try_from_slice(bytes).ok()?;
    Some(MintConfig { initial_supply: t.0, token_name: t.1, token_symbol: t.2, token_uri: t.3 })
}

/// Relies on borsh's `BorshSerialize::try_to_vec` for
/// `(u64, &String, &String, &String)`: a little-endian `u64`, then each
/// string as its `u32` little-endian byte length and its UTF-8 bytes. Writing
/// to a `Vec` fails only on a string longer than `u32::MAX` bytes.
#[verifier::external_body]
fn borsh_encode(c: &MintConfig) -> (r: Option<Vec<u8>>)
    requires
        config_valid(c@),
    ensures
        r is Some,
        r.unwrap()@ == payload_bytes(c@),
{
    (c.initial_supply, &c.token_name, &c.token_symbol, &c.token_uri).try_to_vec().ok()
}

/// Decodes an instruction payload. Fails, with nothing else done, exactly
/// when the bytes are not the payload of any configuration.
pub fn decode_config(bytes: &[u8]) -> (r: Option<MintConfig>)
    ensures
        r is Some <==> decode_spec(bytes@) is Some,
        r matches Some(c) ==> decode_spec(bytes@) == Some(c@),
{
    let r = borsh_decode(bytes);
    proof {
        if r is Some {
            lemma_round_trip(r.unwrap()@);
        }
    }
    r
}

/// Whether a string's UTF-8 length fits a 32-bit length prefix.
fn text_fits_exec(s: &String) -> (r: bool)
    ensures
        r == text_fits(s@),
{
    s.as_str().as_bytes().len() <= 0xffff_ffffusize
}

/// Encodes a configuration as an instruction payload. Fails exactly when a
/// text is too long for its 32-bit length prefix.
pub fn encode_config(c: &MintConfig) -> (r: Option<Vec<u8>>)
    ensures
        r is Some <==> config_valid(c@),
        r matches Some(v) ==> v@ == payload_bytes(c@),
{
    if !(text_fits_exec(&c.token_name) && text_fits_exec(&c.token_symbol) && text_fits_exec(
        &c.token_uri,
    )) {
        return None;
    }
    borsh_encode(c)
}

} // verus!
