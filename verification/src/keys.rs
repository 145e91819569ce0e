use vstd::prelude::*;

verus! {

/// Why loading the root key can fail: the configured string is either not
/// hex at all, or hex of the wrong length for a signing key.
#[derive(Clone, Copy, Debug, PartialEq, Eq, Structural)]
pub enum ConfigError {
    InvalidHex,
    WrongKeyLength,
}

/// The byte length of a root signing key.
pub const KEY_LEN: usize = 32;

/// True for the sixteen characters that may appear in a hex encoding,
/// in either case.
pub open spec fn is_hex_digit(c: char) -> bool {
    ('0' <= c && c <= '9') || ('a' <= c && c <= 'f') || ('A' <= c && c <= 'F')
}

/// Numeric value of a hex digit.
pub open spec fn hex_digit_val(c: char) -> u8
    recommends
        is_hex_digit(c),
{
    if '0' <= c && c <= '9' {
        ((c as u32) - ('0' as u32)) as u8
    } else if 'a' <= c && c <= 'f' {
        ((c as u32) - ('a' as u32) + 10) as u8
    } else {
        ((c as u32) - ('A' as u32) + 10) as u8
    }
}

/// A string is a hex encoding when it pairs up evenly and every character
/// is a hex digit.
pub open spec fn is_hex_string(s: Seq<char>) -> bool {
    &&& s.len() % 2 == 0
    &&& forall|i: int| 0 <= i < s.len() ==> is_hex_digit(#[trigger] s[i])
}

/// The bytes that a hex string encodes: two digits per byte, high digit
/// first.
pub open spec fn hex_decoded(s: Seq<char>) -> Seq<u8>
    recommends
        is_hex_string(s),
{
    Seq::new((s.len() / 2) as nat, |i: int| (hex_digit_val(s[2 * i]) * 16 + hex_digit_val(s[2 * i + 1])) as u8)
}

/// Reads one hex digit, rejecting every other character.
pub fn parse_hex_digit(c: char) -> (r: Option<u8>)
    ensures
        r is Some <==> is_hex_digit(c),
        r is Some ==> r->0 == hex_digit_val(c) && r->0 < 16,
{
    if '0' <= c && c <= '9' {
        Some(((c as u32) - ('0' as u32)) as u8)
    } else if 'a' <= c && c <= 'f' {
        Some(((c as u32) - ('a' as u32) + 10) as u8)
    } else if 'A' <= c && c <= 'F' {
        Some(((c as u32) - ('A' as u32) + 10) as u8)
    } else {
        None
    }
}

/// Decodes a hex string into its bytes, accepting exactly the well-formed
/// encodings.
pub fn decode_hex(s: &str) -> (r: Result<Vec<u8>, ConfigError>)
    ensures
        r is Ok <==> is_hex_string(s@),
        r is Ok ==> r->Ok_0@ == hex_decoded(s@),
        r is Err ==> r->Err_0 == ConfigError::InvalidHex,
{
    let n: usize = s.unicode_len();
    if n % 2 != 0 {
        return Err(ConfigError::InvalidHex);
    }
    let mut out: Vec<u8> = Vec::new();
    let mut i: usize = 0;
    while i < n
        invariant
            n == s@.len(),
            n % 2 == 0,
            i % 2 == 0,
            i <= n,
            out@.len() == i / 2,
            forall|j: int| 0 <= j < i ==> is_hex_digit(#[trigger] s@[j]),
            forall|k: int| 0 <= k < out@.len() ==> out@[k] == (hex_digit_val(s@[2 * k]) * 16 + hex_digit_val(s@[2 * k + 1])) as u8,
        decreases n - i,
    {
        let hi = match parse_hex_digit(s.get_char(i)) {
            Some(v) => v,
            None => {
                return Err(ConfigError::InvalidHex);
            },
        };
        let lo = match parse_hex_digit(s.get_char(i + 1)) {
            Some(v) => v,
            None => {
                return Err(ConfigError::InvalidHex);
            },
        };
        out.push(hi * 16 + lo);
        i = i + 2;
    }
    proof {
        assert(out@ =~= hex_decoded(s@));
    }
    Ok(out)
}

/// The process-wide root signing key, held as its raw private-key bytes.
/// The public half used for verification is derived from these bytes by
/// the signing library whenever a token is minted or checked.
pub struct RootKeyPair {
    key: Vec<u8>,
}

impl View for RootKeyPair {
    type V = Seq<u8>;

    closed spec fn view(&self) -> Seq<u8> {
        self.key@
    }
}

impl RootKeyPair {
    /// A loaded key always holds exactly the bytes of one signing key.
    pub open spec fn well_formed(&self) -> bool {
        self@.len() == KEY_LEN
    }

    /// Loads the root keypair from its hex-encoded private key, rejecting
    /// anything that is not hex of exactly the key length. A failure here
    /// is a fatal configuration error for the caller: no token can be
    /// minted or checked without a usable key.
    pub fn from_hex(s: &str) -> (r: Result<RootKeyPair, ConfigError>)
        ensures
            r is Ok <==> is_hex_string(s@) && hex_decoded(s@).len() == KEY_LEN,
            r is Ok ==> r->Ok_0@ == hex_decoded(s@) && r->Ok_0.well_formed(),
            r is Err && is_hex_string(s@) ==> r->Err_0 == ConfigError::WrongKeyLength,
            r is Err && !is_hex_string(s@) ==> r->Err_0 == ConfigError::InvalidHex,
    {
        let bytes = decode_hex(s)?;
        if bytes.len() != KEY_LEN {
            return Err(ConfigError::WrongKeyLength);
        }
        Ok(RootKeyPair { key: bytes })
    }

    /// The raw private-key bytes, for the trusted signing wrappers.
    pub(crate) fn key_bytes(&self) -> (r: &Vec<u8>)
        ensures
            r@ == self@,
    {
        &self.key
    }
}

} // verus!
