//! What joining the wireless network needs and yields, without the radio:
//! the credentials, checked against the room that the network stack gives
//! them, and the device's identity, written from its hardware address.

use vstd::prelude::*;
use vstd::slice::slice_subrange;
use vstd::string::StringSliceAdditionalSpecFns;
use vstd::utf8::valid_utf8;

verus! {

/// Bytes that a network name may take.
pub const SSID_CAPACITY: usize = 32;

/// Bytes that a passphrase may take.
pub const PASSWORD_CAPACITY: usize = 64;

/// Why credentials were turned down.
#[derive(Clone, Copy, Debug, PartialEq, Eq, Structural)]
pub enum CredentialError {
    /// The bytes hold no terminating zero.
    MissingNul,
    /// The bytes before the terminating zero are not UTF-8.
    NotUtf8,
    /// The network name takes more than `SSID_CAPACITY` bytes.
    SsidTooLong,
    /// The passphrase takes more than `PASSWORD_CAPACITY` bytes.
    PasswordTooLong,
}

/// `heapless::String`, a string in a buffer of `N` bytes. Nothing is known of
/// what is inside but through the names below.
#[verifier::external_type_specification]
#[verifier::external_body]
pub struct ExFixedString<const N: usize>(heapless::String<N>);

/// The text that a `heapless::String<32>` holds, as its `as_str` gives it.
pub uninterp spec fn ssid_text(ssid: heapless::String<32>) -> Seq<char>;

/// The text that a `heapless::String<64>` holds, as its `as_str` gives it.
pub uninterp spec fn password_text(password: heapless::String<64>) -> Seq<char>;

/// `heapless::String::<32>::try_from` copies `text` into a buffer of 32 bytes.
/// It succeeds exactly when the bytes of `text` fit, and the string then
/// holds `text`.
#[verifier::external_body]
fn fixed_ssid(text: &str) -> (r: Option<heapless::String<32>>)
    ensures
        r is Some <==> text.spec_bytes().len() <= 32,
        r matches Some(ssid) ==> ssid_text(ssid) == text@,
{
    heapless::String::try_from(text).ok()
}

/// `heapless::String::<64>::try_from` copies `text` into a buffer of 64 bytes.
/// It succeeds exactly when the bytes of `text` fit, and the string then
/// holds `text`.
#[verifier::external_body]
fn fixed_password(text: &str) -> (r: Option<heapless::String<64>>)
    ensures
        r is Some <==> text.spec_bytes().len() <= 64,
        r matches Some(password) ==> password_text(password) == text@,
{
    heapless::String::try_from(text).ok()
}

/// `core::str::from_utf8` reads `bytes` as text. It succeeds exactly when the
/// bytes are valid UTF-8, and the text then has these very bytes.
#[verifier::external_body]
fn utf8_text(bytes: &[u8]) -> (r: Option<&str>)
    ensures
        r is Some <==> valid_utf8(bytes@),
        r matches Some(text) ==> text.spec_bytes() == bytes@,
{
    core::str::from_utf8(bytes).ok()
}

/// Whether `raw` holds a zero byte at `n` and none before it.
pub open spec fn first_nul_at(raw: Seq<u8>, n: int) -> bool {
    &&& 0 <= n < raw.len()
    &&& raw[n] == 0
    &&& forall|j: int| 0 <= j < n ==> raw[j] != 0
}

/// Whether `raw` holds no zero byte.
pub open spec fn has_no_nul(raw: Seq<u8>) -> bool {
    forall|j: int| 0 <= j < raw.len() ==> raw[j] != 0
}

/// Where the first zero byte of `raw` stands.
pub fn nul_position(raw: &[u8]) -> (r: Option<usize>)
    ensures
        match r {
            Some(n) => first_nul_at(raw@, n as int),
            None => has_no_nul(raw@),
        },
{
    let mut i: usize = 0;
    while i < raw.len()
        invariant
            0 <= i <= raw@.len(),
            forall|j: int| 0 <= j < i ==> raw@[j] != 0,
        decreases raw@.len() - i,
    {
        if raw[i] == 0 {
            return Some(i);
        }
        i += 1;
    }
    None
}

/// The text that `raw` holds before its first zero byte.
pub fn text_until_nul(raw: &[u8]) -> (r: Result<&str, CredentialError>)
    ensures
        match r {
            Ok(text) => exists|n: int|
                first_nul_at(raw@, n) && text.spec_bytes() == raw@.subrange(0, n),
            Err(CredentialError::MissingNul) => has_no_nul(raw@),
            Err(CredentialError::NotUtf8) => exists|n: int|
                first_nul_at(raw@, n) && !valid_utf8(raw@.subrange(0, n)),
            Err(_) => false,
        },
{
    match nul_position(raw) {
        None => Err(CredentialError::MissingNul),
        Some(n) => {
            let body = slice_subrange(raw, 0, n);
            match utf8_text(body) {
                Some(text) => Ok(text),
                None => Err(CredentialError::NotUtf8),
            }
        },
    }
}

/// A network name and its passphrase, each in the buffer that the network
/// stack takes them in.
pub struct WifiCredentials {
    pub ssid: heapless::String<32>,
    pub password: heapless::String<64>,
}

impl WifiCredentials {
    /// Puts `ssid` and `pass` into their buffers. A name that does not fit is
    /// reported before a passphrase that does not.
    pub fn new(ssid: &str, pass: &str) -> (r: Result<WifiCredentials, CredentialError>)
        ensures
            match r {
                Ok(credentials) => {
                    &&& ssid.spec_bytes().len() <= SSID_CAPACITY
                    &&& pass.spec_bytes().len() <= PASSWORD_CAPACITY
                    &&& ssid_text(credentials.ssid) == ssid@
                    &&& password_text(credentials.password) == pass@
                },
                Err(CredentialError::SsidTooLong) => ssid.spec_bytes().len() > SSID_CAPACITY,
                Err(CredentialError::PasswordTooLong) => {
                    &&& ssid.spec_bytes().len() <= SSID_CAPACITY
                    &&& pass.spec_bytes().len() > PASSWORD_CAPACITY
                },
                Err(_) => false,
            },
    {
        match fixed_ssid(ssid) {
            None => Err(CredentialError::SsidTooLong),
            Some(name) => match fixed_password(pass) {
                None => Err(CredentialError::PasswordTooLong),
                Some(password) => Ok(WifiCredentials { ssid: name, password }),
            },
        }
    }
}

/// The upper-case hexadecimal digit of a value below 16.
pub open spec fn hex_upper(nibble: int) -> char {
    "0123456789ABCDEF"@[nibble]
}

/// A byte as two upper-case hexadecimal digits.
pub open spec fn octet_text(byte: u8) -> Seq<char> {
    seq![hex_upper(byte as int / 16), hex_upper(byte as int % 16)]
}

/// A hardware address as six octets with colons between them.
pub open spec fn mac_text(mac: Seq<u8>) -> Seq<char> {
    octet_text(mac[0]) + seq![':'] + octet_text(mac[1]) + seq![':'] + octet_text(mac[2]) + seq![
        ':',
    ] + octet_text(mac[3]) + seq![':'] + octet_text(mac[4]) + seq![':'] + octet_text(mac[5])
}

/// The upper-case hexadecimal digit of `nibble`, as text.
fn hex_digit(nibble: u8) -> (digit: &'static str)
    requires
        nibble < 16,
    ensures
        digit@ == seq![hex_upper(nibble as int)],
{
    proof {
        reveal_strlit("0123456789ABCDEF");
        reveal_strlit("0");
        reveal_strlit("1");
        reveal_strlit("2");
        reveal_strlit("3");
        reveal_strlit("4");
        reveal_strlit("5");
        reveal_strlit("6");
        reveal_strlit("7");
        reveal_strlit("8");
        reveal_strlit("9");
        reveal_strlit("A");
        reveal_strlit("B");
        reveal_strlit("C");
        reveal_strlit("D");
        reveal_strlit("E");
        reveal_strlit("F");
    }
    let digit = match nibble {
        0 => "0",
        1 => "1",
        2 => "2",
        3 => "3",
        4 => "4",
        5 => "5",
        6 => "6",
        7 => "7",
        8 => "8",
        9 => "9",
        10 => "A",
        11 => "B",
        12 => "C",
        13 => "D",
        14 => "E",
        _ => "F",
    };
    assert(digit@ =~= seq![hex_upper(nibble as int)]);
    digit
}

/// Appends the two digits of `byte`.
fn push_octet(text: &mut String, byte: u8)
    ensures
        final(text)@ == old(text)@ + octet_text(byte),
{
    text.append(hex_digit(byte / 16));
    text.append(hex_digit(byte % 16));
    assert(text@ =~= old(text)@ + octet_text(byte));
}

/// Appends the colon that stands between two octets.
fn push_colon(text: &mut String)
    ensures
        final(text)@ == old(text)@ + seq![':'],
{
    proof {
        reveal_strlit(":");
    }
    text.append(":");
    assert(text@ =~= old(text)@ + seq![':']);
}

/// The identity under which the device presents itself: its hardware address
/// in upper-case hexadecimal, such as `24:6F:28:0A:1B:FF`.
pub fn device_identity(mac: &[u8; 6]) -> (identity: String)
    ensures
        identity@ == mac_text(mac@),
        identity@.len() == 17,
{
    let mut identity = String::new();
    push_octet(&mut identity, mac[0]);
    push_colon(&mut identity);
    push_octet(&mut identity, mac[1]);
    push_colon(&mut identity);
    push_octet(&mut identity, mac[2]);
    push_colon(&mut identity);
    push_octet(&mut identity, mac[3]);
    push_colon(&mut identity);
    push_octet(&mut identity, mac[4]);
    push_colon(&mut identity);
    push_octet(&mut identity, mac[5]);
    assert(identity@ =~= mac_text(mac@));
    identity
}

} // verus!
