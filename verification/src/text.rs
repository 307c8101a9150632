//! The two spellings of a garlic address, and their reader.
//!
//! The full spelling shows the whole digest and reads back as the address it
//! was written of. The short spelling is for logs: it shows the first and
//! the last eight bytes of the digest and hides the sixteen between them. It
//! reads back as the one address with these ends, this port and zero bytes
//! in between, which is the address it was written of only where that
//! address has zero bytes there.

use vstd::prelude::*;
use vstd::string::*;
use crate::b64::{base64_bytes, base64_text};
use crate::decimal::{decimal_text, decimal_text_spells, is_digit, parse_port, port_of_text, port_string, port_text_roundtrip};
use crate::garlic_addr::{GarlicAddr, GarlicAddrView};

verus! {

/// Why a text is not a spelling of a garlic address.
#[derive(Clone, Copy, Debug, PartialEq, Eq)]
pub enum AddrParseError {
    /// There is no `:` to part the destination from the port.
    InvalidFormat,
    /// What follows the last `:` is not a port.
    InvalidPort,
    /// What precedes the last `:` is neither the base64 text of 32 bytes nor
    /// the base64 texts of 8 bytes each with three dots between them.
    InvalidDestination,
}

/// The place of the last `c` in `s`.
pub open spec fn last_index_of(s: Seq<char>, c: char) -> Option<int>
    decreases s.len(),
{
    if s.len() == 0 {
        None
    } else if s.last() == c {
        Some(s.len() - 1)
    } else {
        last_index_of(s.drop_last(), c)
    }
}

/// The short spelling made of the base64 text of the first and of the last
/// eight bytes of a digest: the first, three dots, the last, a colon, the
/// port in decimal.
pub open spec fn short_spelling(head: Seq<char>, tail: Seq<char>, port: u16) -> Seq<char> {
    head + seq!['.', '.', '.'] + tail + seq![':'] + decimal_text(port as nat)
}

/// The full spelling made of the base64 text of a digest: the text, a colon,
/// the port in decimal.
pub open spec fn full_spelling(digest: Seq<char>, port: u16) -> Seq<char> {
    digest + seq![':'] + decimal_text(port as nat)
}

/// The short spelling of an address.
pub open spec fn display_text(addr: GarlicAddrView) -> Seq<char> {
    short_spelling(
        base64_text(addr.destination.subrange(0, 8)),
        base64_text(addr.destination.subrange(24, 32)),
        addr.port,
    )
}

/// The full spelling of an address.
pub open spec fn address_text(addr: GarlicAddrView) -> Seq<char> {
    full_spelling(base64_text(addr.destination), addr.port)
}

/// The two parts of a spelling: what precedes the last colon, and the port
/// that follows it.
pub open spec fn spelling_parts(s: Seq<char>) -> Result<(Seq<char>, u16), AddrParseError> {
    match last_index_of(s, ':') {
        None => Err(AddrParseError::InvalidFormat),
        Some(colon) => match port_of_text(s.subrange(colon + 1, s.len() as int)) {
            None => Err(AddrParseError::InvalidPort),
            Some(port) => Ok((s.subrange(0, colon), port)),
        },
    }
}

/// The address of a decoded digest and a port: there is one where the
/// digest was decoded and is 32 bytes long.
pub open spec fn address_of(decoded: Option<Seq<u8>>, port: u16) -> Result<
    GarlicAddrView,
    AddrParseError,
> {
    match decoded {
        Some(destination) if destination.len() == 32 => Ok(GarlicAddrView { destination, port }),
        _ => Err(AddrParseError::InvalidDestination),
    }
}

/// What stands for the sixteen bytes that a short spelling hides: zeros.
pub open spec fn hidden_middle() -> Seq<u8> {
    Seq::new(16, |i: int| 0u8)
}

/// Whether what precedes the colon has the shape of a short spelling: twelve
/// characters, three dots, twelve characters. The base64 text of a whole
/// digest is longer, so the two spellings are never taken for each other.
pub open spec fn is_short_digest(digest: Seq<char>) -> bool {
    &&& digest.len() == 27
    &&& digest[12] == '.'
    &&& digest[13] == '.'
    &&& digest[14] == '.'
}

/// The address of the two decoded ends of a digest and a port: there is one
/// where both ends were decoded and are 8 bytes long, and its digest has
/// zeros between them.
pub open spec fn short_address_of(head: Option<Seq<u8>>, tail: Option<Seq<u8>>, port: u16)
    -> Result<GarlicAddrView, AddrParseError> {
    match (head, tail) {
        (Some(first), Some(last)) if first.len() == 8 && last.len() == 8 => Ok(
            GarlicAddrView { destination: first + hidden_middle() + last, port },
        ),
        _ => Err(AddrParseError::InvalidDestination),
    }
}

/// The address that the short spelling of `addr` stands for: the ends of
/// its digest with zeros between them, and its port.
pub open spec fn shown(addr: GarlicAddrView) -> GarlicAddrView {
    GarlicAddrView {
        destination: addr.destination.subrange(0, 8) + hidden_middle()
            + addr.destination.subrange(24, 32),
        port: addr.port,
    }
}

/// The bytes that a decoding came to, if it came to any.
pub open spec fn bytes_of(decoded: Option<Vec<u8>>) -> Option<Seq<u8>> {
    match decoded {
        Some(bytes) => Some(bytes@),
        None => None,
    }
}

/// What a text reads as. The last colon parts the destination from the port;
/// the port is checked first, then the destination. A destination in the
/// shape of a short spelling has to be the base64 texts of 8 bytes each; any
/// other has to be the base64 text of exactly 32 bytes.
pub open spec fn parse_address_text(s: Seq<char>) -> Result<GarlicAddrView, AddrParseError> {
    match spelling_parts(s) {
        Err(error) => Err(error),
        Ok((digest, port)) => if is_short_digest(digest) {
            short_address_of(
                base64_bytes(digest.subrange(0, 12)),
                base64_bytes(digest.subrange(15, 27)),
                port,
            )
        } else {
            address_of(base64_bytes(digest), port)
        },
    }
}

/// Where `last_index_of` finds a character, the character is there and does
/// not occur further on; where it finds none, there is none.
pub proof fn last_index_of_is_last(s: Seq<char>, c: char)
    ensures
        match last_index_of(s, c) {
            Some(at) => 0 <= at < s.len() && s[at] == c && forall|j: int|
                at < j < s.len() ==> s[j] != c,
            None => forall|j: int| 0 <= j < s.len() ==> s[j] != c,
        },
    decreases s.len(),
{
    if s.len() > 0 && s.last() != c {
        let shorter = s.drop_last();
        last_index_of_is_last(shorter, c);
        match last_index_of(shorter, c) {
            Some(at) => {
                assert(s[at] == shorter[at]);
                assert forall|j: int| at < j < s.len() implies s[j] != c by {
                    if j < shorter.len() {
                        assert(s[j] == shorter[j]);
                    }
                }
            },
            None => {
                assert forall|j: int| 0 <= j < s.len() implies s[j] != c by {
                    if j < shorter.len() {
                        assert(s[j] == shorter[j]);
                    }
                }
            },
        }
    }
}

/// A character that occurs at `at` and nowhere after it is the last one.
pub proof fn last_index_of_found(s: Seq<char>, c: char, at: int)
    requires
        0 <= at < s.len(),
        s[at] == c,
        forall|j: int| at < j < s.len() ==> s[j] != c,
    ensures
        last_index_of(s, c) == Some(at),
{
    last_index_of_is_last(s, c);
}

/// A full spelling parts into the digest text and the port it was made of,
/// whatever the digest text holds.
pub proof fn full_spelling_parts(digest: Seq<char>, port: u16)
    ensures
        spelling_parts(full_spelling(digest, port)) == Ok::<(Seq<char>, u16), AddrParseError>(
            (digest, port),
        ),
{
    let s = full_spelling(digest, port);
    let digits = decimal_text(port as nat);
    let colon = digest.len() as int;
    decimal_text_spells(port as nat);
    port_text_roundtrip(port);
    assert(s[colon] == ':');
    assert forall|j: int| colon < j < s.len() implies s[j] != ':' by {
        assert(s[j] == digits[j - colon - 1]);
        assert(is_digit(digits[j - colon - 1]));
    }
    last_index_of_found(s, ':', colon);
    assert(s.subrange(colon + 1, s.len() as int) =~= digits);
    assert(s.subrange(0, colon) =~= digest);
}

/// A short spelling made of two texts of twelve characters reads as the
/// address of what the two texts decode to.
pub proof fn short_spelling_reads_as_its_ends(head: Seq<char>, tail: Seq<char>, port: u16)
    requires
        head.len() == 12,
        tail.len() == 12,
    ensures
        parse_address_text(short_spelling(head, tail, port)) == short_address_of(
            base64_bytes(head),
            base64_bytes(tail),
            port,
        ),
{
    let digest = head + seq!['.', '.', '.'] + tail;
    full_spelling_parts(digest, port);
    assert(short_spelling(head, tail, port) =~= full_spelling(digest, port));
    assert(is_short_digest(digest));
    assert(digest.subrange(0, 12) =~= head);
    assert(digest.subrange(15, 27) =~= tail);
}

/// What the short spelling of an address stands for keeps the port and both
/// ends of the digest, has zeros in the middle, and is the address itself
/// wherever the address has zeros in the middle.
pub proof fn shown_keeps_the_ends(addr: GarlicAddrView)
    requires
        addr.well_formed(),
    ensures
        shown(addr).well_formed(),
        shown(addr).port == addr.port,
        shown(addr).destination.subrange(0, 8) == addr.destination.subrange(0, 8),
        shown(addr).destination.subrange(8, 24) == hidden_middle(),
        shown(addr).destination.subrange(24, 32) == addr.destination.subrange(24, 32),
        addr.destination.subrange(8, 24) == hidden_middle() <==> shown(addr) == addr,
        short_address_of(
            Some(addr.destination.subrange(0, 8)),
            Some(addr.destination.subrange(24, 32)),
            addr.port,
        ) == Ok::<GarlicAddrView, AddrParseError>(shown(addr)),
{
    let kept = shown(addr).destination;
    assert(kept.subrange(0, 8) =~= addr.destination.subrange(0, 8));
    assert(kept.subrange(8, 24) =~= hidden_middle());
    assert(kept.subrange(24, 32) =~= addr.destination.subrange(24, 32));
    if addr.destination.subrange(8, 24) == hidden_middle() {
        assert forall|i: int| 0 <= i < 32 implies kept[i] == addr.destination[i] by {
            if 8 <= i < 24 {
                assert(addr.destination[i] == addr.destination.subrange(8, 24)[i - 8]);
            }
        }
        assert(kept =~= addr.destination);
    }
}

/// The short spelling of an address reads back as what it stands for, given
/// of the base64 text of either end what is known of every base64 text that
/// was written: that it has four characters for every three bytes begun, and
/// that it reads back as the bytes it was written of.
pub proof fn display_text_reads_back(addr: GarlicAddrView)
    requires
        addr.well_formed(),
        base64_text(addr.destination.subrange(0, 8)).len() == 12,
        base64_text(addr.destination.subrange(24, 32)).len() == 12,
        base64_bytes(base64_text(addr.destination.subrange(0, 8))) == Some(
            addr.destination.subrange(0, 8),
        ),
        base64_bytes(base64_text(addr.destination.subrange(24, 32))) == Some(
            addr.destination.subrange(24, 32),
        ),
    ensures
        parse_address_text(display_text(addr)) == Ok::<GarlicAddrView, AddrParseError>(
            shown(addr),
        ),
        shown(addr).port == addr.port,
        shown(addr).destination.subrange(0, 8) == addr.destination.subrange(0, 8),
        shown(addr).destination.subrange(8, 24) == hidden_middle(),
        shown(addr).destination.subrange(24, 32) == addr.destination.subrange(24, 32),
        addr.destination.subrange(8, 24) == hidden_middle() ==> parse_address_text(
            display_text(addr),
        ) == Ok::<GarlicAddrView, AddrParseError>(addr),
{
    short_spelling_reads_as_its_ends(
        base64_text(addr.destination.subrange(0, 8)),
        base64_text(addr.destination.subrange(24, 32)),
        addr.port,
    );
    shown_keeps_the_ends(addr);
}

/// The short spelling does not depend on the sixteen bytes in the middle of
/// the digest: addresses that differ only there are spelled alike, so no
/// reader can tell from the short spelling which of them was meant.
pub proof fn display_text_hides_the_middle(a: GarlicAddrView, b: GarlicAddrView)
    requires
        a.port == b.port,
        a.destination.subrange(0, 8) == b.destination.subrange(0, 8),
        a.destination.subrange(24, 32) == b.destination.subrange(24, 32),
    ensures
        display_text(a) == display_text(b),
{
}

/// Writes a short spelling from the base64 text of the two ends of a digest.
pub fn write_short_spelling(head: &str, tail: &str, port: u16) -> (text: String)
    ensures
        text@ == short_spelling(head@, tail@, port),
{
    proof {
        reveal_strlit("...");
        reveal_strlit(":");
    }
    let mut text = String::from_str(head);
    text.append("...");
    text.append(tail);
    text.append(":");
    let port = port_string(port);
    text.append(port.as_str());
    assert("..."@ =~= seq!['.', '.', '.']);
    assert(":"@ =~= seq![':']);
    text
}

/// Writes a full spelling from the base64 text of a digest.
pub fn write_full_spelling(digest: &str, port: u16) -> (text: String)
    ensures
        text@ == full_spelling(digest@, port),
{
    proof {
        reveal_strlit(":");
    }
    let mut text = String::from_str(digest);
    text.append(":");
    let port = port_string(port);
    text.append(port.as_str());
    assert(":"@ =~= seq![':']);
    text
}

/// Parts a spelling at its last colon and reads the port behind it.
pub fn split_spelling(s: &str) -> (parts: Result<(&str, u16), AddrParseError>)
    ensures
        match parts {
            Ok((digest, port)) => spelling_parts(s@) == Ok::<(Seq<char>, u16), AddrParseError>(
                (digest@, port),
            ),
            Err(error) => spelling_parts(s@) == Err::<(Seq<char>, u16), AddrParseError>(error),
        },
{
    let chars = chars_of(s);
    let colon = match last_colon(&chars) {
        Some(colon) => colon,
        None => {
            return Err(AddrParseError::InvalidFormat);
        },
    };
    match parse_port(&chars, colon + 1) {
        Some(port) => Ok((s.substring_char(0, colon), port)),
        None => Err(AddrParseError::InvalidPort),
    }
}

/// Parts what precedes the colon into the two ends of a short spelling,
/// where it has the shape of one.
pub fn split_short_digest(digest: &str) -> (ends: Option<(&str, &str)>)
    ensures
        match ends {
            Some((head, tail)) => {
                &&& is_short_digest(digest@)
                &&& head@ == digest@.subrange(0, 12)
                &&& tail@ == digest@.subrange(15, 27)
            },
            None => !is_short_digest(digest@),
        },
{
    let chars = chars_of(digest);
    if chars.len() == 27 && chars[12] == '.' && chars[13] == '.' && chars[14] == '.' {
        Some((digest.substring_char(0, 12), digest.substring_char(15, 27)))
    } else {
        None
    }
}

/// Makes the address of the two decoded ends of a digest and a port.
pub fn short_address_from_decoded(head: Option<Vec<u8>>, tail: Option<Vec<u8>>, port: u16) -> (outcome:
    Result<GarlicAddr, AddrParseError>)
    ensures
        match outcome {
            Ok(addr) => short_address_of(bytes_of(head), bytes_of(tail), port) == Ok::<
                GarlicAddrView,
                AddrParseError,
            >(addr@),
            Err(error) => short_address_of(bytes_of(head), bytes_of(tail), port) == Err::<
                GarlicAddrView,
                AddrParseError,
            >(error),
        },
{
    match (head, tail) {
        (Some(first), Some(last)) => {
            if first.len() == 8 && last.len() == 8 {
                let mut digest = [0u8; 32];
                for i in 0..8
                    invariant
                        first.len() == 8,
                        last.len() == 8,
                        forall|j: int| 0 <= j < i ==> digest@[j] == first@[j],
                        forall|j: int| 8 <= j < 24 ==> digest@[j] == 0,
                        forall|j: int| 0 <= j < i ==> digest@[24 + j] == last@[j],
                {
                    digest[i] = first[i];
                    digest[24 + i] = last[i];
                }
                assert(digest@ =~= first@ + hidden_middle() + last@);
                Ok(GarlicAddr::new(digest, port))
            } else {
                Err(AddrParseError::InvalidDestination)
            }
        },
        _ => Err(AddrParseError::InvalidDestination),
    }
}

/// Makes the address of a decoded digest and a port.
pub fn address_from_decoded(decoded: Option<Vec<u8>>, port: u16) -> (outcome: Result<
    GarlicAddr,
    AddrParseError,
>)
    ensures
        match outcome {
            Ok(addr) => address_of(bytes_of(decoded), port) == Ok::<
                GarlicAddrView,
                AddrParseError,
            >(addr@),
            Err(error) => address_of(bytes_of(decoded), port) == Err::<
                GarlicAddrView,
                AddrParseError,
            >(error),
        },
{
    match decoded {
        Some(bytes) => {
            if bytes.len() == 32 {
                Ok(GarlicAddr::new(digest_of(&bytes), port))
            } else {
                Err(AddrParseError::InvalidDestination)
            }
        },
        None => Err(AddrParseError::InvalidDestination),
    }
}

impl GarlicAddr {
    /// The short spelling of the address, for logs. [`GarlicAddr::parse`]
    /// reads it back as the address with the same port, the same ends of the
    /// digest and zeros between them.
    pub fn display_string(&self) -> (text: String)
        ensures
            text@ == display_text(self@),
            parse_address_text(text@) == Ok::<GarlicAddrView, AddrParseError>(shown(self@)),
    {
        proof {
            self.content_is_well_formed();
        }
        let digest = self.destination();
        let head = crate::b64::encode(&digest[0..8]);
        let tail = crate::b64::encode(&digest[24..32]);
        proof {
            display_text_reads_back(self@);
        }
        write_short_spelling(head.as_str(), tail.as_str(), self.port())
    }

    /// The full spelling of the address. [`GarlicAddr::parse`] reads it back
    /// as this very address.
    pub fn address_string(&self) -> (text: String)
        ensures
            text@ == address_text(self@),
            parse_address_text(text@) == Ok::<GarlicAddrView, AddrParseError>(self@),
    {
        proof {
            self.content_is_well_formed();
        }
        let digest = self.destination();
        let encoded = crate::b64::encode(digest.as_slice());
        proof {
            full_spelling_parts(encoded@, self@.port);
            assert(!is_short_digest(encoded@));
        }
        write_full_spelling(encoded.as_str(), self.port())
    }

    /// Reads a spelling of an address, full or short.
    pub fn parse(s: &str) -> (outcome: Result<GarlicAddr, AddrParseError>)
        ensures
            match outcome {
                Ok(addr) => parse_address_text(s@) == Ok::<GarlicAddrView, AddrParseError>(addr@),
                Err(error) => parse_address_text(s@) == Err::<GarlicAddrView, AddrParseError>(
                    error,
                ),
            },
    {
        match split_spelling(s) {
            Err(error) => Err(error),
            Ok((digest, port)) => match split_short_digest(digest) {
                Some((head, tail)) => {
                    let first = match crate::b64::decode(head) {
                        Ok(bytes) => Some(bytes),
                        Err(_) => None,
                    };
                    let last = match crate::b64::decode(tail) {
                        Ok(bytes) => Some(bytes),
                        Err(_) => None,
                    };
                    short_address_from_decoded(first, last, port)
                },
                None => {
                    let decoded = match crate::b64::decode(digest) {
                        Ok(bytes) => Some(bytes),
                        Err(_) => None,
                    };
                    address_from_decoded(decoded, port)
                },
            },
        }
    }
}

impl core::str::FromStr for GarlicAddr {
    type Err = AddrParseError;

    fn from_str(s: &str) -> (outcome: Result<Self, Self::Err>)
        ensures
            match outcome {
                Ok(addr) => parse_address_text(s@) == Ok::<GarlicAddrView, AddrParseError>(addr@),
                Err(error) => parse_address_text(s@) == Err::<GarlicAddrView, AddrParseError>(
                    error,
                ),
            },
    {
        GarlicAddr::parse(s)
    }
}

/// The characters of a text, in order.
pub(crate) fn chars_of(s: &str) -> (chars: Vec<char>)
    ensures
        chars@ == s@,
{
    let mut chars: Vec<char> = Vec::new();
    for c in it: s.chars()
        invariant
            chars@ == it.seq().take(it.index() as int),
            it.seq() == s@,
    {
        chars.push(c);
    }
    chars
}

/// The place of the last colon among `chars`.
fn last_colon(chars: &Vec<char>) -> (place: Option<usize>)
    ensures
        match place {
            Some(at) => last_index_of(chars@, ':') == Some(at as int) && at < chars.len(),
            None => last_index_of(chars@, ':') is None,
        },
{
    let mut at: usize = chars.len();
    assert(chars@.take(at as int) =~= chars@);
    while at > 0
        invariant
            at <= chars.len(),
            last_index_of(chars@, ':') == last_index_of(chars@.take(at as int), ':'),
        decreases at,
    {
        let ghost prefix = chars@.take(at as int);
        assert(prefix.last() == chars[at - 1]);
        assert(prefix.drop_last() =~= chars@.take(at - 1));
        if chars[at - 1] == ':' {
            return Some(at - 1);
        }
        at = at - 1;
    }
    assert(chars@.take(0).len() == 0);
    None
}

/// Copies 32 bytes into a digest.
pub(crate) fn digest_of(bytes: &Vec<u8>) -> (digest: [u8; 32])
    requires
        bytes.len() == 32,
    ensures
        digest@ == bytes@,
{
    let mut digest = [0u8; 32];
    for i in 0..32
        invariant
            bytes.len() == 32,
            forall|j: int| 0 <= j < i ==> digest@[j] == bytes@[j],
    {
        digest[i] = bytes[i];
    }
    assert(digest@ =~= bytes@);
    digest
}

} // verus!
