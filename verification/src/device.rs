//! The local device: the identifier that it keeps for as long as it is
//! installed, and its name.
//!
//! Reading and writing the file that keeps the identifier, and asking the
//! system for the host name, is left to the caller; what is decided on what
//! was read is decided here.

use crate::numeral::is_digit;
use vstd::prelude::*;
use vstd::string::*;

verus! {

broadcast use vstd::string::group_string_axioms;

/// `std::str::from_utf8`: the text that the bytes encode, where they are
/// valid UTF-8.
#[verifier::external_body]
fn text_of_bytes(bytes: &[u8]) -> (r: Option<&str>)
    ensures
        r is Some <==> vstd::utf8::valid_utf8(bytes@),
        r matches Some(s) ==> s@ == vstd::utf8::decode_utf8(bytes@),
{
    std::str::from_utf8(bytes).ok()
}

/// `uuid::Uuid`, declared so that it can stand in signatures.
#[verifier::external_type_specification]
#[verifier::external_body]
pub struct ExUuid(uuid::Uuid);

/// `uuid::Uuid::new_v4`: a fresh random identifier. Nothing is assumed of
/// the outcome.
#[verifier::external_body]
fn fresh_uuid() -> (r: uuid::Uuid) {
    uuid::Uuid::new_v4()
}

/// The `Display` of `uuid::Uuid`: the identifier in lower-case hexadecimal
/// digits, in five groups with hyphens between them.
#[verifier::external_body]
fn uuid_text(id: &uuid::Uuid) -> (r: String)
    ensures
        is_hyphenated(r@, '-'),
{
    id.to_string()
}

/// A lower-case hexadecimal digit.
pub open spec fn is_hex(c: char) -> bool {
    is_digit(c) || ('a' <= c && c <= 'f')
}

/// The form of a random identifier: five groups of 8, 4, 4, 4 and 12
/// hexadecimal digits, with `sep` between them.
pub open spec fn is_hyphenated(s: Seq<char>, sep: char) -> bool {
    &&& s.len() == 36
    &&& forall|i: int|
        0 <= i < 36 ==> if i == 8 || i == 13 || i == 18 || i == 23 {
            #[trigger] s[i] == sep
        } else {
            is_hex(s[i])
        }
}

/// The text with every hyphen replaced by an underscore.
pub open spec fn underscored(s: Seq<char>) -> Seq<char> {
    Seq::new(
        s.len(),
        |i: int|
            if s[i] == '-' {
                '_'
            } else {
                s[i]
            },
    )
}

/// The text without the NUL characters at its end.
pub open spec fn without_trailing_nuls(s: Seq<char>) -> Seq<char>
    decreases s.len(),
{
    if s.len() > 0 && s.last() == '\0' {
        without_trailing_nuls(s.drop_last())
    } else {
        s
    }
}

/// The name of a device whose host name could not be asked for.
pub open spec fn default_name() -> Seq<char> {
    "Hyprconnect"@
}

/// The name that stands for a host name that is no text.
pub open spec fn unreadable_name() -> Seq<char> {
    "unknown"@
}

/// The name of the device, from what the system wrote when it was asked
/// for the host name.
pub open spec fn device_name(buffer: Option<Seq<u8>>) -> Seq<char> {
    match buffer {
        Some(bytes) => if vstd::utf8::valid_utf8(bytes) {
            without_trailing_nuls(vstd::utf8::decode_utf8(bytes))
        } else {
            unreadable_name()
        },
        None => default_name(),
    }
}

/// The identifier of a device, and whether it was made just now and has
/// still to be stored.
#[derive(Debug, PartialEq, Eq)]
pub struct DeviceId {
    pub id: String,
    pub fresh: bool,
}

/// The identifier that a device goes by, given what is stored and a fresh
/// identifier to fall back on: what is stored is kept letter for letter;
/// only where nothing is stored, or an empty text, the fresh identifier is
/// taken.
pub open spec fn chosen_id(stored: Option<Seq<char>>, fresh: Seq<char>) -> (Seq<char>, bool) {
    match stored {
        Some(s) => if s.len() > 0 {
            (s, false)
        } else {
            (fresh, true)
        },
        None => (fresh, true),
    }
}

/// An identifier that is stored is the identifier of the device, whatever
/// fresh identifier is at hand: asking twice gives the same answer twice.
pub proof fn lemma_stored_id_is_kept(stored: Seq<char>, first: Seq<char>, second: Seq<char>)
    requires
        stored.len() > 0,
    ensures
        chosen_id(Some(stored), first) == (stored, false),
        chosen_id(Some(stored), first) == chosen_id(Some(stored), second),
{
}

/// A fresh identifier, once it is stored, is the identifier of the device
/// from then on: it is found again as it was made, and no other is made in
/// its place.
pub proof fn lemma_fresh_id_is_stable(id: Seq<char>, next: Seq<char>)
    requires
        is_hyphenated(id, '_'),
    ensures
        chosen_id(Some(id), next) == (id, false),
{
}

/// The text with every hyphen replaced by an underscore.
pub fn with_underscores(text: &str) -> (r: String)
    ensures
        r@ == underscored(text@),
{
    let n: usize = text.unicode_len();
    let mut out = String::new();
    let mut i: usize = 0;
    while i < n
        invariant
            0 <= i <= n,
            n == text@.len(),
            out@ == underscored(text@).subrange(0, i as int),
        decreases n - i,
    {
        let c = text.get_char(i);
        if c == '-' {
            out.push('_');
        } else {
            out.push(c);
        }
        assert(out@ =~= underscored(text@).subrange(0, i + 1));
        i = i + 1;
    }
    assert(underscored(text@).subrange(0, n as int) =~= underscored(text@));
    out
}

/// A fresh identifier for a device: a random identifier with underscores
/// between its groups.
pub fn generate_device_id() -> (r: String)
    ensures
        is_hyphenated(r@, '_'),
{
    let uuid = uuid_text(&fresh_uuid());
    let id = with_underscores(uuid.as_str());
    proof {
        assert forall|i: int| 0 <= i < 36 implies if i == 8 || i == 13 || i == 18 || i == 23 {
            #[trigger] id@[i] == '_'
        } else {
            is_hex(id@[i])
        } by {
            assert(uuid@[i] == '-' || is_hex(uuid@[i]));
        }
    }
    id
}

/// The identifier that the device goes by, given what is stored and a
/// fresh identifier to fall back on.
pub fn choose_device_id(stored: Option<&str>, fresh: String) -> (r: DeviceId)
    ensures
        (r.id@, r.fresh) == chosen_id(
            match stored {
                Some(s) => Some(s@),
                None => None,
            },
            fresh@,
        ),
{
    match stored {
        Some(s) => {
            if s.is_empty() {
                DeviceId { id: fresh, fresh: true }
            } else {
                DeviceId { id: s.to_owned(), fresh: false }
            }
        },
        None => DeviceId { id: fresh, fresh: true },
    }
}

/// The identifier that the device goes by, given what is stored (the
/// content of the file that keeps it, where that could be read). A stored
/// identifier that is not empty is kept letter for letter; only where there
/// is none, or an empty one, a fresh identifier is made. Then the result
/// says so, and the caller stores it; failing to store it does not make it
/// invalid.
pub fn load_or_generate_device_id(stored: Option<&str>) -> (r: DeviceId)
    ensures
        match stored {
            Some(s) if s@.len() > 0 => r.id@ == s@ && !r.fresh,
            _ => is_hyphenated(r.id@, '_') && r.fresh,
        },
{
    match stored {
        Some(s) => {
            if !s.is_empty() {
                return DeviceId { id: s.to_owned(), fresh: false };
            }
        },
        None => {},
    }
    DeviceId { id: generate_device_id(), fresh: true }
}

/// The text without the NUL characters at its end.
pub fn strip_trailing_nuls(text: &str) -> (r: String)
    ensures
        r@ == without_trailing_nuls(text@),
{
    let mut end: usize = text.unicode_len();
    assert(text@.subrange(0, end as int) =~= text@);
    while end > 0 && text.get_char(end - 1) == '\0'
        invariant
            0 <= end <= text@.len(),
            without_trailing_nuls(text@) == without_trailing_nuls(text@.subrange(0, end as int)),
        decreases end,
    {
        assert(text@.subrange(0, end as int).drop_last() =~= text@.subrange(0, end - 1));
        end = end - 1;
    }
    let ghost kept = text@.subrange(0, end as int);
    assert(without_trailing_nuls(kept) == kept);
    let mut out = String::new();
    let mut i: usize = 0;
    while i < end
        invariant
            0 <= i <= end <= text@.len(),
            out@ == text@.subrange(0, i as int),
        decreases end - i,
    {
        out.push(text.get_char(i));
        assert(out@ =~= text@.subrange(0, i + 1));
        i = i + 1;
    }
    out
}

/// The name of the device, from what the system wrote when it was asked
/// for the host name: the text up to the NUL characters that fill the rest
/// of the buffer. A host name that is no text gives the name `unknown`; no
/// answer at all gives the name `Hyprconnect`.
pub fn load_device_name(buffer: Option<&[u8]>) -> (name: String)
    ensures
        name@ == device_name(
            match buffer {
                Some(bytes) => Some(bytes@),
                None => None,
            },
        ),
{
    match buffer {
        Some(bytes) => match text_of_bytes(bytes) {
            Some(text) => strip_trailing_nuls(text),
            None => "unknown".to_owned(),
        },
        None => "Hyprconnect".to_owned(),
    }
}

} // verus!
