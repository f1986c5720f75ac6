//! Universally unique identifiers.
//!
//! A job identifier arrives as free text and must parse as a UUID before it
//! is spliced into a request path.  Parsing is delegated to the `uuid` crate
//! behind one trusted wrapper; the canonical hyphenated rendering of the
//! sixteen bytes is verified here.

use vstd::prelude::*;
use vstd::string::StringExecFns;

use crate::json::JsonV;
use crate::json::JsonValue;
use crate::json::fields_view;
use crate::json::get_opt_str;
use crate::json::get_str;
use crate::json::opt_str_field;
use crate::json::str_field;
use crate::numerals::byte_hex;
use crate::numerals::push_byte_hex;

verus! {

/// The sixteen bytes a UUID text stands for, when it parses as one.
pub uninterp spec fn uuid_of(s: Seq<char>) -> Option<Seq<u8>>;

/// Relies on uuid::Uuid::parse_str, a pure parser of the textual UUID forms
/// (simple, hyphenated, urn, braced), and on Uuid::as_bytes, which returns
/// the sixteen bytes of the identifier.
#[verifier::external_body]
pub(crate) fn parse_uuid(s: &str) -> (r: Option<Vec<u8>>)
    ensures
        match r {
            Some(b) => uuid_of(s@) == Some(b@) && b@.len() == 16,
            None => uuid_of(s@) is None,
        },
{
    match uuid::Uuid::parse_str(s) {
        Ok(u) => Some(u.as_bytes().to_vec()),
        Err(_) => None,
    }
}

/// The hyphenated rendering of the first `i` bytes of an identifier:
/// lowercase hexadecimal with a hyphen before bytes four, six, eight and ten.
pub open spec fn hyphenated_prefix(bs: Seq<u8>, i: int) -> Seq<char>
    decreases i,
{
    if i <= 0 {
        Seq::empty()
    } else {
        hyphenated_prefix(bs, i - 1) + (if i - 1 == 4 || i - 1 == 6 || i - 1 == 8 || i - 1
            == 10 {
            seq!['-']
        } else {
            Seq::empty()
        }) + byte_hex(bs[i - 1])
    }
}

/// The canonical hyphenated form of sixteen identifier bytes.
pub open spec fn uuid_hyphenated_of(bs: Seq<u8>) -> Seq<char> {
    hyphenated_prefix(bs, 16)
}

/// Renders sixteen identifier bytes in the canonical hyphenated form.
pub fn uuid_hyphenated(bytes: &Vec<u8>) -> (r: String)
    requires
        bytes@.len() == 16,
    ensures
        r@ == uuid_hyphenated_of(bytes@),
{
    let mut s = String::new();
    let mut i: usize = 0;
    proof {
        assert(s@ =~= hyphenated_prefix(bytes@, 0));
    }
    while i < 16
        invariant
            i <= 16,
            bytes@.len() == 16,
            s@ == hyphenated_prefix(bytes@, i as int),
        decreases 16 - i,
    {
        let ghost before = s@;
        if i == 4 || i == 6 || i == 8 || i == 10 {
            s.append("-");
            proof {
                reveal_strlit("-");
            }
        }
        push_byte_hex(&mut s, bytes[i]);
        proof {
            assert(s@ =~= hyphenated_prefix(bytes@, i + 1));
        }
        i += 1;
    }
    s
}

/// A required string field whose text must parse as a UUID.
pub open spec fn uuid_str_field(fs: Seq<(Seq<char>, JsonV)>, k: Seq<char>) -> Option<Seq<char>> {
    match str_field(fs, k) {
        Some(s) => if uuid_of(s) is Some {
            Some(s)
        } else {
            None
        },
        None => None,
    }
}

/// An optional string field whose text, when present, must parse as a UUID.
pub open spec fn opt_uuid_str_field(fs: Seq<(Seq<char>, JsonV)>, k: Seq<char>) -> Option<
    Option<Seq<char>>,
> {
    match opt_str_field(fs, k) {
        Some(Some(s)) => if uuid_of(s) is Some {
            Some(Some(s))
        } else {
            None
        },
        Some(None) => Some(None),
        None => None,
    }
}

/// Executable counterpart of `uuid_str_field`.
pub fn get_uuid_str(fields: &Vec<(String, JsonValue)>, key: &str) -> (r: Option<String>)
    ensures
        match r {
            Some(s) => uuid_str_field(fields_view(fields@), key@) == Some(s@),
            None => uuid_str_field(fields_view(fields@), key@) is None,
        },
{
    match get_str(fields, key) {
        Some(s) => {
            if parse_uuid(s.as_str()).is_some() {
                Some(s)
            } else {
                None
            }
        },
        None => None,
    }
}

/// Executable counterpart of `opt_uuid_str_field`.
pub fn get_opt_uuid_str(fields: &Vec<(String, JsonValue)>, key: &str) -> (r: Option<
    Option<String>,
>)
    ensures
        match r {
            Some(Some(s)) => opt_uuid_str_field(fields_view(fields@), key@) == Some(Some(s@)),
            Some(None) => opt_uuid_str_field(fields_view(fields@), key@) == Some(
                None::<Seq<char>>,
            ),
            None => opt_uuid_str_field(fields_view(fields@), key@) is None,
        },
{
    match get_opt_str(fields, key) {
        Some(Some(s)) => {
            if parse_uuid(s.as_str()).is_some() {
                Some(Some(s))
            } else {
                None
            }
        },
        Some(None) => Some(None),
        None => None,
    }
}

} // verus!
