//! UTF-8 text held in a shared, immutable byte buffer.

use vstd::prelude::*;
use vstd::std_specs::cmp::PartialOrdSpec;
use vstd::string::StringSliceAdditionalSpecFns;
use vstd::utf8::{decode_utf8, encode_utf8, valid_utf8};

use bytes::Bytes;

use crate::bytes_specs::{bytes_as_slice, bytes_contents, bytes_from_string};

verus! {

broadcast use vstd::utf8::group_utf8_lib;

#[verifier::external_type_specification]
#[verifier::external_body]
pub struct ExUtf8Error(core::str::Utf8Error);

/// Where a UTF-8 check stopped: the length of the valid prefix it found.
pub uninterp spec fn utf8_valid_up_to(e: core::str::Utf8Error) -> usize;

/// Whether the first `k` bytes of `b` are the longest prefix of `b` that is
/// valid UTF-8, short of the whole; byte `k` starts the first invalid sequence.
pub open spec fn is_longest_valid_prefix(b: Seq<u8>, k: int) -> bool {
    &&& 0 <= k < b.len()
    &&& valid_utf8(b.subrange(0, k))
    &&& forall|j: int| k < j <= b.len() ==> !valid_utf8(#[trigger] b.subrange(0, j))
}

/// Relies on `core::str::from_utf8`: `Ok` exactly when the bytes are valid
/// UTF-8, and then the text they encode; otherwise an error whose
/// `valid_up_to` is the largest length of a valid prefix.
pub assume_specification[ core::str::from_utf8 ](v: &[u8]) -> (r: Result<&str, core::str::Utf8Error>)
    ensures
        r is Ok <==> valid_utf8(v@),
        r matches Ok(s) ==> s.spec_bytes() == v@,
        r matches Err(e) ==> is_longest_valid_prefix(v@, utf8_valid_up_to(e) as int),
;

/// Relies on `core::str::Utf8Error::valid_up_to`: the length of the valid
/// prefix that the check found.
pub assume_specification[ core::str::Utf8Error::valid_up_to ](e: &core::str::Utf8Error) -> (r: usize)
    ensures
        r == utf8_valid_up_to(*e),
;

/// The order of byte strings: byte by byte, and a prefix before any longer
/// string.
pub open spec fn byte_order(a: Seq<u8>, b: Seq<u8>) -> core::cmp::Ordering
    decreases a.len(),
{
    if a.len() == 0 {
        if b.len() == 0 {
            core::cmp::Ordering::Equal
        } else {
            core::cmp::Ordering::Less
        }
    } else if b.len() == 0 {
        core::cmp::Ordering::Greater
    } else if a[0] < b[0] {
        core::cmp::Ordering::Less
    } else if a[0] > b[0] {
        core::cmp::Ordering::Greater
    } else {
        byte_order(a.drop_first(), b.drop_first())
    }
}

/// Text stored in a reference-counted byte buffer; the bytes are always
/// valid UTF-8.
#[derive(Eq, Ord)]
pub struct Chars(Bytes);

impl View for Chars {
    type V = Seq<u8>;

    closed spec fn view(&self) -> Seq<u8> {
        bytes_contents(self.0)
    }
}

impl Chars {
    #[verifier::type_invariant]
    spec fn holds_utf8(self) -> bool {
        valid_utf8(bytes_contents(self.0))
    }

    /// A new empty value.
    pub fn new() -> (r: Chars)
        ensures
            r@ == Seq::<u8>::empty(),
    {
        proof {
            assert(valid_utf8(Seq::<u8>::empty()));
        }
        Chars(Bytes::new())
    }

    /// The text that the bytes encode.
    pub open spec fn text(self) -> Seq<char> {
        decode_utf8(self@)
    }

    /// Empties the value, letting go of the buffer it held.
    pub fn clear(&mut self)
        ensures
            final(self)@ == Seq::<u8>::empty(),
    {
        *self = Chars::new();
    }

    /// Takes the bytes if they are valid UTF-8.
    pub fn from_bytes(bytes: Bytes) -> (r: Result<Chars, core::str::Utf8Error>)
        ensures
            r is Ok <==> valid_utf8(bytes_contents(bytes)),
            r matches Ok(c) ==> c@ == bytes_contents(bytes),
            r matches Err(e) ==> is_longest_valid_prefix(
                bytes_contents(bytes),
                utf8_valid_up_to(e) as int,
            ),
    {
        match core::str::from_utf8(bytes_as_slice(&bytes)) {
            Ok(_) => Ok(Chars(bytes)),
            Err(e) => Err(e),
        }
    }

    /// Length in bytes.
    pub fn len(&self) -> (r: usize)
        ensures
            r == self@.len(),
    {
        self.0.len()
    }

    /// Whether there are no bytes.
    pub fn is_empty(&self) -> (r: bool)
        ensures
            r == (self@.len() == 0),
    {
        self.0.is_empty()
    }

    /// Gives up the value and returns its bytes.
    pub fn into_bytes(self) -> (r: Bytes)
        ensures
            bytes_contents(r) == self@,
            valid_utf8(bytes_contents(r)),
    {
        proof {
            use_type_invariant(&self);
        }
        self.0
    }

    /// The text, borrowed.
    pub fn as_str(&self) -> (r: &str)
        ensures
            r@ == self.text(),
            r.spec_bytes() == self@,
            valid_utf8(self@),
    {
        proof {
            use_type_invariant(self);
        }
        // The bytes are valid UTF-8 from construction on, so this check
        // always succeeds and the error arm is never taken.
        match core::str::from_utf8(bytes_as_slice(&self.0)) {
            Ok(s) => s,
            Err(_) => {
                proof {
                    assert(false);
                }
                ""
            },
        }
    }
}

/// What `{:?}` writes for a text: quoted, with special characters escaped.
pub uninterp spec fn debug_text(s: Seq<char>) -> Seq<char>;

/// Relies on `str`'s `Debug`: the quoted, escaped rendering of the text,
/// which depends on the characters alone.
#[verifier::external_body]
fn debug_string(s: &str) -> (r: String)
    ensures
        r@ == debug_text(s@),
{
    format!("{:?}", s)
}

impl Chars {
    /// A value that refers to the bytes of a static text, without copying.
    pub fn from_static_str(s: &'static str) -> (r: Chars)
        ensures
            r@ == s.spec_bytes(),
            r.text() == s@,
    {
        Chars(Bytes::from_static(s.as_bytes()))
    }

    /// A value that takes over the bytes of a string.
    pub fn from_string(s: String) -> (r: Chars)
        ensures
            r@ == encode_utf8(s@),
            r.text() == s@,
    {
        Chars(bytes_from_string(s))
    }

    /// Gives up the value and returns its text as a string.
    pub fn into_string(self) -> (r: String)
        ensures
            r@ == self.text(),
            encode_utf8(r@) == self@,
    {
        self.as_str().to_owned()
    }

    /// The text as a string, as `{}` writes it.
    pub fn to_string(&self) -> (r: String)
        ensures
            r@ == self.text(),
            encode_utf8(r@) == self@,
    {
        self.as_str().to_owned()
    }

    /// The text as `{:?}` writes it: quoted and escaped.
    pub fn to_debug_string(&self) -> (r: String)
        ensures
            r@ == debug_text(self.text()),
    {
        debug_string(self.as_str())
    }
}

impl Clone for Chars {
    /// A new handle to the same buffer.
    fn clone(&self) -> (r: Chars)
        ensures
            r@ == self@,
    {
        proof {
            use_type_invariant(self);
        }
        Chars(self.0.clone())
    }
}

impl Default for Chars {
    fn default() -> (r: Chars)
        ensures
            r@ == Seq::<u8>::empty(),
    {
        Chars::new()
    }
}

/// A value holding valid UTF-8 bytes `b` reads as exactly the text that `b`
/// encodes: its text decodes from `b` and encodes back to `b`.
pub proof fn lemma_text_of_valid_bytes(c: Chars, b: Seq<u8>)
    requires
        valid_utf8(b),
        c@ == b,
    ensures
        c.text() == decode_utf8(b),
        encode_utf8(c.text()) == b,
{
}

/// Whether two byte slices hold the same bytes.
fn same_bytes(a: &[u8], b: &[u8]) -> (r: bool)
    ensures
        r == (a@ == b@),
{
    if a.len() != b.len() {
        return false;
    }
    let mut i: usize = 0;
    while i < a.len()
        invariant
            a@.len() == b@.len(),
            i <= a@.len(),
            forall|j: int| 0 <= j < i ==> a@[j] == b@[j],
        decreases a@.len() - i,
    {
        if a[i] != b[i] {
            return false;
        }
        i = i + 1;
    }
    proof {
        assert(a@ =~= b@);
    }
    true
}

impl PartialEq for Chars {
    fn eq(&self, other: &Chars) -> (r: bool) {
        same_bytes(bytes_as_slice(&self.0), bytes_as_slice(&other.0))
    }
}

impl vstd::std_specs::cmp::PartialEqSpecImpl for Chars {
    open spec fn obeys_eq_spec() -> bool {
        true
    }

    open spec fn eq_spec(&self, other: &Chars) -> bool {
        self@ == other@
    }
}

/// How two byte slices order, byte by byte.
fn compare_bytes(a: &[u8], b: &[u8]) -> (r: core::cmp::Ordering)
    ensures
        r == byte_order(a@, b@),
{
    let mut i: usize = 0;
    proof {
        assert(a@.subrange(0, a@.len() as int) =~= a@);
        assert(b@.subrange(0, b@.len() as int) =~= b@);
    }
    while i < a.len() && i < b.len()
        invariant
            i <= a@.len(),
            i <= b@.len(),
            byte_order(a@, b@) == byte_order(
                a@.subrange(i as int, a@.len() as int),
                b@.subrange(i as int, b@.len() as int),
            ),
        decreases a@.len() - i,
    {
        let x = a[i];
        let y = b[i];
        proof {
            let ra = a@.subrange(i as int, a@.len() as int);
            let rb = b@.subrange(i as int, b@.len() as int);
            assert(ra.drop_first() =~= a@.subrange(i + 1, a@.len() as int));
            assert(rb.drop_first() =~= b@.subrange(i + 1, b@.len() as int));
            assert(ra[0] == x && rb[0] == y);
        }
        if x < y {
            return core::cmp::Ordering::Less;
        }
        if x > y {
            return core::cmp::Ordering::Greater;
        }
        i = i + 1;
    }
    if i < a.len() {
        core::cmp::Ordering::Greater
    } else if i < b.len() {
        core::cmp::Ordering::Less
    } else {
        core::cmp::Ordering::Equal
    }
}

impl PartialOrd for Chars {
    fn partial_cmp(&self, other: &Chars) -> (r: Option<core::cmp::Ordering>) {
        Some(compare_bytes(bytes_as_slice(&self.0), bytes_as_slice(&other.0)))
    }
}

impl vstd::std_specs::cmp::PartialOrdSpecImpl for Chars {
    open spec fn obeys_partial_cmp_spec() -> bool {
        true
    }

    open spec fn partial_cmp_spec(&self, other: &Chars) -> Option<core::cmp::Ordering> {
        Some(byte_order(self@, other@))
    }
}

/// The empty value orders before every non-empty one.
pub proof fn lemma_empty_orders_first(e: Chars, c: Chars)
    requires
        e@ == Seq::<u8>::empty(),
        c@.len() > 0,
    ensures
        e.partial_cmp_spec(&c) == Some(core::cmp::Ordering::Less),
{
}

impl core::hash::Hash for Chars {
    /// Relies on `str`'s `Hash`: the text is hashed as `str` hashes it, so that
    /// a map keyed by `Chars` can be looked up with a `&str`.
    #[verifier::external_body]
    fn hash<H: core::hash::Hasher>(&self, state: &mut H) {
        self.as_str().hash(state)
    }
}

impl core::borrow::Borrow<str> for Chars {
    fn borrow(&self) -> &str {
        self.as_str()
    }
}

impl AsRef<str> for Chars {
    fn as_ref(&self) -> &str {
        self.as_str()
    }
}

impl AsRef<[u8]> for Chars {
    fn as_ref(&self) -> &[u8] {
        bytes_as_slice(&self.0)
    }
}

impl core::ops::Deref for Chars {
    type Target = str;

    fn deref(&self) -> (r: &str)
        ensures
            r@ == self.text(),
    {
        self.as_str()
    }
}

impl From<&'static str> for Chars {
    fn from(value: &'static str) -> (r: Chars)
        ensures
            r@ == value.spec_bytes(),
            r.text() == value@,
    {
        Chars::from_static_str(value)
    }
}

impl vstd::std_specs::convert::FromSpecImpl<&'static str> for Chars {
    open spec fn obeys_from_spec() -> bool {
        false
    }

    open spec fn from_spec(v: &'static str) -> Chars {
        arbitrary()
    }
}

impl From<String> for Chars {
    fn from(src: String) -> (r: Chars)
        ensures
            r@ == encode_utf8(src@),
            r.text() == src@,
    {
        Chars::from_string(src)
    }
}

impl vstd::std_specs::convert::FromSpecImpl<String> for Chars {
    open spec fn obeys_from_spec() -> bool {
        false
    }

    open spec fn from_spec(v: String) -> Chars {
        arbitrary()
    }
}

impl From<Chars> for String {
    fn from(c: Chars) -> (r: String)
        ensures
            r@ == c.text(),
            encode_utf8(r@) == c@,
    {
        c.into_string()
    }
}

impl vstd::std_specs::convert::FromSpecImpl<Chars> for String {
    open spec fn obeys_from_spec() -> bool {
        false
    }

    open spec fn from_spec(v: Chars) -> String {
        arbitrary()
    }
}

} // verus!
