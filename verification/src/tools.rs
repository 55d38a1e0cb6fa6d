//! Small string helpers.

use crate::json::{nat_text, push_char, write_nat};
use vstd::prelude::*;
use vstd::string::StringSliceAdditionalSpecFns;

verus! {

/// A value that turns into an owned string, used where the caller may hand
/// over either a borrowed or an owned name.
pub trait StaticString: Sized {
    /// The characters of the string.
    spec fn static_string_spec(self) -> Seq<char>;

    /// Turn the value into an owned string.
    fn static_string(self) -> (r: String)
        ensures
            r@ == self.static_string_spec(),
    ;
}

impl<'a> StaticString for &'a str {
    open spec fn static_string_spec(self) -> Seq<char> {
        self@
    }

    fn static_string(self) -> (r: String) {
        self.to_owned()
    }
}

impl StaticString for String {
    open spec fn static_string_spec(self) -> Seq<char> {
        self@
    }

    fn static_string(self) -> (r: String) {
        self
    }
}

/// Relies on std::str::from_utf8: it succeeds exactly on the valid UTF-8
/// byte slices and returns the string slice viewing those very bytes.
#[verifier::external_body]
fn utf8_to_str(bytes: &[u8]) -> (r: Option<&str>)
    ensures
        r is Some <==> vstd::utf8::valid_utf8(bytes@),
        r matches Option::Some(s) ==> s.spec_bytes() == bytes@,
{
    std::str::from_utf8(bytes).ok()
}

/// The listing of a byte slice, from index `i` on: decimal values, comma
/// separated.
pub open spec fn bytes_listing_from(s: Seq<u8>, i: int) -> Seq<char>
    decreases s.len() - i,
{
    if i < 0 || i >= s.len() {
        Seq::empty()
    } else {
        let sep: Seq<char> = if i == 0 {
            Seq::empty()
        } else {
            seq![',', ' ']
        };
        sep + nat_text(s[i] as nat) + bytes_listing_from(s, i + 1)
    }
}

/// The bracketed listing a byte slice prints as when it is not text.
pub open spec fn bytes_listing(s: Seq<u8>) -> Seq<char> {
    seq!['['] + bytes_listing_from(s, 0) + seq![']']
}

/// Render received bytes for a reader: the decoded text when they are valid
/// UTF-8, and a bracketed decimal listing of the bytes otherwise.
#[verifier::loop_isolation(false)]
pub fn bytes_to_string(bytes: &[u8]) -> (r: String)
    ensures
        vstd::utf8::valid_utf8(bytes@) ==> vstd::utf8::encode_utf8(r@) == bytes@,
        !vstd::utf8::valid_utf8(bytes@) ==> r@ == bytes_listing(bytes@),
{
    match utf8_to_str(bytes) {
        Option::Some(s) => s.to_owned(),
        Option::None => {
            let mut out = String::new();
            push_char(&mut out, '[');
            let ghost base = out@;
            let n = bytes.len();
            let mut k: usize = 0;
            while k < n
                invariant
                    k <= n,
                    out@ + bytes_listing_from(bytes@, k as int) == base + bytes_listing_from(
                        bytes@,
                        0,
                    ),
                decreases n - k,
            {
                let ghost pre = out@;
                if k > 0 {
                    push_char(&mut out, ',');
                    push_char(&mut out, ' ');
                }
                write_nat(bytes[k] as u64, &mut out);
                proof {
                    let sep: Seq<char> = if k == 0 {
                        Seq::empty()
                    } else {
                        seq![',', ' ']
                    };
                    assert(out@ =~= pre + (sep + nat_text(bytes@[k as int] as nat)));
                    assert((sep + nat_text(bytes@[k as int] as nat)) + bytes_listing_from(
                        bytes@,
                        k as int + 1,
                    ) =~= bytes_listing_from(bytes@, k as int));
                    assert(out@ + bytes_listing_from(bytes@, k as int + 1) =~= pre
                        + bytes_listing_from(bytes@, k as int));
                }
                k = k + 1;
            }
            proof {
                assert(bytes_listing_from(bytes@, n as int) =~= Seq::<char>::empty());
                assert(out@ =~= out@ + bytes_listing_from(bytes@, n as int));
            }
            push_char(&mut out, ']');
            proof {
                assert(out@ =~= bytes_listing(bytes@));
            }
            out
        },
    }
}

} // verus!
