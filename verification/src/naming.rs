//! Names of recording files: one fresh name per session.

use vstd::prelude::*;
use vstd::string::StringExecFns;

verus! {

/// Whether `c` is a lower-case hexadecimal digit.
pub open spec fn is_lower_hex(c: char) -> bool {
    ('0' <= c && c <= '9') || ('a' <= c && c <= 'f')
}

/// Whether `s` has the hyphenated form of a UUID: 36 characters, hyphens at
/// positions 8, 13, 18 and 23, lower-case hexadecimal digits elsewhere.
pub open spec fn is_hyphenated(s: Seq<char>) -> bool {
    &&& s.len() == 36
    &&& forall|i: int|
        0 <= i < 36 ==> if i == 8 || i == 13 || i == 18 || i == 23 {
            #[trigger] s[i] == '-'
        } else {
            is_lower_hex(s[i])
        }
}

/// Calls `uuid::Uuid::new_v4` and renders the identifier with its `Display`
/// impl, which gives the lower-case hyphenated form. Which identifier comes
/// out is a matter of chance, so only its form is claimed. The crate panics
/// where the operating system does not give it random bytes.
#[verifier::external_body]
fn fresh_identifier() -> (id: String)
    ensures
        is_hyphenated(id@),
{
    uuid::Uuid::new_v4().to_string()
}

/// The name of the recording file for an identifier.
pub open spec fn file_name(id: Seq<char>) -> Seq<char> {
    "dictation-"@ + id + ".wav"@
}

/// Gives the name of the recording file for an identifier.
pub fn recording_file_name(id: &str) -> (name: String)
    ensures
        name@ == file_name(id@),
{
    String::from_str("dictation-").concat(id).concat(".wav")
}

/// Gives the name of a new recording file, made from a fresh identifier.
/// That two calls give different names rests on the generator of the
/// identifiers: different identifiers give different names, and nothing
/// more is stated here.
pub fn new_recording_file_name() -> (name: String)
    ensures
        exists|id: Seq<char>| is_hyphenated(id) && name@ == file_name(id),
{
    let id: String = fresh_identifier();
    recording_file_name(id.as_str())
}

/// Recordings with different identifiers have different file names.
pub proof fn different_identifiers_different_names(a: Seq<char>, b: Seq<char>)
    requires
        a != b,
    ensures
        file_name(a) != file_name(b),
{
    let prefix = "dictation-"@;
    let suffix = ".wav"@;
    if file_name(a) == file_name(b) {
        assert(file_name(a).len() == prefix.len() + a.len() + suffix.len());
        assert(file_name(b).len() == prefix.len() + b.len() + suffix.len());
        assert(a.len() == b.len());
        assert(a =~= file_name(a).subrange(prefix.len() as int, (prefix.len() + a.len()) as int));
        assert(b =~= file_name(b).subrange(prefix.len() as int, (prefix.len() + b.len()) as int));
        assert(false);
    }
}

} // verus!
