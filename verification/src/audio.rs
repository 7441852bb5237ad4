//! Audio recordings: the file name a recording is saved under, decoding the
//! engine's Base64 audio, and the data URL that plays a saved recording.
use vstd::prelude::*;
use vstd::string::*;
use crate::text::{chars_of, push_char};

verus! {

/// What the standard Base64 engine (standard alphabet, padded) decodes a text
/// to, `None` when the text is not valid Base64.
pub uninterp spec fn base64_standard_decoding(text: Seq<char>) -> Option<Seq<u8>>;

/// The text of the error (its `Display`) that the standard Base64 engine
/// reports for a text that is not valid Base64.
pub uninterp spec fn base64_decode_error_text(text: Seq<char>) -> Seq<char>;

/// What the standard Base64 engine (standard alphabet, padded) encodes bytes
/// to.
pub uninterp spec fn base64_standard_encoding(bytes: Seq<u8>) -> Seq<char>;

/// The length of a padded Base64 encoding of `n` bytes.
pub open spec fn encoded_len(n: nat) -> nat {
    4 * ((n + 2) / 3)
}

/// Trusted: `base64::engine::general_purpose::STANDARD.decode`, its error
/// turned into text by `DecodeError`'s `Display`. It succeeds exactly when the
/// text is valid padded standard Base64; the decoded bytes and the error text
/// are fixed functions of the input text, named `base64_standard_decoding`
/// and `base64_decode_error_text`.
#[verifier::external_body]
fn standard_decode(text: &str) -> (r: Result<Vec<u8>, String>)
    ensures
        r is Ok <==> base64_standard_decoding(text@) is Some,
        r matches Ok(v) ==> base64_standard_decoding(text@) == Some(v@),
        r matches Err(e) ==> e@ == base64_decode_error_text(text@),
{
    base64::Engine::decode(&base64::engine::general_purpose::STANDARD, text).map_err(|e| e.to_string())
}

/// Trusted: `base64::engine::general_purpose::STANDARD.encode`. The encoding
/// is a fixed function of the bytes, named `base64_standard_encoding`, and has
/// the padded length `4 * ceil(n / 3)`; the call panics when that length does
/// not fit a `usize`, which `requires` rules out.
#[verifier::external_body]
fn standard_encode(bytes: &[u8]) -> (r: String)
    requires
        encoded_len(bytes@.len() as nat) <= usize::MAX,
    ensures
        r@ == base64_standard_encoding(bytes@),
        r@.len() == encoded_len(bytes@.len() as nat),
{
    base64::Engine::encode(&base64::engine::general_purpose::STANDARD, bytes)
}

/// Decode the engine's Base64 audio; the error says why it is not Base64.
pub fn decode_audio(b64_data: &str) -> (r: Result<Vec<u8>, String>)
    ensures
        r is Ok <==> base64_standard_decoding(b64_data@) is Some,
        r matches Ok(v) ==> base64_standard_decoding(b64_data@) == Some(v@),
        r matches Err(m) ==> m@ == "base64 decode: "@ + base64_decode_error_text(b64_data@),
{
    match standard_decode(b64_data) {
        Ok(bytes) => Ok(bytes),
        Err(detail) => {
            let mut msg = String::from_str("base64 decode: ");
            msg.append(detail.as_str());
            Err(msg)
        },
    }
}

/// A timestamp made safe for a file name: spaces become `_` and colons `-`.
pub open spec fn sanitized(timestamp: Seq<char>) -> Seq<char> {
    timestamp.map_values(|c: char| if c == ' ' { '_' } else if c == ':' { '-' } else { c })
}

/// The file name a recording made at `timestamp` is saved under, e.g.
/// `2025-01-15 14:30:25` gives `2025-01-15_14-30-25.wav`.
pub fn audio_file_name(timestamp: &str) -> (r: String)
    ensures
        r@ == sanitized(timestamp@) + ".wav"@,
{
    let v = chars_of(timestamp);
    let mut name = String::new();
    let mut i: usize = 0;
    while i < v.len()
        invariant
            v@ == timestamp@,
            i <= v.len(),
            name@ == sanitized(v@.take(i as int)),
        decreases v.len() - i,
    {
        let c = v[i];
        let d = if c == ' ' { '_' } else if c == ':' { '-' } else { c };
        push_char(&mut name, d);
        assert(sanitized(v@.take(i + 1)) =~= sanitized(v@.take(i as int)).push(d));
        i = i + 1;
    }
    assert(v@.take(v.len() as int) == v@);
    name.append(".wav");
    name
}

/// A saved file name never holds a space or a colon.
pub proof fn law_file_name_has_no_space_or_colon(timestamp: Seq<char>)
    ensures
        forall|i: int| 0 <= i < sanitized(timestamp).len() ==>
            #[trigger] sanitized(timestamp)[i] != ' ' && sanitized(timestamp)[i] != ':',
        sanitized(timestamp).len() == timestamp.len(),
{
}

/// A data URL that plays the recording: `data:audio/wav;base64,` followed by
/// the Base64 encoding of the file's bytes.
pub fn audio_data_url(bytes: &[u8]) -> (r: String)
    requires
        encoded_len(bytes@.len() as nat) <= usize::MAX,
    ensures
        r@ == "data:audio/wav;base64,"@ + base64_standard_encoding(bytes@),
{
    let b64 = standard_encode(bytes);
    let mut url = String::from_str("data:audio/wav;base64,");
    url.append(b64.as_str());
    url
}

} // verus!
