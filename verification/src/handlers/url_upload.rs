//! The upload-by-address endpoint: the bytes are fetched by the caller, the
//! type and the stored name are read off the address.

use vstd::prelude::*;
use vstd::string::*;
use crate::config::Config;
use crate::crypto::{fits_packet, CryptoService};
use crate::error::AppError;
use crate::handlers::upload::{accept_upload, fresh_uuid, upload_outcome};
use crate::worker::UploadJob;

verus! {

/// The MIME type that mime_guess knows a file extension by, or
/// `application/octet-stream` where it knows none.
pub uninterp spec fn mime_of_extension(extension: Seq<char>) -> Seq<char>;

/// Calls `mime_guess::from_ext` and `first_or_octet_stream`, and writes
/// the type out.
#[verifier::external_body]
fn mime_from_ext(extension: &str) -> (mime: String)
    ensures
        mime@ == mime_of_extension(extension@),
{
    mime_guess::from_ext(extension).first_or_octet_stream().to_string()
}

/// The body of an upload-by-address request.
#[derive(Debug)]
pub struct UrlUploadPayload {
    pub url: String,
}

/// Where the part after the last `sep` begins: at the start where `s`
/// holds no `sep`.
pub open spec fn last_cut(s: Seq<char>, sep: char) -> int
    decreases s.len(),
{
    if s.len() == 0 {
        0
    } else if s.last() == sep {
        s.len() as int
    } else {
        last_cut(s.drop_last(), sep)
    }
}

/// What follows the last `sep` in `s`; all of `s` where it holds none.
pub open spec fn after_last(s: Seq<char>, sep: char) -> Seq<char> {
    s.subrange(last_cut(s, sep), s.len() as int)
}

/// The cut lies within the text, just behind a separator or at the start,
/// and no separator follows it.
pub proof fn lemma_last_cut(s: Seq<char>, sep: char)
    ensures
        0 <= last_cut(s, sep) <= s.len(),
        last_cut(s, sep) > 0 ==> s[last_cut(s, sep) - 1] == sep,
        forall|i: int| last_cut(s, sep) <= i < s.len() ==> s[i] != sep,
        !after_last(s, sep).contains(sep),
    decreases s.len(),
{
    if s.len() > 0 && s.last() != sep {
        let head = s.drop_last();
        lemma_last_cut(head, sep);
        assert forall|i: int| last_cut(s, sep) <= i < s.len() implies s[i] != sep by {
            if i < head.len() {
                assert(head[i] == s[i]);
            }
        }
        if last_cut(s, sep) > 0 {
            assert(head[last_cut(s, sep) - 1] == s[last_cut(s, sep) - 1]);
        }
    }
    let tail = after_last(s, sep);
    assert forall|j: int| 0 <= j < tail.len() implies tail[j] != sep by {
        assert(tail[j] == s[last_cut(s, sep) + j]);
    }
}

/// Cuts off what follows the last `sep`.
pub fn last_segment(text: &str, sep: char) -> (segment: String)
    ensures
        segment@ == after_last(text@, sep),
{
    let n = text.unicode_len();
    let mut i: usize = n;
    let mut found = false;
    assert(text@.subrange(0, n as int) =~= text@);
    while i > 0 && !found
        invariant
            i <= n,
            n == text@.len(),
            last_cut(text@, sep) == last_cut(text@.subrange(0, i as int), sep),
            found ==> i > 0 && text@[i - 1] == sep,
        decreases (if found { 0int } else { 1int }) + i,
    {
        if text.get_char(i - 1) == sep {
            found = true;
        } else {
            proof {
                let head = text@.subrange(0, i as int);
                assert(head.last() == text@[i - 1]);
                assert(head.drop_last() =~= text@.subrange(0, i - 1));
            }
            i -= 1;
        }
    }
    proof {
        let head = text@.subrange(0, i as int);
        if found {
            assert(head.last() == sep);
        }
        assert(last_cut(head, sep) == i);
    }
    String::from_str(text.substring_char(i, n))
}

/// Takes the bytes fetched from an address as an upload. The type goes by
/// what follows the last dot of the address, the stored name by what
/// follows its last slash.
pub fn upload_from_url(
    config: &Config,
    crypto: &CryptoService,
    payload: &UrlUploadPayload,
    image_data: &[u8],
    client_ip: String,
) -> (r: Result<UploadJob, AppError>)
    requires
        fits_packet(image_data@.len()),
    ensures
        upload_outcome(
            r,
            *config,
            crypto.key(),
            image_data@,
            mime_of_extension(after_last(payload.url@, '.')),
            client_ip@,
        ),
        r is Ok ==> exists|prefix: Seq<char>| #[trigger]
            (prefix + "_"@ + after_last(payload.url@, '/')) == r->Ok_0.unique_filename@,
{
    let extension = last_segment(payload.url.as_str(), '.');
    let mime = mime_from_ext(extension.as_str());
    let filename = last_segment(payload.url.as_str(), '/');
    let prefix = fresh_uuid();
    let mut unique_filename = prefix.clone();
    unique_filename.append("_");
    unique_filename.append(filename.as_str());
    let r = accept_upload(
        config,
        crypto,
        image_data,
        mime,
        fresh_uuid(),
        unique_filename,
        client_ip,
    );
    proof {
        if r is Ok {
            assert((prefix@ + "_"@ + after_last(payload.url@, '/')) == r->Ok_0.unique_filename@);
        }
    }
    r
}

} // verus!
