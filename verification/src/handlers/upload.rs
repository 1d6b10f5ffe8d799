//! The upload endpoint: what is accepted, and the job an accepted upload becomes.

use vstd::prelude::*;
use vstd::string::*;
use crate::config::{texts, Config};
use crate::crypto::{fits_packet, opened, CryptoService, MAX_PLAINTEXT, NONCE_LEN, TAG_LEN};
use crate::error::{AppError, ErrorModel};
use crate::worker::UploadJob;

verus! {

/// What the image decoder objects to in some bytes: nothing where they
/// decode as an image of a known format, else the decoder's complaint.
pub uninterp spec fn image_fault(data: Seq<u8>) -> Option<Seq<char>>;

/// Calls `image::load_from_memory` and, where it fails, `to_string` on
/// its error. Gives the decoder's complaint, or nothing where the bytes
/// decode.
#[verifier::external_body]
fn image_fault_of(data: &[u8]) -> (fault: Option<String>)
    ensures
        fault is Some <==> image_fault(data@) is Some,
        fault is Some ==> Some(fault->Some_0@) == image_fault(data@),
{
    match image::load_from_memory(data) {
        Ok(_) => None,
        Err(e) => Some(e.to_string()),
    }
}

/// Calls `mime_guess::from_path` and `first_or_octet_stream`. The guess
/// goes by the path's extension as the platform reads paths, so nothing is
/// claimed of it.
#[verifier::external_body]
fn guess_mime_from_path(path: &str) -> (mime: String) {
    mime_guess::from_path(path).first_or_octet_stream().to_string()
}

/// Calls `Uuid::new_v4` of uuid and writes it out. The identifier is
/// random, so nothing is claimed of it.
#[verifier::external_body]
pub(crate) fn fresh_uuid() -> (id: String) {
    uuid::Uuid::new_v4().to_string()
}

/// The entries of a list between double quotes, with commas between them.
pub open spec fn quoted_items(list: Seq<Seq<char>>) -> Seq<char>
    decreases list.len(),
{
    if list.len() == 0 {
        Seq::<char>::empty()
    } else if list.len() == 1 {
        "\""@ + list[0] + "\""@
    } else {
        quoted_items(list.drop_last()) + ", \""@ + list.last() + "\""@
    }
}

/// What a client is told whose image type is not accepted.
pub open spec fn unsupported_text(mime: Seq<char>, allowed: Seq<Seq<char>>) -> Seq<char> {
    "Unsupported image type: "@ + mime + ". Allowed types: ["@ + quoted_items(allowed) + "]"@
}

/// Why an upload is turned down, if it is: the first of too large, a type
/// not on the list, bytes that are no image, and more than can be sealed.
pub open spec fn upload_fault(config: Config, data: Seq<u8>, mime: Seq<char>) -> Option<
    ErrorModel,
> {
    if data.len() > config.max_file_size {
        Some(ErrorModel::FileTooLarge { max_size: config.max_file_size })
    } else if !texts(config.allowed_image_types@).contains(mime) {
        Some(
            ErrorModel::InvalidFileFormat(
                unsupported_text(mime, texts(config.allowed_image_types@)),
            ),
        )
    } else if image_fault(data) is Some {
        Some(ErrorModel::InvalidFileFormat("Invalid image data: "@ + image_fault(data)->Some_0))
    } else if data.len() > MAX_PLAINTEXT {
        Some(ErrorModel::EncryptionError("aead::Error"@))
    } else {
        None
    }
}

/// What becomes of an upload of `data` under the type `mime`: its fault, or
/// a job that carries the data sealed under `key` and describes it truly.
pub open spec fn upload_outcome(
    r: Result<UploadJob, AppError>,
    config: Config,
    key: Seq<u8>,
    data: Seq<u8>,
    mime: Seq<char>,
    client: Seq<char>,
) -> bool {
    match upload_fault(config, data, mime) {
        Some(e) => r is Err && r->Err_0@ == e,
        None => r is Ok && {
            let job = r->Ok_0;
            &&& job.original_size == data.len()
            &&& job.mime_type@ == mime
            &&& job.client_ip@ == client
            &&& job.encrypted_data@.len() == data.len() + NONCE_LEN + TAG_LEN
            &&& opened(key, job.encrypted_data@) == Some(data)
        },
    }
}

/// The name under which the backend stores an upload: a prefix of its own,
/// then the client's file name, or `image.bin` where it gave none.
pub open spec fn stored_name(prefix: Seq<char>, filename: Option<String>) -> Seq<char> {
    prefix + "_"@ + (match filename {
        Some(name) => name@,
        None => "image.bin"@,
    })
}

/// The type an upload is taken to have: the declared one, else the guess.
pub fn resolve_mime(content_type: Option<String>, guessed: String) -> (mime: String)
    ensures
        mime@ == (match content_type {
            Some(declared) => declared@,
            None => guessed@,
        }),
{
    match content_type {
        Some(declared) => declared,
        None => guessed,
    }
}

/// Whether the configured list holds the type.
pub fn type_allowed(config: &Config, mime: &str) -> (allowed: bool)
    ensures
        allowed == texts(config.allowed_image_types@).contains(mime@),
{
    let wanted = String::from_str(mime);
    let mut i: usize = 0;
    while i < config.allowed_image_types.len()
        invariant
            i <= config.allowed_image_types@.len(),
            wanted@ == mime@,
            forall|j: int| 0 <= j < i ==> texts(config.allowed_image_types@)[j] != mime@,
        decreases config.allowed_image_types@.len() - i,
    {
        if config.allowed_image_types[i] == wanted {
            assert(texts(config.allowed_image_types@)[i as int] == mime@);
            return true;
        }
        i += 1;
    }
    false
}

fn unsupported_message(mime: &str, allowed: &Vec<String>) -> (text: String)
    ensures
        text@ == unsupported_text(mime@, texts(allowed@)),
{
    let mut text = String::from_str("Unsupported image type: ");
    text.append(mime);
    text.append(". Allowed types: [");
    let ghost head = text@;
    let mut i: usize = 0;
    while i < allowed.len()
        invariant
            i <= allowed@.len(),
            text@ == head + quoted_items(texts(allowed@).subrange(0, i as int)),
        decreases allowed@.len() - i,
    {
        let ghost before = text@;
        if i == 0 {
            text.append("\"");
        } else {
            text.append(", \"");
        }
        text.append(allowed[i].as_str());
        text.append("\"");
        proof {
            let all = texts(allowed@);
            let now = all.subrange(0, i + 1);
            assert(now.drop_last() =~= all.subrange(0, i as int));
            assert(now.last() == allowed@[i as int]@);
            if i == 0 {
                assert(quoted_items(all.subrange(0, 0)) =~= Seq::<char>::empty());
                assert(now[0] == allowed@[0]@);
                assert(text@ =~= head + quoted_items(now));
            } else {
                assert(now.len() == i + 1);
                assert(text@ =~= head + quoted_items(now));
            }
        }
        i += 1;
    }
    assert(texts(allowed@).subrange(0, allowed@.len() as int) =~= texts(allowed@));
    text.append("]");
    text
}

/// Takes an upload whose type is settled: checks size, type and content,
/// seals the bytes and makes the job under the given identifier and stored
/// name.
pub fn accept_upload(
    config: &Config,
    crypto: &CryptoService,
    data: &[u8],
    mime: String,
    job_id: String,
    unique_filename: String,
    client_ip: String,
) -> (r: Result<UploadJob, AppError>)
    requires
        fits_packet(data@.len()),
    ensures
        upload_outcome(r, *config, crypto.key(), data@, mime@, client_ip@),
        r is Ok ==> r->Ok_0.job_id == job_id && r->Ok_0.unique_filename == unique_filename,
{
    if data.len() > config.max_file_size {
        return Err(AppError::FileTooLarge { max_size: config.max_file_size });
    }
    if !type_allowed(config, mime.as_str()) {
        return Err(
            AppError::InvalidFileFormat(
                unsupported_message(mime.as_str(), &config.allowed_image_types),
            ),
        );
    }
    match image_fault_of(data) {
        Some(fault) => {
            return Err(
                AppError::InvalidFileFormat(
                    String::from_str("Invalid image data: ").concat(fault.as_str()),
                ),
            );
        },
        None => {},
    }
    let encrypted_data = match crypto.encrypt_data(data) {
        Ok(packet) => packet,
        Err(e) => {
            return Err(e);
        },
    };
    Ok(
        UploadJob {
            job_id,
            encrypted_data,
            unique_filename,
            original_size: data.len(),
            mime_type: mime,
            client_ip,
        },
    )
}

/// Writes the stored name of an upload.
pub fn unique_name(prefix: &str, filename: &Option<String>) -> (name: String)
    ensures
        name@ == stored_name(prefix@, *filename),
{
    let mut name = String::from_str(prefix);
    name.append("_");
    match filename {
        Some(given) => name.append(given.as_str()),
        None => name.append("image.bin"),
    }
    name
}

/// Takes one multipart upload: the bytes of its file field, if it had one,
/// with the file name and content type the client declared. The type is the
/// declared one, or else guessed from the file name. An accepted upload
/// becomes a job with a fresh identifier, ready to be queued.
pub fn upload_image(
    config: &Config,
    crypto: &CryptoService,
    image_data: Option<Vec<u8>>,
    filename: Option<String>,
    content_type: Option<String>,
    client_ip: String,
) -> (r: Result<UploadJob, AppError>)
    requires
        image_data is Some ==> fits_packet(image_data->Some_0@.len()),
    ensures
        image_data is None ==> r is Err && r->Err_0@ == ErrorModel::ValidationError(
            "No image file found in request"@,
        ),
        image_data is Some ==> exists|mime: Seq<char>|
            {
                &&& content_type is Some ==> mime == content_type->Some_0@
                &&& #[trigger] upload_outcome(
                    r,
                    *config,
                    crypto.key(),
                    image_data->Some_0@,
                    mime,
                    client_ip@,
                )
            },
        r is Ok ==> exists|prefix: Seq<char>| #[trigger]
            stored_name(prefix, filename) == r->Ok_0.unique_filename@,
{
    let data = match image_data {
        Some(data) => data,
        None => {
            return Err(
                AppError::ValidationError(String::from_str("No image file found in request")),
            );
        },
    };
    let guessed = match &filename {
        Some(name) => guess_mime_from_path(name.as_str()),
        None => guess_mime_from_path("unknown"),
    };
    let mime = resolve_mime(content_type, guessed);
    let ghost mime_text = mime@;
    let prefix = fresh_uuid();
    let unique_filename = unique_name(prefix.as_str(), &filename);
    let r = accept_upload(
        config,
        crypto,
        data.as_slice(),
        mime,
        fresh_uuid(),
        unique_filename,
        client_ip,
    );
    proof {
        assert(upload_outcome(r, *config, crypto.key(), data@, mime_text, client_ip@));
        if r is Ok {
            assert(stored_name(prefix@, filename) == r->Ok_0.unique_filename@);
        }
    }
    r
}

} // verus!
