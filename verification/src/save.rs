//! Saving an image history entry to disk: choosing the output directory,
//! naming the file, and producing the bytes to write.
//!
//! Resolving the folder a file-manager window shows, and the filesystem
//! writes themselves, happen outside the library; what stands here is the
//! fallback order of the candidate directories, the timestamped file name,
//! and the payload pipeline with its exact error semantics.

use vstd::prelude::*;
use crate::codec;
use crate::raster;
use crate::raster::UriImageError;

verus! {

/// Why no output directory could be chosen: every candidate was
/// unavailable.
#[derive(Debug, PartialEq, Eq, Structural, Clone, Copy)]
pub enum SaveDirError {
    NoOutputDir,
}

/// The directory a save uses: the folder the last foreground file-manager
/// window shows when resolution succeeded, else the downloads directory,
/// else the application data directory; an error only when all three are
/// unavailable. Resolution failure alone never blocks the save.
pub open spec fn spec_choose_save_dir(
    resolved: Option<Seq<char>>,
    download: Option<Seq<char>>,
    app_data: Option<Seq<char>>,
) -> Result<Seq<char>, SaveDirError> {
    match resolved {
        Some(d) => Ok(d),
        None => match download {
            Some(d) => Ok(d),
            None => match app_data {
                Some(d) => Ok(d),
                None => Err(SaveDirError::NoOutputDir),
            },
        },
    }
}

/// Chooses the directory a save writes into, from the best-effort resolved
/// folder and the two configured defaults.
pub fn choose_save_dir(
    resolved: Option<String>,
    download: Option<String>,
    app_data: Option<String>,
) -> (r: Result<String, SaveDirError>)
    ensures
        r is Ok <==> spec_choose_save_dir(
            match resolved {
                Some(ref d) => Some(d@),
                None => None,
            },
            match download {
                Some(ref d) => Some(d@),
                None => None,
            },
            match app_data {
                Some(ref d) => Some(d@),
                None => None,
            },
        ) is Ok,
        r is Ok ==> Ok::<_, SaveDirError>((r->Ok_0)@) == spec_choose_save_dir(
            match resolved {
                Some(ref d) => Some(d@),
                None => None,
            },
            match download {
                Some(ref d) => Some(d@),
                None => None,
            },
            match app_data {
                Some(ref d) => Some(d@),
                None => None,
            },
        ),
        r is Err ==> r->Err_0 == SaveDirError::NoOutputDir,
{
    match resolved {
        Some(d) => Ok(d),
        None => match download {
            Some(d) => Ok(d),
            None => match app_data {
                Some(d) => Ok(d),
                None => Err(SaveDirError::NoOutputDir),
            },
        },
    }
}

/// Law: folder-resolution failure never blocks the save. Whenever
/// resolution comes back unresolved and at least one configured default
/// directory exists, a directory is still chosen — the downloads directory
/// when it exists, else the application data directory.
pub proof fn lemma_unresolved_folder_still_saves(
    download: Option<Seq<char>>,
    app_data: Option<Seq<char>>,
)
    requires
        download is Some || app_data is Some,
    ensures
        spec_choose_save_dir(None, download, app_data) is Ok,
        download is Some ==> spec_choose_save_dir(None, download, app_data) == Ok::<
            _,
            SaveDirError,
        >(download->0),
        download is None ==> spec_choose_save_dir(None, download, app_data) == Ok::<
            _,
            SaveDirError,
        >(app_data->0),
{
}

/// The decimal digits of a number, most significant first.
pub open spec fn spec_decimal(n: nat) -> Seq<u8>
    decreases n,
{
    if n < 10 {
        seq![(n + ('0' as u8)) as u8]
    } else {
        spec_decimal(n / 10) + seq![(n % 10 + ('0' as u8)) as u8]
    }
}

/// Appends the decimal digits of `n`.
fn push_decimal(v: &mut Vec<u8>, n: u64)
    ensures
        final(v)@ == old(v)@ + spec_decimal(n as nat),
    decreases n,
{
    if n < 10 {
        v.push((n as u8) + ('0' as u8));
        proof {
            assert(v@ =~= old(v)@ + spec_decimal(n as nat));
        }
    } else {
        push_decimal(v, n / 10);
        v.push(((n % 10) as u8) + ('0' as u8));
        proof {
            assert(v@ =~= old(v)@ + spec_decimal(n as nat));
        }
    }
}

/// The extension a saved image file gets.
#[derive(Debug, PartialEq, Eq, Structural, Clone, Copy)]
pub enum FileExt {
    Png,
    Jpg,
}

/// The bytes of an extension.
pub open spec fn spec_ext_bytes(ext: FileExt) -> Seq<u8> {
    match ext {
        FileExt::Png => seq![('p' as u8), ('n' as u8), ('g' as u8)],
        FileExt::Jpg => seq![('j' as u8), ('p' as u8), ('g' as u8)],
    }
}

/// The prefix of a saved file's name.
pub open spec fn spec_save_name_prefix() -> Seq<u8> {
    seq![('c' as u8), ('o' as u8), ('p' as u8), ('p' as u8), ('y' as u8), ('_' as u8)]
}

/// The name of a saved image file: the fixed prefix, the millisecond
/// timestamp in decimal, a dot, and the extension.
pub open spec fn spec_save_file_name(ts: u64, ext: FileExt) -> Seq<u8> {
    spec_save_name_prefix() + spec_decimal(ts as nat) + seq![('.' as u8)] + spec_ext_bytes(ext)
}

/// Builds the name of a saved image file from the millisecond timestamp
/// and the chosen extension.
pub fn save_file_name(ts: u64, ext: FileExt) -> (r: Vec<u8>)
    ensures
        r@ == spec_save_file_name(ts, ext),
{
    let mut v: Vec<u8> = Vec::new();
    v.push('c' as u8);
    v.push('o' as u8);
    v.push('p' as u8);
    v.push('p' as u8);
    v.push('y' as u8);
    v.push('_' as u8);
    proof {
        assert(v@ =~= spec_save_name_prefix());
    }
    push_decimal(&mut v, ts);
    v.push('.' as u8);
    match ext {
        FileExt::Png => {
            v.push('p' as u8);
            v.push('n' as u8);
            v.push('g' as u8);
        },
        FileExt::Jpg => {
            v.push('j' as u8);
            v.push('p' as u8);
            v.push('g' as u8);
        },
    }
    proof {
        assert(v@ =~= spec_save_file_name(ts, ext));
    }
    v
}

/// The prefix of a temporary image file's name, used when a file-drop
/// paste materialises the image on disk first.
pub open spec fn spec_temp_name_prefix() -> Seq<u8> {
    seq![
        ('c' as u8), ('o' as u8), ('p' as u8), ('p' as u8), ('y' as u8), ('_' as u8),
        ('c' as u8), ('l' as u8), ('i' as u8), ('p' as u8), ('b' as u8), ('o' as u8),
        ('a' as u8), ('r' as u8), ('d' as u8), ('_' as u8),
    ]
}

/// The name of the temporary PNG file a file-drop paste writes.
pub open spec fn spec_temp_file_name(ts: u64) -> Seq<u8> {
    spec_temp_name_prefix() + spec_decimal(ts as nat) + seq![('.' as u8)] + spec_ext_bytes(
        FileExt::Png,
    )
}

/// Builds the name of the temporary PNG file a file-drop paste writes.
pub fn temp_file_name(ts: u64) -> (r: Vec<u8>)
    ensures
        r@ == spec_temp_file_name(ts),
{
    let mut v: Vec<u8> = Vec::new();
    v.push('c' as u8);
    v.push('o' as u8);
    v.push('p' as u8);
    v.push('p' as u8);
    v.push('y' as u8);
    v.push('_' as u8);
    v.push('c' as u8);
    v.push('l' as u8);
    v.push('i' as u8);
    v.push('p' as u8);
    v.push('b' as u8);
    v.push('o' as u8);
    v.push('a' as u8);
    v.push('r' as u8);
    v.push('d' as u8);
    v.push('_' as u8);
    proof {
        assert(v@ =~= spec_temp_name_prefix());
    }
    push_decimal(&mut v, ts);
    v.push('.' as u8);
    v.push('p' as u8);
    v.push('n' as u8);
    v.push('g' as u8);
    proof {
        assert(v@ =~= spec_temp_file_name(ts));
    }
    v
}

/// The decoding steps of a save, before any image re-encoding: the payload
/// after the first comma, base64 decoded, paired with whether the metadata
/// announces a JPEG.
pub open spec fn spec_save_decoded(uri: Seq<u8>) -> Result<(Seq<u8>, bool), UriImageError> {
    match codec::spec_split_data_uri(uri) {
        None => Err(UriImageError::NotADataUri),
        Some((meta, payload)) => match codec::b64_decoding_of(payload) {
            None => Err(UriImageError::InvalidBase64),
            Some(bytes) => Ok((bytes, codec::spec_meta_is_jpeg(meta))),
        },
    }
}

/// Produces the bytes a save writes and the extension its file name gets.
/// A JPEG payload is written as it decoded, under the JPEG extension.
/// Anything else is decoded as an image — succeeding exactly when the
/// payload is a readable image — and re-encoded as self-contained PNG, so
/// the written file's decoded pixel content equals the decoded pixel
/// content of the input payload.
pub fn save_image_payload(uri: &[u8]) -> (r: Result<(Vec<u8>, FileExt), UriImageError>)
    ensures
        spec_save_decoded(uri@) is Err ==> r == Err::<(Vec<u8>, FileExt), _>(
            spec_save_decoded(uri@)->Err_0,
        ),
        spec_save_decoded(uri@) is Ok && (spec_save_decoded(uri@)->Ok_0).1 ==> (r is Ok && (
        r->Ok_0).0@ == (spec_save_decoded(uri@)->Ok_0).0 && (r->Ok_0).1 == FileExt::Jpg),
        spec_save_decoded(uri@) is Ok && !(spec_save_decoded(uri@)->Ok_0).1
            && raster::image_decoding_of((spec_save_decoded(uri@)->Ok_0).0) is None ==> r
            == Err::<(Vec<u8>, FileExt), _>(UriImageError::UnreadableImage),
        spec_save_decoded(uri@) is Ok && !(spec_save_decoded(uri@)->Ok_0).1
            && raster::image_decoding_of((spec_save_decoded(uri@)->Ok_0).0) is Some ==> r
            is Ok,
        spec_save_decoded(uri@) is Ok && !(spec_save_decoded(uri@)->Ok_0).1 && r is Ok ==> ((
        r->Ok_0).1 == FileExt::Png && (r->Ok_0).0@ == raster::png_encoding_of(
            (raster::image_decoding_of((spec_save_decoded(uri@)->Ok_0).0)->0).0,
            (raster::image_decoding_of((spec_save_decoded(uri@)->Ok_0).0)->0).1,
            (raster::image_decoding_of((spec_save_decoded(uri@)->Ok_0).0)->0).2,
        ) && raster::image_decoding_of((r->Ok_0).0@) == raster::image_decoding_of(
            (spec_save_decoded(uri@)->Ok_0).0,
        )),
{
    let parts = match codec::split_data_uri(uri) {
        Some(p) => p,
        None => return Err(UriImageError::NotADataUri),
    };
    let bytes = match codec::b64_decode(&parts.1) {
        Some(b) => b,
        None => return Err(UriImageError::InvalidBase64),
    };
    if codec::meta_is_jpeg(parts.0.as_slice()) {
        return Ok((bytes, FileExt::Jpg));
    }
    let img = match raster::image_decode(&bytes) {
        Some(i) => i,
        None => return Err(UriImageError::UnreadableImage),
    };
    match raster::png_encode(&img) {
        Some(png) => Ok((png, FileExt::Png)),
        None => Err(UriImageError::EncodeFailed),
    }
}

} // verus!
