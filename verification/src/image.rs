//! Image classification for the preview pane: the bytes are inspected for
//! a known signature, a JPEG XL file is decoded to PNG first, and the
//! result is carried as base64 text with its mime type. Reading the file
//! itself happens outside the library.

use vstd::prelude::*;
use vstd::string::StringExecFns;
use crate::paths::{spec_file_start, spec_last_dot, spec_is_normal, spec_trim_trailing_separators};
use crate::text::{str_to_chars, chars_to_string, str_eq};

verus! {

/// A decoded preview image: its bytes as base64 text, and its mime type.
pub struct ImageInfo {
    pub base64: String,
    pub mime_type: String,
}

/// The base64 text of a run of bytes under the standard alphabet with
/// padding. Named after `base64::Engine::encode` with the standard
/// engine, whose result depends on the bytes alone.
pub uninterp spec fn base64_of(data: Seq<u8>) -> Seq<char>;

/// Relies on `base64::Engine::encode` with the `BASE64_STANDARD` engine:
/// it encodes the bytes, and nothing else, producing four characters for
/// every three bytes, the last group padded.
#[verifier::external_body]
fn base64_encode(data: &Vec<u8>) -> (r: String)
    ensures
        r@ == base64_of(data@),
        r@.len() == 4 * ((data@.len() + 2) / 3),
{
    base64::Engine::encode(&base64::prelude::BASE64_STANDARD, data)
}

/// The mime type that a byte signature reveals, if a known one does.
/// Named after `infer::get`, whose result depends on the bytes alone.
pub uninterp spec fn mime_of(data: Seq<u8>) -> Option<Seq<char>>;

/// Relies on `infer::get` and `infer::Type::mime_type`: the bytes are
/// matched against known signatures, and the matched type's mime text,
/// a function of the bytes alone, is handed back.
#[verifier::external_body]
fn detect_mime(data: &Vec<u8>) -> (r: Option<String>)
    ensures
        match r {
            Some(m) => mime_of(data@) == Some(m@),
            None => mime_of(data@) is None,
        },
{
    infer::get(data).map(|kind| kind.mime_type().to_string())
}

/// The PNG bytes that decoding a JPEG XL stream gives, when it decodes.
/// Named after the JPEG XL decoding pipeline, whose result depends on the
/// bytes alone.
pub uninterp spec fn jxl_png_of(data: Seq<u8>) -> Option<Seq<u8>>;

/// Relies on `jxl_oxide::integration::JxlDecoder`,
/// `image::DynamicImage::from_decoder` and `image::DynamicImage::write_to`
/// with the PNG format: the stream is decoded and re-encoded as PNG, a
/// function of the bytes alone, or fails.
#[verifier::external_body]
fn decode_jxl_to_png(data: &Vec<u8>) -> (r: Option<Vec<u8>>)
    ensures
        match r {
            Some(png) => jxl_png_of(data@) == Some(png@),
            None => jxl_png_of(data@) is None,
        },
{
    let cursor = std::io::Cursor::new(data.as_slice());
    let decoder = jxl_oxide::integration::JxlDecoder::new(cursor).ok()?;
    let dynamic_image = image::DynamicImage::from_decoder(decoder).ok()?;
    let mut png_data: Vec<u8> = Vec::new();
    let mut png_cursor = std::io::Cursor::new(&mut png_data);
    dynamic_image.write_to(&mut png_cursor, image::ImageFormat::Png).ok()?;
    Some(png_data)
}

/// The character with an upper-case letter lowered.
pub open spec fn spec_ascii_lower(c: char) -> char {
    if 'A' <= c <= 'Z' {
        ((c as u32) + 32) as char
    } else {
        c
    }
}

/// The characters with upper-case letters lowered.
pub open spec fn spec_ascii_lowercase(s: Seq<char>) -> Seq<char> {
    s.map_values(|c: char| spec_ascii_lower(c))
}

/// The extension of a path's file part: what follows the last dot of the
/// last segment, when a dot separates it from a nonempty stem. Trailing
/// separators are dropped first, so the file part is the last segment, as
/// `spec_file_name` sees it.
pub open spec fn spec_extension(p: Seq<char>) -> Option<Seq<char>> {
    let q = spec_trim_trailing_separators(p);
    let fs = spec_file_start(q);
    let f = q.skip(fs);
    if f.len() == 0 || !spec_is_normal(f) {
        None
    } else {
        match spec_last_dot(f) {
            Some(i) => if i >= 1 {
                Some(f.skip(i + 1))
            } else {
                None
            },
            None => None,
        }
    }
}

/// The path's extension with upper-case letters lowered, exactly as
/// `spec_ascii_lowercase` over `spec_extension` states.
pub fn extension_lowercase(path: &str) -> (r: Option<String>)
    ensures
        match r {
            Some(e) => spec_extension(path@) is Some && e@ == spec_ascii_lowercase(
                spec_extension(path@)->Some_0,
            ),
            None => spec_extension(path@) is None,
        },
{
    let p = str_to_chars(path);
    let ext = match extension_chars(&p) {
        Some(e) => e,
        None => {
            return None;
        },
    };
    let mut low: Vec<char> = Vec::new();
    let mut i: usize = 0;
    while i < ext.len()
        invariant
            i <= ext@.len(),
            low@ == spec_ascii_lowercase(ext@).take(i as int),
        decreases ext@.len() - i,
    {
        let c = ext[i];
        let lc = if 'A' <= c && c <= 'Z' {
            (((c as u32) + 32) as u8) as char
        } else {
            c
        };
        proof {
            assert(spec_ascii_lowercase(ext@)[i as int] == spec_ascii_lower(ext@[i as int]));
            if 'A' <= c <= 'Z' {
                assert((((c as u32) + 32) as u8) as char == ((c as u32) + 32) as char);
            }
        }
        low.push(lc);
        i = i + 1;
        proof {
            assert(low@ =~= spec_ascii_lowercase(ext@).take(i as int));
        }
    }
    proof {
        assert(spec_ascii_lowercase(ext@).take(ext@.len() as int) =~= spec_ascii_lowercase(ext@));
    }
    Some(chars_to_string(&low))
}

/// The extension of a path, exactly as `spec_extension` states.
fn extension_chars(p: &Vec<char>) -> (r: Option<Vec<char>>)
    ensures
        match r {
            Some(e) => spec_extension(p@) == Some(e@),
            None => spec_extension(p@) is None,
        },
{
    // drop trailing separators: the file part is the last segment
    let mut t: usize = p.len();
    proof {
        assert(p@.take(p@.len() as int) =~= p@);
    }
    while t > 0 && p[t - 1] == '/'
        invariant
            t <= p@.len(),
            spec_trim_trailing_separators(p@) == spec_trim_trailing_separators(
                p@.take(t as int),
            ),
        decreases t,
    {
        t = t - 1;
        proof {
            assert(p@.take(t as int + 1).last() == p@[t as int]);
            assert(p@.take(t as int + 1).drop_last() =~= p@.take(t as int));
        }
    }
    let ghost q = p@.take(t as int);
    proof {
        if t > 0 {
            assert(q.last() == p@[t as int - 1]);
        }
        assert(spec_trim_trailing_separators(p@) == q);
    }
    // locate the start of the file part
    let mut fs: usize = t;
    proof {
        assert(q.take(t as int) =~= q);
    }
    while fs > 0 && p[fs - 1] != '/'
        invariant
            fs <= t <= p@.len(),
            q == p@.take(t as int),
            spec_file_start(q) == spec_file_start(p@.take(fs as int)),
            forall|j: int| fs <= j < t ==> p@[j] != '/',
        decreases fs,
    {
        fs = fs - 1;
        proof {
            assert(p@.take(fs as int + 1).last() == p@[fs as int]);
            assert(p@.take(fs as int + 1).drop_last() =~= p@.take(fs as int));
        }
    }
    proof {
        if fs > 0 {
            assert(p@.take(fs as int).last() == p@[fs as int - 1]);
        }
        assert(spec_file_start(q) == fs as int);
    }
    let ghost f = q.skip(fs as int);
    let flen: usize = t - fs;
    proof {
        assert(f.len() == flen as int);
        assert(forall|j: int| 0 <= j < f.len() ==> f[j] == p@[fs + j]);
    }
    if flen == 0 {
        return None;
    }
    if flen == 1 && p[fs] == '.' {
        proof {
            assert(f =~= seq!['.']);
        }
        return None;
    }
    if flen == 2 && p[fs] == '.' && p[fs + 1] == '.' {
        proof {
            assert(f =~= seq!['.', '.']);
        }
        return None;
    }
    proof {
        assert(spec_is_normal(f)) by {
            if f == seq!['.'] {
                assert(f.len() == 1 && f[0] == '.');
            }
            if f == seq!['.', '.'] {
                assert(f.len() == 2 && f[0] == '.' && f[1] == '.');
            }
        }
    }
    // locate the last dot within the file part
    let mut j: usize = t;
    proof {
        assert(f.take(flen as int) =~= f);
        crate::paths::lemma_last_dot_append(f.take(flen as int), f.skip(flen as int));
        assert(f.take(flen as int) + f.skip(flen as int) =~= f);
    }
    while j > fs && p[j - 1] != '.'
        invariant
            fs <= j <= t <= p@.len(),
            f == q.skip(fs as int),
            f.len() == t - fs,
            spec_last_dot(f) == spec_last_dot(f.take(j - fs as int)),
            forall|k: int| 0 <= k < f.len() ==> f[k] == p@[fs + k],
        decreases j,
    {
        j = j - 1;
        proof {
            assert(f.take(j - fs as int + 1).last() == f[j - fs as int]);
            assert(f.take(j - fs as int + 1).drop_last() =~= f.take(j - fs as int));
        }
    }
    if j == fs {
        proof {
            assert(f.take(0) =~= Seq::<char>::empty());
            assert(spec_last_dot(f) is None);
        }
        return None;
    }
    proof {
        assert(f.take(j - fs as int).last() == f[j - 1 - fs as int]);
        assert(spec_last_dot(f) == Some(j - 1 - fs as int));
    }
    if j - 1 - fs < 1 {
        return None;
    }
    let mut e: Vec<char> = Vec::new();
    let mut k: usize = j;
    while k < t
        invariant
            j <= k <= t <= p@.len(),
            fs < j,
            q == p@.take(t as int),
            f == q.skip(fs as int),
            e@ == p@.subrange(j as int, k as int),
        decreases t - k,
    {
        e.push(p[k]);
        k = k + 1;
        proof {
            assert(e@ =~= p@.subrange(j as int, k as int));
        }
    }
    proof {
        assert(e@ =~= f.skip(j - fs as int));
    }
    Some(e)
}

/// The mime type a lowered extension implies, for formats whose signature
/// the byte sniffing may miss.
pub open spec fn spec_mime_from_extension(ext: Seq<char>) -> Option<Seq<char>> {
    if ext == "jxl"@ {
        Some("image/jxl"@)
    } else if ext == "avif"@ {
        Some("image/avif"@)
    } else if ext == "heic"@ {
        Some("image/heic"@)
    } else if ext == "heif"@ {
        Some("image/heif"@)
    } else if ext == "tiff"@ || ext == "tif"@ {
        Some("image/tiff"@)
    } else if ext == "ico"@ {
        Some("image/x-icon"@)
    } else if ext == "svg"@ {
        Some("image/svg+xml"@)
    } else {
        None
    }
}

/// The fallback mime type of a path, from its lowered extension: exactly
/// as `spec_mime_from_extension` over the lowered extension states.
pub fn get_mime_type_from_extension(path: &str) -> (r: Option<String>)
    ensures
        match r {
            Some(m) => spec_extension(path@) is Some && spec_mime_from_extension(
                spec_ascii_lowercase(spec_extension(path@)->Some_0),
            ) == Some(m@),
            None => spec_extension(path@) is None || spec_mime_from_extension(
                spec_ascii_lowercase(spec_extension(path@)->Some_0),
            ) is None,
        },
{
    let ext = match extension_lowercase(path) {
        Some(e) => e,
        None => {
            return None;
        },
    };
    let e = ext.as_str();
    if str_eq(e, "jxl") {
        Some(String::from_str("image/jxl"))
    } else if str_eq(e, "avif") {
        Some(String::from_str("image/avif"))
    } else if str_eq(e, "heic") {
        Some(String::from_str("image/heic"))
    } else if str_eq(e, "heif") {
        Some(String::from_str("image/heif"))
    } else if str_eq(e, "tiff") || str_eq(e, "tif") {
        Some(String::from_str("image/tiff"))
    } else if str_eq(e, "ico") {
        Some(String::from_str("image/x-icon"))
    } else if str_eq(e, "svg") {
        Some(String::from_str("image/svg+xml"))
    } else {
        None
    }
}

/// Whether the path names a JPEG XL file by extension.
pub open spec fn spec_is_jxl(path: Seq<char>) -> bool {
    spec_extension(path) is Some && spec_ascii_lowercase(spec_extension(path)->Some_0) == "jxl"@
}

/// Classifies an image already read from disk. A JPEG XL file is decoded
/// to PNG and encoded, or rejected when it does not decode; any other file
/// is encoded as it is, with the mime type its bytes reveal, or the one
/// its extension implies when the bytes reveal none; a file with neither
/// is rejected.
pub fn read_image(path: &str, data: Vec<u8>) -> (r: Result<ImageInfo, ()>)
    ensures
        spec_is_jxl(path@) ==> match r {
            Ok(info) => jxl_png_of(data@) is Some && info.base64@ == base64_of(
                jxl_png_of(data@)->Some_0,
            ) && info.mime_type@ == "image/png"@,
            Err(_) => jxl_png_of(data@) is None,
        },
        !spec_is_jxl(path@) ==> match r {
            Ok(info) => info.base64@ == base64_of(data@) && match mime_of(data@) {
                Some(m) => info.mime_type@ == m,
                None => spec_extension(path@) is Some && spec_mime_from_extension(
                    spec_ascii_lowercase(spec_extension(path@)->Some_0),
                ) == Some(info.mime_type@),
            },
            Err(_) => mime_of(data@) is None && (spec_extension(path@) is None
                || spec_mime_from_extension(
                spec_ascii_lowercase(spec_extension(path@)->Some_0),
            ) is None),
        },
{
    let is_jxl = match extension_lowercase(path) {
        Some(e) => str_eq(e.as_str(), "jxl"),
        None => false,
    };
    if is_jxl {
        match decode_jxl_to_png(&data) {
            Some(png) => {
                let base64 = base64_encode(&png);
                Ok(ImageInfo { base64, mime_type: String::from_str("image/png") })
            },
            None => Err(()),
        }
    } else {
        let mime_type = match detect_mime(&data) {
            Some(m) => m,
            None => match get_mime_type_from_extension(path) {
                Some(m) => m,
                None => {
                    return Err(());
                },
            },
        };
        let base64 = base64_encode(&data);
        Ok(ImageInfo { base64, mime_type })
    }
}

} // verus!
