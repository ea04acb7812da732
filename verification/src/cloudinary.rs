//! The rules of image uploads to the image host: which files are
//! accepted, where they are stored, and how requests are signed.

use vstd::prelude::*;
use vstd::string::StringSliceAdditionalSpecFns;
use sha2::{Digest, Sha256};
use crate::config::CloudinaryConfig;
use crate::constants::{allowed_extensions, allowed_mime_types, MAX_FILE_SIZE};
use crate::errors::AppError;
use crate::text::{
    contains_str, decimal_digits, join_spec, text_lowercase, push_decimal, push_str, str_views,
    to_lowercase,
};

verus! {

/// Where and how an uploaded image is stored.
#[derive(Debug, Clone, PartialEq, Eq)]
pub struct UploadOptions {
    pub folder: &'static str,
    pub public_id: Option<String>,
    pub optimize: bool,
}

fn prefixed_id(prefix: &str, id: i64) -> (r: String)
    ensures
        r@ == prefix@ + crate::text::int_decimal(id as int),
{
    let mut s = String::new();
    push_str(&mut s, prefix);
    crate::text::push_i64_decimal(&mut s, id);
    assert(s@ =~= prefix@ + crate::text::int_decimal(id as int));
    s
}

impl UploadOptions {
    /// A user's photo: folder "wms/users", public id "user_<id>", optimized.
    pub fn for_user(user_id: i64) -> (r: UploadOptions)
        ensures
            r.folder@ == "wms/users"@,
            r.public_id matches Some(p) && p@ == "user_"@ + crate::text::int_decimal(user_id as int),
            r.optimize,
    {
        UploadOptions { folder: "wms/users", public_id: Some(prefixed_id("user_", user_id)), optimize: true }
    }

    /// A warehouse's photo: folder "wms/warehouses", public id
    /// "warehouse_<id>", optimized.
    pub fn for_warehouse(warehouse_id: i64) -> (r: UploadOptions)
        ensures
            r.folder@ == "wms/warehouses"@,
            r.public_id matches Some(p) && p@ == "warehouse_"@ + crate::text::int_decimal(warehouse_id as int),
            r.optimize,
    {
        UploadOptions {
            folder: "wms/warehouses",
            public_id: Some(prefixed_id("warehouse_", warehouse_id)),
            optimize: true,
        }
    }

    /// A product's photo: folder "wms/products", public id
    /// "product_<id>", optimized.
    pub fn for_product(product_id: i64) -> (r: UploadOptions)
        ensures
            r.folder@ == "wms/products"@,
            r.public_id matches Some(p) && p@ == "product_"@ + crate::text::int_decimal(product_id as int),
            r.optimize,
    {
        UploadOptions {
            folder: "wms/products",
            public_id: Some(prefixed_id("product_", product_id)),
            optimize: true,
        }
    }
}

/// The image host's reply to a successful upload.
#[derive(Debug, Clone, PartialEq, Eq)]
pub struct CloudinaryUploadResponse {
    pub secure_url: String,
    pub public_id: String,
    pub format: String,
    pub bytes: u64,
    pub width: Option<u32>,
    pub height: Option<u32>,
}

/// The lowercase hexadecimal digit of a value below 16.
pub open spec fn hex_digit(n: int) -> char {
    if n < 10 {
        crate::text::digit_char_spec(n)
    } else if n == 10 { 'a' }
    else if n == 11 { 'b' }
    else if n == 12 { 'c' }
    else if n == 13 { 'd' }
    else if n == 14 { 'e' }
    else { 'f' }
}

/// Lowercase hexadecimal text of bytes: two digits per byte, high
/// nibble first.
pub open spec fn hex_lower(bytes: Seq<u8>) -> Seq<char>
    decreases bytes.len(),
{
    if bytes.len() == 0 {
        Seq::<char>::empty()
    } else {
        hex_lower(bytes.drop_last()) + seq![hex_digit(bytes.last() as int / 16), hex_digit(bytes.last() as int % 16)]
    }
}

/// The SHA-256 digest of a byte sequence; a function of the bytes alone.
pub uninterp spec fn sha256_of(data: Seq<u8>) -> Seq<u8>;

/// Wraps `<Sha256 as Digest>::digest` (sha2): the digest is named
/// `sha256_of` of the input bytes, and is 32 bytes long.
#[verifier::external_body]
fn sha256_digest(data: &[u8]) -> (r: Vec<u8>)
    ensures
        r@ == sha256_of(data@),
        r@.len() == 32,
{
    Sha256::digest(data).to_vec()
}

/// Wraps `hex::encode`: as its documentation states, the text is the
/// lowercase hexadecimal digits of each byte, high nibble first.
#[verifier::external_body]
fn hex_encode(data: &[u8]) -> (r: String)
    ensures
        r@ == hex_lower(data@),
{
    hex::encode(data)
}

/// Lowercase hexadecimal SHA-256 of the UTF-8 bytes of `input`.
pub fn sha256_hex(input: &str) -> (r: String)
    ensures
        r@ == hex_lower(sha256_of(input.spec_bytes())),
        r@.len() == 64,
{
    let digest = sha256_digest(input.as_bytes());
    let r = hex_encode(digest.as_slice());
    proof {
        lemma_hex_lower_len(digest@);
    }
    r
}

proof fn lemma_hex_lower_len(bytes: Seq<u8>)
    ensures
        hex_lower(bytes).len() == 2 * bytes.len(),
    decreases bytes.len(),
{
    if bytes.len() > 0 {
        lemma_hex_lower_len(bytes.drop_last());
    }
}

} // verus!

verus! {

/// The accepted image MIME types.
pub open spec fn mime_types_spec() -> Seq<Seq<char>> {
    seq!["image/jpeg"@, "image/png"@, "image/webp"@]
}

/// The accepted file extensions.
pub open spec fn extensions_spec() -> Seq<Seq<char>> {
    seq!["jpg"@, "jpeg"@, "png"@, "webp"@]
}

/// The file extension an upload is judged by: the lowercased text after
/// the file name's last '.' (the whole name when it has none).
pub open spec fn extension_spec(file_name: Seq<char>) -> Seq<char> {
    text_lowercase(crate::text::after_last(file_name, '.'))
}

/// The verdict on a file offered for upload: its extension when the file
/// is acceptable, otherwise the validation message. Too large files are
/// refused first, then files of another type, then files with another
/// extension.
pub open spec fn upload_check(len: int, file_name: Seq<char>, content_type: Seq<char>) -> Result<Seq<char>, Seq<char>> {
    if len > MAX_FILE_SIZE {
        Err("File size "@ + decimal_digits((len / 1024 / 1024) as nat) + "MB exceeds the "@
            + decimal_digits((MAX_FILE_SIZE / 1024 / 1024) as nat) + "MB limit"@)
    } else if !mime_types_spec().contains(content_type) {
        Err("File type '"@ + content_type + "' is not allowed. Allowed types: "@
            + join_spec(mime_types_spec(), ", "@))
    } else if !extensions_spec().contains(extension_spec(file_name)) {
        Err("File extension '."@ + extension_spec(file_name) + "' is not allowed. Allowed: "@
            + join_spec(extensions_spec(), ", "@))
    } else {
        Ok(extension_spec(file_name))
    }
}

/// The message for a file over the size limit.
pub fn file_too_large_message(len: usize) -> (r: String)
    ensures
        r@ == "File size "@ + decimal_digits((len / 1024 / 1024) as nat) + "MB exceeds the "@
            + decimal_digits((MAX_FILE_SIZE / 1024 / 1024) as nat) + "MB limit"@,
{
    let mut m = String::new();
    push_str(&mut m, "File size ");
    push_decimal(&mut m, (len / 1024 / 1024) as u64);
    push_str(&mut m, "MB exceeds the ");
    push_decimal(&mut m, (MAX_FILE_SIZE / 1024 / 1024) as u64);
    push_str(&mut m, "MB limit");
    assert(m@ =~= "File size "@ + decimal_digits((len / 1024 / 1024) as nat) + "MB exceeds the "@
        + decimal_digits((MAX_FILE_SIZE / 1024 / 1024) as nat) + "MB limit"@);
    m
}

/// The message for a file of a type that is not accepted.
pub fn file_type_message(content_type: &str) -> (r: String)
    ensures
        r@ == "File type '"@ + content_type@ + "' is not allowed. Allowed types: "@
            + join_spec(mime_types_spec(), ", "@),
{
    let allowed = allowed_mime_types();
    let mut m = String::new();
    push_str(&mut m, "File type '");
    push_str(&mut m, content_type);
    push_str(&mut m, "' is not allowed. Allowed types: ");
    let list = crate::text::join_strs(allowed.as_slice(), ", ");
    push_str(&mut m, list.as_str());
    assert(m@ =~= "File type '"@ + content_type@ + "' is not allowed. Allowed types: "@
        + join_spec(mime_types_spec(), ", "@));
    m
}

/// Checks a file offered for upload: at most `MAX_FILE_SIZE` bytes, an
/// accepted image type, and an accepted extension. Gives the extension.
pub fn check_upload(len: usize, file_name: &str, content_type: &str) -> (r: Result<String, AppError>)
    ensures
        match upload_check(len as int, file_name@, content_type@) {
            Ok(ext) => r matches Ok(e) && e@ == ext,
            Err(m) => r matches Err(AppError::Validation(s)) && s@ == m,
        },
{
    if len > MAX_FILE_SIZE {
        return Err(AppError::Validation(file_too_large_message(len)));
    }
    let mimes = allowed_mime_types();
    if !contains_str(mimes.as_slice(), content_type) {
        return Err(AppError::Validation(file_type_message(content_type)));
    }
    let after = crate::text::text_after_last(file_name, '.');
    let ext = to_lowercase(after.as_str());
    let exts = allowed_extensions();
    if !contains_str(exts.as_slice(), ext.as_str()) {
        let mut m = String::new();
        push_str(&mut m, "File extension '.");
        push_str(&mut m, ext.as_str());
        push_str(&mut m, "' is not allowed. Allowed: ");
        let list = crate::text::join_strs(exts.as_slice(), ", ");
        push_str(&mut m, list.as_str());
        assert(m@ =~= "File extension '."@ + extension_spec(file_name@) + "' is not allowed. Allowed: "@
            + join_spec(extensions_spec(), ", "@));
        return Err(AppError::Validation(m));
    }
    Ok(ext)
}

} // verus!

verus! {

/// The eager transformation requested for optimized uploads.
pub const EAGER_TRANSFORMATION: &'static str = "c_fill,w_800,h_800,q_auto,f_auto";

/// The parameters an upload request signs, in the order they are signed:
/// sorted by name (eager, folder, public_id, timestamp).
pub open spec fn signed_params_spec(folder: Seq<char>, public_id: Option<Seq<char>>, optimize: bool, timestamp: Seq<char>) -> Seq<(Seq<char>, Seq<char>)> {
    (if optimize { seq![("eager"@, EAGER_TRANSFORMATION@)] } else { Seq::empty() })
        + seq![("folder"@, folder)]
        + (match public_id { Some(p) => seq![("public_id"@, p)], None => Seq::empty() })
        + seq![("timestamp"@, timestamp)]
}

/// The parameters in the order they are collected: folder, timestamp,
/// then the public id and the eager transformation when present.
pub open spec fn collected_params_spec(folder: Seq<char>, public_id: Option<Seq<char>>, optimize: bool, timestamp: Seq<char>) -> Seq<(Seq<char>, Seq<char>)> {
    seq![("folder"@, folder), ("timestamp"@, timestamp)]
        + (match public_id { Some(p) => seq![("public_id"@, p)], None => Seq::empty() })
        + (if optimize { seq![("eager"@, EAGER_TRANSFORMATION@)] } else { Seq::empty() })
}

/// Lexicographic order of character sequences (as `String` orders them).
pub open spec fn lex_lt(a: Seq<char>, b: Seq<char>) -> bool {
    exists|k: int|
        0 <= k <= a.len() && k <= b.len() && #[trigger] a.take(k) == b.take(k) && (
            (k < a.len() && k < b.len() && a[k] < b[k]) || (k == a.len() && k < b.len()))
}

/// "k=v" for one parameter.
pub open spec fn param_text(p: (Seq<char>, Seq<char>)) -> Seq<char> {
    p.0 + "="@ + p.1
}

/// The text that is signed: "k=v" pairs joined with '&'.
pub open spec fn params_string_spec(params: Seq<(Seq<char>, Seq<char>)>) -> Seq<char> {
    join_spec(params.map_values(|p: (Seq<char>, Seq<char>)| param_text(p)), "&"@)
}

/// The signature of a text: hexadecimal SHA-256 of the text followed by
/// the API secret.
pub open spec fn signature_spec(to_sign: Seq<char>, secret: Seq<char>) -> Seq<char> {
    hex_lower(sha256_of(vstd::utf8::encode_utf8(to_sign + secret)))
}

/// The order in which parameters are signed is the collected parameters
/// sorted by name: it holds the same parameters, and the names strictly
/// increase.
pub proof fn lemma_signed_params_sorted(folder: Seq<char>, public_id: Option<Seq<char>>, optimize: bool, timestamp: Seq<char>)
    ensures
        ({
            let s = signed_params_spec(folder, public_id, optimize, timestamp);
            let c = collected_params_spec(folder, public_id, optimize, timestamp);
            &&& s.len() == c.len()
            &&& forall|i: int| 0 <= i < s.len() ==> c.contains(#[trigger] s[i])
            &&& forall|i: int| 0 <= i < c.len() ==> s.contains(#[trigger] c[i])
            &&& forall|i: int, j: int| 0 <= i < j < s.len() ==> lex_lt(#[trigger] s[i].0, #[trigger] s[j].0)
        }),
{
    reveal_strlit("eager");
    reveal_strlit("folder");
    reveal_strlit("public_id");
    reveal_strlit("timestamp");
    let s = signed_params_spec(folder, public_id, optimize, timestamp);
    let c = collected_params_spec(folder, public_id, optimize, timestamp);
    let e = ("eager"@, EAGER_TRANSFORMATION@);
    let f = ("folder"@, folder);
    let t = ("timestamp"@, timestamp);
    assert forall|a: Seq<char>, b: Seq<char>| a.len() > 0 && b.len() > 0 && a[0] < b[0] implies lex_lt(a, b) by {
        assert(a.take(0) =~= b.take(0));
    }
    match public_id {
        Some(p) => {
            let q = ("public_id"@, p);
            if optimize {
                assert(s =~= seq![e, f, q, t]);
                assert(c =~= seq![f, t, q, e]);
                assert(c[3] == e && c[0] == f && c[2] == q && c[1] == t);
                assert(s[0] == e && s[1] == f && s[2] == q && s[3] == t);
            } else {
                assert(s =~= seq![f, q, t]);
                assert(c =~= seq![f, t, q]);
                assert(c[0] == f && c[2] == q && c[1] == t);
                assert(s[0] == f && s[1] == q && s[2] == t);
            }
        },
        None => {
            if optimize {
                assert(s =~= seq![e, f, t]);
                assert(c =~= seq![f, t, e]);
                assert(c[2] == e && c[0] == f && c[1] == t);
                assert(s[0] == e && s[1] == f && s[2] == t);
            } else {
                assert(s =~= seq![f, t]);
                assert(c =~= seq![f, t]);
                assert(c[0] == f && c[1] == t);
                assert(s[0] == f && s[1] == t);
            }
        },
    }
}

fn param(key: &str, value: &str) -> (r: (String, String))
    ensures
        r.0@ == key@,
        r.1@ == value@,
{
    (key.to_owned(), value.to_owned())
}

/// The views of a list of (name, value) pairs.
pub open spec fn pair_views(v: Seq<(String, String)>) -> Seq<(Seq<char>, Seq<char>)> {
    v.map_values(|p: (String, String)| (p.0@, p.1@))
}

/// The parameters an upload request signs, sorted by name.
pub fn signed_params(options: &UploadOptions, timestamp: &str) -> (r: Vec<(String, String)>)
    ensures
        pair_views(r@) == signed_params_spec(
            options.folder@,
            match options.public_id { Some(p) => Some(p@), None => None },
            options.optimize,
            timestamp@,
        ),
{
    let mut params: Vec<(String, String)> = Vec::new();
    if options.optimize {
        params.push(param("eager", EAGER_TRANSFORMATION));
    }
    params.push(param("folder", options.folder));
    match &options.public_id {
        Some(p) => params.push(param("public_id", p.as_str())),
        None => {},
    }
    params.push(param("timestamp", timestamp));
    assert(pair_views(params@) =~= signed_params_spec(
        options.folder@,
        match options.public_id { Some(p) => Some(p@), None => None },
        options.optimize,
        timestamp@,
    ));
    params
}

/// Joins parameters as "k=v" pairs separated by '&'.
pub fn params_string(params: &Vec<(String, String)>) -> (r: String)
    ensures
        r@ == params_string_spec(pair_views(params@)),
{
    let mut texts: Vec<String> = Vec::new();
    let n = params.len();
    let mut i: usize = 0;
    while i < n
        invariant
            n == params@.len(),
            i <= n,
            texts@.len() == i,
            forall|k: int| 0 <= k < i ==> (#[trigger] texts@[k])@ == param_text(pair_views(params@)[k]),
        decreases n - i,
    {
        let mut t = String::new();
        push_str(&mut t, params[i].0.as_str());
        push_str(&mut t, "=");
        push_str(&mut t, params[i].1.as_str());
        assert(t@ =~= param_text(pair_views(params@)[i as int]));
        texts.push(t);
        i = i + 1;
    }
    assert(crate::text::views(texts@) =~= pair_views(params@).map_values(|p: (Seq<char>, Seq<char>)| param_text(p)));
    crate::text::join(&texts, "&")
}

/// Signs a text with the API secret.
pub fn sign(to_sign: &str, secret: &str) -> (r: String)
    ensures
        r@ == signature_spec(to_sign@, secret@),
{
    let mut s = String::new();
    push_str(&mut s, to_sign);
    push_str(&mut s, secret);
    assert(s@ =~= to_sign@ + secret@);
    sha256_hex(s.as_str())
}

/// The fields of a signed upload request.
#[derive(Debug, Clone, PartialEq, Eq)]
pub struct UploadForm {
    pub api_key: String,
    pub timestamp: String,
    pub signature: String,
    pub folder: String,
    pub public_id: Option<String>,
    pub eager: Option<String>,
    pub file_name: String,
    pub content_type: String,
}

/// Checks a file and builds the signed upload request for it, at the
/// given Unix time (seconds).
pub fn prepare_upload(
    config: &CloudinaryConfig,
    file_len: usize,
    file_name: &str,
    content_type: &str,
    options: UploadOptions,
    now_secs: u64,
) -> (r: Result<UploadForm, AppError>)
    ensures
        match upload_check(file_len as int, file_name@, content_type@) {
            Err(m) => r matches Err(AppError::Validation(s)) && s@ == m,
            Ok(_) => r matches Ok(f) && {
                let pid = match options.public_id { Some(p) => Some(p@), None => None };
                let ts = decimal_digits(now_secs as nat);
                &&& f.api_key@ == config.api_key@
                &&& f.timestamp@ == ts
                &&& f.signature@ == signature_spec(
                    params_string_spec(signed_params_spec(options.folder@, pid, options.optimize, ts)),
                    config.api_secret@)
                &&& f.folder@ == options.folder@
                &&& match f.public_id { Some(p) => pid == Some(p@), None => pid is None }
                &&& (if options.optimize { f.eager matches Some(e) && e@ == EAGER_TRANSFORMATION@ } else { f.eager is None })
                &&& f.file_name@ == file_name@
                &&& f.content_type@ == content_type@
            },
        },
{
    check_upload(file_len, file_name, content_type)?;
    let timestamp = crate::text::u64_to_decimal(now_secs);
    let params = signed_params(&options, timestamp.as_str());
    let to_sign = params_string(&params);
    let signature = sign(to_sign.as_str(), config.api_secret.as_str());
    let eager = if options.optimize { Some(EAGER_TRANSFORMATION.to_owned()) } else { None };
    Ok(UploadForm {
        api_key: config.api_key.clone(),
        timestamp,
        signature,
        folder: options.folder.to_owned(),
        public_id: options.public_id,
        eager,
        file_name: file_name.to_owned(),
        content_type: content_type.to_owned(),
    })
}

/// The fields of a signed deletion request.
#[derive(Debug, Clone, PartialEq, Eq)]
pub struct DestroyForm {
    pub public_id: String,
    pub api_key: String,
    pub timestamp: String,
    pub signature: String,
}

/// Builds the signed request that deletes image `public_id`, at the
/// given Unix time (seconds).
pub fn prepare_destroy(config: &CloudinaryConfig, public_id: &str, now_secs: u64) -> (r: DestroyForm)
    ensures
        r.public_id@ == public_id@,
        r.api_key@ == config.api_key@,
        r.timestamp@ == decimal_digits(now_secs as nat),
        r.signature@ == signature_spec(
            "public_id="@ + public_id@ + "&timestamp="@ + decimal_digits(now_secs as nat),
            config.api_secret@),
{
    let timestamp = crate::text::u64_to_decimal(now_secs);
    let mut to_sign = String::new();
    push_str(&mut to_sign, "public_id=");
    push_str(&mut to_sign, public_id);
    push_str(&mut to_sign, "&timestamp=");
    push_str(&mut to_sign, timestamp.as_str());
    let signature = sign(to_sign.as_str(), config.api_secret.as_str());
    assert(to_sign@ =~= "public_id="@ + public_id@ + "&timestamp="@ + decimal_digits(now_secs as nat));
    DestroyForm {
        public_id: public_id.to_owned(),
        api_key: config.api_key.clone(),
        timestamp,
        signature,
    }
}

/// The error for an upload the image host refused: its own error message
/// when its reply carries one, otherwise "HTTP " and the status.
pub fn upload_failed_error(detail: Option<String>, status_text: &str) -> (r: AppError)
    ensures
        r matches AppError::Internal(m) && m@ == "Cloudinary upload failed: "@ + match detail {
            Some(d) => d@,
            None => "HTTP "@ + status_text@,
        },
{
    let mut m = String::new();
    push_str(&mut m, "Cloudinary upload failed: ");
    match &detail {
        Some(d) => push_str(&mut m, d.as_str()),
        None => {
            push_str(&mut m, "HTTP ");
            push_str(&mut m, status_text);
        },
    }
    assert(m@ =~= "Cloudinary upload failed: "@ + match detail {
        Some(d) => d@,
        None => "HTTP "@ + status_text@,
    });
    AppError::Internal(m)
}

} // verus!

verus! {

/// Which files are accepted: one of at most 5242880 bytes, of type
/// image/jpeg, image/png or image/webp, whose name ends in one of the
/// extensions jpg, jpeg, png or webp after its last '.' (in any letter
/// case) is accepted, and the verdict is that lowercased extension; every
/// other file is refused, for its size first, then its type, then its
/// extension.
pub proof fn lemma_upload_verdict(len: int, file_name: Seq<char>, content_type: Seq<char>)
    ensures
        ({
            let ext = text_lowercase(crate::text::after_last(file_name, '.'));
            let size_ok = len <= 5242880;
            let type_ok = content_type == "image/jpeg"@ || content_type == "image/png"@
                || content_type == "image/webp"@;
            let ext_ok = ext == "jpg"@ || ext == "jpeg"@ || ext == "png"@ || ext == "webp"@;
            &&& (size_ok && type_ok && ext_ok ==> upload_check(len, file_name, content_type)
                == Ok::<Seq<char>, Seq<char>>(ext))
            &&& (!size_ok ==> (upload_check(len, file_name, content_type) matches Err(m)
                && m.take(10) == "File size "@))
            &&& (size_ok && !type_ok ==> (upload_check(len, file_name, content_type) matches Err(m)
                && m.take(11) == "File type '"@))
            &&& (size_ok && type_ok && !ext_ok ==> (upload_check(len, file_name, content_type) matches Err(m)
                && m.take(17) == "File extension '."@))
        }),
{
    reveal_strlit("image/jpeg");
    reveal_strlit("image/png");
    reveal_strlit("image/webp");
    reveal_strlit("jpg");
    reveal_strlit("jpeg");
    reveal_strlit("png");
    reveal_strlit("webp");
    reveal_strlit("File size ");
    reveal_strlit("File type '");
    reveal_strlit("File extension '.");
    let ext = text_lowercase(crate::text::after_last(file_name, '.'));
    let mt = mime_types_spec();
    let es = extensions_spec();
    assert(mt[0] == "image/jpeg"@ && mt[1] == "image/png"@ && mt[2] == "image/webp"@);
    assert(mt.contains(content_type) <==> (content_type == "image/jpeg"@ || content_type == "image/png"@
        || content_type == "image/webp"@)) by {
        if mt.contains(content_type) {
            let i = choose|i: int| 0 <= i < mt.len() && mt[i] == content_type;
            assert(i == 0 || i == 1 || i == 2);
        }
        if content_type == "image/jpeg"@ { assert(mt[0] == content_type); }
        if content_type == "image/png"@ { assert(mt[1] == content_type); }
        if content_type == "image/webp"@ { assert(mt[2] == content_type); }
    }
    assert(es[0] == "jpg"@ && es[1] == "jpeg"@ && es[2] == "png"@ && es[3] == "webp"@);
    assert(es.contains(ext) <==> (ext == "jpg"@ || ext == "jpeg"@ || ext == "png"@ || ext == "webp"@)) by {
        if es.contains(ext) {
            let i = choose|i: int| 0 <= i < es.len() && es[i] == ext;
            assert(i == 0 || i == 1 || i == 2 || i == 3);
        }
        if ext == "jpg"@ { assert(es[0] == ext); }
        if ext == "jpeg"@ { assert(es[1] == ext); }
        if ext == "png"@ { assert(es[2] == ext); }
        if ext == "webp"@ { assert(es[3] == ext); }
    }
    let d = decimal_digits((len / 1024 / 1024) as nat) + "MB exceeds the "@
        + decimal_digits((MAX_FILE_SIZE / 1024 / 1024) as nat) + "MB limit"@;
    assert(("File size "@ + d).take(10) =~= "File size "@);
    let t = content_type + "' is not allowed. Allowed types: "@ + join_spec(mt, ", "@);
    assert(("File type '"@ + t).take(11) =~= "File type '"@);
    let x = ext + "' is not allowed. Allowed: "@ + join_spec(es, ", "@);
    assert(("File extension '."@ + x).take(17) =~= "File extension '."@);
    assert("File size "@ + decimal_digits((len / 1024 / 1024) as nat) + "MB exceeds the "@
        + decimal_digits((MAX_FILE_SIZE / 1024 / 1024) as nat) + "MB limit"@ =~= "File size "@ + d);
    assert("File type '"@ + content_type + "' is not allowed. Allowed types: "@
        + join_spec(mt, ", "@) =~= "File type '"@ + t);
    assert("File extension '."@ + ext + "' is not allowed. Allowed: "@
        + join_spec(es, ", "@) =~= "File extension '."@ + x);
}

} // verus!

verus! {

/// The signed text names every parameter once, in name order, as
/// "name=value" joined with '&': with the eager transformation and a
/// public id it is "eager=…&folder=…&public_id=…&timestamp=…", without
/// them "folder=…&timestamp=…".
#[verifier::rlimit(50)]
pub proof fn lemma_signed_text(folder: Seq<char>, public_id: Seq<char>, timestamp: Seq<char>)
    ensures
        params_string_spec(signed_params_spec(folder, Some(public_id), true, timestamp))
            == "eager=c_fill,w_800,h_800,q_auto,f_auto"@ + "&folder="@ + folder + "&public_id="@ + public_id
                + "&timestamp="@ + timestamp,
        params_string_spec(signed_params_spec(folder, None, false, timestamp))
            == "folder="@ + folder + "&timestamp="@ + timestamp,
{
    reveal_strlit("eager=c_fill,w_800,h_800,q_auto,f_auto");
    reveal_strlit("c_fill,w_800,h_800,q_auto,f_auto");
    reveal_strlit("&folder=");
    reveal_strlit("&public_id=");
    reveal_strlit("&timestamp=");
    reveal_strlit("folder=");
    reveal_strlit("eager");
    reveal_strlit("folder");
    reveal_strlit("public_id");
    reveal_strlit("timestamp");
    reveal_strlit("=");
    reveal_strlit("&");
    let full = signed_params_spec(folder, Some(public_id), true, timestamp);
    let texts = full.map_values(|p: (Seq<char>, Seq<char>)| param_text(p));
    assert(full =~= seq![("eager"@, EAGER_TRANSFORMATION@), ("folder"@, folder), ("public_id"@, public_id),
        ("timestamp"@, timestamp)]);
    let t0 = "eager"@ + "="@ + EAGER_TRANSFORMATION@;
    let t1 = "folder"@ + "="@ + folder;
    let t2 = "public_id"@ + "="@ + public_id;
    let t3 = "timestamp"@ + "="@ + timestamp;
    assert(texts =~= seq![t0, t1, t2, t3]);
    let s4 = seq![t0, t1, t2, t3];
    assert(s4.drop_last() =~= seq![t0, t1, t2]);
    assert(seq![t0, t1, t2].drop_last() =~= seq![t0, t1]);
    assert(seq![t0, t1].drop_last() =~= seq![t0]);
    assert(join_spec(seq![t0], "&"@) == t0);
    assert(join_spec(seq![t0, t1], "&"@) == t0 + "&"@ + t1);
    assert(join_spec(seq![t0, t1, t2], "&"@) == t0 + "&"@ + t1 + "&"@ + t2);
    assert(join_spec(s4, "&"@) == t0 + "&"@ + t1 + "&"@ + t2 + "&"@ + t3);
    assert(t0 + "&"@ + t1 + "&"@ + t2 + "&"@ + t3 =~= "eager=c_fill,w_800,h_800,q_auto,f_auto"@ + "&folder="@
        + folder + "&public_id="@ + public_id + "&timestamp="@ + timestamp);
    let bare = signed_params_spec(folder, None, false, timestamp);
    assert(bare =~= seq![("folder"@, folder), ("timestamp"@, timestamp)]);
    let bt = bare.map_values(|p: (Seq<char>, Seq<char>)| param_text(p));
    assert(bt =~= seq![t1, t3]);
    assert(seq![t1, t3].drop_last() =~= seq![t1]);
    assert(join_spec(seq![t1], "&"@) == t1);
    assert(seq![t1, t3].last() == t3);
    assert(join_spec(seq![t1, t3], "&"@) == t1 + "&"@ + t3);
    assert(t1 + "&"@ + t3 =~= "folder="@ + folder + "&timestamp="@ + timestamp);
}

} // verus!
