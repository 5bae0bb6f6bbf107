//! The protocol of the upstream service: signing a request, decrypting a
//! payload, reading each endpoint's response, and the block-count function.

use vstd::prelude::*;
use vstd::string::StrSliceExecFns;
use vstd::string::StringExecFns;
use vstd::utf8::decode_utf8;
use vstd::utf8::encode_utf8;
use vstd::utf8::is_ascii_chars;
use vstd::utf8::valid_utf8;

use crate::crypto::base64_decode;
use crate::crypto::base64_standard;
use crate::crypto::ecb_decrypt;
use crate::crypto::ecb_decrypted;
use crate::crypto::hex_lower;
use crate::crypto::md5_compute;
use crate::crypto::md5_hex;
use crate::crypto::md5_hex_of;
use crate::crypto::string_from_utf8;
use crate::models::GetChapterRespData;
use crate::models::GetComicRespData;
use crate::models::JmResp;
use crate::text::append_decimal;
use crate::text::chars_of;
use crate::text::contains;
use crate::text::contains_text;
use crate::text::join3;
use crate::text::join4;
use crate::text::lowercased;
use crate::text::to_lowercase;
use crate::text::decimal;
use crate::text::has_prefix;
use crate::text::lemma_has_prefix;
use crate::text::i64_to_string;
use crate::text::u64_to_string;
use crate::AppError;
use crate::ErrorKind;
use crate::failed_with;

verus! {

/// The secret that signs the login, album and chapter requests.
pub open spec fn token_secret() -> Seq<char> {
    "18comicAPP"@
}

/// The secret that signs the request for the chapter view.
pub open spec fn content_token_secret() -> Seq<char> {
    "18comicAPPContent"@
}

/// The secret from which the key of a payload is made.
pub open spec fn data_secret() -> Seq<char> {
    "185Hcomic3PAPP7R"@
}

/// The token of a request sent at `ts`, Unix seconds, under `secret`: the
/// MD5 digest, in hexadecimal, of the decimal `ts` followed by the secret.
pub open spec fn token(ts: u64, secret: Seq<char>) -> Seq<char> {
    md5_hex(decimal(ts as int) + secret)
}

/// The `tokenparam` header of a request sent at `ts`: the decimal `ts`, a
/// comma, and the version of the application.
pub open spec fn tokenparam(ts: u64) -> Seq<char> {
    decimal(ts as int) + ","@ + "2.0.13"@
}

/// The token of a request sent at `ts` under `secret`: 32 characters of
/// ASCII.
pub fn generate_token(ts: u64, secret: &str) -> (r: String)
    ensures
        r@ == token(ts, secret@),
        r@.len() == 32,
        is_ascii_chars(r@),
{
    let mut data = u64_to_string(ts);
    data.append(secret);
    md5_hex_of(data.as_str())
}

/// The `tokenparam` header of a request sent at `ts`.
pub fn generate_tokenparam(ts: u64) -> (r: String)
    ensures
        r@ == tokenparam(ts),
{
    let mut r = u64_to_string(ts);
    r.append(",");
    r.append("2.0.13");
    r
}

/// The key of a payload received for a request sent at `ts`: the ASCII
/// bytes of the hexadecimal MD5 digest of the decimal `ts` followed by the
/// data secret.
pub open spec fn data_key(ts: u64) -> Seq<u8> {
    encode_utf8(md5_hex(decimal(ts as int) + data_secret()))
}

/// Why a payload could not be decrypted.
pub enum DecryptFailure {
    /// The text is no Base-64.
    Base64,
    /// The bytes are none, or no whole number of sixteen-byte blocks.
    Padding,
    /// The last byte asks to strip more than there is.
    PadLength,
    /// What is left after stripping is no UTF-8.
    Utf8,
}

/// The text that a payload holds: decoded from Base-64, decrypted under the
/// key of `ts` block by block, stripped of as many bytes as its last byte
/// says, and read as UTF-8.
pub open spec fn decrypted(ts: u64, data: Seq<char>) -> Result<Seq<char>, DecryptFailure> {
    match base64_standard(data) {
        None => Err(DecryptFailure::Base64),
        Some(cipher) => {
            let plain = ecb_decrypted(data_key(ts), cipher);
            if cipher.len() % 16 != 0 || plain.len() == 0 {
                Err(DecryptFailure::Padding)
            } else if plain.last() as int > plain.len() {
                Err(DecryptFailure::PadLength)
            } else {
                let body = plain.subrange(0, plain.len() - plain.last() as int);
                if valid_utf8(body) {
                    Ok(decode_utf8(body))
                } else {
                    Err(DecryptFailure::Utf8)
                }
            }
        },
    }
}

/// How the message of a decryption failure begins. For a failure of the
/// padding it is the whole message; for the others the decoder's own
/// description follows.
pub open spec fn decrypt_failure_text(f: DecryptFailure) -> Seq<char> {
    match f {
        DecryptFailure::Base64 => "Base64解码失败: "@,
        DecryptFailure::Padding => "解密数据长度无效"@,
        DecryptFailure::PadLength => "解密数据填充长度无效"@,
        DecryptFailure::Utf8 => "解密数据转UTF-8失败: "@,
    }
}

/// Strips from `plain` as many bytes as its last byte says.
pub fn strip_padding(plain: Vec<u8>) -> (r: Option<Vec<u8>>)
    ensures
        match r {
            Some(body) => plain@.len() > 0 && plain@.last() as int <= plain@.len() && body@
                == plain@.subrange(0, plain@.len() - plain@.last() as int),
            None => plain@.len() == 0 || plain@.last() as int > plain@.len(),
        },
{
    let n = plain.len();
    if n == 0 {
        return None;
    }
    let pad = plain[n - 1] as usize;
    if pad > n {
        return None;
    }
    let mut body = plain;
    body.truncate(n - pad);
    Some(body)
}

/// Decrypts the payload of a response to a request sent at `ts`. Every
/// failure is an `Internal` error.
pub fn decrypt_data(ts: u64, data: &str) -> (r: Result<String, AppError>)
    ensures
        match decrypted(ts, data@) {
            Ok(text) => r matches Ok(s) && s@ == text,
            Err(f) => r matches Err(e) && e.kind() == ErrorKind::Internal && has_prefix(
                e.text(),
                decrypt_failure_text(f),
            ) && (f is Padding || f is PadLength ==> e.text() == decrypt_failure_text(f)),
        },
{
    proof {
        lemma_has_prefix("解密数据长度无效"@, Seq::empty());
        lemma_has_prefix("解密数据填充长度无效"@, Seq::empty());
    }
    let cipher = match base64_decode(data) {
        Ok(bytes) => bytes,
        Err(detail) => {
            let mut m = String::from_str("Base64解码失败: ");
            m.append(detail.as_str());
            proof {
                lemma_has_prefix("Base64解码失败: "@, detail@);
            }
            return Err(AppError::Internal(m));
        },
    };
    if cipher.len() % 16 != 0 {
        return Err(AppError::Internal(String::from_str("解密数据长度无效")));
    }
    let mut key_text = u64_to_string(ts);
    key_text.append("185Hcomic3PAPP7R");
    let key = md5_hex_of(key_text.as_str());
    proof {
        vstd::utf8::is_ascii_chars_encode_utf8(key@);
    }
    let plain = ecb_decrypt(key.as_str().as_bytes(), cipher.as_slice());
    if plain.len() == 0 {
        return Err(AppError::Internal(String::from_str("解密数据长度无效")));
    }
    let body = match strip_padding(plain) {
        Some(body) => body,
        None => {
            return Err(AppError::Internal(String::from_str("解密数据填充长度无效")));
        },
    };
    match string_from_utf8(body) {
        Ok(text) => Ok(text),
        Err(detail) => {
            let mut m = String::from_str("解密数据转UTF-8失败: ");
            m.append(detail.as_str());
            proof {
                lemma_has_prefix("解密数据转UTF-8失败: "@, detail@);
            }
            Err(AppError::Internal(m))
        },
    }
}

/// The position of the last `.` before `to`, or -1 where there is none.
pub open spec fn last_dot(name: Seq<char>, to: int) -> int
    decreases to,
{
    if to <= 0 {
        -1
    } else if name[to - 1] == '.' {
        to - 1
    } else {
        last_dot(name, to - 1)
    }
}

/// A file name without its extension: what stands before its last `.`, or
/// all of it where it has none.
pub open spec fn file_stem(name: Seq<char>) -> Seq<char> {
    let dot = last_dot(name, name.len() as int);
    if dot < 0 {
        name
    } else {
        name.subrange(0, dot)
    }
}

/// Into how many bands the page `filename` of chapter `chapter_id` was cut,
/// where the chapter's scramble id is `scramble_id`; 0 says that it was not
/// cut at all. From chapter 268850 on the number goes by the last character
/// of a digest: by the code of that character, not by the digit it writes.
pub open spec fn block_num(scramble_id: i64, chapter_id: i64, filename: Seq<char>) -> int {
    if chapter_id < scramble_id {
        0
    } else if chapter_id < 268_850 {
        10
    } else {
        let x: int = if chapter_id < 421_926 {
            10
        } else {
            8
        };
        let h = md5_hex(decimal(chapter_id as int) + file_stem(filename));
        ((h.last() as u32) as int % x) * 2 + 2
    }
}

/// The number of bands that the digest `digest` gives, with `x` choices: the
/// code of the last character of the digest's hexadecimal form, modulo `x`,
/// doubled, plus 2.
pub fn block_num_of_digest(digest: &[u8; 16], x: u32) -> (r: u32)
    requires
        x == 8 || x == 10,
    ensures
        r == ((hex_lower(digest@).last() as u32) as int % (x as int)) * 2 + 2,
        r % 2 == 0,
        2 <= r <= 2 * x,
{
    let low: u8 = digest[15] % 16;
    let code: u32 = if low < 10 {
        48 + low as u32
    } else {
        87 + low as u32
    };
    assert(hex_lower(digest@).last() == crate::text::hex_digit_char(low as int));
    (code % x) * 2 + 2
}

/// The file name without its extension.
pub fn file_stem_of(filename: &str) -> (r: String)
    ensures
        r@ == file_stem(filename@),
{
    let v = chars_of(filename);
    let mut i: usize = v.len();
    while i > 0 && v[i - 1] != '.'
        invariant
            i <= v@.len(),
            last_dot(v@, v@.len() as int) == last_dot(v@, i as int),
        decreases i,
    {
        i -= 1;
    }
    if i == 0 {
        filename.to_owned()
    } else {
        filename.substring_char(0, i - 1).to_owned()
    }
}

/// Into how many bands the page `filename` of chapter `chapter_id` was cut,
/// where the chapter's scramble id is `scramble_id`. The number is 0 below
/// the scramble id, 10 from there up to chapter 268850, an even number from
/// 2 to 20 up to chapter 421926, and an even number from 2 to 16 after.
pub fn calculate_block_num(scramble_id: i64, chapter_id: i64, filename: &str) -> (r: u32)
    ensures
        r == block_num(scramble_id, chapter_id, filename@),
        chapter_id < scramble_id ==> r == 0,
        scramble_id <= chapter_id < 268_850 ==> r == 10,
        scramble_id <= chapter_id && 268_850 <= chapter_id < 421_926 ==> r % 2 == 0 && 2 <= r
            <= 20,
        scramble_id <= chapter_id && 421_926 <= chapter_id ==> r % 2 == 0 && 2 <= r <= 16,
{
    if chapter_id < scramble_id {
        0
    } else if chapter_id < 268_850 {
        10
    } else {
        let x: u32 = if chapter_id < 421_926 {
            10
        } else {
            8
        };
        let stem = file_stem_of(filename);
        let mut text = i64_to_string(chapter_id);
        text.append(stem.as_str());
        let digest = md5_compute(text.as_str().as_bytes());
        block_num_of_digest(&digest, x)
    }
}

/// The text of a decrypted album says that the comic has no name: it holds
/// `"name":null` or `"name":""`, with or without a space after the colon.
pub open spec fn raw_missing(data: Seq<char>) -> bool {
    ||| crate::text::contains_text(data, "\"name\":null"@)
    ||| crate::text::contains_text(data, "\"name\": null"@)
    ||| crate::text::contains_text(data, "\"name\":\"\""@)
    ||| crate::text::contains_text(data, "\"name\": \"\""@)
}

/// Whether the text of a decrypted album says that the comic has no name.
/// The text need not be well-formed JSON.
pub fn raw_missing_comic(data: &str) -> (b: bool)
    ensures
        b == raw_missing(data@),
{
    let hay = chars_of(data);
    let a = chars_of("\"name\":null");
    let b = chars_of("\"name\": null");
    let c = chars_of("\"name\":\"\"");
    let d = chars_of("\"name\": \"\"");
    proof {
        crate::text::lemma_contains_iff_found(data@, "\"name\":null"@);
        crate::text::lemma_contains_iff_found(data@, "\"name\": null"@);
        crate::text::lemma_contains_iff_found(data@, "\"name\":\"\""@);
        crate::text::lemma_contains_iff_found(data@, "\"name\": \"\""@);
    }
    crate::text::find_text(hay.as_slice(), a.as_slice()).is_some() || crate::text::find_text(
        hay.as_slice(),
        b.as_slice(),
    ).is_some() || crate::text::find_text(hay.as_slice(), c.as_slice()).is_some()
        || crate::text::find_text(hay.as_slice(), d.as_slice()).is_some()
}

/// What the member `name` of a parsed album is.
#[derive(Debug, Clone, PartialEq, Eq)]
pub enum NameField {
    /// The album has no such member.
    Absent,
    /// The member is `null`.
    Null,
    /// The member is the given string.
    Text(String),
    /// The member is some other value.
    Other,
}

/// The parsed album describes no comic: its name is absent, null or blank.
pub open spec fn name_missing(name: NameField) -> bool {
    match name {
        NameField::Absent => true,
        NameField::Null => true,
        NameField::Text(t) => crate::text::is_blank(t@),
        NameField::Other => false,
    }
}

/// Whether the parsed album describes no comic.
pub fn is_missing_comic(name: &NameField) -> (b: bool)
    ensures
        b == name_missing(*name),
{
    match name {
        NameField::Absent => true,
        NameField::Null => true,
        NameField::Text(t) => crate::text::blank(t.as_str()),
        NameField::Other => false,
    }
}

/// The scramble id where the chapter view names none.
pub open spec fn default_scramble_id() -> i64 {
    220_980
}

/// The text between the first `var scramble_id = ` of `body` and the next
/// `;` after it, or the end of `body` where none follows. `None` where
/// `body` does not hold the marker.
pub open spec fn scramble_id_text(body: Seq<char>) -> Option<Seq<char>> {
    let marker = "var scramble_id = "@;
    match crate::text::first_occurrence(body, marker, 0) {
        None => None,
        Some(i) => {
            let rest = body.subrange(i + marker.len(), body.len() as int);
            match crate::text::first_occurrence(rest, seq![';'], 0) {
                Some(j) => Some(rest.subrange(0, j)),
                None => Some(rest),
            }
        },
    }
}

/// The scramble id that the chapter view `body` names, and 220980 where it
/// names none that reads as a decimal `i64`.
pub open spec fn scramble_id_in(body: Seq<char>) -> i64 {
    match scramble_id_text(body) {
        None => default_scramble_id(),
        Some(t) => match crate::text::parse_i64_spec(t) {
            Some(v) => v,
            None => default_scramble_id(),
        },
    }
}

/// Reads the scramble id out of a chapter view.
pub fn extract_scramble_id(body: &str) -> (r: i64)
    ensures
        r == scramble_id_in(body@),
{
    let hay = chars_of(body);
    let marker = chars_of("var scramble_id = ");
    let semicolon = chars_of(";");
    proof {
        reveal_strlit(";");
        assert(semicolon@ =~= seq![';']);
        crate::text::lemma_first_occurrence(body@, "var scramble_id = "@, 0);
    }
    match crate::text::find_text(hay.as_slice(), marker.as_slice()) {
        None => 220_980,
        Some(i) => {
            assert(crate::text::occurs_at(hay@, marker@, i as int));
            let end = hay.len();
            let rest = vstd::slice::slice_subrange(hay.as_slice(), i + marker.len(), end);
            proof {
                crate::text::lemma_first_occurrence(rest@, seq![';'], 0);
            }
            let piece = match crate::text::find_text(rest, semicolon.as_slice()) {
                Some(j) => vstd::slice::slice_subrange(rest, 0, j),
                None => rest,
            };
            match crate::text::parse_i64_chars(piece) {
                Some(v) => v,
                None => 220_980,
            }
        },
    }
}

/// The `User-Agent` header of every request.
pub fn user_agent() -> (r: &'static str)
    ensures
        r@ == "Mozilla/5.0 (Windows NT 10.0; Win64; x64) AppleWebKit/537.36 (KHTML, like Gecko) Chrome/128.0.0.0 Safari/537.36"@,
{
    "Mozilla/5.0 (Windows NT 10.0; Win64; x64) AppleWebKit/537.36 (KHTML, like Gecko) Chrome/128.0.0.0 Safari/537.36"
}

/// The `Referer` header of the request for a page.
pub fn image_referer() -> (r: &'static str)
    ensures
        r@ == "https://www.jmcomic.me/"@,
{
    "https://www.jmcomic.me/"
}

/// A request to the upstream API with its signature: the address and the
/// two headers `token` and `tokenparam`.
#[derive(Debug, Clone, PartialEq, Eq)]
pub struct SignedRequest {
    pub url: String,
    pub token: String,
    pub tokenparam: String,
}

/// What came back for a request: the status, the status as the transport
/// writes it out (`404 Not Found`), and the body.
#[derive(Debug, Clone, PartialEq, Eq)]
pub struct HttpReply {
    pub status: u16,
    pub status_text: String,
    pub body: String,
}

/// The payload of a wrapped response as it is to be parsed.
#[derive(Debug, Clone, PartialEq, Eq)]
pub enum Payload {
    /// The payload was a string: this is its decrypted text.
    Decrypted(String),
    /// The payload was no string: it is parsed as it came.
    Plain,
}

/// What the reading of a wrapped response comes to.
pub enum PayloadOutcome {
    /// An error of the given kind with the given message.
    Refused(ErrorKind, Seq<char>),
    /// An `Internal` error, because the payload could not be decrypted.
    Undecryptable(DecryptFailure),
    /// The decrypted text of a payload that was a string.
    Decrypted(Seq<char>),
    /// A payload that was no string.
    Plain,
}

/// `r` is what `want` asks for. The message of a payload that could not be
/// decrypted begins as `decrypt_failure_text` says.
pub open spec fn payload_is(r: Result<Payload, AppError>, want: PayloadOutcome) -> bool {
    match want {
        PayloadOutcome::Refused(kind, text) => failed_with(r, kind, text),
        PayloadOutcome::Undecryptable(f) => r matches Err(e) && e.kind() == ErrorKind::Internal
            && has_prefix(e.text(), decrypt_failure_text(f)),
        PayloadOutcome::Decrypted(text) => r matches Ok(Payload::Decrypted(s)) && s@ == text,
        PayloadOutcome::Plain => r matches Ok(Payload::Plain),
    }
}

/// The payload of a wrapped response whose code is 200, received for a
/// request sent at `ts`: decrypted where it is a string, as it is otherwise.
pub open spec fn opened_payload(ts: u64, data: Option<String>) -> PayloadOutcome {
    match data {
        None => PayloadOutcome::Plain,
        Some(d) => match decrypted(ts, d@) {
            Ok(text) => PayloadOutcome::Decrypted(text),
            Err(f) => PayloadOutcome::Undecryptable(f),
        },
    }
}

fn open_payload(ts: u64, data: &Option<String>) -> (r: Result<Payload, AppError>)
    ensures
        payload_is(r, opened_payload(ts, *data)),
{
    match data {
        None => Ok(Payload::Plain),
        Some(d) => match decrypt_data(ts, d.as_str()) {
            Ok(text) => Ok(Payload::Decrypted(text)),
            Err(e) => Err(e),
        },
    }
}

/// The message that says that comic `aid` does not exist.
pub open spec fn comic_not_found_text(aid: i64) -> Seq<char> {
    "漫画 "@ + decimal(aid as int) + " 未找到"@
}

fn comic_not_found(aid: i64) -> (e: AppError)
    ensures
        e@ == (ErrorKind::NotFound, comic_not_found_text(aid)),
{
    AppError::NotFound(join3("漫画 ", i64_to_string(aid).as_str(), " 未找到"))
}

/// The protocol client: the host of the upstream API and the host of the
/// image CDN.
#[derive(Debug, Clone, PartialEq, Eq)]
pub struct JmClient {
    pub api_domain: String,
    pub image_domain: String,
}

impl JmClient {
    /// A client for the two hosts.
    pub fn new(api_domain: String, image_domain: String) -> (r: Self)
        ensures
            r.api_domain == api_domain,
            r.image_domain == image_domain,
    {
        JmClient { api_domain, image_domain }
    }

    /// The signed request that logs in, sent at `ts`: `POST /login`.
    pub fn login_request(&self, ts: u64) -> (r: SignedRequest)
        ensures
            r.url@ == "https://"@ + self.api_domain@ + "/login"@,
            r.token@ == token(ts, token_secret()),
            r.tokenparam@ == tokenparam(ts),
    {
        SignedRequest {
            url: join3("https://", self.api_domain.as_str(), "/login"),
            token: generate_token(ts, "18comicAPP"),
            tokenparam: generate_tokenparam(ts),
        }
    }

    /// The signed request for the album `aid`, sent at `ts`:
    /// `GET /album?id=`.
    pub fn comic_request(&self, aid: i64, ts: u64) -> (r: SignedRequest)
        ensures
            r.url@ == "https://"@ + self.api_domain@ + "/album?id="@ + decimal(aid as int),
            r.token@ == token(ts, token_secret()),
            r.tokenparam@ == tokenparam(ts),
    {
        SignedRequest {
            url: join4(
                "https://",
                self.api_domain.as_str(),
                "/album?id=",
                i64_to_string(aid).as_str(),
            ),
            token: generate_token(ts, "18comicAPP"),
            tokenparam: generate_tokenparam(ts),
        }
    }

    /// The signed request for the chapter `id`, sent at `ts`:
    /// `GET /chapter?id=`.
    pub fn chapter_request(&self, id: i64, ts: u64) -> (r: SignedRequest)
        ensures
            r.url@ == "https://"@ + self.api_domain@ + "/chapter?id="@ + decimal(id as int),
            r.token@ == token(ts, token_secret()),
            r.tokenparam@ == tokenparam(ts),
    {
        SignedRequest {
            url: join4(
                "https://",
                self.api_domain.as_str(),
                "/chapter?id=",
                i64_to_string(id).as_str(),
            ),
            token: generate_token(ts, "18comicAPP"),
            tokenparam: generate_tokenparam(ts),
        }
    }

    /// The signed request for the chapter view of `id`, sent at `ts`, from
    /// which the scramble id is read. It is signed under the content secret.
    pub fn scramble_id_request(&self, id: i64, ts: u64) -> (r: SignedRequest)
        ensures
            r.url@ == "https://"@ + self.api_domain@ + "/chapter_view_template?id="@ + decimal(
                id as int,
            ) + "&v="@ + decimal(ts as int)
                + "&mode=vertical&page=0&app_img_shunt=1&express=off"@,
            r.token@ == token(ts, content_token_secret()),
            r.tokenparam@ == tokenparam(ts),
    {
        let mut url = join4(
            "https://",
            self.api_domain.as_str(),
            "/chapter_view_template?id=",
            i64_to_string(id).as_str(),
        );
        url.append("&v=");
        append_decimal(&mut url, ts);
        url.append("&mode=vertical&page=0&app_img_shunt=1&express=off");
        SignedRequest {
            url,
            token: generate_token(ts, "18comicAPPContent"),
            tokenparam: generate_tokenparam(ts),
        }
    }

    /// The address of the page `filename` of chapter `chapter_id` on the
    /// image CDN.
    pub fn image_url(&self, chapter_id: i64, filename: &str) -> (r: String)
        ensures
            r@ == image_address(self.image_domain@, chapter_id, filename@),
    {
        let mut url = join4(
            "https://",
            self.image_domain.as_str(),
            "/media/photos/",
            i64_to_string(chapter_id).as_str(),
        );
        url.append("/");
        url.append(filename);
        url
    }
}

/// The address of the page `filename` of chapter `chapter_id` on the host
/// `image_domain`.
pub open spec fn image_address(image_domain: Seq<char>, chapter_id: i64, filename: Seq<char>) -> Seq<
    char,
> {
    "https://"@ + image_domain + "/media/photos/"@ + decimal(chapter_id as int) + "/"@ + filename
}

/// A wrapped response with a code other than 200 says that what was asked
/// for does not exist: its code is 404, or its error message holds
/// `not found` in any case of letters.
pub open spec fn says_not_found(resp: JmResp) -> bool {
    resp.code == 404 || contains_text(lowercased(resp.error_msg@), "not found"@)
}

fn tells_not_found(resp: &JmResp) -> (b: bool)
    ensures
        b == says_not_found(*resp),
{
    if resp.code == 404 {
        return true;
    }
    let lower = to_lowercase(resp.error_msg.as_str());
    contains(lower.as_str(), "not found")
}

/// What the answer to a login comes to: nothing where the status is 200,
/// the body parses and its code is 200. A code that says that nothing was
/// found is `NotFound`; every other failure is an `Internal` error.
pub open spec fn login_outcome(reply: HttpReply, parsed: Result<JmResp, String>) -> Result<
    (),
    (ErrorKind, Seq<char>),
> {
    if reply.status != 200 {
        Err(
            (
                ErrorKind::Internal,
                "Login failed with status "@ + reply.status_text@ + ": "@ + reply.body@,
            ),
        )
    } else {
        match parsed {
            Err(detail) => Err(
                (
                    ErrorKind::Internal,
                    "Failed to parse login response: "@ + reply.body@ + ": "@ + detail@,
                ),
            ),
            Ok(resp) => if resp.code != 200 {
                Err(
                    (
                        if says_not_found(resp) {
                            ErrorKind::NotFound
                        } else {
                            ErrorKind::Internal
                        },
                        "Login failed with code "@ + decimal(resp.code as int) + ": "@
                            + resp.error_msg@,
                    ),
                )
            } else {
                Ok(())
            },
        }
    }
}

/// Reads the answer to a login. `parsed` is the body parsed as a wrapped
/// response, or the parser's description of why it is none.
pub fn read_login(reply: &HttpReply, parsed: &Result<JmResp, String>) -> (r: Result<(), AppError>)
    ensures
        crate::outcome(r) == login_outcome(*reply, *parsed),
{
    if reply.status != 200 {
        return Err(
            AppError::Internal(
                join4(
                    "Login failed with status ",
                    reply.status_text.as_str(),
                    ": ",
                    reply.body.as_str(),
                ),
            ),
        );
    }
    match parsed {
        Err(detail) => Err(
            AppError::Internal(
                join4(
                    "Failed to parse login response: ",
                    reply.body.as_str(),
                    ": ",
                    detail.as_str(),
                ),
            ),
        ),
        Ok(resp) => {
            if resp.code != 200 {
                let m = join4(
                    "Login failed with code ",
                    i64_to_string(resp.code).as_str(),
                    ": ",
                    resp.error_msg.as_str(),
                );
                if tells_not_found(resp) {
                    Err(AppError::NotFound(m))
                } else {
                    Err(AppError::Internal(m))
                }
            } else {
                Ok(())
            }
        },
    }
}

/// What the answer to the request for album `aid`, sent at `ts`, comes to.
/// Status 404 says that the comic does not exist, and so does a wrapped
/// response with code 404 or with an error message that holds `not found`
/// in any case of letters, and so does a decrypted text that
/// `raw_missing` finds to have no name. Any other status but 200, a body
/// that does not parse and any other code but 200 are `Internal` errors.
pub open spec fn comic_payload(
    aid: i64,
    ts: u64,
    reply: HttpReply,
    parsed: Result<JmResp, String>,
) -> PayloadOutcome {
    if reply.status == 404 {
        PayloadOutcome::Refused(ErrorKind::NotFound, comic_not_found_text(aid))
    } else if reply.status != 200 {
        PayloadOutcome::Refused(
            ErrorKind::Internal,
            "Get comic failed with status "@ + reply.status_text@ + ": "@ + reply.body@,
        )
    } else {
        match parsed {
            Err(detail) => PayloadOutcome::Refused(
                ErrorKind::Internal,
                "Failed to parse comic response: "@ + reply.body@ + ": "@ + detail@,
            ),
            Ok(resp) => if resp.code != 200 {
                if says_not_found(resp) {
                    PayloadOutcome::Refused(ErrorKind::NotFound, comic_not_found_text(aid))
                } else {
                    PayloadOutcome::Refused(
                        ErrorKind::Internal,
                        "Get comic failed with code "@ + decimal(resp.code as int) + ": "@
                            + resp.error_msg@,
                    )
                }
            } else {
                match opened_payload(ts, resp.data) {
                    PayloadOutcome::Decrypted(text) => if raw_missing(text) {
                        PayloadOutcome::Refused(ErrorKind::NotFound, comic_not_found_text(aid))
                    } else {
                        PayloadOutcome::Decrypted(text)
                    },
                    other => other,
                }
            },
        }
    }
}

/// Reads the answer to the request for album `aid`, sent at `ts`, as far
/// as the payload. `parsed` is the body parsed as a wrapped response, or
/// the parser's description of why it is none.
pub fn read_comic_payload(
    aid: i64,
    ts: u64,
    reply: &HttpReply,
    parsed: &Result<JmResp, String>,
) -> (r: Result<Payload, AppError>)
    ensures
        payload_is(r, comic_payload(aid, ts, *reply, *parsed)),
{
    if reply.status == 404 {
        return Err(comic_not_found(aid));
    }
    if reply.status != 200 {
        return Err(
            AppError::Internal(
                join4(
                    "Get comic failed with status ",
                    reply.status_text.as_str(),
                    ": ",
                    reply.body.as_str(),
                ),
            ),
        );
    }
    let resp = match parsed {
        Err(detail) => {
            return Err(
                AppError::Internal(
                    join4(
                        "Failed to parse comic response: ",
                        reply.body.as_str(),
                        ": ",
                        detail.as_str(),
                    ),
                ),
            );
        },
        Ok(resp) => resp,
    };
    if resp.code != 200 {
        if tells_not_found(resp) {
            return Err(comic_not_found(aid));
        }
        return Err(
            AppError::Internal(
                join4(
                    "Get comic failed with code ",
                    i64_to_string(resp.code).as_str(),
                    ": ",
                    resp.error_msg.as_str(),
                ),
            ),
        );
    }
    match open_payload(ts, &resp.data) {
        Ok(Payload::Decrypted(text)) => {
            if raw_missing_comic(text.as_str()) {
                Err(comic_not_found(aid))
            } else {
                Ok(Payload::Decrypted(text))
            }
        },
        other => other,
    }
}

/// A parsed album: what its member `name` is, and the comic that it
/// describes or the parser's description of why it describes none.
#[derive(Debug, PartialEq, Eq)]
pub struct ParsedAlbum {
    pub name: NameField,
    pub comic: Result<GetComicRespData, String>,
}

/// The message for a payload of an album that does not parse.
pub open spec fn comic_parse_text(text: Seq<char>, detail: Seq<char>) -> Seq<char> {
    "Failed to parse decrypted comic data: "@ + text + ": "@ + detail
}

/// Reads the parsed payload of album `aid`. `text` is the payload as it
/// was parsed; `parsed` is the album, or the parser's description of why
/// the payload is no JSON. An album without a name, or with a null or a
/// blank one, says that the comic does not exist.
pub fn read_comic(aid: i64, text: &str, parsed: Result<ParsedAlbum, String>) -> (r: Result<
    GetComicRespData,
    AppError,
>)
    ensures
        match parsed {
            Err(detail) => failed_with(
                r,
                ErrorKind::Internal,
                comic_parse_text(text@, detail@),
            ),
            Ok(album) => if name_missing(album.name) {
                failed_with(r, ErrorKind::NotFound, comic_not_found_text(aid))
            } else {
                match album.comic {
                    Ok(comic) => r == Ok::<GetComicRespData, AppError>(comic),
                    Err(detail) => failed_with(
                        r,
                        ErrorKind::Internal,
                        comic_parse_text(text@, detail@),
                    ),
                }
            },
        },
{
    match parsed {
        Err(detail) => Err(
            AppError::Internal(
                join4("Failed to parse decrypted comic data: ", text, ": ", detail.as_str()),
            ),
        ),
        Ok(album) => {
            if is_missing_comic(&album.name) {
                return Err(comic_not_found(aid));
            }
            match album.comic {
                Ok(comic) => Ok(comic),
                Err(detail) => Err(
                    AppError::Internal(
                        join4(
                            "Failed to parse decrypted comic data: ",
                            text,
                            ": ",
                            detail.as_str(),
                        ),
                    ),
                ),
            }
        },
    }
}

/// The message that says that chapter `id` does not exist.
pub open spec fn chapter_not_found_text(id: i64) -> Seq<char> {
    "章节 "@ + decimal(id as int) + " 未找到"@
}

/// What the answer to the request for chapter `id`, sent at `ts`, comes
/// to. A wrapped response whose code says that nothing was found is
/// `NotFound`. Any status but 200, a body that does not parse and any
/// other code but 200 are `Internal` errors.
pub open spec fn chapter_payload(
    id: i64,
    ts: u64,
    reply: HttpReply,
    parsed: Result<JmResp, String>,
) -> PayloadOutcome {
    if reply.status != 200 {
        PayloadOutcome::Refused(
            ErrorKind::Internal,
            "Get chapter failed with status "@ + reply.status_text@ + ": "@ + reply.body@,
        )
    } else {
        match parsed {
            Err(detail) => PayloadOutcome::Refused(
                ErrorKind::Internal,
                "Failed to parse chapter response: "@ + reply.body@ + ": "@ + detail@,
            ),
            Ok(resp) => if resp.code != 200 {
                if says_not_found(resp) {
                    PayloadOutcome::Refused(ErrorKind::NotFound, chapter_not_found_text(id))
                } else {
                    PayloadOutcome::Refused(
                        ErrorKind::Internal,
                        "Get chapter failed with code "@ + decimal(resp.code as int) + ": "@
                            + resp.error_msg@,
                    )
                }
            } else {
                opened_payload(ts, resp.data)
            },
        }
    }
}

/// Reads the answer to the request for chapter `id`, sent at `ts`, as far
/// as the payload. `parsed` is the body parsed as a wrapped response, or
/// the parser's description of why it is none.
pub fn read_chapter_payload(
    id: i64,
    ts: u64,
    reply: &HttpReply,
    parsed: &Result<JmResp, String>,
) -> (r: Result<Payload, AppError>)
    ensures
        payload_is(r, chapter_payload(id, ts, *reply, *parsed)),
{
    if reply.status != 200 {
        return Err(
            AppError::Internal(
                join4(
                    "Get chapter failed with status ",
                    reply.status_text.as_str(),
                    ": ",
                    reply.body.as_str(),
                ),
            ),
        );
    }
    let resp = match parsed {
        Err(detail) => {
            return Err(
                AppError::Internal(
                    join4(
                        "Failed to parse chapter response: ",
                        reply.body.as_str(),
                        ": ",
                        detail.as_str(),
                    ),
                ),
            );
        },
        Ok(resp) => resp,
    };
    if resp.code != 200 {
        if tells_not_found(resp) {
            return Err(
                AppError::NotFound(join3("章节 ", i64_to_string(id).as_str(), " 未找到")),
            );
        }
        return Err(
            AppError::Internal(
                join4(
                    "Get chapter failed with code ",
                    i64_to_string(resp.code).as_str(),
                    ": ",
                    resp.error_msg.as_str(),
                ),
            ),
        );
    }
    open_payload(ts, &resp.data)
}

/// Reads the parsed payload of a chapter. `text` is the payload as it was
/// parsed; `parsed` is the chapter, or the parser's description of why the
/// payload describes none.
pub fn read_chapter(text: &str, parsed: Result<GetChapterRespData, String>) -> (r: Result<
    GetChapterRespData,
    AppError,
>)
    ensures
        match parsed {
            Ok(chapter) => r == Ok::<GetChapterRespData, AppError>(chapter),
            Err(detail) => failed_with(
                r,
                ErrorKind::Internal,
                "Failed to parse decrypted chapter data: "@ + text@ + ": "@ + detail@,
            ),
        },
{
    match parsed {
        Ok(chapter) => Ok(chapter),
        Err(detail) => Err(
            AppError::Internal(
                join4("Failed to parse decrypted chapter data: ", text, ": ", detail.as_str()),
            ),
        ),
    }
}

/// Reads the answer to the request for a chapter view: the scramble id
/// that the page names, 220980 where it names none, and an `Internal`
/// error for any status but 200.
pub fn read_scramble_id(reply: &HttpReply) -> (r: Result<i64, AppError>)
    ensures
        crate::outcome(r) == (if reply.status != 200 {
            Err(
                (
                    ErrorKind::Internal,
                    "Get scramble_id failed with status "@ + reply.status_text@ + ": "@
                        + reply.body@,
                ),
            )
        } else {
            Ok(scramble_id_in(reply.body@))
        }),
{
    if reply.status != 200 {
        return Err(
            AppError::Internal(
                join4(
                    "Get scramble_id failed with status ",
                    reply.status_text.as_str(),
                    ": ",
                    reply.body.as_str(),
                ),
            ),
        );
    }
    Ok(extract_scramble_id(reply.body.as_str()))
}

/// Whether a request is sent again by the transport: after any failure of
/// the transport itself, and after an answer with a status of the server's
/// failure, 500 to 599, or with status 429.
pub fn is_transient(status: Option<u16>) -> (b: bool)
    ensures
        b == match status {
            None => true,
            Some(s) => 500 <= s < 600 || s == 429,
        },
{
    match status {
        None => true,
        Some(s) => (500 <= s && s < 600) || s == 429,
    }
}

} // verus!
