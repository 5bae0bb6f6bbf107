//! The configuration, made from the raw values of the five settings.

use vstd::prelude::*;
use vstd::string::StringExecFns;

use crate::text::blank;
use crate::text::is_blank;
use crate::text::parse_usize;
use crate::text::parse_usize_spec;
use crate::text::text_of;
use crate::text::trim;
use crate::text::trimmed;
use crate::AppError;
use crate::ErrorKind;
use crate::failed_with;

verus! {

/// The settings of the process. `img_concurrency` is at least 1.
#[derive(Debug, Clone, PartialEq, Eq)]
pub struct Config {
    pub jm_username: String,
    pub jm_password: String,
    pub api_domain: String,
    pub image_domain: String,
    pub img_concurrency: usize,
}

impl Config {
    /// At least one image download may be in flight.
    pub open spec fn wf(&self) -> bool {
        self.img_concurrency >= 1
    }
}

/// The raw values of the five settings, each absent where it is not set:
/// `JM_USERNAME`, `JM_PASSWORD`, `JM_API_DOMAIN`, `JM_IMAGE_DOMAIN` and
/// `JM_IMG_CONCURRENCY`.
#[derive(Debug, Clone, PartialEq, Eq)]
pub struct RawSettings {
    pub jm_username: Option<String>,
    pub jm_password: Option<String>,
    pub api_domain: Option<String>,
    pub image_domain: Option<String>,
    pub img_concurrency: Option<String>,
}

/// The host of the upstream API where none is set.
pub fn default_api_domain() -> (r: String)
    ensures
        r@ == "www.cdnhth.cc"@,
{
    String::from_str("www.cdnhth.cc")
}

/// The host of the image CDN where none is set.
pub fn default_image_domain() -> (r: String)
    ensures
        r@ == "cdn-msp2.jmapiproxy2.cc"@,
{
    String::from_str("cdn-msp2.jmapiproxy2.cc")
}

/// The number of image downloads in flight where none is set.
pub fn default_img_concurrency() -> (r: usize)
    ensures
        r == 32,
{
    32
}

/// The value of a required setting: trimmed, or the message that says why
/// there is none.
pub open spec fn required_value(key: Seq<char>, raw: Option<Seq<char>>) -> Result<
    Seq<char>,
    Seq<char>,
> {
    match raw {
        None => Err("读取环境变量 "@ + key + " 失败或未设置"@),
        Some(v) => if is_blank(v) {
            Err("环境变量 "@ + key + " 不能为空"@)
        } else {
            Ok(trimmed(v))
        },
    }
}

/// The value of an optional setting: trimmed, and absent where blank.
pub open spec fn optional_value(raw: Option<Seq<char>>) -> Option<Seq<char>> {
    match raw {
        Some(v) if !is_blank(v) => Some(trimmed(v)),
        _ => None,
    }
}

/// The concurrency that `value` writes: a positive decimal number, or the
/// message that says why it is none.
pub open spec fn img_concurrency_of(value: Seq<char>) -> Result<usize, Seq<char>> {
    match parse_usize_spec(value) {
        None => Err("环境变量 JM_IMG_CONCURRENCY 解析失败: "@ + value),
        Some(n) => if n == 0 {
            Err("环境变量 JM_IMG_CONCURRENCY 必须大于 0"@)
        } else {
            Ok(n)
        },
    }
}

fn read_required_env(key: &str, raw: &Option<String>) -> (r: Result<String, AppError>)
    ensures
        match required_value(key@, text_of(*raw)) {
            Ok(v) => r matches Ok(s) && s@ == v,
            Err(m) => failed_with(r, ErrorKind::Internal, m),
        },
{
    match raw {
        None => {
            let mut m = String::from_str("读取环境变量 ");
            m.append(key);
            m.append(" 失败或未设置");
            Err(AppError::Internal(m))
        },
        Some(v) => {
            if blank(v.as_str()) {
                let mut m = String::from_str("环境变量 ");
                m.append(key);
                m.append(" 不能为空");
                Err(AppError::Internal(m))
            } else {
                Ok(trim(v.as_str()))
            }
        },
    }
}

fn read_optional_env(raw: &Option<String>) -> (r: Option<String>)
    ensures
        text_of(r) == optional_value(text_of(*raw)),
{
    match raw {
        None => None,
        Some(v) => {
            if blank(v.as_str()) {
                None
            } else {
                Some(trim(v.as_str()))
            }
        },
    }
}

/// Reads the number of image downloads in flight: a positive decimal number.
pub fn parse_img_concurrency(value: &str) -> (r: Result<usize, AppError>)
    ensures
        match img_concurrency_of(value@) {
            Ok(n) => r == Ok::<usize, AppError>(n),
            Err(m) => failed_with(r, ErrorKind::Internal, m),
        },
{
    match parse_usize(value) {
        None => {
            let mut m = String::from_str("环境变量 JM_IMG_CONCURRENCY 解析失败: ");
            m.append(value);
            Err(AppError::Internal(m))
        },
        Some(n) => {
            if n == 0 {
                Err(AppError::Internal(String::from_str("环境变量 JM_IMG_CONCURRENCY 必须大于 0")))
            } else {
                Ok(n)
            }
        },
    }
}

/// The configuration that the raw settings give, or the message of the
/// first setting that is refused: the user name, the password, then the
/// concurrency.
pub open spec fn config_of(raw: RawSettings) -> Result<
    (Seq<char>, Seq<char>, Seq<char>, Seq<char>, usize),
    Seq<char>,
> {
    match required_value("JM_USERNAME"@, text_of(raw.jm_username)) {
        Err(m) => Err(m),
        Ok(user) => match required_value("JM_PASSWORD"@, text_of(raw.jm_password)) {
            Err(m) => Err(m),
            Ok(password) => {
                let api = match optional_value(text_of(raw.api_domain)) {
                    Some(v) => v,
                    None => "www.cdnhth.cc"@,
                };
                let image = match optional_value(text_of(raw.image_domain)) {
                    Some(v) => v,
                    None => "cdn-msp2.jmapiproxy2.cc"@,
                };
                match optional_value(text_of(raw.img_concurrency)) {
                    None => Ok((user, password, api, image, 32usize)),
                    Some(v) => match img_concurrency_of(v) {
                        Err(m) => Err(m),
                        Ok(n) => Ok((user, password, api, image, n)),
                    },
                }
            },
        },
    }
}

impl View for Config {
    type V = (Seq<char>, Seq<char>, Seq<char>, Seq<char>, usize);

    open spec fn view(&self) -> Self::V {
        (
            self.jm_username@,
            self.jm_password@,
            self.api_domain@,
            self.image_domain@,
            self.img_concurrency,
        )
    }
}

/// Makes the configuration from the raw settings. The user name and the
/// password are required and may not be blank; the two hosts and the
/// concurrency have defaults; every value is trimmed.
pub fn load_config(raw: &RawSettings) -> (r: Result<Config, AppError>)
    ensures
        match config_of(*raw) {
            Ok(c) => r matches Ok(config) && config@ == c && config.wf(),
            Err(m) => failed_with(r, ErrorKind::Internal, m),
        },
{
    let jm_username = read_required_env("JM_USERNAME", &raw.jm_username)?;
    let jm_password = read_required_env("JM_PASSWORD", &raw.jm_password)?;
    let api_domain = match read_optional_env(&raw.api_domain) {
        Some(v) => v,
        None => default_api_domain(),
    };
    let image_domain = match read_optional_env(&raw.image_domain) {
        Some(v) => v,
        None => default_image_domain(),
    };
    let img_concurrency = match read_optional_env(&raw.img_concurrency) {
        Some(v) => parse_img_concurrency(v.as_str())?,
        None => default_img_concurrency(),
    };
    Ok(Config { jm_username, jm_password, api_domain, image_domain, img_concurrency })
}

} // verus!
