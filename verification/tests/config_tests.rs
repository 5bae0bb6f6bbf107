use jm_downloader_rs::config::{
    default_api_domain, default_image_domain, default_img_concurrency, load_config,
    parse_img_concurrency, Config, RawSettings,
};
use jm_downloader_rs::AppError;

fn raw(user: Option<&str>, password: Option<&str>) -> RawSettings {
    RawSettings {
        jm_username: user.map(|s| s.to_string()),
        jm_password: password.map(|s| s.to_string()),
        api_domain: None,
        image_domain: None,
        img_concurrency: None,
    }
}

#[test]
fn defaults() {
    assert_eq!(default_api_domain(), "www.cdnhth.cc");
    assert_eq!(default_image_domain(), "cdn-msp2.jmapiproxy2.cc");
    assert_eq!(default_img_concurrency(), 32);
    assert_eq!(
        load_config(&raw(Some("u"), Some("p"))),
        Ok(Config {
            jm_username: "u".to_string(),
            jm_password: "p".to_string(),
            api_domain: "www.cdnhth.cc".to_string(),
            image_domain: "cdn-msp2.jmapiproxy2.cc".to_string(),
            img_concurrency: 32,
        })
    );
}

#[test]
fn values_are_trimmed() {
    let settings = RawSettings {
        jm_username: Some("  u ".to_string()),
        jm_password: Some("\tp w\n".to_string()),
        api_domain: Some(" api.example ".to_string()),
        image_domain: Some("img.example".to_string()),
        img_concurrency: Some(" 8 ".to_string()),
    };
    assert_eq!(
        load_config(&settings),
        Ok(Config {
            jm_username: "u".to_string(),
            jm_password: "p w".to_string(),
            api_domain: "api.example".to_string(),
            image_domain: "img.example".to_string(),
            img_concurrency: 8,
        })
    );
}

#[test]
fn blank_optional_values_take_the_default() {
    let settings = RawSettings {
        jm_username: Some("u".to_string()),
        jm_password: Some("p".to_string()),
        api_domain: Some("   ".to_string()),
        image_domain: Some("".to_string()),
        img_concurrency: Some(" ".to_string()),
    };
    let config = load_config(&settings).unwrap();
    assert_eq!(config.api_domain, "www.cdnhth.cc");
    assert_eq!(config.image_domain, "cdn-msp2.jmapiproxy2.cc");
    assert_eq!(config.img_concurrency, 32);
}

#[test]
fn required_values() {
    assert_eq!(
        load_config(&raw(None, Some("p"))),
        Err(AppError::Internal("读取环境变量 JM_USERNAME 失败或未设置".to_string()))
    );
    assert_eq!(
        load_config(&raw(Some(" "), Some("p"))),
        Err(AppError::Internal("环境变量 JM_USERNAME 不能为空".to_string()))
    );
    assert_eq!(
        load_config(&raw(Some("u"), None)),
        Err(AppError::Internal("读取环境变量 JM_PASSWORD 失败或未设置".to_string()))
    );
    assert_eq!(
        load_config(&raw(Some("u"), Some(""))),
        Err(AppError::Internal("环境变量 JM_PASSWORD 不能为空".to_string()))
    );
    assert_eq!(
        load_config(&raw(None, None)),
        Err(AppError::Internal("读取环境变量 JM_USERNAME 失败或未设置".to_string()))
    );
}

#[test]
fn concurrency_must_be_a_positive_number() {
    assert_eq!(parse_img_concurrency("1"), Ok(1));
    assert_eq!(parse_img_concurrency("+16"), Ok(16));
    assert_eq!(parse_img_concurrency("064"), Ok(64));
    assert_eq!(
        parse_img_concurrency("0"),
        Err(AppError::Internal("环境变量 JM_IMG_CONCURRENCY 必须大于 0".to_string()))
    );
    for bad in ["", "-1", "x", "1.5", "99999999999999999999999"] {
        assert_eq!(
            parse_img_concurrency(bad),
            Err(AppError::Internal(format!("环境变量 JM_IMG_CONCURRENCY 解析失败: {}", bad)))
        );
    }
    let mut settings = raw(Some("u"), Some("p"));
    settings.img_concurrency = Some("zero".to_string());
    assert_eq!(
        load_config(&settings),
        Err(AppError::Internal("环境变量 JM_IMG_CONCURRENCY 解析失败: zero".to_string()))
    );
    settings.img_concurrency = Some("0".to_string());
    assert_eq!(
        load_config(&settings),
        Err(AppError::Internal("环境变量 JM_IMG_CONCURRENCY 必须大于 0".to_string()))
    );
}
