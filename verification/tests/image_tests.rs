use image::ImageEncoder;
use jm_downloader_rs::image_processor::{
    check_image_status, compress_arguments, compress_failure, compress_tmp_path, descramble,
    download_dir, encode_descrambled, process_image, stitch_img, BodyRetry, BodyRetryStep,
    RgbImage,
};
use jm_downloader_rs::jm_client::calculate_block_num;
use jm_downloader_rs::AppError;

fn test_image(width: u32, height: u32) -> RgbImage {
    let mut data = Vec::new();
    for y in 0..height {
        for x in 0..width {
            data.push((y % 251) as u8);
            data.push((x % 241) as u8);
            data.push(((x * 7 + y * 13) % 256) as u8);
        }
    }
    RgbImage { width, height, data }
}

fn rows(img: &RgbImage) -> Vec<Vec<u8>> {
    let len = 3 * img.width as usize;
    (0..img.height as usize).map(|y| img.data[y * len..(y + 1) * len].to_vec()).collect()
}

fn from_rows(width: u32, rows: Vec<Vec<u8>>) -> RgbImage {
    RgbImage { width, height: rows.len() as u32, data: rows.concat() }
}

/// Cuts the image as the service does: bands of `height / n` rows from the
/// bottom up, the rows left over with the band cut first, laid top down in
/// the order of cutting.
fn apply_upstream_scramble(img: &RgbImage, n: u32) -> RgbImage {
    let all = rows(img);
    let h = img.height;
    let band = h / n;
    let rest = h % n;
    let mut bands: Vec<Vec<Vec<u8>>> = Vec::new();
    let mut y = 0usize;
    for i in 0..n {
        let len = if i == 0 { band + rest } else { band } as usize;
        bands.push(all[y..y + len].to_vec());
        y += len;
    }
    let mut out = Vec::new();
    for b in bands.into_iter().rev() {
        out.extend(b);
    }
    from_rows(img.width, out)
}

fn png_of(img: &RgbImage) -> Vec<u8> {
    let mut file = Vec::new();
    image::codecs::png::PngEncoder::new(&mut file)
        .write_image(&img.data, img.width, img.height, image::ColorType::Rgb8)
        .unwrap();
    file
}

fn decode(file: &[u8]) -> RgbImage {
    let b = image::load_from_memory(file).unwrap().to_rgb8();
    RgbImage { width: b.width(), height: b.height(), data: b.into_raw() }
}

fn column(img: &RgbImage, x: usize) -> Vec<[u8; 3]> {
    let len = 3 * img.width as usize;
    let mut v: Vec<[u8; 3]> = (0..img.height as usize)
        .map(|y| {
            let o = y * len + 3 * x;
            [img.data[o], img.data[o + 1], img.data[o + 2]]
        })
        .collect();
    v.sort();
    v
}

#[test]
fn stitch_lays_the_bands_by_the_formula() {
    let src = test_image(3, 11);
    let n = 4u32;
    let out = stitch_img(&src, n);
    assert_eq!((out.width, out.height), (3, 11));
    let (band, rest) = (11 / n, 11 % n);
    let src_rows = rows(&src);
    let out_rows = rows(&out);
    for i in 0..n {
        let h_i = band + if i == 0 { rest } else { 0 };
        let src_y0 = 11 - band * (i + 1) - rest;
        let dst_y0 = band * i + if i == 0 { 0 } else { rest };
        for y in 0..h_i {
            assert_eq!(out_rows[(dst_y0 + y) as usize], src_rows[(src_y0 + y) as usize]);
        }
    }
}

#[test]
fn stitch_of_ten_rows_in_two_bands() {
    let src = test_image(1, 10);
    let out = stitch_img(&src, 2);
    let want: Vec<u8> = [5u8, 6, 7, 8, 9, 0, 1, 2, 3, 4].iter().map(|y| *y).collect();
    let got: Vec<u8> = rows(&out).iter().map(|r| r[0]).collect();
    assert_eq!(got, want);
}

#[test]
fn stitch_of_seven_rows_in_three_bands() {
    let src = test_image(2, 7);
    let out = stitch_img(&src, 3);
    let got: Vec<u8> = rows(&out).iter().map(|r| r[0]).collect();
    assert_eq!(got, vec![4, 5, 6, 2, 3, 0, 1]);
}

#[test]
fn stitch_keeps_size_and_columns() {
    for (w, h) in [(1u32, 1u32), (4, 9), (5, 20), (2, 37), (3, 100)] {
        let src = test_image(w, h);
        for n in [1u32, 2, 3, 4, 8, 10, 16, 20, 37, 200] {
            let out = stitch_img(&src, n);
            assert_eq!((out.width, out.height), (w, h));
            assert_eq!(out.data.len(), src.data.len());
            for x in 0..w as usize {
                assert_eq!(column(&out, x), column(&src, x));
            }
        }
    }
}

#[test]
fn stitch_undoes_the_scramble() {
    for (w, h) in [(1u32, 1u32), (4, 9), (5, 20), (2, 37), (3, 100)] {
        let intact = test_image(w, h);
        for n in [2u32, 3, 4, 6, 8, 10, 12, 14, 16, 18, 20] {
            let scrambled = apply_upstream_scramble(&intact, n);
            assert_eq!(stitch_img(&scrambled, n), intact, "{}x{} in {}", w, h, n);
        }
    }
}

#[test]
fn stitch_with_more_bands_than_rows_changes_nothing() {
    let src = test_image(3, 5);
    assert_eq!(stitch_img(&src, 6), src);
    assert_eq!(stitch_img(&src, 1), src);
}

#[test]
fn stitch_of_an_empty_image() {
    let src = RgbImage { width: 0, height: 0, data: vec![] };
    assert_eq!(stitch_img(&src, 4), src);
    let flat = RgbImage { width: 5, height: 0, data: vec![] };
    assert_eq!(stitch_img(&flat, 4), flat);
    let thin = RgbImage { width: 0, height: 5, data: vec![] };
    assert_eq!(stitch_img(&thin, 4), thin);
}

#[test]
fn descramble_with_zero_bands_passes_through() {
    let src = test_image(3, 8);
    assert_eq!(descramble(src.clone(), 0), src);
    assert_eq!(descramble(src.clone(), 4), stitch_img(&src, 4));
}

#[test]
fn descramble_sanity() {
    let chapter_id = 300_000i64;
    let name = "00001.webp";
    let n = calculate_block_num(220_980, chapter_id, name);
    assert!(n % 2 == 0 && (2..=20).contains(&n));
    let hex = format!("{:x}", md5::compute(format!("{}{}", chapter_id, "00001")));
    assert_eq!(n, (hex.chars().last().unwrap() as u32 % 10) * 2 + 2);
    let intact = test_image(6, 45);
    let scrambled = apply_upstream_scramble(&intact, n);
    assert_ne!(scrambled, intact);
    assert_eq!(stitch_img(&scrambled, n), intact);
}

#[test]
fn process_writes_a_png_of_the_descrambled_page() {
    let intact = test_image(5, 23);
    let scrambled = apply_upstream_scramble(&intact, 4);
    let file = process_image(&png_of(&scrambled), 4).unwrap();
    assert_eq!(image::guess_format(&file).unwrap(), image::ImageFormat::Png);
    assert_eq!(decode(&file), intact);
    assert_eq!(file, png_of(&intact));
}

#[test]
fn process_with_zero_bands_only_encodes_again() {
    let intact = test_image(4, 6);
    let file = process_image(&png_of(&intact), 0).unwrap();
    assert_eq!(decode(&file), intact);
}

#[test]
fn process_turns_other_formats_into_png() {
    let intact = test_image(4, 6);
    let mut bmp = Vec::new();
    image::codecs::bmp::BmpEncoder::new(&mut bmp)
        .write_image(&intact.data, 4, 6, image::ColorType::Rgb8)
        .unwrap();
    assert_eq!(image::guess_format(&bmp).unwrap(), image::ImageFormat::Bmp);
    let file = process_image(&bmp, 2).unwrap();
    assert_eq!(image::guess_format(&file).unwrap(), image::ImageFormat::Png);
    assert_eq!(decode(&file), stitch_img(&intact, 2));
}

#[test]
fn process_passes_a_gif_through() {
    let mut gif = b"GIF89a".to_vec();
    gif.extend_from_slice(&[1, 0, 1, 0, 0, 0, 0, 0x3b, 9, 9, 9]);
    assert_eq!(process_image(&gif, 10), Ok(gif.clone()));
    let mut old = b"GIF87a".to_vec();
    old.extend_from_slice(b"whatever follows");
    assert_eq!(process_image(&old, 0), Ok(old.clone()));
}

#[test]
fn process_refuses_unknown_bytes() {
    match process_image(b"certainly no image", 2) {
        Err(AppError::Internal(m)) => assert!(m.starts_with("检测图片格式失败: "), "{}", m),
        other => panic!("{:?}", other),
    }
    match process_image(b"", 2) {
        Err(AppError::Internal(m)) => assert!(m.starts_with("检测图片格式失败: "), "{}", m),
        other => panic!("{:?}", other),
    }
}

#[test]
fn process_refuses_a_broken_image() {
    let mut file = png_of(&test_image(4, 4));
    file.truncate(20);
    match process_image(&file, 2) {
        Err(AppError::Internal(m)) => assert!(m.starts_with("解码图片失败: "), "{}", m),
        other => panic!("{:?}", other),
    }
}

#[test]
fn image_status() {
    assert_eq!(check_image_status("u", 200, Some("OK")), Ok(()));
    assert_eq!(check_image_status("u", 299, None), Ok(()));
    assert_eq!(
        check_image_status("https://h/a.webp", 404, Some("Not Found")),
        Err(AppError::Internal(
            "从 https://h/a.webp 下载图片失败: HTTP状态码 404 (Not Found)".to_string()
        ))
    );
    assert_eq!(
        check_image_status("u", 799, None),
        Err(AppError::Internal("从 u 下载图片失败: HTTP状态码 799 (未知错误)".to_string()))
    );
    assert!(check_image_status("u", 199, None).is_err());
    assert!(check_image_status("u", 300, None).is_err());
}

#[test]
fn the_body_is_read_again_three_times() {
    let mut state = BodyRetry::new();
    assert_eq!(state, BodyRetry { retries: 0, backoff_ms: 200 });
    let mut waits = Vec::new();
    loop {
        match state.on_failure("读取失败") {
            BodyRetryStep::Again { wait_ms, next } => {
                waits.push(wait_ms);
                state = next;
            }
            BodyRetryStep::GiveUp(e) => {
                assert_eq!(e, AppError::Internal("读取失败 (已重试3次)".to_string()));
                break;
            }
        }
    }
    assert_eq!(waits, vec![200, 400, 800]);
    assert_eq!(state.retries, 3);
}

#[test]
fn the_wait_is_two_seconds_at_most() {
    let state = BodyRetry { retries: 0, backoff_ms: 1500 };
    assert_eq!(
        state.on_failure("x"),
        BodyRetryStep::Again { wait_ms: 1500, next: BodyRetry { retries: 1, backoff_ms: 2000 } }
    );
    let state = BodyRetry { retries: 2, backoff_ms: u64::MAX };
    assert_eq!(
        state.on_failure("x"),
        BodyRetryStep::Again { wait_ms: u64::MAX, next: BodyRetry { retries: 3, backoff_ms: 2000 } }
    );
}

#[test]
fn download_dirs() {
    assert_eq!(download_dir(500_000, 500_000), "./download/500000/500000");
    assert_eq!(download_dir(1, 12), "./download/1/12");
}

#[test]
fn compressor_arguments_without_password() {
    assert_eq!(
        compress_arguments("./download/1/1/merged.pdf", None),
        vec![
            "-q",
            "-dNOPAUSE",
            "-dBATCH",
            "-sDEVICE=pdfwrite",
            "-dPDFSETTINGS=/printer",
            "-dSAFER",
            "-o",
            "./download/1/1/merged.pdf.tmp",
            "./download/1/1/merged.pdf",
        ]
    );
}

#[test]
fn compressor_arguments_with_password() {
    let args = compress_arguments("./download/500000/500000/merged.pdf", Some("pw"));
    assert_eq!(
        args,
        vec![
            "-q",
            "-dNOPAUSE",
            "-dBATCH",
            "-sDEVICE=pdfwrite",
            "-sUserPassword=pw",
            "-sOwnerPassword=pw",
            "-dPDFSETTINGS=/printer",
            "-dSAFER",
            "-o",
            "./download/500000/500000/merged.pdf.tmp",
            "./download/500000/500000/merged.pdf",
        ]
    );
    assert!(args.contains(&"-sUserPassword=pw".to_string()));
    assert!(args.contains(&"-sOwnerPassword=pw".to_string()));
}

#[test]
fn compressor_files_and_failure() {
    assert_eq!(compress_tmp_path("a/merged.pdf"), "a/merged.pdf.tmp");
    assert_eq!(
        compress_failure("  Error: /undefined in foo \n"),
        AppError::Internal("GhostScript处理失败: Error: /undefined in foo".to_string())
    );
}

/// The reassembly written with the image crate's own pixel access.
fn stitch_with_image_crate(src: &image::RgbImage, block_num: u32) -> image::RgbImage {
    let (width, height) = src.dimensions();
    let mut stitched: image::RgbImage = image::ImageBuffer::new(width, height);
    let remainder_height = height % block_num;
    for i in 0..block_num {
        let mut block_height = height / block_num;
        let src_y_start = height - (block_height * (i + 1)) - remainder_height;
        let mut dst_y_start = block_height * i;
        if i == 0 {
            block_height += remainder_height;
        } else {
            dst_y_start += remainder_height;
        }
        for y in 0..block_height {
            for x in 0..width {
                stitched.put_pixel(x, dst_y_start + y, *src.get_pixel(x, src_y_start + y));
            }
        }
    }
    stitched
}

#[test]
fn stitch_agrees_with_pixel_by_pixel_copying() {
    for (w, h) in [(1u32, 1u32), (3, 2), (7, 13), (4, 64), (5, 101)] {
        let src = test_image(w, h);
        let buffer = image::RgbImage::from_raw(w, h, src.data.clone()).unwrap();
        for n in [1u32, 2, 3, 4, 5, 8, 10, 12, 16, 20, 64, 150] {
            let want = stitch_with_image_crate(&buffer, n);
            let got = stitch_img(&src, n);
            assert_eq!(got.data, want.into_raw(), "{}x{} in {}", w, h, n);
        }
    }
}

#[test]
fn a_decoded_page_is_descrambled_and_encoded() {
    let intact = test_image(5, 23);
    for n in [2u32, 4, 10, 16] {
        let scrambled = apply_upstream_scramble(&intact, n);
        let file = encode_descrambled(scrambled.clone(), n).unwrap();
        assert_eq!(file, png_of(&intact));
        assert_eq!(decode(&file), intact);
        assert_ne!(file, png_of(&scrambled));
    }
    let untouched = encode_descrambled(intact.clone(), 0).unwrap();
    assert_eq!(untouched, png_of(&intact));
}

#[test]
fn an_image_without_pixels_cannot_be_encoded() {
    for (width, height) in [(0u32, 0u32), (0, 4), (4, 0)] {
        let empty = RgbImage { width, height, data: vec![] };
        match encode_descrambled(empty, 2) {
            Err(AppError::Internal(m)) => assert!(m.starts_with("编码图片失败: "), "{}", m),
            other => panic!("{:?}", other),
        }
    }
}
