use jm_downloader_rs::handlers::{
    download_chapter, download_comic, get_comic_info, Action, ChapterDownload, ChapterPhase,
    ComicDownload, ComicInfoJob, ComicPhase, Event, ExpiryPlan, InfoPhase,
};
use jm_downloader_rs::pages::{
    page_files, page_task, PageAction, PageEvent, PageJob, PagePhase, PageTask,
};
use jm_downloader_rs::image_processor::BodyRetry;
use jm_downloader_rs::jm_client::JmClient;
use jm_downloader_rs::models::{
    ChapterDownloadData, ComicDownloadData, DownloadChapterRequest, DownloadComicRequest,
    GetChapterRespData, GetComicInfoRequest, GetComicRespData, SeriesRespData, SingleChapterData,
};
use jm_downloader_rs::{AppError, R};

fn client() -> JmClient {
    JmClient::new("api.example".to_string(), "img.example".to_string())
}

fn single_volume() -> GetComicRespData {
    GetComicRespData {
        name: "Foo".to_string(),
        series: vec![],
        total_views: "".to_string(),
        likes: "".to_string(),
        author: vec!["a".to_string()],
        description: "".to_string(),
    }
}

fn with_chapters() -> GetComicRespData {
    GetComicRespData {
        name: "Bar".to_string(),
        series: vec![
            SeriesRespData { id: "11".to_string(), name: "c1".to_string() },
            SeriesRespData { id: "12".to_string(), name: "c2".to_string() },
        ],
        total_views: "".to_string(),
        likes: "".to_string(),
        author: vec![],
        description: "".to_string(),
    }
}

fn pages(n: usize) -> GetChapterRespData {
    GetChapterRespData { images: (1..=n).map(|i| format!("{:05}.webp", i)).collect() }
}

fn done_in_any_order(jobs: &[PageJob]) -> Vec<(usize, String)> {
    let mut v: Vec<(usize, String)> =
        jobs.iter().map(|j| (j.index, j.relative_path.clone())).collect();
    v.reverse();
    v
}

/// Runs the download of chapters against a service that knows `comic`,
/// whose every chapter has `n` pages, and notes what was asked for.
fn run_chapters(
    request: DownloadChapterRequest,
    comic: Result<GetComicRespData, AppError>,
    n: usize,
    log: &mut Vec<String>,
) -> Result<ChapterDownloadData, AppError> {
    let mut state = ChapterDownload::new(request, client());
    let mut event = Event::Begin;
    for _ in 0..1000 {
        let (next, action) = download_chapter(state, event);
        state = next;
        event = match action {
            Action::GetComic(id) => {
                log.push(format!("comic {}", id));
                Event::Comic(comic.clone())
            }
            Action::GetChapter(id) => {
                log.push(format!("chapter {}", id));
                Event::Chapter(Ok(pages(n)))
            }
            Action::GetScrambleId(id) => {
                log.push(format!("scramble {}", id));
                Event::ScrambleId(Ok(220_980))
            }
            Action::CreateDir(dir) => {
                log.push(format!("mkdir {}", dir));
                Event::DirCreated(Ok(()))
            }
            Action::RunPages(jobs) => {
                log.push(format!("pages {}", jobs.len()));
                Event::Pages(Ok(done_in_any_order(&jobs)))
            }
            Action::Schedule { dir, plan } => {
                log.push(format!("expire {} {:?}", dir, plan));
                Event::Scheduled
            }
            Action::Respond(r) => {
                assert_eq!(state.phase, ChapterPhase::Done);
                return r;
            }
            other => panic!("{:?}", other),
        };
    }
    panic!("the download does not end");
}

#[test]
fn info_single_volume() {
    let state = ComicInfoJob::new(GetComicInfoRequest { id: 500_000 });
    let (state, action) = get_comic_info(state, Event::Begin);
    assert!(matches!(action, Action::GetComic(500_000)));
    assert_eq!(state.phase, InfoPhase::Comic);
    let (state, action) = get_comic_info(state, Event::Comic(Ok(single_volume())));
    assert!(matches!(action, Action::GetChapter(500_000)));
    let (state, action) = get_comic_info(state, Event::Chapter(Ok(pages(3))));
    assert_eq!(state.phase, InfoPhase::Done);
    match action {
        Action::Respond(Ok(info)) => {
            let body = R::success(info);
            let data = body.data.unwrap();
            assert_eq!(data.comic_type, "普通漫画");
            assert_eq!(data.total_pages, Some(3));
            assert_eq!(data.title, "Foo");
            assert_eq!(data.authors, vec!["a".to_string()]);
        }
        other => panic!("{:?}", other),
    }
}

#[test]
fn info_chapter_based() {
    let state = ComicInfoJob::new(GetComicInfoRequest { id: 1 });
    let (state, _) = get_comic_info(state, Event::Begin);
    let (state, action) = get_comic_info(state, Event::Comic(Ok(with_chapters())));
    assert_eq!(state.phase, InfoPhase::Done);
    match action {
        Action::Respond(Ok(info)) => {
            assert_eq!(info.comic_type, "章节漫画");
            assert_eq!(info.total_pages, None);
            assert_eq!(info.comic_id, 1);
        }
        other => panic!("{:?}", other),
    }
}

#[test]
fn info_not_found() {
    let state = ComicInfoJob::new(GetComicInfoRequest { id: 999 });
    let (state, _) = get_comic_info(state, Event::Begin);
    let missing = AppError::NotFound("漫画 999 未找到".to_string());
    let (_, action) = get_comic_info(state, Event::Comic(Err(missing.clone())));
    match action {
        Action::Respond(Err(e)) => {
            assert_eq!(e, missing);
            assert_eq!(e.code(), "10004");
            assert_eq!(e.body::<u8>().code, "10004");
        }
        other => panic!("{:?}", other),
    }
}

#[test]
fn info_fails_with_the_chapter() {
    let state = ComicInfoJob::new(GetComicInfoRequest { id: 5 });
    let (state, _) = get_comic_info(state, Event::Begin);
    let (state, _) = get_comic_info(state, Event::Comic(Ok(single_volume())));
    let e = AppError::Internal("Get chapter failed with code 500: x".to_string());
    let (state, action) = get_comic_info(state, Event::Chapter(Err(e.clone())));
    assert_eq!(state.phase, InfoPhase::Done);
    assert!(matches!(action, Action::Respond(Err(got)) if got == e));
}

#[test]
fn info_refuses_an_event_out_of_turn() {
    let state = ComicInfoJob::new(GetComicInfoRequest { id: 5 });
    let (state, action) = get_comic_info(state, Event::Scheduled);
    assert_eq!(state.phase, InfoPhase::Done);
    assert!(matches!(action, Action::Respond(Err(AppError::Internal(_)))));
    let (_, action) = get_comic_info(state, Event::Begin);
    assert!(matches!(action, Action::Respond(Err(AppError::Internal(_)))));
}

#[test]
fn download_chapter_with_missing_chapter() {
    let request = DownloadChapterRequest { comic_id: 1, chapter_ids: vec![99], expire_seconds: 600 };
    let mut log = Vec::new();
    let r = run_chapters(request, Ok(with_chapters()), 3, &mut log);
    let e = r.unwrap_err();
    assert_eq!(e.code(), "10004");
    assert!(e.message().contains("99"));
    assert_eq!(e, AppError::NotFound("章节 99 不存在".to_string()));
    assert_eq!(log, vec!["comic 1"]);
}

#[test]
fn download_chapters_in_the_order_asked_for() {
    let request =
        DownloadChapterRequest { comic_id: 1, chapter_ids: vec![12, 11], expire_seconds: 60 };
    let mut log = Vec::new();
    let data = run_chapters(request, Ok(with_chapters()), 2, &mut log).unwrap();
    assert_eq!(
        data,
        ChapterDownloadData {
            comic_id: 1,
            comic_title: "Bar".to_string(),
            chapters: vec![
                SingleChapterData {
                    chapter_id: 12,
                    chapter_title: "c2".to_string(),
                    images: vec![
                        "download/1/12/0001.png".to_string(),
                        "download/1/12/0002.png".to_string()
                    ],
                },
                SingleChapterData {
                    chapter_id: 11,
                    chapter_title: "c1".to_string(),
                    images: vec![
                        "download/1/11/0001.png".to_string(),
                        "download/1/11/0002.png".to_string()
                    ],
                },
            ],
        }
    );
    assert_eq!(
        log,
        vec![
            "comic 1",
            "chapter 12",
            "scramble 12",
            "mkdir ./download/1/12",
            "pages 2",
            "expire ./download/1/12 After(60)",
            "chapter 11",
            "scramble 11",
            "mkdir ./download/1/11",
            "pages 2",
            "expire ./download/1/11 After(60)",
        ]
    );
}

#[test]
fn download_chapter_images_follow_the_manifest() {
    let request = DownloadChapterRequest { comic_id: 1, chapter_ids: vec![11], expire_seconds: -1 };
    let mut log = Vec::new();
    let data = run_chapters(request, Ok(with_chapters()), 120, &mut log).unwrap();
    assert_eq!(data.chapters.len(), 1);
    let images = &data.chapters[0].images;
    assert_eq!(images.len(), 120);
    for (i, path) in images.iter().enumerate() {
        assert_eq!(*path, format!("download/1/11/{:04}.png", i + 1));
    }
    assert!(log.contains(&"expire ./download/1/11 Never".to_string()));
}

#[test]
fn download_chapter_again_gives_the_same_list() {
    let request = DownloadChapterRequest { comic_id: 1, chapter_ids: vec![11, 12], expire_seconds: 0 };
    let first = run_chapters(request.clone(), Ok(with_chapters()), 5, &mut Vec::new());
    let second = run_chapters(request, Ok(with_chapters()), 5, &mut Vec::new());
    assert!(first.is_ok());
    assert_eq!(first, second);
}

#[test]
fn download_chapter_refuses_before_anything_is_fetched() {
    let mut log = Vec::new();
    let empty = DownloadChapterRequest { comic_id: 1, chapter_ids: vec![], expire_seconds: 600 };
    assert_eq!(
        run_chapters(empty, Ok(with_chapters()), 1, &mut log),
        Err(AppError::BadRequest("章节ID列表不能为空".to_string()))
    );
    let bad = DownloadChapterRequest { comic_id: 1, chapter_ids: vec![11], expire_seconds: -2 };
    assert_eq!(
        run_chapters(bad, Ok(with_chapters()), 1, &mut log),
        Err(AppError::BadRequest("过期时间必须为-1或非负数".to_string()))
    );
    assert!(log.is_empty());
}

#[test]
fn download_chapter_of_a_single_volume() {
    let mut log = Vec::new();
    let own = DownloadChapterRequest { comic_id: 500_000, chapter_ids: vec![500_000], expire_seconds: 1 };
    let data = run_chapters(own, Ok(single_volume()), 1, &mut log).unwrap();
    assert_eq!(data.chapters[0].chapter_title, "第1话");
    assert_eq!(data.chapters[0].images, vec!["download/500000/500000/0001.png".to_string()]);
    assert!(log.contains(&"expire ./download/500000/500000 After(1)".to_string()));
    let other = DownloadChapterRequest { comic_id: 500_000, chapter_ids: vec![500_000, 7], expire_seconds: 1 };
    let mut log = Vec::new();
    let e = run_chapters(other, Ok(single_volume()), 1, &mut log).unwrap_err();
    assert_eq!(e.code(), "10004");
    assert_eq!(log.iter().filter(|l| l.starts_with("expire")).count(), 1);
}

#[test]
fn download_chapter_ends_with_the_first_error() {
    let request = DownloadChapterRequest { comic_id: 1, chapter_ids: vec![11, 12], expire_seconds: 600 };
    let e = AppError::Internal("boom".to_string());
    let mut log = Vec::new();
    assert_eq!(run_chapters(request.clone(), Err(e.clone()), 1, &mut log), Err(e.clone()));
    assert_eq!(log, vec!["comic 1"]);

    let state = ChapterDownload::new(request, client());
    let (state, _) = download_chapter(state, Event::Begin);
    let (state, _) = download_chapter(state, Event::Comic(Ok(with_chapters())));
    let (state, _) = download_chapter(state, Event::Chapter(Ok(pages(2))));
    let (state, _) = download_chapter(state, Event::ScrambleId(Ok(1)));
    let (state, action) = download_chapter(state, Event::DirCreated(Ok(())));
    assert!(matches!(action, Action::RunPages(ref jobs) if jobs.len() == 2));
    let (state, action) = download_chapter(state, Event::Pages(Err(e.clone())));
    assert_eq!(state.phase, ChapterPhase::Failing);
    assert_eq!(state.failure, Some(e.clone()));
    match action {
        Action::Schedule { dir, plan } => {
            assert_eq!(dir, "./download/1/11");
            assert_eq!(plan, ExpiryPlan::After(600));
        }
        other => panic!("{:?}", other),
    }
    let (state, action) = download_chapter(state, Event::Scheduled);
    assert_eq!(state.phase, ChapterPhase::Done);
    assert!(matches!(action, Action::Respond(Err(got)) if got == e));
}

#[test]
fn a_failed_chapter_is_still_removed_at_expiry() {
    let e = AppError::Internal("从 u 读取响应字节失败: reset (已重试3次)".to_string());
    for (expire, plan) in [(-1, ExpiryPlan::Never), (0, ExpiryPlan::Now), (1, ExpiryPlan::After(1))] {
        let request =
            DownloadChapterRequest { comic_id: 1, chapter_ids: vec![12, 11], expire_seconds: expire };
        let mut state = ChapterDownload::new(request, client());
        let mut event = Event::Begin;
        let mut scheduled = Vec::new();
        let mut pages_run = 0;
        let result = loop {
            let (next, action) = download_chapter(state, event);
            state = next;
            event = match action {
                Action::GetComic(_) => Event::Comic(Ok(with_chapters())),
                Action::GetChapter(_) => Event::Chapter(Ok(pages(2))),
                Action::GetScrambleId(_) => Event::ScrambleId(Ok(220_980)),
                Action::CreateDir(_) => Event::DirCreated(Ok(())),
                Action::RunPages(jobs) => {
                    pages_run += 1;
                    if pages_run == 1 {
                        Event::Pages(Ok(done_in_any_order(&jobs)))
                    } else {
                        Event::Pages(Err(e.clone()))
                    }
                }
                Action::Schedule { dir, plan } => {
                    scheduled.push((dir, plan));
                    Event::Scheduled
                }
                Action::Respond(r) => break r,
                other => panic!("{:?}", other),
            };
        };
        assert_eq!(result, Err(e.clone()));
        assert_eq!(
            scheduled,
            vec![("./download/1/12".to_string(), plan), ("./download/1/11".to_string(), plan)]
        );
    }
}

#[test]
fn a_failure_before_the_pages_schedules_nothing() {
    let request = DownloadChapterRequest { comic_id: 1, chapter_ids: vec![11], expire_seconds: 600 };
    let e = AppError::Internal("boom".to_string());
    let state = ChapterDownload::new(request, client());
    let (state, _) = download_chapter(state, Event::Begin);
    let (state, _) = download_chapter(state, Event::Comic(Ok(with_chapters())));
    let (state, action) = download_chapter(state, Event::Chapter(Err(e.clone())));
    assert_eq!(state.phase, ChapterPhase::Done);
    assert!(matches!(action, Action::Respond(Err(got)) if got == e));
}

fn run_comic(
    request: DownloadComicRequest,
    comic: GetComicRespData,
    n: usize,
    pdf_on_disk: bool,
    log: &mut Vec<String>,
) -> Result<ComicDownloadData, AppError> {
    let mut state = ComicDownload::new(request, client());
    let mut event = Event::Begin;
    for _ in 0..100 {
        let (next, action) = download_comic(state, event);
        state = next;
        event = match action {
            Action::GetComic(id) => {
                log.push(format!("comic {}", id));
                Event::Comic(Ok(comic.clone()))
            }
            Action::GetChapter(id) => {
                log.push(format!("chapter {}", id));
                Event::Chapter(Ok(pages(n)))
            }
            Action::GetScrambleId(id) => {
                log.push(format!("scramble {}", id));
                Event::ScrambleId(Ok(220_980))
            }
            Action::CreateDir(dir) => {
                log.push(format!("mkdir {}", dir));
                Event::DirCreated(Ok(()))
            }
            Action::CheckPdf(path) => {
                log.push(format!("exists {}", path));
                Event::PdfChecked(pdf_on_disk)
            }
            Action::RunPages(jobs) => {
                log.push(format!("pages {}", jobs.len()));
                Event::Pages(Ok(done_in_any_order(&jobs)))
            }
            Action::MergePdf { images, output } => {
                log.push(format!("merge {} -> {}", images.join(","), output));
                Event::Merged(Ok(()))
            }
            Action::CompressPdf { path, password } => {
                let args = jm_downloader_rs::image_processor::compress_arguments(
                    &path,
                    password.as_deref(),
                );
                log.push(format!("gs {}", args.join(" ")));
                Event::Compressed(Ok(()))
            }
            Action::Schedule { dir, plan } => {
                log.push(format!("expire {} {:?}", dir, plan));
                Event::Scheduled
            }
            Action::Respond(r) => {
                assert_eq!(state.phase, ComicPhase::Done);
                return r;
            }
        };
    }
    panic!("the download does not end");
}

#[test]
fn download_single_volume_without_merge() {
    let request =
        DownloadComicRequest { comic_id: 500_000, merge: false, encrypt: None, expire_seconds: 600 };
    let mut log = Vec::new();
    let data = run_comic(request, single_volume(), 3, false, &mut log).unwrap();
    assert_eq!(
        data,
        ComicDownloadData {
            comic_id: 500_000,
            comic_title: "Foo".to_string(),
            images: Some(vec![
                "download/500000/500000/0001.png".to_string(),
                "download/500000/500000/0002.png".to_string(),
                "download/500000/500000/0003.png".to_string(),
            ]),
            pdf_path: None,
        }
    );
    assert_eq!(
        log,
        vec![
            "comic 500000",
            "chapter 500000",
            "scramble 500000",
            "mkdir ./download/500000/500000",
            "pages 3",
            "expire ./download/500000/500000 After(600)",
        ]
    );
}

#[test]
fn download_single_volume_merged_and_encrypted() {
    let request = DownloadComicRequest {
        comic_id: 500_000,
        merge: true,
        encrypt: Some(" pw ".to_string()),
        expire_seconds: 600,
    };
    let mut log = Vec::new();
    let data = run_comic(request, single_volume(), 3, false, &mut log).unwrap();
    assert_eq!(
        data,
        ComicDownloadData {
            comic_id: 500_000,
            comic_title: "Foo".to_string(),
            images: None,
            pdf_path: Some("download/500000/500000/merged.pdf".to_string()),
        }
    );
    assert_eq!(
        log,
        vec![
            "comic 500000",
            "chapter 500000",
            "scramble 500000",
            "mkdir ./download/500000/500000",
            "exists ./download/500000/500000/merged.pdf",
            "pages 3",
            "merge ./download/500000/500000/0001.png,./download/500000/500000/0002.png,./download/500000/500000/0003.png -> ./download/500000/500000/merged.pdf",
            "gs -q -dNOPAUSE -dBATCH -sDEVICE=pdfwrite -sUserPassword=pw -sOwnerPassword=pw -dPDFSETTINGS=/printer -dSAFER -o ./download/500000/500000/merged.pdf.tmp ./download/500000/500000/merged.pdf",
            "expire ./download/500000/500000 After(600)",
        ]
    );
}

#[test]
fn download_merged_without_password_does_not_encrypt() {
    let request = DownloadComicRequest {
        comic_id: 5,
        merge: true,
        encrypt: Some("   ".to_string()),
        expire_seconds: -1,
    };
    let mut log = Vec::new();
    run_comic(request, single_volume(), 1, false, &mut log).unwrap();
    let gs: Vec<&String> = log.iter().filter(|l| l.starts_with("gs ")).collect();
    assert_eq!(gs.len(), 1);
    assert!(!gs[0].contains("Password"));
    assert!(log.contains(&"expire ./download/5/5 Never".to_string()));
}

#[test]
fn a_merged_pdf_on_disk_is_reused() {
    let request =
        DownloadComicRequest { comic_id: 5, merge: true, encrypt: None, expire_seconds: 0 };
    let mut log = Vec::new();
    let data = run_comic(request, single_volume(), 3, true, &mut log).unwrap();
    assert_eq!(data.images, None);
    assert_eq!(data.pdf_path, Some("download/5/5/merged.pdf".to_string()));
    assert_eq!(
        log,
        vec![
            "comic 5",
            "chapter 5",
            "scramble 5",
            "mkdir ./download/5/5",
            "exists ./download/5/5/merged.pdf",
            "expire ./download/5/5 Now",
        ]
    );
}

#[test]
fn a_comic_with_chapters_is_refused() {
    let request =
        DownloadComicRequest { comic_id: 1, merge: false, encrypt: None, expire_seconds: 600 };
    let mut log = Vec::new();
    let e = run_comic(request, with_chapters(), 3, false, &mut log).unwrap_err();
    assert_eq!(e.code(), "10001");
    assert!(e.message().contains("/api/comic/downloadChapter"));
    assert_eq!(log, vec!["comic 1"]);
}

#[test]
fn a_comic_request_with_a_bad_expiry_is_refused() {
    let request =
        DownloadComicRequest { comic_id: 1, merge: false, encrypt: None, expire_seconds: -2 };
    let mut log = Vec::new();
    assert_eq!(
        run_comic(request, single_volume(), 3, false, &mut log),
        Err(AppError::BadRequest("过期时间必须为-1或非负数".to_string()))
    );
    assert!(log.is_empty());
}

#[test]
fn nothing_to_merge() {
    let request = DownloadComicRequest { comic_id: 5, merge: true, encrypt: None, expire_seconds: 600 };
    let mut log = Vec::new();
    assert_eq!(
        run_comic(request, single_volume(), 0, false, &mut log),
        Err(AppError::Internal("没有可合并的图片".to_string()))
    );
    assert!(!log.iter().any(|l| l.starts_with("merge")));
    assert_eq!(log.last().unwrap(), "expire ./download/5/5 After(600)");
}

#[test]
fn merge_and_compress_failures_end_the_download() {
    let request = DownloadComicRequest { comic_id: 5, merge: true, encrypt: None, expire_seconds: 600 };
    let prepare = || {
        let state = ComicDownload::new(request.clone(), client());
        let (state, _) = download_comic(state, Event::Begin);
        let (state, _) = download_comic(state, Event::Comic(Ok(single_volume())));
        let (state, _) = download_comic(state, Event::Chapter(Ok(pages(1))));
        let (state, _) = download_comic(state, Event::ScrambleId(Ok(1)));
        let (state, _) = download_comic(state, Event::DirCreated(Ok(())));
        let (state, _) = download_comic(state, Event::PdfChecked(false));
        let (state, action) =
            download_comic(state, Event::Pages(Ok(vec![(0, "download/5/5/0001.png".to_string())])));
        assert!(matches!(action, Action::MergePdf { .. }));
        state
    };
    let scheduled = |action: Action<ComicDownloadData>| match action {
        Action::Schedule { dir, plan } => {
            assert_eq!(dir, "./download/5/5");
            assert_eq!(plan, ExpiryPlan::After(600));
        }
        other => panic!("{:?}", other),
    };
    let e = AppError::Internal("写入PDF失败: disk full".to_string());
    let (state, action) = download_comic(prepare(), Event::Merged(Err(e.clone())));
    assert_eq!(state.phase, ComicPhase::Failing);
    scheduled(action);
    let (state, action) = download_comic(state, Event::Scheduled);
    assert_eq!(state.phase, ComicPhase::Done);
    assert!(matches!(action, Action::Respond(Err(got)) if got == e));
    let (state, action) = download_comic(prepare(), Event::Merged(Ok(())));
    assert!(matches!(action, Action::CompressPdf { ref password, .. } if password.is_none()));
    let gs = AppError::Internal("GhostScript处理失败: no".to_string());
    let (state, action) = download_comic(state, Event::Compressed(Err(gs.clone())));
    assert_eq!(state.phase, ComicPhase::Failing);
    assert_eq!(state.failure, Some(gs.clone()));
    scheduled(action);
    let (state, action) = download_comic(state, Event::Scheduled);
    assert_eq!(state.phase, ComicPhase::Done);
    assert!(matches!(action, Action::Respond(Err(got)) if got == gs));
}

#[test]
fn failed_pages_of_a_comic_are_still_removed_at_expiry() {
    let request = DownloadComicRequest { comic_id: 5, merge: false, encrypt: None, expire_seconds: 0 };
    let state = ComicDownload::new(request, client());
    let (state, _) = download_comic(state, Event::Begin);
    let (state, _) = download_comic(state, Event::Comic(Ok(single_volume())));
    let (state, _) = download_comic(state, Event::Chapter(Ok(pages(2))));
    let (state, _) = download_comic(state, Event::ScrambleId(Ok(1)));
    let (state, action) = download_comic(state, Event::DirCreated(Ok(())));
    assert!(matches!(action, Action::RunPages(_)));
    let e = AppError::Internal("解码图片失败: bad".to_string());
    let (state, action) = download_comic(state, Event::Pages(Err(e.clone())));
    assert_eq!(state.phase, ComicPhase::Failing);
    match action {
        Action::Schedule { dir, plan } => {
            assert_eq!(dir, "./download/5/5");
            assert_eq!(plan, ExpiryPlan::Now);
        }
        other => panic!("{:?}", other),
    }
    let (state, action) = download_comic(state, Event::Scheduled);
    assert_eq!(state.phase, ComicPhase::Done);
    assert!(matches!(action, Action::Respond(Err(got)) if got == e));
    let (_, action) = download_comic(state, Event::Scheduled);
    assert!(matches!(action, Action::Respond(Err(AppError::Internal(_)))));
}

#[test]
fn page_files_in_order() {
    assert_eq!(page_files(1, 2, 0), Vec::<String>::new());
    assert_eq!(
        page_files(1, 2, 3),
        vec!["./download/1/2/0001.png", "./download/1/2/0002.png", "./download/1/2/0003.png"]
    );
}

fn job() -> PageJob {
    PageJob {
        chapter_id: 12,
        index: 4,
        filename: "00005.webp".to_string(),
        url: "https://img.example/media/photos/12/00005.webp".to_string(),
        block_num: 0,
        target_path: "./download/1/12/0005.png".to_string(),
        relative_path: "download/1/12/0005.png".to_string(),
    }
}

fn gif() -> Vec<u8> {
    let mut bytes = b"GIF89a".to_vec();
    bytes.extend_from_slice(&[1, 0, 1, 0, 0, 0, 0, 0x3b]);
    bytes
}

#[test]
fn a_page_on_disk_needs_no_request() {
    let (task, action) = page_task(PageTask::new(job()), PageEvent::Begin);
    assert!(matches!(action, PageAction::CheckTarget(ref p) if p == "./download/1/12/0005.png"));
    assert_eq!(task.phase, PagePhase::Checking);
    let (task, action) = page_task(task, PageEvent::TargetChecked(true));
    assert_eq!(task.phase, PagePhase::Done);
    assert!(matches!(action, PageAction::Finish(Ok((4, ref p))) if p == "download/1/12/0005.png"));
}

#[test]
fn a_page_is_fetched_processed_and_written() {
    let (task, _) = page_task(PageTask::new(job()), PageEvent::Begin);
    let (task, action) = page_task(task, PageEvent::TargetChecked(false));
    assert!(matches!(action, PageAction::Fetch(ref u) if *u == job().url));
    let (task, action) = page_task(task, PageEvent::Status(200, Some("OK".to_string())));
    assert!(matches!(action, PageAction::ReadBody));
    let (task, action) = page_task(task, PageEvent::Body(Ok(gif())));
    match action {
        PageAction::Write { path, file } => {
            assert_eq!(path, "./download/1/12/0005.png");
            assert_eq!(file, gif());
        }
        other => panic!("{:?}", other),
    }
    assert!(task.passthrough);
    let (task, action) = page_task(task, PageEvent::Written(Ok(())));
    assert_eq!(task.phase, PagePhase::Done);
    assert!(matches!(action, PageAction::Finish(Ok((4, ref p))) if p == "download/1/12/0005.png"));
}

#[test]
fn a_page_that_cannot_be_had_fails() {
    let fetching = || {
        let (task, _) = page_task(PageTask::new(job()), PageEvent::Begin);
        page_task(task, PageEvent::TargetChecked(false)).0
    };
    let (_, action) = page_task(fetching(), PageEvent::SendFailed("timeout".to_string()));
    assert!(matches!(action, PageAction::Finish(Err(AppError::Internal(ref m)))
        if m == "发送请求到 https://img.example/media/photos/12/00005.webp 失败: timeout"));
    let (_, action) = page_task(fetching(), PageEvent::Status(404, Some("Not Found".to_string())));
    assert!(matches!(action, PageAction::Finish(Err(AppError::Internal(ref m)))
        if m == "从 https://img.example/media/photos/12/00005.webp 下载图片失败: HTTP状态码 404 (Not Found)"));
    let (task, _) = page_task(fetching(), PageEvent::Status(200, None));
    let (_, action) = page_task(task, PageEvent::Body(Ok(b"no image".to_vec())));
    assert!(matches!(action, PageAction::Finish(Err(AppError::Internal(ref m)))
        if m.starts_with("检测图片格式失败: ")));
    let (task, _) = page_task(fetching(), PageEvent::Status(200, None));
    let (task, _) = page_task(task, PageEvent::Body(Ok(gif())));
    let (_, action) = page_task(task, PageEvent::Written(Err("denied".to_string())));
    assert!(matches!(action, PageAction::Finish(Err(AppError::Internal(ref m)))
        if m == "保存GIF图片到 ./download/1/12/0005.png 失败: denied"));
}

#[test]
fn a_body_is_read_again_three_times_and_no_more() {
    let (task, _) = page_task(PageTask::new(job()), PageEvent::Begin);
    let (mut task, _) = page_task(task, PageEvent::TargetChecked(false));
    let mut waits = Vec::new();
    let mut requests = 1;
    loop {
        let (next, action) = page_task(task, PageEvent::Status(200, None));
        assert!(matches!(action, PageAction::ReadBody));
        let (next, action) = page_task(next, PageEvent::Body(Err("reset".to_string())));
        match action {
            PageAction::Sleep(ms) => {
                waits.push(ms);
                assert_eq!(next.phase, PagePhase::Waiting);
                let (again, action) = page_task(next, PageEvent::Slept);
                assert!(matches!(action, PageAction::Fetch(_)));
                requests += 1;
                task = again;
            }
            PageAction::Finish(Err(AppError::Internal(m))) => {
                assert_eq!(
                    m,
                    "从 https://img.example/media/photos/12/00005.webp 读取响应字节失败: reset (已重试3次)"
                );
                assert_eq!(next.phase, PagePhase::Done);
                break;
            }
            other => panic!("{:?}", other),
        }
    }
    assert_eq!(waits, vec![200, 400, 800]);
    assert_eq!(requests, 4);
    assert_eq!(PageTask::new(job()).retry, BodyRetry { retries: 0, backoff_ms: 200 });
}

#[test]
fn expiry_of_one_second() {
    let request = DownloadChapterRequest { comic_id: 1, chapter_ids: vec![11], expire_seconds: 1 };
    let state = ChapterDownload::new(request, client());
    let (state, _) = download_chapter(state, Event::Begin);
    let (state, _) = download_chapter(state, Event::Comic(Ok(with_chapters())));
    let (state, _) = download_chapter(state, Event::Chapter(Ok(pages(1))));
    let (state, _) = download_chapter(state, Event::ScrambleId(Ok(1)));
    let (state, _) = download_chapter(state, Event::DirCreated(Ok(())));
    let (_, action) =
        download_chapter(state, Event::Pages(Ok(vec![(0, "download/1/11/0001.png".to_string())])));
    match action {
        Action::Schedule { dir, plan } => {
            assert_eq!(dir, "./download/1/11");
            assert_eq!(plan, ExpiryPlan::After(1));
        }
        other => panic!("{:?}", other),
    }
}
