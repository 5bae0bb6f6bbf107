//! The three operations, each as a sequence of steps: what a request must
//! satisfy, which chapter it names, what is asked of the world outside and
//! in which order, what is answered, and when the files expire.

use vstd::prelude::*;
use vstd::string::StringExecFns;

use crate::failed_with;
use crate::image_processor::chapter_dir;
use crate::image_processor::download_dir;
use crate::jm_client::JmClient;
use crate::models::ChapterDownloadData;
use crate::models::ComicDownloadData;
use crate::models::ComicInfo;
use crate::models::DownloadChapterRequest;
use crate::models::DownloadComicRequest;
use crate::models::GetChapterRespData;
use crate::models::GetComicInfoRequest;
use crate::models::GetComicRespData;
use crate::models::SeriesRespData;
use crate::models::SingleChapterData;
use crate::pages::are_page_files;
use crate::pages::is_ordering_of;
use crate::pages::is_page_job;
use crate::pages::order_images;
use crate::pages::page_files;
use crate::pages::page_jobs;
use crate::pages::relative_file_path;
use crate::pages::relative_path;
use crate::pages::target_file_path;
use crate::pages::target_path;
use crate::pages::unexpected_event_text;
use crate::pages::PageJob;
use crate::text::blank;
use crate::text::decimal;
use crate::text::i64_to_string;
use crate::text::is_blank;
use crate::text::join3;
use crate::text::join4;
use crate::text::text_of;
use crate::text::trim;
use crate::text::trimmed;
use crate::AppError;
use crate::ErrorKind;

verus! {

/// The name of the kind of a comic: one for a comic without chapters,
/// another for a comic with chapters.
pub open spec fn comic_type_text(single_volume: bool) -> Seq<char> {
    if single_volume {
        "普通漫画"@
    } else {
        "章节漫画"@
    }
}

/// Whether the comic is a single volume: its list of chapters is empty.
pub fn is_single_volume(comic: &GetComicRespData) -> (b: bool)
    ensures
        b == (comic.series@.len() == 0),
{
    comic.series.len() == 0
}

/// A text, and nothing where it is empty.
pub open spec fn non_empty(text: Seq<char>) -> Option<Seq<char>> {
    if text.len() == 0 {
        None
    } else {
        Some(text)
    }
}

fn non_empty_string(s: String) -> (r: Option<String>)
    ensures
        text_of(r) == non_empty(s@),
        r matches Some(t) ==> t == s,
{
    if s.as_str().is_empty() {
        None
    } else {
        Some(s)
    }
}

/// `info` tells of `comic` under the id `id`, with the pages of `chapter`
/// counted where the comic is a single volume.
pub open spec fn is_comic_info(
    info: ComicInfo,
    id: i64,
    comic: GetComicRespData,
    chapter: Option<GetChapterRespData>,
) -> bool {
    &&& info.comic_id == id
    &&& info.title == comic.name
    &&& info.comic_type@ == comic_type_text(comic.series@.len() == 0)
    &&& text_of(info.total_views) == non_empty(comic.total_views@)
    &&& text_of(info.likes) == non_empty(comic.likes@)
    &&& info.authors == comic.author
    &&& info.description == comic.description
    &&& info.total_pages == (match chapter {
        Some(c) if comic.series@.len() == 0 => Some(c.images@.len() as usize),
        _ => None,
    })
}

/// What is told of comic `id`. The number of pages is told of a single
/// volume only, for which `chapter` holds its one chapter; the views and
/// the likes are told where the service names them.
pub fn build_comic_info(id: i64, comic: GetComicRespData, chapter: Option<GetChapterRespData>) -> (r:
    ComicInfo)
    ensures
        is_comic_info(r, id, comic, chapter),
{
    let single = is_single_volume(&comic);
    let total_pages = match chapter {
        Some(c) => {
            if single {
                Some(c.images.len())
            } else {
                None
            }
        },
        None => None,
    };
    ComicInfo {
        comic_id: id,
        title: comic.name,
        comic_type: if single {
            String::from_str("普通漫画")
        } else {
            String::from_str("章节漫画")
        },
        total_views: non_empty_string(comic.total_views),
        likes: non_empty_string(comic.likes),
        authors: comic.author,
        description: comic.description,
        total_pages,
    }
}

/// What a request for chapters comes to before anything is fetched: a list
/// of chapters that is empty is refused, then an expiry below -1.
pub open spec fn chapter_request_refusal(request: DownloadChapterRequest) -> Option<Seq<char>> {
    if request.chapter_ids@.len() == 0 {
        Some("章节ID列表不能为空"@)
    } else if request.expire_seconds < -1 {
        Some("过期时间必须为-1或非负数"@)
    } else {
        None
    }
}

/// Checks a request for chapters: it must name a chapter, and its expiry
/// must be -1 or more.
pub fn validate_download_chapter(request: &DownloadChapterRequest) -> (r: Result<(), AppError>)
    ensures
        match chapter_request_refusal(*request) {
            Some(m) => failed_with(r, ErrorKind::BadRequest, m),
            None => r is Ok,
        },
{
    if request.chapter_ids.len() == 0 {
        return Err(AppError::BadRequest(String::from_str("章节ID列表不能为空")));
    }
    if request.expire_seconds < -1 {
        return Err(AppError::BadRequest(String::from_str("过期时间必须为-1或非负数")));
    }
    Ok(())
}

/// Checks a request for a whole comic: its expiry must be -1 or more.
pub fn validate_download_comic(request: &DownloadComicRequest) -> (r: Result<(), AppError>)
    ensures
        request.expire_seconds < -1 ==> failed_with(
            r,
            ErrorKind::BadRequest,
            "过期时间必须为-1或非负数"@,
        ),
        request.expire_seconds >= -1 ==> r is Ok,
{
    if request.expire_seconds < -1 {
        return Err(AppError::BadRequest(String::from_str("过期时间必须为-1或非负数")));
    }
    Ok(())
}

/// The password of the merged PDF: the one asked for, trimmed, and none
/// where that is blank.
pub fn pdf_password(request: &DownloadComicRequest) -> (r: Option<String>)
    ensures
        text_of(r) == (match request.encrypt {
            Some(p) if !is_blank(p@) => Some(trimmed(p@)),
            _ => None,
        }),
{
    match &request.encrypt {
        Some(p) => {
            if blank(p.as_str()) {
                None
            } else {
                Some(trim(p.as_str()))
            }
        },
        None => None,
    }
}

/// A whole comic can be downloaded only where it is a single volume: a
/// comic with chapters is refused, with the advice to ask for chapters.
pub fn require_single_volume(comic: &GetComicRespData) -> (r: Result<(), AppError>)
    ensures
        comic.series@.len() == 0 ==> r is Ok,
        comic.series@.len() != 0 ==> failed_with(
            r,
            ErrorKind::BadRequest,
            "该漫画为章节漫画，请使用 /api/comic/downloadChapter 接口并指定章节ID"@,
        ),
{
    if comic.series.len() != 0 {
        return Err(
            AppError::BadRequest(
                String::from_str("该漫画为章节漫画，请使用 /api/comic/downloadChapter 接口并指定章节ID"),
            ),
        );
    }
    Ok(())
}

/// The position of the first chapter of `series` whose id is `id`, written
/// in decimal, or -1 where there is none.
pub open spec fn series_position(series: Seq<SeriesRespData>, id: Seq<char>, from: int) -> int
    decreases series.len() - from,
{
    if from < 0 || from >= series.len() {
        -1
    } else if series[from].id@ == id {
        from
    } else {
        series_position(series, id, from + 1)
    }
}

/// The name of the chapter `chapter_id` of a comic, or the message that
/// says that the comic has no such chapter. A single volume has one
/// chapter, whose id is the comic's; a comic with chapters has those of its
/// list, found by their id in decimal.
pub open spec fn chapter_name(comic: GetComicRespData, comic_id: i64, chapter_id: i64) -> Result<
    Seq<char>,
    Seq<char>,
> {
    if comic.series@.len() == 0 {
        if chapter_id != comic_id {
            Err(
                "章节 "@ + decimal(chapter_id as int) + " 不存在，该漫画为普通漫画，章节ID应等于漫画ID "@
                    + decimal(comic_id as int),
            )
        } else {
            Ok("第1话"@)
        }
    } else {
        let at = series_position(comic.series@, decimal(chapter_id as int), 0);
        if at < 0 {
            Err("章节 "@ + decimal(chapter_id as int) + " 不存在"@)
        } else {
            Ok(comic.series@[at].name@)
        }
    }
}

/// Finds the name of the chapter `chapter_id` of the comic `comic_id`;
/// a chapter that the comic does not have is `NotFound`.
pub fn resolve_chapter_name(comic: &GetComicRespData, comic_id: i64, chapter_id: i64) -> (r: Result<
    String,
    AppError,
>)
    ensures
        match chapter_name(*comic, comic_id, chapter_id) {
            Ok(name) => r matches Ok(s) && s@ == name,
            Err(m) => failed_with(r, ErrorKind::NotFound, m),
        },
{
    let wanted = i64_to_string(chapter_id);
    if comic.series.len() == 0 {
        if chapter_id != comic_id {
            return Err(
                AppError::NotFound(
                    join4(
                        "章节 ",
                        wanted.as_str(),
                        " 不存在，该漫画为普通漫画，章节ID应等于漫画ID ",
                        i64_to_string(comic_id).as_str(),
                    ),
                ),
            );
        }
        return Ok(String::from_str("第1话"));
    }
    let n = comic.series.len();
    let mut i: usize = 0;
    while i < n
        invariant
            n == comic.series@.len(),
            i <= n,
            wanted@ == decimal(chapter_id as int),
            series_position(comic.series@, wanted@, 0) == series_position(
                comic.series@,
                wanted@,
                i as int,
            ),
        decreases n - i,
    {
        if comic.series[i].id == wanted {
            return Ok(comic.series[i].name.clone());
        }
        i += 1;
    }
    Err(AppError::NotFound(join3("章节 ", wanted.as_str(), " 不存在")))
}

/// When the directory of a chapter is removed.
#[derive(Debug, Clone, Copy, PartialEq, Eq, Structural)]
pub enum ExpiryPlan {
    /// It is kept.
    Never,
    /// It is removed at once.
    Now,
    /// It is removed after so many seconds.
    After(u64),
}

/// When the directory of a chapter is removed, for the expiry asked for.
pub open spec fn expiry_plan(expire_seconds: i64) -> ExpiryPlan {
    if expire_seconds < 0 {
        ExpiryPlan::Never
    } else if expire_seconds == 0 {
        ExpiryPlan::Now
    } else {
        ExpiryPlan::After(expire_seconds as u64)
    }
}

/// Decides when the directory of a chapter is removed: never for a
/// negative expiry, at once for 0, and after as many seconds otherwise.
pub fn schedule_delete_dir(expire_seconds: i64) -> (r: ExpiryPlan)
    ensures
        r == expiry_plan(expire_seconds),
{
    if expire_seconds < 0 {
        ExpiryPlan::Never
    } else if expire_seconds == 0 {
        ExpiryPlan::Now
    } else {
        ExpiryPlan::After(expire_seconds as u64)
    }
}

/// What a request for a whole comic returns: the merged PDF alone where
/// the pages were merged, the pages alone where they were not.
pub fn comic_download_data(
    comic_id: i64,
    comic_title: String,
    merge: bool,
    images: Vec<String>,
) -> (r: ComicDownloadData)
    ensures
        r.comic_id == comic_id,
        r.comic_title == comic_title,
        merge ==> r.images is None && text_of(r.pdf_path) == Some(
            relative_path(comic_id, comic_id, "merged.pdf"@),
        ),
        !merge ==> r.images == Some(images) && r.pdf_path is None,
{
    if merge {
        ComicDownloadData {
            comic_id,
            comic_title,
            images: None,
            pdf_path: Some(relative_file_path(comic_id, comic_id, "merged.pdf")),
        }
    } else {
        ComicDownloadData { comic_id, comic_title, images: Some(images), pdf_path: None }
    }
}

/// What the world outside reports back to an operation.
#[derive(Debug)]
pub enum Event {
    /// The operation begins.
    Begin,
    /// How the request for the comic ended.
    Comic(Result<GetComicRespData, AppError>),
    /// How the request for a chapter ended.
    Chapter(Result<GetChapterRespData, AppError>),
    /// How the request for a chapter's scramble id ended.
    ScrambleId(Result<i64, AppError>),
    /// How the making of a chapter's directory ended.
    DirCreated(Result<(), AppError>),
    /// Whether the merged PDF is on disk.
    PdfChecked(bool),
    /// How the pages ended: the index and the path of every page, in the
    /// order in which they were done, or the first error.
    Pages(Result<Vec<(usize, String)>, AppError>),
    /// How the merging of the pages into one PDF ended.
    Merged(Result<(), AppError>),
    /// How the compressing of the PDF ended.
    Compressed(Result<(), AppError>),
    /// The removal of a directory was scheduled.
    Scheduled,
}

/// What an operation asks the world outside to do next. After each action
/// but the last the event that tells how it ended is handed back.
#[derive(Debug)]
pub enum Action<T> {
    /// Ask the session manager for the comic.
    GetComic(i64),
    /// Ask the session manager for the chapter.
    GetChapter(i64),
    /// Ask the session manager for the chapter's scramble id.
    GetScrambleId(i64),
    /// Make the directory and those above it.
    CreateDir(String),
    /// Tell whether the file is on disk.
    CheckPdf(String),
    /// Do every page, as many at a time as the configuration allows, each
    /// as `page_step` says.
    RunPages(Vec<PageJob>),
    /// Merge the images, in this order, into one PDF at `output`.
    MergePdf { images: Vec<String>, output: String },
    /// Compress the PDF at `path`, and encrypt it where there is a
    /// password.
    CompressPdf { path: String, password: Option<String> },
    /// Schedule the removal of the directory.
    Schedule { dir: String, plan: ExpiryPlan },
    /// Answer the request. This ends the operation.
    Respond(Result<T, AppError>),
}

fn unexpected_event<T>() -> (r: Action<T>)
    ensures
        r matches Action::Respond(Err(e)) && e@ == (ErrorKind::Internal, unexpected_event_text()),
{
    Action::Respond(Err(AppError::Internal(String::from_str("操作收到了意外的事件"))))
}

/// `action` refuses with an error of the given kind and message.
pub open spec fn refuses<T>(action: Action<T>, kind: ErrorKind, text: Seq<char>) -> bool {
    action matches Action::Respond(Err(e)) && e@ == (kind, text)
}

/// Where the operation that tells of a comic stands.
#[derive(Debug, Clone, Copy, PartialEq, Eq, Structural)]
pub enum InfoPhase {
    /// Nothing was done yet.
    Ready,
    /// The comic was asked for.
    Comic,
    /// The one chapter of a single volume was asked for.
    Chapter,
    /// The request was answered.
    Done,
}

/// The operation that tells of a comic.
#[derive(Debug)]
pub struct ComicInfoJob {
    pub request: GetComicInfoRequest,
    pub phase: InfoPhase,
    /// The comic, from when it is known until it is told of.
    pub comic: Option<GetComicRespData>,
}

impl ComicInfoJob {
    /// The operation for `request`, before its beginning.
    pub fn new(request: GetComicInfoRequest) -> (r: Self)
        ensures
            r.request == request,
            r.phase == InfoPhase::Ready,
            r.comic is None,
    {
        ComicInfoJob { request, phase: InfoPhase::Ready, comic: None }
    }
}

/// One step of telling of a comic leads from `before` to `after` and asks
/// for `action`. The comic is asked for first. Of a single volume the one
/// chapter, which has the comic's id, is asked for then, and its pages are
/// counted; of a comic with chapters no chapter is asked for. The first
/// error ends the operation.
pub open spec fn info_step(
    before: ComicInfoJob,
    event: Event,
    after: ComicInfoJob,
    action: Action<ComicInfo>,
) -> bool {
    &&& after.request == before.request
    &&& match (before.phase, event) {
        (InfoPhase::Ready, Event::Begin) => {
            &&& after.phase == InfoPhase::Comic
            &&& action == Action::<ComicInfo>::GetComic(before.request.id)
        },
        (InfoPhase::Comic, Event::Comic(Err(e))) => {
            &&& after.phase == InfoPhase::Done
            &&& action == Action::<ComicInfo>::Respond(Err(e))
        },
        (InfoPhase::Comic, Event::Comic(Ok(comic))) => if comic.series@.len() == 0 {
            &&& after.phase == InfoPhase::Chapter
            &&& after.comic == Some(comic)
            &&& action == Action::<ComicInfo>::GetChapter(before.request.id)
        } else {
            &&& after.phase == InfoPhase::Done
            &&& action matches Action::Respond(Ok(info))
            &&& is_comic_info(info, before.request.id, comic, None)
        },
        (InfoPhase::Chapter, Event::Chapter(Err(e))) => {
            &&& after.phase == InfoPhase::Done
            &&& action == Action::<ComicInfo>::Respond(Err(e))
        },
        (InfoPhase::Chapter, Event::Chapter(Ok(chapter))) => {
            &&& after.phase == InfoPhase::Done
            &&& match before.comic {
                Some(comic) => {
                    &&& action matches Action::Respond(Ok(info))
                    &&& is_comic_info(info, before.request.id, comic, Some(chapter))
                },
                None => refuses(action, ErrorKind::Internal, unexpected_event_text()),
            }
        },
        _ => {
            &&& after.phase == InfoPhase::Done
            &&& refuses(action, ErrorKind::Internal, unexpected_event_text())
        },
    }
}

/// Tells of a comic, step by step: takes the event that answers the action
/// before, and gives the next action.
pub fn get_comic_info(state: ComicInfoJob, event: Event) -> (r: (ComicInfoJob, Action<ComicInfo>))
    ensures
        info_step(state, event, r.0, r.1),
{
    let ComicInfoJob { request, phase, comic: known } = state;
    let id = request.id;
    match (phase, event) {
        (InfoPhase::Ready, Event::Begin) => (
            ComicInfoJob { request, phase: InfoPhase::Comic, comic: None },
            Action::GetComic(id),
        ),
        (InfoPhase::Comic, Event::Comic(Err(e))) => (
            ComicInfoJob { request, phase: InfoPhase::Done, comic: None },
            Action::Respond(Err(e)),
        ),
        (InfoPhase::Comic, Event::Comic(Ok(comic))) => {
            if is_single_volume(&comic) {
                (
                    ComicInfoJob { request, phase: InfoPhase::Chapter, comic: Some(comic) },
                    Action::GetChapter(id),
                )
            } else {
                (
                    ComicInfoJob { request, phase: InfoPhase::Done, comic: None },
                    Action::Respond(Ok(build_comic_info(id, comic, None))),
                )
            }
        },
        (InfoPhase::Chapter, Event::Chapter(Err(e))) => (
            ComicInfoJob { request, phase: InfoPhase::Done, comic: None },
            Action::Respond(Err(e)),
        ),
        (InfoPhase::Chapter, Event::Chapter(Ok(chapter))) => {
            let action = match known {
                Some(comic) => Action::Respond(Ok(build_comic_info(id, comic, Some(chapter)))),
                None => unexpected_event(),
            };
            (ComicInfoJob { request, phase: InfoPhase::Done, comic: None }, action)
        },
        _ => (ComicInfoJob { request, phase: InfoPhase::Done, comic: None }, unexpected_event()),
    }
}

/// Where the download of chapters stands.
#[derive(Debug, Clone, Copy, PartialEq, Eq, Structural)]
pub enum ChapterPhase {
    /// Nothing was done yet.
    Ready,
    /// The comic was asked for.
    Comic,
    /// The chapter in work was asked for.
    Chapter,
    /// The scramble id of the chapter in work was asked for.
    ScrambleId,
    /// The directory of the chapter in work is being made.
    Dir,
    /// The pages of the chapter in work are being done.
    Pages,
    /// The removal of the directory of the chapter in work is being
    /// scheduled.
    Scheduling,
    /// The pages of the chapter in work have failed, and the removal of
    /// its directory is being scheduled before the error is answered.
    Failing,
    /// The request was answered.
    Done,
}

/// The download of some chapters of a comic.
#[derive(Debug)]
pub struct ChapterDownload {
    pub request: DownloadChapterRequest,
    pub client: JmClient,
    pub phase: ChapterPhase,
    /// The comic, from when it is known.
    pub comic: Option<GetComicRespData>,
    /// The place in the request of the chapter in work.
    pub position: usize,
    /// The name of the chapter in work.
    pub title: String,
    /// The pages of the chapter in work, from when they are known.
    pub manifest: Option<GetChapterRespData>,
    /// The scramble id of the chapter in work, from when it is known.
    pub scramble_id: i64,
    /// The chapters that are done, in the order of the request.
    pub chapters: Vec<SingleChapterData>,
    /// The error of the pages of the chapter in work, from when they have
    /// failed until it is answered.
    pub failure: Option<AppError>,
}

impl ChapterDownload {
    /// The download that `request` asks for, before its beginning.
    pub fn new(request: DownloadChapterRequest, client: JmClient) -> (r: Self)
        ensures
            r.request == request,
            r.client == client,
            r.phase == ChapterPhase::Ready,
            r.comic is None,
            r.position == 0,
            r.title@.len() == 0,
            r.manifest is None,
            r.scramble_id == 0,
            r.chapters@.len() == 0,
            r.failure is None,
    {
        ChapterDownload {
            request,
            client,
            phase: ChapterPhase::Ready,
            comic: None,
            position: 0,
            title: String::new(),
            manifest: None,
            scramble_id: 0,
            chapters: Vec::new(),
            failure: None,
        }
    }

    /// The download is over, and `action` is its last.
    pub open spec fn ends_with(
        self,
        action: Action<ChapterDownloadData>,
        want: Action<ChapterDownloadData>,
    ) -> bool {
        self.phase == ChapterPhase::Done && action == want
    }

    /// The download is at the chapter at `position` and has done
    /// `chapters`, for the comic `comic`.
    pub open spec fn works_on(
        self,
        comic: Option<GetComicRespData>,
        position: int,
        chapters: Seq<SingleChapterData>,
    ) -> bool {
        &&& self.comic == comic
        &&& self.position == position
        &&& self.chapters@ == chapters
    }
}

/// The download turns to the chapter at `position`, with `chapters` done.
/// Past the last chapter the request is answered with the comic's title
/// and the chapters done. A chapter that the comic does not have ends the
/// download with `NotFound`. Any other chapter is asked for.
pub open spec fn chapter_begins(
    request: DownloadChapterRequest,
    comic: GetComicRespData,
    position: int,
    chapters: Seq<SingleChapterData>,
    after: ChapterDownload,
    action: Action<ChapterDownloadData>,
) -> bool {
    if position >= request.chapter_ids@.len() {
        &&& after.phase == ChapterPhase::Done
        &&& action matches Action::Respond(Ok(data))
        &&& data.comic_id == request.comic_id
        &&& data.comic_title == comic.name
        &&& data.chapters@ == chapters
    } else {
        match chapter_name(comic, request.comic_id, request.chapter_ids@[position]) {
            Err(m) => after.phase == ChapterPhase::Done && refuses(action, ErrorKind::NotFound, m),
            Ok(name) => {
                &&& after.phase == ChapterPhase::Chapter
                &&& after.works_on(Some(comic), position, chapters)
                &&& after.title@ == name
                &&& action == Action::<ChapterDownloadData>::GetChapter(
                    request.chapter_ids@[position],
                )
            },
        }
    }
}

/// One step of the download of chapters leads from `before` to `after`
/// and asks for `action`. A request that is refused is answered at once.
/// The comic is asked for then. The chapters are worked on one after the
/// other in the order of the request: for each its name is found, its
/// pages and its scramble id are asked for, its directory is made, its
/// pages are done, what they gave back is put in the order of the pages,
/// and the removal of its directory is scheduled. The first error ends the
/// download. Where it is the pages of a chapter that fail, what they wrote
/// stays on disk, and the removal of the chapter's directory is scheduled
/// as the request asks before the error is answered.
pub open spec fn chapter_step(
    before: ChapterDownload,
    event: Event,
    after: ChapterDownload,
    action: Action<ChapterDownloadData>,
) -> bool {
    let request = before.request;
    let at = before.position as int;
    let in_work = at < request.chapter_ids@.len();
    &&& after.request == before.request
    &&& after.client == before.client
    &&& match (before.phase, event) {
        (ChapterPhase::Ready, Event::Begin) => match chapter_request_refusal(request) {
            Some(m) => after.phase == ChapterPhase::Done && refuses(
                action,
                ErrorKind::BadRequest,
                m,
            ),
            None => {
                &&& after.phase == ChapterPhase::Comic
                &&& after.chapters@ == before.chapters@
                &&& action == Action::<ChapterDownloadData>::GetComic(request.comic_id)
            },
        },
        (ChapterPhase::Comic, Event::Comic(Ok(comic))) => chapter_begins(
            request,
            comic,
            0,
            before.chapters@,
            after,
            action,
        ),
        (ChapterPhase::Chapter, Event::Chapter(Ok(manifest))) if in_work => {
            &&& after.phase == ChapterPhase::ScrambleId
            &&& after.works_on(before.comic, at, before.chapters@)
            &&& after.title == before.title
            &&& after.manifest == Some(manifest)
            &&& action == Action::<ChapterDownloadData>::GetScrambleId(request.chapter_ids@[at])
        },
        (ChapterPhase::ScrambleId, Event::ScrambleId(Ok(scramble_id))) if in_work => {
            &&& after.phase == ChapterPhase::Dir
            &&& after.works_on(before.comic, at, before.chapters@)
            &&& after.title == before.title
            &&& after.manifest == before.manifest
            &&& after.scramble_id == scramble_id
            &&& action matches Action::CreateDir(dir)
            &&& dir@ == chapter_dir(request.comic_id, request.chapter_ids@[at])
        },
        (ChapterPhase::Dir, Event::DirCreated(Ok(()))) if in_work && before.manifest is Some => {
            &&& after.phase == ChapterPhase::Pages
            &&& after.works_on(before.comic, at, before.chapters@)
            &&& after.title == before.title
            &&& action matches Action::RunPages(jobs)
            &&& jobs@.len() == before.manifest->0.images@.len()
            &&& forall|i: int|
                0 <= i < jobs@.len() ==> is_page_job(
                    #[trigger] jobs@[i],
                    before.client.image_domain@,
                    request.comic_id,
                    request.chapter_ids@[at],
                    before.scramble_id,
                    i,
                    before.manifest->0.images@[i]@,
                )
        },
        (ChapterPhase::Pages, Event::Pages(Ok(results))) if in_work => {
            &&& after.phase == ChapterPhase::Scheduling
            &&& after.comic == before.comic
            &&& after.position == before.position
            &&& after.chapters@.len() == before.chapters@.len() + 1
            &&& after.chapters@.drop_last() == before.chapters@
            &&& after.chapters@.last().chapter_id == request.chapter_ids@[at]
            &&& after.chapters@.last().chapter_title == before.title
            &&& is_ordering_of(after.chapters@.last().images@, results@)
            &&& action matches Action::Schedule { dir, plan }
            &&& dir@ == chapter_dir(request.comic_id, request.chapter_ids@[at])
            &&& plan == expiry_plan(request.expire_seconds)
        },
        (ChapterPhase::Scheduling, Event::Scheduled) if in_work && before.comic is Some =>
            chapter_begins(request, before.comic->0, at + 1, before.chapters@, after, action),
        (ChapterPhase::Comic, Event::Comic(Err(e))) => after.ends_with(
            action,
            Action::Respond(Err(e)),
        ),
        (ChapterPhase::Chapter, Event::Chapter(Err(e))) => after.ends_with(
            action,
            Action::Respond(Err(e)),
        ),
        (ChapterPhase::ScrambleId, Event::ScrambleId(Err(e))) => after.ends_with(
            action,
            Action::Respond(Err(e)),
        ),
        (ChapterPhase::Dir, Event::DirCreated(Err(e))) => after.ends_with(
            action,
            Action::Respond(Err(e)),
        ),
        (ChapterPhase::Pages, Event::Pages(Err(e))) if in_work => {
            &&& after.phase == ChapterPhase::Failing
            &&& after.failure == Some(e)
            &&& action matches Action::Schedule { dir, plan }
            &&& dir@ == chapter_dir(request.comic_id, request.chapter_ids@[at])
            &&& plan == expiry_plan(request.expire_seconds)
        },
        (ChapterPhase::Failing, Event::Scheduled) if before.failure is Some => after.ends_with(
            action,
            Action::Respond(Err(before.failure->0)),
        ),
        _ => after.phase == ChapterPhase::Done && refuses(
            action,
            ErrorKind::Internal,
            unexpected_event_text(),
        ),
    }
}

fn chapter_download_over(
    request: DownloadChapterRequest,
    client: JmClient,
    action: Action<ChapterDownloadData>,
) -> (r: (ChapterDownload, Action<ChapterDownloadData>))
    ensures
        r.0.request == request,
        r.0.client == client,
        r.0.phase == ChapterPhase::Done,
        r.1 == action,
{
    let mut state = ChapterDownload::new(request, client);
    state.phase = ChapterPhase::Done;
    (state, action)
}

fn begin_chapter(
    request: DownloadChapterRequest,
    client: JmClient,
    comic: GetComicRespData,
    position: usize,
    chapters: Vec<SingleChapterData>,
) -> (r: (ChapterDownload, Action<ChapterDownloadData>))
    ensures
        r.0.request == request,
        r.0.client == client,
        chapter_begins(request, comic, position as int, chapters@, r.0, r.1),
{
    if position >= request.chapter_ids.len() {
        let data = ChapterDownloadData {
            comic_id: request.comic_id,
            comic_title: comic.name,
            chapters,
        };
        return chapter_download_over(request, client, Action::Respond(Ok(data)));
    }
    let chapter_id = request.chapter_ids[position];
    match resolve_chapter_name(&comic, request.comic_id, chapter_id) {
        Err(e) => chapter_download_over(request, client, Action::Respond(Err(e))),
        Ok(title) => (
            ChapterDownload {
                request,
                client,
                phase: ChapterPhase::Chapter,
                comic: Some(comic),
                position,
                title,
                manifest: None,
                scramble_id: 0,
                chapters,
                failure: None,
            },
            Action::GetChapter(chapter_id),
        ),
    }
}

/// Downloads some chapters of a comic, step by step: takes the event that
/// answers the action before, and gives the next action.
pub fn download_chapter(state: ChapterDownload, event: Event) -> (r: (
    ChapterDownload,
    Action<ChapterDownloadData>,
))
    ensures
        chapter_step(state, event, r.0, r.1),
{
    let ChapterDownload {
        request,
        client,
        phase,
        comic,
        position,
        title,
        manifest,
        scramble_id,
        chapters,
        failure,
    } = state;
    let in_work = position < request.chapter_ids.len();
    match (phase, event) {
        (ChapterPhase::Ready, Event::Begin) => {
            match validate_download_chapter(&request) {
                Err(e) => chapter_download_over(request, client, Action::Respond(Err(e))),
                Ok(()) => {
                    let comic_id = request.comic_id;
                    (
                        ChapterDownload {
                            request,
                            client,
                            phase: ChapterPhase::Comic,
                            comic,
                            position,
                            title,
                            manifest,
                            scramble_id,
                            chapters,
                            failure: None,
                        },
                        Action::GetComic(comic_id),
                    )
                },
            }
        },
        (ChapterPhase::Comic, Event::Comic(Ok(found))) => begin_chapter(
            request,
            client,
            found,
            0,
            chapters,
        ),
        (ChapterPhase::Chapter, Event::Chapter(Ok(found))) => {
            if !in_work {
                return chapter_download_over(request, client, unexpected_event());
            }
            let chapter_id = request.chapter_ids[position];
            (
                ChapterDownload {
                    request,
                    client,
                    phase: ChapterPhase::ScrambleId,
                    comic,
                    position,
                    title,
                    manifest: Some(found),
                    scramble_id,
                    chapters,
                    failure: None,
                },
                Action::GetScrambleId(chapter_id),
            )
        },
        (ChapterPhase::ScrambleId, Event::ScrambleId(Ok(found))) => {
            if !in_work {
                return chapter_download_over(request, client, unexpected_event());
            }
            let dir = download_dir(request.comic_id, request.chapter_ids[position]);
            (
                ChapterDownload {
                    request,
                    client,
                    phase: ChapterPhase::Dir,
                    comic,
                    position,
                    title,
                    manifest,
                    scramble_id: found,
                    chapters,
                    failure: None,
                },
                Action::CreateDir(dir),
            )
        },
        (ChapterPhase::Dir, Event::DirCreated(Ok(()))) => {
            if !in_work {
                return chapter_download_over(request, client, unexpected_event());
            }
            let jobs = match &manifest {
                Some(pages) => page_jobs(
                    &client,
                    request.comic_id,
                    request.chapter_ids[position],
                    scramble_id,
                    pages,
                ),
                None => {
                    return chapter_download_over(request, client, unexpected_event());
                },
            };
            (
                ChapterDownload {
                    request,
                    client,
                    phase: ChapterPhase::Pages,
                    comic,
                    position,
                    title,
                    manifest,
                    scramble_id,
                    chapters,
                    failure: None,
                },
                Action::RunPages(jobs),
            )
        },
        (ChapterPhase::Pages, Event::Pages(Ok(results))) => {
            if !in_work {
                return chapter_download_over(request, client, unexpected_event());
            }
            let chapter_id = request.chapter_ids[position];
            let dir = download_dir(request.comic_id, chapter_id);
            let plan = schedule_delete_dir(request.expire_seconds);
            let ghost done = chapters@;
            let mut chapters = chapters;
            chapters.push(
                SingleChapterData {
                    chapter_id,
                    chapter_title: title,
                    images: order_images(results),
                },
            );
            assert(chapters@.drop_last() =~= done);
            (
                ChapterDownload {
                    request,
                    client,
                    phase: ChapterPhase::Scheduling,
                    comic,
                    position,
                    title: String::new(),
                    manifest: None,
                    scramble_id,
                    chapters,
                    failure: None,
                },
                Action::Schedule { dir, plan },
            )
        },
        (ChapterPhase::Scheduling, Event::Scheduled) => {
            if !in_work {
                return chapter_download_over(request, client, unexpected_event());
            }
            match comic {
                Some(known) => begin_chapter(request, client, known, position + 1, chapters),
                None => chapter_download_over(request, client, unexpected_event()),
            }
        },
        (ChapterPhase::Comic, Event::Comic(Err(e))) => chapter_download_over(
            request,
            client,
            Action::Respond(Err(e)),
        ),
        (ChapterPhase::Chapter, Event::Chapter(Err(e))) => chapter_download_over(
            request,
            client,
            Action::Respond(Err(e)),
        ),
        (ChapterPhase::ScrambleId, Event::ScrambleId(Err(e))) => chapter_download_over(
            request,
            client,
            Action::Respond(Err(e)),
        ),
        (ChapterPhase::Dir, Event::DirCreated(Err(e))) => chapter_download_over(
            request,
            client,
            Action::Respond(Err(e)),
        ),
        (ChapterPhase::Pages, Event::Pages(Err(e))) => {
            if !in_work {
                return chapter_download_over(request, client, unexpected_event());
            }
            let dir = download_dir(request.comic_id, request.chapter_ids[position]);
            let plan = schedule_delete_dir(request.expire_seconds);
            (
                ChapterDownload {
                    request,
                    client,
                    phase: ChapterPhase::Failing,
                    comic,
                    position,
                    title,
                    manifest,
                    scramble_id,
                    chapters,
                    failure: Some(e),
                },
                Action::Schedule { dir, plan },
            )
        },
        (ChapterPhase::Failing, Event::Scheduled) => {
            match failure {
                Some(e) => chapter_download_over(request, client, Action::Respond(Err(e))),
                None => chapter_download_over(request, client, unexpected_event()),
            }
        },
        _ => chapter_download_over(request, client, unexpected_event()),
    }
}

/// The name of the merged PDF in the directory of its chapter.
pub open spec fn merged_pdf_name() -> Seq<char> {
    "merged.pdf"@
}

/// The message for a comic without pages that is to be merged.
pub open spec fn nothing_to_merge_text() -> Seq<char> {
    "没有可合并的图片"@
}

/// Where the download of a whole comic stands.
#[derive(Debug, Clone, Copy, PartialEq, Eq, Structural)]
pub enum ComicPhase {
    /// Nothing was done yet.
    Ready,
    /// The comic was asked for.
    Comic,
    /// The comic's one chapter was asked for.
    Chapter,
    /// The scramble id of the chapter was asked for.
    ScrambleId,
    /// The directory of the chapter is being made.
    Dir,
    /// It is being looked whether the merged PDF is on disk.
    PdfCheck,
    /// The pages are being done.
    Pages,
    /// The pages are being merged into one PDF.
    Merging,
    /// The PDF is being compressed.
    Compressing,
    /// The removal of the directory is being scheduled.
    Scheduling,
    /// The pages, the merging or the compressing have failed, and the
    /// removal of the directory is being scheduled before the error is
    /// answered.
    Failing,
    /// The request was answered.
    Done,
}

/// The download of a whole comic, which must be a single volume.
#[derive(Debug)]
pub struct ComicDownload {
    pub request: DownloadComicRequest,
    pub client: JmClient,
    pub phase: ComicPhase,
    /// The comic's title, from when it is known.
    pub title: String,
    /// The pages of the comic, from when they are known.
    pub manifest: Option<GetChapterRespData>,
    /// The scramble id, from when it is known.
    pub scramble_id: i64,
    /// The paths of the pages in the order of the pages, from when the
    /// pages are done.
    pub images: Vec<String>,
    /// The error of the pages, of the merging or of the compressing, from
    /// when one of them has failed until it is answered.
    pub failure: Option<AppError>,
}

impl ComicDownload {
    /// The download that `request` asks for, before its beginning.
    pub fn new(request: DownloadComicRequest, client: JmClient) -> (r: Self)
        ensures
            r.request == request,
            r.client == client,
            r.phase == ComicPhase::Ready,
            r.title@.len() == 0,
            r.manifest is None,
            r.scramble_id == 0,
            r.images@.len() == 0,
            r.failure is None,
    {
        ComicDownload {
            request,
            client,
            phase: ComicPhase::Ready,
            title: String::new(),
            manifest: None,
            scramble_id: 0,
            images: Vec::new(),
            failure: None,
        }
    }

    /// The download is over, and `action` is its last.
    pub open spec fn ends_with(
        self,
        action: Action<ComicDownloadData>,
        want: Action<ComicDownloadData>,
    ) -> bool {
        self.phase == ComicPhase::Done && action == want
    }

    /// Nothing of what is known of the comic has changed since `before`.
    pub open spec fn knows_what(self, before: ComicDownload) -> bool {
        &&& self.title == before.title
        &&& self.manifest == before.manifest
        &&& self.scramble_id == before.scramble_id
        &&& self.images == before.images
    }
}

/// `action` asks for the pages of the comic that `state` knows.
pub open spec fn runs_comic_pages(state: ComicDownload, action: Action<ComicDownloadData>) -> bool {
    &&& state.manifest is Some
    &&& action matches Action::RunPages(jobs)
    &&& jobs@.len() == state.manifest->0.images@.len()
    &&& forall|i: int|
        0 <= i < jobs@.len() ==> is_page_job(
            #[trigger] jobs@[i],
            state.client.image_domain@,
            state.request.comic_id,
            state.request.comic_id,
            state.scramble_id,
            i,
            state.manifest->0.images@[i]@,
        )
}

/// The download has failed with the error `e` after its directory was
/// made: the error is kept, and `action` schedules the removal of the
/// directory as the request asks.
pub open spec fn comic_fails(
    request: DownloadComicRequest,
    e: AppError,
    after: ComicDownload,
    action: Action<ComicDownloadData>,
) -> bool {
    &&& after.phase == ComicPhase::Failing
    &&& after.failure == Some(e)
    &&& schedules_comic(request, action)
}

/// `action` schedules the removal of the comic's directory as the request
/// asks.
pub open spec fn schedules_comic(request: DownloadComicRequest, action: Action<ComicDownloadData>) -> bool {
    &&& action matches Action::Schedule { dir, plan }
    &&& dir@ == chapter_dir(request.comic_id, request.comic_id)
    &&& plan == expiry_plan(request.expire_seconds)
}

/// One step of the download of a whole comic leads from `before` to
/// `after` and asks for `action`. A request that is refused is answered at
/// once. The comic is asked for then, and refused where it has chapters.
/// Its one chapter has the comic's id: its pages and its scramble id are
/// asked for and its directory is made. Where the pages are to be merged
/// and the merged PDF is on disk already, nothing more is fetched. Else
/// the pages are done, and where they are to be merged they are merged in
/// the order of the pages and the PDF is compressed, with the password of
/// the request where it has one. The removal of the directory is scheduled
/// last, and the request is answered with the PDF alone or with the pages
/// alone. The first error ends the download. Where it comes after the
/// directory was made, from the pages, the merging or the compressing,
/// what was written stays on disk, and the removal of the directory is
/// scheduled as the request asks before the error is answered.
pub open spec fn comic_step(
    before: ComicDownload,
    event: Event,
    after: ComicDownload,
    action: Action<ComicDownloadData>,
) -> bool {
    let request = before.request;
    let id = request.comic_id;
    &&& after.request == before.request
    &&& after.client == before.client
    &&& match (before.phase, event) {
        (ComicPhase::Ready, Event::Begin) => if request.expire_seconds < -1 {
            after.phase == ComicPhase::Done && refuses(
                action,
                ErrorKind::BadRequest,
                "过期时间必须为-1或非负数"@,
            )
        } else {
            &&& after.phase == ComicPhase::Comic
            &&& action == Action::<ComicDownloadData>::GetComic(id)
        },
        (ComicPhase::Comic, Event::Comic(Ok(comic))) => if comic.series@.len() != 0 {
            after.phase == ComicPhase::Done && refuses(
                action,
                ErrorKind::BadRequest,
                "该漫画为章节漫画，请使用 /api/comic/downloadChapter 接口并指定章节ID"@,
            )
        } else {
            &&& after.phase == ComicPhase::Chapter
            &&& after.title == comic.name
            &&& action == Action::<ComicDownloadData>::GetChapter(id)
        },
        (ComicPhase::Chapter, Event::Chapter(Ok(manifest))) => {
            &&& after.phase == ComicPhase::ScrambleId
            &&& after.title == before.title
            &&& after.manifest == Some(manifest)
            &&& action == Action::<ComicDownloadData>::GetScrambleId(id)
        },
        (ComicPhase::ScrambleId, Event::ScrambleId(Ok(scramble_id))) => {
            &&& after.phase == ComicPhase::Dir
            &&& after.title == before.title
            &&& after.manifest == before.manifest
            &&& after.scramble_id == scramble_id
            &&& action matches Action::CreateDir(dir)
            &&& dir@ == chapter_dir(id, id)
        },
        (ComicPhase::Dir, Event::DirCreated(Ok(()))) if before.manifest is Some => if request.merge {
            &&& after.phase == ComicPhase::PdfCheck
            &&& after.knows_what(before)
            &&& action matches Action::CheckPdf(path)
            &&& path@ == target_path(id, id, merged_pdf_name())
        } else {
            &&& after.phase == ComicPhase::Pages
            &&& after.knows_what(before)
            &&& runs_comic_pages(before, action)
        },
        (ComicPhase::PdfCheck, Event::PdfChecked(on_disk)) if before.manifest is Some => if on_disk {
            &&& after.phase == ComicPhase::Scheduling
            &&& after.knows_what(before)
            &&& schedules_comic(request, action)
        } else {
            &&& after.phase == ComicPhase::Pages
            &&& after.knows_what(before)
            &&& runs_comic_pages(before, action)
        },
        (ComicPhase::Pages, Event::Pages(Ok(results))) if before.manifest is Some => if !request.merge {
            &&& after.phase == ComicPhase::Scheduling
            &&& after.title == before.title
            &&& is_ordering_of(after.images@, results@)
            &&& schedules_comic(request, action)
        } else if before.manifest->0.images@.len() == 0 {
            &&& after.phase == ComicPhase::Failing
            &&& after.failure matches Some(e)
            &&& e@ == (ErrorKind::Internal, nothing_to_merge_text())
            &&& schedules_comic(request, action)
        } else {
            &&& after.phase == ComicPhase::Merging
            &&& after.title == before.title
            &&& is_ordering_of(after.images@, results@)
            &&& action matches Action::MergePdf { images, output }
            &&& are_page_files(images@, id, id, before.manifest->0.images@.len() as int)
            &&& output@ == target_path(id, id, merged_pdf_name())
        },
        (ComicPhase::Merging, Event::Merged(Ok(()))) => {
            &&& after.phase == ComicPhase::Compressing
            &&& after.knows_what(before)
            &&& action matches Action::CompressPdf { path, password }
            &&& path@ == target_path(id, id, merged_pdf_name())
            &&& text_of(password) == (match request.encrypt {
                Some(p) if !is_blank(p@) => Some(trimmed(p@)),
                _ => None,
            })
        },
        (ComicPhase::Compressing, Event::Compressed(Ok(()))) => {
            &&& after.phase == ComicPhase::Scheduling
            &&& after.knows_what(before)
            &&& schedules_comic(request, action)
        },
        (ComicPhase::Scheduling, Event::Scheduled) => {
            &&& after.phase == ComicPhase::Done
            &&& action matches Action::Respond(Ok(data))
            &&& data.comic_id == id
            &&& data.comic_title == before.title
            &&& if request.merge {
                data.images is None && text_of(data.pdf_path) == Some(
                    relative_path(id, id, merged_pdf_name()),
                )
            } else {
                data.images == Some(before.images) && data.pdf_path is None
            }
        },
        (ComicPhase::Comic, Event::Comic(Err(e))) => after.ends_with(action, Action::Respond(Err(e))),
        (ComicPhase::Chapter, Event::Chapter(Err(e))) => after.ends_with(
            action,
            Action::Respond(Err(e)),
        ),
        (ComicPhase::ScrambleId, Event::ScrambleId(Err(e))) => after.ends_with(
            action,
            Action::Respond(Err(e)),
        ),
        (ComicPhase::Dir, Event::DirCreated(Err(e))) => after.ends_with(
            action,
            Action::Respond(Err(e)),
        ),
        (ComicPhase::Pages, Event::Pages(Err(e))) => comic_fails(request, e, after, action),
        (ComicPhase::Merging, Event::Merged(Err(e))) => comic_fails(request, e, after, action),
        (ComicPhase::Compressing, Event::Compressed(Err(e))) => comic_fails(
            request,
            e,
            after,
            action,
        ),
        (ComicPhase::Failing, Event::Scheduled) if before.failure is Some => after.ends_with(
            action,
            Action::Respond(Err(before.failure->0)),
        ),
        _ => after.phase == ComicPhase::Done && refuses(
            action,
            ErrorKind::Internal,
            unexpected_event_text(),
        ),
    }
}

fn comic_download_over(
    request: DownloadComicRequest,
    client: JmClient,
    action: Action<ComicDownloadData>,
) -> (r: (ComicDownload, Action<ComicDownloadData>))
    ensures
        r.0.request == request,
        r.0.client == client,
        r.0.phase == ComicPhase::Done,
        r.1 == action,
{
    let mut state = ComicDownload::new(request, client);
    state.phase = ComicPhase::Done;
    (state, action)
}

fn comic_pages(state: &ComicDownload, pages: &GetChapterRespData) -> (action: Action<
    ComicDownloadData,
>)
    requires
        state.manifest == Some(*pages),
    ensures
        runs_comic_pages(*state, action),
{
    Action::RunPages(
        page_jobs(
            &state.client,
            state.request.comic_id,
            state.request.comic_id,
            state.scramble_id,
            pages,
        ),
    )
}

fn comic_failed(state: ComicDownload, e: AppError) -> (r: (
    ComicDownload,
    Action<ComicDownloadData>,
))
    ensures
        r.0.request == state.request,
        r.0.client == state.client,
        comic_fails(state.request, e, r.0, r.1),
{
    let mut state = state;
    let action = comic_schedule(&state.request);
    state.phase = ComicPhase::Failing;
    state.failure = Some(e);
    (state, action)
}

fn comic_schedule(request: &DownloadComicRequest) -> (action: Action<ComicDownloadData>)
    ensures
        schedules_comic(*request, action),
{
    Action::Schedule {
        dir: download_dir(request.comic_id, request.comic_id),
        plan: schedule_delete_dir(request.expire_seconds),
    }
}

/// Downloads a whole comic, step by step: takes the event that answers the
/// action before, and gives the next action.
pub fn download_comic(state: ComicDownload, event: Event) -> (r: (
    ComicDownload,
    Action<ComicDownloadData>,
))
    ensures
        comic_step(state, event, r.0, r.1),
{
    let mut state = state;
    let id = state.request.comic_id;
    match (state.phase, event) {
        (ComicPhase::Ready, Event::Begin) => {
            match validate_download_comic(&state.request) {
                Err(e) => comic_download_over(state.request, state.client, Action::Respond(Err(e))),
                Ok(()) => {
                    state.phase = ComicPhase::Comic;
                    (state, Action::GetComic(id))
                },
            }
        },
        (ComicPhase::Comic, Event::Comic(Ok(comic))) => {
            match require_single_volume(&comic) {
                Err(e) => comic_download_over(state.request, state.client, Action::Respond(Err(e))),
                Ok(()) => {
                    state.phase = ComicPhase::Chapter;
                    state.title = comic.name;
                    (state, Action::GetChapter(id))
                },
            }
        },
        (ComicPhase::Chapter, Event::Chapter(Ok(manifest))) => {
            state.phase = ComicPhase::ScrambleId;
            state.manifest = Some(manifest);
            (state, Action::GetScrambleId(id))
        },
        (ComicPhase::ScrambleId, Event::ScrambleId(Ok(scramble_id))) => {
            state.phase = ComicPhase::Dir;
            state.scramble_id = scramble_id;
            (state, Action::CreateDir(download_dir(id, id)))
        },
        (ComicPhase::Dir, Event::DirCreated(Ok(()))) => {
            if state.manifest.is_none() {
                return comic_download_over(state.request, state.client, unexpected_event());
            }
            if state.request.merge {
                state.phase = ComicPhase::PdfCheck;
                (state, Action::CheckPdf(target_file_path(id, id, "merged.pdf")))
            } else {
                let action = match &state.manifest {
                    Some(pages) => comic_pages(&state, pages),
                    None => unexpected_event(),
                };
                state.phase = ComicPhase::Pages;
                (state, action)
            }
        },
        (ComicPhase::PdfCheck, Event::PdfChecked(on_disk)) => {
            if state.manifest.is_none() {
                return comic_download_over(state.request, state.client, unexpected_event());
            }
            if on_disk {
                let action = comic_schedule(&state.request);
                state.phase = ComicPhase::Scheduling;
                (state, action)
            } else {
                let action = match &state.manifest {
                    Some(pages) => comic_pages(&state, pages),
                    None => unexpected_event(),
                };
                state.phase = ComicPhase::Pages;
                (state, action)
            }
        },
        (ComicPhase::Pages, Event::Pages(Ok(results))) => {
            let count = match &state.manifest {
                Some(pages) => pages.images.len(),
                None => {
                    return comic_download_over(state.request, state.client, unexpected_event());
                },
            };
            if !state.request.merge {
                let action = comic_schedule(&state.request);
                state.phase = ComicPhase::Scheduling;
                state.images = order_images(results);
                (state, action)
            } else if count == 0 {
                comic_failed(state, AppError::Internal(String::from_str("没有可合并的图片")))
            } else {
                state.phase = ComicPhase::Merging;
                state.images = order_images(results);
                (
                    state,
                    Action::MergePdf {
                        images: page_files(id, id, count),
                        output: target_file_path(id, id, "merged.pdf"),
                    },
                )
            }
        },
        (ComicPhase::Merging, Event::Merged(Ok(()))) => {
            let password = pdf_password(&state.request);
            state.phase = ComicPhase::Compressing;
            (state, Action::CompressPdf { path: target_file_path(id, id, "merged.pdf"), password })
        },
        (ComicPhase::Compressing, Event::Compressed(Ok(()))) => {
            let action = comic_schedule(&state.request);
            state.phase = ComicPhase::Scheduling;
            (state, action)
        },
        (ComicPhase::Scheduling, Event::Scheduled) => {
            let ComicDownload {
                request,
                client,
                phase,
                title,
                manifest,
                scramble_id,
                images,
                failure,
            } = state;
            let data = comic_download_data(id, title, request.merge, images);
            comic_download_over(request, client, Action::Respond(Ok(data)))
        },
        (ComicPhase::Comic, Event::Comic(Err(e))) => comic_download_over(
            state.request,
            state.client,
            Action::Respond(Err(e)),
        ),
        (ComicPhase::Chapter, Event::Chapter(Err(e))) => comic_download_over(
            state.request,
            state.client,
            Action::Respond(Err(e)),
        ),
        (ComicPhase::ScrambleId, Event::ScrambleId(Err(e))) => comic_download_over(
            state.request,
            state.client,
            Action::Respond(Err(e)),
        ),
        (ComicPhase::Dir, Event::DirCreated(Err(e))) => comic_download_over(
            state.request,
            state.client,
            Action::Respond(Err(e)),
        ),
        (ComicPhase::Pages, Event::Pages(Err(e))) => comic_failed(state, e),
        (ComicPhase::Merging, Event::Merged(Err(e))) => comic_failed(state, e),
        (ComicPhase::Compressing, Event::Compressed(Err(e))) => comic_failed(state, e),
        (ComicPhase::Failing, Event::Scheduled) => {
            match state.failure {
                Some(e) => comic_download_over(state.request, state.client, Action::Respond(Err(e))),
                None => comic_download_over(state.request, state.client, unexpected_event()),
            }
        },
        _ => comic_download_over(state.request, state.client, unexpected_event()),
    }
}

} // verus!
