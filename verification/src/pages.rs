//! The pages of a chapter: where each comes from and where it goes, the
//! steps of the download of one page, and the order of what comes back.

use vstd::prelude::*;
use vstd::string::StringExecFns;

use crate::image_processor::chapter_dir;
use crate::image_processor::check_image_status;
use crate::image_processor::download_dir;
use crate::image_processor::has_gif_signature;
use crate::image_processor::image_status_text;
use crate::image_processor::is_gif_signature;
use crate::image_processor::max_body_retries;
use crate::image_processor::next_backoff;
use crate::image_processor::process_image;
use crate::image_processor::process_outcome;
use crate::image_processor::BodyRetry;
use crate::image_processor::BodyRetryStep;
use crate::jm_client::block_num;
use crate::jm_client::calculate_block_num;
use crate::jm_client::image_address;
use crate::jm_client::JmClient;
use crate::models::GetChapterRespData;
use crate::text::decimal;
use crate::text::four_digits;
use crate::text::has_prefix;
use crate::text::i64_to_string;
use crate::text::join2;
use crate::text::join3;
use crate::text::join4;
use crate::text::text_of;
use crate::text::zero_padded;
use crate::AppError;
use crate::ErrorKind;

verus! {

/// The name of the file of the page at `index`, counted from 0: the
/// page's number from 1 in four digits or more, and `.png`.
pub open spec fn page_file_name(index: nat) -> Seq<char> {
    zero_padded(index + 1, 4) + ".png"@
}

/// The path of a file of a chapter below the download directory, as it is
/// handed to the caller.
pub open spec fn relative_path(comic_id: i64, chapter_id: i64, file: Seq<char>) -> Seq<char> {
    "download/"@ + decimal(comic_id as int) + "/"@ + decimal(chapter_id as int) + "/"@ + file
}

/// The path of a file of a chapter on disk.
pub open spec fn target_path(comic_id: i64, chapter_id: i64, file: Seq<char>) -> Seq<char> {
    chapter_dir(comic_id, chapter_id) + "/"@ + file
}

/// The download of one page: which page of which chapter, where it comes
/// from, into how many bands it was cut, and where it goes.
#[derive(Debug, Clone, PartialEq, Eq)]
pub struct PageJob {
    pub chapter_id: i64,
    /// The page's position in the chapter, from 0.
    pub index: usize,
    pub filename: String,
    pub url: String,
    pub block_num: u32,
    /// Where the page goes on disk.
    pub target_path: String,
    /// The same place as it is handed to the caller.
    pub relative_path: String,
}

/// `job` is the download of the page `filename` at `index` of the chapter.
pub open spec fn is_page_job(
    job: PageJob,
    image_domain: Seq<char>,
    comic_id: i64,
    chapter_id: i64,
    scramble_id: i64,
    index: int,
    filename: Seq<char>,
) -> bool {
    &&& job.chapter_id == chapter_id
    &&& job.index == index
    &&& job.filename@ == filename
    &&& job.url@ == image_address(image_domain, chapter_id, filename)
    &&& job.block_num == block_num(scramble_id, chapter_id, filename)
    &&& job.target_path@ == target_path(comic_id, chapter_id, page_file_name(index as nat))
    &&& job.relative_path@ == relative_path(comic_id, chapter_id, page_file_name(index as nat))
}

/// The path of a file of a chapter below the download directory.
pub fn relative_file_path(comic_id: i64, chapter_id: i64, file: &str) -> (r: String)
    ensures
        r@ == relative_path(comic_id, chapter_id, file@),
{
    let mut r = join4(
        "download/",
        i64_to_string(comic_id).as_str(),
        "/",
        i64_to_string(chapter_id).as_str(),
    );
    r.append("/");
    r.append(file);
    r
}

/// The path of a file of a chapter on disk.
pub fn target_file_path(comic_id: i64, chapter_id: i64, file: &str) -> (r: String)
    ensures
        r@ == target_path(comic_id, chapter_id, file@),
{
    join3(download_dir(comic_id, chapter_id).as_str(), "/", file)
}

/// The downloads of the pages of a chapter, one for each file of its
/// manifest and in the manifest's order.
pub fn page_jobs(
    client: &JmClient,
    comic_id: i64,
    chapter_id: i64,
    scramble_id: i64,
    chapter: &GetChapterRespData,
) -> (jobs: Vec<PageJob>)
    ensures
        jobs@.len() == chapter.images@.len(),
        forall|i: int|
            0 <= i < jobs@.len() ==> is_page_job(
                #[trigger] jobs@[i],
                client.image_domain@,
                comic_id,
                chapter_id,
                scramble_id,
                i,
                chapter.images@[i]@,
            ),
{
    let n = chapter.images.len();
    let mut jobs: Vec<PageJob> = Vec::new();
    let mut i: usize = 0;
    while i < n
        invariant
            n == chapter.images@.len(),
            i <= n,
            jobs@.len() == i,
            forall|k: int|
                0 <= k < i ==> is_page_job(
                    #[trigger] jobs@[k],
                    client.image_domain@,
                    comic_id,
                    chapter_id,
                    scramble_id,
                    k,
                    chapter.images@[k]@,
                ),
        decreases n - i,
    {
        let filename = chapter.images[i].clone();
        let file = join2(four_digits((i + 1) as u64).as_str(), ".png");
        let job = PageJob {
            chapter_id,
            index: i,
            url: client.image_url(chapter_id, filename.as_str()),
            block_num: calculate_block_num(scramble_id, chapter_id, filename.as_str()),
            target_path: target_file_path(comic_id, chapter_id, file.as_str()),
            relative_path: relative_file_path(comic_id, chapter_id, file.as_str()),
            filename,
        };
        jobs.push(job);
        i += 1;
    }
    jobs
}

/// What to do for one page.
#[derive(Debug, Clone, Copy, PartialEq, Eq, Structural)]
pub enum PageStep {
    /// The file is there: the page is done, with no request and no work.
    Reuse,
    /// The page is to be fetched, descrambled and written.
    Fetch,
}

/// Decides what to do for a page, given whether its file is on disk.
pub fn page_step(target_exists: bool) -> (r: PageStep)
    ensures
        r == (if target_exists {
            PageStep::Reuse
        } else {
            PageStep::Fetch
        }),
{
    if target_exists {
        PageStep::Reuse
    } else {
        PageStep::Fetch
    }
}

/// The pairs stand in the order of their page index, ascending.
pub open spec fn sorted_by_index(pairs: Seq<(usize, String)>) -> bool {
    forall|i: int, j: int| 0 <= i < j < pairs.len() ==> pairs[i].0 <= pairs[j].0
}

proof fn lemma_empty_multiset<A>(s: Seq<A>)
    requires
        s.len() == 0,
    ensures
        s.to_multiset() =~= vstd::multiset::Multiset::<A>::empty(),
{
    vstd::seq_lib::to_multiset_len(s);
    vstd::multiset::lemma_multiset_empty_len(s.to_multiset());
}

/// Puts the pairs of page index and path in the order of the index,
/// whatever the order in which the pages were done.
pub fn sort_by_index(results: Vec<(usize, String)>) -> (sorted: Vec<(usize, String)>)
    ensures
        sorted_by_index(sorted@),
        sorted@.to_multiset() == results@.to_multiset(),
{
    broadcast use vstd::multiset::group_multiset_axioms;

    let mut rest = results;
    let mut sorted: Vec<(usize, String)> = Vec::new();
    proof {
        lemma_empty_multiset(sorted@);
        assert(sorted@.to_multiset().add(rest@.to_multiset()) =~= rest@.to_multiset());
    }
    while rest.len() > 0
        invariant
            sorted_by_index(sorted@),
            sorted@.to_multiset().add(rest@.to_multiset()) == results@.to_multiset(),
        decreases rest@.len(),
    {
        let ghost rest_before = rest@;
        let ghost sorted_before = sorted@;
        let item = rest.pop().unwrap();
        let n = sorted.len();
        let mut p: usize = 0;
        while p < n && sorted[p].0 < item.0
            invariant
                n == sorted@.len(),
                p <= n,
                forall|k: int| 0 <= k < p ==> sorted@[k].0 < item.0,
            decreases n - p,
        {
            p += 1;
        }
        sorted.insert(p, item);
        proof {
            assert(rest_before =~= rest@.push(item));
            vstd::seq_lib::to_multiset_build(rest@, item);
            vstd::seq_lib::to_multiset_insert(sorted_before, p as int, item);
            assert(sorted@.to_multiset().add(rest@.to_multiset()) =~= sorted_before.to_multiset().add(
                rest_before.to_multiset(),
            ));
            assert forall|i: int, j: int| 0 <= i < j < sorted@.len() implies sorted@[i].0
                <= sorted@[j].0 by {
                if i < p && j > p {
                    assert(sorted@[i] == sorted_before[i]);
                    assert(sorted@[j] == sorted_before[j - 1]);
                } else if i < p && j == p {
                } else if i == p {
                    assert(sorted@[j] == sorted_before[j - 1]);
                    assert(sorted_before[p as int].0 >= item.0);
                } else if j < p {
                } else {
                    assert(sorted@[i] == sorted_before[i - 1]);
                    assert(sorted@[j] == sorted_before[j - 1]);
                }
            }
        }
    }
    proof {
        lemma_empty_multiset(rest@);
        assert(sorted@.to_multiset().add(rest@.to_multiset()) =~= sorted@.to_multiset());
    }
    sorted
}

/// `images` are the paths of `results` in the order of the page index: the
/// paths of some arrangement of the pairs that is in that order.
pub open spec fn is_ordering_of(images: Seq<String>, results: Seq<(usize, String)>) -> bool {
    exists|sorted: Seq<(usize, String)>|
        {
            &&& #[trigger] sorted_by_index(sorted)
            &&& sorted.to_multiset() == results.to_multiset()
            &&& images.len() == sorted.len()
            &&& forall|i: int| 0 <= i < images.len() ==> images[i] == sorted[i].1
        }
}

/// The paths of the pages in the order of the pages, whatever the order in
/// which the pages were done.
pub fn order_images(results: Vec<(usize, String)>) -> (images: Vec<String>)
    ensures
        is_ordering_of(images@, results@),
{
    let sorted = sort_by_index(results);
    let n = sorted.len();
    let mut images: Vec<String> = Vec::new();
    let mut i: usize = 0;
    while i < n
        invariant
            n == sorted@.len(),
            i <= n,
            images@.len() == i,
            forall|k: int| 0 <= k < i ==> images@[k] == sorted@[k].1,
        decreases n - i,
    {
        images.push(sorted[i].1.clone());
        i += 1;
    }
    proof {
        assert(sorted_by_index(sorted@));
    }
    images
}

proof fn lemma_increasing_from_below(idx: Seq<int>, i: int)
    requires
        forall|a: int, b: int| 0 <= a < b < idx.len() ==> idx[a] < idx[b],
        forall|a: int| 0 <= a < idx.len() ==> 0 <= #[trigger] idx[a],
        0 <= i < idx.len(),
    ensures
        idx[i] >= i,
    decreases i,
{
    if i > 0 {
        lemma_increasing_from_below(idx, i - 1);
    }
}

proof fn lemma_increasing_from_above(idx: Seq<int>, i: int)
    requires
        forall|a: int, b: int| 0 <= a < b < idx.len() ==> idx[a] < idx[b],
        forall|a: int| 0 <= a < idx.len() ==> #[trigger] idx[a] < idx.len(),
        0 <= i < idx.len(),
    ensures
        idx[i] <= i,
    decreases idx.len() - i,
{
    if i < idx.len() - 1 {
        lemma_increasing_from_above(idx, i + 1);
    }
}

/// What comes back for a chapter follows its manifest. Where every page
/// of the chapter was done once and gave back the index and the path of its
/// job, in whatever order, the ordered paths are as many as the manifest
/// has files, and the path at each place is that of the page of that
/// place: `0001.png`, `0002.png` and so on, below the chapter's directory.
pub proof fn lemma_images_follow_manifest(
    jobs: Seq<PageJob>,
    results: Seq<(usize, String)>,
    images: Seq<String>,
    comic_id: i64,
    chapter_id: i64,
)
    requires
        forall|i: int|
            0 <= i < jobs.len() ==> (#[trigger] jobs[i]).index == i && jobs[i].relative_path@
                == relative_path(comic_id, chapter_id, page_file_name(i as nat)),
        results.len() == jobs.len(),
        forall|k: int|
            0 <= k < results.len() ==> (#[trigger] results[k]).0 < jobs.len() && results[k].1@
                == jobs[results[k].0 as int].relative_path@,
        forall|k: int, m: int|
            0 <= k < m < results.len() ==> (#[trigger] results[k]).0 != (#[trigger] results[m]).0,
        is_ordering_of(images, results),
    ensures
        images.len() == jobs.len(),
        forall|i: int|
            0 <= i < images.len() ==> (#[trigger] images[i])@ == relative_path(
                comic_id,
                chapter_id,
                page_file_name(i as nat),
            ),
{
    broadcast use vstd::multiset::group_multiset_axioms;

    let sorted = choose|sorted: Seq<(usize, String)>|
        {
            &&& #[trigger] sorted_by_index(sorted)
            &&& sorted.to_multiset() == results.to_multiset()
            &&& images.len() == sorted.len()
            &&& forall|i: int| 0 <= i < images.len() ==> images[i] == sorted[i].1
        };
    vstd::seq_lib::to_multiset_len(sorted);
    vstd::seq_lib::to_multiset_len(results);
    assert(results.no_duplicates()) by {
        assert forall|k: int, m: int|
            0 <= k < results.len() && 0 <= m < results.len() && k != m implies results[k]
            != results[m] by {
            if k < m {
                assert(results[k].0 != results[m].0);
            } else {
                assert(results[m].0 != results[k].0);
            }
        }
    }
    results.lemma_multiset_has_no_duplicates();
    sorted.lemma_multiset_has_no_duplicates_conv();
    // Every pair of the ordered arrangement is one of the results.
    assert forall|i: int| 0 <= i < sorted.len() implies results.contains(#[trigger] sorted[i]) by {
        assert(sorted.contains(sorted[i]));
        vstd::seq_lib::to_multiset_contains(sorted, sorted[i]);
        vstd::seq_lib::to_multiset_contains(results, sorted[i]);
    }
    let idx = Seq::new(sorted.len(), |i: int| sorted[i].0 as int);
    assert forall|a: int, b: int| 0 <= a < b < idx.len() implies idx[a] < idx[b] by {
        assert(sorted[a].0 <= sorted[b].0);
        if sorted[a].0 == sorted[b].0 {
            assert(results.contains(sorted[a]));
            assert(results.contains(sorted[b]));
            let k = choose|k: int| 0 <= k < results.len() && results[k] == sorted[a];
            let m = choose|m: int| 0 <= m < results.len() && results[m] == sorted[b];
            if k < m {
                assert(results[k].0 != results[m].0);
            } else if m < k {
                assert(results[m].0 != results[k].0);
            }
            assert(sorted[a] == sorted[b]);
        }
    }
    assert forall|a: int| 0 <= a < idx.len() implies 0 <= #[trigger] idx[a] < idx.len() by {
        assert(results.contains(sorted[a]));
        let k = choose|k: int| 0 <= k < results.len() && results[k] == sorted[a];
        assert(results[k].0 < jobs.len());
    }
    assert forall|i: int| 0 <= i < images.len() implies (#[trigger] images[i])@ == relative_path(
        comic_id,
        chapter_id,
        page_file_name(i as nat),
    ) by {
        lemma_increasing_from_below(idx, i);
        lemma_increasing_from_above(idx, i);
        assert(idx[i] == i);
        assert(results.contains(sorted[i]));
        let k = choose|k: int| 0 <= k < results.len() && results[k] == sorted[i];
        assert(results[k].1@ == jobs[results[k].0 as int].relative_path@);
        assert(images[i] == sorted[i].1);
    }
}

/// The message for an event that does not answer the action before it.
pub open spec fn unexpected_event_text() -> Seq<char> {
    "操作收到了意外的事件"@
}

/// `files` are the files on disk of the first `count` pages of the
/// chapter, in the order of the pages.
pub open spec fn are_page_files(files: Seq<String>, comic_id: i64, chapter_id: i64, count: int) -> bool {
    &&& files.len() == count
    &&& forall|i: int|
        0 <= i < count ==> (#[trigger] files[i])@ == target_path(
            comic_id,
            chapter_id,
            page_file_name(i as nat),
        )
}

/// The files on disk of the first `count` pages of a chapter, in the
/// order of the pages.
pub fn page_files(comic_id: i64, chapter_id: i64, count: usize) -> (files: Vec<String>)
    ensures
        are_page_files(files@, comic_id, chapter_id, count as int),
{
    let mut files: Vec<String> = Vec::new();
    let mut i: usize = 0;
    while i < count
        invariant
            i <= count,
            are_page_files(files@, comic_id, chapter_id, i as int),
        decreases count - i,
    {
        let file = join2(four_digits((i + 1) as u64).as_str(), ".png");
        files.push(target_file_path(comic_id, chapter_id, file.as_str()));
        i += 1;
    }
    files
}

/// What the world outside reports back to the download of one page.
#[derive(Debug)]
pub enum PageEvent {
    /// The download begins.
    Begin,
    /// Whether the page's file is on disk.
    TargetChecked(bool),
    /// The request could not be sent, for the reason described.
    SendFailed(String),
    /// The answer came with this status and, where one is known, with the
    /// reason that goes with the status.
    Status(u16, Option<String>),
    /// How the reading of the body ended: its bytes, or the description
    /// of why it could not be read.
    Body(Result<Vec<u8>, String>),
    /// The wait is over.
    Slept,
    /// How the writing of the file ended: well, or for the reason
    /// described.
    Written(Result<(), String>),
}

/// What the download of one page asks the world outside to do next.
#[derive(Debug)]
pub enum PageAction {
    /// Tell whether the file is on disk.
    CheckTarget(String),
    /// Send the request for the address and report the status.
    Fetch(String),
    /// Read the body of the answer.
    ReadBody,
    /// Wait so many milliseconds.
    Sleep(u64),
    /// Write the bytes to the file.
    Write { path: String, file: Vec<u8> },
    /// The download is over: with the page's index and path, or with an
    /// error.
    Finish(Result<(usize, String), AppError>),
}

/// Where the download of one page stands.
#[derive(Debug, Clone, Copy, PartialEq, Eq, Structural)]
pub enum PagePhase {
    /// Nothing was done yet.
    Ready,
    /// It is being looked whether the file is on disk.
    Checking,
    /// The request was sent.
    Fetching,
    /// The body is being read.
    Reading,
    /// The download waits before it asks again.
    Waiting,
    /// The file is being written.
    Writing,
    /// The download is over.
    Done,
}

/// The download of one page.
#[derive(Debug)]
pub struct PageTask {
    pub job: PageJob,
    pub phase: PagePhase,
    /// How often the body was read again, and the next wait.
    pub retry: BodyRetry,
    /// Whether what is being written is a GIF passed through.
    pub passthrough: bool,
}

impl PageTask {
    /// The download of the page of `job`, before its beginning.
    pub fn new(job: PageJob) -> (r: Self)
        ensures
            r.job == job,
            r.phase == PagePhase::Ready,
            r.retry.retries == 0,
            r.retry.backoff_ms == 200,
            !r.passthrough,
    {
        PageTask { job, phase: PagePhase::Ready, retry: BodyRetry::new(), passthrough: false }
    }
}

/// `action` ends the download with the page's index and path.
pub open spec fn page_done(job: PageJob, action: PageAction) -> bool {
    action matches PageAction::Finish(Ok(pair)) && pair.0 == job.index && pair.1@
        == job.relative_path@
}

/// `action` ends the download with an `Internal` error of this message.
pub open spec fn page_failed(action: PageAction, text: Seq<char>) -> bool {
    action matches PageAction::Finish(Err(e)) && e@ == (ErrorKind::Internal, text)
}

/// The message for a file that could not be written.
pub open spec fn write_failure_text(passthrough: bool, path: Seq<char>, detail: Seq<char>) -> Seq<
    char,
> {
    (if passthrough {
        "保存GIF图片到 "@
    } else {
        "保存图片到 "@
    }) + path + " 失败: "@ + detail
}

/// One step of the download of a page leads from `before` to `after` and
/// asks for `action`. A page whose file is on disk is done, with no
/// request and no work. Else the page is asked for. A request that cannot
/// be sent and an answer whose status is not one of success end the
/// download. A body that cannot be read is asked for again after a wait,
/// up to three times. A body that was read is processed and written: a GIF
/// as it is, every other image descrambled and as PNG. The first error
/// ends the download.
pub open spec fn page_task_step(
    before: PageTask,
    event: PageEvent,
    after: PageTask,
    action: PageAction,
) -> bool {
    let job = before.job;
    &&& after.job == before.job
    &&& match (before.phase, event) {
        (PagePhase::Ready, PageEvent::Begin) => {
            &&& after.phase == PagePhase::Checking
            &&& after.retry == before.retry
            &&& action matches PageAction::CheckTarget(path)
            &&& path@ == job.target_path@
        },
        (PagePhase::Checking, PageEvent::TargetChecked(on_disk)) => if on_disk {
            after.phase == PagePhase::Done && page_done(job, action)
        } else {
            &&& after.phase == PagePhase::Fetching
            &&& after.retry == before.retry
            &&& action matches PageAction::Fetch(url)
            &&& url@ == job.url@
        },
        (PagePhase::Fetching, PageEvent::SendFailed(detail)) => {
            &&& after.phase == PagePhase::Done
            &&& page_failed(action, "发送请求到 "@ + job.url@ + " 失败: "@ + detail@)
        },
        (PagePhase::Fetching, PageEvent::Status(status, reason)) => if 200 <= status < 300 {
            &&& after.phase == PagePhase::Reading
            &&& after.retry == before.retry
            &&& action is ReadBody
        } else {
            &&& after.phase == PagePhase::Done
            &&& page_failed(action, image_status_text(job.url@, status, text_of(reason)))
        },
        (PagePhase::Reading, PageEvent::Body(Err(detail))) => {
            let failure = "从 "@ + job.url@ + " 读取响应字节失败: "@ + detail@;
            if before.retry.retries < max_body_retries() {
                &&& after.phase == PagePhase::Waiting
                &&& after.retry.retries == before.retry.retries + 1
                &&& after.retry.backoff_ms == next_backoff(before.retry.backoff_ms)
                &&& action == PageAction::Sleep(before.retry.backoff_ms)
            } else {
                &&& after.phase == PagePhase::Done
                &&& page_failed(
                    action,
                    failure + " (已重试"@ + decimal(before.retry.retries as int) + "次)"@,
                )
            }
        },
        (PagePhase::Waiting, PageEvent::Slept) => {
            &&& after.phase == PagePhase::Fetching
            &&& after.retry == before.retry
            &&& action matches PageAction::Fetch(url)
            &&& url@ == job.url@
        },
        (PagePhase::Reading, PageEvent::Body(Ok(bytes))) => match action {
            PageAction::Write { path, file } => {
                &&& after.phase == PagePhase::Writing
                &&& after.passthrough == has_gif_signature(bytes@)
                &&& path@ == job.target_path@
                &&& process_outcome(bytes@, job.block_num, Ok(file))
            },
            PageAction::Finish(Err(e)) => {
                &&& after.phase == PagePhase::Done
                &&& process_outcome(bytes@, job.block_num, Err(e))
            },
            _ => false,
        },
        (PagePhase::Writing, PageEvent::Written(Ok(()))) => {
            after.phase == PagePhase::Done && page_done(job, action)
        },
        (PagePhase::Writing, PageEvent::Written(Err(detail))) => {
            &&& after.phase == PagePhase::Done
            &&& page_failed(
                action,
                write_failure_text(before.passthrough, job.target_path@, detail@),
            )
        },
        _ => {
            &&& after.phase == PagePhase::Done
            &&& page_failed(action, unexpected_event_text())
        },
    }
}

/// A page whose file is on disk costs no request: the step that learns of
/// the file ends the download with the index and the path of the page,
/// which are those that a fetch would end with. So a chapter whose pages
/// are all on disk is served again without a single request, and with the
/// same list.
pub proof fn lemma_page_on_disk_is_reused(
    before: PageTask,
    after: PageTask,
    action: PageAction,
)
    requires
        before.phase == PagePhase::Checking,
        page_task_step(before, PageEvent::TargetChecked(true), after, action),
    ensures
        after.phase == PagePhase::Done,
        !(action is Fetch),
        page_done(before.job, action),
{
}

fn page_over(job: PageJob, action: PageAction) -> (r: (PageTask, PageAction))
    ensures
        r.0.job == job,
        r.0.phase == PagePhase::Done,
        r.1 == action,
{
    let mut task = PageTask::new(job);
    task.phase = PagePhase::Done;
    (task, action)
}

fn page_finished(job: PageJob) -> (r: (PageTask, PageAction))
    ensures
        r.0.job == job,
        r.0.phase == PagePhase::Done,
        page_done(job, r.1),
{
    let pair = (job.index, job.relative_path.clone());
    page_over(job, PageAction::Finish(Ok(pair)))
}

/// Downloads one page, step by step: takes the event that answers the
/// action before, and gives the next action.
pub fn page_task(state: PageTask, event: PageEvent) -> (r: (PageTask, PageAction))
    ensures
        page_task_step(state, event, r.0, r.1),
{
    let PageTask { job, phase, retry, passthrough } = state;
    match (phase, event) {
        (PagePhase::Ready, PageEvent::Begin) => {
            let path = job.target_path.clone();
            (
                PageTask { job, phase: PagePhase::Checking, retry, passthrough },
                PageAction::CheckTarget(path),
            )
        },
        (PagePhase::Checking, PageEvent::TargetChecked(on_disk)) => {
            match page_step(on_disk) {
                PageStep::Reuse => page_finished(job),
                PageStep::Fetch => {
                    let url = job.url.clone();
                    (
                        PageTask { job, phase: PagePhase::Fetching, retry, passthrough },
                        PageAction::Fetch(url),
                    )
                },
            }
        },
        (PagePhase::Fetching, PageEvent::SendFailed(detail)) => {
            let m = join4("发送请求到 ", job.url.as_str(), " 失败: ", detail.as_str());
            page_over(job, PageAction::Finish(Err(AppError::Internal(m))))
        },
        (PagePhase::Fetching, PageEvent::Status(status, reason)) => {
            let checked = match &reason {
                Some(t) => check_image_status(job.url.as_str(), status, Some(t.as_str())),
                None => check_image_status(job.url.as_str(), status, None),
            };
            match checked {
                Ok(()) => (
                    PageTask { job, phase: PagePhase::Reading, retry, passthrough },
                    PageAction::ReadBody,
                ),
                Err(e) => page_over(job, PageAction::Finish(Err(e))),
            }
        },
        (PagePhase::Reading, PageEvent::Body(Err(detail))) => {
            let failure = join4("从 ", job.url.as_str(), " 读取响应字节失败: ", detail.as_str());
            match retry.on_failure(failure.as_str()) {
                BodyRetryStep::Again { wait_ms, next } => (
                    PageTask { job, phase: PagePhase::Waiting, retry: next, passthrough },
                    PageAction::Sleep(wait_ms),
                ),
                BodyRetryStep::GiveUp(e) => page_over(job, PageAction::Finish(Err(e))),
            }
        },
        (PagePhase::Waiting, PageEvent::Slept) => {
            let url = job.url.clone();
            (
                PageTask { job, phase: PagePhase::Fetching, retry, passthrough },
                PageAction::Fetch(url),
            )
        },
        (PagePhase::Reading, PageEvent::Body(Ok(bytes))) => {
            let gif = is_gif_signature(bytes.as_slice());
            match process_image(bytes.as_slice(), job.block_num) {
                Ok(file) => {
                    let path = job.target_path.clone();
                    (
                        PageTask { job, phase: PagePhase::Writing, retry, passthrough: gif },
                        PageAction::Write { path, file },
                    )
                },
                Err(e) => page_over(job, PageAction::Finish(Err(e))),
            }
        },
        (PagePhase::Writing, PageEvent::Written(Ok(()))) => page_finished(job),
        (PagePhase::Writing, PageEvent::Written(Err(detail))) => {
            let m = join4(
                if passthrough {
                    "保存GIF图片到 "
                } else {
                    "保存图片到 "
                },
                job.target_path.as_str(),
                " 失败: ",
                detail.as_str(),
            );
            page_over(job, PageAction::Finish(Err(AppError::Internal(m))))
        },
        _ => page_over(
            job,
            PageAction::Finish(Err(AppError::Internal(String::from_str("操作收到了意外的事件")))),
        ),
    }
}

} // verus!
