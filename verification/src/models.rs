//! The requests and responses of the three operations, and the data that the
//! upstream service sends.

use vstd::prelude::*;

verus! {

/// The expiry used where a request names none: ten minutes.
pub fn default_expire_seconds() -> (r: i64)
    ensures
        r == 600,
{
    600
}

/// Asks for what is known of one comic.
#[derive(Debug, Clone, PartialEq, Eq)]
pub struct GetComicInfoRequest {
    pub id: i64,
}

/// What is known of one comic.
#[derive(Debug, Clone, PartialEq, Eq)]
pub struct ComicInfo {
    pub comic_id: i64,
    pub title: String,
    pub comic_type: String,
    pub total_views: Option<String>,
    pub likes: Option<String>,
    pub authors: Vec<String>,
    pub description: String,
    /// Present for a single-volume comic only.
    pub total_pages: Option<usize>,
}

/// Asks for some chapters of a comic.
#[derive(Debug, Clone, PartialEq, Eq)]
pub struct DownloadChapterRequest {
    pub comic_id: i64,
    pub chapter_ids: Vec<i64>,
    /// Seconds after which the chapter directory is removed; -1 keeps it.
    pub expire_seconds: i64,
}

/// Asks for a single-volume comic, as pages or as one PDF.
#[derive(Debug, Clone, PartialEq, Eq)]
pub struct DownloadComicRequest {
    pub comic_id: i64,
    /// Whether the pages are merged into one PDF.
    pub merge: bool,
    /// The password of the merged PDF, if it is to have one.
    pub encrypt: Option<String>,
    /// Seconds after which the chapter directory is removed; -1 keeps it.
    pub expire_seconds: i64,
}

/// The pages of one downloaded chapter, in page order.
#[derive(Debug, Clone, PartialEq, Eq)]
pub struct SingleChapterData {
    pub chapter_id: i64,
    pub chapter_title: String,
    pub images: Vec<String>,
}

/// The chapters that one request downloaded, in the order asked for.
#[derive(Debug, Clone, PartialEq, Eq)]
pub struct ChapterDownloadData {
    pub comic_id: i64,
    pub comic_title: String,
    pub chapters: Vec<SingleChapterData>,
}

/// A downloaded single-volume comic: its pages, or the merged PDF.
#[derive(Debug, Clone, PartialEq, Eq)]
pub struct ComicDownloadData {
    pub comic_id: i64,
    pub comic_title: String,
    /// The pages, where they were not merged.
    pub images: Option<Vec<String>>,
    /// The merged PDF, where they were.
    pub pdf_path: Option<String>,
}

/// The wrapped response of the upstream service. `data` holds the payload
/// where it is a JSON string, and nothing where it is any other value.
#[derive(Debug, Clone, PartialEq, Eq)]
pub struct JmResp {
    pub code: i64,
    pub data: Option<String>,
    pub error_msg: String,
}

/// One chapter in a comic's list of chapters.
#[derive(Debug, Clone, PartialEq, Eq)]
pub struct SeriesRespData {
    pub id: String,
    pub name: String,
}

/// A comic as the upstream service describes it. An empty `series` marks a
/// single-volume comic, whose one chapter has the comic's id.
#[derive(Debug, Clone, PartialEq, Eq)]
pub struct GetComicRespData {
    pub name: String,
    pub series: Vec<SeriesRespData>,
    pub total_views: String,
    pub likes: String,
    pub author: Vec<String>,
    pub description: String,
}

/// A chapter as the upstream service describes it: its page files, in order.
#[derive(Debug, Clone, PartialEq, Eq)]
pub struct GetChapterRespData {
    pub images: Vec<String>,
}

} // verus!
