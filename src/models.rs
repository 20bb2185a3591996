use vstd::prelude::*;

verus! {

/// A track of the library.
#[derive(Debug, Clone)]
pub struct Track {
    pub id: i64,
    pub file_path: String,
    pub title: Option<String>,
    pub artist: Option<String>,
    pub album: Option<String>,
    pub duration: Option<i64>,
    pub year: Option<i64>,
    pub genre: Option<String>,
    pub track_number: Option<i64>,
    pub file_size: i64,
    pub file_format: String,
    pub last_modified: i64,
    pub metadata_fetched: bool,
    pub release_mbid: Option<String>,
    pub created_at: i64,
}

/// An album of the library.
#[derive(Debug, Clone)]
pub struct Album {
    pub id: i64,
    pub name: String,
    pub artist: Option<String>,
    pub year: Option<i64>,
    pub cover_art_path: Option<String>,
}

/// An album with figures gathered over its tracks.
#[derive(Debug, Clone)]
pub struct AlbumInfo {
    pub name: String,
    pub artist: Option<String>,
    pub year: Option<i64>,
    pub track_count: i64,
    pub total_duration: Option<i64>,
    pub created_at: i64,
    pub cover_art: Option<String>,
}

/// An artist of the library.
#[derive(Debug, Clone)]
pub struct Artist {
    pub id: i64,
    pub name: String,
}

/// A folder that library scans cover.
#[derive(Debug, Clone)]
pub struct ScanFolder {
    pub id: i64,
    pub path: String,
    pub enabled: bool,
}

/// Filters for listing tracks.
#[derive(Debug, Clone)]
pub struct TrackFilters {
    pub artist: Option<String>,
    pub album: Option<String>,
    pub genre: Option<String>,
    pub year: Option<i64>,
    pub format: Option<String>,
}

/// Progress of the discovery phase of a scan.
#[derive(Debug, Clone)]
pub struct ScanDiscovery {
    pub files_found: usize,
    pub current_folder: String,
    pub is_complete: bool,
}

/// Progress of a scan over the discovered files.
#[derive(Debug, Clone)]
pub struct ScanProgress {
    pub current_file: String,
    pub total_files: usize,
    pub processed_files: usize,
    pub is_complete: bool,
}

/// Outcome of looking up metadata for one track.
#[derive(Debug, Clone)]
pub struct MetadataResult {
    pub track_id: i64,
    pub success: bool,
    pub message: String,
}

/// Outcome of a whole scan.
#[derive(Debug, Clone)]
pub struct ScanResult {
    pub total_files: usize,
    pub scanned: usize,
    pub skipped: usize,
    pub errors: usize,
    pub error_files: Vec<String>,
    pub duration_ms: u64,
    pub cancelled: bool,
}

/// A file that a scan could not read.
#[derive(Debug, Clone)]
pub struct ScanError {
    pub file: String,
    pub error: String,
}

/// Outcome of fetching cover art for one track.
#[derive(Debug, Clone)]
pub struct CoverFetchResult {
    pub track_id: i64,
    pub success: bool,
    pub message: String,
}

/// A playlist with its track count and total duration.
#[derive(Debug, Clone)]
pub struct Playlist {
    pub id: i64,
    pub name: String,
    pub created_at: i64,
    pub track_count: i64,
    pub total_duration: Option<i64>,
}

/// A track's place in a playlist.
#[derive(Debug, Clone)]
pub struct PlaylistTrack {
    pub playlist_id: i64,
    pub track_id: i64,
    pub position: i64,
}

/// One play of a track.
#[derive(Debug, Clone)]
pub struct PlayHistoryEntry {
    pub id: i64,
    pub track_id: i64,
    pub played_at: i64,
    pub duration_listened: i64,
    pub track: Option<Track>,
}

/// One entry of an M3U playlist file.
#[derive(Debug, Clone)]
pub struct M3uEntry {
    pub path: String,
    pub title: Option<String>,
    pub duration: Option<i64>,
}

} // verus!
