use vstd::prelude::*;

use crate::player::{
    DaemonUpdate as GrpcDaemonUpdate, DaemonUpdateChangedTrack as GrpcDaemonUpdateChangedTrack,
    UpdateType as GrpcUpdateType,
};

verus! {

#[derive(Clone, Debug, PartialEq, Eq, Structural)]
pub struct DaemonUpdateChangedTrack {
    pub new_track_index: u32,
}

#[derive(Clone, Debug, PartialEq, Eq, Structural)]
pub enum DaemonUpdate {
    ChangedTrack(DaemonUpdateChangedTrack),
}

/// The error of a conversion from the wire form that carries no update.
#[derive(Clone, Copy, Debug, PartialEq, Eq, Structural)]
pub struct UnknownDaemonUpdate;

impl UnknownDaemonUpdate {
    /// The text of the error.
    pub fn message(&self) -> (res: String)
        ensures
            res@ == "Could not convert proto DaemonUpdate to rust DaemonUpdate"@,
    {
        "Could not convert proto DaemonUpdate to rust DaemonUpdate".to_owned()
    }
}

/// The wire form of a daemon update.
pub open spec fn spec_to_grpc(u: DaemonUpdate) -> GrpcDaemonUpdate {
    match u {
        DaemonUpdate::ChangedTrack(data) => GrpcDaemonUpdate {
            update_type: Some(
                GrpcUpdateType::ChangedTrack(
                    GrpcDaemonUpdateChangedTrack { new_track_index: data.new_track_index },
                ),
            ),
        },
    }
}

/// The daemon update that a wire message stands for, if it carries one.
pub open spec fn spec_from_grpc(g: GrpcDaemonUpdate) -> Result<DaemonUpdate, UnknownDaemonUpdate> {
    match g.update_type {
        Some(GrpcUpdateType::ChangedTrack(data)) => Ok(
            DaemonUpdate::ChangedTrack(
                DaemonUpdateChangedTrack { new_track_index: data.new_track_index },
            ),
        ),
        None => Err(UnknownDaemonUpdate),
    }
}

impl From<DaemonUpdate> for GrpcDaemonUpdate {
    fn from(other: DaemonUpdate) -> (res: Self)
        ensures
            match other {
                DaemonUpdate::ChangedTrack(data) => res.update_type == Some(
                    GrpcUpdateType::ChangedTrack(
                        GrpcDaemonUpdateChangedTrack { new_track_index: data.new_track_index },
                    ),
                ),
            },
    {
        match other {
            DaemonUpdate::ChangedTrack(data) => GrpcDaemonUpdate {
                update_type: Some(
                    GrpcUpdateType::ChangedTrack(
                        GrpcDaemonUpdateChangedTrack { new_track_index: data.new_track_index },
                    ),
                ),
            },
        }
    }
}

impl vstd::std_specs::convert::FromSpecImpl<DaemonUpdate> for GrpcDaemonUpdate {
    open spec fn obeys_from_spec() -> bool {
        true
    }

    open spec fn from_spec(v: DaemonUpdate) -> Self {
        spec_to_grpc(v)
    }
}

impl TryFrom<GrpcDaemonUpdate> for DaemonUpdate {
    type Error = UnknownDaemonUpdate;

    fn try_from(other: GrpcDaemonUpdate) -> (res: Result<DaemonUpdate, UnknownDaemonUpdate>)
        ensures
            match other.update_type {
                Some(GrpcUpdateType::ChangedTrack(data)) => res == Ok::<
                    DaemonUpdate,
                    UnknownDaemonUpdate,
                >(DaemonUpdate::ChangedTrack(DaemonUpdateChangedTrack { new_track_index: data.new_track_index })),
                None => res == Err::<DaemonUpdate, UnknownDaemonUpdate>(UnknownDaemonUpdate),
            },
    {
        match other.update_type {
            Some(GrpcUpdateType::ChangedTrack(data)) => Ok(
                DaemonUpdate::ChangedTrack(
                    DaemonUpdateChangedTrack { new_track_index: data.new_track_index },
                ),
            ),
            None => Err(UnknownDaemonUpdate),
        }
    }
}

impl vstd::std_specs::convert::TryFromSpecImpl<GrpcDaemonUpdate> for DaemonUpdate {
    open spec fn obeys_try_from_spec() -> bool {
        true
    }

    open spec fn try_from_spec(v: GrpcDaemonUpdate) -> Result<Self, UnknownDaemonUpdate> {
        spec_from_grpc(v)
    }
}

/// Decoding the wire form of an update gives that update back.
pub proof fn lemma_grpc_round_trip(u: DaemonUpdate)
    ensures
        spec_from_grpc(spec_to_grpc(u)) == Ok::<DaemonUpdate, UnknownDaemonUpdate>(u),
{
}

/// Encoding keeps the track index: the update that says the server moved to
/// track `n` goes on the wire as a changed-track payload with index `n`.
pub proof fn lemma_encode_keeps_track_index(n: u32)
    ensures
        spec_to_grpc(DaemonUpdate::ChangedTrack(DaemonUpdateChangedTrack { new_track_index: n }))
            == (GrpcDaemonUpdate {
            update_type: Some(
                GrpcUpdateType::ChangedTrack(GrpcDaemonUpdateChangedTrack { new_track_index: n }),
            ),
        }),
{
}

/// Decoding keeps the track index: a changed-track payload with index `n`
/// decodes to the update that says the server moved to track `n`.
pub proof fn lemma_decode_keeps_track_index(n: u32)
    ensures
        spec_from_grpc(
            GrpcDaemonUpdate {
                update_type: Some(
                    GrpcUpdateType::ChangedTrack(GrpcDaemonUpdateChangedTrack { new_track_index: n }),
                ),
            },
        ) == Ok::<DaemonUpdate, UnknownDaemonUpdate>(
            DaemonUpdate::ChangedTrack(DaemonUpdateChangedTrack { new_track_index: n }),
        ),
{
}

/// A wire message that decodes to an update is the wire form of that update.
pub proof fn lemma_grpc_decode_encode(g: GrpcDaemonUpdate)
    ensures
        spec_from_grpc(g) matches Ok(u) ==> spec_to_grpc(u) == g,
        spec_from_grpc(g) is Err <==> g.update_type is None,
{
}

#[derive(Clone, PartialEq, Eq)]
pub enum XYWHMsg {
    Hide,
    MoveLeft,
    MoveRight,
    MoveUp,
    MoveDown,
    ZoomIn,
    ZoomOut,
}

#[derive(PartialEq, Eq)]
pub enum DLMsg {
    DownloadRunning(String, String), // indicates progress
    DownloadSuccess(String),
    DownloadCompleted(String, Option<String>),
    DownloadErrDownload(String, String, String),
    DownloadErrEmbedData(String, String),
    MessageShow((String, String)),
    MessageHide((String, String)),
    YoutubeSearchSuccess(YoutubeOptions),
    YoutubeSearchFail(String),
    FetchPhotoSuccess(ImageWrapper),
    FetchPhotoErr(String),
}

impl Clone for DLMsg {
    fn clone(&self) -> Self {
        match self {
            DLMsg::DownloadRunning(a, b) => DLMsg::DownloadRunning(a.clone(), b.clone()),
            DLMsg::DownloadSuccess(a) => DLMsg::DownloadSuccess(a.clone()),
            DLMsg::DownloadCompleted(a, b) => DLMsg::DownloadCompleted(a.clone(), b.clone()),
            DLMsg::DownloadErrDownload(a, b, c) => DLMsg::DownloadErrDownload(
                a.clone(),
                b.clone(),
                c.clone(),
            ),
            DLMsg::DownloadErrEmbedData(a, b) => DLMsg::DownloadErrEmbedData(a.clone(), b.clone()),
            DLMsg::MessageShow((a, b)) => DLMsg::MessageShow((a.clone(), b.clone())),
            DLMsg::MessageHide((a, b)) => DLMsg::MessageHide((a.clone(), b.clone())),
            DLMsg::YoutubeSearchSuccess(o) => DLMsg::YoutubeSearchSuccess(o.clone()),
            DLMsg::YoutubeSearchFail(a) => DLMsg::YoutubeSearchFail(a.clone()),
            DLMsg::FetchPhotoSuccess(i) => DLMsg::FetchPhotoSuccess(i.clone()),
            DLMsg::FetchPhotoErr(a) => DLMsg::FetchPhotoErr(a.clone()),
        }
    }
}

/// A decoded image of the `image` crate. Nothing of its contents is
/// visible to the proofs; values of it are only carried along.
#[verifier::external_type_specification]
#[verifier::external_body]
pub struct ExDynamicImage(image::DynamicImage);

/// `DynamicImage::clone`, which the image crate derives: the copy holds the
/// same pixel buffer, so it is the same value.
pub assume_specification[ <image::DynamicImage as Clone>::clone ](img: &image::DynamicImage) -> (res: image::DynamicImage)
    ensures
        res == *img,
;

/// A fetched cover picture.
#[derive(Clone, PartialEq)]
pub struct ImageWrapper {
    pub data: image::DynamicImage,
}

impl Eq for ImageWrapper {}

#[derive(Clone, PartialEq, Eq)]
pub enum LyricMsg {
    LyricTextAreaBlurUp,
    LyricTextAreaBlurDown,
}

#[derive(Clone, Debug, PartialEq, Eq)]
pub enum KFMsg {
    DatabaseAddAllBlurDown,
    DatabaseAddAllBlurUp,
    GlobalConfigBlurDown,
    GlobalConfigBlurUp,
    GlobalDownBlurDown,
    GlobalDownBlurUp,
    GlobalGotoBottomBlurDown,
    GlobalGotoBottomBlurUp,
    GlobalGotoTopBlurDown,
    GlobalGotoTopBlurUp,
    GlobalHelpBlurDown,
    GlobalHelpBlurUp,
    GlobalLayoutTreeviewBlurDown,
    GlobalLayoutTreeviewBlurUp,
    GlobalLayoutDatabaseBlurDown,
    GlobalLayoutDatabaseBlurUp,
    GlobalLeftBlurDown,
    GlobalLeftBlurUp,
    GlobalLyricAdjustForwardBlurDown,
    GlobalLyricAdjustForwardBlurUp,
    GlobalLyricAdjustBackwardBlurDown,
    GlobalLyricAdjustBackwardBlurUp,
    GlobalLyricCycleBlurDown,
    GlobalLyricCycleBlurUp,
    GlobalPlayerNextBlurDown,
    GlobalPlayerNextBlurUp,
    GlobalPlayerPreviousBlurDown,
    GlobalPlayerPreviousBlurUp,
    GlobalPlayerSeekForwardBlurDown,
    GlobalPlayerSeekForwardBlurUp,
    GlobalPlayerSeekBackwardBlurDown,
    GlobalPlayerSeekBackwardBlurUp,
    GlobalPlayerSpeedUpBlurDown,
    GlobalPlayerSpeedUpBlurUp,
    GlobalPlayerSpeedDownBlurDown,
    GlobalPlayerSpeedDownBlurUp,
    GlobalPlayerToggleGaplessBlurDown,
    GlobalPlayerToggleGaplessBlurUp,
    GlobalPlayerTogglePauseBlurDown,
    GlobalPlayerTogglePauseBlurUp,
    GlobalQuitBlurDown,
    GlobalQuitBlurUp,
    GlobalRightBlurDown,
    GlobalRightBlurUp,
    GlobalUpBlurDown,
    GlobalUpBlurUp,
    GlobalVolumeDownBlurDown,
    GlobalVolumeDownBlurUp,
    GlobalVolumeUpBlurDown,
    GlobalVolumeUpBlurUp,
    GlobalSavePlaylistBlurDown,
    GlobalSavePlaylistBlurUp,
    LibraryDeleteBlurDown,
    LibraryDeleteBlurUp,
    LibraryLoadDirBlurDown,
    LibraryLoadDirBlurUp,
    LibraryPasteBlurDown,
    LibraryPasteBlurUp,
    LibrarySearchBlurDown,
    LibrarySearchBlurUp,
    LibrarySearchYoutubeBlurDown,
    LibrarySearchYoutubeBlurUp,
    LibraryTagEditorBlurDown,
    LibraryTagEditorBlurUp,
    LibraryYankBlurDown,
    LibraryYankBlurUp,
    PlaylistDeleteBlurDown,
    PlaylistDeleteBlurUp,
    PlaylistDeleteAllBlurDown,
    PlaylistDeleteAllBlurUp,
    PlaylistShuffleBlurDown,
    PlaylistShuffleBlurUp,
    PlaylistModeCycleBlurDown,
    PlaylistModeCycleBlurUp,
    PlaylistPlaySelectedBlurDown,
    PlaylistPlaySelectedBlurUp,
    PlaylistSearchBlurDown,
    PlaylistSearchBlurUp,
    PlaylistSwapDownBlurDown,
    PlaylistSwapDownBlurUp,
    PlaylistSwapUpBlurDown,
    PlaylistSwapUpBlurUp,
    PlaylistLqueueBlurDown,
    PlaylistLqueueBlurUp,
    PlaylistTqueueBlurDown,
    PlaylistTqueueBlurUp,
    LibrarySwitchRootBlurDown,
    LibrarySwitchRootBlurUp,
    LibraryAddRootBlurDown,
    LibraryAddRootBlurUp,
    LibraryRemoveRootBlurDown,
    LibraryRemoveRootBlurUp,
    GlobalLayoutPodcastBlurDown,
    GlobalLayoutPodcastBlurUp,
    GlobalXywhMoveLeftBlurDown,
    GlobalXywhMoveLeftBlurUp,
    GlobalXywhMoveRightBlurDown,
    GlobalXywhMoveRightBlurUp,
    GlobalXywhMoveUpBlurDown,
    GlobalXywhMoveUpBlurUp,
    GlobalXywhMoveDownBlurDown,
    GlobalXywhMoveDownBlurUp,
    GlobalXywhZoomInBlurDown,
    GlobalXywhZoomInBlurUp,
    GlobalXywhZoomOutBlurDown,
    GlobalXywhZoomOutBlurUp,
    GlobalXywhHideBlurDown,
    GlobalXywhHideBlurUp,
    PodcastMarkPlayedBlurDown,
    PodcastMarkPlayedBlurUp,
    PodcastMarkAllPlayedBlurDown,
    PodcastMarkAllPlayedBlurUp,
    PodcastEpDownloadBlurDown,
    PodcastEpDownloadBlurUp,
    PodcastEpDeleteFileBlurDown,
    PodcastEpDeleteFileBlurUp,
    PodcastDeleteFeedBlurDown,
    PodcastDeleteFeedBlurUp,
    PodcastDeleteAllFeedsBlurDown,
    PodcastDeleteAllFeedsBlurUp,
    PodcastSearchAddFeedBlurDown,
    PodcastSearchAddFeedBlurUp,
    PodcastRefreshFeedBlurDown,
    PodcastRefreshFeedBlurUp,
    PodcastRefreshAllFeedsBlurDown,
    PodcastRefreshAllFeedsBlurUp,
}

#[derive(Clone, Debug, PartialEq, Eq)]
pub enum LIMsg {
    TreeExtendDir(String),
    TreeGoToUpperDir,
    TreeBlur,
    Yank,
    Paste,
    SwitchRoot,
    AddRoot,
    RemoveRoot,
}

#[derive(Clone, Debug, PartialEq, Eq)]
pub enum DBMsg {
    AddAllToPlaylist,
    AddPlaylist(usize),
    CriteriaBlurDown,
    CriteriaBlurUp,
    SearchResult(usize),
    SearchResultBlurDown,
    SearchResultBlurUp,
    SearchTrack(usize),
    SearchTracksBlurDown,
    SearchTracksBlurUp,
}

/// This message is sent by the UI due to keypress events related to the playlist
#[derive(Clone, Debug, PartialEq, Eq)]
pub enum PLMsg {
    NextSong,
    PrevSong,
    PlaylistTableBlurDown,
    PlaylistTableBlurUp,
    Add(String),
    Delete(usize),
    DeleteAll,
    LoopModeCycle,
    PlaySelected(usize),
    Shuffle,
    SwapDown(usize),
    SwapUp(usize),
    CmusLQueue,
    CmusTQueue,
}

#[derive(Clone, Debug, PartialEq, Eq)]
pub enum GSMsg {
    PopupShowDatabase,
    PopupShowLibrary,
    PopupShowPlaylist,
    PopupCloseCancel,
    InputBlur,
    PopupUpdateDatabase(String),
    PopupUpdateLibrary(String),
    PopupUpdatePlaylist(String),
    TableBlur,
    PopupCloseDatabaseAddPlaylist,
    PopupCloseLibraryAddPlaylist,
    PopupCloseOkLibraryLocate,
    PopupClosePlaylistPlaySelected,
    PopupCloseOkPlaylistLocate,
}

#[derive(Clone, Debug, PartialEq, Eq)]
pub enum YSMsg {
    InputPopupShow,
    InputPopupCloseCancel,
    InputPopupCloseOk(String),
    TablePopupNext,
    TablePopupPrevious,
    TablePopupCloseCancel,
    TablePopupCloseOk(usize),
}

#[derive(Clone, Debug, PartialEq, Eq)]
pub enum TEMsg {
    TagEditorRun(String),
    TagEditorClose(Option<String>),
    TECounterDeleteOk,
    TEDownload(usize),
    TEEmbed(usize),
    TEFocus(TFMsg),
    TERename,
    TESearch,
    TESelectLyricOk(usize),
}

#[derive(Clone, Debug, PartialEq, Eq)]
pub enum TFMsg {
    CounterDeleteBlurDown,
    CounterDeleteBlurUp,
    InputArtistBlurDown,
    InputArtistBlurUp,
    InputTitleBlurDown,
    InputTitleBlurUp,
    InputAlbumBlurDown,
    InputAlbumBlurUp,
    InputGenreBlurDown,
    InputGenreBlurUp,
    SelectLyricBlurDown,
    SelectLyricBlurUp,
    TableLyricOptionsBlurDown,
    TableLyricOptionsBlurUp,
    TextareaLyricBlurDown,
    TextareaLyricBlurUp,
}

#[derive(Debug, Eq, PartialEq, Clone, Hash)]
pub enum Id {
    ConfigEditor(IdConfigEditor),
    DBListCriteria,
    DBListSearchResult,
    DBListSearchTracks,
    DeleteConfirmRadioPopup,
    DeleteConfirmInputPopup,
    DownloadSpinner,
    Episode,
    ErrorPopup,
    GeneralSearchInput,
    GeneralSearchTable,
    GlobalListener,
    HelpPopup,
    Label,
    Library,
    Lyric,
    MessagePopup,
    Playlist,
    Podcast,
    PodcastAddPopup,
    PodcastSearchTablePopup,
    FeedDeleteConfirmRadioPopup,
    FeedDeleteConfirmInputPopup,
    Progress,
    QuitPopup,
    SavePlaylistPopup,
    SavePlaylistLabel,
    SavePlaylistConfirm,
    TagEditor(IdTagEditor),
    YoutubeSearchInputPopup,
    YoutubeSearchTablePopup,
}

#[derive(Debug, Eq, PartialEq, Clone, Hash)]
pub enum IdTagEditor {
    CounterDelete,
    LabelHint,
    InputArtist,
    InputTitle,
    InputAlbum,
    InputGenre,
    SelectLyric,
    TableLyricOptions,
    TextareaLyric,
}

#[derive(Debug, Eq, PartialEq, Clone, Hash)]
pub enum IdConfigEditor {
    AlbumPhotoAlign,
    CEThemeSelect,
    ConfigSavePopup,
    ExitConfirmation,
    Footer,
    Header,
    Key(IdKey),
    KillDamon,
    LibraryBackground,
    LibraryBorder,
    LibraryForeground,
    LibraryHighlight,
    LibraryHighlightSymbol,
    LibraryLabel,
    LyricBackground,
    LyricBorder,
    LyricForeground,
    LyricLabel,
    MusicDir,
    PlayerPort,
    PlayerUseDiscord,
    PlayerUseMpris,
    PlaylistBackground,
    PlaylistBorder,
    PlaylistDisplaySymbol,
    PlaylistForeground,
    PlaylistHighlight,
    PlaylistHighlightSymbol,
    PlaylistLabel,
    PlaylistRandomAlbum,
    PlaylistRandomTrack,
    PodcastDir,
    PodcastMaxRetries,
    PodcastSimulDownload,
    ProgressBackground,
    ProgressBorder,
    ProgressForeground,
    ProgressLabel,
    SaveLastPosition,
    SeekStep,
}

#[derive(Debug, Eq, PartialEq, Clone, Hash)]
pub enum IdKey {
    DatabaseAddAll,
    GlobalConfig,
    GlobalDown,
    GlobalGotoBottom,
    GlobalGotoTop,
    GlobalHelp,
    GlobalLayoutTreeview,
    GlobalLayoutDatabase,
    GlobalLeft,
    GlobalLyricAdjustForward,
    GlobalLyricAdjustBackward,
    GlobalLyricCycle,
    GlobalPlayerToggleGapless,
    GlobalPlayerTogglePause,
    GlobalPlayerNext,
    GlobalPlayerPrevious,
    GlobalPlayerSeekForward,
    GlobalPlayerSeekBackward,
    GlobalPlayerSpeedUp,
    GlobalPlayerSpeedDown,
    GlobalQuit,
    GlobalRight,
    GlobalUp,
    GlobalVolumeDown,
    GlobalVolumeUp,
    GlobalSavePlaylist,
    LibraryDelete,
    LibraryLoadDir,
    LibraryPaste,
    LibrarySearch,
    LibrarySearchYoutube,
    LibraryTagEditor,
    LibraryYank,
    PlaylistDelete,
    PlaylistDeleteAll,
    PlaylistShuffle,
    PlaylistModeCycle,
    PlaylistPlaySelected,
    PlaylistSearch,
    PlaylistSwapDown,
    PlaylistSwapUp,
    PlaylistLqueue,
    PlaylistTqueue,
    LibrarySwitchRoot,
    LibraryAddRoot,
    LibraryRemoveRoot,
    GlobalLayoutPodcast,
    GlobalXywhMoveLeft,
    GlobalXywhMoveRight,
    GlobalXywhMoveUp,
    GlobalXywhMoveDown,
    GlobalXywhZoomIn,
    GlobalXywhZoomOut,
    GlobalXywhHide,
    PodcastMarkPlayed,
    PodcastMarkAllPlayed,
    PodcastEpDownload,
    PodcastEpDeleteFile,
    PodcastDeleteFeed,
    PodcastDeleteAllFeeds,
    PodcastSearchAddFeed,
    PodcastRefreshFeed,
    PodcastRefreshAllFeeds,
}

/// One video of a search result.
#[derive(Clone, Debug, PartialEq, Eq)]
pub struct YoutubeVideo {
    pub title: String,
    pub length_seconds: u64,
    pub video_id: String,
}

/// Why a look-up in the search results failed.
#[derive(Clone, Copy, Debug, PartialEq, Eq, Structural)]
pub enum YoutubeError {
    IndexNotFound,
}

impl YoutubeError {
    /// The text of the error.
    pub fn message(&self) -> (res: String)
        ensures
            res@ == "index not found"@,
    {
        match self {
            YoutubeError::IndexNotFound => "index not found".to_owned(),
        }
    }
}

/// One page of the results of a YouTube search, with the page number that
/// the next fetch of results starts from.
#[derive(Clone, PartialEq, Eq)]
pub struct YoutubeOptions {
    pub items: Vec<YoutubeVideo>,
    pub page: u32,
}

/// What a `YoutubeOptions` holds: the videos of the current page and the
/// page number.
pub struct YoutubeOptionsView {
    pub items: Seq<YoutubeVideo>,
    pub page: int,
}

impl View for YoutubeOptions {
    type V = YoutubeOptionsView;

    open spec fn view(&self) -> YoutubeOptionsView {
        YoutubeOptionsView { items: self.items@, page: self.page as int }
    }
}

/// The state after `next_page`: one page further, the items untouched.
pub open spec fn spec_next_page(s: YoutubeOptionsView) -> YoutubeOptionsView {
    YoutubeOptionsView { page: s.page + 1, ..s }
}

/// The state after the outcome of a fetch is taken in: the fetched items
/// on success (`Some`), the same state on failure (`None`).
pub open spec fn spec_apply_search_result(
    s: YoutubeOptionsView,
    fetched: Option<Seq<YoutubeVideo>>,
) -> YoutubeOptionsView {
    match fetched {
        Some(items) => YoutubeOptionsView { items, ..s },
        None => s,
    }
}

/// The state after stepping forward once for each fetch outcome in
/// `outcomes`, in order, each step taking in its outcome.
pub open spec fn spec_next_pages(
    s: YoutubeOptionsView,
    outcomes: Seq<Option<Seq<YoutubeVideo>>>,
) -> YoutubeOptionsView
    decreases outcomes.len(),
{
    if outcomes.len() == 0 {
        s
    } else {
        spec_apply_search_result(
            spec_next_page(spec_next_pages(s, outcomes.drop_last())),
            outcomes.last(),
        )
    }
}

/// The page that `prev_page` moves to: one back, but never before the first.
pub open spec fn prev_page_number(page: u32) -> u32 {
    if page > 1 {
        (page - 1) as u32
    } else {
        page
    }
}

impl Default for YoutubeOptions {
    fn default() -> (res: Self)
        ensures
            res.items@ == Seq::<YoutubeVideo>::empty(),
            res.page == 1,
    {
        Self { items: Vec::new(), page: 1 }
    }
}

impl YoutubeOptions {
    /// The video at `index` of the current page, or `IndexNotFound` past its end.
    pub fn get_by_index(&self, index: usize) -> (res: Result<&YoutubeVideo, YoutubeError>)
        ensures
            index < self.items@.len() ==> res == Ok::<&YoutubeVideo, YoutubeError>(
                &self.items@[index as int],
            ),
            index >= self.items@.len() ==> res == Err::<&YoutubeVideo, YoutubeError>(
                YoutubeError::IndexNotFound,
            ),
    {
        if index < self.items.len() {
            return Ok(&self.items[index]);
        }
        Err(YoutubeError::IndexNotFound)
    }

    /// Steps back one page unless this is the first. Returns the page whose
    /// results are to be fetched next, or `None` when the page did not move
    /// and nothing is to be fetched.
    pub fn prev_page(&mut self) -> (fetch: Option<u32>)
        ensures
            final(self).page == prev_page_number(old(self).page),
            final(self).items@ == old(self).items@,
            fetch == (if old(self).page > 1 {
                Some(final(self).page)
            } else {
                None::<u32>
            }),
    {
        if self.page > 1 {
            self.page -= 1;
            return Some(self.page);
        }
        None
    }

    /// Steps forward one page. Returns the page whose results are to be fetched.
    pub fn next_page(&mut self) -> (fetch: u32)
        requires
            old(self).page < u32::MAX,
        ensures
            final(self)@ == spec_next_page(old(self)@),
            final(self).page == old(self).page + 1,
            final(self).items@ == old(self).items@,
            fetch == final(self).page,
    {
        self.page += 1;
        self.page
    }

    /// Takes in the outcome of fetching the results of the current page: on
    /// success they replace the items, on failure the items stay as they were
    /// and the error is handed back. The page number is left as it is.
    pub fn apply_search_result<E>(&mut self, result: Result<Vec<YoutubeVideo>, E>) -> (res: Result<(), E>)
        ensures
            final(self)@ == spec_apply_search_result(
                old(self)@,
                match result {
                    Ok(items) => Some(items@),
                    Err(_) => None,
                },
            ),
            final(self).page == old(self).page,
            match result {
                Ok(items) => final(self).items@ == items@ && res is Ok,
                Err(e) => final(self).items@ == old(self).items@ && res == Err::<(), E>(e),
            },
    {
        match result {
            Ok(items) => {
                self.items = items;
                Ok(())
            },
            Err(e) => Err(e),
        }
    }

    /// The current page number.
    pub fn page(&self) -> (res: u32)
        ensures
            res == self.page,
    {
        self.page
    }
}

/// Stepping forward and then back returns to the page one started from.
pub proof fn lemma_next_then_prev(page: u32)
    requires
        1 <= page < u32::MAX,
    ensures
        prev_page_number((page + 1) as u32) == page,
{
}

/// However each fetch turns out, stepping forward `k` times moves exactly
/// `k` pages on; the items are those of the last fetch that succeeded, or
/// the ones held before when none did.
#[verifier::spinoff_prover]
#[verifier::rlimit(40)]
pub proof fn lemma_next_pages_advance(
    s: YoutubeOptionsView,
    outcomes: Seq<Option<Seq<YoutubeVideo>>>,
)
    ensures
        spec_next_pages(s, outcomes).page == s.page + outcomes.len(),
        (forall|i: int| 0 <= i < outcomes.len() ==> #[trigger] outcomes[i] is None)
            ==> spec_next_pages(s, outcomes).items == s.items,
        forall|i: int|
            0 <= i < outcomes.len() && outcomes[i] is Some && (forall|j: int|
                i < j < outcomes.len() ==> #[trigger] outcomes[j] is None) ==> spec_next_pages(
                s,
                outcomes,
            ).items == #[trigger] outcomes[i]->0,
    decreases outcomes.len(),
{
    if outcomes.len() > 0 {
        let prefix = outcomes.drop_last();
        lemma_next_pages_advance(s, prefix);
        assert forall|i: int|
            0 <= i < prefix.len() && prefix[i] is Some && (forall|j: int|
                i < j < outcomes.len() ==> #[trigger] outcomes[j] is None) implies spec_next_pages(
            s,
            outcomes,
        ).items == outcomes[i]->0 by {
            assert(outcomes[outcomes.len() - 1] is None);
            assert(prefix[i] == outcomes[i]);
            assert forall|j: int| i < j < prefix.len() implies #[trigger] prefix[j] is None by {
                assert(prefix[j] == outcomes[j]);
            }
        }
        if forall|i: int| 0 <= i < outcomes.len() ==> #[trigger] outcomes[i] is None {
            assert forall|i: int| 0 <= i < prefix.len() implies #[trigger] prefix[i] is None by {
                assert(prefix[i] == outcomes[i]);
            }
        }
    }
}

/// Stepping back never leaves the pages that are numbered from one, and the
/// first page has no page before it.
pub proof fn lemma_pages_start_at_one(page: u32)
    ensures
        page >= 1 ==> prev_page_number(page) >= 1,
        page <= 1 ==> prev_page_number(page) == page,
{
}

} // verus!
