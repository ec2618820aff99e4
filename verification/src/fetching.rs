//! Looking lyrics up: in the store, by a fetch, by a search.
use vstd::prelude::*;

use crate::lyrics::LyricsCandidate;
use crate::spotify::TrackInfo;
use crate::spotify_official::{build_request, OfficialError, OfficialFault, OfficialRequest};
use crate::state::{active_lyrics_key, RuntimeState, StateModel};
use crate::storage::{CachedLyrics, LyricsSource};
use crate::text::is_text;

verus! {

/// What loading from the store gives: the kept lyrics, none, or the text of an
/// error.
pub type Lookup = Result<Option<CachedLyrics>, String>;

/// What a `Lookup` stands for.
pub type LookupModel = Result<Option<crate::storage::CachedModel>, Seq<char>>;

/// The model of a `Lookup`.
pub open spec fn lookup_model(lookup: Lookup) -> LookupModel {
    match lookup {
        Ok(found) => Ok(found.deep_view()),
        Err(e) => Err(e@),
    }
}

/// What follows from looking a track up in the store.
#[derive(Debug)]
pub enum LookupStep {
    /// The kept lyrics are shown.
    Apply(CachedLyrics),
    /// The lyrics are fetched.
    Fetch,
    /// The text is shown, and the lyrics are fetched.
    ReportAndFetch(String),
}

/// What a `LookupStep` stands for.
#[verifier::ext_equal]
pub enum LookupStepModel {
    Apply(crate::storage::CachedModel),
    Fetch,
    ReportAndFetch(Seq<char>),
}

impl View for LookupStep {
    type V = LookupStepModel;

    open spec fn view(&self) -> LookupStepModel {
        match self {
            LookupStep::Apply(cached) => LookupStepModel::Apply(cached@),
            LookupStep::Fetch => LookupStepModel::Fetch,
            LookupStep::ReportAndFetch(text) => LookupStepModel::ReportAndFetch(text@),
        }
    }
}

/// Whether a track is also looked up under its plain key: only LRCLIB lyrics
/// can be there, and only where nothing was found is it worth a look.
pub open spec fn wants_legacy(source: LyricsSource, primary: LookupModel) -> bool {
    source == LyricsSource::Lrclib && !(primary matches Ok(Some(_)))
}

/// What an error of the store is shown as.
pub open spec fn read_failure(error: Seq<char>) -> Seq<char> {
    "State: Cache read failed: "@ + error
}

/// What follows from the lookup of a track, and from the one under its plain
/// key where there was one. An error of the first outlives one of the second.
pub open spec fn settled(primary: LookupModel, legacy: Option<LookupModel>) -> LookupStepModel {
    match (primary, legacy) {
        (Ok(Some(cached)), _) => LookupStepModel::Apply(cached),
        (_, Some(Ok(Some(cached)))) => LookupStepModel::Apply(cached),
        (_, Some(Ok(None))) => LookupStepModel::Fetch,
        (Err(e), _) => LookupStepModel::ReportAndFetch(read_failure(e)),
        (Ok(None), Some(Err(e))) => LookupStepModel::ReportAndFetch(read_failure(e)),
        (Ok(None), None) => LookupStepModel::Fetch,
    }
}

/// Lyrics that either lookup finds are shown.
pub proof fn law_found_lyrics_are_shown(
    primary: LookupModel,
    legacy: Option<LookupModel>,
)
    ensures
        (primary matches Ok(Some(_)) || legacy matches Some(Ok(Some(_)))) <==> settled(
            primary,
            legacy,
        ) is Apply,
{
}

/// Whether a track is also looked up under its plain key.
pub fn needs_legacy_lookup(source: LyricsSource, primary: &Lookup) -> (r: bool)
    ensures
        r == wants_legacy(source, lookup_model(*primary)),
{
    if source != LyricsSource::Lrclib {
        return false;
    }
    match primary {
        Ok(Some(_)) => false,
        _ => true,
    }
}

fn report(error: String) -> (r: LookupStep)
    ensures
        r@ == LookupStepModel::ReportAndFetch(read_failure(error@)),
{
    let mut text = "State: Cache read failed: ".to_owned();
    text.append(error.as_str());
    LookupStep::ReportAndFetch(text)
}

/// What follows from the lookups of a track.
pub fn settle_lookup(primary: Lookup, legacy: Option<Lookup>) -> (r: LookupStep)
    ensures
        r@ == settled(
            lookup_model(primary),
            match legacy {
                Some(l) => Some(lookup_model(l)),
                None => None,
            },
        ),
{
    match primary {
        Ok(Some(cached)) => LookupStep::Apply(cached),
        Ok(None) => match legacy {
            Some(Ok(Some(cached))) => LookupStep::Apply(cached),
            Some(Ok(None)) => LookupStep::Fetch,
            Some(Err(e)) => report(e),
            None => LookupStep::Fetch,
        },
        Err(e) => match legacy {
            Some(Ok(Some(cached))) => LookupStep::Apply(cached),
            Some(Ok(None)) => LookupStep::Fetch,
            Some(Err(_)) => report(e),
            None => report(e),
        },
    }
}

/// Where the lyrics of a track are fetched from.
#[derive(Debug)]
pub enum FetchPlan {
    /// From LRCLIB.
    Lrclib,
    /// From Spotify, with what its servers need.
    Official(OfficialRequest),
}

/// What a `FetchPlan` stands for.
#[verifier::ext_equal]
pub enum PlanModel {
    Lrclib,
    Official { track_id: Seq<char>, cookie: Seq<char> },
}

impl View for FetchPlan {
    type V = PlanModel;

    open spec fn view(&self) -> PlanModel {
        match self {
            FetchPlan::Lrclib => PlanModel::Lrclib,
            FetchPlan::Official(request) => PlanModel::Official {
                track_id: request.track_id@,
                cookie: request.cookie@,
            },
        }
    }
}

/// Where the lyrics of a track are fetched from, for a source, the Spotify
/// identifier of the track and the cookie. Only Spotify needs the last two.
pub open spec fn plan_for(
    source: LyricsSource,
    id: Option<Seq<char>>,
    sp_dc: Seq<char>,
) -> Result<PlanModel, OfficialFault> {
    match source {
        LyricsSource::Lrclib => Ok(PlanModel::Lrclib),
        LyricsSource::SpotifyOfficial => match crate::spotify_official::request_for(id, sp_dc) {
            Ok((track_id, cookie)) => Ok(PlanModel::Official { track_id, cookie }),
            Err(fault) => Err(fault),
        },
    }
}

/// Lyrics come from the source that was asked for and no other; LRCLIB is asked
/// whatever the identifier and the cookie are, and Spotify only with both.
pub proof fn law_source_is_asked(source: LyricsSource, id: Option<Seq<char>>, sp_dc: Seq<char>)
    ensures
        source == LyricsSource::Lrclib ==> plan_for(source, id, sp_dc) == Ok::<
            PlanModel,
            OfficialFault,
        >(PlanModel::Lrclib),
        source == LyricsSource::SpotifyOfficial ==> {
            &&& plan_for(source, id, sp_dc) is Ok <==> (id is Some && crate::text::trim(
                sp_dc,
            ).len() > 0)
            &&& plan_for(source, id, sp_dc) matches Ok(plan) ==> plan
                == (PlanModel::Official {
                track_id: id->0,
                cookie: "sp_dc="@ + crate::text::trim(sp_dc),
            })
        },
{
}

/// Where the lyrics of a track are fetched from.
pub fn fetch_plan(source: LyricsSource, track: &TrackInfo, sp_dc: &str) -> (r: Result<
    FetchPlan,
    OfficialError,
>)
    ensures
        match r {
            Ok(plan) => plan_for(source, crate::spotify::spotify_id(track@), sp_dc@) == Ok::<
                PlanModel,
                OfficialFault,
            >(plan@),
            Err(e) => plan_for(source, crate::spotify::spotify_id(track@), sp_dc@) == Err::<
                PlanModel,
                OfficialFault,
            >(e@),
        },
{
    match source {
        LyricsSource::Lrclib => Ok(FetchPlan::Lrclib),
        LyricsSource::SpotifyOfficial => match build_request(track, sp_dc) {
            Ok(request) => Ok(FetchPlan::Official(request)),
            Err(e) => Err(e),
        },
    }
}

/// What a fetch was for.
#[derive(Debug, Clone, Copy, PartialEq, Eq, Structural)]
pub enum FetchKind {
    /// The lyrics of a track, from a source.
    Primary(LyricsSource),
    /// More candidates.
    Search,
}

/// The name of a fetch.
pub open spec fn fetch_name(kind: FetchKind) -> Seq<char> {
    match kind {
        FetchKind::Primary(source) => crate::storage::source_name(source),
        FetchKind::Search => "search"@,
    }
}

impl FetchKind {
    /// The name of the fetch.
    pub fn name(self) -> (r: &'static str)
        ensures
            r@ == fetch_name(self),
    {
        match self {
            FetchKind::Primary(source) => source.as_str(),
            FetchKind::Search => "search",
        }
    }
}

/// What a fetch reports back. It carries the round in which it was begun and
/// the key of its track.
#[derive(Debug)]
pub enum WorkerMsg {
    BestFetched {
        fetch_generation: u64,
        track_key: String,
        track: TrackInfo,
        candidate: LyricsCandidate,
    },
    SearchFetched { fetch_generation: u64, track_key: String, candidates: Vec<LyricsCandidate> },
    Failed { fetch_generation: u64, track_key: String, source: FetchKind, error: String },
}

/// What a `WorkerMsg` stands for.
#[verifier::ext_equal]
pub enum MessageModel {
    Best {
        fetch_generation: u64,
        track_key: Seq<char>,
        track: crate::spotify::TrackModel,
        candidate: crate::lyrics::CandidateModel,
    },
    Found {
        fetch_generation: u64,
        track_key: Seq<char>,
        candidates: Seq<crate::lyrics::CandidateModel>,
    },
    Failure { fetch_generation: u64, track_key: Seq<char>, source: FetchKind, error: Seq<char> },
}

impl View for WorkerMsg {
    type V = MessageModel;

    open spec fn view(&self) -> MessageModel {
        match self {
            WorkerMsg::BestFetched { fetch_generation, track_key, track, candidate } =>
                MessageModel::Best {
                    fetch_generation: *fetch_generation,
                    track_key: track_key@,
                    track: track@,
                    candidate: candidate@,
                },
            WorkerMsg::SearchFetched { fetch_generation, track_key, candidates } =>
                MessageModel::Found {
                    fetch_generation: *fetch_generation,
                    track_key: track_key@,
                    candidates: candidates.deep_view(),
                },
            WorkerMsg::Failed { fetch_generation, track_key, source, error } =>
                MessageModel::Failure {
                    fetch_generation: *fetch_generation,
                    track_key: track_key@,
                    source: *source,
                    error: error@,
                },
        }
    }
}

impl MessageModel {
    /// Whether the message is about the current track and round of fetches.
    pub open spec fn is_fresh(self, m: StateModel) -> bool {
        match self {
            MessageModel::Best { fetch_generation, track_key, .. } => crate::state::is_fresh(
                m,
                fetch_generation,
                track_key,
            ),
            MessageModel::Found { fetch_generation, track_key, .. } => crate::state::is_fresh(
                m,
                fetch_generation,
                track_key,
            ),
            MessageModel::Failure { fetch_generation, track_key, .. } => crate::state::is_fresh(
                m,
                fetch_generation,
                track_key,
            ),
        }
    }
}

/// What follows from a message.
#[derive(Debug)]
pub enum Received {
    /// Nothing: the message is stale.
    Ignored,
    /// Lyrics are shown, and are to be kept.
    Shown,
    /// The candidates of a search are offered.
    Listed,
    /// The text is shown.
    Failed(String),
}

/// What a `Received` stands for.
#[verifier::ext_equal]
pub enum ReceivedModel {
    Ignored,
    Shown,
    Listed,
    Failed(Seq<char>),
}

impl View for Received {
    type V = ReceivedModel;

    open spec fn view(&self) -> ReceivedModel {
        match self {
            Received::Ignored => ReceivedModel::Ignored,
            Received::Shown => ReceivedModel::Shown,
            Received::Listed => ReceivedModel::Listed,
            Received::Failed(text) => ReceivedModel::Failed(text@),
        }
    }
}

/// The text for a fetch that failed.
pub open spec fn fetch_failure(source: FetchKind, error: Seq<char>) -> Seq<char> {
    "State: "@ + fetch_name(source) + " lyrics fetch failed: "@ + error
}

/// The state after a message, and what follows from it.
pub open spec fn received(m: StateModel, source: LyricsSource, message: MessageModel) -> (
    StateModel,
    ReceivedModel,
) {
    if !message.is_fresh(m) {
        (m, ReceivedModel::Ignored)
    } else {
        match message {
            MessageModel::Best { track_key, track, candidate, .. } => (
                crate::state::applied(m, source, track, track_key, seq![candidate], None, true),
                ReceivedModel::Shown,
            ),
            MessageModel::Found { track_key, candidates, .. } => match m.current_track {
                Some(track) => (
                    crate::state::applied(m, source, track, track_key, candidates, None, false),
                    ReceivedModel::Listed,
                ),
                None => (m, ReceivedModel::Ignored),
            },
            MessageModel::Failure { source: kind, error, .. } => (
                if kind == FetchKind::Search {
                    StateModel { loading_search: None, ..m }
                } else {
                    StateModel { loading_best: None, ..m }
                },
                ReceivedModel::Failed(fetch_failure(kind, error)),
            ),
        }
    }
}

/// A stale message changes nothing.
pub proof fn law_stale_message_changes_nothing(
    m: StateModel,
    source: LyricsSource,
    message: MessageModel,
)
    requires
        !message.is_fresh(m),
    ensures
        received(m, source, message) == (m, ReceivedModel::Ignored),
{
}

/// A message keeps a state well formed.
pub proof fn law_messages_keep_state_well_formed(
    m: StateModel,
    source: LyricsSource,
    message: MessageModel,
)
    requires
        m.wf(),
    ensures
        received(m, source, message).0.wf(),
{
    match message {
        MessageModel::Best { track_key, track, candidate, .. } => {
            crate::state::law_steps_keep_state_well_formed(
                m,
                source,
                track,
                track_key,
                seq![candidate],
                None,
                true,
                0,
                0,
            );
        },
        MessageModel::Found { track_key, candidates, .. } => {
            match m.current_track {
                Some(track) => {
                    crate::state::law_steps_keep_state_well_formed(
                        m,
                        source,
                        track,
                        track_key,
                        candidates,
                        None,
                        false,
                        0,
                        0,
                    );
                },
                None => {},
            }
        },
        MessageModel::Failure { .. } => {},
    }
}

/// What a fetch for the current track brings, in the round in which it was
/// begun, is shown.
pub proof fn law_fetched_lyrics_are_shown(
    m: StateModel,
    source: LyricsSource,
    track: crate::spotify::TrackModel,
    candidate: crate::lyrics::CandidateModel,
)
    requires
        m.current_track_key == Some(crate::state::active_key(source, track)),
    ensures
        ({
            let key = crate::state::active_key(source, track);
            let begun = StateModel { loading_best: Some(key), ..m };
            let (after, what) = received(
                begun,
                source,
                MessageModel::Best {
                    fetch_generation: begun.fetch_generation,
                    track_key: key,
                    track,
                    candidate,
                },
            );
            &&& what == ReceivedModel::Shown
            &&& after.selected_candidate_id == Some(candidate.id)
            &&& after.selected_lyrics == Some(crate::lyrics::parsed(candidate))
            &&& after.current_candidates == seq![candidate]
            &&& after.loading_best is None
        }),
{
}

/// The results of a search never replace the lyrics that are shown.
pub proof fn law_search_keeps_shown_lyrics(
    m: StateModel,
    source: LyricsSource,
    generation: u64,
    key: Seq<char>,
    candidates: Seq<crate::lyrics::CandidateModel>,
)
    ensures
        ({
            let after = received(
                m,
                source,
                MessageModel::Found { fetch_generation: generation, track_key: key, candidates },
            ).0;
            &&& after.selected_lyrics == m.selected_lyrics
            &&& after.selected_candidate_id == m.selected_candidate_id
            &&& after.current_line_index == m.current_line_index
        }),
{
}

/// A fetch that ended, well or not, is no longer being waited for.
pub proof fn law_ended_fetch_is_not_awaited(
    m: StateModel,
    source: LyricsSource,
    message: MessageModel,
)
    requires
        m.wf(),
        message.is_fresh(m),
    ensures
        match message {
            MessageModel::Best { .. } => received(m, source, message).0.loading_best is None,
            MessageModel::Found { .. } => received(m, source, message).0.loading_search is None,
            MessageModel::Failure { source: kind, .. } => if kind == FetchKind::Search {
                received(m, source, message).0.loading_search is None
            } else {
                received(m, source, message).0.loading_best is None
            },
        },
{
}

/// What the change of lyrics shows when it is opened.
#[derive(Debug)]
pub enum ChangeStep {
    /// Nothing: no track is current.
    Nothing,
    /// The candidates that are there.
    ShowRows,
    /// A search for the track with the given key.
    Search(String),
}

/// What a `ChangeStep` stands for.
#[verifier::ext_equal]
pub enum ChangeStepModel {
    Nothing,
    ShowRows,
    Search(Seq<char>),
}

impl View for ChangeStep {
    type V = ChangeStepModel;

    open spec fn view(&self) -> ChangeStepModel {
        match self {
            ChangeStep::Nothing => ChangeStepModel::Nothing,
            ChangeStep::ShowRows => ChangeStepModel::ShowRows,
            ChangeStep::Search(key) => ChangeStepModel::Search(key@),
        }
    }
}

/// What the change of lyrics shows: LRCLIB is searched where at most one
/// candidate is there and no search is under way. `key` is the key of the
/// current track.
pub open spec fn change_step(
    m: StateModel,
    source: LyricsSource,
    key: Option<Seq<char>>,
) -> ChangeStepModel {
    match key {
        None => ChangeStepModel::Nothing,
        Some(k) => if source == LyricsSource::SpotifyOfficial {
            ChangeStepModel::ShowRows
        } else if m.current_candidates.len() <= 1 && m.loading_search != Some(k) {
            ChangeStepModel::Search(k)
        } else {
            ChangeStepModel::ShowRows
        },
    }
}

/// What a fetch of a track's lyrics reports back.
pub fn primary_message(
    fetch_generation: u64,
    track_key: String,
    track: TrackInfo,
    source: LyricsSource,
    result: Result<LyricsCandidate, String>,
) -> (r: WorkerMsg)
    ensures
        r@ == match result {
            Ok(candidate) => MessageModel::Best {
                fetch_generation,
                track_key: track_key@,
                track: track@,
                candidate: candidate@,
            },
            Err(error) => MessageModel::Failure {
                fetch_generation,
                track_key: track_key@,
                source: FetchKind::Primary(source),
                error: error@,
            },
        },
{
    match result {
        Ok(candidate) => WorkerMsg::BestFetched { fetch_generation, track_key, track, candidate },
        Err(error) => WorkerMsg::Failed {
            fetch_generation,
            track_key,
            source: FetchKind::Primary(source),
            error,
        },
    }
}

/// What a search reports back.
pub fn search_message(
    fetch_generation: u64,
    track_key: String,
    result: Result<Vec<LyricsCandidate>, String>,
) -> (r: WorkerMsg)
    ensures
        r@ == match result {
            Ok(candidates) => MessageModel::Found {
                fetch_generation,
                track_key: track_key@,
                candidates: candidates.deep_view(),
            },
            Err(error) => MessageModel::Failure {
                fetch_generation,
                track_key: track_key@,
                source: FetchKind::Search,
                error: error@,
            },
        },
{
    match result {
        Ok(candidates) => WorkerMsg::SearchFetched { fetch_generation, track_key, candidates },
        Err(error) => WorkerMsg::Failed {
            fetch_generation,
            track_key,
            source: FetchKind::Search,
            error,
        },
    }
}

/// The state after a fetch for a track is begun, and its round; nothing where
/// one is under way.
pub open spec fn begun_fetch(m: StateModel, key: Seq<char>) -> (StateModel, Option<u64>) {
    if m.loading_best == Some(key) {
        (m, None)
    } else {
        (StateModel { loading_best: Some(key), ..m }, Some(m.fetch_generation))
    }
}

/// The state after a search for a track is begun, and its round; nothing where
/// one is under way.
pub open spec fn begun_search(m: StateModel, key: Seq<char>) -> (StateModel, Option<u64>) {
    if m.loading_search == Some(key) {
        (m, None)
    } else {
        (StateModel { loading_search: Some(key), ..m }, Some(m.fetch_generation))
    }
}

impl RuntimeState {
    /// Begins a fetch for a track, and gives its round; nothing where one is
    /// under way.
    pub fn begin_primary_fetch(&mut self, key: &str) -> (r: Option<u64>)
        ensures
            (final(self)@, r) == begun_fetch(old(self)@, key@),
            old(self)@.loading_best == Some(key@) ==> final(self)@ == old(self)@ && r is None,
            old(self)@.loading_best != Some(key@) ==> {
                &&& final(self)@ == (StateModel { loading_best: Some(key@), ..old(self)@ })
                &&& r == Some(old(self)@.fetch_generation)
            },
    {
        if is_text(&self.loading_best, key) {
            return None;
        }
        self.loading_best = Some(key.to_owned());
        Some(self.fetch_generation)
    }

    /// Begins a search for a track, and gives its round; nothing where one is
    /// under way.
    pub fn begin_search_fetch(&mut self, key: &str) -> (r: Option<u64>)
        ensures
            (final(self)@, r) == begun_search(old(self)@, key@),
            old(self)@.loading_search == Some(key@) ==> final(self)@ == old(self)@ && r is None,
            old(self)@.loading_search != Some(key@) ==> {
                &&& final(self)@ == (StateModel { loading_search: Some(key@), ..old(self)@ })
                &&& r == Some(old(self)@.fetch_generation)
            },
    {
        if is_text(&self.loading_search, key) {
            return None;
        }
        self.loading_search = Some(key.to_owned());
        Some(self.fetch_generation)
    }

    /// Whether a message of a fetch is about the current track and the current
    /// round of fetches.
    pub fn accepts(&self, fetch_generation: u64, track_key: &str) -> (r: bool)
        ensures
            r == crate::state::is_fresh(self@, fetch_generation, track_key@),
    {
        is_text(&self.current_track_key, track_key) && self.fetch_generation == fetch_generation
    }

    /// Takes the message of a fetch in.
    pub fn receive(&mut self, source: LyricsSource, message: WorkerMsg) -> (r: Received)
        requires
            message@.is_fresh(old(self)@) && message@ is Best ==> crate::lyrics::candidate_fits(
                message@->candidate,
            ),
        ensures
            (final(self)@, r@) == received(old(self)@, source, message@),
    {
        match message {
            WorkerMsg::BestFetched { fetch_generation, track_key, track, candidate } => {
                if !self.accepts(fetch_generation, track_key.as_str()) {
                    return Received::Ignored;
                }
                let mut candidates: Vec<LyricsCandidate> = Vec::new();
                let ghost c = candidate@;
                candidates.push(candidate);
                assert(candidates.deep_view() =~= seq![c]);
                self.apply_candidates(source, track, track_key, candidates, None, true);
                Received::Shown
            },
            WorkerMsg::SearchFetched { fetch_generation, track_key, candidates } => {
                if !self.accepts(fetch_generation, track_key.as_str()) {
                    return Received::Ignored;
                }
                let current: Option<TrackInfo> = match &self.current_track {
                    Some(track) => Some(track.clone()),
                    None => None,
                };
                match current {
                    Some(track) => {
                        self.apply_candidates(source, track, track_key, candidates, None, false);
                        Received::Listed
                    },
                    None => Received::Ignored,
                }
            },
            WorkerMsg::Failed { fetch_generation, track_key, source: kind, error } => {
                if !self.accepts(fetch_generation, track_key.as_str()) {
                    return Received::Ignored;
                }
                if kind == FetchKind::Search {
                    self.loading_search = None;
                } else {
                    self.loading_best = None;
                }
                let mut text = "State: ".to_owned();
                text.append(kind.name());
                text.append(" lyrics fetch failed: ");
                text.append(error.as_str());
                Received::Failed(text)
            },
        }
    }

    /// What the change of lyrics shows; `key` is the key of the current track.
    pub fn change_step_for(&self, source: LyricsSource, key: Option<String>) -> (r: ChangeStep)
        ensures
            r@ == change_step(self@, source, key.deep_view()),
    {
        assert(self@.current_candidates.len() == self.current_candidates@.len());
        match key {
            None => ChangeStep::Nothing,
            Some(k) => {
                if source == LyricsSource::SpotifyOfficial {
                    ChangeStep::ShowRows
                } else if self.current_candidates.len() <= 1 && !is_text(
                    &self.loading_search,
                    k.as_str(),
                ) {
                    ChangeStep::Search(k)
                } else {
                    ChangeStep::ShowRows
                }
            },
        }
    }

    /// What the change of lyrics shows when it is opened.
    pub fn open_change(&self, source: LyricsSource) -> (r: ChangeStep)
        ensures
            r@ == change_step(self@, source, crate::state::current_active_key(self@, source)),
    {
        let key: Option<String> = match &self.current_track {
            Some(track) => Some(active_lyrics_key(source, track)),
            None => None,
        };
        self.change_step_for(source, key)
    }
}

} // verus!
