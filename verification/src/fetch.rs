//! The pagination walk that collects every live stream of one category.
//!
//! Upstream traffic is asynchronous I/O and stays outside the library; here
//! the walk is a state machine. [`Fetcher::current_action`] names the request
//! that is due next, the surrounding binary performs it and hands the outcome
//! back through [`Fetcher::step`]. The machine refreshes the token first when
//! it is expired, then requests page after page, following the cursor of each
//! response, and either finishes with every entry in upstream order or aborts
//! on the first failure with no partial result.

use vstd::prelude::*;

use crate::twitch::{
    spec_effective_expiry, spec_game_id, AuthResponse, Category, Client, ClientModel, FetchError,
    Pagination, Response, Stream,
};

verus! {

/// What the state machine asks the surrounding binary to do next.
pub enum FetchAction {
    /// Post to the token endpoint with these credentials.
    GetToken { client_id: String, client_secret: String },
    /// Get one listing page for this category identifier, starting at the
    /// cursor if one is present.
    GetPage { game_id: String, after: Option<String> },
}

/// The outcome of one performed action, handed back into the machine.
pub enum FetchEvent {
    /// The token endpoint answered successfully at time `now` (Unix seconds).
    TokenOk { auth: AuthResponse, now: i64 },
    /// The token endpoint was unreachable or rejected the credentials.
    TokenError,
    /// The token endpoint answered with a body of an unexpected shape.
    TokenMalformed,
    /// The listing endpoint answered one page successfully.
    PageOk { page: Response<Stream> },
    /// The listing endpoint returned a non-success status.
    PageError,
    /// The listing endpoint answered with a body of an unexpected shape.
    PageMalformed,
}

/// Where the walk stands.
pub enum FetchState {
    /// The cached token is expired; a fresh one must be fetched first.
    RefreshToken,
    /// Pages are being collected; `after` is the cursor of the next request.
    FetchPage { collected: Vec<Stream>, after: Option<String> },
    /// All pages are exhausted; `streams` holds every entry in upstream order.
    Done { streams: Vec<Stream> },
    /// Some request failed; the whole operation is aborted.
    Failed { error: FetchError },
}

/// Spec-level mirror of [`FetchState`].
#[verifier::ext_equal]
pub enum StateModel {
    RefreshToken,
    FetchPage { collected: Seq<Stream>, after: Option<Seq<char>> },
    Done { streams: Seq<Stream> },
    Failed { error: FetchError },
}

/// Spec-level mirror of [`FetchEvent`].
#[verifier::ext_equal]
pub enum EventModel {
    TokenOk { access_token: Seq<char>, expires_in: int, now: int },
    TokenError,
    TokenMalformed,
    PageOk { data: Seq<Stream>, cursor: Option<Seq<char>> },
    PageError,
    PageMalformed,
}

/// The pagination cursor of one listing response, if any.
pub open spec fn spec_cursor(r: Response<Stream>) -> Option<Seq<char>> {
    match r.pagination {
        Some(p) => match p.cursor {
            Some(c) => Some(c@),
            None => None,
        },
        None => None,
    }
}

pub open spec fn opt_string_view(o: Option<String>) -> Option<Seq<char>> {
    match o {
        Some(s) => Some(s@),
        None => None,
    }
}

impl View for FetchState {
    type V = StateModel;

    open spec fn view(&self) -> StateModel {
        match self {
            FetchState::RefreshToken => StateModel::RefreshToken,
            FetchState::FetchPage { collected, after } => StateModel::FetchPage {
                collected: collected@,
                after: opt_string_view(*after),
            },
            FetchState::Done { streams } => StateModel::Done { streams: streams@ },
            FetchState::Failed { error } => StateModel::Failed { error: *error },
        }
    }
}

impl View for FetchEvent {
    type V = EventModel;

    open spec fn view(&self) -> EventModel {
        match self {
            FetchEvent::TokenOk { auth, now } => EventModel::TokenOk {
                access_token: auth.access_token@,
                expires_in: auth.expires_in as int,
                now: *now as int,
            },
            FetchEvent::TokenError => EventModel::TokenError,
            FetchEvent::TokenMalformed => EventModel::TokenMalformed,
            FetchEvent::PageOk { page } => EventModel::PageOk {
                data: page.data@,
                cursor: spec_cursor(*page),
            },
            FetchEvent::PageError => EventModel::PageError,
            FetchEvent::PageMalformed => EventModel::PageMalformed,
        }
    }
}

/// One transition of the walk. A token event is only meaningful while the
/// token is being refreshed and a page event only while pages are being
/// collected; any other event leaves the state unchanged. `Done` and
/// `Failed` absorb every event.
pub open spec fn next_state(s: StateModel, e: EventModel) -> StateModel {
    match s {
        StateModel::RefreshToken => match e {
            EventModel::TokenOk { .. } => StateModel::FetchPage {
                collected: Seq::empty(),
                after: None,
            },
            EventModel::TokenError => StateModel::Failed { error: FetchError::UpstreamAuth },
            EventModel::TokenMalformed => StateModel::Failed {
                error: FetchError::MalformedResponse,
            },
            _ => s,
        },
        StateModel::FetchPage { collected, after } => match e {
            EventModel::PageOk { data, cursor } => match cursor {
                Some(c) => StateModel::FetchPage { collected: collected + data, after: Some(c) },
                None => StateModel::Done { streams: collected + data },
            },
            EventModel::PageError => StateModel::Failed { error: FetchError::UpstreamFetch },
            EventModel::PageMalformed => StateModel::Failed {
                error: FetchError::MalformedResponse,
            },
            _ => s,
        },
        StateModel::Done { .. } => s,
        StateModel::Failed { .. } => s,
    }
}

/// How the client changes with one event: a successful token response while
/// refreshing replaces the cached token and its expiry; nothing else touches
/// the client.
pub open spec fn next_client(c: ClientModel, s: StateModel, e: EventModel) -> ClientModel {
    match (s, e) {
        (
            StateModel::RefreshToken,
            EventModel::TokenOk { access_token, expires_in, now },
        ) => ClientModel {
            client_id: c.client_id,
            client_secret: c.client_secret,
            token: access_token,
            expires_at: spec_effective_expiry(now, expires_in),
        },
        _ => c,
    }
}

/// The state after consuming a whole sequence of events, first to last.
pub open spec fn run(s: StateModel, es: Seq<EventModel>) -> StateModel
    decreases es.len(),
{
    if es.len() == 0 {
        s
    } else {
        run(next_state(s, es[0]), es.drop_first())
    }
}

/// The entries of all successful page events, concatenated in event order.
pub open spec fn page_data_concat(es: Seq<EventModel>) -> Seq<Stream>
    decreases es.len(),
{
    if es.len() == 0 {
        Seq::empty()
    } else {
        (match es[0] {
            EventModel::PageOk { data, .. } => data,
            _ => Seq::empty(),
        }) + page_data_concat(es.drop_first())
    }
}

/// The walk of one category: the machine plus the category identifier its
/// page requests carry.
pub struct Fetcher {
    pub game_id: String,
    pub state: FetchState,
}

impl Fetcher {
    /// Begins a fetch of every live stream of `category` at time `now`. The
    /// token freshness gate comes first: an expired token sends the machine
    /// through a refresh before the first page request.
    pub fn start(client: &Client, category: Category, now: i64) -> (f: Fetcher)
        ensures
            f.game_id@ == spec_game_id(category),
            now >= client.expires_at ==> f.state@ == StateModel::RefreshToken,
            now < client.expires_at ==> f.state@ == (StateModel::FetchPage {
                collected: Seq::empty(),
                after: None,
            }),
    {
        let state = if client.is_expired(now) {
            FetchState::RefreshToken
        } else {
            FetchState::FetchPage { collected: Vec::new(), after: None }
        };
        Fetcher { game_id: String::from_str(category.game_id()), state }
    }

    /// The request that is due next, or `None` once the walk has finished.
    /// Every page request asks for the maximum page size.
    pub fn current_action(&self, client: &Client) -> (a: Option<FetchAction>)
        ensures
            match self.state@ {
                StateModel::RefreshToken => (a matches Some(
                    FetchAction::GetToken { client_id, client_secret },
                ) && client_id@ == client@.client_id && client_secret@ == client@.client_secret),
                StateModel::FetchPage { after, .. } => (a matches Some(
                    FetchAction::GetPage { game_id, after: cursor },
                ) && game_id@ == self.game_id@ && opt_string_view(cursor) == after),
                StateModel::Done { .. } => a is None,
                StateModel::Failed { .. } => a is None,
            },
    {
        match &self.state {
            FetchState::RefreshToken => Some(FetchAction::GetToken {
                client_id: client.client_id.clone(),
                client_secret: client.client_secret.clone(),
            }),
            FetchState::FetchPage { after, .. } => Some(FetchAction::GetPage {
                game_id: self.game_id.clone(),
                after: match after {
                    Some(c) => Some(c.clone()),
                    None => None,
                },
            }),
            FetchState::Done { .. } => None,
            FetchState::Failed { .. } => None,
        }
    }

    /// Consumes one event: the machine moves as [`next_state`] says and the
    /// client changes as [`next_client`] says.
    pub fn step(self, client: &mut Client, event: FetchEvent) -> (next: Fetcher)
        ensures
            next.game_id == self.game_id,
            next.state@ == next_state(self.state@, event@),
            final(client)@ == next_client(old(client)@, self.state@, event@),
    {
        let Fetcher { game_id, state } = self;
        let next_state = match state {
            FetchState::RefreshToken => match event {
                FetchEvent::TokenOk { auth, now } => {
                    client.apply_token(auth, now);
                    FetchState::FetchPage { collected: Vec::new(), after: None }
                },
                FetchEvent::TokenError => FetchState::Failed { error: FetchError::UpstreamAuth },
                FetchEvent::TokenMalformed => FetchState::Failed {
                    error: FetchError::MalformedResponse,
                },
                _ => FetchState::RefreshToken,
            },
            FetchState::FetchPage { collected, after } => match event {
                FetchEvent::PageOk { page } => {
                    let Response { data, pagination } = page;
                    let mut collected = collected;
                    let mut data = data;
                    collected.append(&mut data);
                    match pagination {
                        Some(Pagination { cursor: Some(c) }) => FetchState::FetchPage {
                            collected,
                            after: Some(c),
                        },
                        _ => FetchState::Done { streams: collected },
                    }
                },
                FetchEvent::PageError => FetchState::Failed { error: FetchError::UpstreamFetch },
                FetchEvent::PageMalformed => FetchState::Failed {
                    error: FetchError::MalformedResponse,
                },
                _ => FetchState::FetchPage { collected, after },
            },
            FetchState::Done { streams } => FetchState::Done { streams },
            FetchState::Failed { error } => FetchState::Failed { error },
        };
        Fetcher { game_id, state: next_state }
    }

    /// Whether the walk has reached `Done` or `Failed`.
    pub fn finished(&self) -> (r: bool)
        ensures
            r == (self.state@ is Done || self.state@ is Failed),
    {
        match &self.state {
            FetchState::Done { .. } => true,
            FetchState::Failed { .. } => true,
            _ => false,
        }
    }

    /// The outcome of a finished walk: the complete entry list in upstream
    /// order, or the error that aborted it — never a partial list.
    pub fn into_result(self) -> (r: Result<Vec<Stream>, FetchError>)
        requires
            self.state@ is Done || self.state@ is Failed,
        ensures
            match self.state@ {
                StateModel::Done { streams } => (r matches Ok(v) && v@ == streams),
                StateModel::Failed { error } => r == Err::<Vec<Stream>, FetchError>(error),
                _ => false,
            },
    {
        match self.state {
            FetchState::Done { streams } => Ok(streams),
            FetchState::Failed { error } => Err(error),
            _ => Err(FetchError::UpstreamFetch),
        }
    }
}

/// A finished walk stays finished: further events change nothing.
pub proof fn lemma_terminal_state_absorbs(s: StateModel, es: Seq<EventModel>)
    requires
        s is Done || s is Failed,
    ensures
        run(s, es) == s,
    decreases es.len(),
{
    if es.len() > 0 {
        lemma_terminal_state_absorbs(s, es.drop_first());
    }
}

/// Complete pagination: when every response is a successful page, each one
/// but the last carries a cursor and the last carries none, the walk ends in
/// `Done` holding what was already collected followed by every page's
/// entries, in event order.
pub proof fn lemma_pagination_collects_all(
    collected: Seq<Stream>,
    after: Option<Seq<char>>,
    es: Seq<EventModel>,
)
    requires
        es.len() > 0,
        forall|i: int| 0 <= i < es.len() ==> (#[trigger] es[i]) matches EventModel::PageOk { .. },
        forall|i: int|
            0 <= i < es.len() - 1 ==> (#[trigger] es[i]) matches EventModel::PageOk {
                cursor: Some(_),
                ..
            },
        es[es.len() - 1] matches EventModel::PageOk { cursor: None, .. },
    ensures
        run(StateModel::FetchPage { collected, after }, es) == (StateModel::Done {
            streams: collected + page_data_concat(es),
        }),
    decreases es.len(),
{
    let s = StateModel::FetchPage { collected, after };
    if es.len() == 1 {
        let data = es[0]->PageOk_data;
        assert(next_state(s, es[0]) == StateModel::Done { streams: collected + data });
        assert(run(next_state(s, es[0]), es.drop_first()) == next_state(s, es[0]));
        assert(page_data_concat(es.drop_first()) == Seq::<Stream>::empty());
        assert(collected + page_data_concat(es) =~= collected + data);
    } else {
        let data = es[0]->PageOk_data;
        let cursor = es[0]->PageOk_cursor;
        assert(es[0] matches EventModel::PageOk { cursor: Some(_), .. });
        let rest = es.drop_first();
        assert(forall|i: int|
            0 <= i < rest.len() ==> (#[trigger] rest[i]) matches EventModel::PageOk { .. });
        assert(forall|i: int|
            0 <= i < rest.len() - 1 ==> (#[trigger] rest[i]) matches EventModel::PageOk {
                cursor: Some(_),
                ..
            });
        assert(rest[rest.len() - 1] matches EventModel::PageOk { cursor: None, .. });
        lemma_pagination_collects_all(collected + data, Some(cursor->0), rest);
        assert(collected + data + page_data_concat(rest) =~= collected + page_data_concat(es));
    }
}

/// Abort on error: while pages are still arriving successfully with cursors,
/// the first non-success page response fails the whole walk with
/// `UpstreamFetch`, whatever comes afterwards — no partial result survives.
pub proof fn lemma_fetch_aborts_on_error(
    collected: Seq<Stream>,
    after: Option<Seq<char>>,
    es: Seq<EventModel>,
    k: int,
)
    requires
        0 <= k < es.len(),
        forall|i: int|
            0 <= i < k ==> (#[trigger] es[i]) matches EventModel::PageOk { cursor: Some(_), .. },
        es[k] is PageError,
    ensures
        run(StateModel::FetchPage { collected, after }, es) == (StateModel::Failed {
            error: FetchError::UpstreamFetch,
        }),
    decreases k,
{
    let s = StateModel::FetchPage { collected, after };
    if k == 0 {
        assert(next_state(s, es[0]) == StateModel::Failed { error: FetchError::UpstreamFetch });
        lemma_terminal_state_absorbs(next_state(s, es[0]), es.drop_first());
    } else {
        let data = es[0]->PageOk_data;
        let cursor = es[0]->PageOk_cursor;
        let rest = es.drop_first();
        assert(forall|i: int|
            0 <= i < k - 1 ==> (#[trigger] rest[i]) matches EventModel::PageOk {
                cursor: Some(_),
                ..
            });
        assert(rest[k - 1] is PageError);
        lemma_fetch_aborts_on_error(collected + data, Some(cursor->0), rest, k - 1);
    }
}

/// A walk that starts with an expired token first consumes a successful
/// refresh and then collects the pages exactly as a walk with a fresh token
/// would: every entry, in event order.
pub proof fn lemma_refresh_then_collect(e0: EventModel, es: Seq<EventModel>)
    requires
        e0 is TokenOk,
        es.len() > 0,
        forall|i: int| 0 <= i < es.len() ==> (#[trigger] es[i]) matches EventModel::PageOk { .. },
        forall|i: int|
            0 <= i < es.len() - 1 ==> (#[trigger] es[i]) matches EventModel::PageOk {
                cursor: Some(_),
                ..
            },
        es[es.len() - 1] matches EventModel::PageOk { cursor: None, .. },
    ensures
        run(StateModel::RefreshToken, seq![e0] + es) == (StateModel::Done {
            streams: page_data_concat(es),
        }),
{
    let all = seq![e0] + es;
    assert(all[0] == e0);
    assert(all.drop_first() =~= es);
    lemma_pagination_collects_all(Seq::empty(), None, es);
    assert(Seq::<Stream>::empty() + page_data_concat(es) =~= page_data_concat(es));
}

/// A failure of the token refresh aborts the whole walk with the
/// authentication error, whatever would have come afterwards.
pub proof fn lemma_auth_failure_aborts(es: Seq<EventModel>)
    ensures
        run(StateModel::RefreshToken, seq![EventModel::TokenError] + es) == (StateModel::Failed {
            error: FetchError::UpstreamAuth,
        }),
{
    let all = seq![EventModel::TokenError] + es;
    assert(all[0] == EventModel::TokenError);
    assert(all.drop_first() =~= es);
    lemma_terminal_state_absorbs(StateModel::Failed { error: FetchError::UpstreamAuth }, es);
}

/// Idempotence: the walk is a function of the event sequence alone, so two
/// walks over identical upstream answers end in identical states — same
/// entries, same order.
pub proof fn lemma_fetch_idempotent(s: StateModel, es1: Seq<EventModel>, es2: Seq<EventModel>)
    requires
        es1 == es2,
    ensures
        run(s, es1) == run(s, es2),
{
}

} // verus!
