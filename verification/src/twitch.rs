//! Domain types of the upstream streaming platform, together with the
//! client-credentials token bookkeeping: how a token's effective expiry is
//! computed and when a cached token counts as expired.

use vstd::prelude::*;

verus! {

/// Number of seconds in one day, the safety margin subtracted from the
/// server-declared token lifetime.
pub const SECONDS_PER_DAY: i64 = 86400;

/// Maximum number of entries a single listing page may carry; every page
/// request asks for this many.
pub const PAGE_SIZE: u64 = 100;

/// One live stream as the listing endpoint reports it.
#[derive(Debug, Clone, PartialEq)]
pub struct Stream {
    pub id: String,
    pub user_id: String,
    pub user_name: String,
    pub game_id: String,
    pub ty: Option<String>,
    pub title: String,
    pub viewer_count: u64,
    /// Start of the broadcast as a Unix timestamp in seconds, if reported.
    pub started_at: Option<i64>,
    pub language: String,
    pub thumbnail_url: String,
}

/// Body of a successful token-endpoint response: the bearer token and its
/// lifetime in seconds.
#[derive(Debug, Clone)]
pub struct AuthResponse {
    pub access_token: String,
    pub expires_in: i64,
}

/// Body of a successful listing-endpoint response: one page of entries and,
/// if more pages exist, a cursor.
#[derive(Debug)]
pub struct Response<T> {
    pub data: Vec<T>,
    pub pagination: Option<Pagination>,
}

#[derive(Debug)]
pub struct Pagination {
    pub cursor: Option<String>,
}

/// The closed set of content categories, each mapped to a fixed upstream
/// identifier.
#[derive(Copy, Clone, Debug, PartialEq, Eq, Structural)]
pub enum Category {
    Art,
    BeautyAndBodyArt,
    FoodAndDrink,
    JustChatting,
    MakersAndCrafting,
    Music,
    Retro,
    ScienceAndTechnology,
    SoftwareAndGameDevelopment,
    TalkShowsAndPodcasts,
}

/// The upstream identifier of a category, as a sequence of characters.
pub open spec fn spec_game_id(c: Category) -> Seq<char> {
    match c {
        Category::Art => "509660"@,
        Category::BeautyAndBodyArt => "509669"@,
        Category::FoodAndDrink => "509667"@,
        Category::JustChatting => "509658"@,
        Category::MakersAndCrafting => "509673"@,
        Category::Music => "26936"@,
        Category::Retro => "27284"@,
        Category::ScienceAndTechnology => "509670"@,
        Category::SoftwareAndGameDevelopment => "1469308723"@,
        Category::TalkShowsAndPodcasts => "417752"@,
    }
}

/// The human-readable name of a category.
pub open spec fn spec_category_name(c: Category) -> Seq<char> {
    match c {
        Category::Art => "Art"@,
        Category::BeautyAndBodyArt => "Beauty & Body Art"@,
        Category::FoodAndDrink => "Food & Drink"@,
        Category::JustChatting => "Just Chatting"@,
        Category::MakersAndCrafting => "Makers & Crafting"@,
        Category::Music => "Music"@,
        Category::Retro => "Retro"@,
        Category::ScienceAndTechnology => "Science & Technology"@,
        Category::SoftwareAndGameDevelopment => "Software and Game Development"@,
        Category::TalkShowsAndPodcasts => "Talk Shows & Podcasts"@,
    }
}

impl Category {
    /// The fixed upstream identifier used in listing requests.
    pub fn game_id(self) -> (r: &'static str)
        ensures
            r@ == spec_game_id(self),
    {
        match self {
            Self::Art => "509660",
            Self::BeautyAndBodyArt => "509669",
            Self::FoodAndDrink => "509667",
            Self::JustChatting => "509658",
            Self::MakersAndCrafting => "509673",
            Self::Music => "26936",
            Self::Retro => "27284",
            Self::ScienceAndTechnology => "509670",
            Self::SoftwareAndGameDevelopment => "1469308723",
            Self::TalkShowsAndPodcasts => "417752",
        }
    }

    /// The human-readable name shown to users.
    pub fn name(self) -> (r: &'static str)
        ensures
            r@ == spec_category_name(self),
    {
        match self {
            Self::Art => "Art",
            Self::BeautyAndBodyArt => "Beauty & Body Art",
            Self::FoodAndDrink => "Food & Drink",
            Self::JustChatting => "Just Chatting",
            Self::MakersAndCrafting => "Makers & Crafting",
            Self::Music => "Music",
            Self::Retro => "Retro",
            Self::ScienceAndTechnology => "Science & Technology",
            Self::SoftwareAndGameDevelopment => "Software and Game Development",
            Self::TalkShowsAndPodcasts => "Talk Shows & Podcasts",
        }
    }
}

/// The ways a whole fetch operation can fail. Each failure is terminal for
/// the current request; nothing is retried.
#[derive(Copy, Clone, Debug, PartialEq, Eq, Structural)]
pub enum FetchError {
    /// The token endpoint was unreachable or rejected the credentials.
    UpstreamAuth,
    /// The listing endpoint returned a non-success status on some page.
    UpstreamFetch,
    /// A response body did not match the expected shape.
    MalformedResponse,
}

/// Clamps a mathematical integer into the range of `i64`.
pub open spec fn clamp_i64(v: int) -> int {
    if v < i64::MIN {
        i64::MIN as int
    } else if v > i64::MAX {
        i64::MAX as int
    } else {
        v
    }
}

/// The moment a freshly issued token is treated as expired: issue time plus
/// server-declared lifetime, minus a one-day safety margin, saturated at the
/// ends of the `i64` range.
pub open spec fn spec_effective_expiry(issued_at: int, lifetime: int) -> int {
    clamp_i64(issued_at + lifetime - SECONDS_PER_DAY)
}

/// Computes the effective expiry of a token issued at `issued_at` (Unix
/// seconds) with a server-declared lifetime of `lifetime` seconds.
pub fn effective_expiry(issued_at: i64, lifetime: i64) -> (r: i64)
    ensures
        r == spec_effective_expiry(issued_at as int, lifetime as int),
{
    let wide: i128 = issued_at as i128 + lifetime as i128 - SECONDS_PER_DAY as i128;
    if wide < i64::MIN as i128 {
        i64::MIN
    } else if wide > i64::MAX as i128 {
        i64::MAX
    } else {
        wide as i64
    }
}

/// The effective expiry subtracts exactly one day from the issue time plus
/// the server-declared lifetime, whenever that value fits in `i64`.
pub proof fn lemma_effective_expiry_margin(issued_at: i64, lifetime: i64)
    requires
        i64::MIN <= issued_at + lifetime - SECONDS_PER_DAY <= i64::MAX,
    ensures
        spec_effective_expiry(issued_at as int, lifetime as int) == issued_at + lifetime
            - SECONDS_PER_DAY,
{
}

/// Spec-level mirror of [`Client`]: its strings as character sequences and
/// its expiry as a mathematical integer.
pub struct ClientModel {
    pub client_id: Seq<char>,
    pub client_secret: Seq<char>,
    pub token: Seq<char>,
    pub expires_at: int,
}

/// The owned client object: the credentials supplied at construction, the
/// cached bearer token and its effective expiry. The surrounding binary keeps
/// one instance behind a mutual-exclusion lock and serializes all access.
pub struct Client {
    pub client_id: String,
    pub client_secret: String,
    pub token: String,
    pub expires_at: i64,
}

impl View for Client {
    type V = ClientModel;

    open spec fn view(&self) -> ClientModel {
        ClientModel {
            client_id: self.client_id@,
            client_secret: self.client_secret@,
            token: self.token@,
            expires_at: self.expires_at as int,
        }
    }
}

impl Client {
    /// Builds the client from the credentials and the initial token response,
    /// issued at `now` (Unix seconds).
    pub fn new(twitch: crate::settings::Twitch, auth: AuthResponse, now: i64) -> (c: Client)
        ensures
            c.client_id == twitch.client_id,
            c.client_secret == twitch.client_secret,
            c.token == auth.access_token,
            c.expires_at as int == spec_effective_expiry(now as int, auth.expires_in as int),
    {
        let expires_at = effective_expiry(now, auth.expires_in);
        Client {
            client_id: twitch.client_id,
            client_secret: twitch.client_secret,
            token: auth.access_token,
            expires_at,
        }
    }

    /// Whether the cached token must be renewed before use at time `now`:
    /// true exactly when `now` has reached the effective expiry.
    pub fn is_expired(&self, now: i64) -> (r: bool)
        ensures
            r == (now >= self.expires_at),
    {
        self.expires_at <= now
    }

    /// Replaces the cached token wholesale with a freshly fetched one issued
    /// at `now`; the credentials are untouched.
    pub fn apply_token(&mut self, auth: AuthResponse, now: i64)
        ensures
            final(self).client_id == old(self).client_id,
            final(self).client_secret == old(self).client_secret,
            final(self).token == auth.access_token,
            final(self).expires_at as int == spec_effective_expiry(
                now as int,
                auth.expires_in as int,
            ),
    {
        self.token = auth.access_token;
        self.expires_at = effective_expiry(now, auth.expires_in);
    }
}

} // verus!
