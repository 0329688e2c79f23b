//! The response data model: wire integers mapped into closed enumerations,
//! and an optional Unix timestamp, with the decode policy of each field.

use vstd::prelude::*;

verus! {

/// The presence state of a player.
///
/// The wire representation is a small integer; every integer decodes to some
/// variant (integers outside the documented range fall back to `Unknown`),
/// so decoding this field never fails.
#[derive(Clone, Copy, Debug, PartialEq, Eq, Structural)]
pub enum PersonState {
    Offline,
    Online,
    Busy,
    Away,
    Snooze,
    LookingToTrade,
    LookingToPlay,
    Unknown,
}

/// The visibility of a player's profile.
///
/// Only the two documented wire integers are valid; unlike `PersonState`,
/// this enumeration has no fallback variant, and any other integer is a
/// decode error. The asymmetry is deliberate.
#[derive(Clone, Copy, Debug, PartialEq, Eq, Structural)]
pub enum CommunityVisibilityState {
    NotVisible,
    Visible,
}

/// How decoding a response can fail.
#[derive(Clone, Copy, Debug, PartialEq, Eq, Structural)]
pub enum ApiError {
    /// The payload violates the wire shape: a missing field, or an integer
    /// that is no valid `CommunityVisibilityState`.
    Decode,
    /// The response was well-formed but its player list was empty, so there
    /// is no player at position zero.
    Index,
}

/// One player as it stands on the wire, with loosely-typed fields: the state
/// integers undecoded and the last-logoff instant as plain Unix seconds.
pub struct WirePlayer {
    pub steamid: String,
    pub personaname: String,
    pub profileurl: String,
    pub personastate: i64,
    pub communityvisibilitystate: i64,
    pub lastlogoff: Option<i64>,
}

/// The inner object of the response: the list of players.
pub struct GetPlayerSummaryResponseInner {
    pub players: Vec<WirePlayer>,
}

/// The whole response payload.
pub struct GetPlayerSummaryResponse {
    pub response: GetPlayerSummaryResponseInner,
}

/// One player, fully decoded: states as closed enumerations, the optional
/// last-logoff instant as Unix seconds. Immutable once decoded.
pub struct Player {
    pub steamid: String,
    pub personaname: String,
    pub profileurl: String,
    pub personastate: PersonState,
    pub communityvisibilitystate: CommunityVisibilityState,
    pub lastlogoff: Option<i64>,
}

impl PersonState {
    /// The total decoding of a wire integer: the documented mapping on
    /// 0 through 6, and `Unknown` for every other integer.
    pub open spec fn spec_from_code(code: int) -> PersonState {
        if code == 0 {
            PersonState::Offline
        } else if code == 1 {
            PersonState::Online
        } else if code == 2 {
            PersonState::Busy
        } else if code == 3 {
            PersonState::Away
        } else if code == 4 {
            PersonState::Snooze
        } else if code == 5 {
            PersonState::LookingToTrade
        } else if code == 6 {
            PersonState::LookingToPlay
        } else {
            PersonState::Unknown
        }
    }

    /// Decodes a wire integer. Total: never fails, whatever the integer.
    pub fn from_code(code: i64) -> (r: PersonState)
        ensures
            r == PersonState::spec_from_code(code as int),
    {
        if code == 0 {
            PersonState::Offline
        } else if code == 1 {
            PersonState::Online
        } else if code == 2 {
            PersonState::Busy
        } else if code == 3 {
            PersonState::Away
        } else if code == 4 {
            PersonState::Snooze
        } else if code == 5 {
            PersonState::LookingToTrade
        } else if code == 6 {
            PersonState::LookingToPlay
        } else {
            PersonState::Unknown
        }
    }

    /// The display label of each variant in the reference locale.
    pub open spec fn spec_label(self) -> Seq<char> {
        match self {
            PersonState::Offline => "オフライン"@,
            PersonState::Online => "オンライン"@,
            PersonState::Busy => "取り込み中"@,
            PersonState::Away => "退席中"@,
            PersonState::Snooze => "スヌーズ"@,
            PersonState::LookingToTrade => "トレード希望"@,
            PersonState::LookingToPlay => "プレイ希望"@,
            PersonState::Unknown => "不明"@,
        }
    }

    /// The display label of this state.
    pub fn label(&self) -> (r: &'static str)
        ensures
            r@ == self.spec_label(),
    {
        match self {
            PersonState::Offline => "オフライン",
            PersonState::Online => "オンライン",
            PersonState::Busy => "取り込み中",
            PersonState::Away => "退席中",
            PersonState::Snooze => "スヌーズ",
            PersonState::LookingToTrade => "トレード希望",
            PersonState::LookingToPlay => "プレイ希望",
            PersonState::Unknown => "不明",
        }
    }
}

/// Decoding the presence state is total: 0 through 6 give the documented
/// variants, and every integer outside that range gives `Unknown`.
pub proof fn lemma_person_state_decode_total(code: int)
    ensures
        code == 0 ==> PersonState::spec_from_code(code) == PersonState::Offline,
        code == 1 ==> PersonState::spec_from_code(code) == PersonState::Online,
        code == 2 ==> PersonState::spec_from_code(code) == PersonState::Busy,
        code == 3 ==> PersonState::spec_from_code(code) == PersonState::Away,
        code == 4 ==> PersonState::spec_from_code(code) == PersonState::Snooze,
        code == 5 ==> PersonState::spec_from_code(code) == PersonState::LookingToTrade,
        code == 6 ==> PersonState::spec_from_code(code) == PersonState::LookingToPlay,
        !(0 <= code <= 6) ==> PersonState::spec_from_code(code) == PersonState::Unknown,
{
}

impl CommunityVisibilityState {
    /// Whether a wire integer is a valid visibility state.
    pub open spec fn spec_code_valid(code: int) -> bool {
        code == 1 || code == 3
    }

    /// The decoding of a valid wire integer.
    pub open spec fn spec_from_code(code: int) -> CommunityVisibilityState
        recommends
            CommunityVisibilityState::spec_code_valid(code),
    {
        if code == 1 {
            CommunityVisibilityState::NotVisible
        } else {
            CommunityVisibilityState::Visible
        }
    }

    /// Decodes a wire integer: 1 and 3 give the two variants, and every
    /// other integer is a decode error. No fallback variant exists.
    pub fn from_code(code: i64) -> (r: Result<CommunityVisibilityState, ApiError>)
        ensures
            r is Ok <==> CommunityVisibilityState::spec_code_valid(code as int),
            r is Ok ==> r == Ok::<_, ApiError>(CommunityVisibilityState::spec_from_code(
                code as int,
            )),
            r is Err ==> r == Err::<CommunityVisibilityState, _>(ApiError::Decode),
    {
        if code == 1 {
            Ok(CommunityVisibilityState::NotVisible)
        } else if code == 3 {
            Ok(CommunityVisibilityState::Visible)
        } else {
            Err(ApiError::Decode)
        }
    }

    /// The display label of each variant in the reference locale.
    pub open spec fn spec_label(self) -> Seq<char> {
        match self {
            CommunityVisibilityState::NotVisible => "閲覧不可能"@,
            CommunityVisibilityState::Visible => "閲覧可能"@,
        }
    }

    /// The display label of this visibility state.
    pub fn label(&self) -> (r: &'static str)
        ensures
            r@ == self.spec_label(),
    {
        match self {
            CommunityVisibilityState::NotVisible => "閲覧不可能",
            CommunityVisibilityState::Visible => "閲覧可能",
        }
    }
}

/// Decoding the visibility state accepts exactly the two documented wire
/// integers and rejects every other integer with a decode error.
pub proof fn lemma_visibility_decode_policy(code: int)
    ensures
        code == 1 ==> CommunityVisibilityState::spec_code_valid(code)
            && CommunityVisibilityState::spec_from_code(code)
            == CommunityVisibilityState::NotVisible,
        code == 3 ==> CommunityVisibilityState::spec_code_valid(code)
            && CommunityVisibilityState::spec_from_code(code)
            == CommunityVisibilityState::Visible,
        code != 1 && code != 3 ==> !CommunityVisibilityState::spec_code_valid(code),
{
}

/// What the decoding of one wire player yields when it succeeds.
pub open spec fn spec_decode_player(w: WirePlayer) -> Player {
    Player {
        steamid: w.steamid,
        personaname: w.personaname,
        profileurl: w.profileurl,
        personastate: PersonState::spec_from_code(w.personastate as int),
        communityvisibilitystate: CommunityVisibilityState::spec_from_code(
            w.communityvisibilitystate as int,
        ),
        lastlogoff: w.lastlogoff,
    }
}

/// Decodes one wire player into a typed player.
///
/// The presence state decodes totally; the visibility state must be one of
/// the two documented integers, else the whole player is a decode error.
pub fn decode_player(w: &WirePlayer) -> (r: Result<Player, ApiError>)
    ensures
        r is Ok <==> CommunityVisibilityState::spec_code_valid(w.communityvisibilitystate as int),
        r is Ok ==> r == Ok::<_, ApiError>(spec_decode_player(*w)),
        r is Err ==> r == Err::<Player, _>(ApiError::Decode),
{
    let visibility = CommunityVisibilityState::from_code(w.communityvisibilitystate)?;
    Ok(Player {
        steamid: w.steamid.clone(),
        personaname: w.personaname.clone(),
        profileurl: w.profileurl.clone(),
        personastate: PersonState::from_code(w.personastate),
        communityvisibilitystate: visibility,
        lastlogoff: w.lastlogoff,
    })
}

/// Decodes a whole response into the one player it must carry: the first
/// element of its player list.
///
/// An empty player list is an index error (no player at position zero),
/// surfaced distinctly from a wire-shape violation; an invalid visibility
/// integer on the first player is a decode error.
pub fn decode_first_player(resp: &GetPlayerSummaryResponse) -> (r: Result<Player, ApiError>)
    ensures
        resp.response.players@.len() == 0 ==> r == Err::<Player, _>(ApiError::Index),
        resp.response.players@.len() > 0 ==> {
            &&& r is Ok <==> CommunityVisibilityState::spec_code_valid(
                resp.response.players@[0].communityvisibilitystate as int,
            )
            &&& r is Ok ==> r == Ok::<_, ApiError>(spec_decode_player(resp.response.players@[0]))
            &&& r is Err ==> r == Err::<Player, _>(ApiError::Decode)
        },
{
    if resp.response.players.len() == 0 {
        Err(ApiError::Index)
    } else {
        decode_player(&resp.response.players[0])
    }
}

} // verus!
