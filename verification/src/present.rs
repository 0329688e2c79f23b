//! The presentation formatter: the decoded player plus the humanized
//! elapsed duration rendered as the final six-line text block, with the
//! absolute last-logoff instant shown at a fixed +09:00 offset.

use vstd::prelude::*;
use vstd::string::*;

use crate::humanize::human_readable_duration;
use crate::humanize::spec_humanize;
use crate::model::Player;

verus! {

/// The largest last-logoff timestamp the formatter accepts, in Unix seconds:
/// the end of year 9999, comfortably inside the range whose conversion to a
/// calendar date the date-time library documents to succeed.
pub const MAX_RENDER_TIMESTAMP: i64 = 253402300799;

/// The display offset is a fixed +09:00 — a hardcoded target timezone,
/// never derived from the host.
pub const JST_OFFSET_SECONDS: i32 = 32400;

/// The calendar rendering, at the fixed +09:00 offset, of the instant `secs`
/// seconds past the Unix epoch. A function of the instant alone: it depends
/// neither on the host's timezone nor on anything else in the environment.
pub uninterp spec fn jst_timestamp_of(secs: int) -> Seq<char>;

/// Relies on chrono: `DateTime::from_timestamp` turns Unix seconds into an
/// instant (documented to succeed for any instant up to year 9999),
/// `FixedOffset::east_opt` builds the constant +09:00 offset (documented to
/// succeed for any offset under a day), and `DateTime::format` renders the
/// instant at that offset. The result depends on the seconds alone.
#[verifier::external_body]
fn format_jst(secs: i64) -> (r: String)
    requires
        0 <= secs <= MAX_RENDER_TIMESTAMP,
    ensures
        r@ == jst_timestamp_of(secs as int),
{
    let jst = chrono::FixedOffset::east_opt(JST_OFFSET_SECONDS).unwrap();
    let at = chrono::DateTime::from_timestamp(secs, 0).unwrap().with_timezone(&jst);
    format!("{}", at.format("%Y年%m月%d日 %H:%M:%S"))
}

/// Relies on chrono: `Utc::now().timestamp()` gives the current time as Unix
/// seconds. Nothing is assumed of the value; callers clamp it themselves.
#[verifier::external_body]
fn now_unix_seconds() -> i64 {
    chrono::Utc::now().timestamp()
}

/// The elapsed span from the instant `t` to the instant `now`, clamped to
/// zero when `t` lies in the future (clock skew gives no negative span).
pub open spec fn spec_elapsed(t: int, now: int) -> int {
    if now >= t {
        now - t
    } else {
        0
    }
}

/// The last-seen text: the literal placeholder when the instant is absent;
/// else the humanized elapsed span and the absolute instant at +09:00.
pub open spec fn spec_last_seen(last: Option<i64>, now: int) -> Seq<char> {
    match last {
        Option::None => "-"@,
        Option::Some(t) => spec_humanize(spec_elapsed(t as int, now)) + "前 ( "@
            + jst_timestamp_of(t as int) + " )"@,
    }
}

/// The whole six-line summary of a player at the instant `now`.
pub open spec fn spec_summary(p: Player, now: int) -> Seq<char> {
    "Name: "@ + p.personaname@ + "\n"@ + "Steam ID: "@ + p.steamid@ + "\n"@ + "Profile: "@
        + p.profileurl@ + "\n"@ + "Status: "@ + p.personastate.spec_label() + "\n"@
        + "Visibility: "@ + p.communityvisibilitystate.spec_label() + "\n"@
        + "Last logged off at: "@ + spec_last_seen(p.lastlogoff, now) + "\n"@
}

/// Whether a player's optional last-logoff instant is one the formatter
/// can render: a machine limit of the date-time library, not a policy.
pub open spec fn renderable(p: Player) -> bool {
    p.lastlogoff matches Option::Some(t) ==> 0 <= t <= MAX_RENDER_TIMESTAMP
}

/// Renders the last-seen line's value at the instant `now`.
fn render_last_seen(last: &Option<i64>, now: i64) -> (r: String)
    requires
        now >= 0,
        last matches Option::Some(t) ==> 0 <= *t <= MAX_RENDER_TIMESTAMP,
    ensures
        r@ == spec_last_seen(*last, now as int),
{
    match last {
        Option::None => "-".to_owned(),
        Option::Some(t) => {
            let elapsed: i64 = if now >= *t {
                now - *t
            } else {
                0
            };
            let mut out = human_readable_duration(elapsed);
            out.append("前 ( ");
            out.append(format_jst(*t).as_str());
            out.append(" )");
            out
        },
    }
}

/// Renders the six fixed lines of the summary — display name, steam
/// identifier, profile URL, status label, visibility label, last-seen text —
/// for the instant `now` (Unix seconds, clamped by the caller to be
/// non-negative).
pub fn show_player_summary(player: &Player, now: i64) -> (r: String)
    requires
        now >= 0,
        renderable(*player),
    ensures
        r@ == spec_summary(*player, now as int),
{
    let mut out = "Name: ".to_owned();
    out.append(player.personaname.as_str());
    out.append("\n");
    out.append("Steam ID: ");
    out.append(player.steamid.as_str());
    out.append("\n");
    out.append("Profile: ");
    out.append(player.profileurl.as_str());
    out.append("\n");
    out.append("Status: ");
    out.append(player.personastate.label());
    out.append("\n");
    out.append("Visibility: ");
    out.append(player.communityvisibilitystate.label());
    out.append("\n");
    out.append("Last logged off at: ");
    out.append(render_last_seen(&player.lastlogoff, now).as_str());
    out.append("\n");
    proof {
        assert(out@ =~= spec_summary(*player, now as int));
    }
    out
}

/// Renders the summary at the current time.
///
/// The clock is outside the model: whatever instant it reports (clamped to
/// be non-negative), the text is the summary at that instant.
pub fn render_player_summary(player: &Player) -> (r: String)
    requires
        renderable(*player),
    ensures
        exists|now: int| now >= 0 && r@ == spec_summary(*player, now),
{
    let reported: i64 = now_unix_seconds();
    let now: i64 = if reported >= 0 {
        reported
    } else {
        0
    };
    let text = show_player_summary(player, now);
    proof {
        assert(now as int >= 0 && text@ == spec_summary(*player, now as int));
    }
    text
}

/// An absent last-logoff instant always renders as the literal placeholder,
/// independent of the current time and of every other field.
pub proof fn lemma_absent_last_seen_is_placeholder(p: Player, now: int)
    requires
        p.lastlogoff is None,
    ensures
        spec_last_seen(p.lastlogoff, now) == "-"@,
{
}

/// The last-seen text depends on the last-logoff instant and the current
/// time alone: two players that agree on the instant render the same
/// last-seen text, whatever their other fields.
pub proof fn lemma_last_seen_depends_on_instant_alone(p1: Player, p2: Player, now: int)
    requires
        p1.lastlogoff == p2.lastlogoff,
    ensures
        spec_last_seen(p1.lastlogoff, now) == spec_last_seen(p2.lastlogoff, now),
{
}

} // verus!
