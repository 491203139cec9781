//! The session with the activity service: tokens, their expiry, and the
//! addresses of its endpoints. The requests themselves are made elsewhere.

use vstd::prelude::*;
use vstd::string::StringExecFns;
use crate::decimal::{decimal_text, join, joined_text, push_decimal, texts_of};

verus! {

/// What identifies this application to the service.
#[derive(Debug, Clone)]
pub struct StravaConfig {
    pub client_id: String,
    pub client_secret: String,
    pub redirect_uri: String,
}

/// The athlete that a token belongs to.
#[derive(Debug, Clone)]
pub struct StravaAthlete {
    pub id: u64,
    pub username: Option<String>,
    pub firstname: Option<String>,
    pub lastname: Option<String>,
}

/// What the service answers when a code or a refresh token is exchanged.
#[derive(Debug, Clone)]
pub struct StravaTokenResponse {
    pub token_type: String,
    /// Seconds since the Unix epoch.
    pub expires_at: u64,
    pub expires_in: u64,
    pub refresh_token: String,
    pub access_token: String,
    pub athlete: Option<StravaAthlete>,
}

/// The tokens of one signed-in user.
#[derive(Debug, Clone)]
pub struct StravaSession {
    pub access_token: String,
    pub refresh_token: String,
    /// Seconds since the Unix epoch.
    pub expires_at: u64,
    pub athlete_id: Option<u64>,
}

/// Where to send the user to sign in.
pub struct StravaAuthData {
    pub auth_url: String,
}

/// A form in which the service exports an activity.
#[derive(Clone, Copy, Debug, PartialEq, Eq, Structural)]
pub enum ExportFormat {
    Original,
    Tcx,
    Gpx,
}

/// The id of the athlete of a response, if it names one.
pub open spec fn athlete_id_of(athlete: Option<StravaAthlete>) -> Option<u64> {
    match athlete {
        Some(a) => Some(a.id),
        None => None,
    }
}

/// Calls std's `SystemTime::now` and measures it from `UNIX_EPOCH` in whole
/// seconds; `None` where the clock stands before the epoch. The result
/// depends on the clock, so nothing is claimed of it.
#[verifier::external_body]
fn unix_now_secs() -> (now: Option<u64>) {
    match std::time::SystemTime::now().duration_since(std::time::UNIX_EPOCH) {
        Ok(elapsed) => Some(elapsed.as_secs()),
        Err(_) => None,
    }
}

impl StravaSession {
    /// The session that a token response opens.
    pub fn new(token_response: StravaTokenResponse) -> (session: Self)
        ensures
            session.access_token == token_response.access_token,
            session.refresh_token == token_response.refresh_token,
            session.expires_at == token_response.expires_at,
            session.athlete_id == athlete_id_of(token_response.athlete),
    {
        let athlete_id = match token_response.athlete {
            Some(a) => Some(a.id),
            None => None,
        };
        StravaSession {
            access_token: token_response.access_token,
            refresh_token: token_response.refresh_token,
            expires_at: token_response.expires_at,
            athlete_id,
        }
    }

    /// Whether the access token has expired at the instant `now`, in seconds
    /// since the Unix epoch.
    pub fn is_expired_at(&self, now: u64) -> (expired: bool)
        ensures
            expired == (now >= self.expires_at),
    {
        now >= self.expires_at
    }

    /// Whether the access token has expired by the clock of this machine. A
    /// clock that stands before the epoch counts as the epoch.
    pub fn is_expired(&self) -> (expired: bool)
        ensures
            self.expires_at == 0 ==> expired,
    {
        let now = match unix_now_secs() {
            Some(secs) => secs,
            None => 0,
        };
        self.is_expired_at(now)
    }

    /// Takes over the tokens of a refresh. The athlete stays.
    pub fn apply_refresh(&mut self, response: StravaTokenResponse)
        ensures
            final(self).access_token == response.access_token,
            final(self).refresh_token == response.refresh_token,
            final(self).expires_at == response.expires_at,
            final(self).athlete_id == old(self).athlete_id,
    {
        self.access_token = response.access_token;
        self.refresh_token = response.refresh_token;
        self.expires_at = response.expires_at;
    }
}

/// The address that asks the user to grant the scopes, with `state` to
/// recognise the answer by.
pub open spec fn auth_url_text(config: StravaConfig, scopes: Seq<String>, state: Seq<char>) -> Seq<
    char,
> {
    "https://www.strava.com/oauth/authorize?client_id="@ + config.client_id@
        + "&response_type=code&redirect_uri="@ + config.redirect_uri@
        + "&approval_prompt=force&scope="@ + joined_text(texts_of(scopes), ","@) + "&state="@
        + state
}

/// The address that asks the user to grant the scopes.
pub fn auth_url_for(config: &StravaConfig, scopes: &Vec<String>, state: &str) -> (data:
    StravaAuthData)
    ensures
        data.auth_url@ == auth_url_text(*config, scopes@, state@),
{
    let mut url = String::new();
    url.append("https://www.strava.com/oauth/authorize?client_id=");
    url.append(config.client_id.as_str());
    url.append("&response_type=code&redirect_uri=");
    url.append(config.redirect_uri.as_str());
    url.append("&approval_prompt=force&scope=");
    let scope = join(scopes, ",");
    url.append(scope.as_str());
    url.append("&state=");
    url.append(state);
    StravaAuthData { auth_url: url }
}

/// Calls uuid's `Uuid::new_v4` and writes what it gave as a text. The
/// result is random, so nothing is claimed of it.
#[verifier::external_body]
fn random_state() -> (state: String) {
    uuid::Uuid::new_v4().to_string()
}

/// The address that asks the user to grant the scopes, with a fresh random
/// state.
pub fn get_auth_url(config: &StravaConfig, scopes: &Vec<String>) -> (data: StravaAuthData)
    ensures
        exists|state: Seq<char>| data.auth_url@ == auth_url_text(*config, scopes@, state),
{
    let state = random_state();
    let data = auth_url_for(config, scopes, state.as_str());
    data
}

/// One parameter of a query: the name, `=`, the number.
pub open spec fn query_part(name: Seq<char>, value: Option<u64>) -> Seq<Seq<char>> {
    match value {
        Some(v) => seq![name + "="@ + decimal_text(v as nat)],
        None => Seq::empty(),
    }
}

/// The parameters that a listing of activities names.
pub open spec fn query_parts(
    per_page: Option<u64>,
    page: Option<u64>,
    before: Option<u64>,
    after: Option<u64>,
) -> Seq<Seq<char>> {
    query_part("per_page"@, per_page) + query_part("page"@, page) + query_part("before"@, before)
        + query_part("after"@, after)
}

/// The address of the listing of activities: the parameters given follow a
/// question mark, with `&` between them.
pub open spec fn activities_url_text(
    per_page: Option<u64>,
    page: Option<u64>,
    before: Option<u64>,
    after: Option<u64>,
) -> Seq<char> {
    let parts = query_parts(per_page, page, before, after);
    if parts.len() == 0 {
        "https://www.strava.com/api/v3/athlete/activities"@
    } else {
        "https://www.strava.com/api/v3/athlete/activities"@ + "?"@ + joined_text(parts, "&"@)
    }
}

fn push_part(parts: &mut Vec<String>, name: &str, value: Option<u64>)
    ensures
        texts_of(final(parts)@) == texts_of(old(parts)@) + query_part(name@, value),
{
    match value {
        Some(v) => {
            let mut part = String::new();
            part.append(name);
            part.append("=");
            push_decimal(&mut part, v);
            parts.push(part);
        },
        None => {},
    }
}

/// The same number, if any, in the wider type.
pub open spec fn widened(value: Option<u32>) -> Option<u64> {
    match value {
        Some(v) => Some(v as u64),
        None => None,
    }
}

fn widen(value: Option<u32>) -> (wide: Option<u64>)
    ensures
        wide == widened(value),
{
    match value {
        Some(v) => Some(v as u64),
        None => None,
    }
}

/// The address of the listing of activities.
pub fn activities_url(
    per_page: Option<u32>,
    page: Option<u32>,
    before: Option<u64>,
    after: Option<u64>,
) -> (url: String)
    ensures
        url@ == activities_url_text(widened(per_page), widened(page), before, after),
{
    let mut parts: Vec<String> = Vec::new();
    push_part(&mut parts, "per_page", widen(per_page));
    push_part(&mut parts, "page", widen(page));
    push_part(&mut parts, "before", before);
    push_part(&mut parts, "after", after);
    let mut url = String::new();
    url.append("https://www.strava.com/api/v3/athlete/activities");
    if parts.len() > 0 {
        url.append("?");
        let query = join(&parts, "&");
        url.append(query.as_str());
    }
    url
}

/// The end of the address that exports an activity in a form.
pub open spec fn export_suffix(format: ExportFormat) -> Seq<char> {
    match format {
        ExportFormat::Original => "/export_original"@,
        ExportFormat::Tcx => "/export_tcx"@,
        ExportFormat::Gpx => "/export_gpx"@,
    }
}

/// The address that exports an activity in a form.
pub open spec fn export_url_text(activity_id: u64, format: ExportFormat) -> Seq<char> {
    "https://www.strava.com/activities/"@ + decimal_text(activity_id as nat) + export_suffix(format)
}

/// The address that exports an activity in a form.
pub fn export_url(activity_id: u64, format: ExportFormat) -> (url: String)
    ensures
        url@ == export_url_text(activity_id, format),
{
    let mut url = String::new();
    url.append("https://www.strava.com/activities/");
    push_decimal(&mut url, activity_id);
    url.append(
        match format {
            ExportFormat::Original => "/export_original",
            ExportFormat::Tcx => "/export_tcx",
            ExportFormat::Gpx => "/export_gpx",
        },
    );
    url
}

/// The form of export that a tag names: `fit` for the original file, `tcx`
/// or `gpx`; none for any other tag.
pub open spec fn export_format_of(tag: Seq<char>) -> Option<ExportFormat> {
    if tag == "fit"@ {
        Some(ExportFormat::Original)
    } else if tag == "tcx"@ {
        Some(ExportFormat::Tcx)
    } else if tag == "gpx"@ {
        Some(ExportFormat::Gpx)
    } else {
        None
    }
}

/// The form of export that a tag names.
pub fn parse_export_format(tag: &str) -> (format: Option<ExportFormat>)
    ensures
        format == export_format_of(tag@),
{
    if crate::text::str_eq(tag, "fit") {
        Some(ExportFormat::Original)
    } else if crate::text::str_eq(tag, "tcx") {
        Some(ExportFormat::Tcx)
    } else if crate::text::str_eq(tag, "gpx") {
        Some(ExportFormat::Gpx)
    } else {
        None
    }
}

/// The value of the header that authorizes a request by a token.
pub fn bearer(access_token: &str) -> (value: String)
    ensures
        value@ == "Bearer "@ + access_token@,
{
    let mut value = String::new();
    value.append("Bearer ");
    value.append(access_token);
    value
}

} // verus!
