use vstd::prelude::*;

verus! {

/// The settings block of the outbound meeting payload.
#[derive(Clone, Debug)]
pub struct ZoomMeetingSettings {
    pub host_video: bool,
    pub participant_video: bool,
}

/// The outbound meeting-creation payload. Every field is a fixed
/// constant: a scheduled meeting (type 2) with a fixed topic, start time,
/// half-hour duration and timezone, both video flags on.
#[derive(Clone, Debug)]
pub struct ZoomMeeting {
    pub topic: String,
    pub meeting_type: i16,
    pub start_time: String,
    pub duration: i32,
    pub timezone: String,
    pub settings: ZoomMeetingSettings,
}

/// The meeting-creation endpoint's success payload, returned to the
/// caller unchanged.
#[derive(Clone, Debug)]
pub struct ZoomMeetingUrls {
    pub start_url: String,
    pub join_url: String,
}

/// Everything an HTTP client needs to create the meeting: the fixed
/// endpoint, the Bearer-auth header value, and the JSON payload.
#[derive(Clone, Debug)]
pub struct MeetingRequest {
    pub url: String,
    pub authorization: String,
    pub payload: ZoomMeeting,
}

/// Whether a meeting request is the one owed for this access token: the
/// fixed endpoint, `Bearer` auth over the token, and the constant
/// payload.
pub open spec fn meeting_request_for(r: MeetingRequest, access_token: Seq<char>) -> bool {
    &&& r.url@ == "https://api.zoom.us/v2/users/me/meetings"@
    &&& r.authorization@ == "Bearer "@ + access_token
    &&& r.payload.topic@ == "topic"@
    &&& r.payload.meeting_type == 2i16
    &&& r.payload.start_time@ == "2024-12-25T10:00:00Z"@
    &&& r.payload.duration == 30i32
    &&& r.payload.timezone@ == "Asia/Tokyo"@
    &&& r.payload.settings.host_video
    &&& r.payload.settings.participant_video
}

/// Builds the meeting-creation request for a bearer access token.
pub fn create_meeting_request(access_token: &str) -> (r: MeetingRequest)
    ensures
        meeting_request_for(r, access_token@),
{
    let mut authorization = String::from_str("Bearer ");
    authorization.append(access_token);
    MeetingRequest {
        url: String::from_str("https://api.zoom.us/v2/users/me/meetings"),
        authorization,
        payload: ZoomMeeting {
            topic: String::from_str("topic"),
            meeting_type: 2,
            start_time: String::from_str("2024-12-25T10:00:00Z"),
            duration: 30,
            timezone: String::from_str("Asia/Tokyo"),
            settings: ZoomMeetingSettings { host_video: true, participant_video: true },
        },
    }
}

} // verus!
