//! Who takes part in voice and stage channels, and the counts shown for them.
use vstd::prelude::*;

verus! {

/// Someone in a voice call.
#[derive(Debug, Clone)]
pub struct VoiceParticipant {
    pub user_id: String,
    pub username: String,
    pub is_speaking: bool,
    pub is_muted: bool,
    pub is_deafened: bool,
    pub is_video: bool,
}

/// The role of someone in a stage channel.
#[derive(Debug, Clone, Copy, PartialEq, Eq, Structural)]
pub enum StageRole {
    Moderator,
    Speaker,
    Audience,
}

/// Someone on a stage.
#[derive(Debug, Clone)]
pub struct StageParticipant {
    pub user_id: String,
    pub username: String,
    pub is_speaking: bool,
    pub is_muted: bool,
    pub role: StageRole,
}

fn voice_participant(
    user_id: &str,
    username: &str,
    is_speaking: bool,
    is_muted: bool,
    is_deafened: bool,
    is_video: bool,
) -> (p: VoiceParticipant)
    ensures
        p.user_id@ == user_id@ && p.username@ == username@ && p.is_speaking == is_speaking
            && p.is_muted == is_muted && p.is_deafened == is_deafened && p.is_video == is_video,
{
    VoiceParticipant {
        user_id: String::from_str(user_id),
        username: String::from_str(username),
        is_speaking,
        is_muted,
        is_deafened,
        is_video,
    }
}

/// The participants shown in a voice channel: Alice speaking, Bob muted,
/// Charlie deafened with video on.
pub fn sample_voice_participants() -> (r: Vec<VoiceParticipant>)
    ensures
        r@.len() == 3,
        r@[0].user_id@ == "1"@ && r@[0].username@ == "Alice"@ && r@[0].is_speaking
            && !r@[0].is_muted && !r@[0].is_deafened && !r@[0].is_video,
        r@[1].user_id@ == "2"@ && r@[1].username@ == "Bob"@ && !r@[1].is_speaking
            && r@[1].is_muted && !r@[1].is_deafened && !r@[1].is_video,
        r@[2].user_id@ == "3"@ && r@[2].username@ == "Charlie"@ && !r@[2].is_speaking
            && !r@[2].is_muted && r@[2].is_deafened && r@[2].is_video,
{
    vec![
        voice_participant("1", "Alice", true, false, false, false),
        voice_participant("2", "Bob", false, true, false, false),
        voice_participant("3", "Charlie", false, false, true, true),
    ]
}

/// The number of members a voice channel reports: the channel's count, but
/// never fewer than the participants shown.
pub fn voice_member_count(members_connected: usize, participants: usize) -> (r: usize)
    ensures
        r == if members_connected >= participants { members_connected } else { participants },
{
    if members_connected >= participants {
        members_connected
    } else {
        participants
    }
}

fn stage_participant(
    user_id: &str,
    username: &str,
    is_speaking: bool,
    role: StageRole,
) -> (p: StageParticipant)
    ensures
        p.user_id@ == user_id@ && p.username@ == username@ && p.is_speaking == is_speaking
            && !p.is_muted && p.role == role,
{
    StageParticipant {
        user_id: String::from_str(user_id),
        username: String::from_str(username),
        is_speaking,
        is_muted: false,
        role,
    }
}

/// Those shown on a stage: its host and two speakers.
pub fn sample_stage_participants() -> (r: Vec<StageParticipant>)
    ensures
        r@.len() == 3,
        r@[0].user_id@ == "1"@ && r@[0].username@ == "Host Alice"@ && r@[0].is_speaking
            && !r@[0].is_muted && r@[0].role == StageRole::Moderator,
        r@[1].user_id@ == "2"@ && r@[1].username@ == "Speaker Bob"@ && !r@[1].is_speaking
            && !r@[1].is_muted && r@[1].role == StageRole::Speaker,
        r@[2].user_id@ == "3"@ && r@[2].username@ == "Speaker Carol"@ && r@[2].is_speaking
            && !r@[2].is_muted && r@[2].role == StageRole::Speaker,
{
    vec![
        stage_participant("1", "Host Alice", true, StageRole::Moderator),
        stage_participant("2", "Speaker Bob", false, StageRole::Speaker),
        stage_participant("3", "Speaker Carol", true, StageRole::Speaker),
    ]
}

/// The audience of a stage: those connected who are not on it, and never
/// fewer than none.
pub fn stage_audience_count(members_connected: usize, on_stage: usize) -> (r: usize)
    ensures
        r == if members_connected >= on_stage { members_connected - on_stage } else { 0 },
{
    members_connected.saturating_sub(on_stage)
}

} // verus!
