use vstd::prelude::*;

verus! {

/// Scores of a peer review, each from 1 to 5.
pub struct ReviewScores {
    pub skill: u8,
    pub communication: u8,
    pub reliability: u8,
    pub teamwork: u8,
}

/// Sum of the four score dimensions.
pub open spec fn score_sum(s: ReviewScores) -> int {
    s.skill + s.communication + s.reliability + s.teamwork
}

/// The average of the four scores rounded to the nearest integer (halves
/// away from zero), kept within 1..=5: the star rating shown on a profile.
pub open spec fn star_rating(s: ReviewScores) -> int {
    let rounded = (score_sum(s) + 2) / 4;
    if rounded < 1 {
        1
    } else if rounded > 5 {
        5
    } else {
        rounded
    }
}

impl ReviewScores {
    /// Star rating of these scores: their average rounded, clamped to 1..=5.
    pub fn stars(&self) -> (r: u8)
        ensures
            r == star_rating(*self),
    {
        let sum: u32 = self.skill as u32 + self.communication as u32 + self.reliability as u32
            + self.teamwork as u32;
        let rounded = (sum + 2) / 4;
        if rounded < 1 {
            1
        } else if rounded > 5 {
            5
        } else {
            rounded as u8
        }
    }
}

/// A review one collaborator left for another.
pub struct PeerReview {
    pub id: String,
    pub reviewer_id: String,
    pub reviewer_name: String,
    pub reviewee_id: String,
    pub project_id: Option<String>,
    pub study_group_id: Option<String>,
    pub project_name: String,
    pub scores: ReviewScores,
    pub body: String,
    pub endorsed_skills: Vec<String>,
    pub created_at: i64,
}

} // verus!
