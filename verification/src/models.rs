//! The records of the SeggWat REST API: feedback, projects, ratings and the
//! request and response bodies that carry them.
use std::collections::HashMap;

use vstd::prelude::*;

use crate::text::{decimal, push_decimal, views};

verus! {

// ============================================================================
// Domain enums
// ============================================================================

/// The kind of a feedback item.
#[derive(Debug, Clone, Copy, PartialEq, Eq, Structural)]
pub enum FeedbackType {
    Bug,
    Feature,
    Praise,
    Question,
    Improvement,
    Other,
}

impl FeedbackType {
    /// The name the API and the user see for this type.
    pub open spec fn label(self) -> Seq<char> {
        match self {
            FeedbackType::Bug => "Bug"@,
            FeedbackType::Feature => "Feature"@,
            FeedbackType::Praise => "Praise"@,
            FeedbackType::Question => "Question"@,
            FeedbackType::Improvement => "Improvement"@,
            FeedbackType::Other => "Other"@,
        }
    }

    /// The name the API and the user see for this type.
    pub fn as_str(&self) -> (s: &'static str)
        ensures
            s@ == self.label(),
    {
        match self {
            FeedbackType::Bug => "Bug",
            FeedbackType::Feature => "Feature",
            FeedbackType::Praise => "Praise",
            FeedbackType::Question => "Question",
            FeedbackType::Improvement => "Improvement",
            FeedbackType::Other => "Other",
        }
    }
}

/// The workflow state of a feedback item.
#[derive(Debug, Clone, Copy, PartialEq, Eq, Structural)]
pub enum FeedbackStatus {
    New,
    Active,
    Assigned,
    Hold,
    Closed,
    Resolved,
}

impl FeedbackStatus {
    /// The name the API and the user see for this status.
    pub open spec fn label(self) -> Seq<char> {
        match self {
            FeedbackStatus::New => "New"@,
            FeedbackStatus::Active => "Active"@,
            FeedbackStatus::Assigned => "Assigned"@,
            FeedbackStatus::Hold => "Hold"@,
            FeedbackStatus::Closed => "Closed"@,
            FeedbackStatus::Resolved => "Resolved"@,
        }
    }

    /// The name the API and the user see for this status.
    pub fn as_str(&self) -> (s: &'static str)
        ensures
            s@ == self.label(),
    {
        match self {
            FeedbackStatus::New => "New",
            FeedbackStatus::Active => "Active",
            FeedbackStatus::Assigned => "Assigned",
            FeedbackStatus::Hold => "Hold",
            FeedbackStatus::Closed => "Closed",
            FeedbackStatus::Resolved => "Resolved",
        }
    }
}

/// Where a feedback item came from.
#[derive(Debug, Clone, Copy, PartialEq, Eq, Structural)]
pub enum FeedbackSource {
    Widget,
    Manual,
    Mintlify,
    Stripe,
    Polar,
    SocialShare,
}

impl FeedbackSource {
    /// The source shown to the user.
    pub open spec fn label(self) -> Seq<char> {
        match self {
            FeedbackSource::Widget => "Feedback Button"@,
            FeedbackSource::Manual => "Manual"@,
            FeedbackSource::Mintlify => "Mintlify"@,
            FeedbackSource::Stripe => "Stripe"@,
            FeedbackSource::Polar => "Polar"@,
            FeedbackSource::SocialShare => "Social Share"@,
        }
    }

    /// The source shown to the user.
    pub fn as_str(&self) -> (s: &'static str)
        ensures
            s@ == self.label(),
    {
        match self {
            FeedbackSource::Widget => "Feedback Button",
            FeedbackSource::Manual => "Manual",
            FeedbackSource::Mintlify => "Mintlify",
            FeedbackSource::Stripe => "Stripe",
            FeedbackSource::Polar => "Polar",
            FeedbackSource::SocialShare => "Social Share",
        }
    }
}

impl Default for FeedbackSource {
    /// Feedback without a recorded source came from the widget.
    fn default() -> (s: Self)
        ensures
            s == FeedbackSource::Widget,
    {
        FeedbackSource::Widget
    }
}

/// The kind of a rating.
#[derive(Debug, Clone, Copy, PartialEq, Eq, Structural)]
pub enum RatingType {
    Helpful,
    Star,
    Nps,
}

impl RatingType {
    /// The lower-case name the API and the user see for this type.
    pub open spec fn label(self) -> Seq<char> {
        match self {
            RatingType::Helpful => "helpful"@,
            RatingType::Star => "star"@,
            RatingType::Nps => "nps"@,
        }
    }

    /// The lower-case name the API and the user see for this type.
    pub fn as_str(&self) -> (s: &'static str)
        ensures
            s@ == self.label(),
    {
        match self {
            RatingType::Helpful => "helpful",
            RatingType::Star => "star",
            RatingType::Nps => "nps",
        }
    }
}

/// The value of a rating; its variant follows the rating's type.
#[derive(Debug, Clone, Copy, PartialEq, Eq, Structural)]
pub enum RatingValue {
    Helpful { value: bool },
    Star { value: u8, max_stars: u8 },
    Nps { value: u8 },
}

/// The scale of a star rating whose scale the API left out.
pub fn default_max_stars() -> (n: u8)
    ensures
        n == 5,
{
    5
}

/// How a rating value reads: `Helpful` / `Not Helpful`, `v/max` for stars,
/// `v/10` for NPS.
pub open spec fn rating_value_text(rv: RatingValue) -> Seq<char> {
    match rv {
        RatingValue::Helpful { value } => if value {
            "Helpful"@
        } else {
            "Not Helpful"@
        },
        RatingValue::Star { value, max_stars } => decimal(value as nat) + "/"@ + decimal(
            max_stars as nat,
        ),
        RatingValue::Nps { value } => decimal(value as nat) + "/10"@,
    }
}

/// Formats a rating value for display.
pub fn format_rating_value(rv: &RatingValue) -> (s: String)
    ensures
        s@ == rating_value_text(*rv),
{
    match rv {
        RatingValue::Helpful { value } => {
            if *value {
                String::from_str("Helpful")
            } else {
                String::from_str("Not Helpful")
            }
        },
        RatingValue::Star { value, max_stars } => {
            let mut s = String::new();
            push_decimal(&mut s, *value as u64);
            s.append("/");
            push_decimal(&mut s, *max_stars as u64);
            assert(s@ =~= rating_value_text(*rv));
            s
        },
        RatingValue::Nps { value } => {
            let mut s = String::new();
            push_decimal(&mut s, *value as u64);
            s.append("/10");
            assert(s@ =~= rating_value_text(*rv));
            s
        },
    }
}

// ============================================================================
// Statistics
// ============================================================================

/// Feedback counts of a project.
#[derive(Debug, Clone)]
pub struct FeedbackCounts {
    pub total: u64,
    pub current_month: u64,
    pub last_month: u64,
}

/// Net Promoter Score statistics: the score, the three groups, and how
/// many ratings gave each value.
#[derive(Debug, Clone)]
pub struct NpsStats {
    pub total: u64,
    pub score: i32,
    pub promoters: u64,
    pub passives: u64,
    pub detractors: u64,
    pub distribution: HashMap<u8, u64>,
}

// ============================================================================
// Core entities
// ============================================================================

/// A feedback item.
#[derive(Debug, Clone)]
pub struct Feedback {
    pub id: String,
    pub project_id: String,
    pub message: String,
    pub status: FeedbackStatus,
    pub feedback_type: FeedbackType,
    pub source: FeedbackSource,
    pub created_at: String,
    pub path: Option<String>,
    pub version: Option<String>,
    pub archived: bool,
    pub submitted_by: Option<String>,
    pub resolution_note: Option<String>,
}

/// A project of an organisation.
#[derive(Debug, Clone)]
pub struct Project {
    pub id: String,
    pub key: String,
    pub name: String,
    pub description: String,
    pub allowed_origins: Vec<String>,
    pub org_id: String,
    pub feedback_count: u64,
}

impl Project {
    /// `self` and `other` hold the same data.
    pub open spec fn same(self, other: Project) -> bool {
        &&& self.id@ == other.id@
        &&& self.key@ == other.key@
        &&& self.name@ == other.name@
        &&& self.description@ == other.description@
        &&& views(self.allowed_origins@) == views(other.allowed_origins@)
        &&& self.org_id@ == other.org_id@
        &&& self.feedback_count == other.feedback_count
    }

    /// A copy of this project.
    pub fn duplicate(&self) -> (res: Project)
        ensures
            res.same(*self),
    {
        let mut origins: Vec<String> = Vec::new();
        let mut i: usize = 0;
        while i < self.allowed_origins.len()
            invariant
                i <= self.allowed_origins@.len(),
                origins@ == self.allowed_origins@.take(i as int),
            decreases self.allowed_origins@.len() - i,
        {
            origins.push(self.allowed_origins[i].clone());
            i = i + 1;
            assert(origins@ =~= self.allowed_origins@.take(i as int));
        }
        assert(origins@ =~= self.allowed_origins@);
        Project {
            id: self.id.clone(),
            key: self.key.clone(),
            name: self.name.clone(),
            description: self.description.clone(),
            allowed_origins: origins,
            org_id: self.org_id.clone(),
            feedback_count: self.feedback_count,
        }
    }
}

/// A rating left on a project.
#[derive(Debug, Clone)]
pub struct Rating {
    pub id: String,
    pub project_id: String,
    pub rating_type: RatingType,
    pub value: RatingValue,
    pub path: Option<String>,
    pub version: Option<String>,
    pub submitted_by: Option<String>,
    pub archived: bool,
    pub created_at: String,
}

// ============================================================================
// Pagination, requests and responses
// ============================================================================

/// Where a page of a listing stands.
#[derive(Debug, Clone, Copy)]
pub struct PaginationInfo {
    pub page: i64,
    pub limit: i64,
    pub total: i64,
    pub total_pages: i64,
}

/// The body of a request that creates feedback.
#[derive(Debug, Clone)]
pub struct FeedbackCreateRequest {
    pub message: String,
    pub feedback_type: Option<FeedbackType>,
    pub path: Option<String>,
    pub version: Option<String>,
}

/// The body of a request that changes feedback; absent fields stay as they
/// are.
#[derive(Debug, Clone)]
pub struct FeedbackUpdateRequest {
    pub message: Option<String>,
    pub feedback_type: Option<FeedbackType>,
    pub status: Option<FeedbackStatus>,
    pub resolution_note: Option<String>,
}

/// The projects the caller can see.
#[derive(Debug, Clone)]
pub struct ProjectListResponse {
    pub projects: Vec<Project>,
}

/// One page of feedback.
#[derive(Debug, Clone)]
pub struct FeedbackListResponse {
    pub feedback: Vec<Feedback>,
    pub pagination: PaginationInfo,
}

/// One page of ratings.
#[derive(Debug, Clone)]
pub struct RatingListResponse {
    pub ratings: Vec<Rating>,
    pub pagination: PaginationInfo,
}

/// The body of an error response.
#[derive(Debug, Clone)]
pub struct ApiError {
    pub error: String,
    pub message: String,
}

/// The authenticated user.
#[derive(Debug, Clone)]
pub struct WhoamiResponse {
    pub user_id: String,
    pub email: String,
    pub display_name: Option<String>,
    pub org_id: String,
    pub org_name: Option<String>,
    pub role: String,
}

} // verus!
