//! The commands of the command-line client as plain data, and the values
//! that its options take.
use vstd::prelude::*;

use crate::models::{FeedbackStatus, FeedbackType, RatingType};

verus! {

// ============================================================================
// Option values
// ============================================================================

/// A feedback status given on the command line.
#[derive(Debug, Clone, Copy, PartialEq, Eq, Structural)]
pub enum FeedbackStatusArg {
    New,
    Active,
    Assigned,
    Hold,
    Closed,
    Resolved,
}

impl FeedbackStatusArg {
    /// The status this option value names.
    pub open spec fn model(self) -> FeedbackStatus {
        match self {
            FeedbackStatusArg::New => FeedbackStatus::New,
            FeedbackStatusArg::Active => FeedbackStatus::Active,
            FeedbackStatusArg::Assigned => FeedbackStatus::Assigned,
            FeedbackStatusArg::Hold => FeedbackStatus::Hold,
            FeedbackStatusArg::Closed => FeedbackStatus::Closed,
            FeedbackStatusArg::Resolved => FeedbackStatus::Resolved,
        }
    }

    /// The text of this option value as the API receives it.
    pub open spec fn label(self) -> Seq<char> {
        match self {
            FeedbackStatusArg::New => "New"@,
            FeedbackStatusArg::Active => "Active"@,
            FeedbackStatusArg::Assigned => "Assigned"@,
            FeedbackStatusArg::Hold => "Hold"@,
            FeedbackStatusArg::Closed => "Closed"@,
            FeedbackStatusArg::Resolved => "Resolved"@,
        }
    }

    /// The status this option value names.
    pub fn to_model(&self) -> (s: FeedbackStatus)
        ensures
            s == self.model(),
    {
        match self {
            FeedbackStatusArg::New => FeedbackStatus::New,
            FeedbackStatusArg::Active => FeedbackStatus::Active,
            FeedbackStatusArg::Assigned => FeedbackStatus::Assigned,
            FeedbackStatusArg::Hold => FeedbackStatus::Hold,
            FeedbackStatusArg::Closed => FeedbackStatus::Closed,
            FeedbackStatusArg::Resolved => FeedbackStatus::Resolved,
        }
    }

    /// The text of this option value as the API receives it.
    pub fn as_str(&self) -> (s: &'static str)
        ensures
            s@ == self.label(),
    {
        match self {
            FeedbackStatusArg::New => "New",
            FeedbackStatusArg::Active => "Active",
            FeedbackStatusArg::Assigned => "Assigned",
            FeedbackStatusArg::Hold => "Hold",
            FeedbackStatusArg::Closed => "Closed",
            FeedbackStatusArg::Resolved => "Resolved",
        }
    }
}

/// A feedback type given on the command line.
#[derive(Debug, Clone, Copy, PartialEq, Eq, Structural)]
pub enum FeedbackTypeArg {
    Bug,
    Feature,
    Praise,
    Question,
    Improvement,
    Other,
}

impl FeedbackTypeArg {
    /// The type this option value names.
    pub open spec fn model(self) -> FeedbackType {
        match self {
            FeedbackTypeArg::Bug => FeedbackType::Bug,
            FeedbackTypeArg::Feature => FeedbackType::Feature,
            FeedbackTypeArg::Praise => FeedbackType::Praise,
            FeedbackTypeArg::Question => FeedbackType::Question,
            FeedbackTypeArg::Improvement => FeedbackType::Improvement,
            FeedbackTypeArg::Other => FeedbackType::Other,
        }
    }

    /// The text of this option value as the API receives it.
    pub open spec fn label(self) -> Seq<char> {
        match self {
            FeedbackTypeArg::Bug => "Bug"@,
            FeedbackTypeArg::Feature => "Feature"@,
            FeedbackTypeArg::Praise => "Praise"@,
            FeedbackTypeArg::Question => "Question"@,
            FeedbackTypeArg::Improvement => "Improvement"@,
            FeedbackTypeArg::Other => "Other"@,
        }
    }

    /// The type this option value names.
    pub fn to_model(&self) -> (t: FeedbackType)
        ensures
            t == self.model(),
    {
        match self {
            FeedbackTypeArg::Bug => FeedbackType::Bug,
            FeedbackTypeArg::Feature => FeedbackType::Feature,
            FeedbackTypeArg::Praise => FeedbackType::Praise,
            FeedbackTypeArg::Question => FeedbackType::Question,
            FeedbackTypeArg::Improvement => FeedbackType::Improvement,
            FeedbackTypeArg::Other => FeedbackType::Other,
        }
    }

    /// The text of this option value as the API receives it.
    pub fn as_str(&self) -> (s: &'static str)
        ensures
            s@ == self.label(),
    {
        match self {
            FeedbackTypeArg::Bug => "Bug",
            FeedbackTypeArg::Feature => "Feature",
            FeedbackTypeArg::Praise => "Praise",
            FeedbackTypeArg::Question => "Question",
            FeedbackTypeArg::Improvement => "Improvement",
            FeedbackTypeArg::Other => "Other",
        }
    }
}

/// A rating type given on the command line.
#[derive(Debug, Clone, Copy, PartialEq, Eq, Structural)]
pub enum RatingTypeArg {
    Helpful,
    Star,
    Nps,
}

impl RatingTypeArg {
    /// The rating type this option value names.
    pub open spec fn model(self) -> RatingType {
        match self {
            RatingTypeArg::Helpful => RatingType::Helpful,
            RatingTypeArg::Star => RatingType::Star,
            RatingTypeArg::Nps => RatingType::Nps,
        }
    }

    /// The text of this option value as the API receives it.
    pub open spec fn label(self) -> Seq<char> {
        match self {
            RatingTypeArg::Helpful => "helpful"@,
            RatingTypeArg::Star => "star"@,
            RatingTypeArg::Nps => "nps"@,
        }
    }

    /// The text of this option value as the API receives it.
    pub fn as_str(&self) -> (s: &'static str)
        ensures
            s@ == self.label(),
    {
        match self {
            RatingTypeArg::Helpful => "helpful",
            RatingTypeArg::Star => "star",
            RatingTypeArg::Nps => "nps",
        }
    }
}

/// An option value sends the API the very name of the status it stands
/// for, so filtering by an option value filters by that status.
pub proof fn status_arg_label_is_model_label(arg: FeedbackStatusArg)
    ensures
        arg.label() == arg.model().label(),
{
}

/// An option value sends the API the very name of the type it stands for.
pub proof fn type_arg_label_is_model_label(arg: FeedbackTypeArg)
    ensures
        arg.label() == arg.model().label(),
{
}

/// A rating type option value sends the API the very name of the rating
/// type it stands for.
pub proof fn rating_type_arg_label_is_model_label(arg: RatingTypeArg)
    ensures
        arg.label() == arg.model().label(),
{
}

// ============================================================================
// Commands
// ============================================================================

/// `seggwat project ...`
#[derive(Debug, Clone)]
pub enum ProjectCommand {
    List,
    Get { project_id: String },
    Summary { project_id: String },
}

/// `seggwat feedback ...`
#[derive(Debug, Clone)]
pub enum FeedbackCommand {
    List {
        project_id: String,
        page: u64,
        limit: u64,
        status: Option<FeedbackStatusArg>,
        feedback_type: Option<FeedbackTypeArg>,
        search: Option<String>,
    },
    Get { project_id: String, feedback_id: String },
    Create {
        project_id: String,
        message: String,
        feedback_type: Option<FeedbackTypeArg>,
        path: Option<String>,
        version: Option<String>,
    },
    Update {
        project_id: String,
        feedback_id: String,
        message: Option<String>,
        feedback_type: Option<FeedbackTypeArg>,
        status: Option<FeedbackStatusArg>,
        resolution_note: Option<String>,
    },
    Delete { project_id: String, feedback_id: String },
    Stats { project_id: String },
}

/// `seggwat rating ...`
#[derive(Debug, Clone)]
pub enum RatingCommand {
    List {
        project_id: String,
        page: u64,
        limit: u64,
        rating_type: Option<RatingTypeArg>,
        path: Option<String>,
    },
    Get { project_id: String, rating_id: String },
    Delete { project_id: String, rating_id: String },
    Stats { project_id: String, rating_type: RatingTypeArg },
}

} // verus!
