//! The interactive terminal interface as a state machine.
//!
//! [`App`] holds everything the screens show. A key press goes through
//! [`App::handle_key`], which changes the state and returns the [`Effect`]
//! that the caller carries out (an API call, opening a browser). The outcome
//! of that effect comes back through one of the `on_*` methods.
//!
//! Three screens / views:
//! - `Projects`: pick a project
//! - `Project`: tabbed view with Overview / Feedback / Ratings (`0`/`1`/`2`)

pub mod keys;
pub mod outcomes;
pub mod ui;

use vstd::prelude::*;

use crate::models::{
    Feedback, FeedbackCounts, FeedbackCreateRequest, FeedbackStatus, FeedbackType,
    FeedbackUpdateRequest, NpsStats, Project, Rating, RatingType,
};
use crate::text::{strip_trailing, trim_end_char};

verus! {

// ============================================================================
// States, keys and effects
// ============================================================================

/// Top-level screen.
#[derive(Debug, Clone, Copy, PartialEq, Eq, Structural)]
pub enum Screen {
    Projects,
    Project,
}

/// Which tab is active inside the `Project` screen.
#[derive(Debug, Clone, Copy, PartialEq, Eq, Structural)]
pub enum ProjectView {
    Overview,
    Feedback,
    Ratings,
}

/// Which pane has focus (list vs. detail).
#[derive(Debug, Clone, Copy, PartialEq, Eq, Structural)]
pub enum FeedbackPane {
    List,
    Detail,
}

/// Modal overlay currently active (if any).
#[derive(Debug, Clone)]
pub enum Modal {
    /// No overlay is open.
    Inactive,
    Search { buffer: String },
    StatusPicker { cursor: usize },
    StatusFilter { cursor: usize },
    TypeFilter { cursor: usize },
    TypePicker { cursor: usize },
    ConfirmDelete,
    Help,
    Compose { message: String, feedback_type: FeedbackType },
    EditMessage { id: String, project_id: String, message: String },
    ResolutionNote { id: String, project_id: String, note: String },
    RatingTypeFilter { cursor: usize },
    RatingPathFilter { buffer: String },
    ProjectSwitcher { cursor: usize },
}

/// Transient status line message (e.g. "Updated", "Error: …").
#[derive(Debug, Clone)]
pub struct Toast {
    pub text: String,
    pub is_error: bool,
}

/// A key of the keyboard, as far as the interface tells keys apart.
#[derive(Debug, Clone, Copy, PartialEq, Eq, Structural)]
pub enum Key {
    Char(char),
    Esc,
    Enter,
    Tab,
    BackTab,
    Backspace,
    Up,
    Down,
    PageUp,
    PageDown,
    Home,
    End,
    Other,
}

/// A key press, with whether Control was held.
#[derive(Debug, Clone, Copy, PartialEq, Eq, Structural)]
pub struct KeyPress {
    pub code: Key,
    pub ctrl: bool,
}

/// Why a feedback item is being changed; decides what the status line says
/// afterwards and whether the resolution note editor opens.
#[derive(Debug, Clone, Copy, PartialEq, Eq, Structural)]
pub enum UpdatePurpose {
    Status(FeedbackStatus),
    Type(FeedbackType),
    Message,
    ResolutionNote,
}

/// Work that a key press asks of the caller. Its outcome is handed back
/// through the matching `on_*` method of [`App`].
#[derive(Debug, Clone)]
pub enum Effect {
    /// Nothing to do.
    Nothing,
    /// List the projects; `then_open_switcher` asks for the project
    /// switcher to open once they are there.
    LoadProjects { then_open_switcher: bool },
    LoadFeedback {
        project_id: String,
        page: u64,
        limit: u64,
        status: Option<FeedbackStatus>,
        feedback_type: Option<FeedbackType>,
        search: Option<String>,
    },
    LoadRatings {
        project_id: String,
        page: u64,
        limit: u64,
        rating_type: Option<RatingType>,
        path: Option<String>,
    },
    /// Fetch the four statistics of a project together.
    LoadStats { project_id: String },
    UpdateFeedback {
        project_id: String,
        feedback_id: String,
        body: FeedbackUpdateRequest,
        purpose: UpdatePurpose,
    },
    DeleteFeedback { project_id: String, feedback_id: String },
    DeleteRating { project_id: String, rating_id: String },
    CreateFeedback { project_id: String, body: FeedbackCreateRequest },
    OpenUrl { url: String },
}

/// How many items a page of the interface's lists holds.
pub const PAGE_SIZE: u64 = 50;

// ============================================================================
// Application state
// ============================================================================

/// The whole state of the interface. `H` and `S` are the helpful and star
/// rating statistics, which the interface only stores and shows.
pub struct App<H, S> {
    pub api_url: String,
    pub screen: Screen,
    pub project_view: ProjectView,
    pub should_quit: bool,
    // Projects
    pub projects: Vec<Project>,
    pub projects_selected: Option<usize>,
    pub selected_project: Option<Project>,
    // Feedback
    pub feedback: Vec<Feedback>,
    pub feedback_selected: Option<usize>,
    pub feedback_pane: FeedbackPane,
    pub detail_scroll: u16,
    // Feedback filters / query
    pub status_filter: Option<FeedbackStatus>,
    pub type_filter: Option<FeedbackType>,
    pub search: Option<String>,
    // Feedback pagination
    pub page: u64,
    pub total_pages: u64,
    // Ratings
    pub ratings: Vec<Rating>,
    pub ratings_selected: Option<usize>,
    pub ratings_pane: FeedbackPane,
    pub rating_detail_scroll: u16,
    pub rating_type_filter: Option<RatingType>,
    pub rating_path_filter: Option<String>,
    pub ratings_page: u64,
    pub ratings_total_pages: u64,
    // Overview / stats
    pub feedback_stats: Option<FeedbackCounts>,
    pub helpful_stats: Option<H>,
    pub star_stats: Option<S>,
    pub nps_stats: Option<NpsStats>,
    pub stats_loaded_for: Option<String>,
    // UI state
    pub modal: Modal,
    pub toast: Option<Toast>,
    pub loading: bool,
}

/// In every state the interface can reach, a feedback or rating selection
/// names an item that is there: the detail pane shows an item exactly when
/// something is selected.
pub proof fn selection_names_an_item<H, S>(app: App<H, S>)
    requires
        app.wf(),
    ensures
        selected_item(app.feedback@, app.feedback_selected) is Some <==> app.feedback_selected is Some,
        selected_item(app.ratings@, app.ratings_selected) is Some <==> app.ratings_selected is Some,
{
}

/// The item of `v` at the selected position, if the selection points into
/// `v`.
pub open spec fn selected_item<T>(v: Seq<T>, sel: Option<usize>) -> Option<T> {
    match sel {
        Some(i) => if i < v.len() {
            Some(v[i as int])
        } else {
            None
        },
        None => None,
    }
}

/// How many options each picker offers.
pub open spec fn modal_cursor_in_range(m: Modal) -> bool {
    match m {
        Modal::StatusPicker { cursor } => cursor < 6,
        Modal::StatusFilter { cursor } => cursor < 7,
        Modal::TypeFilter { cursor } => cursor < 7,
        Modal::TypePicker { cursor } => cursor < 6,
        Modal::RatingTypeFilter { cursor } => cursor < 4,
        _ => true,
    }
}

/// A selection that an `isize` can hold.
pub open spec fn selection_fits(sel: Option<usize>) -> bool {
    match sel {
        Some(i) => i <= isize::MAX,
        None => true,
    }
}

impl<H, S> App<H, S> {
    /// The state's invariant: the open picker's cursor points at one of its
    /// options, the feedback and rating selections point at an item of their
    /// lists, and lists and selections stay within what an `isize` holds.
    pub open spec fn wf(self) -> bool {
        &&& modal_cursor_in_range(self.modal)
        &&& (self.feedback_selected matches Some(i) ==> i < self.feedback@.len())
        &&& (self.ratings_selected matches Some(i) ==> i < self.ratings@.len())
        &&& self.projects@.len() <= isize::MAX
        &&& self.feedback@.len() <= isize::MAX
        &&& self.ratings@.len() <= isize::MAX
        &&& selection_fits(self.projects_selected)
        &&& selection_fits(self.feedback_selected)
        &&& selection_fits(self.ratings_selected)
    }

    /// The state the interface starts in: the project list, nothing loaded.
    pub fn new(api_url: String) -> (app: Self)
        ensures
            app.wf(),
            app.api_url == api_url,
            app.screen == Screen::Projects,
            app.project_view == ProjectView::Feedback,
            !app.should_quit,
            app.projects@.len() == 0,
            app.projects_selected is None,
            app.selected_project is None,
            app.feedback@.len() == 0,
            app.feedback_selected is None,
            app.feedback_pane == FeedbackPane::List,
            app.detail_scroll == 0,
            app.status_filter is None,
            app.type_filter is None,
            app.search is None,
            app.page == 1,
            app.total_pages == 1,
            app.ratings@.len() == 0,
            app.ratings_selected is None,
            app.ratings_pane == FeedbackPane::List,
            app.rating_detail_scroll == 0,
            app.rating_type_filter is None,
            app.rating_path_filter is None,
            app.ratings_page == 1,
            app.ratings_total_pages == 1,
            app.feedback_stats is None,
            app.helpful_stats is None,
            app.star_stats is None,
            app.nps_stats is None,
            app.stats_loaded_for is None,
            app.modal is Inactive,
            app.toast is None,
            !app.loading,
    {
        App {
            api_url,
            screen: Screen::Projects,
            project_view: ProjectView::Feedback,
            should_quit: false,
            projects: Vec::new(),
            projects_selected: None,
            selected_project: None,
            feedback: Vec::new(),
            feedback_selected: None,
            feedback_pane: FeedbackPane::List,
            detail_scroll: 0,
            status_filter: None,
            type_filter: None,
            search: None,
            page: 1,
            total_pages: 1,
            ratings: Vec::new(),
            ratings_selected: None,
            ratings_pane: FeedbackPane::List,
            rating_detail_scroll: 0,
            rating_type_filter: None,
            rating_path_filter: None,
            ratings_page: 1,
            ratings_total_pages: 1,
            feedback_stats: None,
            helpful_stats: None,
            star_stats: None,
            nps_stats: None,
            stats_loaded_for: None,
            modal: Modal::Inactive,
            toast: None,
            loading: false,
        }
    }

    /// The feedback item under the cursor, if any.
    pub fn selected_feedback(&self) -> (res: Option<&Feedback>)
        ensures
            res is Some == selected_item(self.feedback@, self.feedback_selected) is Some,
            res matches Some(f) ==> selected_item(self.feedback@, self.feedback_selected)
                == Some(*f),
    {
        match self.feedback_selected {
            Some(i) => {
                if i < self.feedback.len() {
                    Some(&self.feedback[i])
                } else {
                    None
                }
            },
            None => None,
        }
    }

    /// The rating under the cursor, if any.
    pub fn selected_rating(&self) -> (res: Option<&Rating>)
        ensures
            res is Some == selected_item(self.ratings@, self.ratings_selected) is Some,
            res matches Some(r) ==> selected_item(self.ratings@, self.ratings_selected)
                == Some(*r),
    {
        match self.ratings_selected {
            Some(i) => {
                if i < self.ratings.len() {
                    Some(&self.ratings[i])
                } else {
                    None
                }
            },
            None => None,
        }
    }

    /// Shows `text` on the status line.
    pub fn set_toast(&mut self, text: String, is_error: bool)
        ensures
            *final(self) == (App { toast: Some(Toast { text, is_error }), ..*old(self) }),
    {
        self.toast = Some(Toast { text, is_error });
    }

    /// The state once the project-specific parts are forgotten: lists,
    /// selections, scrolling, statistics, filters and pages.
    pub open spec fn project_state_reset(pre: Self, post: Self) -> bool {
        &&& post.feedback@.len() == 0
        &&& post.ratings@.len() == 0
        &&& post == App {
            feedback: post.feedback,
            feedback_selected: None,
            ratings: post.ratings,
            ratings_selected: None,
            detail_scroll: 0,
            rating_detail_scroll: 0,
            feedback_stats: None,
            helpful_stats: None,
            star_stats: None,
            nps_stats: None,
            stats_loaded_for: None,
            page: 1,
            ratings_page: 1,
            status_filter: None,
            type_filter: None,
            search: None,
            rating_type_filter: None,
            rating_path_filter: None,
            ..pre
        }
    }

    /// Forgets everything that belongs to the open project.
    pub fn reset_project_state(&mut self)
        ensures
            Self::project_state_reset(*old(self), *final(self)),
    {
        self.feedback.clear();
        self.feedback_selected = None;
        self.ratings.clear();
        self.ratings_selected = None;
        self.detail_scroll = 0;
        self.rating_detail_scroll = 0;
        self.feedback_stats = None;
        self.helpful_stats = None;
        self.star_stats = None;
        self.nps_stats = None;
        self.stats_loaded_for = None;
        self.page = 1;
        self.ratings_page = 1;
        self.status_filter = None;
        self.type_filter = None;
        self.search = None;
        self.rating_type_filter = None;
        self.rating_path_filter = None;
    }
}

// ============================================================================
// List movement and type cycling
// ============================================================================

/// Where a selection lands after moving it by `delta` in a list of `len`
/// items: nothing in an empty list, else the moved position held within
/// the list (no selection counts as the first item).
pub open spec fn moved_selection(sel: Option<usize>, len: nat, delta: int) -> Option<usize> {
    if len == 0 {
        None
    } else {
        let current: int = match sel {
            Some(i) => i as int,
            None => 0,
        };
        let next = current + delta;
        Some(
            (if next < 0 {
                0
            } else if next >= len {
                len - 1
            } else {
                next
            }) as usize,
        )
    }
}

/// Moves a list selection by `delta`, staying within the list.
pub fn move_list(sel: Option<usize>, len: usize, delta: isize) -> (res: Option<usize>)
    requires
        len <= isize::MAX,
        selection_fits(sel),
    ensures
        res == moved_selection(sel, len as nat, delta as int),
        res matches Some(i) ==> i < len,
        res is None <==> len == 0,
{
    if len == 0 {
        return None;
    }
    let current: i128 = match sel {
        Some(i) => i as i128,
        None => 0,
    };
    let mut next: i128 = current + delta as i128;
    if next < 0 {
        next = 0;
    }
    if next >= len as i128 {
        next = len as i128 - 1;
    }
    Some(next as usize)
}

/// The feedback types in the order the composer cycles through them.
pub open spec fn type_cycle() -> Seq<FeedbackType> {
    seq![
        FeedbackType::Bug,
        FeedbackType::Feature,
        FeedbackType::Praise,
        FeedbackType::Question,
        FeedbackType::Improvement,
        FeedbackType::Other,
    ]
}

/// The position of `t` in [`type_cycle`].
pub open spec fn type_index(t: FeedbackType) -> int {
    match t {
        FeedbackType::Bug => 0,
        FeedbackType::Feature => 1,
        FeedbackType::Praise => 2,
        FeedbackType::Question => 3,
        FeedbackType::Improvement => 4,
        FeedbackType::Other => 5,
    }
}

/// The type `delta` steps after `t` in [`type_cycle`], wrapping around.
pub open spec fn cycled_type(t: FeedbackType, delta: int) -> FeedbackType {
    type_cycle()[(type_index(t) + delta) % 6]
}

/// Steps the composer's feedback type by `delta`, wrapping around.
pub fn cycle_type(current: &FeedbackType, delta: isize) -> (res: FeedbackType)
    ensures
        res == cycled_type(*current, delta as int),
{
    let idx: i128 = match current {
        FeedbackType::Bug => 0,
        FeedbackType::Feature => 1,
        FeedbackType::Praise => 2,
        FeedbackType::Question => 3,
        FeedbackType::Improvement => 4,
        FeedbackType::Other => 5,
    };
    let m = (idx + delta as i128) % 6;
    let next = if m < 0 { m + 6 } else { m };
    if next == 0 {
        FeedbackType::Bug
    } else if next == 1 {
        FeedbackType::Feature
    } else if next == 2 {
        FeedbackType::Praise
    } else if next == 3 {
        FeedbackType::Question
    } else if next == 4 {
        FeedbackType::Improvement
    } else {
        FeedbackType::Other
    }
}

/// Cycling the composer's type one step forward and one step back lands on
/// the type it started from, and so does going around all six types.
pub proof fn cycle_type_round_trip(t: FeedbackType)
    ensures
        cycled_type(cycled_type(t, 1), -1) == t,
        cycled_type(cycled_type(t, -1), 1) == t,
        cycled_type(t, 6) == t,
{
}

// ============================================================================
// Dashboard links
// ============================================================================

/// The dashboard's origin: the API URL without trailing slashes.
pub fn dashboard_origin(api_url: &str) -> (res: String)
    ensures
        res@ == strip_trailing(api_url@, '/'),
{
    trim_end_char(api_url, '/')
}

/// The dashboard page of a project's feedback.
pub open spec fn project_url(api_url: Seq<char>, project: Project) -> Seq<char> {
    strip_trailing(api_url, '/') + "/org/"@ + project.org_id@ + "/projects/"@ + project.id@
        + "/feedback"@
}

/// The dashboard page of one feedback item.
pub open spec fn feedback_url(api_url: Seq<char>, project: Project, feedback_id: Seq<char>) -> Seq<
    char,
> {
    project_url(api_url, project) + "/"@ + feedback_id
}

/// The dashboard section for a kind of rating; helpful ratings have no
/// page of their own and go to the project insights.
pub open spec fn rating_section(t: RatingType) -> Seq<char> {
    match t {
        RatingType::Star => "reviews"@,
        RatingType::Nps => "nps"@,
        RatingType::Helpful => "insights"@,
    }
}

/// The dashboard page for a rating.
pub open spec fn rating_url(api_url: Seq<char>, project: Project, rating: Rating) -> Seq<char> {
    strip_trailing(api_url, '/') + "/org/"@ + project.org_id@ + "/projects/"@ + project.id@
        + "/"@ + rating_section(rating.rating_type)
}

/// A trailing slash on the API URL makes no difference to the dashboard
/// links.
pub proof fn dashboard_links_ignore_trailing_slash(
    api_url: Seq<char>,
    project: Project,
    feedback_id: Seq<char>,
    rating: Rating,
)
    ensures
        project_url(api_url.push('/'), project) == project_url(api_url, project),
        feedback_url(api_url.push('/'), project, feedback_id) == feedback_url(
            api_url,
            project,
            feedback_id,
        ),
        rating_url(api_url.push('/'), project, rating) == rating_url(api_url, project, rating),
{
    assert(api_url.push('/').drop_last() =~= api_url);
}

fn project_prefix(api_url: &str, project: &Project) -> (res: String)
    ensures
        res@ == strip_trailing(api_url@, '/') + "/org/"@ + project.org_id@ + "/projects/"@
            + project.id@,
{
    let mut s = dashboard_origin(api_url);
    s.append("/org/");
    s.append(project.org_id.as_str());
    s.append("/projects/");
    s.append(project.id.as_str());
    s
}

/// The dashboard page of a project's feedback.
pub fn project_dashboard_url(api_url: &str, project: &Project) -> (res: String)
    ensures
        res@ == project_url(api_url@, *project),
{
    let mut s = project_prefix(api_url, project);
    s.append("/feedback");
    s
}

/// The dashboard page of one feedback item.
pub fn feedback_dashboard_url(api_url: &str, project: &Project, feedback_id: &str) -> (res:
    String)
    ensures
        res@ == feedback_url(api_url@, *project, feedback_id@),
{
    let mut s = project_dashboard_url(api_url, project);
    s.append("/");
    s.append(feedback_id);
    s
}

/// The dashboard page for a rating.
pub fn rating_dashboard_url(api_url: &str, project: &Project, rating: &Rating) -> (res: String)
    ensures
        res@ == rating_url(api_url@, *project, *rating),
{
    let segment = match rating.rating_type {
        RatingType::Star => "reviews",
        RatingType::Nps => "nps",
        RatingType::Helpful => "insights",
    };
    let mut s = project_prefix(api_url, project);
    s.append("/");
    s.append(segment);
    s
}

// ============================================================================
// Picker options
// ============================================================================

/// The statuses offered when setting a feedback item's status.
pub open spec fn status_options() -> Seq<FeedbackStatus> {
    seq![
        FeedbackStatus::New,
        FeedbackStatus::Active,
        FeedbackStatus::Assigned,
        FeedbackStatus::Hold,
        FeedbackStatus::Closed,
        FeedbackStatus::Resolved,
    ]
}

/// Options for the status picker.
pub fn status_picker_options() -> (v: Vec<FeedbackStatus>)
    ensures
        v@ == status_options(),
{
    let v = vec![
        FeedbackStatus::New,
        FeedbackStatus::Active,
        FeedbackStatus::Assigned,
        FeedbackStatus::Hold,
        FeedbackStatus::Closed,
        FeedbackStatus::Resolved,
    ];
    assert(v@ =~= status_options());
    v
}

/// Options for the status filter. `None` = "All statuses".
pub fn status_filter_options() -> (v: Vec<Option<FeedbackStatus>>)
    ensures
        v@ == seq![None].add(status_options().map_values(|s: FeedbackStatus| Some(s))),
{
    let v = vec![
        None,
        Some(FeedbackStatus::New),
        Some(FeedbackStatus::Active),
        Some(FeedbackStatus::Assigned),
        Some(FeedbackStatus::Hold),
        Some(FeedbackStatus::Closed),
        Some(FeedbackStatus::Resolved),
    ];
    assert(v@ =~= seq![None].add(status_options().map_values(|s: FeedbackStatus| Some(s))));
    v
}

/// Options for the feedback type filter. `None` = "All types".
pub fn type_filter_options() -> (v: Vec<Option<FeedbackType>>)
    ensures
        v@ == seq![None].add(type_cycle().map_values(|t: FeedbackType| Some(t))),
{
    let v = vec![
        None,
        Some(FeedbackType::Bug),
        Some(FeedbackType::Feature),
        Some(FeedbackType::Praise),
        Some(FeedbackType::Question),
        Some(FeedbackType::Improvement),
        Some(FeedbackType::Other),
    ];
    assert(v@ =~= seq![None].add(type_cycle().map_values(|t: FeedbackType| Some(t))));
    v
}

/// Options for the in-place type setter (no "all" option).
pub fn type_picker_options() -> (v: Vec<FeedbackType>)
    ensures
        v@ == type_cycle(),
{
    let v = vec![
        FeedbackType::Bug,
        FeedbackType::Feature,
        FeedbackType::Praise,
        FeedbackType::Question,
        FeedbackType::Improvement,
        FeedbackType::Other,
    ];
    assert(v@ =~= type_cycle());
    v
}

/// The rating types offered by the rating filter, after "All types".
pub open spec fn rating_type_options() -> Seq<Option<RatingType>> {
    seq![None, Some(RatingType::Helpful), Some(RatingType::Star), Some(RatingType::Nps)]
}

/// Options for the rating type filter. `None` = "All types".
pub fn rating_type_filter_options() -> (v: Vec<Option<RatingType>>)
    ensures
        v@ == rating_type_options(),
{
    let v = vec![None, Some(RatingType::Helpful), Some(RatingType::Star), Some(RatingType::Nps)];
    assert(v@ =~= rating_type_options());
    v
}

} // verus!
