//! How the outcome of an effect — a listing, a change, a deletion, an opened
//! browser — lands in the interface's state.
use vstd::prelude::*;

use super::keys::{feedback_load, first_with_id, switcher_start, toast_says};
use super::{App, Effect, Modal, Screen, Toast, UpdatePurpose};
use crate::error::{cli_error_text, CliError};
use crate::models::{
    Feedback, FeedbackCounts, FeedbackListResponse, FeedbackStatus, NpsStats, ProjectListResponse,
    Rating, RatingListResponse,
};
use crate::text::{concat2, concat3};

verus! {

// ============================================================================
// Specification pieces
// ============================================================================

/// `i` is the first position of `v` holding a feedback item with this id.
pub open spec fn first_feedback_with_id(v: Seq<Feedback>, id: Seq<char>, i: int) -> bool {
    &&& 0 <= i < v.len()
    &&& v[i].id@ == id
    &&& forall|j: int| 0 <= j < i ==> v[j].id@ != id
}

/// `v` with the first item that has `updated`'s id replaced by `updated`;
/// `v` itself when no item has that id.
pub open spec fn with_updated(v: Seq<Feedback>, updated: Feedback) -> Seq<Feedback> {
    if exists|i: int| first_feedback_with_id(v, updated.id@, i) {
        v.update(choose|i: int| first_feedback_with_id(v, updated.id@, i), updated)
    } else {
        v
    }
}

/// The feedback items of `v` whose id is not `id`, in order.
pub open spec fn feedback_without(v: Seq<Feedback>, id: Seq<char>) -> Seq<Feedback> {
    v.filter(|f: Feedback| f.id@ != id)
}

/// Once a feedback item is deleted, no item with its id is left, and every
/// other item stays.
pub proof fn deleted_feedback_is_gone(v: Seq<Feedback>, id: Seq<char>)
    ensures
        forall|i: int|
            0 <= i < feedback_without(v, id).len() ==> (#[trigger] feedback_without(v, id)[i]).id@
                != id,
        forall|i: int|
            0 <= i < v.len() && (#[trigger] v[i]).id@ != id ==> feedback_without(v, id).contains(
                v[i],
            ),
{
    broadcast use vstd::seq_lib::group_filter_ensures;

}

/// Once a rating is deleted, no rating with its id is left, and every other
/// rating stays.
pub proof fn deleted_rating_is_gone(v: Seq<Rating>, id: Seq<char>)
    ensures
        forall|i: int|
            0 <= i < ratings_without(v, id).len() ==> (#[trigger] ratings_without(v, id)[i]).id@
                != id,
        forall|i: int|
            0 <= i < v.len() && (#[trigger] v[i]).id@ != id ==> ratings_without(v, id).contains(
                v[i],
            ),
{
    broadcast use vstd::seq_lib::group_filter_ensures;

}

/// The ratings of `v` whose id is not `id`, in order.
pub open spec fn ratings_without(v: Seq<Rating>, id: Seq<char>) -> Seq<Rating> {
    v.filter(|r: Rating| r.id@ != id)
}

/// The selection after items left a list that now holds `len` items: none
/// in an empty list, else the old position held within the list.
pub open spec fn clamped_selection(sel: Option<usize>, len: nat) -> Option<usize> {
    if len == 0 {
        None
    } else {
        let s: int = match sel {
            Some(i) => i as int,
            None => 0,
        };
        Some((if s < len - 1 { s } else { len - 1 }) as usize)
    }
}

/// After items leave a list, the selection points into what is left, and
/// is gone only when nothing is.
pub proof fn clamped_selection_in_list(sel: Option<usize>, len: nat)
    requires
        len <= usize::MAX,
    ensures
        clamped_selection(sel, len) matches Some(i) ==> i < len,
        clamped_selection(sel, len) is None <==> len == 0,
{
}

/// What the status line says after a successful change.
pub open spec fn update_toast_text(purpose: UpdatePurpose) -> Seq<char> {
    match purpose {
        UpdatePurpose::Status(s) => "Status → "@ + s.label(),
        UpdatePurpose::Type(t) => "Type → "@ + t.label(),
        UpdatePurpose::Message => "Message updated"@,
        UpdatePurpose::ResolutionNote => "Resolution note saved"@,
    }
}

/// The page count a listing reports, at least one.
pub open spec fn page_count(total_pages: i64) -> u64 {
    (if total_pages >= 1 { total_pages } else { 1 }) as u64
}

/// The projects have arrived (or failed to); the project switcher opens
/// afterwards when it was waiting for them.
pub open spec fn projects_loaded<H, S>(
    pre: App<H, S>,
    res: Result<ProjectListResponse, CliError>,
    open_switcher: bool,
    post: App<H, S>,
) -> bool {
    let loaded = match res {
        Ok(resp) => App {
            projects: resp.projects,
            projects_selected: if resp.projects@.len() > 0 && pre.projects_selected is None {
                Some(0)
            } else {
                pre.projects_selected
            },
            loading: false,
            ..pre
        },
        Err(e) => App { toast: post.toast, loading: false, ..pre },
    };
    &&& (res matches Err(e) ==> toast_says(
        post.toast,
        "Failed to load projects: "@ + cli_error_text(e),
        true,
    ))
    &&& post == if open_switcher {
        App {
            modal: Modal::ProjectSwitcher {
                cursor: switcher_start(loaded.projects@, loaded.selected_project),
            },
            ..loaded
        }
    } else {
        loaded
    }
}

/// A page of feedback has arrived (or failed to).
pub open spec fn feedback_loaded<H, S>(
    pre: App<H, S>,
    res: Result<FeedbackListResponse, CliError>,
    post: App<H, S>,
) -> bool {
    match res {
        Ok(resp) => post == App {
            feedback: resp.feedback,
            total_pages: page_count(resp.pagination.total_pages),
            feedback_selected: if resp.feedback@.len() == 0 {
                None
            } else {
                Some(0)
            },
            detail_scroll: 0,
            loading: false,
            ..pre
        },
        Err(e) => toast_says(post.toast, "Failed to load feedback: "@ + cli_error_text(e), true)
            && post == App { toast: post.toast, loading: false, ..pre },
    }
}

/// A page of ratings has arrived (or failed to).
pub open spec fn ratings_loaded<H, S>(
    pre: App<H, S>,
    res: Result<RatingListResponse, CliError>,
    post: App<H, S>,
) -> bool {
    match res {
        Ok(resp) => post == App {
            ratings: resp.ratings,
            ratings_total_pages: page_count(resp.pagination.total_pages),
            ratings_selected: if resp.ratings@.len() == 0 {
                None
            } else {
                Some(0)
            },
            rating_detail_scroll: 0,
            loading: false,
            ..pre
        },
        Err(e) => toast_says(post.toast, "Failed to load ratings: "@ + cli_error_text(e), true)
            && post == App { toast: post.toast, loading: false, ..pre },
    }
}

/// A change of a feedback item has been answered; after a status changed to
/// resolved the resolution note editor opens on the selected item.
pub open spec fn feedback_updated<H, S>(
    pre: App<H, S>,
    res: Result<Feedback, CliError>,
    purpose: UpdatePurpose,
    post: App<H, S>,
) -> bool {
    let changed = match res {
        Ok(updated) => App { feedback: post.feedback, toast: post.toast, ..pre },
        Err(e) => App { toast: post.toast, ..pre },
    };
    &&& match res {
        Ok(updated) => post.feedback@ == with_updated(pre.feedback@, updated) && toast_says(
            post.toast,
            update_toast_text(purpose),
            false,
        ),
        Err(e) => toast_says(post.toast, "Update failed: "@ + cli_error_text(e), true),
    }
    &&& if purpose == UpdatePurpose::Status(FeedbackStatus::Resolved) {
        match super::selected_item(changed.feedback@, changed.feedback_selected) {
            Some(fb) => {
                &&& post.modal matches Modal::ResolutionNote { id, project_id, note }
                &&& id == fb.id && project_id == fb.project_id
                &&& note@ == match fb.resolution_note {
                    Some(n) => n@,
                    None => Seq::empty(),
                }
                &&& post == App { modal: post.modal, ..changed }
            },
            None => post == changed,
        }
    } else {
        post == changed
    }
}

proof fn feedback_without_step(s: Seq<Feedback>, n: int, id: Seq<char>)
    requires
        0 <= n < s.len(),
    ensures
        feedback_without(s.take(n + 1), id) == if s[n].id@ != id {
            feedback_without(s.take(n), id).push(s[n])
        } else {
            feedback_without(s.take(n), id)
        },
{
    reveal_with_fuel(Seq::<_>::filter, 1);
    assert(s.take(n + 1).drop_last() =~= s.take(n));
}

proof fn ratings_without_step(s: Seq<Rating>, n: int, id: Seq<char>)
    requires
        0 <= n < s.len(),
    ensures
        ratings_without(s.take(n + 1), id) == if s[n].id@ != id {
            ratings_without(s.take(n), id).push(s[n])
        } else {
            ratings_without(s.take(n), id)
        },
{
    reveal_with_fuel(Seq::<_>::filter, 1);
    assert(s.take(n + 1).drop_last() =~= s.take(n));
}

// ============================================================================
// Outcomes
// ============================================================================

impl<H, S> App<H, S> {
    /// Shows `prefix` and the error's text on the status line.
    fn report_error(&mut self, prefix: &str, e: &CliError)
        ensures
            toast_says(final(self).toast, prefix@ + cli_error_text(*e), true),
            *final(self) == (App { toast: final(self).toast, ..*old(self) }),
    {
        let text = e.text();
        self.set_toast(concat2(prefix, text.as_str()), true);
    }

    /// Takes in the project list (or the failure to get it).
    pub fn on_projects_loaded(&mut self, res: Result<ProjectListResponse, CliError>, open_switcher: bool)
        requires
            old(self).wf(),
            res matches Ok(resp) ==> resp.projects@.len() <= isize::MAX,
        ensures
            projects_loaded(*old(self), res, open_switcher, *final(self)),
            final(self).wf(),
    {
        match res {
            Ok(resp) => {
                self.projects = resp.projects;
                if self.projects.len() > 0 && self.projects_selected.is_none() {
                    self.projects_selected = Some(0);
                }
            },
            Err(e) => self.report_error("Failed to load projects: ", &e),
        }
        self.loading = false;
        if open_switcher {
            let cursor = self.switcher_cursor();
            self.modal = Modal::ProjectSwitcher { cursor };
        }
    }

    /// Takes in a page of feedback (or the failure to get it).
    pub fn on_feedback_loaded(&mut self, res: Result<FeedbackListResponse, CliError>)
        requires
            old(self).wf(),
            res matches Ok(resp) ==> resp.feedback@.len() <= isize::MAX,
        ensures
            feedback_loaded(*old(self), res, *final(self)),
            final(self).wf(),
    {
        match res {
            Ok(resp) => {
                self.feedback = resp.feedback;
                let tp = resp.pagination.total_pages;
                self.total_pages = if tp >= 1 { tp as u64 } else { 1 };
                if self.feedback.len() == 0 {
                    self.feedback_selected = None;
                } else {
                    self.feedback_selected = Some(0);
                }
                self.detail_scroll = 0;
            },
            Err(e) => self.report_error("Failed to load feedback: ", &e),
        }
        self.loading = false;
    }

    /// Takes in a page of ratings (or the failure to get it).
    pub fn on_ratings_loaded(&mut self, res: Result<RatingListResponse, CliError>)
        requires
            old(self).wf(),
            res matches Ok(resp) ==> resp.ratings@.len() <= isize::MAX,
        ensures
            ratings_loaded(*old(self), res, *final(self)),
            final(self).wf(),
    {
        match res {
            Ok(resp) => {
                self.ratings = resp.ratings;
                let tp = resp.pagination.total_pages;
                self.ratings_total_pages = if tp >= 1 { tp as u64 } else { 1 };
                if self.ratings.len() == 0 {
                    self.ratings_selected = None;
                } else {
                    self.ratings_selected = Some(0);
                }
                self.rating_detail_scroll = 0;
            },
            Err(e) => self.report_error("Failed to load ratings: ", &e),
        }
        self.loading = false;
    }

    /// Takes in the statistics of a project; a statistic that could not be
    /// had counts as no data. With none at all the status line says so.
    pub fn on_stats_loaded(
        &mut self,
        project_id: String,
        feedback_stats: Option<FeedbackCounts>,
        helpful_stats: Option<H>,
        star_stats: Option<S>,
        nps_stats: Option<NpsStats>,
    )
        requires
            old(self).wf(),
        ensures
            final(self).wf(),
            *final(self) == (App {
                feedback_stats,
                helpful_stats,
                star_stats,
                nps_stats,
                stats_loaded_for: Some(project_id),
                loading: false,
                toast: final(self).toast,
                ..*old(self)
            }),
            if feedback_stats is None && helpful_stats is None && star_stats is None
                && nps_stats is None {
                toast_says(final(self).toast, "No stats available"@, true)
            } else {
                final(self).toast == old(self).toast
            },
    {
        let none =
            feedback_stats.is_none() && helpful_stats.is_none() && star_stats.is_none()
                && nps_stats.is_none();
        self.feedback_stats = feedback_stats;
        self.helpful_stats = helpful_stats;
        self.star_stats = star_stats;
        self.nps_stats = nps_stats;
        self.stats_loaded_for = Some(project_id);
        if none {
            self.set_toast(String::from_str("No stats available"), true);
        }
        self.loading = false;
    }

    /// The first position of a feedback item with this id.
    fn feedback_position(&self, id: &String) -> (res: Option<usize>)
        ensures
            match res {
                Some(i) => first_feedback_with_id(self.feedback@, id@, i as int),
                None => forall|j: int|
                    0 <= j < self.feedback@.len() ==> self.feedback@[j].id@ != id@,
            },
    {
        let mut i: usize = 0;
        while i < self.feedback.len()
            invariant
                i <= self.feedback@.len(),
                forall|j: int| 0 <= j < i ==> self.feedback@[j].id@ != id@,
            decreases self.feedback@.len() - i,
        {
            if self.feedback[i].id == *id {
                return Some(i);
            }
            i = i + 1;
        }
        None
    }

    /// Takes in the answer to a change of a feedback item.
    pub fn on_feedback_updated(&mut self, res: Result<Feedback, CliError>, purpose: UpdatePurpose)
        requires
            old(self).wf(),
        ensures
            feedback_updated(*old(self), res, purpose, *final(self)),
            final(self).wf(),
    {
        match res {
            Ok(updated) => {
                let pos = self.feedback_position(&updated.id);
                let ghost before = self.feedback@;
                let ghost upd = updated;
                match pos {
                    Some(i) => {
                        proof {
                            assert forall|j: int| first_feedback_with_id(before, upd.id@, j) implies j
                                == i by {
                                if j < i {
                                    assert(before[j].id@ != upd.id@);
                                } else if j > i {
                                    assert(before[i as int].id@ != upd.id@);
                                }
                            }
                        }
                        self.feedback.set(i, updated);
                    },
                    None => {},
                }
                let text = match purpose {
                    UpdatePurpose::Status(s) => concat2("Status → ", s.as_str()),
                    UpdatePurpose::Type(t) => concat2("Type → ", t.as_str()),
                    UpdatePurpose::Message => String::from_str("Message updated"),
                    UpdatePurpose::ResolutionNote => String::from_str("Resolution note saved"),
                };
                self.set_toast(text, false);
            },
            Err(e) => self.report_error("Update failed: ", &e),
        }
        if purpose == UpdatePurpose::Status(FeedbackStatus::Resolved) {
            let note_modal = match self.selected_feedback() {
                Some(fb) => Some(
                    Modal::ResolutionNote {
                        id: fb.id.clone(),
                        project_id: fb.project_id.clone(),
                        note: match &fb.resolution_note {
                            Some(n) => n.clone(),
                            None => String::new(),
                        },
                    },
                ),
                None => None,
            };
            if let Some(m) = note_modal {
                self.modal = m;
            }
        }
    }

    /// Takes in the answer to a deletion of the feedback item `feedback_id`.
    pub fn on_feedback_deleted(&mut self, feedback_id: &String, res: Result<(), CliError>)
        requires
            old(self).wf(),
        ensures
            final(self).wf(),
            match res {
                Ok(()) => {
                    &&& final(self).feedback@ == feedback_without(old(self).feedback@, feedback_id@)
                    &&& toast_says(final(self).toast, "Deleted"@, false)
                    &&& *final(self) == (App {
                        feedback: final(self).feedback,
                        feedback_selected: clamped_selection(
                            old(self).feedback_selected,
                            final(self).feedback@.len(),
                        ),
                        toast: final(self).toast,
                        ..*old(self)
                    })
                },
                Err(e) => toast_says(final(self).toast, "Delete failed: "@ + cli_error_text(e), true)
                    && *final(self) == (App { toast: final(self).toast, ..*old(self) }),
            },
    {
        match res {
            Ok(()) => {
                let mut kept: Vec<Feedback> = Vec::new();
                let mut rest: Vec<Feedback> = Vec::new();
                std::mem::swap(&mut rest, &mut self.feedback);
                let ghost orig = rest@;
                let mut n: usize = 0;
                assert(orig.take(0) =~= Seq::<Feedback>::empty());
                while rest.len() > 0
                    invariant
                        n + rest@.len() == orig.len(),
                        orig.len() <= isize::MAX,
                        rest@ == orig.skip(n as int),
                        kept@ == feedback_without(orig.take(n as int), feedback_id@),
                    decreases rest@.len(),
                {
                    proof {
                        feedback_without_step(orig, n as int, feedback_id@);
                    }
                    let f = rest.remove(0);
                    assert(f == orig[n as int]);
                    if f.id != *feedback_id {
                        kept.push(f);
                    }
                    assert(rest@ =~= orig.skip(n + 1));
                    n = n + 1;
                }
                assert(orig.take(n as int) =~= orig);
                self.feedback = kept;
                let len = self.feedback.len();
                if len == 0 {
                    self.feedback_selected = None;
                } else {
                    let sel = match self.feedback_selected {
                        Some(i) => i,
                        None => 0,
                    };
                    self.feedback_selected = Some(if sel < len - 1 { sel } else { len - 1 });
                }
                self.set_toast(String::from_str("Deleted"), false);
            },
            Err(e) => self.report_error("Delete failed: ", &e),
        }
    }

    /// Takes in the answer to a deletion of the rating `rating_id`.
    pub fn on_rating_deleted(&mut self, rating_id: &String, res: Result<(), CliError>)
        requires
            old(self).wf(),
        ensures
            final(self).wf(),
            match res {
                Ok(()) => {
                    &&& final(self).ratings@ == ratings_without(old(self).ratings@, rating_id@)
                    &&& toast_says(final(self).toast, "Deleted"@, false)
                    &&& *final(self) == (App {
                        ratings: final(self).ratings,
                        ratings_selected: clamped_selection(
                            old(self).ratings_selected,
                            final(self).ratings@.len(),
                        ),
                        toast: final(self).toast,
                        ..*old(self)
                    })
                },
                Err(e) => toast_says(final(self).toast, "Delete failed: "@ + cli_error_text(e), true)
                    && *final(self) == (App { toast: final(self).toast, ..*old(self) }),
            },
    {
        match res {
            Ok(()) => {
                let mut kept: Vec<Rating> = Vec::new();
                let mut rest: Vec<Rating> = Vec::new();
                std::mem::swap(&mut rest, &mut self.ratings);
                let ghost orig = rest@;
                let mut n: usize = 0;
                assert(orig.take(0) =~= Seq::<Rating>::empty());
                while rest.len() > 0
                    invariant
                        n + rest@.len() == orig.len(),
                        orig.len() <= isize::MAX,
                        rest@ == orig.skip(n as int),
                        kept@ == ratings_without(orig.take(n as int), rating_id@),
                    decreases rest@.len(),
                {
                    proof {
                        ratings_without_step(orig, n as int, rating_id@);
                    }
                    let r = rest.remove(0);
                    assert(r == orig[n as int]);
                    if r.id != *rating_id {
                        kept.push(r);
                    }
                    assert(rest@ =~= orig.skip(n + 1));
                    n = n + 1;
                }
                assert(orig.take(n as int) =~= orig);
                self.ratings = kept;
                let len = self.ratings.len();
                if len == 0 {
                    self.ratings_selected = None;
                } else {
                    let sel = match self.ratings_selected {
                        Some(i) => i,
                        None => 0,
                    };
                    self.ratings_selected = Some(if sel < len - 1 { sel } else { len - 1 });
                }
                self.set_toast(String::from_str("Deleted"), false);
            },
            Err(e) => self.report_error("Delete failed: ", &e),
        }
    }

    /// Takes in the answer to a new feedback item: it goes to the top of the
    /// list and becomes the selection.
    pub fn on_feedback_created(&mut self, res: Result<Feedback, CliError>)
        requires
            old(self).wf(),
            old(self).feedback@.len() < isize::MAX,
        ensures
            final(self).wf(),
            match res {
                Ok(fb) => {
                    &&& final(self).feedback@ == seq![fb] + old(self).feedback@
                    &&& toast_says(final(self).toast, "Feedback created"@, false)
                    &&& *final(self) == (App {
                        feedback: final(self).feedback,
                        feedback_selected: Some(0),
                        detail_scroll: 0,
                        toast: final(self).toast,
                        ..*old(self)
                    })
                },
                Err(e) => toast_says(final(self).toast, "Create failed: "@ + cli_error_text(e), true)
                    && *final(self) == (App { toast: final(self).toast, ..*old(self) }),
            },
    {
        match res {
            Ok(fb) => {
                self.feedback.insert(0, fb);
                assert(self.feedback@ =~= seq![fb] + old(self).feedback@);
                self.feedback_selected = Some(0);
                self.detail_scroll = 0;
                self.set_toast(String::from_str("Feedback created"), false);
            },
            Err(e) => self.report_error("Create failed: ", &e),
        }
    }

    /// Takes in whether the browser opened `url`; `res` carries the failure's
    /// description.
    pub fn on_url_opened(&mut self, url: &str, res: Result<(), String>)
        ensures
            match res {
                Ok(()) => toast_says(final(self).toast, "Opened "@ + url@, false),
                Err(e) => toast_says(final(self).toast, "Failed to open browser: "@ + e@, true),
            },
            *final(self) == (App { toast: final(self).toast, ..*old(self) }),
    {
        match res {
            Ok(()) => self.set_toast(concat2("Opened ", url), false),
            Err(e) => self.set_toast(concat2("Failed to open browser: ", e.as_str()), true),
        }
    }
    /// Opens the project named on the command line once the projects are
    /// there; the status line says so when no project has that id.
    pub fn open_initial_project(&mut self, project_id: &String) -> (eff: Effect)
        requires
            old(self).wf(),
        ensures
            final(self).wf(),
            if exists|i: int| first_with_id(old(self).projects@, project_id@, i) {
                let i = choose|i: int| first_with_id(old(self).projects@, project_id@, i);
                &&& final(self).selected_project matches Some(sp) && sp.same(
                    old(self).projects@[i],
                )
                &&& *final(self) == (App {
                    selected_project: final(self).selected_project,
                    screen: Screen::Project,
                    ..*old(self)
                })
                &&& eff == feedback_load(*final(self))
            } else {
                &&& toast_says(
                    final(self).toast,
                    "Project "@ + project_id@ + " not found"@,
                    true,
                )
                &&& *final(self) == (App { toast: final(self).toast, ..*old(self) })
                &&& eff is Nothing
            },
    {
        match self.project_position(project_id) {
            Some(i) => {
                proof {
                    assert forall|j: int| first_with_id(self.projects@, project_id@, j) implies j
                        == i by {
                        if j < i {
                            assert(self.projects@[j].id@ != project_id@);
                        } else if j > i {
                            assert(self.projects@[i as int].id@ != project_id@);
                        }
                    }
                }
                let p = self.projects[i].duplicate();
                self.selected_project = Some(p);
                self.screen = Screen::Project;
                self.feedback_load_effect()
            },
            None => {
                self.set_toast(concat3("Project ", project_id.as_str(), " not found"), true);
                Effect::Nothing
            },
        }
    }
}

// ============================================================================
// Laws of the outcomes
// ============================================================================

/// After a successful change, the first item that has the changed item's
/// id shows the API's answer in its place; every other item stays as it
/// was, and the list keeps its length.
pub proof fn updated_feedback_replaces_its_item<H, S>(
    pre: App<H, S>,
    updated: Feedback,
    purpose: UpdatePurpose,
    post: App<H, S>,
)
    requires
        feedback_updated(pre, Ok(updated), purpose, post),
    ensures
        post.feedback@.len() == pre.feedback@.len(),
        forall|k: int|
            0 <= k < pre.feedback@.len() && pre.feedback@[k].id@ == updated.id@ && (forall|j: int|
                0 <= j < k ==> pre.feedback@[j].id@ != updated.id@) ==> #[trigger] post.feedback@[k]
                == updated,
        forall|j: int|
            0 <= j < pre.feedback@.len() ==> #[trigger] post.feedback@[j] == pre.feedback@[j] || (
            pre.feedback@[j].id@ == updated.id@ && post.feedback@[j] == updated),
{
    let v = pre.feedback@;
    let id = updated.id@;
    if exists|i: int| first_feedback_with_id(v, id, i) {
        let c = choose|i: int| first_feedback_with_id(v, id, i);
        assert(post.feedback@ == v.update(c, updated));
        assert forall|k: int|
            0 <= k < v.len() && v[k].id@ == id && (forall|j: int| 0 <= j < k ==> v[j].id@ != id)
            implies #[trigger] post.feedback@[k] == updated by {
            if k < c {
                assert(v[k].id@ != id);
            } else if k > c {
                assert(v[c].id@ != id);
            }
        }
    } else {
        assert(post.feedback@ == v);
        assert forall|k: int|
            0 <= k < v.len() && v[k].id@ == id && (forall|j: int| 0 <= j < k ==> v[j].id@ != id)
            implies #[trigger] post.feedback@[k] == updated by {
            assert(first_feedback_with_id(v, id, k));
        }
    }
}

/// A change the API refused leaves the list as it was.
pub proof fn refused_update_keeps_the_list<H, S>(
    pre: App<H, S>,
    e: CliError,
    purpose: UpdatePurpose,
    post: App<H, S>,
)
    requires
        feedback_updated(pre, Err(e), purpose, post),
    ensures
        post.feedback == pre.feedback,
        post.feedback_selected == pre.feedback_selected,
{
}

/// A page of feedback that arrived is the list on show, with the first item
/// selected (nothing when the page is empty); the page count is the one
/// reported, at least one, and the page and filters stay.
pub proof fn loaded_feedback_is_shown<H, S>(
    pre: App<H, S>,
    resp: FeedbackListResponse,
    post: App<H, S>,
)
    requires
        feedback_loaded(pre, Ok(resp), post),
    ensures
        post.feedback == resp.feedback,
        resp.feedback@.len() == 0 ==> post.feedback_selected is None,
        resp.feedback@.len() > 0 ==> post.feedback_selected == Some(0usize),
        post.total_pages >= 1,
        resp.pagination.total_pages >= 1 ==> post.total_pages == resp.pagination.total_pages,
        post.page == pre.page,
        post.status_filter == pre.status_filter,
        post.type_filter == pre.type_filter,
        post.search == pre.search,
        post.ratings == pre.ratings,
{
}

/// A page of ratings that arrived is the list on show, with the first
/// rating selected (nothing when the page is empty); the page count is the
/// one reported, at least one, and the page and filters stay.
pub proof fn loaded_ratings_are_shown<H, S>(
    pre: App<H, S>,
    resp: RatingListResponse,
    post: App<H, S>,
)
    requires
        ratings_loaded(pre, Ok(resp), post),
    ensures
        post.ratings == resp.ratings,
        resp.ratings@.len() == 0 ==> post.ratings_selected is None,
        resp.ratings@.len() > 0 ==> post.ratings_selected == Some(0usize),
        post.ratings_total_pages >= 1,
        resp.pagination.total_pages >= 1 ==> post.ratings_total_pages
            == resp.pagination.total_pages,
        post.ratings_page == pre.ratings_page,
        post.rating_type_filter == pre.rating_type_filter,
        post.rating_path_filter == pre.rating_path_filter,
        post.feedback == pre.feedback,
{
}

/// The projects that arrived are the list on show; a selection already made
/// stays, and otherwise the first project is selected.
pub proof fn loaded_projects_are_shown<H, S>(
    pre: App<H, S>,
    resp: ProjectListResponse,
    open_switcher: bool,
    post: App<H, S>,
)
    requires
        projects_loaded(pre, Ok(resp), open_switcher, post),
    ensures
        post.projects == resp.projects,
        pre.projects_selected is Some ==> post.projects_selected == pre.projects_selected,
        pre.projects_selected is None && resp.projects@.len() > 0 ==> post.projects_selected
            == Some(0usize),
        pre.projects_selected is None && resp.projects@.len() == 0
            ==> post.projects_selected is None,
        post.selected_project == pre.selected_project,
        post.feedback == pre.feedback,
{
}

/// A list that failed to load stays as it was, and the status line reports
/// the failure.
pub proof fn failed_load_keeps_the_lists<H, S>(
    pre: App<H, S>,
    e: CliError,
    fb_post: App<H, S>,
    ratings_post: App<H, S>,
)
    requires
        feedback_loaded(pre, Err(e), fb_post),
        ratings_loaded(pre, Err(e), ratings_post),
    ensures
        fb_post.feedback == pre.feedback,
        fb_post.feedback_selected == pre.feedback_selected,
        fb_post.toast matches Some(t) && t.is_error,
        ratings_post.ratings == pre.ratings,
        ratings_post.ratings_selected == pre.ratings_selected,
        ratings_post.toast matches Some(t) && t.is_error,
{
}

/// After items leave a list, a selection that still points into the list
/// stays where it was; one past the end moves to the last item.
pub proof fn selection_stays_when_it_can(sel: Option<usize>, len: nat)
    requires
        len <= usize::MAX,
    ensures
        sel matches Some(i) && i < len ==> clamped_selection(sel, len) == sel,
        sel matches Some(i) && i >= len && len > 0 ==> clamped_selection(sel, len) == Some(
            (len - 1) as usize,
        ),
        sel is None && len > 0 ==> clamped_selection(sel, len) == Some(0usize),
{
}

} // verus!
