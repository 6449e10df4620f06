//! What each key press does to the interface's state, and which effect it
//! asks for.
use vstd::prelude::*;

use super::{
    cycle_type, cycled_type, rating_type_filter_options, rating_type_options, status_filter_options,
    status_options, status_picker_options, type_cycle, type_filter_options, type_picker_options,
    UpdatePurpose, feedback_dashboard_url, feedback_url, move_list, moved_selection, project_dashboard_url,
    project_url, rating_dashboard_url, rating_url, selected_item, App, Effect, FeedbackPane, Key,
    KeyPress, Modal, ProjectView, Screen, PAGE_SIZE,
};
use crate::models::{
    FeedbackCreateRequest, FeedbackStatus, FeedbackType, FeedbackUpdateRequest, Project,
};
use crate::text::{clone_opt, is_blank, pop_char, push_char, trim, trim_ws};

verus! {

// ============================================================================
// Shared pieces of the key specification
// ============================================================================

/// The feedback listing for the open project, with the current page and
/// filters; nothing when no project is open.
pub open spec fn feedback_load<H, S>(a: App<H, S>) -> Effect {
    match a.selected_project {
        Some(p) => Effect::LoadFeedback {
            project_id: p.id,
            page: a.page,
            limit: PAGE_SIZE,
            status: a.status_filter,
            feedback_type: a.type_filter,
            search: a.search,
        },
        None => Effect::Nothing,
    }
}

/// The rating listing for the open project, with the current page and
/// filters; nothing when no project is open.
pub open spec fn ratings_load<H, S>(a: App<H, S>) -> Effect {
    match a.selected_project {
        Some(p) => Effect::LoadRatings {
            project_id: p.id,
            page: a.ratings_page,
            limit: PAGE_SIZE,
            rating_type: a.rating_type_filter,
            path: a.rating_path_filter,
        },
        None => Effect::Nothing,
    }
}

/// The statistics of the open project; nothing when no project is open.
pub open spec fn stats_load<H, S>(a: App<H, S>) -> Effect {
    match a.selected_project {
        Some(p) => Effect::LoadStats { project_id: p.id },
        None => Effect::Nothing,
    }
}

/// The statistics on show do not belong to the open project.
pub open spec fn stats_stale<H, S>(a: App<H, S>) -> bool {
    match (a.stats_loaded_for, a.selected_project) {
        (Some(loaded), Some(p)) => loaded@ != p.id@,
        _ => true,
    }
}

/// `i` is the first position of `ps` holding a project with this id.
pub open spec fn first_with_id(ps: Seq<Project>, id: Seq<char>, i: int) -> bool {
    &&& 0 <= i < ps.len()
    &&& ps[i].id@ == id
    &&& forall|j: int| 0 <= j < i ==> ps[j].id@ != id
}

/// Where the project switcher's cursor starts: on the open project when
/// the list holds it, else on the first entry.
pub open spec fn switcher_start(ps: Seq<Project>, open: Option<Project>) -> usize {
    match open {
        Some(p) => if exists|i: int| first_with_id(ps, p.id@, i) {
            (choose|i: int| first_with_id(ps, p.id@, i)) as usize
        } else {
            0
        },
        None => 0,
    }
}

/// The detail view scrolled one line down, stopping at the limit.
pub open spec fn scrolled_down(x: u16) -> u16 {
    if x < u16::MAX {
        (x + 1) as u16
    } else {
        x
    }
}

/// The detail view scrolled one line up, stopping at the top.
pub open spec fn scrolled_up(x: u16) -> u16 {
    if x > 0 {
        (x - 1) as u16
    } else {
        0
    }
}

/// The state shows `text` on the status line.
pub open spec fn toast_says(t: Option<super::Toast>, text: Seq<char>, is_error: bool) -> bool {
    t matches Some(toast) && toast.text@ == text && toast.is_error == is_error
}

// ============================================================================
// Projects screen
// ============================================================================

/// A key press on the project list.
pub open spec fn projects_key_step<H, S>(
    pre: App<H, S>,
    k: KeyPress,
    post: App<H, S>,
    eff: Effect,
) -> bool {
    let c = k.code;
    let len = pre.projects@.len();
    if c == Key::Char('q') || c == Key::Esc {
        post == App { should_quit: true, ..pre } && eff is Nothing
    } else if c == Key::Char('?') {
        post == App { modal: Modal::Help, ..pre } && eff is Nothing
    } else if c == Key::Char('r') {
        post == pre && eff == Effect::LoadProjects { then_open_switcher: false }
    } else if c == Key::Down || c == Key::Char('j') {
        post == App { projects_selected: moved_selection(pre.projects_selected, len, 1), ..pre }
            && eff is Nothing
    } else if c == Key::Up || c == Key::Char('k') {
        post == App { projects_selected: moved_selection(pre.projects_selected, len, -1), ..pre }
            && eff is Nothing
    } else if c == Key::Char('g') || c == Key::Home {
        post == (if len > 0 {
            App { projects_selected: Some(0), ..pre }
        } else {
            pre
        }) && eff is Nothing
    } else if c == Key::Char('G') || c == Key::End {
        post == (if len > 0 {
            App { projects_selected: Some((len - 1) as usize), ..pre }
        } else {
            pre
        }) && eff is Nothing
    } else if c == Key::Char('o') {
        post == pre && match selected_item(pre.projects@, pre.projects_selected) {
            Some(p) => eff matches Effect::OpenUrl { url } && url@ == project_url(
                pre.api_url@,
                p,
            ),
            None => eff is Nothing,
        }
    } else if c == Key::Enter {
        match selected_item(pre.projects@, pre.projects_selected) {
            Some(p) => {
                &&& post.selected_project matches Some(sp) && sp.same(p)
                &&& post == App {
                    selected_project: post.selected_project,
                    screen: Screen::Project,
                    project_view: ProjectView::Feedback,
                    page: 1,
                    ..pre
                }
                &&& eff == feedback_load(post)
            },
            None => post == pre && eff is Nothing,
        }
    } else {
        post == pre && eff is Nothing
    }
}

// ============================================================================
// Project screen: keys common to all tabs, then the tab's own keys
// ============================================================================

/// A key press on the project screen.
pub open spec fn project_key_step<H, S>(
    pre: App<H, S>,
    k: KeyPress,
    post: App<H, S>,
    eff: Effect,
) -> bool {
    let c = k.code;
    if c == Key::Char('q') {
        post == App { should_quit: true, ..pre } && eff is Nothing
    } else if c == Key::Esc || c == Key::Char('b') {
        App::project_state_reset(App { screen: Screen::Projects, ..pre }, post) && eff is Nothing
    } else if c == Key::Char('?') {
        post == App { modal: Modal::Help, ..pre } && eff is Nothing
    } else if c == Key::Char('p') {
        if pre.projects@.len() == 0 {
            post == pre && eff == Effect::LoadProjects { then_open_switcher: true }
        } else {
            post == App {
                modal: Modal::ProjectSwitcher {
                    cursor: switcher_start(pre.projects@, pre.selected_project),
                },
                ..pre
            } && eff is Nothing
        }
    } else if c == Key::Char('0') {
        if pre.project_view != ProjectView::Overview {
            let mid = App { project_view: ProjectView::Overview, ..pre };
            post == mid && eff == (if stats_stale(pre) {
                stats_load(mid)
            } else {
                Effect::Nothing
            })
        } else {
            post == pre && eff is Nothing
        }
    } else if c == Key::Char('1') {
        if pre.project_view != ProjectView::Feedback {
            let mid = App { project_view: ProjectView::Feedback, ..pre };
            post == mid && eff == (if pre.feedback@.len() == 0 {
                feedback_load(mid)
            } else {
                Effect::Nothing
            })
        } else {
            post == pre && eff is Nothing
        }
    } else if c == Key::Char('2') {
        if pre.project_view != ProjectView::Ratings {
            let mid = App { project_view: ProjectView::Ratings, ..pre };
            post == mid && eff == (if pre.ratings@.len() == 0 {
                ratings_load(mid)
            } else {
                Effect::Nothing
            })
        } else {
            post == pre && eff is Nothing
        }
    } else {
        match pre.project_view {
            ProjectView::Overview => overview_key_step(pre, k, post, eff),
            ProjectView::Feedback => feedback_key_step(pre, k, post, eff),
            ProjectView::Ratings => ratings_key_step(pre, k, post, eff),
        }
    }
}

/// A key press on the overview tab.
pub open spec fn overview_key_step<H, S>(
    pre: App<H, S>,
    k: KeyPress,
    post: App<H, S>,
    eff: Effect,
) -> bool {
    post == pre && if k.code == Key::Char('r') {
        eff == stats_load(pre)
    } else if k.code == Key::Char('o') {
        match pre.selected_project {
            Some(p) => eff matches Effect::OpenUrl { url } && url@ == project_url(pre.api_url@, p),
            None => eff is Nothing,
        }
    } else {
        eff is Nothing
    }
}

/// A key press on the feedback tab.
pub open spec fn feedback_key_step<H, S>(
    pre: App<H, S>,
    k: KeyPress,
    post: App<H, S>,
    eff: Effect,
) -> bool {
    let c = k.code;
    let len = pre.feedback@.len();
    let sel = selected_item(pre.feedback@, pre.feedback_selected);
    if c == Key::Tab {
        post == App {
            feedback_pane: if pre.feedback_pane == FeedbackPane::List {
                FeedbackPane::Detail
            } else {
                FeedbackPane::List
            },
            ..pre
        } && eff is Nothing
    } else if c == Key::Char('r') {
        post == pre && eff == feedback_load(pre)
    } else if c == Key::Char('/') {
        &&& post.modal matches Modal::Search { buffer } && buffer@ == match pre.search {
            Some(s) => s@,
            None => Seq::empty(),
        }
        &&& post == App { modal: post.modal, ..pre }
        &&& eff is Nothing
    } else if c == Key::Char('s') {
        post == (if sel is Some {
            App { modal: Modal::StatusPicker { cursor: 0 }, ..pre }
        } else {
            pre
        }) && eff is Nothing
    } else if c == Key::Char('S') {
        post == App { modal: Modal::StatusFilter { cursor: 0 }, ..pre } && eff is Nothing
    } else if c == Key::Char('t') {
        post == (if sel is Some {
            App { modal: Modal::TypePicker { cursor: 0 }, ..pre }
        } else {
            pre
        }) && eff is Nothing
    } else if c == Key::Char('T') {
        post == App { modal: Modal::TypeFilter { cursor: 0 }, ..pre } && eff is Nothing
    } else if c == Key::Char('e') {
        post == (match sel {
            Some(fb) => App {
                modal: Modal::EditMessage { id: fb.id, project_id: fb.project_id, message: fb.message },
                ..pre
            },
            None => pre,
        }) && eff is Nothing
    } else if c == Key::Char('o') {
        post == pre && match (sel, pre.selected_project) {
            (Some(fb), Some(p)) => eff matches Effect::OpenUrl { url } && url@ == feedback_url(
                pre.api_url@,
                p,
                fb.id@,
            ),
            _ => eff is Nothing,
        }
    } else if c == Key::Char('c') {
        let mid = App { status_filter: None, type_filter: None, search: None, page: 1, ..pre };
        post == mid && eff == feedback_load(mid)
    } else if c == Key::Char('d') {
        post == (if sel is Some {
            App { modal: Modal::ConfirmDelete, ..pre }
        } else {
            pre
        }) && eff is Nothing
    } else if c == Key::Char('N') {
        &&& post.modal matches Modal::Compose { message, feedback_type } && message@.len() == 0
            && feedback_type == FeedbackType::Bug
        &&& post == App { modal: post.modal, ..pre }
        &&& eff is Nothing
    } else if c == Key::Char('n') {
        if pre.page < pre.total_pages {
            let mid = App { page: (pre.page + 1) as u64, ..pre };
            post == mid && eff == feedback_load(mid)
        } else {
            post == pre && eff is Nothing
        }
    } else if c == Key::Char('p') {
        if pre.page > 1 {
            let mid = App { page: (pre.page - 1) as u64, ..pre };
            post == mid && eff == feedback_load(mid)
        } else {
            post == pre && eff is Nothing
        }
    } else if c == Key::Down || c == Key::Char('j') {
        post == (if pre.feedback_pane == FeedbackPane::Detail {
            App { detail_scroll: scrolled_down(pre.detail_scroll), ..pre }
        } else {
            App {
                feedback_selected: moved_selection(pre.feedback_selected, len, 1),
                detail_scroll: 0,
                ..pre
            }
        }) && eff is Nothing
    } else if c == Key::Up || c == Key::Char('k') {
        post == (if pre.feedback_pane == FeedbackPane::Detail {
            App { detail_scroll: scrolled_up(pre.detail_scroll), ..pre }
        } else {
            App {
                feedback_selected: moved_selection(pre.feedback_selected, len, -1),
                detail_scroll: 0,
                ..pre
            }
        }) && eff is Nothing
    } else if c == Key::PageDown {
        post == App {
            feedback_selected: moved_selection(pre.feedback_selected, len, 10),
            detail_scroll: 0,
            ..pre
        } && eff is Nothing
    } else if c == Key::PageUp {
        post == App {
            feedback_selected: moved_selection(pre.feedback_selected, len, -10),
            detail_scroll: 0,
            ..pre
        } && eff is Nothing
    } else if c == Key::Home || c == Key::Char('g') {
        post == (if len > 0 {
            App { feedback_selected: Some(0), detail_scroll: 0, ..pre }
        } else {
            pre
        }) && eff is Nothing
    } else if c == Key::End || c == Key::Char('G') {
        post == (if len > 0 {
            App { feedback_selected: Some((len - 1) as usize), detail_scroll: 0, ..pre }
        } else {
            pre
        }) && eff is Nothing
    } else {
        post == pre && eff is Nothing
    }
}

/// A key press on the ratings tab.
pub open spec fn ratings_key_step<H, S>(
    pre: App<H, S>,
    k: KeyPress,
    post: App<H, S>,
    eff: Effect,
) -> bool {
    let c = k.code;
    let len = pre.ratings@.len();
    let sel = selected_item(pre.ratings@, pre.ratings_selected);
    if c == Key::Tab {
        post == App {
            ratings_pane: if pre.ratings_pane == FeedbackPane::List {
                FeedbackPane::Detail
            } else {
                FeedbackPane::List
            },
            ..pre
        } && eff is Nothing
    } else if c == Key::Char('r') {
        post == pre && eff == ratings_load(pre)
    } else if c == Key::Char('t') {
        post == App { modal: Modal::RatingTypeFilter { cursor: 0 }, ..pre } && eff is Nothing
    } else if c == Key::Char('P') {
        &&& post.modal matches Modal::RatingPathFilter { buffer } && buffer@
            == match pre.rating_path_filter {
            Some(s) => s@,
            None => Seq::empty(),
        }
        &&& post == App { modal: post.modal, ..pre }
        &&& eff is Nothing
    } else if c == Key::Char('o') {
        post == pre && match (sel, pre.selected_project) {
            (Some(r), Some(p)) => eff matches Effect::OpenUrl { url } && url@ == rating_url(
                pre.api_url@,
                p,
                r,
            ),
            _ => eff is Nothing,
        }
    } else if c == Key::Char('c') {
        let mid = App { rating_type_filter: None, rating_path_filter: None, ratings_page: 1, ..pre };
        post == mid && eff == ratings_load(mid)
    } else if c == Key::Char('d') {
        post == (if sel is Some {
            App { modal: Modal::ConfirmDelete, ..pre }
        } else {
            pre
        }) && eff is Nothing
    } else if c == Key::Char('n') {
        if pre.ratings_page < pre.ratings_total_pages {
            let mid = App { ratings_page: (pre.ratings_page + 1) as u64, ..pre };
            post == mid && eff == ratings_load(mid)
        } else {
            post == pre && eff is Nothing
        }
    } else if c == Key::Down || c == Key::Char('j') {
        post == (if pre.ratings_pane == FeedbackPane::Detail {
            App { rating_detail_scroll: scrolled_down(pre.rating_detail_scroll), ..pre }
        } else {
            App {
                ratings_selected: moved_selection(pre.ratings_selected, len, 1),
                rating_detail_scroll: 0,
                ..pre
            }
        }) && eff is Nothing
    } else if c == Key::Up || c == Key::Char('k') {
        post == (if pre.ratings_pane == FeedbackPane::Detail {
            App { rating_detail_scroll: scrolled_up(pre.rating_detail_scroll), ..pre }
        } else {
            App {
                ratings_selected: moved_selection(pre.ratings_selected, len, -1),
                rating_detail_scroll: 0,
                ..pre
            }
        }) && eff is Nothing
    } else if c == Key::PageDown {
        post == App {
            ratings_selected: moved_selection(pre.ratings_selected, len, 10),
            rating_detail_scroll: 0,
            ..pre
        } && eff is Nothing
    } else if c == Key::PageUp {
        post == App {
            ratings_selected: moved_selection(pre.ratings_selected, len, -10),
            rating_detail_scroll: 0,
            ..pre
        } && eff is Nothing
    } else if c == Key::Home || c == Key::Char('g') {
        post == (if len > 0 {
            App { ratings_selected: Some(0), rating_detail_scroll: 0, ..pre }
        } else {
            pre
        }) && eff is Nothing
    } else if c == Key::End || c == Key::Char('G') {
        post == (if len > 0 {
            App { ratings_selected: Some((len - 1) as usize), rating_detail_scroll: 0, ..pre }
        } else {
            pre
        }) && eff is Nothing
    } else {
        post == pre && eff is Nothing
    }
}

// ============================================================================
// Modal overlays
// ============================================================================

/// A picker's cursor after an arrow key: up stops at the first option, down
/// at the last of `n`.
pub open spec fn picker_cursor(cursor: usize, n: nat, c: Key) -> usize {
    if c == Key::Up || c == Key::Char('k') {
        if cursor > 0 {
            (cursor - 1) as usize
        } else {
            0
        }
    } else if cursor + 1 < n {
        (cursor + 1) as usize
    } else {
        cursor
    }
}

/// The key moves a picker's cursor.
pub open spec fn is_arrow(c: Key) -> bool {
    c == Key::Up || c == Key::Char('k') || c == Key::Down || c == Key::Char('j')
}

/// The option of the status filter at position `i`: all statuses first,
/// then each status.
pub open spec fn status_filter_option(i: int) -> Option<FeedbackStatus> {
    if i == 0 {
        None
    } else {
        Some(status_options()[i - 1])
    }
}

/// The option of the type filter at position `i`: all types first, then
/// each type.
pub open spec fn type_filter_option(i: int) -> Option<FeedbackType> {
    if i == 0 {
        None
    } else {
        Some(type_cycle()[i - 1])
    }
}

/// A change of one field of the selected feedback item, asked of the API.
pub open spec fn update_of<H, S>(pre: App<H, S>, body: FeedbackUpdateRequest, purpose: UpdatePurpose) -> Effect {
    match selected_item(pre.feedback@, pre.feedback_selected) {
        Some(fb) => Effect::UpdateFeedback {
            project_id: fb.project_id,
            feedback_id: fb.id,
            body,
            purpose,
        },
        None => Effect::Nothing,
    }
}

/// A body that changes only the status.
pub open spec fn status_body(s: FeedbackStatus) -> FeedbackUpdateRequest {
    FeedbackUpdateRequest { message: None, feedback_type: None, status: Some(s), resolution_note: None }
}

/// A body that changes only the type.
pub open spec fn type_body(t: FeedbackType) -> FeedbackUpdateRequest {
    FeedbackUpdateRequest { message: None, feedback_type: Some(t), status: None, resolution_note: None }
}

/// A multi-line text after an editing key: Enter adds a line break,
/// Backspace removes the last character, a character typed without Control
/// is added; other keys leave it.
pub open spec fn edited_text(t: Seq<char>, k: KeyPress) -> Seq<char> {
    if k.code == Key::Enter {
        t.push('\n')
    } else if k.code == Key::Backspace {
        if t.len() > 0 {
            t.drop_last()
        } else {
            t
        }
    } else {
        match k.code {
            Key::Char(ch) => if !k.ctrl {
                t.push(ch)
            } else {
                t
            },
            _ => t,
        }
    }
}

/// A one-line query after a key that is neither Esc nor Enter: Backspace
/// removes the last character and any character is added.
pub open spec fn edited_query(t: Seq<char>, c: Key) -> Seq<char> {
    if c == Key::Backspace {
        if t.len() > 0 {
            t.drop_last()
        } else {
            t
        }
    } else {
        match c {
            Key::Char(ch) => t.push(ch),
            _ => t,
        }
    }
}

/// The key is Control+S, which saves or submits an editor.
pub open spec fn is_save(k: KeyPress) -> bool {
    k.ctrl && k.code == Key::Char('s')
}

/// A key press while an overlay is open.
pub open spec fn modal_key_step<H, S>(
    pre: App<H, S>,
    k: KeyPress,
    post: App<H, S>,
    eff: Effect,
) -> bool {
    let c = k.code;
    let closed = App { modal: Modal::Inactive, ..pre };
    match pre.modal {
        Modal::Inactive => post == pre && eff is Nothing,
        Modal::Help => eff is Nothing && post == (if c == Key::Esc || c == Key::Enter || c
            == Key::Char('?') || c == Key::Char('q') {
            closed
        } else {
            pre
        }),
        Modal::Search { buffer } => if c == Key::Esc {
            post == closed && eff is Nothing
        } else if c == Key::Enter {
            let mid = App {
                search: if buffer@.len() == 0 {
                    None
                } else {
                    Some(buffer)
                },
                modal: Modal::Inactive,
                page: 1,
                ..pre
            };
            post == mid && eff == feedback_load(mid)
        } else if c == Key::Backspace || c is Char {
            &&& post.modal matches Modal::Search { buffer: b } && b@ == edited_query(buffer@, c)
            &&& post == App { modal: post.modal, ..pre }
            &&& eff is Nothing
        } else {
            post == pre && eff is Nothing
        },
        Modal::RatingPathFilter { buffer } => if c == Key::Esc {
            post == closed && eff is Nothing
        } else if c == Key::Enter {
            let mid = App {
                rating_path_filter: if buffer@.len() == 0 {
                    None
                } else {
                    Some(buffer)
                },
                modal: Modal::Inactive,
                ratings_page: 1,
                ..pre
            };
            post == mid && eff == ratings_load(mid)
        } else if c == Key::Backspace || c is Char {
            &&& post.modal matches Modal::RatingPathFilter { buffer: b } && b@ == edited_query(
                buffer@,
                c,
            )
            &&& post == App { modal: post.modal, ..pre }
            &&& eff is Nothing
        } else {
            post == pre && eff is Nothing
        },
        Modal::StatusPicker { cursor } => if c == Key::Esc {
            post == closed && eff is Nothing
        } else if is_arrow(c) {
            post == App { modal: Modal::StatusPicker { cursor: picker_cursor(cursor, 6, c) }, ..pre }
                && eff is Nothing
        } else if c == Key::Enter {
            let status = status_options()[cursor as int];
            post == closed && eff == update_of(pre, status_body(status), UpdatePurpose::Status(status))
        } else {
            post == pre && eff is Nothing
        },
        Modal::StatusFilter { cursor } => if c == Key::Esc {
            post == closed && eff is Nothing
        } else if is_arrow(c) {
            post == App { modal: Modal::StatusFilter { cursor: picker_cursor(cursor, 7, c) }, ..pre }
                && eff is Nothing
        } else if c == Key::Enter {
            let mid = App {
                status_filter: status_filter_option(cursor as int),
                modal: Modal::Inactive,
                page: 1,
                ..pre
            };
            post == mid && eff == feedback_load(mid)
        } else {
            post == pre && eff is Nothing
        },
        Modal::TypeFilter { cursor } => if c == Key::Esc {
            post == closed && eff is Nothing
        } else if is_arrow(c) {
            post == App { modal: Modal::TypeFilter { cursor: picker_cursor(cursor, 7, c) }, ..pre }
                && eff is Nothing
        } else if c == Key::Enter {
            let mid = App {
                type_filter: type_filter_option(cursor as int),
                modal: Modal::Inactive,
                page: 1,
                ..pre
            };
            post == mid && eff == feedback_load(mid)
        } else {
            post == pre && eff is Nothing
        },
        Modal::TypePicker { cursor } => if c == Key::Esc {
            post == closed && eff is Nothing
        } else if is_arrow(c) {
            post == App { modal: Modal::TypePicker { cursor: picker_cursor(cursor, 6, c) }, ..pre }
                && eff is Nothing
        } else if c == Key::Enter {
            let t = type_cycle()[cursor as int];
            post == closed && eff == update_of(pre, type_body(t), UpdatePurpose::Type(t))
        } else {
            post == pre && eff is Nothing
        },
        Modal::RatingTypeFilter { cursor } => if c == Key::Esc {
            post == closed && eff is Nothing
        } else if is_arrow(c) {
            post == App {
                modal: Modal::RatingTypeFilter { cursor: picker_cursor(cursor, 4, c) },
                ..pre
            } && eff is Nothing
        } else if c == Key::Enter {
            let mid = App {
                rating_type_filter: rating_type_options()[cursor as int],
                modal: Modal::Inactive,
                ratings_page: 1,
                ..pre
            };
            post == mid && eff == ratings_load(mid)
        } else {
            post == pre && eff is Nothing
        },
        Modal::ConfirmDelete => if c == Key::Char('y') || c == Key::Char('Y') {
            post == closed && eff == match pre.project_view {
                ProjectView::Feedback => match selected_item(pre.feedback@, pre.feedback_selected) {
                    Some(fb) => Effect::DeleteFeedback { project_id: fb.project_id, feedback_id: fb.id },
                    None => Effect::Nothing,
                },
                ProjectView::Ratings => match selected_item(pre.ratings@, pre.ratings_selected) {
                    Some(r) => Effect::DeleteRating { project_id: r.project_id, rating_id: r.id },
                    None => Effect::Nothing,
                },
                ProjectView::Overview => Effect::Nothing,
            }
        } else if c == Key::Esc || c == Key::Char('n') || c == Key::Char('N') {
            post == closed && eff is Nothing
        } else {
            post == pre && eff is Nothing
        },
        Modal::Compose { message, feedback_type } => if c == Key::Esc {
            post == closed && eff is Nothing
        } else if is_save(k) {
            if trim_ws(message@).len() == 0 {
                toast_says(post.toast, "Message is empty"@, true) && post == App {
                    toast: post.toast,
                    ..pre
                } && eff is Nothing
            } else {
                post == closed && eff == match pre.selected_project {
                    Some(p) => Effect::CreateFeedback {
                        project_id: p.id,
                        body: FeedbackCreateRequest {
                            message,
                            feedback_type: Some(feedback_type),
                            path: None,
                            version: None,
                        },
                    },
                    None => Effect::Nothing,
                }
            }
        } else if c == Key::Tab {
            post == App {
                modal: Modal::Compose { message, feedback_type: cycled_type(feedback_type, 1) },
                ..pre
            } && eff is Nothing
        } else if c == Key::BackTab {
            post == App {
                modal: Modal::Compose { message, feedback_type: cycled_type(feedback_type, -1) },
                ..pre
            } && eff is Nothing
        } else {
            &&& post.modal matches Modal::Compose { message: m, feedback_type: t } && t
                == feedback_type && m@ == edited_text(message@, k)
            &&& post == App { modal: post.modal, ..pre }
            &&& eff is Nothing
        },
        Modal::EditMessage { id, project_id, message } => if c == Key::Esc {
            post == closed && eff is Nothing
        } else if is_save(k) {
            if trim_ws(message@).len() == 0 {
                toast_says(post.toast, "Message is empty"@, true) && post == App {
                    toast: post.toast,
                    ..pre
                } && eff is Nothing
            } else {
                post == closed && eff == Effect::UpdateFeedback {
                    project_id,
                    feedback_id: id,
                    body: FeedbackUpdateRequest {
                        message: Some(message),
                        feedback_type: None,
                        status: None,
                        resolution_note: None,
                    },
                    purpose: UpdatePurpose::Message,
                }
            }
        } else {
            &&& post.modal matches Modal::EditMessage { id: i, project_id: p, message: m } && i
                == id && p == project_id && m@ == edited_text(message@, k)
            &&& post == App { modal: post.modal, ..pre }
            &&& eff is Nothing
        },
        Modal::ResolutionNote { id, project_id, note } => if c == Key::Esc {
            post == closed && eff is Nothing
        } else if is_save(k) {
            if trim_ws(note@).len() == 0 {
                toast_says(post.toast, "Resolution note skipped"@, false) && post == App {
                    toast: post.toast,
                    ..closed
                } && eff is Nothing
            } else {
                &&& post == closed
                &&& eff matches Effect::UpdateFeedback {
                    project_id: p,
                    feedback_id: i,
                    body,
                    purpose,
                }
                &&& p == project_id && i == id && purpose == UpdatePurpose::ResolutionNote
                &&& body.message is None && body.feedback_type is None && body.status is None
                &&& body.resolution_note matches Some(n) && n@ == trim_ws(note@)
            }
        } else {
            &&& post.modal matches Modal::ResolutionNote { id: i, project_id: p, note: n } && i
                == id && p == project_id && n@ == edited_text(note@, k)
            &&& post == App { modal: post.modal, ..pre }
            &&& eff is Nothing
        },
        Modal::ProjectSwitcher { cursor } => {
            let len = pre.projects@.len();
            if c == Key::Esc {
                post == closed && eff is Nothing
            } else if is_arrow(c) {
                post == App { modal: Modal::ProjectSwitcher { cursor: picker_cursor(cursor, len, c) }, ..pre }
                    && eff is Nothing
            } else if c == Key::Char('g') || c == Key::Home {
                post == App { modal: Modal::ProjectSwitcher { cursor: 0 }, ..pre } && eff is Nothing
            } else if c == Key::Char('G') || c == Key::End {
                post == App {
                    modal: Modal::ProjectSwitcher {
                        cursor: if len > 0 {
                            (len - 1) as usize
                        } else {
                            0
                        },
                    },
                    ..pre
                } && eff is Nothing
            } else if c == Key::Enter {
                if cursor < len {
                    let p = pre.projects@[cursor as int];
                    if pre.selected_project matches Some(cur) && cur.id@ == p.id@ {
                        post == closed && eff is Nothing
                    } else {
                        &&& post.selected_project matches Some(sp) && sp.same(p)
                        &&& App::project_state_reset(
                            App {
                                modal: Modal::Inactive,
                                selected_project: post.selected_project,
                                project_view: ProjectView::Feedback,
                                ..pre
                            },
                            post,
                        )
                        &&& eff == feedback_load(post)
                    }
                } else {
                    post == closed && eff is Nothing
                }
            } else {
                post == pre && eff is Nothing
            }
        },
    }
}

// ============================================================================
// Handlers
// ============================================================================

impl<H, S> App<H, S> {
    /// The feedback listing this state asks for.
    pub fn feedback_load_effect(&self) -> (eff: Effect)
        ensures
            eff == feedback_load(*self),
    {
        match &self.selected_project {
            Some(p) => Effect::LoadFeedback {
                project_id: p.id.clone(),
                page: self.page,
                limit: PAGE_SIZE,
                status: self.status_filter,
                feedback_type: self.type_filter,
                search: clone_opt(&self.search),
            },
            None => Effect::Nothing,
        }
    }

    /// The rating listing this state asks for.
    pub fn ratings_load_effect(&self) -> (eff: Effect)
        ensures
            eff == ratings_load(*self),
    {
        match &self.selected_project {
            Some(p) => Effect::LoadRatings {
                project_id: p.id.clone(),
                page: self.ratings_page,
                limit: PAGE_SIZE,
                rating_type: self.rating_type_filter,
                path: clone_opt(&self.rating_path_filter),
            },
            None => Effect::Nothing,
        }
    }

    /// The statistics request this state asks for.
    pub fn stats_load_effect(&self) -> (eff: Effect)
        ensures
            eff == stats_load(*self),
    {
        match &self.selected_project {
            Some(p) => Effect::LoadStats { project_id: p.id.clone() },
            None => Effect::Nothing,
        }
    }

    /// The first position of a project with this id.
    pub fn project_position(&self, id: &String) -> (res: Option<usize>)
        ensures
            match res {
                Some(i) => first_with_id(self.projects@, id@, i as int),
                None => forall|j: int| 0 <= j < self.projects@.len() ==> self.projects@[j].id@ != id@,
            },
    {
        let mut i: usize = 0;
        while i < self.projects.len()
            invariant
                i <= self.projects@.len(),
                forall|j: int| 0 <= j < i ==> self.projects@[j].id@ != id@,
            decreases self.projects@.len() - i,
        {
            if self.projects[i] .id == *id {
                return Some(i);
            }
            i = i + 1;
        }
        None
    }

    /// Where the project switcher opens.
    pub fn switcher_cursor(&self) -> (c: usize)
        ensures
            c == switcher_start(self.projects@, self.selected_project),
    {
        match &self.selected_project {
            Some(sp) => match self.project_position(&sp.id) {
                Some(i) => {
                    assert(first_with_id(self.projects@, sp.id@, i as int));
                    assert forall|j: int| first_with_id(self.projects@, sp.id@, j) implies j == i by {
                        if j < i {
                            assert(self.projects@[j].id@ != sp.id@);
                        } else if j > i {
                            assert(self.projects@[i as int].id@ != sp.id@);
                        }
                    }
                    i
                },
                None => 0,
            },
            None => 0,
        }
    }

    /// Handles a key on the project list.
    pub fn handle_projects_key(&mut self, key: KeyPress) -> (eff: Effect)
        requires
            old(self).wf(),
        ensures
            projects_key_step(*old(self), key, *final(self), eff),
            final(self).wf(),
    {
        let c = key.code;
        let len = self.projects.len();
        if c == Key::Char('q') || c == Key::Esc {
            self.should_quit = true;
            Effect::Nothing
        } else if c == Key::Char('?') {
            self.modal = Modal::Help;
            Effect::Nothing
        } else if c == Key::Char('r') {
            Effect::LoadProjects { then_open_switcher: false }
        } else if c == Key::Down || c == Key::Char('j') {
            self.projects_selected = move_list(self.projects_selected, len, 1);
            Effect::Nothing
        } else if c == Key::Up || c == Key::Char('k') {
            self.projects_selected = move_list(self.projects_selected, len, -1);
            Effect::Nothing
        } else if c == Key::Char('g') || c == Key::Home {
            if len > 0 {
                self.projects_selected = Some(0);
            }
            Effect::Nothing
        } else if c == Key::Char('G') || c == Key::End {
            if len > 0 {
                self.projects_selected = Some(len - 1);
            }
            Effect::Nothing
        } else if c == Key::Char('o') {
            match self.projects_selected {
                Some(i) => {
                    if i < len {
                        Effect::OpenUrl { url: project_dashboard_url(&self.api_url, &self.projects[i]) }
                    } else {
                        Effect::Nothing
                    }
                },
                None => Effect::Nothing,
            }
        } else if c == Key::Enter {
            match self.projects_selected {
                Some(i) => {
                    if i < len {
                        let p = self.projects[i].duplicate();
                        self.selected_project = Some(p);
                        self.screen = Screen::Project;
                        self.project_view = ProjectView::Feedback;
                        self.page = 1;
                        self.feedback_load_effect()
                    } else {
                        Effect::Nothing
                    }
                },
                None => Effect::Nothing,
            }
        } else {
            Effect::Nothing
        }
    }

    /// Handles a key on the project screen.
    pub fn handle_project_key(&mut self, key: KeyPress) -> (eff: Effect)
        requires
            old(self).wf(),
        ensures
            project_key_step(*old(self), key, *final(self), eff),
            final(self).wf(),
    {
        let c = key.code;
        if c == Key::Char('q') {
            self.should_quit = true;
            Effect::Nothing
        } else if c == Key::Esc || c == Key::Char('b') {
            self.screen = Screen::Projects;
            self.reset_project_state();
            Effect::Nothing
        } else if c == Key::Char('?') {
            self.modal = Modal::Help;
            Effect::Nothing
        } else if c == Key::Char('p') {
            if self.projects.len() == 0 {
                Effect::LoadProjects { then_open_switcher: true }
            } else {
                let cursor = self.switcher_cursor();
                self.modal = Modal::ProjectSwitcher { cursor };
                Effect::Nothing
            }
        } else if c == Key::Char('0') {
            if self.project_view != ProjectView::Overview {
                let need_load = match (&self.stats_loaded_for, &self.selected_project) {
                    (Some(loaded), Some(p)) => *loaded != p.id,
                    _ => true,
                };
                self.project_view = ProjectView::Overview;
                if need_load {
                    self.stats_load_effect()
                } else {
                    Effect::Nothing
                }
            } else {
                Effect::Nothing
            }
        } else if c == Key::Char('1') {
            if self.project_view != ProjectView::Feedback {
                self.project_view = ProjectView::Feedback;
                if self.feedback.len() == 0 {
                    self.feedback_load_effect()
                } else {
                    Effect::Nothing
                }
            } else {
                Effect::Nothing
            }
        } else if c == Key::Char('2') {
            if self.project_view != ProjectView::Ratings {
                self.project_view = ProjectView::Ratings;
                if self.ratings.len() == 0 {
                    self.ratings_load_effect()
                } else {
                    Effect::Nothing
                }
            } else {
                Effect::Nothing
            }
        } else {
            match self.project_view {
                ProjectView::Overview => self.handle_overview_key(key),
                ProjectView::Feedback => self.handle_feedback_key(key),
                ProjectView::Ratings => self.handle_ratings_key(key),
            }
        }
    }

    /// Handles a key on the overview tab.
    pub fn handle_overview_key(&mut self, key: KeyPress) -> (eff: Effect)
        ensures
            overview_key_step(*old(self), key, *final(self), eff),
    {
        if key.code == Key::Char('r') {
            self.stats_load_effect()
        } else if key.code == Key::Char('o') {
            match &self.selected_project {
                Some(p) => Effect::OpenUrl { url: project_dashboard_url(&self.api_url, p) },
                None => Effect::Nothing,
            }
        } else {
            Effect::Nothing
        }
    }

    /// Handles a key on the feedback tab.
    pub fn handle_feedback_key(&mut self, key: KeyPress) -> (eff: Effect)
        requires
            old(self).wf(),
        ensures
            feedback_key_step(*old(self), key, *final(self), eff),
            final(self).wf(),
    {
        let c = key.code;
        let len = self.feedback.len();
        let has_sel = self.selected_feedback().is_some();
        if c == Key::Tab {
            self.feedback_pane = match self.feedback_pane {
                FeedbackPane::List => FeedbackPane::Detail,
                FeedbackPane::Detail => FeedbackPane::List,
            };
            Effect::Nothing
        } else if c == Key::Char('r') {
            self.feedback_load_effect()
        } else if c == Key::Char('/') {
            let buffer = match &self.search {
                Some(s) => s.clone(),
                None => String::new(),
            };
            self.modal = Modal::Search { buffer };
            Effect::Nothing
        } else if c == Key::Char('s') {
            if has_sel {
                self.modal = Modal::StatusPicker { cursor: 0 };
            }
            Effect::Nothing
        } else if c == Key::Char('S') {
            self.modal = Modal::StatusFilter { cursor: 0 };
            Effect::Nothing
        } else if c == Key::Char('t') {
            if has_sel {
                self.modal = Modal::TypePicker { cursor: 0 };
            }
            Effect::Nothing
        } else if c == Key::Char('T') {
            self.modal = Modal::TypeFilter { cursor: 0 };
            Effect::Nothing
        } else if c == Key::Char('e') {
            let modal = match self.selected_feedback() {
                Some(fb) => Some(
                    Modal::EditMessage {
                        id: fb.id.clone(),
                        project_id: fb.project_id.clone(),
                        message: fb.message.clone(),
                    },
                ),
                None => None,
            };
            if let Some(m) = modal {
                self.modal = m;
            }
            Effect::Nothing
        } else if c == Key::Char('o') {
            match (self.selected_feedback(), &self.selected_project) {
                (Some(fb), Some(p)) => Effect::OpenUrl {
                    url: feedback_dashboard_url(&self.api_url, p, &fb.id),
                },
                _ => Effect::Nothing,
            }
        } else if c == Key::Char('c') {
            self.status_filter = None;
            self.type_filter = None;
            self.search = None;
            self.page = 1;
            self.feedback_load_effect()
        } else if c == Key::Char('d') {
            if has_sel {
                self.modal = Modal::ConfirmDelete;
            }
            Effect::Nothing
        } else if c == Key::Char('N') {
            self.modal = Modal::Compose { message: String::new(), feedback_type: FeedbackType::Bug };
            Effect::Nothing
        } else if c == Key::Char('n') {
            if self.page < self.total_pages {
                self.page = self.page + 1;
                self.feedback_load_effect()
            } else {
                Effect::Nothing
            }
        } else if c == Key::Char('p') {
            if self.page > 1 {
                self.page = self.page - 1;
                self.feedback_load_effect()
            } else {
                Effect::Nothing
            }
        } else if c == Key::Down || c == Key::Char('j') {
            if self.feedback_pane == FeedbackPane::Detail {
                self.detail_scroll = self.detail_scroll.saturating_add(1);
            } else {
                self.feedback_selected = move_list(self.feedback_selected, len, 1);
                self.detail_scroll = 0;
            }
            Effect::Nothing
        } else if c == Key::Up || c == Key::Char('k') {
            if self.feedback_pane == FeedbackPane::Detail {
                self.detail_scroll = self.detail_scroll.saturating_sub(1);
            } else {
                self.feedback_selected = move_list(self.feedback_selected, len, -1);
                self.detail_scroll = 0;
            }
            Effect::Nothing
        } else if c == Key::PageDown {
            self.feedback_selected = move_list(self.feedback_selected, len, 10);
            self.detail_scroll = 0;
            Effect::Nothing
        } else if c == Key::PageUp {
            self.feedback_selected = move_list(self.feedback_selected, len, -10);
            self.detail_scroll = 0;
            Effect::Nothing
        } else if c == Key::Home || c == Key::Char('g') {
            if len > 0 {
                self.feedback_selected = Some(0);
                self.detail_scroll = 0;
            }
            Effect::Nothing
        } else if c == Key::End || c == Key::Char('G') {
            if len > 0 {
                self.feedback_selected = Some(len - 1);
                self.detail_scroll = 0;
            }
            Effect::Nothing
        } else {
            Effect::Nothing
        }
    }

    /// Handles a key on the ratings tab.
    pub fn handle_ratings_key(&mut self, key: KeyPress) -> (eff: Effect)
        requires
            old(self).wf(),
        ensures
            ratings_key_step(*old(self), key, *final(self), eff),
            final(self).wf(),
    {
        let c = key.code;
        let len = self.ratings.len();
        let has_sel = self.selected_rating().is_some();
        if c == Key::Tab {
            self.ratings_pane = match self.ratings_pane {
                FeedbackPane::List => FeedbackPane::Detail,
                FeedbackPane::Detail => FeedbackPane::List,
            };
            Effect::Nothing
        } else if c == Key::Char('r') {
            self.ratings_load_effect()
        } else if c == Key::Char('t') {
            self.modal = Modal::RatingTypeFilter { cursor: 0 };
            Effect::Nothing
        } else if c == Key::Char('P') {
            let buffer = match &self.rating_path_filter {
                Some(s) => s.clone(),
                None => String::new(),
            };
            self.modal = Modal::RatingPathFilter { buffer };
            Effect::Nothing
        } else if c == Key::Char('o') {
            match (self.selected_rating(), &self.selected_project) {
                (Some(r), Some(p)) => Effect::OpenUrl {
                    url: rating_dashboard_url(&self.api_url, p, r),
                },
                _ => Effect::Nothing,
            }
        } else if c == Key::Char('c') {
            self.rating_type_filter = None;
            self.rating_path_filter = None;
            self.ratings_page = 1;
            self.ratings_load_effect()
        } else if c == Key::Char('d') {
            if has_sel {
                self.modal = Modal::ConfirmDelete;
            }
            Effect::Nothing
        } else if c == Key::Char('n') {
            if self.ratings_page < self.ratings_total_pages {
                self.ratings_page = self.ratings_page + 1;
                self.ratings_load_effect()
            } else {
                Effect::Nothing
            }
        } else if c == Key::Down || c == Key::Char('j') {
            if self.ratings_pane == FeedbackPane::Detail {
                self.rating_detail_scroll = self.rating_detail_scroll.saturating_add(1);
            } else {
                self.ratings_selected = move_list(self.ratings_selected, len, 1);
                self.rating_detail_scroll = 0;
            }
            Effect::Nothing
        } else if c == Key::Up || c == Key::Char('k') {
            if self.ratings_pane == FeedbackPane::Detail {
                self.rating_detail_scroll = self.rating_detail_scroll.saturating_sub(1);
            } else {
                self.ratings_selected = move_list(self.ratings_selected, len, -1);
                self.rating_detail_scroll = 0;
            }
            Effect::Nothing
        } else if c == Key::PageDown {
            self.ratings_selected = move_list(self.ratings_selected, len, 10);
            self.rating_detail_scroll = 0;
            Effect::Nothing
        } else if c == Key::PageUp {
            self.ratings_selected = move_list(self.ratings_selected, len, -10);
            self.rating_detail_scroll = 0;
            Effect::Nothing
        } else if c == Key::Home || c == Key::Char('g') {
            if len > 0 {
                self.ratings_selected = Some(0);
                self.rating_detail_scroll = 0;
            }
            Effect::Nothing
        } else if c == Key::End || c == Key::Char('G') {
            if len > 0 {
                self.ratings_selected = Some(len - 1);
                self.rating_detail_scroll = 0;
            }
            Effect::Nothing
        } else {
            Effect::Nothing
        }
    }
    /// A picker's cursor after an arrow key, for a picker of `n` options.
    fn picker_cursor_after(cursor: usize, n: usize, c: Key) -> (res: usize)
        ensures
            res == picker_cursor(cursor, n as nat, c),
    {
        if c == Key::Up || c == Key::Char('k') {
            cursor.saturating_sub(1)
        } else if n > 0 && cursor < n - 1 {
            cursor + 1
        } else {
            cursor
        }
    }

    /// The change of the selected item asked for when a status is picked.
    fn status_update(&self, status: FeedbackStatus) -> (eff: Effect)
        ensures
            eff == update_of(*self, status_body(status), UpdatePurpose::Status(status)),
    {
        match self.selected_feedback() {
            Some(fb) => Effect::UpdateFeedback {
                project_id: fb.project_id.clone(),
                feedback_id: fb.id.clone(),
                body: FeedbackUpdateRequest {
                    message: None,
                    feedback_type: None,
                    status: Some(status),
                    resolution_note: None,
                },
                purpose: UpdatePurpose::Status(status),
            },
            None => Effect::Nothing,
        }
    }

    /// The change of the selected item asked for when a type is picked.
    fn type_update(&self, t: FeedbackType) -> (eff: Effect)
        ensures
            eff == update_of(*self, type_body(t), UpdatePurpose::Type(t)),
    {
        match self.selected_feedback() {
            Some(fb) => Effect::UpdateFeedback {
                project_id: fb.project_id.clone(),
                feedback_id: fb.id.clone(),
                body: FeedbackUpdateRequest {
                    message: None,
                    feedback_type: Some(t),
                    status: None,
                    resolution_note: None,
                },
                purpose: UpdatePurpose::Type(t),
            },
            None => Effect::Nothing,
        }
    }

    /// Handles a key while an overlay is open.
    pub fn handle_modal_key(&mut self, key: KeyPress) -> (eff: Effect)
        requires
            old(self).wf(),
        ensures
            modal_key_step(*old(self), key, *final(self), eff),
            final(self).wf(),
    {
        let c = key.code;
        let mut modal = Modal::Inactive;
        std::mem::swap(&mut modal, &mut self.modal);
        match modal {
            Modal::Inactive => Effect::Nothing,
            Modal::Help => {
                if !(c == Key::Esc || c == Key::Enter || c == Key::Char('?') || c == Key::Char('q')) {
                    self.modal = Modal::Help;
                }
                Effect::Nothing
            },
            Modal::Search { mut buffer } => {
                if c == Key::Esc {
                    Effect::Nothing
                } else if c == Key::Enter {
                    let empty = buffer.as_str().is_empty();
                    self.search = if empty {
                        None
                    } else {
                        Some(buffer)
                    };
                    self.page = 1;
                    self.feedback_load_effect()
                } else {
                    if c == Key::Backspace {
                        pop_char(&mut buffer);
                    } else if let Key::Char(ch) = c {
                        push_char(&mut buffer, ch);
                    }
                    self.modal = Modal::Search { buffer };
                    Effect::Nothing
                }
            },
            Modal::RatingPathFilter { mut buffer } => {
                if c == Key::Esc {
                    Effect::Nothing
                } else if c == Key::Enter {
                    let empty = buffer.as_str().is_empty();
                    self.rating_path_filter = if empty {
                        None
                    } else {
                        Some(buffer)
                    };
                    self.ratings_page = 1;
                    self.ratings_load_effect()
                } else {
                    if c == Key::Backspace {
                        pop_char(&mut buffer);
                    } else if let Key::Char(ch) = c {
                        push_char(&mut buffer, ch);
                    }
                    self.modal = Modal::RatingPathFilter { buffer };
                    Effect::Nothing
                }
            },
            Modal::StatusPicker { cursor } => {
                if c == Key::Esc {
                    Effect::Nothing
                } else if is_arrow_key(c) {
                    self.modal = Modal::StatusPicker {
                        cursor: Self::picker_cursor_after(cursor, 6, c),
                    };
                    Effect::Nothing
                } else if c == Key::Enter {
                    let options = status_picker_options();
                    let status = options[cursor];
                    self.status_update(status)
                } else {
                    self.modal = Modal::StatusPicker { cursor };
                    Effect::Nothing
                }
            },
            Modal::StatusFilter { cursor } => {
                if c == Key::Esc {
                    Effect::Nothing
                } else if is_arrow_key(c) {
                    self.modal = Modal::StatusFilter {
                        cursor: Self::picker_cursor_after(cursor, 7, c),
                    };
                    Effect::Nothing
                } else if c == Key::Enter {
                    let options = status_filter_options();
                    self.status_filter = options[cursor];
                    self.page = 1;
                    self.feedback_load_effect()
                } else {
                    self.modal = Modal::StatusFilter { cursor };
                    Effect::Nothing
                }
            },
            Modal::TypeFilter { cursor } => {
                if c == Key::Esc {
                    Effect::Nothing
                } else if is_arrow_key(c) {
                    self.modal = Modal::TypeFilter {
                        cursor: Self::picker_cursor_after(cursor, 7, c),
                    };
                    Effect::Nothing
                } else if c == Key::Enter {
                    let options = type_filter_options();
                    self.type_filter = options[cursor];
                    self.page = 1;
                    self.feedback_load_effect()
                } else {
                    self.modal = Modal::TypeFilter { cursor };
                    Effect::Nothing
                }
            },
            Modal::TypePicker { cursor } => {
                if c == Key::Esc {
                    Effect::Nothing
                } else if is_arrow_key(c) {
                    self.modal = Modal::TypePicker {
                        cursor: Self::picker_cursor_after(cursor, 6, c),
                    };
                    Effect::Nothing
                } else if c == Key::Enter {
                    let options = type_picker_options();
                    let t = options[cursor];
                    self.type_update(t)
                } else {
                    self.modal = Modal::TypePicker { cursor };
                    Effect::Nothing
                }
            },
            Modal::RatingTypeFilter { cursor } => {
                if c == Key::Esc {
                    Effect::Nothing
                } else if is_arrow_key(c) {
                    self.modal = Modal::RatingTypeFilter {
                        cursor: Self::picker_cursor_after(cursor, 4, c),
                    };
                    Effect::Nothing
                } else if c == Key::Enter {
                    let options = rating_type_filter_options();
                    self.rating_type_filter = options[cursor];
                    self.ratings_page = 1;
                    self.ratings_load_effect()
                } else {
                    self.modal = Modal::RatingTypeFilter { cursor };
                    Effect::Nothing
                }
            },
            Modal::ConfirmDelete => {
                if c == Key::Char('y') || c == Key::Char('Y') {
                    match self.project_view {
                        ProjectView::Feedback => match self.selected_feedback() {
                            Some(fb) => Effect::DeleteFeedback {
                                project_id: fb.project_id.clone(),
                                feedback_id: fb.id.clone(),
                            },
                            None => Effect::Nothing,
                        },
                        ProjectView::Ratings => match self.selected_rating() {
                            Some(r) => Effect::DeleteRating {
                                project_id: r.project_id.clone(),
                                rating_id: r.id.clone(),
                            },
                            None => Effect::Nothing,
                        },
                        ProjectView::Overview => Effect::Nothing,
                    }
                } else if c == Key::Esc || c == Key::Char('n') || c == Key::Char('N') {
                    Effect::Nothing
                } else {
                    self.modal = Modal::ConfirmDelete;
                    Effect::Nothing
                }
            },
            Modal::Compose { mut message, feedback_type } => {
                if c == Key::Esc {
                    Effect::Nothing
                } else if key.ctrl && c == Key::Char('s') {
                    if is_blank(message.as_str()) {
                        self.set_toast(String::from_str("Message is empty"), true);
                        self.modal = Modal::Compose { message, feedback_type };
                        Effect::Nothing
                    } else {
                        match &self.selected_project {
                            Some(p) => Effect::CreateFeedback {
                                project_id: p.id.clone(),
                                body: FeedbackCreateRequest {
                                    message,
                                    feedback_type: Some(feedback_type),
                                    path: None,
                                    version: None,
                                },
                            },
                            None => Effect::Nothing,
                        }
                    }
                } else if c == Key::Tab {
                    self.modal = Modal::Compose {
                        message,
                        feedback_type: cycle_type(&feedback_type, 1),
                    };
                    Effect::Nothing
                } else if c == Key::BackTab {
                    self.modal = Modal::Compose {
                        message,
                        feedback_type: cycle_type(&feedback_type, -1),
                    };
                    Effect::Nothing
                } else {
                    edit_text(&mut message, key);
                    self.modal = Modal::Compose { message, feedback_type };
                    Effect::Nothing
                }
            },
            Modal::EditMessage { id, project_id, mut message } => {
                if c == Key::Esc {
                    Effect::Nothing
                } else if key.ctrl && c == Key::Char('s') {
                    if is_blank(message.as_str()) {
                        self.set_toast(String::from_str("Message is empty"), true);
                        self.modal = Modal::EditMessage { id, project_id, message };
                        Effect::Nothing
                    } else {
                        Effect::UpdateFeedback {
                            project_id,
                            feedback_id: id,
                            body: FeedbackUpdateRequest {
                                message: Some(message),
                                feedback_type: None,
                                status: None,
                                resolution_note: None,
                            },
                            purpose: UpdatePurpose::Message,
                        }
                    }
                } else {
                    edit_text(&mut message, key);
                    self.modal = Modal::EditMessage { id, project_id, message };
                    Effect::Nothing
                }
            },
            Modal::ResolutionNote { id, project_id, mut note } => {
                if c == Key::Esc {
                    Effect::Nothing
                } else if key.ctrl && c == Key::Char('s') {
                    let trimmed = trim(note.as_str());
                    if trimmed.as_str().is_empty() {
                        self.set_toast(String::from_str("Resolution note skipped"), false);
                        Effect::Nothing
                    } else {
                        Effect::UpdateFeedback {
                            project_id,
                            feedback_id: id,
                            body: FeedbackUpdateRequest {
                                message: None,
                                feedback_type: None,
                                status: None,
                                resolution_note: Some(trimmed),
                            },
                            purpose: UpdatePurpose::ResolutionNote,
                        }
                    }
                } else {
                    edit_text(&mut note, key);
                    self.modal = Modal::ResolutionNote { id, project_id, note };
                    Effect::Nothing
                }
            },
            Modal::ProjectSwitcher { cursor } => {
                let len = self.projects.len();
                if c == Key::Esc {
                    Effect::Nothing
                } else if is_arrow_key(c) {
                    self.modal = Modal::ProjectSwitcher {
                        cursor: Self::picker_cursor_after(cursor, len, c),
                    };
                    Effect::Nothing
                } else if c == Key::Char('g') || c == Key::Home {
                    self.modal = Modal::ProjectSwitcher { cursor: 0 };
                    Effect::Nothing
                } else if c == Key::Char('G') || c == Key::End {
                    self.modal = Modal::ProjectSwitcher { cursor: len.saturating_sub(1) };
                    Effect::Nothing
                } else if c == Key::Enter {
                    if cursor < len {
                        let p = self.projects[cursor].duplicate();
                        let same = match &self.selected_project {
                            Some(cur) => cur.id == p.id,
                            None => false,
                        };
                        if !same {
                            self.selected_project = Some(p);
                            self.reset_project_state();
                            self.project_view = ProjectView::Feedback;
                            self.feedback_load_effect()
                        } else {
                            Effect::Nothing
                        }
                    } else {
                        Effect::Nothing
                    }
                } else {
                    self.modal = Modal::ProjectSwitcher { cursor };
                    Effect::Nothing
                }
            },
        }
    }

    /// Handles a key press: the status line clears, Control+C quits, an open
    /// overlay takes the key, else the current screen does.
    pub fn handle_key(&mut self, key: KeyPress) -> (eff: Effect)
        requires
            old(self).wf(),
        ensures
            key_step(*old(self), key, *final(self), eff),
            final(self).wf(),
    {
        self.toast = None;
        if key.ctrl && key.code == Key::Char('c') {
            self.should_quit = true;
            return Effect::Nothing;
        }
        let overlay_open = match self.modal {
            Modal::Inactive => false,
            _ => true,
        };
        if overlay_open {
            return self.handle_modal_key(key);
        }
        match self.screen {
            Screen::Projects => self.handle_projects_key(key),
            Screen::Project => self.handle_project_key(key),
        }
    }
}

/// Whether the key moves a picker's cursor.
fn is_arrow_key(c: Key) -> (res: bool)
    ensures
        res == is_arrow(c),
{
    c == Key::Up || c == Key::Char('k') || c == Key::Down || c == Key::Char('j')
}

/// Applies an editing key to a multi-line text.
fn edit_text(t: &mut String, key: KeyPress)
    ensures
        final(t)@ == edited_text(old(t)@, key),
{
    if key.code == Key::Enter {
        push_char(t, '\n');
    } else if key.code == Key::Backspace {
        pop_char(t);
    } else if let Key::Char(ch) = key.code {
        if !key.ctrl {
            push_char(t, ch);
        }
    }
}

/// What a key press does: the status line clears first; Control+C quits;
/// an open overlay takes the key; otherwise the current screen does.
pub open spec fn key_step<H, S>(pre: App<H, S>, k: KeyPress, post: App<H, S>, eff: Effect) -> bool {
    let cleared = App { toast: None, ..pre };
    if k.ctrl && k.code == Key::Char('c') {
        post == App { should_quit: true, ..cleared } && eff is Nothing
    } else if !(pre.modal is Inactive) {
        modal_key_step(cleared, k, post, eff)
    } else if pre.screen == Screen::Projects {
        projects_key_step(cleared, k, post, eff)
    } else {
        project_key_step(cleared, k, post, eff)
    }
}

/// Control+C quits from every state, whatever overlay is open, and asks
/// the caller for nothing; nothing but the status line changes besides.
pub proof fn ctrl_c_quits<H, S>(pre: App<H, S>, post: App<H, S>, eff: Effect)
    requires
        key_step(pre, KeyPress { code: Key::Char('c'), ctrl: true }, post, eff),
    ensures
        post.should_quit,
        eff is Nothing,
        post == (App { should_quit: true, toast: None, ..pre }),
{
}

/// Escape closes whatever overlay is open without asking the caller for
/// anything; the rest of the state stays, but for the cleared status line.
pub proof fn escape_closes_overlay<H, S>(pre: App<H, S>, post: App<H, S>, eff: Effect)
    requires
        !(pre.modal is Inactive),
        key_step(pre, KeyPress { code: Key::Esc, ctrl: false }, post, eff),
    ensures
        post == (App { modal: Modal::Inactive, toast: None, ..pre }),
        eff is Nothing,
{
}

/// A key press that changes the feedback filters of the open project goes
/// back to the first page and reloads the list with the new filters, so the
/// list on show always matches the filters on show.
pub proof fn feedback_filter_change_reloads<H, S>(
    pre: App<H, S>,
    k: KeyPress,
    post: App<H, S>,
    eff: Effect,
)
    requires
        key_step(pre, k, post, eff),
        post.screen == Screen::Project,
        post.selected_project == pre.selected_project,
        post.status_filter != pre.status_filter || post.type_filter != pre.type_filter
            || post.search != pre.search,
    ensures
        post.page == 1,
        eff == feedback_load(post),
{
}

/// A key press that changes the rating filters of the open project goes
/// back to the first page and reloads the ratings with the new filters.
pub proof fn rating_filter_change_reloads<H, S>(
    pre: App<H, S>,
    k: KeyPress,
    post: App<H, S>,
    eff: Effect,
)
    requires
        key_step(pre, k, post, eff),
        post.screen == Screen::Project,
        post.selected_project == pre.selected_project,
        post.rating_type_filter != pre.rating_type_filter || post.rating_path_filter
            != pre.rating_path_filter,
    ensures
        post.ratings_page == 1,
        eff == ratings_load(post),
{
}

/// Confirming a deletion on the ratings tab asks for the deletion of the
/// selected rating and of nothing else; with no rating selected it asks for
/// nothing. The overlay closes either way.
pub proof fn confirming_deletes_the_selected_rating<H, S>(
    pre: App<H, S>,
    k: KeyPress,
    post: App<H, S>,
    eff: Effect,
)
    requires
        key_step(pre, k, post, eff),
        pre.modal is ConfirmDelete,
        pre.project_view == ProjectView::Ratings,
        k.code == Key::Char('y') || k.code == Key::Char('Y'),
    ensures
        post.modal is Inactive,
        !(eff is DeleteFeedback),
        pre.ratings_selected matches Some(i) && i < pre.ratings@.len() ==> eff
            == (Effect::DeleteRating {
            project_id: pre.ratings@[pre.ratings_selected->0 as int].project_id,
            rating_id: pre.ratings@[pre.ratings_selected->0 as int].id,
        }),
        !(pre.ratings_selected matches Some(i) && i < pre.ratings@.len()) ==> eff is Nothing,
{
}

/// Confirming a deletion on the feedback tab asks for the deletion of the
/// selected feedback item and of nothing else; with nothing selected it asks
/// for nothing. The overlay closes either way.
pub proof fn confirming_deletes_the_selected_feedback<H, S>(
    pre: App<H, S>,
    k: KeyPress,
    post: App<H, S>,
    eff: Effect,
)
    requires
        key_step(pre, k, post, eff),
        pre.modal is ConfirmDelete,
        pre.project_view == ProjectView::Feedback,
        k.code == Key::Char('y') || k.code == Key::Char('Y'),
    ensures
        post.modal is Inactive,
        !(eff is DeleteRating),
        pre.feedback_selected matches Some(i) && i < pre.feedback@.len() ==> eff
            == (Effect::DeleteFeedback {
            project_id: pre.feedback@[pre.feedback_selected->0 as int].project_id,
            feedback_id: pre.feedback@[pre.feedback_selected->0 as int].id,
        }),
        !(pre.feedback_selected matches Some(i) && i < pre.feedback@.len()) ==> eff is Nothing,
{
}

/// Declining a deletion (`n`, `N` or Escape) asks for nothing and only
/// closes the overlay.
pub proof fn declining_deletes_nothing<H, S>(pre: App<H, S>, k: KeyPress, post: App<H, S>, eff: Effect)
    requires
        key_step(pre, k, post, eff),
        pre.modal is ConfirmDelete,
        k.code == Key::Char('n') || k.code == Key::Char('N') || k.code == Key::Esc,
    ensures
        eff is Nothing,
        post == (App { modal: Modal::Inactive, toast: None, ..pre }),
{
}

/// Choosing a status in the status picker changes the status of the
/// selected feedback item, and only its status, to the status under the
/// cursor (New, Active, Assigned, Hold, Closed, Resolved in that order).
pub proof fn status_picker_sets_the_selected_status<H, S>(
    pre: App<H, S>,
    k: KeyPress,
    post: App<H, S>,
    eff: Effect,
)
    requires
        key_step(pre, k, post, eff),
        pre.modal matches Modal::StatusPicker { cursor } && cursor < 6,
        k.code == Key::Enter,
    ensures
        post.modal is Inactive,
        ({
            let cursor = pre.modal->StatusPicker_cursor;
            let s = seq![
                FeedbackStatus::New,
                FeedbackStatus::Active,
                FeedbackStatus::Assigned,
                FeedbackStatus::Hold,
                FeedbackStatus::Closed,
                FeedbackStatus::Resolved,
            ][cursor as int];
            &&& (pre.feedback_selected matches Some(i) && i < pre.feedback@.len() ==> eff
                == (Effect::UpdateFeedback {
                project_id: pre.feedback@[pre.feedback_selected->0 as int].project_id,
                feedback_id: pre.feedback@[pre.feedback_selected->0 as int].id,
                body: FeedbackUpdateRequest {
                    message: None,
                    feedback_type: None,
                    status: Some(s),
                    resolution_note: None,
                },
                purpose: UpdatePurpose::Status(s),
            }))
            &&& (!(pre.feedback_selected matches Some(i) && i < pre.feedback@.len()) ==> eff is Nothing)
        }),
{
}

/// Choosing a type in the type picker changes the type of the selected
/// feedback item, and only its type, to the type under the cursor (Bug,
/// Feature, Praise, Question, Improvement, Other in that order).
pub proof fn type_picker_sets_the_selected_type<H, S>(
    pre: App<H, S>,
    k: KeyPress,
    post: App<H, S>,
    eff: Effect,
)
    requires
        key_step(pre, k, post, eff),
        pre.modal matches Modal::TypePicker { cursor } && cursor < 6,
        k.code == Key::Enter,
    ensures
        post.modal is Inactive,
        ({
            let cursor = pre.modal->TypePicker_cursor;
            let t = seq![
                FeedbackType::Bug,
                FeedbackType::Feature,
                FeedbackType::Praise,
                FeedbackType::Question,
                FeedbackType::Improvement,
                FeedbackType::Other,
            ][cursor as int];
            &&& (pre.feedback_selected matches Some(i) && i < pre.feedback@.len() ==> eff
                == (Effect::UpdateFeedback {
                project_id: pre.feedback@[pre.feedback_selected->0 as int].project_id,
                feedback_id: pre.feedback@[pre.feedback_selected->0 as int].id,
                body: FeedbackUpdateRequest {
                    message: None,
                    feedback_type: Some(t),
                    status: None,
                    resolution_note: None,
                },
                purpose: UpdatePurpose::Type(t),
            }))
            &&& (!(pre.feedback_selected matches Some(i) && i < pre.feedback@.len()) ==> eff is Nothing)
        }),
{
}

/// Enter on the project list opens the project under the cursor on its
/// feedback tab at the first page, and asks for that project's feedback.
pub proof fn enter_opens_the_selected_project<H, S>(
    pre: App<H, S>,
    k: KeyPress,
    post: App<H, S>,
    eff: Effect,
)
    requires
        key_step(pre, k, post, eff),
        pre.modal is Inactive,
        pre.screen == Screen::Projects,
        k.code == Key::Enter,
        pre.projects_selected matches Some(i) && i < pre.projects@.len(),
    ensures
        ({
            let p = pre.projects@[pre.projects_selected->0 as int];
            &&& (post.selected_project matches Some(sp) && sp.id@ == p.id@ && sp.name@ == p.name@
                && sp.org_id@ == p.org_id@)
            &&& post.screen == Screen::Project
            &&& post.project_view == ProjectView::Feedback
            &&& post.page == 1
            &&& (eff matches Effect::LoadFeedback { project_id, page, limit, .. } && project_id@
                == p.id@ && page == 1 && limit == 50)
        }),
{
}

/// Saving the composer with some text in it asks for a new feedback item in
/// the open project with exactly that text and the chosen type.
pub proof fn compose_submits_the_message<H, S>(
    pre: App<H, S>,
    k: KeyPress,
    post: App<H, S>,
    eff: Effect,
)
    requires
        key_step(pre, k, post, eff),
        pre.modal matches Modal::Compose { message, feedback_type } && trim_ws(message@).len() > 0,
        k.code == Key::Char('s') && k.ctrl,
        pre.selected_project is Some,
    ensures
        post.modal is Inactive,
        eff matches Effect::CreateFeedback { project_id, body } && project_id
            == pre.selected_project->0.id && body.message == pre.modal->Compose_message
            && body.feedback_type == Some(pre.modal->Compose_feedback_type) && body.path is None
            && body.version is None,
{
}

/// Choosing in the status filter shows only items of the status under the
/// cursor (all statuses first, then New, Active, Assigned, Hold, Closed,
/// Resolved), from the first page, and asks for that listing.
pub proof fn status_filter_applies_the_chosen_status<H, S>(
    pre: App<H, S>,
    k: KeyPress,
    post: App<H, S>,
    eff: Effect,
)
    requires
        key_step(pre, k, post, eff),
        pre.modal matches Modal::StatusFilter { cursor } && cursor < 7,
        k.code == Key::Enter,
    ensures
        post.status_filter == seq![
            None,
            Some(FeedbackStatus::New),
            Some(FeedbackStatus::Active),
            Some(FeedbackStatus::Assigned),
            Some(FeedbackStatus::Hold),
            Some(FeedbackStatus::Closed),
            Some(FeedbackStatus::Resolved),
        ][pre.modal->StatusFilter_cursor as int],
        post.modal is Inactive,
        post.page == 1,
        post.type_filter == pre.type_filter,
        post.search == pre.search,
        pre.selected_project matches Some(p) ==> (eff matches Effect::LoadFeedback {
            project_id,
            page,
            status,
            feedback_type,
            search,
            ..
        } && project_id == p.id && page == 1 && status == post.status_filter && feedback_type
            == pre.type_filter && search == pre.search),
{
}

/// Searching with some text shows only items that match it, from the first
/// page; searching with no text drops the search.
pub proof fn search_applies_the_typed_text<H, S>(
    pre: App<H, S>,
    k: KeyPress,
    post: App<H, S>,
    eff: Effect,
)
    requires
        key_step(pre, k, post, eff),
        pre.modal is Search,
        k.code == Key::Enter,
    ensures
        pre.modal->Search_buffer@.len() > 0 ==> post.search == Some(pre.modal->Search_buffer),
        pre.modal->Search_buffer@.len() == 0 ==> post.search is None,
        post.modal is Inactive,
        post.page == 1,
        post.status_filter == pre.status_filter,
        pre.selected_project matches Some(p) ==> (eff matches Effect::LoadFeedback {
            project_id,
            page,
            search,
            ..
        } && project_id == p.id && page == 1 && search == post.search),
{
}

/// Moving a list selection down or up goes one item further or back, and
/// stops at the ends of the list.
pub proof fn moving_steps_one_item(sel: Option<usize>, len: nat)
    requires
        len <= usize::MAX,
    ensures
        sel matches Some(i) && i + 1 < len ==> moved_selection(sel, len, 1) == Some((sel->0 + 1) as usize),
        sel matches Some(i) && i + 1 == len ==> moved_selection(sel, len, 1) == sel,
        sel matches Some(i) && 0 < i < len ==> moved_selection(sel, len, -1) == Some((sel->0 - 1) as usize),
        sel matches Some(i) && i == 0 && len > 0 ==> moved_selection(sel, len, -1) == Some(0usize),
        sel is None && len > 1 ==> moved_selection(sel, len, 1) == Some(1usize),
        len == 0 ==> moved_selection(sel, len, 1) is None && moved_selection(sel, len, -1) is None,
{
}

/// Moving a picker's cursor goes one option further or back and stops at
/// the first and the last option.
pub proof fn picker_cursor_steps_one_option(cursor: usize, n: nat)
    requires
        cursor < n <= usize::MAX,
    ensures
        picker_cursor(cursor, n, Key::Down) == (if cursor + 1 < n { cursor + 1 } else { cursor as int }),
        picker_cursor(cursor, n, Key::Char('j')) == picker_cursor(cursor, n, Key::Down),
        picker_cursor(cursor, n, Key::Up) == (if cursor > 0 { cursor - 1 } else { 0int }),
        picker_cursor(cursor, n, Key::Char('k')) == picker_cursor(cursor, n, Key::Up),
        picker_cursor(cursor, n, Key::Down) < n,
{
}

} // verus!
