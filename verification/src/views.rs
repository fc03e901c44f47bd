//! The focus registry and the two views' local input handling.
//!
//! Each view may consume a raw event first — its local bindings — before
//! the global key table is consulted; a view that declines returns no
//! intent. The registry is an ordered, never-empty list of view
//! identifiers over which the focus cycles with wraparound.

use vstd::prelude::*;

use crate::events::{EventContext, Intent, KeyCode, RawEvent};
use crate::list::Navigation;

verus! {

/// The registered views.
#[derive(Clone, Copy, Debug, PartialEq, Eq, Structural)]
pub enum ViewId {
    DependencyView,
    DependencySearchView,
}

/// The document's dependency list view. It holds no local state; its
/// bindings move the dependency list's cursor.
#[derive(Debug)]
pub struct DependencyView {}

impl DependencyView {
    pub fn new() -> (v: DependencyView) {
        DependencyView {  }
    }
}

/// The search view. Locally it remembers which of its two lists — search
/// hits or cached versions — its navigation keys drive.
#[derive(Debug)]
pub struct DependencySearchView {
    pub version_list_focused: bool,
    pub versions_selected: Option<usize>,
}

impl DependencySearchView {
    pub fn new() -> (v: DependencySearchView)
        ensures
            !v.version_list_focused,
            v.versions_selected is None,
    {
        DependencySearchView { version_list_focused: false, versions_selected: None }
    }
}

/// The dependency view's local bindings: `j` and `k` move the list
/// cursor. While text is being entered the view declines everything.
pub open spec fn spec_dependency_view_intent(event: RawEvent, ctx: EventContext) -> Option<Intent> {
    match event {
        RawEvent::Key(k) => if !k.is_press || ctx.mode is Input {
            None
        } else {
            match k.code {
                KeyCode::Char(c) => if c == 'j' {
                    Some(Intent::NavigateList(Navigation::Next))
                } else if c == 'k' {
                    Some(Intent::NavigateList(Navigation::Previous))
                } else {
                    None
                },
                _ => None,
            }
        },
        _ => None,
    }
}

impl DependencyView {
    /// Offer a raw event to the dependency view.
    pub fn handle_event(&self, event: &RawEvent, ctx: &EventContext) -> (r: Option<Intent>)
        ensures
            r == spec_dependency_view_intent(*event, *ctx),
    {
        match event {
            RawEvent::Key(k) => if !k.is_press || ctx.mode == crate::app::InteractionMode::Input {
                None
            } else {
                match k.code {
                    KeyCode::Char(c) => if c == 'j' {
                        Some(Intent::NavigateList(Navigation::Next))
                    } else if c == 'k' {
                        Some(Intent::NavigateList(Navigation::Previous))
                    } else {
                        None
                    },
                    _ => None,
                }
            },
            _ => None,
        }
    }
}

/// The search view's local step: the state it keeps and the intent it
/// yields for one raw event. While text is being entered the view declines
/// everything; otherwise `j`/`k` move the focused list's cursor, `h`/`l`
/// pick which of its lists is focused, `s` asks for a search with the
/// current phrase, and `Enter` asks for the selected hit's versions.
pub open spec fn spec_search_view_step(
    v: DependencySearchView,
    event: RawEvent,
    ctx: EventContext,
) -> (DependencySearchView, Option<Intent>) {
    match event {
        RawEvent::Key(k) => if !k.is_press || ctx.mode is Input {
            (v, None)
        } else {
            match k.code {
                KeyCode::Char(c) => if c == 'j' {
                    (v, Some(Intent::NavigateList(Navigation::Next)))
                } else if c == 'k' {
                    (v, Some(Intent::NavigateList(Navigation::Previous)))
                } else if c == 'l' {
                    (DependencySearchView { version_list_focused: true, ..v }, None)
                } else if c == 'h' {
                    (DependencySearchView { version_list_focused: false, ..v }, None)
                } else if c == 's' {
                    (v, Some(Intent::TriggerSearch(ctx.search_phrase)))
                } else {
                    (v, None)
                },
                KeyCode::Enter => match ctx.found_selection {
                    Some(i) => (v, Some(Intent::FetchVersions { index: i })),
                    None => (v, None),
                },
                _ => (v, None),
            }
        },
        _ => (v, None),
    }
}

impl DependencySearchView {
    /// Offer a raw event to the search view.
    pub fn handle_event(&mut self, event: &RawEvent, ctx: &EventContext) -> (r: Option<Intent>)
        ensures
            (*final(self), r) == spec_search_view_step(*old(self), *event, *ctx),
    {
        match event {
            RawEvent::Key(k) => {
                if !k.is_press || ctx.mode == crate::app::InteractionMode::Input {
                    return None;
                }
                match k.code {
                    KeyCode::Char(c) => {
                        if c == 'j' {
                            Some(Intent::NavigateList(Navigation::Next))
                        } else if c == 'k' {
                            Some(Intent::NavigateList(Navigation::Previous))
                        } else if c == 'l' {
                            self.version_list_focused = true;
                            None
                        } else if c == 'h' {
                            self.version_list_focused = false;
                            None
                        } else if c == 's' {
                            Some(Intent::TriggerSearch(ctx.search_phrase.clone()))
                        } else {
                            None
                        }
                    },
                    KeyCode::Enter => match ctx.found_selection {
                        Some(i) => Some(Intent::FetchVersions { index: i }),
                        None => None,
                    },
                    _ => None,
                }
            },
            _ => None,
        }
    }
}

/// The focus registry and the views' local state, owned by the
/// application state.
#[derive(Debug)]
pub struct Views {
    pub order: Vec<ViewId>,
    pub dependency: DependencyView,
    pub dependency_search_view: DependencySearchView,
}

/// One view step over the whole registry: the focused view is offered the
/// event; the others are untouched.
pub open spec fn spec_views_step(
    v: Views,
    focused: ViewId,
    event: RawEvent,
    ctx: EventContext,
) -> (Views, Option<Intent>) {
    match focused {
        ViewId::DependencyView => (v, spec_dependency_view_intent(event, ctx)),
        ViewId::DependencySearchView => {
            let (sv, intent) = spec_search_view_step(v.dependency_search_view, event, ctx);
            (Views { dependency_search_view: sv, ..v }, intent)
        },
    }
}

impl Views {
    /// The registry is never empty.
    pub open spec fn wf(&self) -> bool {
        self.order@.len() > 0
    }

    /// The registry in its fixed order, with fresh view state.
    pub fn new() -> (v: Views)
        ensures
            v.order@ == seq![ViewId::DependencyView, ViewId::DependencySearchView],
            v.dependency_search_view.version_list_focused == false,
            v.dependency_search_view.versions_selected is None,
            v.wf(),
    {
        let order = vec![ViewId::DependencyView, ViewId::DependencySearchView];
        proof {
            assert(order@ =~= seq![ViewId::DependencyView, ViewId::DependencySearchView]);
        }
        Views {
            order,
            dependency: DependencyView::new(),
            dependency_search_view: DependencySearchView::new(),
        }
    }

    /// Offer a raw event to the focused view.
    pub fn handle_focused(&mut self, focused: ViewId, event: &RawEvent, ctx: &EventContext) -> (r:
        Option<Intent>)
        ensures
            (*final(self), r) == spec_views_step(*old(self), focused, *event, *ctx),
    {
        match focused {
            ViewId::DependencyView => self.dependency.handle_event(event, ctx),
            ViewId::DependencySearchView => self.dependency_search_view.handle_event(event, ctx),
        }
    }
}

} // verus!
