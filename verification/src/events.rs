//! Raw input, intents, effects, and the reducer.
//!
//! A raw key event is translated — first by the focused view, then by the
//! global key table — into a semantic [`Intent`]. The reducer
//! [`AppExecutor`] is the only writer of [`AppState`]: it folds one event
//! into the state and schedules side effects as pure [`Effect`] values.
//! The orchestrator's decision functions turn an effect's outcome back
//! into the event fed into the loop.

use vstd::prelude::*;

use crate::app::{
    spec_find_entry, AppState, InteractionMode, VersionCacheEntry,
};
use crate::dependency::{spec_deps_view, spec_reconcile_rel};
use crate::list::{nav_cursor, nav_index, spec_delete_rel, List, Navigation};
use crate::maven_registry::{
    GetVersionsResponse, GetVersionsResponseDoc, MavenResponse, SearchResponse, SearchResponseDoc,
};
use crate::views::{spec_views_step, ViewId, Views};

verus! {

/// The keys the tool distinguishes; every other key reads as `Other`.
#[derive(Clone, Copy, Debug, PartialEq, Eq, Structural)]
pub enum KeyCode {
    Char(char),
    Esc,
    Backspace,
    Enter,
    Tab,
    BackTab,
    Other,
}

/// One key event. Only presses are acted on: terminals may also report
/// releases and repeats.
#[derive(Clone, Copy, Debug, PartialEq, Eq, Structural)]
pub struct KeyEvent {
    pub code: KeyCode,
    pub is_press: bool,
}

/// A raw input event as the terminal reports it.
#[derive(Clone, Copy, Debug, PartialEq, Eq, Structural)]
pub enum RawEvent {
    Key(KeyEvent),
    Other,
}

/// The read-only snapshot translation runs against.
#[derive(Clone, Debug)]
pub struct EventContext {
    pub mode: InteractionMode,
    pub currently_focused_view: ViewId,
    pub search_phrase: String,
    pub found_selection: Option<usize>,
}

/// The snapshot a state yields.
pub open spec fn spec_ctx(s: AppState) -> EventContext {
    EventContext {
        mode: s.mode,
        currently_focused_view: s.focused_view,
        search_phrase: s.search_phrase,
        found_selection: s.found_dependencies.selected,
    }
}

impl EventContext {
    /// Take the translation snapshot of a state.
    pub fn from(app_state: &AppState) -> (ctx: EventContext)
        ensures
            ctx == spec_ctx(*app_state),
    {
        EventContext {
            mode: app_state.mode,
            currently_focused_view: app_state.focused_view,
            search_phrase: app_state.search_phrase.clone(),
            found_selection: app_state.found_dependencies.selected,
        }
    }
}

/// What the user asked for, independent of which key said it.
#[derive(Clone, Debug, PartialEq)]
pub enum Intent {
    Exit,
    EnterInputMode,
    LeaveInputMode,
    AppendSearchChar(char),
    DeleteSearchChar,
    SubmitChanges,
    NavigateList(Navigation),
    DeleteSelected,
    TriggerSearch(String),
    FetchVersions { index: usize },
    FocusNextView,
    FocusPreviousView,
}

/// A description of remote work; executing it is someone else's job.
#[derive(Clone, Debug, PartialEq)]
pub enum Effect {
    SearchMaven(String),
    GetAvailableDependencyVersions { group_id: String, artifact_id: String },
}

/// A failed effect, carried back into the loop with the reason.
#[derive(Clone, Debug, PartialEq)]
pub struct EffectFailure {
    pub effect: Effect,
    pub reason: String,
}

/// The outcome of an effect, fed back into the loop as an event.
#[derive(Clone, Debug, PartialEq)]
pub enum AsyncEvent {
    MavenDependenciesFound(Vec<SearchResponseDoc>),
    MavenDependencyVersionsFound(MavenResponse<GetVersionsResponse>),
    Failed(EffectFailure),
}

/// Everything the loop's inbound channel can carry.
#[derive(Clone, Debug, PartialEq)]
pub enum AppEvent {
    Raw(RawEvent),
    User(Intent),
    Async(AsyncEvent),
}

/// The global key table: what a raw event means under a given snapshot.
/// While text is entered, characters extend the search phrase, backspace
/// shortens it, and escape leaves input mode; nothing else is recognized.
/// In normal mode a fixed table applies, and unmapped keys mean nothing.
pub open spec fn spec_event_to_intent(event: RawEvent, ctx: EventContext) -> Option<Intent> {
    match event {
        RawEvent::Key(k) => if !k.is_press {
            None
        } else {
            match ctx.mode {
                InteractionMode::Input => match k.code {
                    KeyCode::Char(c) => Some(Intent::AppendSearchChar(c)),
                    KeyCode::Backspace => Some(Intent::DeleteSearchChar),
                    KeyCode::Esc => Some(Intent::LeaveInputMode),
                    _ => None,
                },
                InteractionMode::Normal => match k.code {
                    KeyCode::Char(c) => if c == 'q' {
                        Some(Intent::Exit)
                    } else if c == 'i' {
                        Some(Intent::EnterInputMode)
                    } else if c == 'a' {
                        Some(Intent::SubmitChanges)
                    } else if c == 'j' {
                        Some(Intent::NavigateList(Navigation::Next))
                    } else if c == 'k' {
                        Some(Intent::NavigateList(Navigation::Previous))
                    } else if c == 'd' {
                        Some(Intent::DeleteSelected)
                    } else if c == 'w' {
                        Some(Intent::TriggerSearch(ctx.search_phrase))
                    } else {
                        None
                    },
                    KeyCode::Tab => Some(Intent::FocusNextView),
                    KeyCode::BackTab => Some(Intent::FocusPreviousView),
                    KeyCode::Enter => if ctx.currently_focused_view is DependencySearchView {
                        match ctx.found_selection {
                            Some(i) => Some(Intent::FetchVersions { index: i }),
                            None => None,
                        }
                    } else {
                        None
                    },
                    _ => None,
                },
            }
        },
        _ => None,
    }
}

/// The global intent translator. It is pure: it only reads the snapshot
/// it is handed.
pub struct AppIntentHandler {}

impl AppIntentHandler {
    /// Translate a raw event under the given snapshot, as the global key
    /// table says.
    pub fn event_to_intent(event: RawEvent, ctx: &EventContext) -> (r: Option<Intent>)
        ensures
            r == spec_event_to_intent(event, *ctx),
    {
        match event {
            RawEvent::Key(k) => {
                if !k.is_press {
                    return None;
                }
                match ctx.mode {
                    InteractionMode::Input => match k.code {
                        KeyCode::Char(c) => Some(Intent::AppendSearchChar(c)),
                        KeyCode::Backspace => Some(Intent::DeleteSearchChar),
                        KeyCode::Esc => Some(Intent::LeaveInputMode),
                        _ => None,
                    },
                    InteractionMode::Normal => match k.code {
                        KeyCode::Char(c) => {
                            if c == 'q' {
                                Some(Intent::Exit)
                            } else if c == 'i' {
                                Some(Intent::EnterInputMode)
                            } else if c == 'a' {
                                Some(Intent::SubmitChanges)
                            } else if c == 'j' {
                                Some(Intent::NavigateList(Navigation::Next))
                            } else if c == 'k' {
                                Some(Intent::NavigateList(Navigation::Previous))
                            } else if c == 'd' {
                                Some(Intent::DeleteSelected)
                            } else if c == 'w' {
                                Some(Intent::TriggerSearch(ctx.search_phrase.clone()))
                            } else {
                                None
                            }
                        },
                        KeyCode::Tab => Some(Intent::FocusNextView),
                        KeyCode::BackTab => Some(Intent::FocusPreviousView),
                        KeyCode::Enter => {
                            if matches!(ctx.currently_focused_view, ViewId::DependencySearchView) {
                                match ctx.found_selection {
                                    Some(i) => Some(Intent::FetchVersions { index: i }),
                                    None => None,
                                }
                            } else {
                                None
                            }
                        },
                        _ => None,
                    },
                }
            },
            _ => None,
        }
    }
}

/// Index of the first occurrence of a view in the registry order.
pub open spec fn spec_first_index(order: Seq<ViewId>, v: ViewId) -> Option<int>
    decreases order.len(),
{
    if order.len() == 0 {
        None
    } else if order[0] == v {
        Some(0int)
    } else {
        match spec_first_index(order.drop_first(), v) {
            Some(i) => Some(i + 1),
            None => None,
        }
    }
}

/// A found index is in bounds, names the view, and is the first to do so.
pub proof fn lemma_first_index_props(order: Seq<ViewId>, v: ViewId)
    ensures
        match spec_first_index(order, v) {
            Some(i) => 0 <= i < order.len() && order[i] == v && forall|k: int|
                0 <= k < i ==> order[k] != v,
            None => forall|k: int| 0 <= k < order.len() ==> order[k] != v,
        },
    decreases order.len(),
{
    if order.len() > 0 {
        lemma_first_index_props(order.drop_first(), v);
        if order[0] != v {
            match spec_first_index(order.drop_first(), v) {
                Some(i) => {
                    assert(order.drop_first()[i] == order[i + 1]);
                    assert forall|k: int| 0 <= k < i + 1 implies order[k] != v by {
                        if k > 0 {
                            assert(order.drop_first()[k - 1] == order[k]);
                        }
                    }
                },
                None => {
                    assert forall|k: int| 0 <= k < order.len() implies order[k] != v by {
                        if k > 0 {
                            assert(order.drop_first()[k - 1] == order[k]);
                        }
                    }
                },
            }
        }
    }
}

/// The first matching index is what `spec_first_index` finds.
pub proof fn lemma_first_index_at(order: Seq<ViewId>, v: ViewId, i: int)
    requires
        0 <= i < order.len(),
        order[i] == v,
        forall|k: int| 0 <= k < i ==> order[k] != v,
    ensures
        spec_first_index(order, v) == Some(i),
    decreases order.len(),
{
    if i > 0 {
        lemma_first_index_at(order.drop_first(), v, i - 1);
    }
}

/// The view after the current one in the registry, wrapping at the end;
/// a view not in the registry keeps the focus where it was.
pub open spec fn spec_focus_next(order: Seq<ViewId>, cur: ViewId) -> ViewId {
    match spec_first_index(order, cur) {
        Some(i) => if i + 1 < order.len() {
            order[i + 1]
        } else {
            order[0]
        },
        None => cur,
    }
}

/// The view before the current one in the registry, wrapping at the front.
pub open spec fn spec_focus_previous(order: Seq<ViewId>, cur: ViewId) -> ViewId {
    match spec_first_index(order, cur) {
        Some(i) => if i == 0 {
            order[order.len() - 1]
        } else {
            order[i - 1]
        },
        None => cur,
    }
}

/// Find the first occurrence of a view in the registry order.
fn first_index(order: &Vec<ViewId>, v: ViewId) -> (r: Option<usize>)
    ensures
        match r {
            Some(i) => spec_first_index(order@, v) == Some(i as int),
            None => spec_first_index(order@, v) is None,
        },
{
    let n = order.len();
    let mut i: usize = 0;
    while i < n
        invariant
            i <= n,
            n == order@.len(),
            forall|k: int| 0 <= k < i ==> order@[k] != v,
        decreases n - i,
    {
        if order[i] == v {
            proof {
                lemma_first_index_at(order@, v, i as int);
            }
            return Some(i);
        }
        i += 1;
    }
    proof {
        lemma_first_index_props(order@, v);
        match spec_first_index(order@, v) {
            Some(j) => {
                assert(order@[j] == v);
            },
            None => {},
        }
    }
    None
}

/// Cycle the focus one view forward.
fn focus_next(order: &Vec<ViewId>, cur: ViewId) -> (r: ViewId)
    requires
        order@.len() > 0,
    ensures
        r == spec_focus_next(order@, cur),
        order@.contains(cur) ==> order@.contains(r),
{
    proof {
        lemma_first_index_props(order@, cur);
        if order@.contains(cur) {
            let w = choose|w: int| 0 <= w < order@.len() && order@[w] == cur;
            assert(order@[w] == cur);
        }
    }
    match first_index(order, cur) {
        Some(i) => {
            let n = order.len();
            let r = if i + 1 < n {
                order[i + 1]
            } else {
                order[0]
            };
            proof {
                if i + 1 < order@.len() {
                    assert(order@.contains(order@[i + 1 as int]));
                } else {
                    assert(order@.contains(order@[0int]));
                }
            }
            r
        },
        None => cur,
    }
}

/// Cycle the focus one view backward.
fn focus_previous(order: &Vec<ViewId>, cur: ViewId) -> (r: ViewId)
    requires
        order@.len() > 0,
    ensures
        r == spec_focus_previous(order@, cur),
        order@.contains(cur) ==> order@.contains(r),
{
    proof {
        lemma_first_index_props(order@, cur);
        if order@.contains(cur) {
            let w = choose|w: int| 0 <= w < order@.len() && order@[w] == cur;
            assert(order@[w] == cur);
        }
    }
    match first_index(order, cur) {
        Some(i) => {
            let r = if i == 0 {
                order[order.len() - 1]
            } else {
                order[i - 1]
            };
            proof {
                if i == 0 {
                    assert(order@.contains(order@[order@.len() - 1]));
                } else {
                    assert(order@.contains(order@[i - 1 as int]));
                }
            }
            r
        },
        None => cur,
    }
}

/// Relies on std's `String::push`: appends exactly the one character.
#[verifier::external_body]
fn string_push(s: &mut String, c: char)
    ensures
        final(s)@ == old(s)@.push(c),
{
    s.push(c);
}

/// Relies on std's `String::pop`: removes and returns the last character,
/// or returns `None` on an empty string.
#[verifier::external_body]
fn string_pop(s: &mut String) -> (r: Option<char>)
    ensures
        old(s)@.len() == 0 ==> final(s)@ == old(s)@ && r is None,
        old(s)@.len() > 0 ==> final(s)@ == old(s)@.drop_last() && r == Some(old(s)@.last()),
{
    s.pop()
}

/// How many versions the versions list currently shows: the cached
/// listing of the selected search hit, if both exist.
pub open spec fn spec_current_versions_len(s: AppState) -> nat {
    match s.found_dependencies.selected {
        Some(i) => if i < s.found_dependencies.items@.len() {
            let d = s.found_dependencies.items@[i as int];
            match s.version_cache.spec_get(d.g@, d.a@) {
                Some(vs) => vs.len(),
                None => 0,
            }
        } else {
            0
        },
        None => 0,
    }
}

fn current_versions_len(state: &AppState) -> (l: usize)
    requires
        state.wf(),
    ensures
        l == spec_current_versions_len(*state),
{
    match state.found_dependencies.selected {
        Some(i) => {
            let d = &state.found_dependencies.items[i];
            match state.version_cache.get(d.g.as_str(), d.a.as_str()) {
                Some(v) => v.len(),
                None => 0,
            }
        },
        None => 0,
    }
}

/// The cache entry one version-listing response inserts.
pub open spec fn spec_versions_entry(docs: Vec<GetVersionsResponseDoc>) -> VersionCacheEntry {
    VersionCacheEntry { group_id: docs@[0].g, artifact_id: docs@[0].a, versions: docs }
}

/// How one intent relates the state before to the state after, and what
/// it appends to the scheduled effects. This is the whole reducer table.
pub open spec fn spec_reduce(
    intent: Intent,
    pre: AppState,
    post: AppState,
    eff_pre: Seq<Effect>,
    eff_post: Seq<Effect>,
) -> bool {
    match intent {
        Intent::Exit => post == AppState { exit: true, ..pre } && eff_post == eff_pre,
        Intent::EnterInputMode => post == AppState { mode: InteractionMode::Input, ..pre }
            && eff_post == eff_pre,
        Intent::LeaveInputMode => post == AppState { mode: InteractionMode::Normal, ..pre }
            && eff_post == eff_pre,
        Intent::AppendSearchChar(c) => post == AppState { search_phrase: post.search_phrase, ..pre }
            && post.search_phrase@ == pre.search_phrase@.push(c) && eff_post == eff_pre,
        Intent::DeleteSearchChar => post == AppState { search_phrase: post.search_phrase, ..pre }
            && post.search_phrase@ == (if pre.search_phrase@.len() == 0 {
            pre.search_phrase@
        } else {
            pre.search_phrase@.drop_last()
        }) && eff_post == eff_pre,
        Intent::SubmitChanges => post == AppState { maven_file: post.maven_file, ..pre }
            && spec_reconcile_rel(
            pre.maven_file,
            post.maven_file,
            spec_deps_view(pre.dependencies.items@),
        ) && eff_post == eff_pre,
        Intent::NavigateList(direction) => spec_navigate_transition(direction, pre, post)
            && eff_post == eff_pre,
        Intent::DeleteSelected => post == AppState { dependencies: post.dependencies, ..pre }
            && spec_delete_rel(pre.dependencies, post.dependencies) && eff_post == eff_pre,
        Intent::TriggerSearch(phrase) => post == pre && eff_post == eff_pre.push(
            Effect::SearchMaven(phrase),
        ),
        Intent::FetchVersions { index } => post == pre && eff_post == (if index
            < pre.found_dependencies.items@.len() {
            eff_pre.push(
                Effect::GetAvailableDependencyVersions {
                    group_id: pre.found_dependencies.items@[index as int].g,
                    artifact_id: pre.found_dependencies.items@[index as int].a,
                },
            )
        } else {
            eff_pre
        }),
        Intent::FocusNextView => post == AppState { focused_view: post.focused_view, ..pre }
            && post.focused_view == spec_focus_next(pre.views.order@, pre.focused_view) && eff_post
            == eff_pre,
        Intent::FocusPreviousView => post == AppState { focused_view: post.focused_view, ..pre }
            && post.focused_view == spec_focus_previous(pre.views.order@, pre.focused_view)
            && eff_post == eff_pre,
    }
}

/// The cursor move an intent asks for: it drives the list belonging to
/// the focused view — inside the search view, whichever of its two lists
/// is locally focused — clamped and without wraparound.
pub open spec fn spec_navigate_transition(
    direction: Navigation,
    pre: AppState,
    post: AppState,
) -> bool {
    match pre.focused_view {
        ViewId::DependencyView => post == AppState { dependencies: post.dependencies, ..pre }
            && post.dependencies == (List {
            items: pre.dependencies.items,
            selected: pre.dependencies.spec_navigate(direction),
        }),
        ViewId::DependencySearchView => if pre.views.dependency_search_view.version_list_focused {
            post == AppState { views: post.views, ..pre } && post.views == (Views {
                dependency_search_view: crate::views::DependencySearchView {
                    version_list_focused: true,
                    versions_selected: nav_index(
                        spec_current_versions_len(pre),
                        pre.views.dependency_search_view.versions_selected,
                        direction,
                    ),
                },
                ..pre.views
            })
        } else {
            post == AppState { found_dependencies: post.found_dependencies, ..pre }
                && post.found_dependencies == (List {
                items: pre.found_dependencies.items,
                selected: pre.found_dependencies.spec_navigate(direction),
            })
        },
    }
}

/// How one effect outcome relates the state before to the state after.
/// A search completion replaces the results and resets their cursor to
/// the first hit; a version-listing completion stores the listing under
/// its key; a failure is recorded, never dropped.
pub open spec fn spec_apply_async(ev: AsyncEvent, pre: AppState, post: AppState) -> bool {
    match ev {
        AsyncEvent::MavenDependenciesFound(docs) => post == AppState {
            found_dependencies: post.found_dependencies,
            ..pre
        } && post.found_dependencies == (List {
            items: docs,
            selected: if docs@.len() > 0 {
                Some(0usize)
            } else {
                None::<usize>
            },
        }),
        AsyncEvent::MavenDependencyVersionsFound(response) => {
            let docs = response.response.docs;
            if docs@.len() > 0 {
                post == AppState { version_cache: post.version_cache, ..pre } && (match
                    spec_find_entry(pre.version_cache.entries@, docs@[0].g@, docs@[0].a@) {
                    Some(i) => post.version_cache.entries@ == pre.version_cache.entries@.update(
                        i,
                        spec_versions_entry(docs),
                    ),
                    None => post.version_cache.entries@ == pre.version_cache.entries@.push(
                        spec_versions_entry(docs),
                    ),
                })
            } else {
                post == pre
            }
        },
        AsyncEvent::Failed(failure) => post == AppState { last_failure: Some(failure), ..pre },
    }
}

/// The reducer: the single writer of the application state.
pub struct AppExecutor {}

impl AppExecutor {
    /// Fold one event into the state, appending any scheduled effects.
    /// Raw events do nothing here: `handle_event` routes them through the
    /// views and the key table first.
    pub fn execute(event: AppEvent, state: &mut AppState, effects: &mut Vec<Effect>)
        requires
            old(state).wf(),
        ensures
            final(state).wf(),
            match event {
                AppEvent::User(intent) => spec_reduce(
                    intent,
                    *old(state),
                    *final(state),
                    old(effects)@,
                    final(effects)@,
                ),
                AppEvent::Async(ae) => spec_apply_async(ae, *old(state), *final(state))
                    && final(effects)@ == old(effects)@,
                AppEvent::Raw(_) => *final(state) == *old(state) && final(effects)@ == old(
                    effects)@,
            },
    {
        match event {
            AppEvent::User(intent) => match intent {
                Intent::Exit => {
                    state.exit = true;
                },
                Intent::EnterInputMode => {
                    state.mode = InteractionMode::Input;
                },
                Intent::LeaveInputMode => {
                    state.mode = InteractionMode::Normal;
                },
                Intent::AppendSearchChar(c) => {
                    string_push(&mut state.search_phrase, c);
                },
                Intent::DeleteSearchChar => {
                    let _ = string_pop(&mut state.search_phrase);
                },
                Intent::SubmitChanges => {
                    let _ = state.maven_file.update_dependencies(&state.dependencies.items);
                },
                Intent::NavigateList(direction) => {
                    match state.focused_view {
                        ViewId::DependencyView => {
                            state.dependencies.navigate(direction);
                        },
                        ViewId::DependencySearchView => {
                            if state.views.dependency_search_view.version_list_focused {
                                let len = current_versions_len(state);
                                let moved = nav_cursor(
                                    len,
                                    state.views.dependency_search_view.versions_selected,
                                    direction,
                                );
                                state.views.dependency_search_view.versions_selected = moved;
                            } else {
                                state.found_dependencies.navigate(direction);
                            }
                        },
                    }
                },
                Intent::DeleteSelected => {
                    state.dependencies.delete_selected();
                },
                Intent::TriggerSearch(phrase) => {
                    effects.push(Effect::SearchMaven(phrase));
                },
                Intent::FetchVersions { index } => {
                    if index < state.found_dependencies.items.len() {
                        let d = &state.found_dependencies.items[index];
                        effects.push(
                            Effect::GetAvailableDependencyVersions {
                                group_id: d.g.clone(),
                                artifact_id: d.a.clone(),
                            },
                        );
                    }
                },
                Intent::FocusNextView => {
                    let f = focus_next(&state.views.order, state.focused_view);
                    state.focused_view = f;
                },
                Intent::FocusPreviousView => {
                    let f = focus_previous(&state.views.order, state.focused_view);
                    state.focused_view = f;
                },
            },
            AppEvent::Async(ae) => match ae {
                AsyncEvent::MavenDependenciesFound(docs) => {
                    let selected = if docs.len() > 0 {
                        Some(0usize)
                    } else {
                        None
                    };
                    state.found_dependencies = List { items: docs, selected };
                },
                AsyncEvent::MavenDependencyVersionsFound(response) => {
                    let docs = response.response.docs;
                    if docs.len() > 0 {
                        let group_id = docs[0].g.clone();
                        let artifact_id = docs[0].a.clone();
                        state.version_cache.insert(group_id, artifact_id, docs);
                    }
                },
                AsyncEvent::Failed(failure) => {
                    state.last_failure = Some(failure);
                },
            },
            AppEvent::Raw(_) => {},
        }
    }

    /// Fold one event into the state. A raw event is first offered to the
    /// focused view; only when the view declines is the global key table
    /// consulted; the chosen intent, if any, is then reduced. The result
    /// says whether the fold asked for the document to be persisted:
    /// persistence is synchronous, so the caller must write the document
    /// out before folding further edits.
    pub fn handle_event(
        event: AppEvent,
        state: &mut AppState,
        effects: &mut Vec<Effect>,
    ) -> (persist_requested: bool)
        requires
            old(state).wf(),
        ensures
            final(state).wf(),
            match event {
                AppEvent::Raw(ev) => {
                    let routed = spec_route(ev, *old(state));
                    let mid = AppState { views: routed.0, ..*old(state) };
                    &&& persist_requested == (routed.1 matches Some(Intent::SubmitChanges))
                    &&& match routed.1 {
                        None => *final(state) == mid && final(effects)@ == old(effects)@,
                        Some(intent) => spec_reduce(
                            intent,
                            mid,
                            *final(state),
                            old(effects)@,
                            final(effects)@,
                        ),
                    }
                },
                AppEvent::User(intent) => spec_reduce(
                    intent,
                    *old(state),
                    *final(state),
                    old(effects)@,
                    final(effects)@,
                ) && persist_requested == (intent is SubmitChanges),
                AppEvent::Async(ae) => spec_apply_async(ae, *old(state), *final(state))
                    && final(effects)@ == old(effects)@ && !persist_requested,
            },
    {
        match event {
            AppEvent::Raw(ev) => {
                let ctx = EventContext::from(state);
                let focused = state.focused_view;
                let view_intent = state.views.handle_focused(focused, &ev, &ctx);
                let chosen = match view_intent {
                    Some(intent) => Some(intent),
                    None => AppIntentHandler::event_to_intent(ev, &ctx),
                };
                match chosen {
                    Some(intent) => {
                        let submitted = matches!(intent, Intent::SubmitChanges);
                        Self::execute(AppEvent::User(intent), state, effects);
                        submitted
                    },
                    None => false,
                }
            },
            AppEvent::User(intent) => {
                let submitted = matches!(intent, Intent::SubmitChanges);
                Self::execute(AppEvent::User(intent), state, effects);
                submitted
            },
            other => {
                Self::execute(other, state, effects);
                false
            },
        }
    }
}

/// Where a raw event ends up: the views it may have stepped, and the
/// intent chosen — the focused view's answer if it gave one, otherwise
/// the global table's.
pub open spec fn spec_route(event: RawEvent, s: AppState) -> (Views, Option<Intent>) {
    let ctx = spec_ctx(s);
    let stepped = spec_views_step(s.views, s.focused_view, event, ctx);
    match stepped.1 {
        Some(intent) => (stepped.0, Some(intent)),
        None => (stepped.0, spec_event_to_intent(event, ctx)),
    }
}

/// The orchestrator's decision functions: each effect outcome, success or
/// failure, becomes exactly one event for the loop. The calls that produce
/// the outcomes run outside this crate.
pub struct AppAsyncOrchestrator {}

impl AppAsyncOrchestrator {
    /// The event a finished search effect feeds back: the response's hits
    /// on success, the recorded failure otherwise.
    pub fn search_outcome_event(search_phrase: String, outcome: Result<
        MavenResponse<SearchResponse>,
        String,
    >) -> (ev: AppEvent)
        ensures
            ev == match outcome {
                Ok(response) => AppEvent::Async(
                    AsyncEvent::MavenDependenciesFound(response.response.docs),
                ),
                Err(reason) => AppEvent::Async(
                    AsyncEvent::Failed(
                        EffectFailure { effect: Effect::SearchMaven(search_phrase), reason },
                    ),
                ),
            },
    {
        match outcome {
            Ok(response) => AppEvent::Async(
                AsyncEvent::MavenDependenciesFound(response.response.docs),
            ),
            Err(reason) => AppEvent::Async(
                AsyncEvent::Failed(
                    EffectFailure { effect: Effect::SearchMaven(search_phrase), reason },
                ),
            ),
        }
    }

    /// The event a finished version-listing effect feeds back.
    pub fn versions_outcome_event(group_id: String, artifact_id: String, outcome: Result<
        MavenResponse<GetVersionsResponse>,
        String,
    >) -> (ev: AppEvent)
        ensures
            ev == match outcome {
                Ok(response) => AppEvent::Async(
                    AsyncEvent::MavenDependencyVersionsFound(response),
                ),
                Err(reason) => AppEvent::Async(
                    AsyncEvent::Failed(
                        EffectFailure {
                            effect: Effect::GetAvailableDependencyVersions {
                                group_id,
                                artifact_id,
                            },
                            reason,
                        },
                    ),
                ),
            },
    {
        match outcome {
            Ok(response) => AppEvent::Async(AsyncEvent::MavenDependencyVersionsFound(response)),
            Err(reason) => AppEvent::Async(
                AsyncEvent::Failed(
                    EffectFailure {
                        effect: Effect::GetAvailableDependencyVersions { group_id, artifact_id },
                        reason,
                    },
                ),
            ),
        }
    }
}

} // verus!
