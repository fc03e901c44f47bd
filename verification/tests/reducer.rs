use lazy_maven::app::{AppState, InteractionMode};
use lazy_maven::dependency::MavenFile;
use lazy_maven::events::{
    AppEvent, AppExecutor, AsyncEvent, Effect, EffectFailure, Intent, KeyCode, KeyEvent, RawEvent,
};
use lazy_maven::list::Navigation;
use lazy_maven::maven_registry::{
    GetVersionsResponse, GetVersionsResponseDoc, MavenResponse, SearchResponseDoc,
};
use lazy_maven::views::ViewId;
use lazy_maven::xml::{XmlElement, XmlNode};

fn field(name: &str, text: &str) -> XmlNode {
    XmlNode::Element(XmlElement {
        prefix: None,
        namespace: None,
        namespaces: None,
        name: name.to_string(),
        attributes: vec![],
        children: vec![XmlNode::Text(text.to_string())],
    })
}

fn dep_elem(g: &str, a: &str, v: &str) -> XmlNode {
    XmlNode::Element(XmlElement {
        prefix: None,
        namespace: None,
        namespaces: None,
        name: "dependency".to_string(),
        attributes: vec![],
        children: vec![field("groupId", g), field("artifactId", a), field("version", v)],
    })
}

fn state_with_deps(deps: Vec<XmlNode>) -> AppState {
    let maven_file = MavenFile {
        root: XmlElement {
            prefix: None,
            namespace: None,
            namespaces: None,
            name: "project".to_string(),
            attributes: vec![],
            children: vec![XmlNode::Element(XmlElement {
                prefix: None,
                namespace: None,
                namespaces: None,
                name: "dependencies".to_string(),
                attributes: vec![],
                children: deps,
            })],
        },
        file_path: "pom.xml".to_string(),
    };
    AppState::new(maven_file).unwrap()
}

fn fresh_state() -> AppState {
    state_with_deps(vec![
        dep_elem("g1", "a1", "1.0"),
        dep_elem("g2", "a2", "2.0"),
        dep_elem("g3", "a3", "3.0"),
    ])
}

fn hit(id: &str, g: &str, a: &str) -> SearchResponseDoc {
    SearchResponseDoc {
        id: id.to_string(),
        g: g.to_string(),
        a: a.to_string(),
        latest_version: "1.0".to_string(),
        timestamp: 0,
    }
}

fn version_doc(g: &str, a: &str, v: &str) -> GetVersionsResponseDoc {
    GetVersionsResponseDoc {
        id: format!("{}:{}:{}", g, a, v),
        g: g.to_string(),
        a: a.to_string(),
        v: v.to_string(),
        timestamp: 0,
    }
}

fn user(intent: Intent) -> AppEvent {
    AppEvent::User(intent)
}

fn press(code: KeyCode) -> AppEvent {
    AppEvent::Raw(RawEvent::Key(KeyEvent { code, is_press: true }))
}

fn run(state: &mut AppState, events: Vec<AppEvent>) -> Vec<Effect> {
    let mut effects = Vec::new();
    for ev in events {
        AppExecutor::handle_event(ev, state, &mut effects);
    }
    effects
}

#[test]
fn exit_intent_requests_exit() {
    let mut s = fresh_state();
    let effects = run(&mut s, vec![user(Intent::Exit)]);
    assert!(s.exit);
    assert!(effects.is_empty());
}

#[test]
fn quit_key_requests_exit() {
    let mut s = fresh_state();
    run(&mut s, vec![press(KeyCode::Char('q'))]);
    assert!(s.exit);
}

#[test]
fn key_release_is_ignored() {
    let mut s = fresh_state();
    let release = AppEvent::Raw(RawEvent::Key(KeyEvent {
        code: KeyCode::Char('q'),
        is_press: false,
    }));
    let effects = run(&mut s, vec![release]);
    assert!(!s.exit);
    assert!(effects.is_empty());
}

#[test]
fn unmapped_key_changes_nothing() {
    let mut s = fresh_state();
    let effects = run(&mut s, vec![press(KeyCode::Char('z')), press(KeyCode::Other)]);
    assert!(!s.exit);
    assert_eq!(s.mode, InteractionMode::Normal);
    assert!(effects.is_empty());
}

#[test]
fn input_mode_edits_the_search_phrase() {
    let mut s = fresh_state();
    run(
        &mut s,
        vec![
            press(KeyCode::Char('i')),
            press(KeyCode::Char('k')),
            press(KeyCode::Char('a')),
            press(KeyCode::Char('x')),
            press(KeyCode::Backspace),
            press(KeyCode::Esc),
        ],
    );
    assert_eq!(s.mode, InteractionMode::Normal);
    assert_eq!(s.search_phrase, "ka");
}

#[test]
fn characters_in_input_mode_do_not_quit() {
    let mut s = fresh_state();
    run(&mut s, vec![press(KeyCode::Char('i')), press(KeyCode::Char('q'))]);
    assert!(!s.exit);
    assert_eq!(s.search_phrase, "q");
}

#[test]
fn backspace_on_empty_phrase_is_a_no_op() {
    let mut s = fresh_state();
    run(&mut s, vec![user(Intent::EnterInputMode), user(Intent::DeleteSearchChar)]);
    assert_eq!(s.search_phrase, "");
}

#[test]
fn navigation_clamps_at_both_ends() {
    let mut s = fresh_state();
    assert_eq!(s.dependencies.selected, None);
    run(&mut s, vec![press(KeyCode::Char('j'))]);
    assert_eq!(s.dependencies.selected, Some(0));
    run(
        &mut s,
        vec![
            press(KeyCode::Char('j')),
            press(KeyCode::Char('j')),
            press(KeyCode::Char('j')),
            press(KeyCode::Char('j')),
        ],
    );
    assert_eq!(s.dependencies.selected, Some(2));
    run(
        &mut s,
        vec![
            press(KeyCode::Char('k')),
            press(KeyCode::Char('k')),
            press(KeyCode::Char('k')),
            press(KeyCode::Char('k')),
        ],
    );
    assert_eq!(s.dependencies.selected, Some(0));
}

#[test]
fn navigation_on_empty_list_selects_nothing() {
    let mut s = state_with_deps(vec![]);
    run(&mut s, vec![press(KeyCode::Char('j')), press(KeyCode::Char('k'))]);
    assert_eq!(s.dependencies.selected, None);
}

#[test]
fn delete_middle_keeps_selection_index() {
    let mut s = fresh_state();
    run(
        &mut s,
        vec![
            user(Intent::NavigateList(Navigation::Next)),
            user(Intent::NavigateList(Navigation::Next)),
            user(Intent::DeleteSelected),
        ],
    );
    assert_eq!(s.dependencies.items.len(), 2);
    assert_eq!(s.dependencies.selected, Some(1));
    assert_eq!(s.dependencies.items[1].group_id, "g3");
}

#[test]
fn delete_last_moves_selection_back() {
    let mut s = fresh_state();
    run(
        &mut s,
        vec![
            user(Intent::NavigateList(Navigation::Next)),
            user(Intent::NavigateList(Navigation::Next)),
            user(Intent::NavigateList(Navigation::Next)),
            user(Intent::DeleteSelected),
        ],
    );
    assert_eq!(s.dependencies.items.len(), 2);
    assert_eq!(s.dependencies.selected, Some(1));
}

#[test]
fn delete_only_item_clears_selection() {
    let mut s = state_with_deps(vec![dep_elem("g1", "a1", "1.0")]);
    run(
        &mut s,
        vec![user(Intent::NavigateList(Navigation::Next)), user(Intent::DeleteSelected)],
    );
    assert!(s.dependencies.items.is_empty());
    assert_eq!(s.dependencies.selected, None);
}

#[test]
fn delete_without_selection_is_a_no_op() {
    let mut s = fresh_state();
    run(&mut s, vec![user(Intent::DeleteSelected)]);
    assert_eq!(s.dependencies.items.len(), 3);
}

#[test]
fn submit_after_delete_reconciles_the_document() {
    let mut s = fresh_state();
    run(
        &mut s,
        vec![
            user(Intent::NavigateList(Navigation::Next)),
            user(Intent::DeleteSelected),
            user(Intent::SubmitChanges),
        ],
    );
    let left = s.maven_file.get_dependencies().unwrap();
    let groups: Vec<&str> = left.iter().map(|d| d.group_id.as_str()).collect();
    assert_eq!(groups, vec!["g2", "g3"]);
}

#[test]
fn trigger_search_schedules_one_effect() {
    let mut s = fresh_state();
    let effects = run(&mut s, vec![user(Intent::TriggerSearch("kafka".to_string()))]);
    assert_eq!(effects, vec![Effect::SearchMaven("kafka".to_string())]);
}

#[test]
fn search_completion_replaces_results_and_selects_first() {
    let mut s = fresh_state();
    let effects = run(&mut s, vec![user(Intent::TriggerSearch("kafka".to_string()))]);
    assert_eq!(effects.len(), 1);
    let docs = vec![hit("1", "org.apache.kafka", "kafka"), hit("2", "g", "a"), hit("3", "h", "b")];
    run(
        &mut s,
        vec![AppEvent::Async(AsyncEvent::MavenDependenciesFound(docs))],
    );
    assert_eq!(s.found_dependencies.items.len(), 3);
    assert_eq!(s.found_dependencies.selected, Some(0));
}

#[test]
fn later_arriving_search_result_wins() {
    let mut s = fresh_state();
    let effects = run(
        &mut s,
        vec![
            user(Intent::TriggerSearch("a".to_string())),
            user(Intent::TriggerSearch("b".to_string())),
        ],
    );
    assert_eq!(
        effects,
        vec![
            Effect::SearchMaven("a".to_string()),
            Effect::SearchMaven("b".to_string()),
        ]
    );
    let payload_a = vec![hit("a1", "ga", "aa")];
    let payload_b = vec![hit("b1", "gb", "ab"), hit("b2", "gb2", "ab2")];
    run(
        &mut s,
        vec![
            AppEvent::Async(AsyncEvent::MavenDependenciesFound(payload_b)),
            AppEvent::Async(AsyncEvent::MavenDependenciesFound(payload_a.clone())),
        ],
    );
    assert_eq!(s.found_dependencies.items, payload_a);
    assert_eq!(s.found_dependencies.selected, Some(0));
}

#[test]
fn versions_completion_fills_the_cache_and_overwrites() {
    let mut s = fresh_state();
    let first = MavenResponse {
        response: GetVersionsResponse {
            num_found: 1,
            start: 0,
            docs: vec![version_doc("g", "a", "1.0")],
        },
    };
    let second = MavenResponse {
        response: GetVersionsResponse {
            num_found: 2,
            start: 0,
            docs: vec![version_doc("g", "a", "1.1"), version_doc("g", "a", "1.0")],
        },
    };
    let other = MavenResponse {
        response: GetVersionsResponse {
            num_found: 1,
            start: 0,
            docs: vec![version_doc("other", "a", "9")],
        },
    };
    run(
        &mut s,
        vec![
            AppEvent::Async(AsyncEvent::MavenDependencyVersionsFound(first)),
            AppEvent::Async(AsyncEvent::MavenDependencyVersionsFound(other)),
            AppEvent::Async(AsyncEvent::MavenDependencyVersionsFound(second)),
        ],
    );
    assert_eq!(s.version_cache.entries.len(), 2);
    let versions = s.version_cache.get("g", "a").unwrap();
    assert_eq!(versions.len(), 2);
    assert_eq!(versions[0].v, "1.1");
    assert!(s.version_cache.get("other", "a").is_some());
    assert!(s.version_cache.get("nobody", "a").is_none());
}

#[test]
fn empty_versions_response_changes_nothing() {
    let mut s = fresh_state();
    let empty = MavenResponse {
        response: GetVersionsResponse { num_found: 0, start: 0, docs: vec![] },
    };
    run(&mut s, vec![AppEvent::Async(AsyncEvent::MavenDependencyVersionsFound(empty))]);
    assert!(s.version_cache.entries.is_empty());
}

#[test]
fn failed_effect_is_recorded_not_dropped() {
    let mut s = fresh_state();
    let failure = EffectFailure {
        effect: Effect::SearchMaven("kafka".to_string()),
        reason: "connection refused".to_string(),
    };
    run(&mut s, vec![AppEvent::Async(AsyncEvent::Failed(failure.clone()))]);
    assert_eq!(s.last_failure, Some(failure));
}

#[test]
fn tab_cycles_focus_with_wraparound() {
    let mut s = fresh_state();
    assert_eq!(s.focused_view, ViewId::DependencyView);
    run(&mut s, vec![press(KeyCode::Tab)]);
    assert_eq!(s.focused_view, ViewId::DependencySearchView);
    run(&mut s, vec![press(KeyCode::Tab)]);
    assert_eq!(s.focused_view, ViewId::DependencyView);
    run(&mut s, vec![press(KeyCode::BackTab)]);
    assert_eq!(s.focused_view, ViewId::DependencySearchView);
}

#[test]
fn search_view_enter_fetches_versions_of_selection() {
    let mut s = fresh_state();
    run(
        &mut s,
        vec![AppEvent::Async(AsyncEvent::MavenDependenciesFound(vec![
            hit("1", "org.x", "core"),
            hit("2", "org.y", "util"),
        ]))],
    );
    run(&mut s, vec![press(KeyCode::Tab), press(KeyCode::Char('j'))]);
    assert_eq!(s.found_dependencies.selected, Some(1));
    let effects = run(&mut s, vec![press(KeyCode::Enter)]);
    assert_eq!(
        effects,
        vec![Effect::GetAvailableDependencyVersions {
            group_id: "org.y".to_string(),
            artifact_id: "util".to_string(),
        }]
    );
}

#[test]
fn fetch_versions_with_stale_index_schedules_nothing() {
    let mut s = fresh_state();
    let effects = run(&mut s, vec![user(Intent::FetchVersions { index: 5 })]);
    assert!(effects.is_empty());
}

#[test]
fn search_view_s_key_searches_with_current_phrase() {
    let mut s = fresh_state();
    run(
        &mut s,
        vec![
            press(KeyCode::Char('i')),
            press(KeyCode::Char('o')),
            press(KeyCode::Char('k')),
            press(KeyCode::Esc),
            press(KeyCode::Tab),
        ],
    );
    let effects = run(&mut s, vec![press(KeyCode::Char('s'))]);
    assert_eq!(effects, vec![Effect::SearchMaven("ok".to_string())]);
}

#[test]
fn late_result_after_exit_is_still_folded_safely() {
    let mut s = fresh_state();
    run(&mut s, vec![user(Intent::Exit)]);
    run(
        &mut s,
        vec![AppEvent::Async(AsyncEvent::MavenDependenciesFound(vec![hit("1", "g", "a")]))],
    );
    assert!(s.exit);
    assert_eq!(s.found_dependencies.items.len(), 1);
}
