use lazy_maven::dependency::{DocumentError, JavaDependency, MavenFile};
use lazy_maven::xml::{XmlElement, XmlNode};

fn field(name: &str, text: &str) -> XmlNode {
    XmlNode::Element(XmlElement {
        prefix: None,
        namespace: None,
        namespaces: None,
        name: name.to_string(),
        attributes: vec![],
        children: vec![XmlNode::Text(text.to_string())],
    })
}

fn dep_elem(g: &str, a: &str, v: &str) -> XmlNode {
    XmlNode::Element(XmlElement {
        prefix: None,
        namespace: None,
        namespaces: None,
        name: "dependency".to_string(),
        attributes: vec![],
        children: vec![field("groupId", g), field("artifactId", a), field("version", v)],
    })
}

fn doc_with(children: Vec<XmlNode>) -> MavenFile {
    let deps = XmlNode::Element(XmlElement {
        prefix: None,
        namespace: None,
        namespaces: None,
        name: "dependencies".to_string(),
        attributes: vec![],
        children,
    });
    MavenFile {
        root: XmlElement {
            prefix: None,
            namespace: None,
            namespaces: None,
            name: "project".to_string(),
            attributes: vec![("xmlns".to_string(), "urn:example".to_string())],
            children: vec![field("modelVersion", "4.0.0"), deps],
        },
        file_path: "pom.xml".to_string(),
    }
}

fn dep(g: &str, a: &str, v: &str) -> JavaDependency {
    JavaDependency {
        group_id: g.to_string(),
        artifact_id: a.to_string(),
        version: v.to_string(),
    }
}

#[test]
fn reads_two_dependencies_in_order() {
    let m = doc_with(vec![dep_elem("g1", "a1", "1.0"), dep_elem("g2", "a2", "2.0")]);
    let deps = m.get_dependencies().unwrap();
    assert_eq!(deps, vec![dep("g1", "a1", "1.0"), dep("g2", "a2", "2.0")]);
}

#[test]
fn missing_section_fails_listing() {
    let m = MavenFile {
        root: XmlElement {
            prefix: None,
            namespace: None,
            namespaces: None,
            name: "project".to_string(),
            attributes: vec![],
            children: vec![field("modelVersion", "4.0.0")],
        },
        file_path: "pom.xml".to_string(),
    };
    assert!(m.get_dependencies().is_none());
}

#[test]
fn missing_field_reads_as_empty_and_last_value_wins() {
    let duplicated = XmlNode::Element(XmlElement {
        prefix: None,
        namespace: None,
        namespaces: None,
        name: "dependency".to_string(),
        attributes: vec![],
        children: vec![field("groupId", "first"), field("groupId", "second")],
    });
    let m = doc_with(vec![duplicated]);
    let deps = m.get_dependencies().unwrap();
    assert_eq!(deps, vec![dep("second", "", "")]);
}

#[test]
fn reconcile_with_unchanged_list_keeps_document_bytes() {
    let mut m = doc_with(vec![dep_elem("g1", "a1", "1.0"), dep_elem("g2", "a2", "2.0")]);
    let before = doc_with(vec![dep_elem("g1", "a1", "1.0"), dep_elem("g2", "a2", "2.0")]);
    let deps = m.get_dependencies().unwrap();
    assert_eq!(m.update_dependencies(&deps), Ok(()));
    assert_eq!(m.root, before.root);
    let bytes_before = before.render().unwrap();
    let bytes_after = m.render().unwrap();
    assert_eq!(bytes_before, bytes_after);
}

#[test]
fn reconcile_twice_gives_same_tree_as_once() {
    let mut m = doc_with(vec![
        dep_elem("keep", "a1", "1.0"),
        dep_elem("drop", "a2", "2.0"),
        dep_elem("keep2", "a3", "3.0"),
    ]);
    let mut once = doc_with(vec![
        dep_elem("keep", "a1", "1.0"),
        dep_elem("drop", "a2", "2.0"),
        dep_elem("keep2", "a3", "3.0"),
    ]);
    let list = vec![dep("keep", "a1", "1.0"), dep("keep2", "a3", "3.0")];
    assert_eq!(once.update_dependencies(&list), Ok(()));
    assert_eq!(m.update_dependencies(&list), Ok(()));
    assert_eq!(m.update_dependencies(&list), Ok(()));
    assert_eq!(m.root, once.root);
}

#[test]
fn reconcile_keeps_only_listed_group() {
    let mut m = doc_with(vec![dep_elem("g1", "a1", "1.0"), dep_elem("g2", "a2", "2.0")]);
    let list = vec![dep("g1", "a1", "1.0")];
    assert_eq!(m.update_dependencies(&list), Ok(()));
    let deps = m.get_dependencies().unwrap();
    assert_eq!(deps, vec![dep("g1", "a1", "1.0")]);
}

#[test]
fn reconcile_keeps_text_and_comments_between_elements() {
    let mut m = doc_with(vec![
        XmlNode::Text("\n    ".to_string()),
        dep_elem("g1", "a1", "1.0"),
        XmlNode::Comment("removed on purpose".to_string()),
        dep_elem("g2", "a2", "2.0"),
    ]);
    assert_eq!(m.update_dependencies(&vec![dep("g1", "a1", "1.0")]), Ok(()));
    let deps_elem = &m.root.children[1];
    match deps_elem {
        XmlNode::Element(e) => {
            assert_eq!(e.children.len(), 3);
            assert!(matches!(e.children[0], XmlNode::Text(_)));
            assert!(matches!(e.children[1], XmlNode::Element(_)));
            assert!(matches!(e.children[2], XmlNode::Comment(_)));
        }
        other => panic!("dependencies section vanished: {:?}", other),
    }
}

#[test]
fn reconcile_without_section_reports_error_and_changes_nothing() {
    let mut m = MavenFile {
        root: XmlElement {
            prefix: None,
            namespace: None,
            namespaces: None,
            name: "project".to_string(),
            attributes: vec![],
            children: vec![],
        },
        file_path: "pom.xml".to_string(),
    };
    assert_eq!(
        m.update_dependencies(&vec![dep("g1", "a1", "1.0")]),
        Err(DocumentError::MissingDependenciesSection)
    );
    assert_eq!(m.root.children.len(), 0);
    assert_eq!(m.root.name, "project");
}

#[test]
fn parse_and_render_round_trip_preserves_dependencies() {
    let text = "<project><dependencies>\
                <dependency><groupId>g1</groupId><artifactId>a1</artifactId>\
                <version>1.0</version></dependency>\
                </dependencies></project>";
    let m = MavenFile::from_text(text, "pom.xml".to_string()).unwrap();
    let deps = m.get_dependencies().unwrap();
    assert_eq!(deps, vec![dep("g1", "a1", "1.0")]);
    let bytes = m.render().unwrap();
    let rendered = String::from_utf8(bytes).unwrap();
    let back = MavenFile::from_text(&rendered, "pom.xml".to_string()).unwrap();
    assert_eq!(back.get_dependencies().unwrap(), deps);
}

#[test]
fn malformed_text_is_rejected() {
    assert!(MavenFile::from_text("<project><broken", "pom.xml".to_string()).is_none());
    assert!(MavenFile::from_text("plain words", "pom.xml".to_string()).is_none());
}

#[test]
fn persist_plan_writes_beside_the_file() {
    let m = doc_with(vec![dep_elem("g1", "a1", "1.0")]);
    let plan = m.persist_plan(vec![60, 62]);
    assert_eq!(plan.final_path, "pom.xml");
    assert_eq!(plan.temp_path, "pom.xml.tmp");
    assert_eq!(plan.content, vec![60, 62]);
    assert_ne!(plan.temp_path, plan.final_path);
}

#[test]
fn attributes_keep_document_order_through_a_parse() {
    let text = "<project zeta=\"1\" alpha=\"2\" mid=\"3\"><dependencies>\
                </dependencies></project>";
    let m = MavenFile::from_text(text, "pom.xml".to_string()).unwrap();
    assert_eq!(
        m.root.attributes,
        vec![
            ("zeta".to_string(), "1".to_string()),
            ("alpha".to_string(), "2".to_string()),
            ("mid".to_string(), "3".to_string()),
        ]
    );
}

#[test]
fn xmlns_survives_reconcile_and_rewrite() {
    let text = "<project xmlns=\"urn:example\"><dependencies>\
                <dependency><groupId>g1</groupId><artifactId>a1</artifactId>\
                <version>1.0</version></dependency>\
                </dependencies></project>";
    let mut m = MavenFile::from_text(text, "pom.xml".to_string()).unwrap();
    let deps = m.get_dependencies().unwrap();
    assert_eq!(m.update_dependencies(&deps), Ok(()));
    let rendered = String::from_utf8(m.render().unwrap()).unwrap();
    assert!(
        rendered.contains("xmlns=\"urn:example\""),
        "namespace declaration lost: {rendered}"
    );
    let back = MavenFile::from_text(&rendered, "pom.xml".to_string()).unwrap();
    assert_eq!(back.get_dependencies().unwrap(), deps);
}
