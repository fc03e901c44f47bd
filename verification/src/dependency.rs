//! The dependency document: a parsed build-descriptor tree, the dependency
//! records read from its `dependencies` section, reconciliation of that
//! section with an edited list, and the crash-safe persistence plan.

use vstd::prelude::*;

use crate::xml::{
    is_named_element, spec_find_child, spec_leading_text, str_eq, XmlElement, XmlNode,
};

verus! {

/// One dependency record of the document: the three coordinate fields.
#[derive(Clone, Debug, PartialEq)]
pub struct JavaDependency {
    pub group_id: String,
    pub artifact_id: String,
    pub version: String,
}

/// The mathematical shape of a dependency record.
pub struct SpecDependency {
    pub group_id: Seq<char>,
    pub artifact_id: Seq<char>,
    pub version: Seq<char>,
}

impl View for JavaDependency {
    type V = SpecDependency;

    open spec fn view(&self) -> SpecDependency {
        SpecDependency {
            group_id: self.group_id@,
            artifact_id: self.artifact_id@,
            version: self.version@,
        }
    }
}

/// The views of a list of dependency records.
pub open spec fn spec_deps_view(s: Seq<JavaDependency>) -> Seq<SpecDependency> {
    s.map_values(|d: JavaDependency| d@)
}

/// The text bound to the last field child named `name`, scanning the
/// children back to front: when one dependency element repeats a field,
/// the last occurrence wins.
pub open spec fn spec_extract_field(children: Seq<XmlNode>, name: Seq<char>) -> Option<Seq<char>>
    decreases children.len(),
{
    if children.len() == 0 {
        None
    } else {
        match children.last() {
            XmlNode::Element(f) => if f.name@ == name {
                Some(spec_leading_text(f))
            } else {
                spec_extract_field(children.drop_last(), name)
            },
            _ => spec_extract_field(children.drop_last(), name),
        }
    }
}

/// A missing field reads as the empty string.
pub open spec fn or_empty(o: Option<Seq<char>>) -> Seq<char> {
    match o {
        Some(s) => s,
        None => Seq::<char>::empty(),
    }
}

/// The dependency record a `dependency` element stands for.
pub open spec fn spec_dep_of(e: XmlElement) -> SpecDependency {
    SpecDependency {
        group_id: or_empty(spec_extract_field(e.children@, "groupId"@)),
        artifact_id: or_empty(spec_extract_field(e.children@, "artifactId"@)),
        version: or_empty(spec_extract_field(e.children@, "version"@)),
    }
}

/// The view of an `Option<String>` accumulator.
pub open spec fn opt_str_view(o: Option<String>) -> Option<Seq<char>> {
    match o {
        Some(s) => Some(s@),
        None => None,
    }
}

fn unwrap_or_empty(o: Option<String>) -> (r: String)
    ensures
        r@ == or_empty(opt_str_view(o)),
{
    match o {
        Some(s) => s,
        None => String::new(),
    }
}

impl JavaDependency {
    /// Read the coordinate fields out of one `dependency` element. A field
    /// given several times keeps its last value; a field never given reads
    /// as the empty string.
    pub fn from_element(dependency: &XmlElement) -> (d: JavaDependency)
        ensures
            d@ == spec_dep_of(*dependency),
    {
        proof {
            reveal_strlit("groupId");
            reveal_strlit("artifactId");
            reveal_strlit("version");
        }
        let ghost children: Seq<XmlNode> = dependency.children@;
        let mut group_id: Option<String> = None;
        let mut artifact_id: Option<String> = None;
        let mut version: Option<String> = None;
        let n = dependency.children.len();
        let mut i: usize = 0;
        while i < n
            invariant
                i <= n,
                n == children.len(),
                children == dependency.children@,
                opt_str_view(group_id) == spec_extract_field(children.take(i as int), "groupId"@),
                opt_str_view(artifact_id) == spec_extract_field(
                    children.take(i as int),
                    "artifactId"@,
                ),
                opt_str_view(version) == spec_extract_field(children.take(i as int), "version"@),
            decreases n - i,
        {
            proof {
                reveal_strlit("groupId");
                reveal_strlit("artifactId");
                reveal_strlit("version");
                assert(children.take(i + 1).drop_last() =~= children.take(i as int));
                assert(children.take(i + 1).last() == children[i as int]);
            }
            match &dependency.children[i] {
                XmlNode::Element(field) => {
                    let value = field.leading_text();
                    proof {
                        assert(children[i as int] == XmlNode::Element(*field));
                        assert("groupId"@.len() == 7);
                        assert("artifactId"@.len() == 10);
                        assert("groupId"@[0] == 'g' && "version"@[0] == 'v');
                        assert("groupId"@ != "artifactId"@);
                        assert("groupId"@ != "version"@);
                        assert("artifactId"@ != "version"@);
                    }
                    if str_eq(field.name.as_str(), "groupId") {
                        group_id = Some(value);
                    } else if str_eq(field.name.as_str(), "artifactId") {
                        artifact_id = Some(value);
                    } else if str_eq(field.name.as_str(), "version") {
                        version = Some(value);
                    }
                },
                _ => {},
            }
            i += 1;
        }
        proof {
            assert(children.take(n as int) =~= children);
        }
        JavaDependency {
            group_id: unwrap_or_empty(group_id),
            artifact_id: unwrap_or_empty(artifact_id),
            version: unwrap_or_empty(version),
        }
    }
}

/// Whether reconciliation keeps a child of the `dependencies` element:
/// every node that is not an element stays, and an element stays exactly
/// when some record of the edited list shares its `groupId`.
pub open spec fn spec_keep_child(n: XmlNode, deps: Seq<SpecDependency>) -> bool {
    match n {
        XmlNode::Element(e) => exists|j: int|
            0 <= j < deps.len() && deps[j].group_id == spec_dep_of(e).group_id,
        _ => true,
    }
}

fn keep_child(n: &XmlNode, updated: &Vec<JavaDependency>) -> (r: bool)
    ensures
        r == spec_keep_child(*n, spec_deps_view(updated@)),
{
    match n {
        XmlNode::Element(e) => {
            let dep = JavaDependency::from_element(e);
            let m = updated.len();
            let mut k: usize = 0;
            while k < m
                invariant
                    k <= m,
                    m == updated@.len(),
                    *n == XmlNode::Element(*e),
                    dep@ == spec_dep_of(*e),
                    forall|t: int|
                        0 <= t < k ==> spec_deps_view(updated@)[t].group_id != spec_dep_of(
                            *e,
                        ).group_id,
                decreases m - k,
            {
                if str_eq(updated[k].group_id.as_str(), dep.group_id.as_str()) {
                    proof {
                        let deps = spec_deps_view(updated@);
                        assert(*n == XmlNode::Element(*e));
                        assert(0 <= k < deps.len() && deps[k as int].group_id == spec_dep_of(
                            (*n)->Element_0,
                        ).group_id);
                    }
                    return true;
                }
                k += 1;
            }
            false
        },
        _ => true,
    }
}

/// The error of an operation that needs the `dependencies` section.
#[derive(Clone, Copy, Debug, PartialEq, Eq, Structural)]
pub enum DocumentError {
    MissingDependenciesSection,
}

/// The dependency document: the parsed tree and the path it came from.
#[derive(Debug, PartialEq)]
pub struct MavenFile {
    pub root: XmlElement,
    pub file_path: String,
}

/// The children of the document's `dependencies` element.
pub open spec fn spec_dependencies_children(root: XmlElement) -> Seq<XmlNode> {
    match spec_find_child(root.children@, "dependencies"@) {
        Some(i) => match root.children@[i] {
            XmlNode::Element(e) => e.children@,
            _ => Seq::<XmlNode>::empty(),
        },
        None => Seq::<XmlNode>::empty(),
    }
}

/// The dependency records of a `dependencies` element's children: one per
/// element child, in order.
pub open spec fn spec_deps_of_children(children: Seq<XmlNode>) -> Seq<SpecDependency>
    decreases children.len(),
{
    if children.len() == 0 {
        Seq::<SpecDependency>::empty()
    } else {
        let rest = spec_deps_of_children(children.drop_last());
        match children.last() {
            XmlNode::Element(e) => rest.push(spec_dep_of(e)),
            _ => rest,
        }
    }
}

/// The record of every element child occurs among the records read from
/// the children.
proof fn lemma_dep_of_child_is_read(children: Seq<XmlNode>, k: int)
    requires
        0 <= k < children.len(),
        children[k] is Element,
    ensures
        exists|j: int|
            0 <= j < spec_deps_of_children(children).len() && spec_deps_of_children(children)[j]
                == spec_dep_of(children[k]->Element_0),
    decreases children.len(),
{
    let deps = spec_deps_of_children(children);
    let rest = spec_deps_of_children(children.drop_last());
    if k == children.len() - 1 {
        assert(deps[rest.len() as int] == spec_dep_of(children[k]->Element_0));
    } else {
        lemma_dep_of_child_is_read(children.drop_last(), k);
        let j = choose|j: int|
            0 <= j < rest.len() && rest[j] == spec_dep_of(
                children.drop_last()[k]->Element_0,
            );
        assert(deps[j] == spec_dep_of(children[k]->Element_0));
    }
}

/// How one reconciliation relates the document before to the document
/// after, given the views of the edited list: with no `dependencies`
/// element nothing changes; otherwise exactly the element children of
/// that section whose `groupId` left the list are removed, and everything
/// else in the tree stays as it was.
pub open spec fn spec_reconcile_rel(
    pre: MavenFile,
    post: MavenFile,
    deps: Seq<SpecDependency>,
) -> bool {
    &&& post.file_path == pre.file_path
    &&& match spec_find_child(pre.root.children@, "dependencies"@) {
        None => post == pre,
        Some(i) => {
            &&& post.root.name == pre.root.name
            &&& post.root.prefix == pre.root.prefix
            &&& post.root.namespace == pre.root.namespace
            &&& post.root.namespaces == pre.root.namespaces
            &&& post.root.attributes == pre.root.attributes
            &&& post.root.children@.len() == pre.root.children@.len()
            &&& forall|k: int|
                0 <= k < pre.root.children@.len() && k != i ==> post.root.children@[k]
                    == pre.root.children@[k]
            &&& {
                let before = pre.root.children@[i];
                let after = post.root.children@[i];
                &&& after matches XmlNode::Element(e2)
                &&& before matches XmlNode::Element(e1)
                &&& e2.name == e1.name
                &&& e2.prefix == e1.prefix
                &&& e2.namespace == e1.namespace
                &&& e2.namespaces == e1.namespaces
                &&& e2.attributes == e1.attributes
                &&& e2.children@ == e1.children@.filter(
                    |n: XmlNode| spec_keep_child(n, deps),
                )
            }
        },
    }
}

impl MavenFile {
    /// Read the dependency list out of the tree. `None` exactly when the
    /// root has no `dependencies` element; otherwise one record per element
    /// child of that section, in document order.
    pub fn get_dependencies(&self) -> (r: Option<Vec<JavaDependency>>)
        ensures
            r is Some <==> spec_find_child(self.root.children@, "dependencies"@) is Some,
            r matches Some(v) ==> spec_deps_view(v@) == spec_deps_of_children(
                spec_dependencies_children(self.root),
            ),
    {
        let idx = match self.root.find_child_index("dependencies") {
            Some(i) => i,
            None => {
                return None;
            },
        };
        proof {
            crate::xml::lemma_find_child_is_element(self.root.children@, "dependencies"@);
        }
        let deps_root = match &self.root.children[idx] {
            XmlNode::Element(e) => e,
            _ => {
                return None;
            },
        };
        let ghost children: Seq<XmlNode> = deps_root.children@;
        let mut out: Vec<JavaDependency> = Vec::new();
        let n = deps_root.children.len();
        let mut i: usize = 0;
        while i < n
            invariant
                i <= n,
                n == children.len(),
                children == deps_root.children@,
                spec_deps_view(out@) == spec_deps_of_children(children.take(i as int)),
            decreases n - i,
        {
            proof {
                assert(children.take(i + 1).drop_last() =~= children.take(i as int));
                assert(children.take(i + 1).last() == children[i as int]);
            }
            let ghost prev: Seq<JavaDependency> = out@;
            match &deps_root.children[i] {
                XmlNode::Element(e) => {
                    let dep = JavaDependency::from_element(e);
                    out.push(dep);
                    proof {
                        assert(spec_deps_view(out@) =~= spec_deps_view(prev).push(dep@));
                    }
                },
                _ => {},
            }
            proof {
                assert(spec_deps_view(out@) =~= spec_deps_of_children(children.take(i + 1)));
            }
            i += 1;
        }
        proof {
            assert(children.take(n as int) =~= children);
        }
        Some(out)
    }

    /// Reconcile the `dependencies` section with an edited list: every
    /// element child whose `groupId` no longer occurs in the list is
    /// removed; all other children, and everything else in the tree, stay
    /// exactly as they were. Fails, changing nothing, when the tree has no
    /// `dependencies` element.
    pub fn update_dependencies(&mut self, updated_dependencies: &Vec<JavaDependency>) -> (r: Result<
        (),
        DocumentError,
    >)
        ensures
            spec_reconcile_rel(*old(self), *final(self), spec_deps_view(updated_dependencies@)),
            r == (if spec_find_child(old(self).root.children@, "dependencies"@) is Some {
                Ok::<(), DocumentError>(())
            } else {
                Err::<(), DocumentError>(DocumentError::MissingDependenciesSection)
            }),
    {
        let idx = match self.root.find_child_index("dependencies") {
            Some(i) => i,
            None => {
                return Err(DocumentError::MissingDependenciesSection);
            },
        };
        let ghost root_children_before: Seq<XmlNode> = self.root.children@;
        proof {
            crate::xml::lemma_find_child_is_element(root_children_before, "dependencies"@);
        }
        let node = self.root.children.remove(idx);
        let deps_elem = match node {
            XmlNode::Element(e) => e,
            _ => vstd::pervasive::unreached(),
        };
        let XmlElement { prefix, namespace, namespaces, name, attributes, children } = deps_elem;
        let ghost orig: Seq<XmlNode> = children@;
        let ghost gdeps: Seq<SpecDependency> = spec_deps_view(updated_dependencies@);
        let mut remaining = children;
        let mut kept: Vec<XmlNode> = Vec::new();
        let ghost mut j: int = 0;
        while remaining.len() > 0
            invariant
                0 <= j <= orig.len(),
                remaining@ == orig.skip(j),
                kept@ == orig.take(j).filter(|n: XmlNode| spec_keep_child(n, gdeps)),
                gdeps == spec_deps_view(updated_dependencies@),
            decreases remaining.len(),
        {
            let x = remaining.remove(0);
            proof {
                assert(x == orig[j]);
                assert(remaining@ =~= orig.skip(j + 1));
                reveal(Seq::filter);
                assert(orig.take(j + 1).drop_last() =~= orig.take(j));
                assert(orig.take(j + 1).last() == orig[j]);
            }
            let keep = keep_child(&x, updated_dependencies);
            if keep {
                kept.push(x);
            }
            proof {
                assert(kept@ =~= orig.take(j + 1).filter(
                    |n: XmlNode| spec_keep_child(n, gdeps),
                ));
                j = j + 1;
            }
        }
        proof {
            assert(orig.take(j) =~= orig);
        }
        let new_elem = XmlElement { prefix, namespace, namespaces, name, attributes, children: kept };
        self.root.children.insert(idx, XmlNode::Element(new_elem));
        proof {
            assert(self.root.children@ =~= root_children_before.update(
                idx as int,
                XmlNode::Element(new_elem),
            ));
        }
        Ok(())
    }
}

/// Every element of a sequence satisfying the predicate means filtering is
/// the identity.
proof fn lemma_filter_all_true<A>(s: Seq<A>, pred: spec_fn(A) -> bool)
    requires
        forall|k: int| 0 <= k < s.len() ==> pred(#[trigger] s[k]),
    ensures
        s.filter(pred) == s,
    decreases s.len(),
{
    reveal(Seq::filter);
    if s.len() == 0 {
        assert(s.filter(pred) =~= s);
    } else {
        lemma_filter_all_true(s.drop_last(), pred);
        assert(s.filter(pred) =~= s);
    }
}

/// Reconciling a `dependencies` section with exactly the list just read
/// from it keeps every child: a read followed by a reconcile leaves the
/// section, and so the whole tree, unchanged.
pub proof fn lemma_reconcile_after_read_is_identity(children: Seq<XmlNode>)
    ensures
        children.filter(
            |n: XmlNode| spec_keep_child(n, spec_deps_of_children(children)),
        ) == children,
{
    let deps = spec_deps_of_children(children);
    assert forall|k: int| 0 <= k < children.len() implies #[trigger] spec_keep_child(
        children[k],
        deps,
    ) by {
        match children[k] {
            XmlNode::Element(e) => {
                lemma_dep_of_child_is_read(children, k);
                let j = choose|j: int| 0 <= j < deps.len() && deps[j] == spec_dep_of(e);
                assert(deps[j].group_id == spec_dep_of(e).group_id);
            },
            _ => {},
        }
    }
    lemma_filter_all_true(
        children,
        |n: XmlNode| spec_keep_child(n, spec_deps_of_children(children)),
    );
}

/// The document-level round trip: reading the dependency list out of a
/// document and reconciling the document with that unchanged list leaves
/// every child of the `dependencies` section — element order, attributes
/// and all — exactly as it was, and a second read yields the same records.
pub proof fn lemma_read_then_reconcile_keeps_document(pre: MavenFile, post: MavenFile)
    requires
        spec_find_child(pre.root.children@, "dependencies"@) is Some,
        spec_reconcile_rel(
            pre,
            post,
            spec_deps_of_children(spec_dependencies_children(pre.root)),
        ),
    ensures
        spec_dependencies_children(post.root) == spec_dependencies_children(pre.root),
        spec_deps_of_children(spec_dependencies_children(post.root)) == spec_deps_of_children(
            spec_dependencies_children(pre.root),
        ),
{
    let name = "dependencies"@;
    match spec_find_child(pre.root.children@, name) {
        Some(i) => {
            crate::xml::lemma_find_child_is_element(pre.root.children@, name);
            crate::xml::lemma_find_child_is_first(pre.root.children@, name);
            let e1 = pre.root.children@[i]->Element_0;
            let e2 = post.root.children@[i]->Element_0;
            assert(spec_dependencies_children(pre.root) == e1.children@);
            lemma_reconcile_after_read_is_identity(e1.children@);
            assert(e2.children@ == e1.children@);
            assert forall|k: int| 0 <= k < i implies !is_named_element(
                post.root.children@[k],
                name,
            ) by {
                assert(post.root.children@[k] == pre.root.children@[k]);
            }
            assert(is_named_element(post.root.children@[i], name));
            crate::xml::lemma_find_child_characterization(post.root.children@, name, i);
            assert(spec_dependencies_children(post.root) == e2.children@);
        },
        None => {},
    }
}

/// Reconciling twice with the same list gives the same section as
/// reconciling once.
pub proof fn lemma_reconcile_idempotent(children: Seq<XmlNode>, deps: Seq<SpecDependency>)
    ensures
        children.filter(|n: XmlNode| spec_keep_child(n, deps)).filter(
            |n: XmlNode| spec_keep_child(n, deps),
        ) == children.filter(|n: XmlNode| spec_keep_child(n, deps)),
{
    let pred = |n: XmlNode| spec_keep_child(n, deps);
    let once = children.filter(pred);
    assert forall|k: int| 0 <= k < once.len() implies pred(#[trigger] once[k]) by {
        children.lemma_filter_pred(pred, k);
    }
    lemma_filter_all_true(once, pred);
    assert(children.filter(|n: XmlNode| spec_keep_child(n, deps)).filter(
        |n: XmlNode| spec_keep_child(n, deps),
    ) == children.filter(|n: XmlNode| spec_keep_child(n, deps)));
}

/// The two steps of a crash-safe rewrite of the document: first the new
/// bytes are written to a separate temporary path, then the temporary file
/// is atomically moved over the canonical path.
#[derive(Debug)]
pub struct PersistPlan {
    pub final_path: String,
    pub temp_path: String,
    pub content: Vec<u8>,
}

impl PersistPlan {
    /// The temporary path never aliases the canonical one.
    pub open spec fn wf(&self) -> bool {
        self.temp_path@ != self.final_path@
    }
}

/// A file system, modelled as the map from paths to file contents, after
/// the first `steps` steps of the plan have run: zero steps (nothing
/// happened yet), one step (the temporary file holds the new bytes), or
/// both steps (the move has replaced the canonical file).
pub open spec fn spec_apply_persist_steps(
    files: Map<Seq<char>, Seq<u8>>,
    plan: PersistPlan,
    steps: int,
) -> Map<Seq<char>, Seq<u8>> {
    if steps <= 0 {
        files
    } else if steps == 1 {
        files.insert(plan.temp_path@, plan.content@)
    } else {
        files.insert(plan.temp_path@, plan.content@).remove(plan.temp_path@).insert(
            plan.final_path@,
            plan.content@,
        )
    }
}

/// However the rewrite is interrupted, the canonical path still holds its
/// old content in full; only once both steps have run does it hold the new
/// content.
pub proof fn lemma_persist_crash_safe(
    files: Map<Seq<char>, Seq<u8>>,
    plan: PersistPlan,
    steps: int,
)
    requires
        plan.wf(),
        0 <= steps <= 2,
    ensures
        steps < 2 ==> spec_apply_persist_steps(files, plan, steps).contains_key(plan.final_path@)
            == files.contains_key(plan.final_path@),
        steps < 2 && files.contains_key(plan.final_path@) ==> spec_apply_persist_steps(
            files,
            plan,
            steps,
        )[plan.final_path@] == files[plan.final_path@],
        steps == 2 ==> spec_apply_persist_steps(files, plan, steps).contains_key(plan.final_path@)
            && spec_apply_persist_steps(files, plan, steps)[plan.final_path@] == plan.content@,
{
}

impl MavenFile {
    /// Parse a document's text into a dependency document bound to the
    /// path it will be written back to. Succeeds exactly when the text is
    /// well-formed XML, and then holds the parsed root element's tree.
    pub fn from_text(text: &str, file_path: String) -> (r: Option<MavenFile>)
        ensures
            r is Some <==> crate::xml::spec_parse_result(text@) is Some,
            r matches Some(m) ==> crate::xml::spec_parse_result(text@) == Some(m.root)
                && m.file_path == file_path,
    {
        match crate::xml::parse_document(text) {
            Some(root) => Some(MavenFile { root, file_path }),
            None => None,
        }
    }

    /// Serialize the document's tree as the bytes to persist: exactly
    /// `spec_rendered_bytes` of the tree, so equal trees persist as equal
    /// bytes.
    pub fn render(&self) -> (r: Option<Vec<u8>>)
        ensures
            (match r {
                Some(b) => Some(b@),
                None => None::<Seq<u8>>,
            }) == crate::xml::spec_rendered_bytes(self.root),
    {
        crate::xml::render_document(&self.root)
    }

    /// Lay out the crash-safe rewrite of this document with the given
    /// serialized bytes: write them beside the file, then move them over it.
    pub fn persist_plan(&self, content: Vec<u8>) -> (p: PersistPlan)
        ensures
            p.final_path@ == self.file_path@,
            p.temp_path@ == self.file_path@ + ".tmp"@,
            p.content == content,
            p.wf(),
    {
        let mut temp = self.file_path.clone();
        temp.append(".tmp");
        proof {
            reveal_strlit(".tmp");
            assert(temp@.len() == self.file_path@.len() + 4);
        }
        PersistPlan { final_path: self.file_path.clone(), temp_path: temp, content }
    }
}

} // verus!
