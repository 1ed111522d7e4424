//! The files that a file depends on, and the files that depend on it, as a tree.
//!
//! The tree is loaded with `load_tree`, which is given the replies of the graph
//! so far, in their order, and says what to ask next until the tree is complete.
//! It is shown with `render_tree_node` or `render_trace_node`.

use crate::records::{copy_functions, ContextModel, FileGraphContext, StoredFunction, StoredModel};
use crate::text;
use crate::text::{concat2, concat3, copy_texts, decimal_i64, uppercase};
use vstd::hash_set::StringHashSet;
use vstd::prelude::*;

verus! {

/// A file with the files below it.
#[derive(Debug, PartialEq, Eq)]
pub struct TreeNode {
    pub path: String,
    pub context: Option<FileGraphContext>,
    pub functions: Vec<StoredFunction>,
    pub dependencies: Vec<TreeNode>,
    pub truncated: bool,
    pub cyclic: bool,
}

/// A `TreeNode` as mathematics has it.
pub struct TreeModel {
    pub path: Seq<char>,
    pub context: Option<ContextModel>,
    pub functions: Seq<StoredModel>,
    pub dependencies: Seq<TreeModel>,
    pub truncated: bool,
    pub cyclic: bool,
}

impl TreeNode {
    pub open spec fn model(self) -> TreeModel
        decreases self,
    {
        TreeModel {
            path: self.path@,
            context: self.context.deep_view(),
            functions: self.functions.deep_view(),
            dependencies: Seq::new(
                self.dependencies@.len(),
                |i: int|
                    if 0 <= i < self.dependencies@.len() {
                        self.dependencies@[i].model()
                    } else {
                        arbitrary()
                    },
            ),
            truncated: self.truncated,
            cyclic: self.cyclic,
        }
    }
}

// ---------------------------------------------------------------------------
// Loading
// ---------------------------------------------------------------------------

/// What the graph replies while a tree is loaded.
#[derive(Debug, PartialEq, Eq)]
pub enum LoadReply {
    Context(Option<FileGraphContext>),
    Links(Vec<String>),
    Failed(String),
}

/// What is asked of the graph while a tree is loaded: a file, or the files that
/// it is linked to.
#[derive(Debug, PartialEq, Eq)]
pub enum LoadQuery {
    Context(String),
    Links(String),
}

/// What to do next.
#[derive(Debug, PartialEq, Eq)]
pub enum LoadStep {
    Ask(LoadQuery),
    Failed(String),
    Loaded(TreeNode),
}

/// A `LoadReply` as mathematics has it.
#[verifier::ext_equal]
pub enum ReplyModel {
    Context(Option<ContextModel>),
    Links(Seq<Seq<char>>),
    Failed(Seq<char>),
}

/// A `LoadQuery` as mathematics has it.
#[verifier::ext_equal]
pub enum QueryModel {
    Context(Seq<char>),
    Links(Seq<char>),
}

/// What loading comes to: a question, a failure, or what was loaded, with the
/// number of replies it took and the files that were visited.
pub enum Loading<T> {
    Ask(QueryModel),
    Failed(Seq<char>),
    Loaded(T, nat, Set<Seq<char>>),
}

impl DeepView for LoadReply {
    type V = ReplyModel;

    open spec fn deep_view(&self) -> ReplyModel {
        match self {
            LoadReply::Context(context) => ReplyModel::Context(context.deep_view()),
            LoadReply::Links(links) => ReplyModel::Links(links.deep_view()),
            LoadReply::Failed(message) => ReplyModel::Failed(message@),
        }
    }
}

impl LoadQuery {
    pub open spec fn model(self) -> QueryModel {
        match self {
            LoadQuery::Context(path) => QueryModel::Context(path@),
            LoadQuery::Links(path) => QueryModel::Links(path@),
        }
    }
}

/// What a question at position `pos` of the replies comes to, without a change
/// of the visited files.
pub open spec fn context_at(
    replies: Seq<ReplyModel>,
    pos: nat,
    path: Seq<char>,
    visited: Set<Seq<char>>,
) -> Loading<Option<ContextModel>> {
    if pos >= replies.len() {
        Loading::Ask(QueryModel::Context(path))
    } else {
        match replies[pos as int] {
            ReplyModel::Context(context) => Loading::Loaded(context, pos + 1, visited),
            ReplyModel::Failed(message) => Loading::Failed(message),
            ReplyModel::Links(_) => Loading::Failed("unexpected reply from the graph"@),
        }
    }
}

pub open spec fn links_at(
    replies: Seq<ReplyModel>,
    pos: nat,
    path: Seq<char>,
    visited: Set<Seq<char>>,
) -> Loading<Seq<Seq<char>>> {
    if pos >= replies.len() {
        Loading::Ask(QueryModel::Links(path))
    } else {
        match replies[pos as int] {
            ReplyModel::Links(links) => Loading::Loaded(links, pos + 1, visited),
            ReplyModel::Failed(message) => Loading::Failed(message),
            ReplyModel::Context(_) => Loading::Failed("unexpected reply from the graph"@),
        }
    }
}

pub open spec fn functions_of(context: Option<ContextModel>) -> Seq<StoredModel> {
    match context {
        Some(c) => c.functions,
        None => Seq::empty(),
    }
}

/// The node of a file that stands elsewhere in the tree.
pub open spec fn listed_node(path: Seq<char>, context: Option<ContextModel>) -> TreeModel {
    TreeModel {
        path,
        context,
        functions: Seq::empty(),
        dependencies: Seq::empty(),
        truncated: false,
        cyclic: true,
    }
}

/// Loads the node of a file.
///
/// The file and its links are asked for. A file that was visited before, or that
/// stands at the depth limit, gets no nodes below it; at the limit it is marked
/// as truncated if it has links.
pub open spec fn load_node(
    replies: Seq<ReplyModel>,
    pos: nat,
    path: Seq<char>,
    depth: nat,
    visited: Set<Seq<char>>,
) -> Loading<TreeModel>
    decreases depth, 0nat,
{
    match context_at(replies, pos, path, visited) {
        Loading::Ask(query) => Loading::Ask(query),
        Loading::Failed(message) => Loading::Failed(message),
        Loading::Loaded(context, pos1, _) => match links_at(replies, pos1, path, visited) {
            Loading::Ask(query) => Loading::Ask(query),
            Loading::Failed(message) => Loading::Failed(message),
            Loading::Loaded(links, pos2, _) => {
                let cyclic = visited.contains(path);
                let node = TreeModel {
                    path,
                    context,
                    functions: functions_of(context),
                    dependencies: Seq::empty(),
                    truncated: depth == 0 && links.len() > 0,
                    cyclic,
                };
                if cyclic || depth == 0 {
                    Loading::Loaded(node, pos2, visited.insert(path))
                } else {
                    match load_links(
                        replies,
                        pos2,
                        links,
                        links.len(),
                        (depth - 1) as nat,
                        visited.insert(path),
                    ) {
                        Loading::Ask(query) => Loading::Ask(query),
                        Loading::Failed(message) => Loading::Failed(message),
                        Loading::Loaded(nodes, pos3, after) => Loading::Loaded(
                            TreeModel { dependencies: nodes, ..node },
                            pos3,
                            after,
                        ),
                    }
                }
            },
        },
    }
}

/// Loads the nodes of the first `n` links. The file of each link is asked for
/// once more before it is loaded; one that was visited before is only named.
pub open spec fn load_links(
    replies: Seq<ReplyModel>,
    pos: nat,
    links: Seq<Seq<char>>,
    n: nat,
    depth: nat,
    visited: Set<Seq<char>>,
) -> Loading<Seq<TreeModel>>
    decreases depth, n + 1,
{
    if n == 0 {
        Loading::Loaded(Seq::empty(), pos, visited)
    } else {
        match load_links(replies, pos, links, (n - 1) as nat, depth, visited) {
            Loading::Ask(query) => Loading::Ask(query),
            Loading::Failed(message) => Loading::Failed(message),
            Loading::Loaded(nodes, pos1, visited1) => {
                let link = links[n - 1];
                match context_at(replies, pos1, link, visited1) {
                    Loading::Ask(query) => Loading::Ask(query),
                    Loading::Failed(message) => Loading::Failed(message),
                    Loading::Loaded(context, pos2, _) => if visited1.contains(link) {
                        Loading::Loaded(nodes.push(listed_node(link, context)), pos2, visited1)
                    } else {
                        match load_node(replies, pos2, link, depth, visited1) {
                            Loading::Ask(query) => Loading::Ask(query),
                            Loading::Failed(message) => Loading::Failed(message),
                            Loading::Loaded(node, pos3, visited2) => Loading::Loaded(
                                nodes.push(node),
                                pos3,
                                visited2,
                            ),
                        }
                    },
                }
            },
        }
    }
}

/// The step agrees with what loading comes to.
pub open spec fn step_is(step: LoadStep, loading: Loading<TreeModel>) -> bool {
    match (step, loading) {
        (LoadStep::Ask(query), Loading::Ask(model)) => query.model() == model,
        (LoadStep::Failed(message), Loading::Failed(text)) => message@ == text,
        (LoadStep::Loaded(node), Loading::Loaded(model, _, _)) => node.model() == model,
        _ => false,
    }
}

/// What stops the loading of a part.
enum Halt {
    Ask(LoadQuery),
    Failed(String),
}

impl Halt {
    spec fn stops<T>(self, loading: Loading<T>) -> bool {
        match (self, loading) {
            (Halt::Ask(query), Loading::Ask(model)) => query.model() == model,
            (Halt::Failed(message), Loading::Failed(text)) => message@ == text,
            _ => false,
        }
    }
}

fn read_context(replies: &Vec<LoadReply>, pos: usize, path: &str) -> (r: Result<
    Option<FileGraphContext>,
    Halt,
>)
    ensures
        match r {
            Ok(context) => pos < replies.len() && forall|visited: Set<Seq<char>>| #[trigger]
                context_at(replies.deep_view(), pos as nat, path@, visited) == Loading::Loaded(
                    context.deep_view(),
                    pos as nat + 1,
                    visited,
                ),
            Err(halt) => forall|visited: Set<Seq<char>>|
                halt.stops(#[trigger] context_at(replies.deep_view(), pos as nat, path@, visited)),
        },
{
    if pos >= replies.len() {
        return Err(Halt::Ask(LoadQuery::Context(path.to_string())));
    }
    assert(replies.deep_view()[pos as int] == replies@[pos as int].deep_view());
    match &replies[pos] {
        LoadReply::Context(context) => match context {
            Some(c) => Ok(Some(c.copy())),
            None => Ok(None),
        },
        LoadReply::Failed(message) => Err(Halt::Failed(message.as_str().to_string())),
        LoadReply::Links(_) => Err(Halt::Failed("unexpected reply from the graph".to_string())),
    }
}

fn read_links(replies: &Vec<LoadReply>, pos: usize, path: &str) -> (r: Result<Vec<String>, Halt>)
    ensures
        match r {
            Ok(links) => pos < replies.len() && forall|visited: Set<Seq<char>>| #[trigger]
                links_at(replies.deep_view(), pos as nat, path@, visited) == Loading::Loaded(
                    links.deep_view(),
                    pos as nat + 1,
                    visited,
                ),
            Err(halt) => forall|visited: Set<Seq<char>>|
                halt.stops(#[trigger] links_at(replies.deep_view(), pos as nat, path@, visited)),
        },
{
    if pos >= replies.len() {
        return Err(Halt::Ask(LoadQuery::Links(path.to_string())));
    }
    assert(replies.deep_view()[pos as int] == replies@[pos as int].deep_view());
    match &replies[pos] {
        LoadReply::Links(links) => Ok(copy_texts(links)),
        LoadReply::Failed(message) => Err(Halt::Failed(message.as_str().to_string())),
        LoadReply::Context(_) => Err(Halt::Failed("unexpected reply from the graph".to_string())),
    }
}

fn node_from_replies(
    replies: &Vec<LoadReply>,
    pos: usize,
    path: &str,
    depth: u32,
    visited: &mut StringHashSet,
) -> (r: Result<(TreeNode, usize), Halt>)
    ensures
        match r {
            Ok((node, after)) => load_node(
                replies.deep_view(),
                pos as nat,
                path@,
                depth as nat,
                old(visited)@,
            ) == Loading::Loaded(node.model(), after as nat, final(visited)@),
            Err(halt) => halt.stops(
                load_node(replies.deep_view(), pos as nat, path@, depth as nat, old(visited)@),
            ),
        },
    decreases depth,
{
    let ghost before = visited@;
    let context = match read_context(replies, pos, path) {
        Ok(context) => context,
        Err(halt) => {
            assert(halt.stops(context_at(replies.deep_view(), pos as nat, path@, before)));
            return Err(halt);
        },
    };
    assert(context_at(replies.deep_view(), pos as nat, path@, before) is Loaded);
    let links = match read_links(replies, pos + 1, path) {
        Ok(links) => links,
        Err(halt) => {
            assert(halt.stops(links_at(replies.deep_view(), (pos + 1) as nat, path@, before)));
            return Err(halt);
        },
    };
    assert(links_at(replies.deep_view(), (pos + 1) as nat, path@, before) is Loaded);
    let functions = match &context {
        Some(c) => copy_functions(&c.functions),
        None => {
            let none: Vec<StoredFunction> = Vec::new();
            assert(none.deep_view() =~= Seq::empty());
            none
        },
    };
    let cyclic = !visited.insert(path.to_string());
    let truncated = depth == 0 && links.len() > 0;
    let mut dependencies: Vec<TreeNode> = Vec::new();
    let mut at: usize = pos + 2;
    let ghost mut children: Seq<TreeModel> = Seq::empty();
    if !cyclic && depth > 0 {
        let ghost model = replies.deep_view();
        let ghost names = links.deep_view();
        let ghost inserted = visited@;
        let mut n: usize = 0;
        while n < links.len()
            invariant
                n <= links@.len(),
                depth > 0,
                before == old(visited)@,
                model == replies.deep_view(),
                names == links.deep_view(),
                load_links(
                    model,
                    (pos + 2) as nat,
                    names,
                    n as nat,
                    (depth - 1) as nat,
                    inserted,
                ) matches Loading::Loaded(nodes, p, v) && nodes.len() == dependencies@.len() && p
                    == at && v == visited@ && forall|k: int|
                    0 <= k < nodes.len() ==> (#[trigger] dependencies@[k]).model() == nodes[k],
                load_node(model, pos as nat, path@, depth as nat, before) == (match load_links(
                    model,
                    (pos + 2) as nat,
                    names,
                    names.len(),
                    (depth - 1) as nat,
                    inserted,
                ) {
                    Loading::Ask(query) => Loading::<TreeModel>::Ask(query),
                    Loading::Failed(message) => Loading::Failed(message),
                    Loading::Loaded(nodes, p, after) => Loading::Loaded(
                        TreeModel {
                            path: path@,
                            context: context.deep_view(),
                            functions: functions_of(context.deep_view()),
                            dependencies: nodes,
                            truncated: false,
                            cyclic: false,
                        },
                        p,
                        after,
                    ),
                }),
            decreases links@.len() - n,
        {
            let ghost visited1 = visited@;
            let link = links[n].as_str();
            assert(link@ == names[n as int]);
            let child_context = match read_context(replies, at, link) {
                Ok(context) => context,
                Err(halt) => {
                    proof {
                        assert(halt.stops(context_at(model, at as nat, link@, visited1)));
                        lemma_links_stop(
                            model,
                            (pos + 2) as nat,
                            names,
                            (n + 1) as nat,
                            (depth - 1) as nat,
                            inserted,
                        );
                    }
                    return Err(halt);
                },
            };
            assert(context_at(model, at as nat, link@, visited1) is Loaded);
            if visited.contains(link) {
                dependencies.push(
                    TreeNode {
                        path: link.to_string(),
                        context: child_context,
                        functions: Vec::new(),
                        dependencies: Vec::new(),
                        truncated: false,
                        cyclic: true,
                    },
                );
                at = at + 1;
                proof {
                    let pushed = dependencies@.last();
                    assert(pushed.functions.deep_view() =~= Seq::empty());
                    assert(pushed.model().dependencies =~= Seq::empty());
                    assert(pushed.model() == listed_node(link@, child_context.deep_view()));
                }
            } else {
                match node_from_replies(replies, at + 1, link, depth - 1, visited) {
                    Ok((node, after)) => {
                        dependencies.push(node);
                        at = after;
                    },
                    Err(halt) => {
                        proof {
                            lemma_links_stop(
                                model,
                                (pos + 2) as nat,
                                names,
                                (n + 1) as nat,
                                (depth - 1) as nat,
                                inserted,
                            );
                        }
                        return Err(halt);
                    },
                }
            }
            n += 1;
        }
        proof {
            children = load_links(
                model,
                (pos + 2) as nat,
                names,
                names.len(),
                (depth - 1) as nat,
                inserted,
            )->Loaded_0;
        }
    }
    let node = TreeNode {
        path: path.to_string(),
        context,
        functions,
        dependencies,
        truncated,
        cyclic,
    };
    assert(node.model().dependencies =~= children);
    Ok((node, at))
}

/// A question or a failure in the first links is one of all the links.
proof fn lemma_links_stop(
    replies: Seq<ReplyModel>,
    pos: nat,
    links: Seq<Seq<char>>,
    n: nat,
    depth: nat,
    visited: Set<Seq<char>>,
)
    requires
        n <= links.len(),
        !(load_links(replies, pos, links, n, depth, visited) is Loaded),
    ensures
        load_links(replies, pos, links, links.len(), depth, visited) == load_links(
            replies,
            pos,
            links,
            n,
            depth,
            visited,
        ),
    decreases links.len() - n,
{
    if n < links.len() {
        assert(load_links(replies, pos, links, n + 1, depth, visited) == load_links(
            replies,
            pos,
            links,
            n,
            depth,
            visited,
        ));
        lemma_links_stop(replies, pos, links, n + 1, depth, visited);
    }
}

/// Loads the tree of a file, as far as the replies go: says what to ask next, or
/// that the graph failed, or gives the tree.
pub fn load_tree(file_path: &str, depth: u32, replies: &Vec<LoadReply>) -> (r: LoadStep)
    ensures
        step_is(
            r,
            load_node(replies.deep_view(), 0, file_path@, depth as nat, Set::empty()),
        ),
{
    let mut visited = StringHashSet::new();
    match node_from_replies(replies, 0, file_path, depth, &mut visited) {
        Ok((node, _)) => LoadStep::Loaded(node),
        Err(Halt::Ask(query)) => LoadStep::Ask(query),
        Err(Halt::Failed(message)) => LoadStep::Failed(message),
    }
}

// ---------------------------------------------------------------------------
// Laws of loading
// ---------------------------------------------------------------------------

/// How often a file stands in a tree with what is below it, not only by its name.
pub open spec fn times_shown(node: TreeModel, path: Seq<char>) -> nat
    decreases node, node.dependencies.len() + 1,
{
    (if !node.cyclic && node.path == path {
        1nat
    } else {
        0nat
    }) + times_shown_below(node, node.dependencies.len(), path)
}

/// The same below a node, in its first `n` dependencies.
pub open spec fn times_shown_below(node: TreeModel, n: nat, path: Seq<char>) -> nat
    decreases node, n,
{
    if n == 0 || n > node.dependencies.len() {
        0
    } else {
        times_shown(node.dependencies[n - 1], path) + times_shown_below(node, (n - 1) as nat, path)
    }
}

/// Number of steps from a node to the deepest one below it.
pub open spec fn height(node: TreeModel) -> nat
    decreases node, node.dependencies.len() + 1,
{
    height_below(node, node.dependencies.len())
}

pub open spec fn height_below(node: TreeModel, n: nat) -> nat
    decreases node, n,
{
    if n == 0 || n > node.dependencies.len() {
        0
    } else {
        let first = height_below(node, (n - 1) as nat);
        let last = height(node.dependencies[n - 1]) + 1;
        if first >= last {
            first
        } else {
            last
        }
    }
}

/// Whether a file is new: visited after, and not before.
pub open spec fn newly(after: Set<Seq<char>>, before: Set<Seq<char>>, path: Seq<char>) -> nat {
    if after.contains(path) && !before.contains(path) {
        1
    } else {
        0
    }
}

proof fn lemma_node_shown(
    replies: Seq<ReplyModel>,
    pos: nat,
    path: Seq<char>,
    depth: nat,
    visited: Set<Seq<char>>,
    p: Seq<char>,
)
    ensures
        load_node(replies, pos, path, depth, visited) matches Loading::Loaded(node, _, after) ==> {
            &&& visited.subset_of(after)
            &&& times_shown(node, p) <= newly(after, visited, p)
            &&& height(node) <= depth
        },
    decreases depth, 0nat,
{
    if let Loading::Loaded(node, _, after) = load_node(replies, pos, path, depth, visited) {
        if !visited.contains(path) && depth > 0 {
            let links = links_at(replies, pos + 1, path, visited)->Loaded_0;
            lemma_links_shown(
                replies,
                pos + 2,
                links,
                links.len(),
                (depth - 1) as nat,
                visited.insert(path),
                p,
                node,
            );
        }
    }
}

proof fn lemma_links_shown(
    replies: Seq<ReplyModel>,
    pos: nat,
    links: Seq<Seq<char>>,
    n: nat,
    depth: nat,
    visited: Set<Seq<char>>,
    p: Seq<char>,
    parent: TreeModel,
)
    requires
        load_links(replies, pos, links, n, depth, visited) is Loaded,
        load_links(replies, pos, links, n, depth, visited)->Loaded_0.is_prefix_of(
            parent.dependencies,
        ),
    ensures
        load_links(replies, pos, links, n, depth, visited) matches Loading::Loaded(nodes, _, after)
            ==> {
            &&& nodes.len() == n
            &&& visited.subset_of(after)
            &&& times_shown_below(parent, n, p) <= newly(after, visited, p)
            &&& height_below(parent, n) <= depth + 1
        },
    decreases depth, n + 1,
{
    if n > 0 {
        let before = load_links(replies, pos, links, (n - 1) as nat, depth, visited);
        let now = load_links(replies, pos, links, n, depth, visited);
        let nodes = now->Loaded_0;
        let earlier = before->Loaded_0;
        assert(earlier =~= nodes.drop_last());
        assert(earlier.is_prefix_of(parent.dependencies)) by {
            assert(earlier =~= parent.dependencies.subrange(0, earlier.len() as int));
        }
        lemma_links_shown(replies, pos, links, (n - 1) as nat, depth, visited, p, parent);
        assert(parent.dependencies[n - 1] == nodes[n - 1]);
        let link = links[n - 1];
        let pos1 = before->Loaded_1;
        let visited1 = before->Loaded_2;
        if visited1.contains(link) {
            let context = context_at(replies, pos1, link, visited1)->Loaded_0;
            assert(nodes[n - 1] == listed_node(link, context));
            assert(times_shown(nodes[n - 1], p) == 0);
            assert(height(nodes[n - 1]) == 0);
        } else {
            lemma_node_shown(replies, pos1 + 1, link, depth, visited1, p);
        }
    }
}

/// However the files are linked, no file is shown twice with what is below it:
/// cycles are cut, and a file that is linked from several places is named where
/// it comes up again.
pub proof fn law_files_are_shown_once(
    replies: Seq<ReplyModel>,
    path: Seq<char>,
    depth: nat,
    file: Seq<char>,
)
    ensures
        load_node(replies, 0, path, depth, Set::empty()) matches Loading::Loaded(tree, _, _)
            ==> times_shown(tree, file) <= 1,
{
    lemma_node_shown(replies, 0, path, depth, Set::empty(), file);
}

/// The tree is no deeper than asked for.
pub proof fn law_depth_is_kept(replies: Seq<ReplyModel>, path: Seq<char>, depth: nat)
    ensures
        load_node(replies, 0, path, depth, Set::empty()) matches Loading::Loaded(tree, _, _)
            ==> height(tree) <= depth,
{
    lemma_node_shown(replies, 0, path, depth, Set::empty(), path);
}

proof fn lemma_node_extends(
    replies: Seq<ReplyModel>,
    more: Seq<ReplyModel>,
    pos: nat,
    path: Seq<char>,
    depth: nat,
    visited: Set<Seq<char>>,
)
    ensures
        !(load_node(replies, pos, path, depth, visited) is Ask) ==> load_node(
            replies + more,
            pos,
            path,
            depth,
            visited,
        ) == load_node(replies, pos, path, depth, visited),
    decreases depth, 0nat,
{
    let all = replies + more;
    if pos < replies.len() {
        assert(all[pos as int] == replies[pos as int]);
        if pos + 1 < replies.len() {
            assert(all[(pos + 1) as int] == replies[(pos + 1) as int]);
            if links_at(replies, pos + 1, path, visited) is Loaded && depth > 0 {
                let links = links_at(replies, pos + 1, path, visited)->Loaded_0;
                lemma_links_extend(
                    replies,
                    more,
                    pos + 2,
                    links,
                    links.len(),
                    (depth - 1) as nat,
                    visited.insert(path),
                );
            }
        }
    }
}

proof fn lemma_links_extend(
    replies: Seq<ReplyModel>,
    more: Seq<ReplyModel>,
    pos: nat,
    links: Seq<Seq<char>>,
    n: nat,
    depth: nat,
    visited: Set<Seq<char>>,
)
    ensures
        !(load_links(replies, pos, links, n, depth, visited) is Ask) ==> load_links(
            replies + more,
            pos,
            links,
            n,
            depth,
            visited,
        ) == load_links(replies, pos, links, n, depth, visited),
    decreases depth, n + 1,
{
    if n > 0 {
        lemma_links_extend(replies, more, pos, links, (n - 1) as nat, depth, visited);
        let before = load_links(replies, pos, links, (n - 1) as nat, depth, visited);
        if let Loading::Loaded(_, pos1, visited1) = before {
            let all = replies + more;
            if pos1 < replies.len() {
                assert(all[pos1 as int] == replies[pos1 as int]);
                lemma_node_extends(replies, more, pos1 + 1, links[n - 1], depth, visited1);
            }
        }
    }
}

/// A tree that is complete stays as it is, and so does a failure, whatever else
/// the graph replies.
pub proof fn law_finished_loading_stays(
    replies: Seq<ReplyModel>,
    more: Seq<ReplyModel>,
    path: Seq<char>,
    depth: nat,
)
    ensures
        !(load_node(replies, 0, path, depth, Set::empty()) is Ask) ==> load_node(
            replies + more,
            0,
            path,
            depth,
            Set::empty(),
        ) == load_node(replies, 0, path, depth, Set::empty()),
{
    lemma_node_extends(replies, more, 0, path, depth, Set::empty());
}

/// A graph that does not change: its files, and the files that each is linked to.
pub struct GraphModel {
    pub context: spec_fn(Seq<char>) -> Option<ContextModel>,
    pub links: spec_fn(Seq<char>) -> Seq<Seq<char>>,
}

/// What a graph replies to a question.
pub open spec fn reply_of(graph: GraphModel, query: QueryModel) -> ReplyModel {
    match query {
        QueryModel::Context(path) => ReplyModel::Context((graph.context)(path)),
        QueryModel::Links(path) => ReplyModel::Links((graph.links)(path)),
    }
}

/// The tree of a file in a graph, and the files that were visited then.
pub open spec fn tree_of(
    graph: GraphModel,
    path: Seq<char>,
    depth: nat,
    visited: Set<Seq<char>>,
) -> (TreeModel, Set<Seq<char>>)
    decreases depth, 0nat,
{
    let context = (graph.context)(path);
    let links = (graph.links)(path);
    let node = TreeModel {
        path,
        context,
        functions: functions_of(context),
        dependencies: Seq::empty(),
        truncated: depth == 0 && links.len() > 0,
        cyclic: visited.contains(path),
    };
    if visited.contains(path) || depth == 0 {
        (node, visited.insert(path))
    } else {
        let (nodes, after) = trees_of(
            graph,
            links,
            links.len(),
            (depth - 1) as nat,
            visited.insert(path),
        );
        (TreeModel { dependencies: nodes, ..node }, after)
    }
}

/// The trees of the first `n` links. A file that was visited before is only named.
pub open spec fn trees_of(
    graph: GraphModel,
    links: Seq<Seq<char>>,
    n: nat,
    depth: nat,
    visited: Set<Seq<char>>,
) -> (Seq<TreeModel>, Set<Seq<char>>)
    decreases depth, n + 1,
{
    if n == 0 {
        (Seq::empty(), visited)
    } else {
        let (nodes, before) = trees_of(graph, links, (n - 1) as nat, depth, visited);
        let link = links[n - 1];
        if before.contains(link) {
            (nodes.push(listed_node(link, (graph.context)(link))), before)
        } else {
            let (node, after) = tree_of(graph, link, depth, before);
            (nodes.push(node), after)
        }
    }
}

/// What is asked for the tree of a file, in order.
pub open spec fn asked_for(
    graph: GraphModel,
    path: Seq<char>,
    depth: nat,
    visited: Set<Seq<char>>,
) -> Seq<QueryModel>
    decreases depth, 0nat,
{
    seq![QueryModel::Context(path), QueryModel::Links(path)] + if visited.contains(path) || depth
        == 0 {
        Seq::empty()
    } else {
        let links = (graph.links)(path);
        asked_for_links(graph, links, links.len(), (depth - 1) as nat, visited.insert(path))
    }
}

/// What is asked for the trees of the first `n` links, in order.
pub open spec fn asked_for_links(
    graph: GraphModel,
    links: Seq<Seq<char>>,
    n: nat,
    depth: nat,
    visited: Set<Seq<char>>,
) -> Seq<QueryModel>
    decreases depth, n + 1,
{
    if n == 0 {
        Seq::empty()
    } else {
        let before = trees_of(graph, links, (n - 1) as nat, depth, visited).1;
        let link = links[n - 1];
        asked_for_links(graph, links, (n - 1) as nat, depth, visited).push(
            QueryModel::Context(link),
        ) + if before.contains(link) {
            Seq::empty()
        } else {
            asked_for(graph, link, depth, before)
        }
    }
}

/// From position `pos` on, the replies are those of the graph to the questions, as
/// far as they go.
pub open spec fn replied(
    graph: GraphModel,
    queries: Seq<QueryModel>,
    replies: Seq<ReplyModel>,
    pos: nat,
) -> bool {
    forall|i: int|
        0 <= i < queries.len() && pos + i < replies.len() ==> replies[pos + i] == reply_of(
            graph,
            #[trigger] queries[i],
        )
}

/// Loading comes to the result if there are enough replies, and asks the first
/// question without a reply if not.
pub open spec fn loads<T>(
    loading: Loading<T>,
    queries: Seq<QueryModel>,
    replies: Seq<ReplyModel>,
    pos: nat,
    result: (T, Set<Seq<char>>),
) -> bool {
    if pos + queries.len() <= replies.len() {
        loading == Loading::Loaded(result.0, pos + queries.len(), result.1)
    } else {
        loading == Loading::<T>::Ask(queries[replies.len() - pos])
    }
}

proof fn lemma_replied_part(
    graph: GraphModel,
    all: Seq<QueryModel>,
    part: Seq<QueryModel>,
    replies: Seq<ReplyModel>,
    pos: nat,
    at: nat,
)
    requires
        replied(graph, all, replies, pos),
        at + part.len() <= all.len(),
        forall|i: int| 0 <= i < part.len() ==> #[trigger] part[i] == all[at + i],
    ensures
        replied(graph, part, replies, pos + at),
{
    assert forall|i: int| 0 <= i < part.len() && pos + at + i < replies.len() implies replies[pos
        + at + i] == reply_of(graph, #[trigger] part[i]) by {
        assert(part[i] == all[at + i]);
    }
}

proof fn lemma_node_asked(
    graph: GraphModel,
    replies: Seq<ReplyModel>,
    pos: nat,
    path: Seq<char>,
    depth: nat,
    visited: Set<Seq<char>>,
)
    requires
        pos <= replies.len(),
        replied(graph, asked_for(graph, path, depth, visited), replies, pos),
    ensures
        loads(
            load_node(replies, pos, path, depth, visited),
            asked_for(graph, path, depth, visited),
            replies,
            pos,
            tree_of(graph, path, depth, visited),
        ),
    decreases depth, 0nat,
{
    let queries = asked_for(graph, path, depth, visited);
    let links = (graph.links)(path);
    assert(queries[0] == QueryModel::Context(path));
    assert(queries[1] == QueryModel::Links(path));
    if pos + 1 < replies.len() {
        assert(replies[pos as int] == reply_of(graph, queries[0]));
        assert(replies[(pos + 1) as int] == reply_of(graph, queries[1]));
        if !visited.contains(path) && depth > 0 {
            let inner = asked_for_links(
                graph,
                links,
                links.len(),
                (depth - 1) as nat,
                visited.insert(path),
            );
            assert(forall|i: int| 0 <= i < inner.len() ==> #[trigger] inner[i] == queries[2 + i]);
            lemma_replied_part(graph, queries, inner, replies, pos, 2);
            lemma_links_asked(
                graph,
                replies,
                pos + 2,
                links,
                links.len(),
                (depth - 1) as nat,
                visited.insert(path),
            );
            if pos + queries.len() > replies.len() {
                let k = replies.len() - (pos + 2);
                assert(inner[k] == queries[2 + k]);
            }
        }
    } else if pos < replies.len() {
        assert(replies[pos as int] == reply_of(graph, queries[0]));
    }
}

proof fn lemma_links_asked(
    graph: GraphModel,
    replies: Seq<ReplyModel>,
    pos: nat,
    links: Seq<Seq<char>>,
    n: nat,
    depth: nat,
    visited: Set<Seq<char>>,
)
    requires
        pos <= replies.len(),
        replied(graph, asked_for_links(graph, links, n, depth, visited), replies, pos),
    ensures
        loads(
            load_links(replies, pos, links, n, depth, visited),
            asked_for_links(graph, links, n, depth, visited),
            replies,
            pos,
            trees_of(graph, links, n, depth, visited),
        ),
    decreases depth, n + 1,
{
    if n > 0 {
        let queries = asked_for_links(graph, links, n, depth, visited);
        let earlier = asked_for_links(graph, links, (n - 1) as nat, depth, visited);
        let before = trees_of(graph, links, (n - 1) as nat, depth, visited).1;
        let link = links[n - 1];
        let at = earlier.len();
        assert(forall|i: int| 0 <= i < at ==> #[trigger] earlier[i] == queries[0 + i]);
        lemma_replied_part(graph, queries, earlier, replies, pos, 0);
        lemma_links_asked(graph, replies, pos, links, (n - 1) as nat, depth, visited);
        assert(queries[at as int] == QueryModel::Context(link));
        if pos + at > replies.len() {
            let k = replies.len() - pos;
            assert(earlier[k] == queries[0 + k]);
        } else if pos + at < replies.len() {
            assert(replies[(pos + at) as int] == reply_of(graph, queries[at as int]));
            if !before.contains(link) {
                let inner = asked_for(graph, link, depth, before);
                assert(forall|i: int|
                    0 <= i < inner.len() ==> #[trigger] inner[i] == queries[at + 1 + i]);
                lemma_replied_part(graph, queries, inner, replies, pos, at + 1);
                lemma_node_asked(graph, replies, pos + at + 1, link, depth, before);
                if pos + queries.len() > replies.len() {
                    let k = replies.len() - (pos + at + 1);
                    assert(inner[k] == queries[at + 1 + k]);
                }
            }
        }
    }
}

/// The tree of a file in a graph that does not change is loaded: with the first `n`
/// replies the next question is asked, and with all replies the tree is there.
pub proof fn law_trees_are_loaded(graph: GraphModel, path: Seq<char>, depth: nat, n: nat)
    requires
        n <= asked_for(graph, path, depth, Set::empty()).len(),
    ensures
        ({
            let queries = asked_for(graph, path, depth, Set::empty());
            let replies = Seq::new(n, |i: int| reply_of(graph, queries[i]));
            let (tree, visited) = tree_of(graph, path, depth, Set::empty());
            load_node(replies, 0, path, depth, Set::empty()) == if n < queries.len() {
                Loading::Ask(queries[n as int])
            } else {
                Loading::Loaded(tree, n, visited)
            }
        }),
{
    let queries = asked_for(graph, path, depth, Set::empty());
    let replies = Seq::new(n, |i: int| reply_of(graph, queries[i]));
    lemma_node_asked(graph, replies, 0, path, depth, Set::empty());
}

// ---------------------------------------------------------------------------
// Rendering
// ---------------------------------------------------------------------------

/// What a tree shows: the files that a file depends on, or those that depend on
/// it.
#[derive(Debug, Clone, Copy, PartialEq, Eq, Structural)]
pub enum TreeKind {
    Dependencies,
    Dependents,
}

impl TreeKind {
    pub open spec fn edge(self) -> Seq<char> {
        match self {
            TreeKind::Dependencies => " [DEPENDS_ON] File: "@,
            TreeKind::Dependents => " [IMPACTED_BY] File: "@,
        }
    }

    pub open spec fn root_mark(self) -> Seq<char> {
        match self {
            TreeKind::Dependencies => ""@,
            TreeKind::Dependents => " (Target)"@,
        }
    }

    pub open spec fn section(self) -> Seq<char> {
        match self {
            TreeKind::Dependencies => "└── Dependencies"@,
            TreeKind::Dependents => "└── Incoming Dependencies"@,
        }
    }
}

/// The branch in front of an item of a list.
pub open spec fn branch(is_last: bool) -> Seq<char> {
    if is_last {
        "└──"@
    } else {
        "├──"@
    }
}

/// What stands in front of the lines below an item of a list.
pub open spec fn below(prefix: Seq<char>, is_last: bool) -> Seq<char> {
    if is_last {
        prefix + "    "@
    } else {
        prefix + "│   "@
    }
}

/// The line of a function.
pub open spec fn member_line(prefix: Seq<char>, is_last: bool, f: StoredModel) -> Seq<char> {
    prefix + branch(is_last) + " [MEMBER: "@ + text::unicode_uppercase(f.kind) + "] "@ + f.name
        + " (lines "@ + text::decimal(f.start_line) + "-"@ + text::decimal(f.end_line) + ") via "@
        + f.strategy
}

/// The lines of the first `n` functions of a file.
pub open spec fn member_lines(prefix: Seq<char>, functions: Seq<StoredModel>, n: nat) -> Seq<
    Seq<char>,
>
    decreases n,
{
    if n == 0 || n > functions.len() {
        Seq::empty()
    } else {
        member_lines(prefix, functions, (n - 1) as nat).push(
            member_line(prefix, n == functions.len(), functions[n - 1]),
        )
    }
}

/// The first line of a node.
pub open spec fn head_line(
    kind: TreeKind,
    node: TreeModel,
    prefix: Seq<char>,
    is_last: bool,
    is_root: bool,
) -> Seq<char> {
    if is_root {
        "File: "@ + node.path + kind.root_mark()
    } else if node.cyclic {
        prefix + branch(is_last) + kind.edge() + node.path + " (already listed)"@
    } else {
        prefix + branch(is_last) + kind.edge() + node.path
    }
}

/// The lines on the functions of a node.
pub open spec fn function_part(node: TreeModel, prefix: Seq<char>) -> Seq<Seq<char>> {
    let more = node.dependencies.len() > 0 || node.truncated;
    let title = prefix + branch(!more) + " Functions"@;
    if node.functions.len() == 0 {
        seq![title, below(prefix, !more) + "└── (none)"@]
    } else {
        seq![title] + member_lines(below(prefix, !more), node.functions, node.functions.len())
    }
}

/// The lines of a node and of what is below it.
///
/// A node that is listed elsewhere is a single line, unless it is the root.
pub open spec fn node_lines(
    kind: TreeKind,
    node: TreeModel,
    prefix: Seq<char>,
    is_last: bool,
    is_root: bool,
) -> Seq<Seq<char>>
    decreases node, node.dependencies.len() + 1,
{
    let head = seq![head_line(kind, node, prefix, is_last, is_root)];
    if !is_root && node.cyclic {
        head
    } else {
        let inner = if is_root {
            ""@
        } else {
            below(prefix, is_last)
        };
        let deeper = inner + "    "@;
        head + function_part(node, inner) + seq![inner + kind.section()] + if node.cyclic {
            seq![deeper + "└── (cycle)"@]
        } else if node.truncated {
            seq![deeper + "└── (depth limit reached)"@]
        } else if node.dependencies.len() == 0 {
            seq![deeper + "└── (none)"@]
        } else {
            lines_below(kind, node, node.dependencies.len(), deeper)
        }
    }
}

/// The lines of the first `n` nodes below a node.
pub open spec fn lines_below(kind: TreeKind, node: TreeModel, n: nat, prefix: Seq<char>) -> Seq<
    Seq<char>,
>
    decreases node, n,
{
    if n == 0 || n > node.dependencies.len() {
        Seq::empty()
    } else {
        lines_below(kind, node, (n - 1) as nat, prefix) + node_lines(
            kind,
            node.dependencies[n - 1],
            prefix,
            n == node.dependencies.len(),
            false,
        )
    }
}

fn branch_text(is_last: bool) -> (r: &'static str)
    ensures
        r@ == branch(is_last),
{
    if is_last {
        "└──"
    } else {
        "├──"
    }
}

fn below_text(prefix: &str, is_last: bool) -> (r: String)
    ensures
        r@ == below(prefix@, is_last),
{
    if is_last {
        concat2(prefix, "    ")
    } else {
        concat2(prefix, "│   ")
    }
}

fn head_text(kind: TreeKind, node: &TreeNode, prefix: &str, is_last: bool, is_root: bool) -> (r:
    String)
    ensures
        r@ == head_line(kind, node.model(), prefix@, is_last, is_root),
{
    if is_root {
        let mark = match kind {
            TreeKind::Dependencies => "",
            TreeKind::Dependents => " (Target)",
        };
        return concat3("File: ", node.path.as_str(), mark);
    }
    let edge = match kind {
        TreeKind::Dependencies => " [DEPENDS_ON] File: ",
        TreeKind::Dependents => " [IMPACTED_BY] File: ",
    };
    let mut line = concat3(prefix, branch_text(is_last), edge);
    line.append(node.path.as_str());
    if node.cyclic {
        line.append(" (already listed)");
    }
    line
}

fn function_part_lines(node: &TreeNode, prefix: &str) -> (r: Vec<String>)
    ensures
        r.deep_view() == function_part(node.model(), prefix@),
{
    let more = node.dependencies.len() > 0 || node.truncated;
    assert(node.model().dependencies.len() == node.dependencies@.len());
    let inner = below_text(prefix, !more);
    let ghost model = node.functions.deep_view();
    let mut out: Vec<String> = Vec::new();
    out.push(concat3(prefix, branch_text(!more), " Functions"));
    let ghost title = out@[0]@;
    assert(out.deep_view() =~= seq![title] + member_lines(inner@, model, 0));
    if node.functions.len() == 0 {
        out.push(concat2(inner.as_str(), "└── (none)"));
        assert(out.deep_view() =~= function_part(node.model(), prefix@));
        return out;
    }
    let mut i: usize = 0;
    while i < node.functions.len()
        invariant
            i <= node.functions@.len(),
            model == node.functions.deep_view(),
            out.deep_view() == seq![title] + member_lines(inner@, model, i as nat),
        decreases node.functions@.len() - i,
    {
        let f = &node.functions[i];
        assert(model[i as int] == f.deep_view());
        let ghost before = out.deep_view();
        let mut line = concat3(
            inner.as_str(),
            branch_text(i + 1 == node.functions.len()),
            " [MEMBER: ",
        );
        line.append(uppercase(f.kind.as_str()).as_str());
        line.append("] ");
        line.append(f.name.as_str());
        line.append(" (lines ");
        line.append(decimal_i64(f.start_line).as_str());
        line.append("-");
        line.append(decimal_i64(f.end_line).as_str());
        line.append(") via ");
        line.append(f.strategy.as_str());
        out.push(line);
        i += 1;
        proof {
            assert(out.deep_view() =~= before.push(line@));
            assert(before.push(line@) =~= seq![title] + member_lines(inner@, model, i as nat));
        }
    }
    out
}

fn append_lines(out: &mut Vec<String>, more: Vec<String>)
    ensures
        final(out).deep_view() == old(out).deep_view() + more.deep_view(),
{
    let ghost before = out.deep_view();
    let ghost tail = more.deep_view();
    let mut rest = more;
    out.append(&mut rest);
    assert(out.deep_view() =~= before + tail);
}

fn render_node(kind: TreeKind, node: &TreeNode, prefix: &str, is_last: bool, is_root: bool) -> (r:
    Vec<String>)
    ensures
        r.deep_view() == node_lines(kind, node.model(), prefix@, is_last, is_root),
    decreases node,
{
    let ghost model = node.model();
    let mut out: Vec<String> = Vec::new();
    out.push(head_text(kind, node, prefix, is_last, is_root));
    let ghost head = seq![head_line(kind, model, prefix@, is_last, is_root)];
    assert(out.deep_view() =~= head);
    if !is_root && node.cyclic {
        return out;
    }
    let inner = if is_root {
        "".to_string()
    } else {
        below_text(prefix, is_last)
    };
    append_lines(&mut out, function_part_lines(node, inner.as_str()));
    let section = match kind {
        TreeKind::Dependencies => "└── Dependencies",
        TreeKind::Dependents => "└── Incoming Dependencies",
    };
    let ghost upto = out.deep_view();
    out.push(concat2(inner.as_str(), section));
    let ghost top = out.deep_view();
    proof {
        assert(upto == head + function_part(model, inner@));
        assert(top =~= upto + seq![inner@ + kind.section()]);
    }
    let deeper = concat2(inner.as_str(), "    ");
    if node.cyclic {
        out.push(concat2(deeper.as_str(), "└── (cycle)"));
        assert(out.deep_view() =~= top + seq![deeper@ + "└── (cycle)"@]);
        return out;
    }
    if node.truncated {
        out.push(concat2(deeper.as_str(), "└── (depth limit reached)"));
        assert(out.deep_view() =~= top + seq![deeper@ + "└── (depth limit reached)"@]);
        return out;
    }
    if node.dependencies.len() == 0 {
        out.push(concat2(deeper.as_str(), "└── (none)"));
        assert(out.deep_view() =~= top + seq![deeper@ + "└── (none)"@]);
        return out;
    }
    let mut i: usize = 0;
    assert(top + lines_below(kind, model, 0, deeper@) =~= top);
    while i < node.dependencies.len()
        invariant
            i <= node.dependencies@.len(),
            model == node.model(),
            out.deep_view() == top + lines_below(kind, model, i as nat, deeper@),
        decreases node.dependencies@.len() - i,
    {
        let child = &node.dependencies[i];
        assert(model.dependencies[i as int] == child.model());
        let ghost before = out.deep_view();
        let lines = render_node(
            kind,
            child,
            deeper.as_str(),
            i + 1 == node.dependencies.len(),
            false,
        );
        append_lines(&mut out, lines);
        i += 1;
        proof {
            assert(before + lines.deep_view() =~= top + (lines_below(
                kind,
                model,
                (i - 1) as nat,
                deeper@,
            ) + lines.deep_view()));
        }
    }
    out
}

/// The lines that show a node and the files that it depends on.
pub fn render_tree_node(node: &TreeNode, prefix: &str, is_last: bool, is_root: bool) -> (r: Vec<
    String,
>)
    ensures
        r.deep_view() == node_lines(
            TreeKind::Dependencies,
            node.model(),
            prefix@,
            is_last,
            is_root,
        ),
{
    render_node(TreeKind::Dependencies, node, prefix, is_last, is_root)
}

/// The lines that show a node and the files that depend on it.
pub fn render_trace_node(node: &TreeNode, prefix: &str, is_last: bool, is_root: bool) -> (r: Vec<
    String,
>)
    ensures
        r.deep_view() == node_lines(
            TreeKind::Dependents,
            node.model(),
            prefix@,
            is_last,
            is_root,
        ),
{
    render_node(TreeKind::Dependents, node, prefix, is_last, is_root)
}

/// The report on a tree: its lines, or that the file is not in the graph.
pub fn tree_report(kind: TreeKind, node: &TreeNode, file_path: &str) -> (r: Vec<String>)
    ensures
        r.deep_view() == if node.model().context is None {
            seq!["No indexed file found for "@ + file_path@]
        } else {
            node_lines(kind, node.model(), ""@, true, true)
        },
{
    if node.context.is_none() {
        let r = vec![concat2("No indexed file found for ", file_path)];
        assert(r.deep_view() =~= seq!["No indexed file found for "@ + file_path@]);
        return r;
    }
    match kind {
        TreeKind::Dependencies => render_tree_node(node, "", true, true),
        TreeKind::Dependents => render_trace_node(node, "", true, true),
    }
}

/// A file that is listed elsewhere takes one line.
pub proof fn law_listed_files_take_one_line(
    kind: TreeKind,
    node: TreeModel,
    prefix: Seq<char>,
    is_last: bool,
)
    requires
        node.cyclic,
    ensures
        node_lines(kind, node, prefix, is_last, false) == seq![
            prefix + branch(is_last) + kind.edge() + node.path + " (already listed)"@,
        ],
{
}

proof fn lemma_extends(prefix: Seq<char>, middle: Seq<char>, rest: Seq<char>)
    ensures
        text::starts_with(prefix + middle, prefix),
        text::starts_with(prefix + middle + rest, prefix),
{
    assert((prefix + middle).subrange(0, prefix.len() as int) =~= prefix);
    assert((prefix + middle + rest).subrange(0, prefix.len() as int) =~= prefix);
}

proof fn lemma_deeper_prefix(line: Seq<char>, prefix: Seq<char>, more: Seq<char>)
    requires
        text::starts_with(line, prefix + more),
    ensures
        text::starts_with(line, prefix),
{
    let p = prefix + more;
    assert forall|i: int| 0 <= i < prefix.len() implies line[i] == prefix[i] by {
        assert(line.subrange(0, p.len() as int)[i] == p[i]);
    }
    assert(line.subrange(0, prefix.len() as int) =~= prefix);
}

proof fn lemma_member_prefix(prefix: Seq<char>, functions: Seq<StoredModel>, n: nat, i: int)
    requires
        0 <= i < member_lines(prefix, functions, n).len(),
    ensures
        text::starts_with(member_lines(prefix, functions, n)[i], prefix),
    decreases n,
{
    let lines = member_lines(prefix, functions, n);
    if i == lines.len() - 1 {
        let line = member_line(prefix, n == functions.len(), functions[n - 1]);
        assert(line.subrange(0, prefix.len() as int) =~= prefix);
    } else {
        lemma_member_prefix(prefix, functions, (n - 1) as nat, i);
    }
}

/// Every line of a node below the root begins with the prefix that it is given,
/// so that what is below a node stands under it.
pub proof fn law_lines_begin_with_the_prefix(
    kind: TreeKind,
    node: TreeModel,
    prefix: Seq<char>,
    is_last: bool,
    i: int,
)
    requires
        0 <= i < node_lines(kind, node, prefix, is_last, false).len(),
    ensures
        text::starts_with(node_lines(kind, node, prefix, is_last, false)[i], prefix),
    decreases node, node.dependencies.len() + 1,
{
    let lines = node_lines(kind, node, prefix, is_last, false);
    let head = head_line(kind, node, prefix, is_last, false);
    assert(text::starts_with(head, prefix)) by {
        assert(head.subrange(0, prefix.len() as int) =~= prefix);
    }
    if i > 0 {
        let inner = below(prefix, is_last);
        let pad = if is_last {
            "    "@
        } else {
            "│   "@
        };
        assert(inner == prefix + pad);
        let deeper = inner + "    "@;
        let part = function_part(node, inner);
        let more = node.dependencies.len() > 0 || node.truncated;
        let own = below(inner, !more);
        let own_pad = if !more {
            "    "@
        } else {
            "│   "@
        };
        assert(own == inner + own_pad);
        if i < 1 + part.len() {
            assert(lines[i] == part[i - 1]);
            if i == 1 {
                lemma_extends(inner, branch(!more), " Functions"@);
            } else if node.functions.len() == 0 {
                lemma_extends(own, "└── (none)"@, Seq::empty());
                lemma_deeper_prefix(lines[i], inner, own_pad);
            } else {
                lemma_member_prefix(own, node.functions, node.functions.len(), i - 2);
                lemma_deeper_prefix(lines[i], inner, own_pad);
            }
        } else if i == 1 + part.len() {
            assert(lines[i] == inner + kind.section());
            lemma_extends(inner, kind.section(), Seq::empty());
        } else {
            let k = i - 2 - part.len();
            if node.truncated {
                assert(lines[i] == deeper + "└── (depth limit reached)"@);
                lemma_extends(deeper, "└── (depth limit reached)"@, Seq::empty());
            } else if node.dependencies.len() == 0 {
                assert(lines[i] == deeper + "└── (none)"@);
                lemma_extends(deeper, "└── (none)"@, Seq::empty());
            } else {
                assert(lines[i] == lines_below(kind, node, node.dependencies.len(), deeper)[k]);
                lemma_below_prefix(kind, node, node.dependencies.len(), deeper, k);
            }
            lemma_deeper_prefix(lines[i], inner, "    "@);
        }
        lemma_deeper_prefix(lines[i], prefix, pad);
    }
}

proof fn lemma_below_prefix(kind: TreeKind, node: TreeModel, n: nat, prefix: Seq<char>, i: int)
    requires
        0 <= i < lines_below(kind, node, n, prefix).len(),
    ensures
        text::starts_with(lines_below(kind, node, n, prefix)[i], prefix),
    decreases node, n,
{
    let first = lines_below(kind, node, (n - 1) as nat, prefix);
    if i < first.len() {
        lemma_below_prefix(kind, node, (n - 1) as nat, prefix, i);
    } else {
        law_lines_begin_with_the_prefix(
            kind,
            node.dependencies[n - 1],
            prefix,
            n == node.dependencies.len(),
            i - first.len(),
        );
    }
}

/// The node that is reached from a node by a way down: at each step the place among
/// the files below. No way leads below a node that is listed elsewhere or that stands
/// at the depth limit.
pub open spec fn node_at(node: TreeModel, way: Seq<int>) -> Option<TreeModel>
    decreases way.len(),
{
    if way.len() == 0 {
        Some(node)
    } else if node.cyclic || node.truncated || !(0 <= way[0] < node.dependencies.len()) {
        None
    } else {
        node_at(node.dependencies[way[0]], way.skip(1))
    }
}

/// The line ends with the text.
pub open spec fn tail_is(line: Seq<char>, tail: Seq<char>) -> bool {
    tail.len() <= line.len() && line.skip(line.len() - tail.len()) == tail
}

proof fn lemma_tail(front: Seq<char>, tail: Seq<char>)
    ensures
        tail_is(front + tail, tail),
{
    assert((front + tail).skip(front.len() as int) =~= tail);
}

proof fn lemma_widths(prefix: Seq<char>, is_last: bool)
    ensures
        branch(is_last).len() == 3,
        below(prefix, is_last).len() == prefix.len() + 4,
        "    "@.len() == 4,
        ""@.len() == 0,
{
    reveal_strlit("└──");
    reveal_strlit("├──");
    reveal_strlit("    ");
    reveal_strlit("│   ");
    reveal_strlit("");
}

/// What stands in front of the lines of the files below a node.
spec fn prefix_below(prefix: Seq<char>, is_last: bool, is_root: bool) -> Seq<char> {
    (if is_root {
        ""@
    } else {
        below(prefix, is_last)
    }) + "    "@
}

/// The lines of the files below a node, file by file.
spec fn parts_below(kind: TreeKind, node: TreeModel, n: nat, prefix: Seq<char>) -> Seq<
    Seq<Seq<char>>,
> {
    Seq::new(
        n,
        |k: int|
            node_lines(
                kind,
                node.dependencies[k],
                prefix,
                k + 1 == node.dependencies.len(),
                false,
            ),
    )
}

proof fn lemma_below_is_parts(kind: TreeKind, node: TreeModel, n: nat, prefix: Seq<char>)
    requires
        n <= node.dependencies.len(),
    ensures
        lines_below(kind, node, n, prefix) == parts_below(kind, node, n, prefix).flatten(),
    decreases n,
{
    let parts = parts_below(kind, node, n, prefix);
    if n == 0 {
        assert(parts.flatten() =~= Seq::<Seq<char>>::empty());
    } else {
        let before = parts_below(kind, node, (n - 1) as nat, prefix);
        lemma_below_is_parts(kind, node, (n - 1) as nat, prefix);
        assert(parts =~= before.push(parts.last()));
        before.lemma_flatten_push(parts.last());
    }
}

/// What is below a node is shown below it, file by file and in their order: the lines
/// of a node are its own, one for the file, one for the title of each of the two
/// sections and one for each function, or one if there is none, and then those of the
/// files below.
pub proof fn law_lines_are_those_of_the_parts(
    kind: TreeKind,
    node: TreeModel,
    prefix: Seq<char>,
    is_last: bool,
    is_root: bool,
)
    requires
        !node.cyclic,
        !node.truncated,
        node.dependencies.len() > 0,
    ensures
        exists|own: Seq<Seq<char>>, inner: Seq<char>|
            #![trigger own.len(), inner.len()]
            own.len() == 3 + (if node.functions.len() == 0 {
                1
            } else {
                node.functions.len()
            }) && node_lines(kind, node, prefix, is_last, is_root) == own + Seq::new(
                node.dependencies.len(),
                |k: int|
                    node_lines(
                        kind,
                        node.dependencies[k],
                        inner,
                        k + 1 == node.dependencies.len(),
                        false,
                    ),
            ).flatten(),
{
    let inner = prefix_below(prefix, is_last, is_root);
    let near = if is_root {
        ""@
    } else {
        below(prefix, is_last)
    };
    let own = seq![head_line(kind, node, prefix, is_last, is_root)] + function_part(node, near)
        + seq![near + kind.section()];
    lemma_member_count(below(near, false), node.functions, node.functions.len());
    lemma_below_is_parts(kind, node, node.dependencies.len(), inner);
    assert(node_lines(kind, node, prefix, is_last, is_root) == own + parts_below(
        kind,
        node,
        node.dependencies.len(),
        inner,
    ).flatten());
    assert(own.len() == own.len() && inner.len() == inner.len());
}

proof fn lemma_member_count(prefix: Seq<char>, functions: Seq<StoredModel>, n: nat)
    requires
        n <= functions.len(),
    ensures
        member_lines(prefix, functions, n).len() == n,
        forall|k: int|
            0 <= k < n ==> #[trigger] member_lines(prefix, functions, n)[k] == member_line(
                prefix,
                k + 1 == functions.len(),
                functions[k],
            ),
    decreases n,
{
    if n > 0 {
        lemma_member_count(prefix, functions, (n - 1) as nat);
    }
}

proof fn lemma_part_of_flat(parts: Seq<Seq<Seq<char>>>, k: int) -> (at: int)
    requires
        0 <= k < parts.len(),
    ensures
        0 <= at,
        at + parts[k].len() <= parts.flatten().len(),
        parts.flatten().subrange(at, at + parts[k].len()) == parts[k],
    decreases parts.len(),
{
    let flat = parts.flatten();
    let first = parts.first();
    let rest = parts.drop_first();
    if k == 0 {
        assert(flat.subrange(0, first.len() as int) =~= first);
        0
    } else {
        let inside = lemma_part_of_flat(rest, k - 1);
        let at = first.len() + inside;
        assert(flat.subrange(at, at + parts[k].len()) =~= rest.flatten().subrange(
            inside,
            inside + parts[k].len(),
        ));
        at
    }
}

/// The lines of a file directly below a node stand together among those of the node.
proof fn lemma_child_lines(
    kind: TreeKind,
    node: TreeModel,
    prefix: Seq<char>,
    is_last: bool,
    is_root: bool,
    k: int,
) -> (at: int)
    requires
        !node.cyclic,
        !node.truncated,
        0 <= k < node.dependencies.len(),
    ensures
        ({
            let lines = node_lines(kind, node, prefix, is_last, is_root);
            let part = node_lines(
                kind,
                node.dependencies[k],
                prefix_below(prefix, is_last, is_root),
                k + 1 == node.dependencies.len(),
                false,
            );
            &&& 0 <= at
            &&& at + part.len() <= lines.len()
            &&& lines.subrange(at, at + part.len()) == part
        }),
{
    let lines = node_lines(kind, node, prefix, is_last, is_root);
    let inner = prefix_below(prefix, is_last, is_root);
    let count = node.dependencies.len();
    lemma_below_is_parts(kind, node, count, inner);
    let parts = parts_below(kind, node, count, inner);
    let under = lines_below(kind, node, count, inner);
    let start = lines.len() - under.len();
    assert(lines.subrange(start, lines.len() as int) =~= under);
    let first = lemma_part_of_flat(parts, k);
    lemma_inside(lines, start, under, first, parts[k]);
    start + first
}

/// What stands in a part stands in the whole.
proof fn lemma_inside(
    whole: Seq<Seq<char>>,
    at: int,
    part: Seq<Seq<char>>,
    inside: int,
    own: Seq<Seq<char>>,
)
    requires
        0 <= at,
        at + part.len() <= whole.len(),
        whole.subrange(at, at + part.len()) == part,
        0 <= inside,
        inside + own.len() <= part.len(),
        part.subrange(inside, inside + own.len()) == own,
    ensures
        whole.subrange(at + inside, at + inside + own.len()) == own,
{
    assert(whole.subrange(at + inside, at + inside + own.len()) =~= whole.subrange(
        at,
        at + part.len(),
    ).subrange(inside, inside + own.len()));
}

/// The lines of a node that is reached stand together among the lines of the whole.
proof fn lemma_reached(
    kind: TreeKind,
    root: TreeModel,
    prefix: Seq<char>,
    is_last: bool,
    is_root: bool,
    way: Seq<int>,
) -> (r: (int, Seq<char>, bool))
    requires
        node_at(root, way) is Some,
    ensures
        ({
            let lines = node_lines(kind, root, prefix, is_last, is_root);
            let own = node_lines(kind, node_at(root, way)->0, r.1, r.2, is_root && way.len() == 0);
            &&& 0 <= r.0
            &&& r.0 + own.len() <= lines.len()
            &&& lines.subrange(r.0, r.0 + own.len()) == own
        }),
        way.len() == 0 ==> r.1 == prefix,
        way.len() > 0 ==> r.1.len() == 8 * way.len() + if is_root {
            -4int
        } else {
            prefix.len() as int
        },
    decreases way.len(),
{
    let lines = node_lines(kind, root, prefix, is_last, is_root);
    if way.len() == 0 {
        assert(lines.subrange(0, lines.len() as int) =~= lines);
        (0, prefix, is_last)
    } else {
        let k = way[0];
        let inner = prefix_below(prefix, is_last, is_root);
        let last_below = k + 1 == root.dependencies.len();
        assert(inner.len() == if is_root {
            4nat
        } else {
            prefix.len() + 8
        }) by {
            lemma_widths(prefix, is_last);
        }
        let at = lemma_child_lines(kind, root, prefix, is_last, is_root, k);
        let child = root.dependencies[k];
        let (inside, p, last) = lemma_reached(kind, child, inner, last_below, false, way.skip(1));
        lemma_inside(
            lines,
            at,
            node_lines(kind, child, inner, last_below, false),
            inside,
            node_lines(kind, node_at(root, way)->0, p, last, false),
        );
        (at + inside, p, last)
    }
}

/// The line shows the file of the root of a tree; the root is marked as the target
/// where the tree shows what depends on it.
pub open spec fn shows_root(line: Seq<char>, kind: TreeKind, path: Seq<char>) -> bool {
    line == "File: "@ + path + if kind == TreeKind::Dependents {
        " (Target)"@
    } else {
        ""@
    }
}

/// The line shows a file below another one: by what it is to that file, with its path,
/// and with the remark that it is listed elsewhere if it is. In front of that stand
/// `width` characters.
pub open spec fn shows_file(
    line: Seq<char>,
    kind: TreeKind,
    path: Seq<char>,
    listed: bool,
    width: int,
) -> bool {
    let tail = (if kind == TreeKind::Dependents {
        " [IMPACTED_BY] File: "@
    } else {
        " [DEPENDS_ON] File: "@
    }) + path + if listed {
        " (already listed)"@
    } else {
        ""@
    };
    tail_is(line, tail) && line.len() == width + tail.len()
}

proof fn lemma_head_shown(
    kind: TreeKind,
    node: TreeModel,
    prefix: Seq<char>,
    is_last: bool,
    is_root: bool,
)
    ensures
        node_lines(kind, node, prefix, is_last, is_root).len() > 0,
        is_root ==> shows_root(
            node_lines(kind, node, prefix, is_last, is_root)[0],
            kind,
            node.path,
        ),
        !is_root ==> shows_file(
            node_lines(kind, node, prefix, is_last, is_root)[0],
            kind,
            node.path,
            node.cyclic,
            (prefix.len() + 3) as int,
        ),
{
    let line = node_lines(kind, node, prefix, is_last, is_root)[0];
    assert(line == head_line(kind, node, prefix, is_last, is_root));
    if !is_root {
        lemma_widths(prefix, is_last);
        let tail = kind.edge() + node.path + if node.cyclic {
            " (already listed)"@
        } else {
            ""@
        };
        assert(line =~= prefix + branch(is_last) + tail);
        lemma_tail(prefix + branch(is_last), tail);
    }
}

/// Every file of a tree that can be reached has its line, indented by its depth.
pub proof fn law_every_file_has_its_line(
    kind: TreeKind,
    root: TreeModel,
    prefix: Seq<char>,
    is_last: bool,
    is_root: bool,
    way: Seq<int>,
)
    requires
        node_at(root, way) is Some,
    ensures
        ({
            let node = node_at(root, way)->0;
            let lines = node_lines(kind, root, prefix, is_last, is_root);
            exists|i: int|
                0 <= i < lines.len() && if is_root && way.len() == 0 {
                    shows_root(#[trigger] lines[i], kind, node.path)
                } else {
                    shows_file(
                        lines[i],
                        kind,
                        node.path,
                        node.cyclic,
                        3 + 8 * way.len() + if is_root {
                            -4int
                        } else {
                            prefix.len() as int
                        },
                    )
                }
        }),
{
    let lines = node_lines(kind, root, prefix, is_last, is_root);
    let node = node_at(root, way)->0;
    let (at, p, last) = lemma_reached(kind, root, prefix, is_last, is_root, way);
    let top = is_root && way.len() == 0;
    let own = node_lines(kind, node, p, last, top);
    lemma_head_shown(kind, node, p, last, top);
    assert(own[0] == lines.subrange(at, at + own.len())[0]);
    assert(lines[at] == own[0]);
}

/// The line shows a function: it ends with its kind, its name, its lines and its
/// strategy.
pub open spec fn shows_function(line: Seq<char>, f: StoredModel) -> bool {
    tail_is(
        line,
        " [MEMBER: "@ + text::unicode_uppercase(f.kind) + "] "@ + f.name + " (lines "@
            + text::decimal(f.start_line) + "-"@ + text::decimal(f.end_line) + ") via "@
            + f.strategy,
    )
}

/// From position `at` on the lines are those of the functions, in their order.
pub open spec fn members_at(
    lines: Seq<Seq<char>>,
    functions: Seq<StoredModel>,
    at: int,
) -> bool {
    &&& 0 <= at
    &&& at + functions.len() <= lines.len()
    &&& forall|k: int|
        0 <= k < functions.len() ==> shows_function(lines[at + k], #[trigger] functions[k])
}

proof fn lemma_member_shown(prefix: Seq<char>, is_last: bool, f: StoredModel)
    ensures
        shows_function(member_line(prefix, is_last, f), f),
{
    let tail = " [MEMBER: "@ + text::unicode_uppercase(f.kind) + "] "@ + f.name + " (lines "@
        + text::decimal(f.start_line) + "-"@ + text::decimal(f.end_line) + ") via "@ + f.strategy;
    assert(member_line(prefix, is_last, f) =~= prefix + branch(is_last) + tail);
    lemma_tail(prefix + branch(is_last), tail);
}

proof fn lemma_members_shown(
    kind: TreeKind,
    node: TreeModel,
    prefix: Seq<char>,
    is_last: bool,
    is_root: bool,
)
    requires
        !node.cyclic || is_root,
    ensures
        members_at(node_lines(kind, node, prefix, is_last, is_root), node.functions, 2),
{
    let lines = node_lines(kind, node, prefix, is_last, is_root);
    let functions = node.functions;
    let near = if is_root {
        ""@
    } else {
        below(prefix, is_last)
    };
    let part = function_part(node, near);
    let more = node.dependencies.len() > 0 || node.truncated;
    let inner = below(near, !more);
    lemma_member_count(inner, functions, functions.len());
    assert(lines.len() > 1 + part.len());
    assert forall|k: int| 0 <= k < functions.len() implies shows_function(
        lines[2 + k],
        #[trigger] functions[k],
    ) by {
        assert(lines[2 + k] == part[1 + k]);
        assert(part[1 + k] == member_lines(inner, functions, functions.len())[k]);
        lemma_member_shown(inner, k + 1 == functions.len(), functions[k]);
    }
}

/// Every function of every file of a tree that can be reached, and that is not listed
/// elsewhere, has its line. The functions of a file stand together and in their order.
pub proof fn law_every_function_has_its_line(
    kind: TreeKind,
    root: TreeModel,
    prefix: Seq<char>,
    is_last: bool,
    is_root: bool,
    way: Seq<int>,
)
    requires
        node_at(root, way) is Some,
        !(node_at(root, way)->0).cyclic || is_root && way.len() == 0,
    ensures
        exists|at: int|
            members_at(
                node_lines(kind, root, prefix, is_last, is_root),
                (node_at(root, way)->0).functions,
                at,
            ),
{
    let lines = node_lines(kind, root, prefix, is_last, is_root);
    let node = node_at(root, way)->0;
    let (start, p, last) = lemma_reached(kind, root, prefix, is_last, is_root, way);
    let top = is_root && way.len() == 0;
    let own = node_lines(kind, node, p, last, top);
    lemma_members_shown(kind, node, p, last, top);
    assert forall|k: int| 0 <= k < own.len() implies lines[start + k] == #[trigger] own[k] by {
        assert(own[k] == lines.subrange(start, start + own.len())[k]);
    }
    lemma_members_inside(own, lines, node.functions, start);
}

proof fn lemma_members_inside(
    own: Seq<Seq<char>>,
    lines: Seq<Seq<char>>,
    functions: Seq<StoredModel>,
    start: int,
)
    requires
        0 <= start,
        start + own.len() <= lines.len(),
        forall|k: int| 0 <= k < own.len() ==> lines[start + k] == #[trigger] own[k],
        members_at(own, functions, 2),
    ensures
        members_at(lines, functions, start + 2),
{
    assert forall|k: int| 0 <= k < functions.len() implies shows_function(
        lines[start + 2 + k],
        #[trigger] functions[k],
    ) by {
        assert(lines[start + (2 + k)] == own[2 + k]);
    }
}

/// Where nothing is shown below a file, the last of its lines says why: the file is
/// listed above, the depth limit is reached, or there is nothing.
pub proof fn law_what_is_not_shown_is_said(
    kind: TreeKind,
    node: TreeModel,
    prefix: Seq<char>,
    is_last: bool,
    is_root: bool,
)
    requires
        node.cyclic || node.truncated || node.dependencies.len() == 0,
    ensures
        tail_is(
            node_lines(kind, node, prefix, is_last, is_root).last(),
            if node.cyclic && !is_root {
                " (already listed)"@
            } else if node.cyclic {
                " (cycle)"@
            } else if node.truncated {
                " (depth limit reached)"@
            } else {
                " (none)"@
            },
        ),
{
    let near = if is_root {
        ""@
    } else {
        below(prefix, is_last)
    };
    let deeper = near + "    "@;
    let last = node_lines(kind, node, prefix, is_last, is_root).last();
    reveal_strlit("└── (cycle)");
    reveal_strlit(" (cycle)");
    reveal_strlit("└── (depth limit reached)");
    reveal_strlit(" (depth limit reached)");
    reveal_strlit("└── (none)");
    reveal_strlit(" (none)");
    reveal_strlit("└──");
    if node.cyclic && !is_root {
        lemma_tail(prefix + branch(is_last) + kind.edge() + node.path, " (already listed)"@);
    } else if node.cyclic {
        assert(last =~= deeper + "└──"@ + " (cycle)"@);
        lemma_tail(deeper + "└──"@, " (cycle)"@);
    } else if node.truncated {
        assert(last =~= deeper + "└──"@ + " (depth limit reached)"@);
        lemma_tail(deeper + "└──"@, " (depth limit reached)"@);
    } else {
        assert(last =~= deeper + "└──"@ + " (none)"@);
        lemma_tail(deeper + "└──"@, " (none)"@);
    }
}

proof fn lemma_trees_places(
    graph: GraphModel,
    links: Seq<Seq<char>>,
    n: nat,
    depth: nat,
    visited: Set<Seq<char>>,
)
    requires
        n <= links.len(),
    ensures
        trees_of(graph, links, n, depth, visited).0.len() == n,
        visited.subset_of(trees_of(graph, links, n, depth, visited).1),
        forall|k: int|
            0 <= k < n ==> {
                let tree = #[trigger] trees_of(graph, links, n, depth, visited).0[k];
                let before = trees_of(graph, links, k as nat, depth, visited).1;
                if before.contains(links[k]) {
                    tree == listed_node(links[k], (graph.context)(links[k]))
                } else {
                    tree == tree_of(graph, links[k], depth, before).0 && tree_of(
                        graph,
                        links[k],
                        depth,
                        before,
                    ).1.subset_of(trees_of(graph, links, n, depth, visited).1)
                }
            },
        forall|k: int|
            0 <= k <= n ==> (#[trigger] trees_of(graph, links, k as nat, depth, visited)).1
                .subset_of(trees_of(graph, links, n, depth, visited).1),
    decreases depth, n + 1,
{
    if n > 0 {
        let m = (n - 1) as nat;
        lemma_trees_places(graph, links, m, depth, visited);
        let before = trees_of(graph, links, m, depth, visited).1;
        lemma_visited_grows(graph, links[n - 1], depth, before);
    }
}

proof fn lemma_visited_grows(
    graph: GraphModel,
    path: Seq<char>,
    depth: nat,
    visited: Set<Seq<char>>,
)
    ensures
        visited.subset_of(tree_of(graph, path, depth, visited).1),
        tree_of(graph, path, depth, visited).1.contains(path),
        tree_of(graph, path, depth, visited).0.path == path,
        tree_of(graph, path, depth, visited).0.cyclic == visited.contains(path),
    decreases depth, 0nat,
{
    let links = (graph.links)(path);
    if !visited.contains(path) && depth > 0 {
        lemma_trees_places(graph, links, links.len(), (depth - 1) as nat, visited.insert(path));
        assert(visited.insert(path).contains(path));
    }
}

/// A loaded tree says what the graph says. Every file that is reached in it bears what
/// the graph holds of the file. One that is not listed elsewhere bears all of its
/// functions and, above the depth limit, has exactly the files below it that the graph
/// links it to, in their order; at the limit it has none, and is marked if the graph
/// links it to any.
pub proof fn law_trees_follow_the_graph(
    graph: GraphModel,
    path: Seq<char>,
    depth: nat,
    visited: Set<Seq<char>>,
    way: Seq<int>,
)
    requires
        !visited.contains(path),
        node_at(tree_of(graph, path, depth, visited).0, way) is Some,
    ensures
        ({
            let tree = tree_of(graph, path, depth, visited).0;
            let node = node_at(tree, way)->0;
            let links = (graph.links)(node.path);
            &&& tree.path == path
            &&& !tree.cyclic
            &&& way.len() <= depth
            &&& node.context == (graph.context)(node.path)
            &&& tree_of(graph, path, depth, visited).1.contains(node.path)
            &&& node.cyclic ==> node.dependencies.len() == 0
            &&& !node.cyclic ==> node.functions == match node.context {
                Some(c) => c.functions,
                None => Seq::empty(),
            }
            &&& !node.cyclic && way.len() < depth ==> {
                &&& !node.truncated
                &&& node.dependencies.len() == links.len()
                &&& forall|i: int|
                    0 <= i < links.len() ==> (#[trigger] node.dependencies[i]).path == links[i]
            }
            &&& !node.cyclic && way.len() == depth ==> {
                &&& node.truncated <==> links.len() > 0
                &&& node.dependencies.len() == 0
            }
        }),
    decreases depth,
{
    let (tree, after) = tree_of(graph, path, depth, visited);
    let links = (graph.links)(path);
    lemma_visited_grows(graph, path, depth, visited);
    if depth > 0 {
        let d = (depth - 1) as nat;
        let inner = visited.insert(path);
        lemma_trees_places(graph, links, links.len(), d, inner);
        assert forall|i: int| 0 <= i < links.len() implies (#[trigger] tree.dependencies[i]).path
            == links[i] by {
            let before = trees_of(graph, links, i as nat, d, inner).1;
            if !before.contains(links[i]) {
                lemma_visited_grows(graph, links[i], d, before);
            }
        }
        if way.len() > 0 {
            let k = way[0];
            let before = trees_of(graph, links, k as nat, d, inner).1;
            let child = tree.dependencies[k];
            assert(child == trees_of(graph, links, links.len(), d, inner).0[k]);
            if before.contains(links[k]) {
                assert(child == listed_node(links[k], (graph.context)(links[k])));
                assert(node_at(child, way.skip(1)) is Some);
                assert(way.skip(1).len() == 0);
                assert(after.contains(links[k]));
            } else {
                law_trees_follow_the_graph(graph, links[k], d, before, way.skip(1));
            }
        }
    }
}

proof fn lemma_tree_shown(
    graph: GraphModel,
    path: Seq<char>,
    depth: nat,
    visited: Set<Seq<char>>,
    p: Seq<char>,
)
    ensures
        times_shown(tree_of(graph, path, depth, visited).0, p) == newly(
            tree_of(graph, path, depth, visited).1,
            visited,
            p,
        ),
    decreases depth, 0nat,
{
    let (tree, after) = tree_of(graph, path, depth, visited);
    let links = (graph.links)(path);
    if !visited.contains(path) && depth > 0 {
        let inner = visited.insert(path);
        lemma_trees_places(graph, links, links.len(), (depth - 1) as nat, inner);
        lemma_trees_shown(graph, links, links.len(), (depth - 1) as nat, inner, p, tree);
    }
}

proof fn lemma_trees_shown(
    graph: GraphModel,
    links: Seq<Seq<char>>,
    n: nat,
    depth: nat,
    visited: Set<Seq<char>>,
    p: Seq<char>,
    parent: TreeModel,
)
    requires
        n <= links.len(),
        parent.dependencies == trees_of(graph, links, links.len(), depth, visited).0,
    ensures
        times_shown_below(parent, n, p) == newly(
            trees_of(graph, links, n, depth, visited).1,
            visited,
            p,
        ),
    decreases depth, n + 1,
{
    lemma_trees_places(graph, links, links.len(), depth, visited);
    if n > 0 {
        let m = (n - 1) as nat;
        lemma_trees_places(graph, links, m, depth, visited);
        lemma_trees_shown(graph, links, m, depth, visited, p, parent);
        let before = trees_of(graph, links, m, depth, visited).1;
        let link = links[n - 1];
        let child = parent.dependencies[n - 1];
        assert(child == trees_of(graph, links, links.len(), depth, visited).0[n - 1]);
        if before.contains(link) {
            assert(times_shown(child, p) == 0);
        } else {
            lemma_tree_shown(graph, link, depth, before, p);
            lemma_visited_grows(graph, link, depth, before);
        }
    }
}

/// A file that is only named, as listed elsewhere, is shown elsewhere in the tree: once,
/// with what is below it.
pub proof fn law_listed_files_are_shown(
    graph: GraphModel,
    path: Seq<char>,
    depth: nat,
    way: Seq<int>,
)
    requires
        node_at(tree_of(graph, path, depth, Set::empty()).0, way) is Some,
    ensures
        ({
            let tree = tree_of(graph, path, depth, Set::empty()).0;
            times_shown(tree, (node_at(tree, way)->0).path) == 1
        }),
{
    let tree = tree_of(graph, path, depth, Set::empty()).0;
    law_trees_follow_the_graph(graph, path, depth, Set::empty(), way);
    lemma_tree_shown(graph, path, depth, Set::empty(), (node_at(tree, way)->0).path);
}

/// The first line of a node: the root bears its path, and every other node stands at its
/// branch, the last one of its list at an angle and the others at a fork.
pub proof fn law_first_lines_of_nodes(
    kind: TreeKind,
    node: TreeModel,
    prefix: Seq<char>,
    is_last: bool,
)
    ensures
        node_lines(kind, node, prefix, is_last, true)[0] == (match kind {
            TreeKind::Dependencies => "File: "@ + node.path + ""@,
            TreeKind::Dependents => "File: "@ + node.path + " (Target)"@,
        }),
        !node.cyclic ==> node_lines(kind, node, prefix, is_last, false)[0] == prefix + (
        if is_last {
            "└──"@
        } else {
            "├──"@
        }) + (match kind {
            TreeKind::Dependencies => " [DEPENDS_ON] File: "@,
            TreeKind::Dependents => " [IMPACTED_BY] File: "@,
        }) + node.path,
{
}

/// The shape of a node that is not listed elsewhere. Below its first line stand its
/// functions under their title, each at its branch, then the title of what is below it,
/// and then that. What stands below a node is indented, with a line down to the next
/// item of its list if there is one.
pub proof fn law_shape_of_a_node(
    kind: TreeKind,
    node: TreeModel,
    prefix: Seq<char>,
    is_last: bool,
    is_root: bool,
)
    requires
        is_root || !node.cyclic,
    ensures
        ({
            let lines = node_lines(kind, node, prefix, is_last, is_root);
            let near = if is_root {
                ""@
            } else {
                prefix + (if is_last {
                    "    "@
                } else {
                    "│   "@
                })
            };
            let more = node.dependencies.len() > 0 || node.truncated;
            let under = near + (if more {
                "│   "@
            } else {
                "    "@
            });
            let n = node.functions.len() as int;
            let m = if n == 0 {
                1
            } else {
                n
            };
            let rest = lines.skip(3 + m);
            &&& lines.len() >= 3 + m
            &&& lines[1] == near + (if more {
                "├──"@
            } else {
                "└──"@
            }) + " Functions"@
            &&& n == 0 ==> lines[2] == under + "└── (none)"@
            &&& forall|k: int|
                #![trigger node.functions[k]]
                0 <= k < n ==> lines[2 + k] == under + (if k + 1 == n {
                    "└──"@
                } else {
                    "├──"@
                }) + " [MEMBER: "@ + text::unicode_uppercase(node.functions[k].kind) + "] "@
                    + node.functions[k].name + " (lines "@ + text::decimal(
                    node.functions[k].start_line,
                ) + "-"@ + text::decimal(node.functions[k].end_line) + ") via "@
                    + node.functions[k].strategy
            &&& lines[2 + m] == near + (match kind {
                TreeKind::Dependencies => "└── Dependencies"@,
                TreeKind::Dependents => "└── Incoming Dependencies"@,
            })
            &&& node.cyclic ==> rest == seq![near + "    "@ + "└── (cycle)"@]
            &&& !node.cyclic && node.truncated ==> rest == seq![
                near + "    "@ + "└── (depth limit reached)"@,
            ]
            &&& !node.cyclic && !node.truncated && node.dependencies.len() == 0 ==> rest == seq![
                near + "    "@ + "└── (none)"@,
            ]
            &&& !node.cyclic && !node.truncated && node.dependencies.len() > 0 ==> rest
                == Seq::new(
                node.dependencies.len(),
                |k: int|
                    node_lines(
                        kind,
                        node.dependencies[k],
                        near + "    "@,
                        k + 1 == node.dependencies.len(),
                        false,
                    ),
            ).flatten()
        }),
{
    let lines = node_lines(kind, node, prefix, is_last, is_root);
    let near = if is_root {
        ""@
    } else {
        below(prefix, is_last)
    };
    let more = node.dependencies.len() > 0 || node.truncated;
    let under = below(near, !more);
    let n = node.functions.len();
    let m: int = if n == 0 {
        1
    } else {
        n as int
    };
    let functions = function_part(node, near);
    let members = member_lines(under, node.functions, n);
    lemma_member_count(under, node.functions, n);
    let own = seq![head_line(kind, node, prefix, is_last, is_root)] + functions + seq![
        near + kind.section(),
    ];
    assert(own.len() == 3 + m);
    let deeper = near + "    "@;
    let tail = if node.cyclic {
        seq![deeper + "└── (cycle)"@]
    } else if node.truncated {
        seq![deeper + "└── (depth limit reached)"@]
    } else if node.dependencies.len() == 0 {
        seq![deeper + "└── (none)"@]
    } else {
        lines_below(kind, node, node.dependencies.len(), deeper)
    };
    assert(lines == own + tail);
    assert(lines.skip(3 + m) =~= tail);
    assert(lines[1] == functions[0]);
    assert(lines[2 + m] == near + kind.section());
    if n == 0 {
        assert(lines[2] == functions[1]);
    }
    assert forall|k: int| #![trigger node.functions[k]] 0 <= k < n implies lines[2 + k]
        == member_line(under, k + 1 == n, node.functions[k]) by {
        assert(lines[2 + k] == functions[1 + k]);
        assert(functions[1 + k] == members[k]);
    }
    if !node.cyclic && !node.truncated && node.dependencies.len() > 0 {
        lemma_below_is_parts(kind, node, node.dependencies.len(), deeper);
        assert(parts_below(kind, node, node.dependencies.len(), deeper) =~= Seq::new(
            node.dependencies.len(),
            |k: int|
                node_lines(
                    kind,
                    node.dependencies[k],
                    near + "    "@,
                    k + 1 == node.dependencies.len(),
                    false,
                ),
        ));
    }
}

/// A step agrees with what loading comes to exactly if it asks the same question, fails
/// with the same message, or holds the same tree.
pub proof fn law_steps_of_loading(
    query: LoadQuery,
    asked: QueryModel,
    message: String,
    text: Seq<char>,
    node: TreeNode,
    tree: TreeModel,
    count: nat,
    visited: Set<Seq<char>>,
)
    ensures
        step_is(LoadStep::Ask(query), Loading::Ask(asked)) <==> query.model() == asked,
        step_is(LoadStep::Failed(message), Loading::Failed(text)) <==> message@ == text,
        step_is(LoadStep::Loaded(node), Loading::Loaded(tree, count, visited)) <==> node.model()
            == tree,
        !step_is(LoadStep::Loaded(node), Loading::Ask(asked)),
        !step_is(LoadStep::Loaded(node), Loading::Failed(text)),
        !step_is(LoadStep::Ask(query), Loading::Failed(text)),
        !step_is(LoadStep::Ask(query), Loading::Loaded(tree, count, visited)),
        !step_is(LoadStep::Failed(message), Loading::Ask(asked)),
        !step_is(LoadStep::Failed(message), Loading::Loaded(tree, count, visited)),
{
}

} // verus!
