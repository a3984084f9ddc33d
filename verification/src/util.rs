//! The tree of files under the content folder.
use vstd::prelude::*;

verus! {

/// A file or folder, with how many files and folders lie below it.
#[derive(Debug)]
pub struct ContentTreeNode {
    pub name: String,
    pub expanded: bool,
    pub size: i64,
    pub node_type: String,
    pub children: Vec<ContentTreeNode>,
    pub count: i64,
}

/// The sum of the counts of `cs`.
pub open spec fn counts_sum(cs: Seq<ContentTreeNode>) -> int
    decreases cs.len(),
{
    if cs.len() == 0 {
        0
    } else {
        counts_sum(cs.drop_last()) + cs.last().count
    }
}

/// Whether summing the counts of `cs` in order stays within `i64`.
pub open spec fn counts_fit(cs: Seq<ContentTreeNode>) -> bool {
    &&& forall|k: int| 0 <= k <= cs.len() ==> i64::MIN <= #[trigger] counts_sum(cs.take(k)) <= i64::MAX
    &&& i64::MIN <= cs.len() + counts_sum(cs) <= i64::MAX
    &&& cs.len() <= i64::MAX
}

/// Whether a folder over `children` can count its contents in an `i64`.
pub fn counts_fit_exec(children: &Vec<ContentTreeNode>) -> (r: bool)
    ensures
        r == counts_fit(children@),
{
    let mut total: i128 = 0;
    let mut i: usize = 0;
    while i < children.len()
        invariant
            i <= children@.len(),
            total == counts_sum(children@.take(i as int)),
            forall|k: int| 0 <= k <= i ==> i64::MIN <= #[trigger] counts_sum(children@.take(k)) <= i64::MAX,
        decreases children.len() - i,
    {
        proof {
            assert(children@.take(i + 1).drop_last() =~= children@.take(i as int));
        }
        let next = total + children[i].count as i128;
        if next < i64::MIN as i128 || next > i64::MAX as i128 {
            assert(!(i64::MIN <= counts_sum(children@.take(i + 1)) <= i64::MAX));
            return false;
        }
        total = next;
        i = i + 1;
    }
    assert(children@.take(children@.len() as int) =~= children@);
    let n = children.len() as i128;
    if n > i64::MAX as i128 {
        return false;
    }
    let all = n + total;
    all >= i64::MIN as i128 && all <= i64::MAX as i128
}

fn folder_node(name: String, children: Vec<ContentTreeNode>) -> (r: ContentTreeNode)
    requires
        counts_fit(children@),
    ensures
        r.name == name,
        r.expanded,
        r.size == 0,
        r.node_type@ == "directory"@,
        r.children == children,
        r.count == children@.len() + counts_sum(children@),
{
    let mut total: i64 = 0;
    let mut i: usize = 0;
    while i < children.len()
        invariant
            i <= children@.len(),
            counts_fit(children@),
            total == counts_sum(children@.take(i as int)),
        decreases children.len() - i,
    {
        proof {
            assert(children@.take(i + 1).drop_last() =~= children@.take(i as int));
            assert(i64::MIN <= counts_sum(children@.take(i + 1)) <= i64::MAX);
        }
        total = total + children[i].count;
        i = i + 1;
    }
    assert(children@.take(children@.len() as int) =~= children@);
    let n = children.len() as i64;
    ContentTreeNode {
        name,
        expanded: true,
        node_type: crate::text::string_of(&crate::text::to_chars("directory")),
        size: 0,
        count: n + total,
        children,
    }
}

/// The root of the content tree: the folder `content` with `children`
/// (the entries read from the content folder); its count is the number of
/// children plus their counts.
pub fn gen_content_tree(children: Vec<ContentTreeNode>) -> (r: ContentTreeNode)
    requires
        counts_fit(children@),
    ensures
        r.name@ == "content"@,
        r.expanded,
        r.size == 0,
        r.node_type@ == "directory"@,
        r.children == children,
        r.count == children@.len() + counts_sum(children@),
{
    folder_node(crate::text::string_of(&crate::text::to_chars("content")), children)
}

/// A folder of the content tree with its entries.
pub fn directory_node(name: String, children: Vec<ContentTreeNode>) -> (r: ContentTreeNode)
    requires
        counts_fit(children@),
    ensures
        r.name == name,
        r.expanded,
        r.size == 0,
        r.node_type@ == "directory"@,
        r.children == children,
        r.count == children@.len() + counts_sum(children@),
{
    folder_node(name, children)
}

/// A file of the content tree, of `size` bytes.
pub fn file_node(name: String, size: i64) -> (r: ContentTreeNode)
    ensures
        r.name == name,
        r.expanded,
        r.size == size,
        r.node_type@ == "file"@,
        r.children@.len() == 0,
        r.count == 0,
{
    ContentTreeNode {
        name,
        expanded: true,
        node_type: crate::text::string_of(&crate::text::to_chars("file")),
        children: Vec::new(),
        size,
        count: 0,
    }
}

/// Whether every node's count is its number of children plus their counts.
pub open spec fn counted(n: ContentTreeNode) -> bool
    decreases n,
{
    n.count == n.children@.len() + counts_sum(n.children@) && all_counted(n.children@)
}

pub open spec fn all_counted(cs: Seq<ContentTreeNode>) -> bool
    decreases cs,
{
    cs.len() == 0 || (all_counted(cs.drop_last()) && counted(cs.last()))
}

/// The number of files and folders below `n`.
pub open spec fn below(n: ContentTreeNode) -> int
    decreases n,
{
    nodes_below(n.children@)
}

pub open spec fn nodes_below(cs: Seq<ContentTreeNode>) -> int
    decreases cs,
{
    if cs.len() == 0 {
        0
    } else {
        nodes_below(cs.drop_last()) + 1 + below(cs.last())
    }
}

/// In a tree built from these nodes, a node's count is the number of files
/// and folders below it.
pub proof fn law_count_is_nodes_below(n: ContentTreeNode)
    requires
        counted(n),
    ensures
        n.count == below(n),
    decreases n,
{
    lemma_counts_below(n.children@);
}

proof fn lemma_counts_below(cs: Seq<ContentTreeNode>)
    requires
        all_counted(cs),
    ensures
        cs.len() + counts_sum(cs) == nodes_below(cs),
    decreases cs,
{
    if cs.len() > 0 {
        lemma_counts_below(cs.drop_last());
        law_count_is_nodes_below(cs.last());
    }
}

} // verus!
