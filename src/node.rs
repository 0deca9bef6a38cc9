use vstd::prelude::*;

verus! {

/// Whether a node is terminal (carries a prediction) or branching (carries a
/// split rule and children). Fixed when the node is made.
#[derive(Clone, Copy, Debug, PartialEq, Eq, Structural)]
pub enum NodeType {
    Leaf,
    Internal,
}

/// A real number held as its IEEE-754 binary64 encoding, so that it can be
/// stored and handed back bit for bit. Convert with `f64::to_bits` and
/// `f64::from_bits` on the caller's side.
#[derive(Clone, Copy, Debug, PartialEq, Eq, Structural)]
pub struct Real {
    pub bits: u64,
}

/// The content of a node and, recursively, of the subtrees it owns.
pub struct NodeView {
    pub kind: NodeType,
    pub feature_index: Option<usize>,
    pub threshold: Option<Real>,
    pub left: Option<Box<NodeView>>,
    pub right: Option<Box<NodeView>>,
    pub value: Option<Real>,
}

impl NodeView {
    /// A node of the given kind with no optional field set.
    pub open spec fn fresh(kind: NodeType) -> NodeView {
        NodeView {
            kind,
            feature_index: None,
            threshold: None,
            left: None,
            right: None,
            value: None,
        }
    }

    /// `self` with its feature index replaced by `f`.
    pub open spec fn with_feature_index(self, f: usize) -> NodeView {
        NodeView { feature_index: Some(f), ..self }
    }

    /// `self` with its threshold replaced by `t`.
    pub open spec fn with_threshold(self, t: Real) -> NodeView {
        NodeView { threshold: Some(t), ..self }
    }

    /// `self` with its left subtree replaced by `c`.
    pub open spec fn with_left(self, c: NodeView) -> NodeView {
        NodeView { left: Some(Box::new(c)), ..self }
    }

    /// `self` with its right subtree replaced by `c`.
    pub open spec fn with_right(self, c: NodeView) -> NodeView {
        NodeView { right: Some(Box::new(c)), ..self }
    }

    /// `self` with its prediction replaced by `v`.
    pub open spec fn with_value(self, v: Real) -> NodeView {
        NodeView { value: Some(v), ..self }
    }
}

/// A node made with either kind has no optional field set, and reports the
/// kind it was made with.
pub proof fn lemma_fresh_node_is_empty(kind: NodeType)
    ensures
        NodeView::fresh(kind).kind == kind,
        NodeView::fresh(kind).feature_index is None,
        NodeView::fresh(kind).threshold is None,
        NodeView::fresh(kind).value is None,
        NodeView::fresh(kind).left is None,
        NodeView::fresh(kind).right is None,
{
}

/// Setting the feature index and then reading it gives the value set; of two
/// writes the last one wins.
pub proof fn lemma_feature_index_last_write_wins(n: NodeView, f1: usize, f2: usize)
    ensures
        n.with_feature_index(f1).feature_index == Some(f1),
        n.with_feature_index(f1).with_feature_index(f2) == n.with_feature_index(f2),
        n.with_feature_index(f1).with_feature_index(f2).feature_index == Some(f2),
{
}

/// Setting the threshold and then reading it gives the value set; of two
/// writes the last one wins.
pub proof fn lemma_threshold_last_write_wins(n: NodeView, t1: Real, t2: Real)
    ensures
        n.with_threshold(t1).threshold == Some(t1),
        n.with_threshold(t1).with_threshold(t2) == n.with_threshold(t2),
        n.with_threshold(t1).with_threshold(t2).threshold == Some(t2),
{
}

/// Setting the prediction and then reading it gives the value set; of two
/// writes the last one wins.
pub proof fn lemma_value_last_write_wins(n: NodeView, v1: Real, v2: Real)
    ensures
        n.with_value(v1).value == Some(v1),
        n.with_value(v1).with_value(v2) == n.with_value(v2),
        n.with_value(v1).with_value(v2).value == Some(v2),
{
}

/// After the left subtree is set, the left child holds exactly its content,
/// and the right slot is as it was (empty if it was never set).
pub proof fn lemma_set_left_keeps_right(n: NodeView, c: NodeView)
    ensures
        n.with_left(c).left == Some(Box::new(c)),
        n.with_left(c).right == n.right,
        n.right is None ==> n.with_left(c).right is None,
{
}

/// After both subtrees are set, in either order and whatever the node's kind,
/// both children are present with the content given.
pub proof fn lemma_both_children_present(n: NodeView, l: NodeView, r: NodeView)
    ensures
        n.with_left(l).with_right(r).left == Some(Box::new(l)),
        n.with_left(l).with_right(r).right == Some(Box::new(r)),
        n.with_right(r).with_left(l) == n.with_left(l).with_right(r),
{
}

/// No setter changes the kind of a node.
pub proof fn lemma_setters_keep_kind(
    n: NodeView,
    f: usize,
    t: Real,
    v: Real,
    c: NodeView,
)
    ensures
        n.with_feature_index(f).kind == n.kind,
        n.with_threshold(t).kind == n.kind,
        n.with_value(v).kind == n.kind,
        n.with_left(c).kind == n.kind,
        n.with_right(c).kind == n.kind,
{
}

/// The content of a borrowed child slot.
pub open spec fn child_view(c: Option<&Box<Node>>) -> Option<Box<NodeView>> {
    match c {
        Some(b) => Some(Box::new(b@)),
        None => None,
    }
}

/// A node of a decision tree. Every field but the kind is optional and is set
/// on its own; the children are owned by this node alone.
pub struct Node {
    node_type: NodeType,
    feature_index: Option<usize>,
    threshold: Option<Real>,
    left: Option<Box<Node>>,
    right: Option<Box<Node>>,
    value: Option<Real>,
}

impl Node {
    /// The content of `self` and of everything below it.
    pub closed spec fn model(&self) -> NodeView
        decreases self,
    {
        NodeView {
            kind: self.node_type,
            feature_index: self.feature_index,
            threshold: self.threshold,
            left: match self.left {
                Some(c) => Some(Box::new(c.model())),
                None => None,
            },
            right: match self.right {
                Some(c) => Some(Box::new(c.model())),
                None => None,
            },
            value: self.value,
        }
    }

    /// Makes a node of the given kind with every optional field unset.
    pub fn new(node_type: NodeType) -> (r: Self)
        ensures
            r@ == NodeView::fresh(node_type),
    {
        Node {
            node_type,
            feature_index: None,
            threshold: None,
            left: None,
            right: None,
            value: None,
        }
    }

    /// The kind given when the node was made.
    pub fn get_node_type(&self) -> (r: NodeType)
        ensures
            r == self@.kind,
    {
        self.node_type
    }

    /// Sets the index of the feature this node splits on.
    pub fn set_feature_index(&mut self, feature_index: usize)
        ensures
            final(self)@ == old(self)@.with_feature_index(feature_index),
    {
        self.feature_index = Some(feature_index);
    }

    /// The index of the feature this node splits on, if set.
    pub fn get_feature_index(&self) -> (r: Option<usize>)
        ensures
            r == self@.feature_index,
    {
        self.feature_index
    }

    /// Sets the split boundary.
    pub fn set_threshold(&mut self, threshold: Real)
        ensures
            final(self)@ == old(self)@.with_threshold(threshold),
    {
        self.threshold = Some(threshold);
    }

    /// The split boundary, if set.
    pub fn get_threshold(&self) -> (r: Option<Real>)
        ensures
            r == self@.threshold,
    {
        self.threshold
    }

    /// Makes `node` the left subtree, dropping any earlier one.
    pub fn set_left(&mut self, node: Box<Node>)
        ensures
            final(self)@ == old(self)@.with_left(node@),
    {
        self.left = Some(node);
    }

    /// The left subtree, if any, borrowed.
    pub fn get_left(&self) -> (r: Option<&Box<Node>>)
        ensures
            child_view(r) == self@.left,
    {
        self.left.as_ref()
    }

    /// Makes `node` the right subtree, dropping any earlier one.
    pub fn set_right(&mut self, node: Box<Node>)
        ensures
            final(self)@ == old(self)@.with_right(node@),
    {
        self.right = Some(node);
    }

    /// The right subtree, if any, borrowed.
    pub fn get_right(&self) -> (r: Option<&Box<Node>>)
        ensures
            child_view(r) == self@.right,
    {
        self.right.as_ref()
    }

    /// Sets the prediction of this node.
    pub fn set_value(&mut self, value: Real)
        ensures
            final(self)@ == old(self)@.with_value(value),
    {
        self.value = Some(value);
    }

    /// The prediction of this node, if set.
    pub fn get_value(&self) -> (r: Option<Real>)
        ensures
            r == self@.value,
    {
        self.value
    }

    /// Both subtrees at once, borrowed: (left, right).
    pub fn get_children(&self) -> (r: (Option<&Box<Node>>, Option<&Box<Node>>))
        ensures
            child_view(r.0) == self@.left,
            child_view(r.1) == self@.right,
    {
        (self.left.as_ref(), self.right.as_ref())
    }
}

impl View for Node {
    type V = NodeView;

    open spec fn view(&self) -> NodeView {
        self.model()
    }
}

} // verus!
