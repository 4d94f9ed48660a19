//! The depth-first walk that routes classified nodes to observers.
use crate::callback::{views, Callback, Descriptor, DescriptorView};
use crate::cast_context::CastContext;
use crate::complex_context::{complex_descriptor, complex_type_of, get_complex_type, ComplexContext};
use crate::fn_context::{fn_descriptor, fn_type_of, is_fn_type, FnContext};
use crate::node::{Node, NodeKind};
use crate::srclocation::{LocationView, SrcLocation};
use crate::varcontext::{is_var_kind, var_descriptor, VarContext};
use vstd::prelude::*;

verus! {

/// A node is classified only where it stands in the primary file.
pub open spec fn in_primary_file(node: Node) -> bool {
    node.in_main_file && node.location is Some
}

/// What a single node reports, under its lexical parent: nothing, or one
/// descriptor. Function kinds come first, then aggregate kinds, then
/// variables and fields, then C-style casts; a kind whose observer is absent
/// reports nothing.
pub open spec fn own_report(node: Node, parent: Node, cb: Callback) -> Seq<DescriptorView> {
    if !in_primary_file(node) {
        Seq::empty()
    } else if fn_type_of(node.kind) is Some {
        if cb.fun {
            seq![DescriptorView::Fun(fn_descriptor(node))]
        } else {
            Seq::empty()
        }
    } else if complex_type_of(node.kind) is Some {
        if cb.complex {
            seq![DescriptorView::Complex(complex_descriptor(node))]
        } else {
            Seq::empty()
        }
    } else if is_var_kind(node.kind) {
        if cb.var {
            seq![DescriptorView::Var(var_descriptor(node, parent))]
        } else {
            Seq::empty()
        }
    } else if node.kind == NodeKind::CStyleCastExpr {
        if cb.cast {
            seq![DescriptorView::Cast(node.location->Some_0@)]
        } else {
            Seq::empty()
        }
    } else {
        Seq::empty()
    }
}

/// What a node and all its descendants report, in depth-first order: the
/// node first, then each child's subtree in turn.
pub open spec fn subtree_reports(node: Node, parent: Node, cb: Callback) -> Seq<DescriptorView>
    decreases node,
{
    own_report(node, parent, cb) + children_reports(node.children@, node, cb)
}

/// What a sequence of sibling subtrees under `parent` reports, in order.
pub open spec fn children_reports(children: Seq<Node>, parent: Node, cb: Callback) -> Seq<
    DescriptorView,
>
    decreases children,
{
    if children.len() == 0 {
        Seq::empty()
    } else {
        children_reports(children.drop_last(), parent, cb) + subtree_reports(
            children.last(),
            parent,
            cb,
        )
    }
}

/// Classifies one node for the observers in `cb`.
fn report(node: &Node, parent: &Node, cb: &Callback) -> (r: Option<Descriptor>)
    ensures
        own_report(*node, *parent, *cb) == match r {
            Some(d) => seq![d@],
            None => Seq::<DescriptorView>::empty(),
        },
{
    if !node.in_main_file || node.location.is_none() {
        return None;
    }
    if is_fn_type(&node.kind).is_some() {
        if cb.fun {
            return Some(Descriptor::Fun(FnContext::from(node)));
        }
        return None;
    }
    if get_complex_type(&node.kind).is_some() {
        if cb.complex {
            return Some(Descriptor::Complex(ComplexContext::from(node)));
        }
        return None;
    }
    match node.kind {
        NodeKind::VarDecl | NodeKind::FieldDecl => {
            if cb.var {
                Some(Descriptor::Var(VarContext::from(node, parent)))
            } else {
                None
            }
        },
        NodeKind::CStyleCastExpr => {
            if cb.cast {
                Some(Descriptor::Cast(CastContext { location: SrcLocation::from(node) }))
            } else {
                None
            }
        },
        _ => None,
    }
}

/// Appends what `node` and its descendants report to `out`.
fn walk(node: &Node, parent: &Node, cb: &Callback, out: &mut Vec<Descriptor>)
    ensures
        views(final(out)@) == views(old(out)@) + subtree_reports(*node, *parent, *cb),
    decreases node,
{
    let ghost start = views(out@);
    match report(node, parent, cb) {
        Some(d) => {
            out.push(d);
        },
        None => {},
    }
    assert(views(out@) =~= start + own_report(*node, *parent, *cb));
    let mut i: usize = 0;
    while i < node.children.len()
        invariant
            i <= node.children@.len(),
            views(out@) == start + own_report(*node, *parent, *cb) + children_reports(
                node.children@.take(i as int),
                *node,
                *cb,
            ),
        decreases node.children@.len() - i,
    {
        let ghost before = views(out@);
        walk(&node.children[i], node, cb, out);
        proof {
            let next = node.children@.take(i + 1);
            assert(next.drop_last() =~= node.children@.take(i as int));
            assert(next.last() == node.children@[i as int]);
            assert(views(out@) =~= start + own_report(*node, *parent, *cb) + children_reports(
                next,
                *node,
                *cb,
            ));
        }
        i += 1;
    }
    assert(node.children@.take(i as int) =~= node.children@);
}

/// Walks every descendant of `root` depth-first, each exactly once, and
/// returns in that order the descriptors meant for the observers in
/// `callback`. A node outside the primary file is not classified, but its
/// children are still visited.
pub fn dispatch(root: &Node, callback: &Callback) -> (r: Vec<Descriptor>)
    ensures
        views(r@) == children_reports(root.children@, *root, *callback),
{
    let mut out: Vec<Descriptor> = Vec::new();
    let mut i: usize = 0;
    while i < root.children.len()
        invariant
            i <= root.children@.len(),
            views(out@) == children_reports(root.children@.take(i as int), *root, *callback),
        decreases root.children@.len() - i,
    {
        walk(&root.children[i], root, callback, &mut out);
        proof {
            let next = root.children@.take(i + 1);
            assert(next.drop_last() =~= root.children@.take(i as int));
            assert(next.last() == root.children@[i as int]);
        }
        i += 1;
    }
    assert(root.children@.take(i as int) =~= root.children@);
    out
}

/// The locations of the cast descriptors in `s`, in order.
pub open spec fn cast_sites(s: Seq<DescriptorView>) -> Seq<LocationView>
    decreases s.len(),
{
    if s.len() == 0 {
        Seq::empty()
    } else {
        cast_sites(s.drop_last()) + match s.last() {
            DescriptorView::Cast(l) => seq![l],
            _ => Seq::empty(),
        }
    }
}

/// The locations of the C-style casts in the primary file among a node and
/// its descendants, in depth-first order.
pub open spec fn subtree_casts(node: Node) -> Seq<LocationView>
    decreases node,
{
    (if in_primary_file(node) && node.kind == NodeKind::CStyleCastExpr {
        seq![node.location->Some_0@]
    } else {
        Seq::empty()
    }) + children_casts(node.children@)
}

/// The locations of the C-style casts in the primary file among sibling
/// subtrees, in order.
pub open spec fn children_casts(children: Seq<Node>) -> Seq<LocationView>
    decreases children,
{
    if children.len() == 0 {
        Seq::empty()
    } else {
        children_casts(children.drop_last()) + subtree_casts(children.last())
    }
}

proof fn lemma_cast_sites_append(a: Seq<DescriptorView>, b: Seq<DescriptorView>)
    ensures
        cast_sites(a + b) == cast_sites(a) + cast_sites(b),
    decreases b.len(),
{
    if b.len() == 0 {
        assert(a + b =~= a);
        assert(cast_sites(a) + cast_sites(b) =~= cast_sites(a));
    } else {
        assert((a + b).drop_last() =~= a + b.drop_last());
        assert((a + b).last() == b.last());
        lemma_cast_sites_append(a, b.drop_last());
        assert(cast_sites(a + b) =~= cast_sites(a) + cast_sites(b));
    }
}

proof fn lemma_subtree_cast_sites(node: Node, parent: Node, cb: Callback)
    requires
        cb.cast,
    ensures
        cast_sites(subtree_reports(node, parent, cb)) == subtree_casts(node),
    decreases node,
{
    let own = own_report(node, parent, cb);
    lemma_cast_sites_append(own, children_reports(node.children@, node, cb));
    lemma_children_cast_sites(node.children@, node, cb);
    assert(cast_sites(own) =~= (if in_primary_file(node) && node.kind
        == NodeKind::CStyleCastExpr {
        seq![node.location->Some_0@]
    } else {
        Seq::empty()
    })) by {
        assert(cast_sites(Seq::<DescriptorView>::empty()) == Seq::<LocationView>::empty());
        if own.len() == 1 {
            assert(own.drop_last() =~= Seq::<DescriptorView>::empty());
            assert(own.last() == own[0]);
        }
    }
}

proof fn lemma_children_cast_sites(children: Seq<Node>, parent: Node, cb: Callback)
    requires
        cb.cast,
    ensures
        cast_sites(children_reports(children, parent, cb)) == children_casts(children),
    decreases children,
{
    if children.len() > 0 {
        lemma_cast_sites_append(
            children_reports(children.drop_last(), parent, cb),
            subtree_reports(children.last(), parent, cb),
        );
        lemma_children_cast_sites(children.drop_last(), parent, cb);
        lemma_subtree_cast_sites(children.last(), parent, cb);
    }
}

/// Each C-style cast in the primary file is reported exactly once, in
/// depth-first order, whichever other observers are registered: the cast
/// descriptors of a traversal are the casts of the tree.
pub proof fn lemma_each_cast_reported_once(root: Node, cb: Callback)
    requires
        cb.cast,
    ensures
        cast_sites(children_reports(root.children@, root, cb)) == children_casts(root.children@),
{
    lemma_children_cast_sites(root.children@, root, cb);
}

/// Classification depends on the node and its lexical parent alone: on equal
/// inputs it gives equal descriptors, of each kind.
pub proof fn lemma_classification_is_pure(
    node1: Node,
    parent1: Node,
    node2: Node,
    parent2: Node,
    cb: Callback,
)
    requires
        node1 == node2,
        parent1 == parent2,
    ensures
        var_descriptor(node1, parent1) == var_descriptor(node2, parent2),
        fn_descriptor(node1) == fn_descriptor(node2),
        complex_descriptor(node1) == complex_descriptor(node2),
        own_report(node1, parent1, cb) == own_report(node2, parent2, cb),
{
}

} // verus!
