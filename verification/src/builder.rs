use vstd::prelude::*;

use crate::closure::Thunk;
use crate::color::Color;
use crate::context::{Context, Object};
use crate::error::ResourceError;
use crate::node::{Horizontal, Length, Node};

verus! {

// The widget-builder catalog: the fixed set of host-provided capability
// functions the guest drives during a view pass. Each call reads or
// rewrites one node of the resource table; calls that update a node keep
// its handle stable for chaining, and calls that fold a child into a
// parent consume the child's handle.

/// Both nodes are text nodes agreeing on every attribute except the size.
pub open spec fn same_text_except_size(a: Node, b: Node) -> bool {
    &&& a is Text
    &&& b is Text
    &&& b.text_content() == a.text_content()
    &&& b.text_color() == a.text_color()
    &&& b.text_style() == a.text_style()
}

/// Both nodes are text nodes agreeing on every attribute except the
/// color.
pub open spec fn same_text_except_color(a: Node, b: Node) -> bool {
    &&& a is Text
    &&& b is Text
    &&& b.text_content() == a.text_content()
    &&& b.text_size() == a.text_size()
    &&& b.text_style() == a.text_style()
}

/// Both nodes are text nodes agreeing on every attribute except the style
/// closure.
pub open spec fn same_text_except_style(a: Node, b: Node) -> bool {
    &&& a is Text
    &&& b is Text
    &&& b.text_content() == a.text_content()
    &&& b.text_size() == a.text_size()
    &&& b.text_color() == a.text_color()
}

/// Both nodes are columns with the same children and the same attributes,
/// except the ones a single setter rewrites; the caller states those
/// separately.
pub open spec fn same_column_attrs(a: Node, b: Node) -> bool {
    &&& a is Column
    &&& b is Column
    &&& b.spacing() == a.spacing()
    &&& b.padding() == a.padding()
    &&& b.width() == a.width()
    &&& b.height() == a.height()
    &&& b.max_width() == a.max_width()
    &&& b.align_x() == a.align_x()
    &&& b.clip() == a.clip()
}

/// Both nodes are columns with the same children.
pub open spec fn same_column_children(a: Node, b: Node) -> bool {
    &&& a is Column
    &&& b is Column
    &&& b.children() == a.children()
}

/// The handles may be collected into a column: each denotes a live node,
/// and they are pairwise distinct.
pub open spec fn nodes_ok<F: Thunk>(cx: Context<F>, hs: Seq<u32>) -> bool {
    &&& forall|i: int| 0 <= i < hs.len() ==> cx.is_node(#[trigger] hs[i])
    &&& forall|i: int, j: int| 0 <= i < j < hs.len() ==> #[trigger] hs[i] != #[trigger] hs[j]
}

/// The handles may be folded into the existing column `col`: `nodes_ok`,
/// and none of them is the column itself.
pub open spec fn children_ok<F: Thunk>(cx: Context<F>, col: u32, hs: Seq<u32>) -> bool {
    &&& nodes_ok(cx, hs)
    &&& forall|i: int| 0 <= i < hs.len() ==> #[trigger] hs[i] != col
}

/// The nodes the handles denote, in order.
pub open spec fn nodes_of<F: Thunk>(cx: Context<F>, hs: Seq<u32>) -> Seq<Node> {
    Seq::new(hs.len(), |i: int| cx.node_at(hs[i]))
}

impl<F: Thunk> Context<F> {
    /// A new text node with the given content and no other attribute set.
    pub fn text_new(&mut self, content: String) -> (h: u32)
        requires
            old(self).wf(),
            old(self).issued() < u32::MAX,
        ensures
            final(self).wf(),
            h == old(self).issued(),
            !old(self).live(h),
            final(self).issued() == old(self).issued() + 1,
            final(self).lower() == old(self).lower(),
            final(self).is_node(h),
            final(self).node_at(h) is Text,
            final(self).node_at(h).text_content() == content@,
            final(self).node_at(h).text_size() is None,
            final(self).node_at(h).text_color() is None,
            final(self).node_at(h).text_style() is None,
            forall|h2: u32| h2 != h ==> (final(self).live(h2) <==> old(self).live(h2)),
            forall|h2: u32|
                h2 != h && old(self).live(h2) ==> final(self).obj_at(h2) == old(self).obj_at(h2),
    {
        self.table.insert(
            Object::Node(Node::Text { content, size: None, color: None, style: None }),
        )
    }

    /// Sets the size of a text node, keeping its handle; `NotFound` if the
    /// handle does not denote a live text node.
    pub fn text_size(&mut self, h: u32, size: u32) -> (r: Result<u32, ResourceError>)
        requires
            old(self).wf(),
        ensures
            final(self).wf(),
            final(self).issued() == old(self).issued(),
            final(self).lower() == old(self).lower(),
            match r {
                Ok(hr) => {
                    &&& hr == h
                    &&& old(self).is_node(h)
                    &&& old(self).node_at(h) is Text
                    &&& final(self).is_node(h)
                    &&& same_text_except_size(old(self).node_at(h), final(self).node_at(h))
                    &&& final(self).node_at(h).text_size() == Some(size)
                },
                Err(ResourceError::NotFound) => {
                    &&& !(old(self).is_node(h) && old(self).node_at(h) is Text)
                    &&& *final(self) == *old(self)
                },
            },
            forall|h2: u32| h2 != h ==> (final(self).live(h2) <==> old(self).live(h2)),
            forall|h2: u32|
                h2 != h && old(self).live(h2) ==> final(self).obj_at(h2) == old(self).obj_at(h2),
    {
        let ok = match self.table.get(h) {
            Some(Object::Node(Node::Text { .. })) => true,
            _ => false,
        };
        if !ok {
            return Err(ResourceError::NotFound);
        }
        proof {
            self.table.lemma_valid_bounds(h);
        }
        match self.table.take(h) {
            Some(Object::Node(Node::Text { content, color, style, .. })) => {
                self.table.put(
                    h,
                    Object::Node(Node::Text { content, size: Some(size), color, style }),
                );
                Ok(h)
            },
            _ => {
                proof {
                    assert(false);
                }
                Err(ResourceError::NotFound)
            },
        }
    }

    /// Sets the color of a text node, keeping its handle.
    pub fn text_color(&mut self, h: u32, color: Color) -> (r: Result<u32, ResourceError>)
        requires
            old(self).wf(),
        ensures
            final(self).wf(),
            final(self).issued() == old(self).issued(),
            final(self).lower() == old(self).lower(),
            match r {
                Ok(hr) => {
                    &&& hr == h
                    &&& old(self).is_node(h)
                    &&& old(self).node_at(h) is Text
                    &&& final(self).is_node(h)
                    &&& same_text_except_color(old(self).node_at(h), final(self).node_at(h))
                    &&& final(self).node_at(h).text_color() == Some(color)
                },
                Err(ResourceError::NotFound) => {
                    &&& !(old(self).is_node(h) && old(self).node_at(h) is Text)
                    &&& *final(self) == *old(self)
                },
            },
            forall|h2: u32| h2 != h ==> (final(self).live(h2) <==> old(self).live(h2)),
            forall|h2: u32|
                h2 != h && old(self).live(h2) ==> final(self).obj_at(h2) == old(self).obj_at(h2),
    {
        let ok = match self.table.get(h) {
            Some(Object::Node(Node::Text { .. })) => true,
            _ => false,
        };
        if !ok {
            return Err(ResourceError::NotFound);
        }
        proof {
            self.table.lemma_valid_bounds(h);
        }
        match self.table.take(h) {
            Some(Object::Node(Node::Text { content, size, style, .. })) => {
                self.table.put(
                    h,
                    Object::Node(Node::Text { content, size, color: Some(color), style }),
                );
                Ok(h)
            },
            _ => {
                proof {
                    assert(false);
                }
                Err(ResourceError::NotFound)
            },
        }
    }

    /// Wires a stateful style closure to a text node, keeping its handle.
    /// The handle is stored, not checked: a dead style handle surfaces at
    /// dispatch time, like any other dead closure.
    pub fn text_style(&mut self, h: u32, style: u32) -> (r: Result<u32, ResourceError>)
        requires
            old(self).wf(),
        ensures
            final(self).wf(),
            final(self).issued() == old(self).issued(),
            final(self).lower() == old(self).lower(),
            match r {
                Ok(hr) => {
                    &&& hr == h
                    &&& old(self).is_node(h)
                    &&& old(self).node_at(h) is Text
                    &&& final(self).is_node(h)
                    &&& same_text_except_style(old(self).node_at(h), final(self).node_at(h))
                    &&& final(self).node_at(h).text_style() == Some(style)
                },
                Err(ResourceError::NotFound) => {
                    &&& !(old(self).is_node(h) && old(self).node_at(h) is Text)
                    &&& *final(self) == *old(self)
                },
            },
            forall|h2: u32| h2 != h ==> (final(self).live(h2) <==> old(self).live(h2)),
            forall|h2: u32|
                h2 != h && old(self).live(h2) ==> final(self).obj_at(h2) == old(self).obj_at(h2),
    {
        let ok = match self.table.get(h) {
            Some(Object::Node(Node::Text { .. })) => true,
            _ => false,
        };
        if !ok {
            return Err(ResourceError::NotFound);
        }
        proof {
            self.table.lemma_valid_bounds(h);
        }
        match self.table.take(h) {
            Some(Object::Node(Node::Text { content, size, color, .. })) => {
                self.table.put(
                    h,
                    Object::Node(Node::Text { content, size, color, style: Some(style) }),
                );
                Ok(h)
            },
            _ => {
                proof {
                    assert(false);
                }
                Err(ResourceError::NotFound)
            },
        }
    }

    /// A new, empty column with no attribute set.
    pub fn column_new(&mut self) -> (h: u32)
        requires
            old(self).wf(),
            old(self).issued() < u32::MAX,
        ensures
            final(self).wf(),
            h == old(self).issued(),
            !old(self).live(h),
            final(self).issued() == old(self).issued() + 1,
            final(self).lower() == old(self).lower(),
            final(self).is_node(h),
            final(self).node_at(h) is Column,
            final(self).node_at(h).children() =~= Seq::<Node>::empty(),
            final(self).node_at(h).spacing() is None,
            final(self).node_at(h).padding() is None,
            final(self).node_at(h).width() is None,
            final(self).node_at(h).height() is None,
            final(self).node_at(h).max_width() is None,
            final(self).node_at(h).align_x() is None,
            !final(self).node_at(h).clip(),
            forall|h2: u32| h2 != h ==> (final(self).live(h2) <==> old(self).live(h2)),
            forall|h2: u32|
                h2 != h && old(self).live(h2) ==> final(self).obj_at(h2) == old(self).obj_at(h2),
    {
        self.table.insert(
            Object::Node(
                Node::Column {
                    children: Vec::new(),
                    spacing: None,
                    padding: None,
                    width: None,
                    height: None,
                    max_width: None,
                    align_x: None,
                    clip: false,
                },
            ),
        )
    }

    /// Sets the spacing between a column's children, keeping its handle.
    pub fn column_spacing(&mut self, h: u32, amount: u32) -> (r: Result<u32, ResourceError>)
        requires
            old(self).wf(),
        ensures
            final(self).wf(),
            final(self).issued() == old(self).issued(),
            final(self).lower() == old(self).lower(),
            match r {
                Ok(hr) => {
                    &&& hr == h
                    &&& old(self).is_node(h)
                    &&& old(self).node_at(h) is Column
                    &&& final(self).is_node(h)
                    &&& same_column_children(old(self).node_at(h), final(self).node_at(h))
                    &&& final(self).node_at(h).spacing() == Some(amount)
                    &&& final(self).node_at(h).padding() == old(self).node_at(h).padding()
                    &&& final(self).node_at(h).width() == old(self).node_at(h).width()
                    &&& final(self).node_at(h).height() == old(self).node_at(h).height()
                    &&& final(self).node_at(h).max_width() == old(self).node_at(h).max_width()
                    &&& final(self).node_at(h).align_x() == old(self).node_at(h).align_x()
                    &&& final(self).node_at(h).clip() == old(self).node_at(h).clip()
                },
                Err(ResourceError::NotFound) => {
                    &&& !(old(self).is_node(h) && old(self).node_at(h) is Column)
                    &&& *final(self) == *old(self)
                },
            },
            forall|h2: u32| h2 != h ==> (final(self).live(h2) <==> old(self).live(h2)),
            forall|h2: u32|
                h2 != h && old(self).live(h2) ==> final(self).obj_at(h2) == old(self).obj_at(h2),
    {
        let ok = match self.table.get(h) {
            Some(Object::Node(Node::Column { .. })) => true,
            _ => false,
        };
        if !ok {
            return Err(ResourceError::NotFound);
        }
        proof {
            self.table.lemma_valid_bounds(h);
        }
        match self.table.take(h) {
            Some(
                Object::Node(
                    Node::Column { children, padding, width, height, max_width, align_x, clip, .. },
                ),
            ) => {
                self.table.put(
                    h,
                    Object::Node(
                        Node::Column { children, spacing: Some(amount), padding, width, height, max_width, align_x, clip },
                    ),
                );
                Ok(h)
            },
            _ => {
                proof {
                    assert(false);
                }
                Err(ResourceError::NotFound)
            },
        }
    }

    /// Sets the padding of a column, keeping its handle and children.
    pub fn column_padding(&mut self, h: u32, amount: u32) -> (r: Result<u32, ResourceError>)
        requires
            old(self).wf(),
        ensures
            final(self).wf(),
            final(self).issued() == old(self).issued(),
            final(self).lower() == old(self).lower(),
            match r {
                Ok(hr) => {
                    &&& hr == h
                    &&& old(self).is_node(h)
                    &&& old(self).node_at(h) is Column
                    &&& final(self).is_node(h)
                    &&& same_column_children(old(self).node_at(h), final(self).node_at(h))
                    &&& final(self).node_at(h).padding() == Some(amount)
                    &&& final(self).node_at(h).spacing() == old(self).node_at(h).spacing()
                    &&& final(self).node_at(h).width() == old(self).node_at(h).width()
                    &&& final(self).node_at(h).height() == old(self).node_at(h).height()
                    &&& final(self).node_at(h).max_width() == old(self).node_at(h).max_width()
                    &&& final(self).node_at(h).align_x() == old(self).node_at(h).align_x()
                    &&& final(self).node_at(h).clip() == old(self).node_at(h).clip()
                },
                Err(ResourceError::NotFound) => {
                    &&& !(old(self).is_node(h) && old(self).node_at(h) is Column)
                    &&& *final(self) == *old(self)
                },
            },
            forall|h2: u32| h2 != h ==> (final(self).live(h2) <==> old(self).live(h2)),
            forall|h2: u32|
                h2 != h && old(self).live(h2) ==> final(self).obj_at(h2) == old(self).obj_at(h2),
    {
        let ok = match self.table.get(h) {
            Some(Object::Node(Node::Column { .. })) => true,
            _ => false,
        };
        if !ok {
            return Err(ResourceError::NotFound);
        }
        proof {
            self.table.lemma_valid_bounds(h);
        }
        match self.table.take(h) {
            Some(
                Object::Node(
                    Node::Column { children, spacing, width, height, max_width, align_x, clip, .. },
                ),
            ) => {
                self.table.put(
                    h,
                    Object::Node(
                        Node::Column { children, spacing, padding: Some(amount), width, height, max_width, align_x, clip },
                    ),
                );
                Ok(h)
            },
            _ => {
                proof {
                    assert(false);
                }
                Err(ResourceError::NotFound)
            },
        }
    }

    /// Sets the width of a column, keeping its handle and children.
    pub fn column_width(&mut self, h: u32, width: Length) -> (r: Result<u32, ResourceError>)
        requires
            old(self).wf(),
        ensures
            final(self).wf(),
            final(self).issued() == old(self).issued(),
            final(self).lower() == old(self).lower(),
            match r {
                Ok(hr) => {
                    &&& hr == h
                    &&& old(self).is_node(h)
                    &&& old(self).node_at(h) is Column
                    &&& final(self).is_node(h)
                    &&& same_column_children(old(self).node_at(h), final(self).node_at(h))
                    &&& final(self).node_at(h).width() == Some(width)
                    &&& final(self).node_at(h).spacing() == old(self).node_at(h).spacing()
                    &&& final(self).node_at(h).padding() == old(self).node_at(h).padding()
                    &&& final(self).node_at(h).height() == old(self).node_at(h).height()
                    &&& final(self).node_at(h).max_width() == old(self).node_at(h).max_width()
                    &&& final(self).node_at(h).align_x() == old(self).node_at(h).align_x()
                    &&& final(self).node_at(h).clip() == old(self).node_at(h).clip()
                },
                Err(ResourceError::NotFound) => {
                    &&& !(old(self).is_node(h) && old(self).node_at(h) is Column)
                    &&& *final(self) == *old(self)
                },
            },
            forall|h2: u32| h2 != h ==> (final(self).live(h2) <==> old(self).live(h2)),
            forall|h2: u32|
                h2 != h && old(self).live(h2) ==> final(self).obj_at(h2) == old(self).obj_at(h2),
    {
        let ok = match self.table.get(h) {
            Some(Object::Node(Node::Column { .. })) => true,
            _ => false,
        };
        if !ok {
            return Err(ResourceError::NotFound);
        }
        proof {
            self.table.lemma_valid_bounds(h);
        }
        match self.table.take(h) {
            Some(
                Object::Node(
                    Node::Column { children, spacing, padding, height, max_width, align_x, clip, .. },
                ),
            ) => {
                self.table.put(
                    h,
                    Object::Node(
                        Node::Column { children, spacing, padding, width: Some(width), height, max_width, align_x, clip },
                    ),
                );
                Ok(h)
            },
            _ => {
                proof {
                    assert(false);
                }
                Err(ResourceError::NotFound)
            },
        }
    }

    /// Sets the height of a column, keeping its handle and children.
    pub fn column_height(&mut self, h: u32, height: Length) -> (r: Result<u32, ResourceError>)
        requires
            old(self).wf(),
        ensures
            final(self).wf(),
            final(self).issued() == old(self).issued(),
            final(self).lower() == old(self).lower(),
            match r {
                Ok(hr) => {
                    &&& hr == h
                    &&& old(self).is_node(h)
                    &&& old(self).node_at(h) is Column
                    &&& final(self).is_node(h)
                    &&& same_column_children(old(self).node_at(h), final(self).node_at(h))
                    &&& final(self).node_at(h).height() == Some(height)
                    &&& final(self).node_at(h).spacing() == old(self).node_at(h).spacing()
                    &&& final(self).node_at(h).padding() == old(self).node_at(h).padding()
                    &&& final(self).node_at(h).width() == old(self).node_at(h).width()
                    &&& final(self).node_at(h).max_width() == old(self).node_at(h).max_width()
                    &&& final(self).node_at(h).align_x() == old(self).node_at(h).align_x()
                    &&& final(self).node_at(h).clip() == old(self).node_at(h).clip()
                },
                Err(ResourceError::NotFound) => {
                    &&& !(old(self).is_node(h) && old(self).node_at(h) is Column)
                    &&& *final(self) == *old(self)
                },
            },
            forall|h2: u32| h2 != h ==> (final(self).live(h2) <==> old(self).live(h2)),
            forall|h2: u32|
                h2 != h && old(self).live(h2) ==> final(self).obj_at(h2) == old(self).obj_at(h2),
    {
        let ok = match self.table.get(h) {
            Some(Object::Node(Node::Column { .. })) => true,
            _ => false,
        };
        if !ok {
            return Err(ResourceError::NotFound);
        }
        proof {
            self.table.lemma_valid_bounds(h);
        }
        match self.table.take(h) {
            Some(
                Object::Node(
                    Node::Column { children, spacing, padding, width, max_width, align_x, clip, .. },
                ),
            ) => {
                self.table.put(
                    h,
                    Object::Node(
                        Node::Column { children, spacing, padding, width, height: Some(height), max_width, align_x, clip },
                    ),
                );
                Ok(h)
            },
            _ => {
                proof {
                    assert(false);
                }
                Err(ResourceError::NotFound)
            },
        }
    }

    /// Sets the maximum width of a column, keeping its handle and children.
    pub fn column_max_width(&mut self, h: u32, amount: u32) -> (r: Result<u32, ResourceError>)
        requires
            old(self).wf(),
        ensures
            final(self).wf(),
            final(self).issued() == old(self).issued(),
            final(self).lower() == old(self).lower(),
            match r {
                Ok(hr) => {
                    &&& hr == h
                    &&& old(self).is_node(h)
                    &&& old(self).node_at(h) is Column
                    &&& final(self).is_node(h)
                    &&& same_column_children(old(self).node_at(h), final(self).node_at(h))
                    &&& final(self).node_at(h).max_width() == Some(amount)
                    &&& final(self).node_at(h).spacing() == old(self).node_at(h).spacing()
                    &&& final(self).node_at(h).padding() == old(self).node_at(h).padding()
                    &&& final(self).node_at(h).width() == old(self).node_at(h).width()
                    &&& final(self).node_at(h).height() == old(self).node_at(h).height()
                    &&& final(self).node_at(h).align_x() == old(self).node_at(h).align_x()
                    &&& final(self).node_at(h).clip() == old(self).node_at(h).clip()
                },
                Err(ResourceError::NotFound) => {
                    &&& !(old(self).is_node(h) && old(self).node_at(h) is Column)
                    &&& *final(self) == *old(self)
                },
            },
            forall|h2: u32| h2 != h ==> (final(self).live(h2) <==> old(self).live(h2)),
            forall|h2: u32|
                h2 != h && old(self).live(h2) ==> final(self).obj_at(h2) == old(self).obj_at(h2),
    {
        let ok = match self.table.get(h) {
            Some(Object::Node(Node::Column { .. })) => true,
            _ => false,
        };
        if !ok {
            return Err(ResourceError::NotFound);
        }
        proof {
            self.table.lemma_valid_bounds(h);
        }
        match self.table.take(h) {
            Some(
                Object::Node(
                    Node::Column { children, spacing, padding, width, height, align_x, clip, .. },
                ),
            ) => {
                self.table.put(
                    h,
                    Object::Node(
                        Node::Column { children, spacing, padding, width, height, max_width: Some(amount), align_x, clip },
                    ),
                );
                Ok(h)
            },
            _ => {
                proof {
                    assert(false);
                }
                Err(ResourceError::NotFound)
            },
        }
    }

    /// Sets the horizontal alignment of a column's children, keeping its handle.
    pub fn column_align_x(&mut self, h: u32, align: Horizontal) -> (r: Result<u32, ResourceError>)
        requires
            old(self).wf(),
        ensures
            final(self).wf(),
            final(self).issued() == old(self).issued(),
            final(self).lower() == old(self).lower(),
            match r {
                Ok(hr) => {
                    &&& hr == h
                    &&& old(self).is_node(h)
                    &&& old(self).node_at(h) is Column
                    &&& final(self).is_node(h)
                    &&& same_column_children(old(self).node_at(h), final(self).node_at(h))
                    &&& final(self).node_at(h).align_x() == Some(align)
                    &&& final(self).node_at(h).spacing() == old(self).node_at(h).spacing()
                    &&& final(self).node_at(h).padding() == old(self).node_at(h).padding()
                    &&& final(self).node_at(h).width() == old(self).node_at(h).width()
                    &&& final(self).node_at(h).height() == old(self).node_at(h).height()
                    &&& final(self).node_at(h).max_width() == old(self).node_at(h).max_width()
                    &&& final(self).node_at(h).clip() == old(self).node_at(h).clip()
                },
                Err(ResourceError::NotFound) => {
                    &&& !(old(self).is_node(h) && old(self).node_at(h) is Column)
                    &&& *final(self) == *old(self)
                },
            },
            forall|h2: u32| h2 != h ==> (final(self).live(h2) <==> old(self).live(h2)),
            forall|h2: u32|
                h2 != h && old(self).live(h2) ==> final(self).obj_at(h2) == old(self).obj_at(h2),
    {
        let ok = match self.table.get(h) {
            Some(Object::Node(Node::Column { .. })) => true,
            _ => false,
        };
        if !ok {
            return Err(ResourceError::NotFound);
        }
        proof {
            self.table.lemma_valid_bounds(h);
        }
        match self.table.take(h) {
            Some(
                Object::Node(
                    Node::Column { children, spacing, padding, width, height, max_width, clip, .. },
                ),
            ) => {
                self.table.put(
                    h,
                    Object::Node(
                        Node::Column { children, spacing, padding, width, height, max_width, align_x: Some(align), clip },
                    ),
                );
                Ok(h)
            },
            _ => {
                proof {
                    assert(false);
                }
                Err(ResourceError::NotFound)
            },
        }
    }

    /// Sets whether a column clips its contents, keeping its handle.
    pub fn column_clip(&mut self, h: u32, clip: bool) -> (r: Result<u32, ResourceError>)
        requires
            old(self).wf(),
        ensures
            final(self).wf(),
            final(self).issued() == old(self).issued(),
            final(self).lower() == old(self).lower(),
            match r {
                Ok(hr) => {
                    &&& hr == h
                    &&& old(self).is_node(h)
                    &&& old(self).node_at(h) is Column
                    &&& final(self).is_node(h)
                    &&& same_column_children(old(self).node_at(h), final(self).node_at(h))
                    &&& final(self).node_at(h).clip() == clip
                    &&& final(self).node_at(h).spacing() == old(self).node_at(h).spacing()
                    &&& final(self).node_at(h).padding() == old(self).node_at(h).padding()
                    &&& final(self).node_at(h).width() == old(self).node_at(h).width()
                    &&& final(self).node_at(h).height() == old(self).node_at(h).height()
                    &&& final(self).node_at(h).max_width() == old(self).node_at(h).max_width()
                    &&& final(self).node_at(h).align_x() == old(self).node_at(h).align_x()
                },
                Err(ResourceError::NotFound) => {
                    &&& !(old(self).is_node(h) && old(self).node_at(h) is Column)
                    &&& *final(self) == *old(self)
                },
            },
            forall|h2: u32| h2 != h ==> (final(self).live(h2) <==> old(self).live(h2)),
            forall|h2: u32|
                h2 != h && old(self).live(h2) ==> final(self).obj_at(h2) == old(self).obj_at(h2),
    {
        let ok = match self.table.get(h) {
            Some(Object::Node(Node::Column { .. })) => true,
            _ => false,
        };
        if !ok {
            return Err(ResourceError::NotFound);
        }
        proof {
            self.table.lemma_valid_bounds(h);
        }
        match self.table.take(h) {
            Some(
                Object::Node(
                    Node::Column { children, spacing, padding, width, height, max_width, align_x, .. },
                ),
            ) => {
                self.table.put(
                    h,
                    Object::Node(
                        Node::Column { children, spacing, padding, width, height, max_width, align_x, clip },
                    ),
                );
                Ok(h)
            },
            _ => {
                proof {
                    assert(false);
                }
                Err(ResourceError::NotFound)
            },
        }
    }

    /// Appends a child to a column, consuming the child's handle; the
    /// column's handle stays stable. `NotFound` unless `col` is a live
    /// column and `child` a distinct live node.
    pub fn column_push(&mut self, col: u32, child: u32) -> (r: Result<u32, ResourceError>)
        requires
            old(self).wf(),
        ensures
            final(self).wf(),
            final(self).issued() == old(self).issued(),
            final(self).lower() == old(self).lower(),
            match r {
                Ok(hr) => {
                    &&& hr == col
                    &&& old(self).is_node(col)
                    &&& old(self).node_at(col) is Column
                    &&& old(self).is_node(child)
                    &&& child != col
                    &&& final(self).is_node(col)
                    &&& same_column_attrs(old(self).node_at(col), final(self).node_at(col))
                    &&& final(self).node_at(col).children() =~= old(self).node_at(
                        col,
                    ).children().push(old(self).node_at(child))
                    &&& !final(self).live(child)
                },
                Err(ResourceError::NotFound) => {
                    &&& !(old(self).is_node(col) && old(self).node_at(col) is Column && old(
                        self,
                    ).is_node(child) && child != col)
                    &&& *final(self) == *old(self)
                },
            },
            forall|h2: u32|
                h2 != col && h2 != child ==> (final(self).live(h2) <==> old(self).live(h2)),
            forall|h2: u32|
                h2 != col && h2 != child && old(self).live(h2) ==> final(self).obj_at(h2) == old(
                    self,
                ).obj_at(h2),
    {
        let col_ok = match self.table.get(col) {
            Some(Object::Node(Node::Column { .. })) => true,
            _ => false,
        };
        let child_ok = match self.table.get(child) {
            Some(Object::Node(_)) => true,
            _ => false,
        };
        if !col_ok || !child_ok || child == col {
            return Err(ResourceError::NotFound);
        }
        proof {
            self.table.lemma_valid_bounds(col);
        }
        let child_node = match self.table.take(child) {
            Some(Object::Node(n)) => n,
            _ => {
                proof {
                    assert(false);
                }
                return Err(ResourceError::NotFound);
            },
        };
        match self.table.take(col) {
            Some(
                Object::Node(
                    Node::Column {
                        children,
                        spacing,
                        padding,
                        width,
                        height,
                        max_width,
                        align_x,
                        clip,
                    },
                ),
            ) => {
                let mut children = children;
                children.push(child_node);
                self.table.put(
                    col,
                    Object::Node(
                        Node::Column {
                            children,
                            spacing,
                            padding,
                            width,
                            height,
                            max_width,
                            align_x,
                            clip,
                        },
                    ),
                );
                Ok(col)
            },
            _ => {
                proof {
                    assert(false);
                }
                Err(ResourceError::NotFound)
            },
        }
    }


    /// Whether a prefix of the handle list contains a given handle.
    fn contains_prefix(hs: &Vec<u32>, end: usize, x: u32) -> (b: bool)
        requires
            end <= hs@.len(),
        ensures
            b == (exists|k: int| 0 <= k < end && hs@[k] == x),
    {
        let mut j: usize = 0;
        while j < end
            invariant
                j <= end,
                end <= hs@.len(),
                forall|k: int| 0 <= k < j ==> hs@[k] != x,
            decreases end - j,
        {
            if hs[j] == x {
                proof {
                    assert(hs@[j as int] == x);
                }
                return true;
            }
            j += 1;
        }
        false
    }

    /// Whether every handle in the list denotes a live node, with no
    /// duplicates.
    fn nodes_check(&self, hs: &Vec<u32>) -> (b: bool)
        requires
            self.wf(),
        ensures
            b == nodes_ok(*self, hs@),
    {
        let n = hs.len();
        let mut i: usize = 0;
        while i < n
            invariant
                self.wf(),
                n == hs@.len(),
                i <= n,
                forall|k: int| 0 <= k < i ==> self.is_node(#[trigger] hs@[k]),
                forall|k: int, j: int| 0 <= k < j < i ==> #[trigger] hs@[k] != #[trigger] hs@[j],
            decreases n - i,
        {
            let h = hs[i];
            let live_node = match self.table.get(h) {
                Some(Object::Node(_)) => true,
                _ => false,
            };
            if !live_node {
                proof {
                    assert(!self.is_node(hs@[i as int]));
                }
                return false;
            }
            if Self::contains_prefix(hs, i, h) {
                proof {
                    let k = choose|k: int| 0 <= k < i && hs@[k] == h;
                    assert(hs@[k] == hs@[i as int]);
                }
                return false;
            }
            i += 1;
        }
        true
    }

    /// Appends each listed child to a column, in order, consuming every
    /// child handle; the column's handle stays stable. `NotFound` unless
    /// `col` is a live column and the children are distinct live nodes,
    /// none of them the column itself.
    pub fn column_extend(&mut self, col: u32, hs: &Vec<u32>) -> (r: Result<u32, ResourceError>)
        requires
            old(self).wf(),
        ensures
            final(self).wf(),
            final(self).issued() == old(self).issued(),
            final(self).lower() == old(self).lower(),
            match r {
                Ok(hr) => {
                    &&& hr == col
                    &&& old(self).is_node(col)
                    &&& old(self).node_at(col) is Column
                    &&& children_ok(*old(self), col, hs@)
                    &&& final(self).is_node(col)
                    &&& same_column_attrs(old(self).node_at(col), final(self).node_at(col))
                    &&& final(self).node_at(col).children() =~= old(self).node_at(col).children()
                        + nodes_of(*old(self), hs@)
                    &&& forall|i: int| 0 <= i < hs@.len() ==> !final(self).live(#[trigger] hs@[i])
                },
                Err(ResourceError::NotFound) => {
                    &&& !(old(self).is_node(col) && old(self).node_at(col) is Column
                        && children_ok(*old(self), col, hs@))
                    &&& *final(self) == *old(self)
                },
            },
            forall|h2: u32|
                h2 != col && !hs@.contains(h2) ==> (final(self).live(h2) <==> old(self).live(h2)),
            forall|h2: u32|
                h2 != col && !hs@.contains(h2) && old(self).live(h2) ==> final(self).obj_at(h2)
                    == old(self).obj_at(h2),
    {
        let col_ok = match self.table.get(col) {
            Some(Object::Node(Node::Column { .. })) => true,
            _ => false,
        };
        if !col_ok || !self.nodes_check(hs) {
            return Err(ResourceError::NotFound);
        }
        if Self::contains_prefix(hs, hs.len(), col) {
            proof {
                let k = choose|k: int| 0 <= k < hs@.len() && hs@[k] == col;
                assert(hs@[k] == col);
            }
            return Err(ResourceError::NotFound);
        }
        proof {
            self.table.lemma_valid_bounds(col);
        }
        match self.table.take(col) {
            Some(
                Object::Node(
                    Node::Column {
                        children,
                        spacing,
                        padding,
                        width,
                        height,
                        max_width,
                        align_x,
                        clip,
                    },
                ),
            ) => {
                let mut children = children;
                let ghost base_children: Seq<Node> = children@;
                let n = hs.len();
                let mut i: usize = 0;
                while i < n
                    invariant
                        self.wf(),
                        n == hs@.len(),
                        i <= n,
                        self.issued() == old(self).issued(),
                        self.lower() == old(self).lower(),
                        children_ok(*old(self), col, hs@),
                        !self.live(col),
                        old(self).lower() <= col < old(self).issued(),
                        forall|k: int| 0 <= k < i ==> !self.live(#[trigger] hs@[k]),
                        forall|k: int|
                            i <= k < n ==> self.live(#[trigger] hs@[k]) && self.obj_at(hs@[k])
                                == old(self).obj_at(hs@[k]),
                        children@ =~= base_children + nodes_of(*old(self), hs@.take(i as int)),
                        forall|h2: u32|
                            h2 != col && !hs@.contains(h2) ==> (self.live(h2) <==> old(self).live(
                                h2,
                            )),
                        forall|h2: u32|
                            h2 != col && !hs@.contains(h2) && old(self).live(h2) ==> self.obj_at(
                                h2,
                            ) == old(self).obj_at(h2),
                    decreases n - i,
                {
                    proof {
                        assert(hs@.contains(hs@[i as int]));
                    }
                    let child = match self.take_node(hs[i]) {
                        Some(nd) => nd,
                        None => {
                            proof {
                                assert(false);
                            }
                            return Err(ResourceError::NotFound);
                        },
                    };
                    children.push(child);
                    proof {
                        assert(hs@.take(i + 1).drop_last() =~= hs@.take(i as int));
                        assert(children@ =~= base_children + nodes_of(
                            *old(self),
                            hs@.take(i + 1),
                        ));
                    }
                    i += 1;
                }
                proof {
                    assert(hs@.take(n as int) =~= hs@);
                }
                self.table.put(
                    col,
                    Object::Node(
                        Node::Column {
                            children,
                            spacing,
                            padding,
                            width,
                            height,
                            max_width,
                            align_x,
                            clip,
                        },
                    ),
                );
                Ok(col)
            },
            _ => {
                proof {
                    assert(false);
                }
                Err(ResourceError::NotFound)
            },
        }
    }

    /// A new column holding the listed children, in order, consuming every
    /// child handle; no attribute is set. `NotFound` unless the children
    /// are distinct live nodes.
    pub fn column_from_vec(&mut self, hs: &Vec<u32>) -> (r: Result<u32, ResourceError>)
        requires
            old(self).wf(),
            old(self).issued() < u32::MAX,
        ensures
            final(self).wf(),
            final(self).lower() == old(self).lower(),
            match r {
                Ok(h) => {
                    &&& h == old(self).issued()
                    &&& !old(self).live(h)
                    &&& final(self).issued() == old(self).issued() + 1
                    &&& nodes_ok(*old(self), hs@)
                    &&& final(self).is_node(h)
                    &&& final(self).node_at(h) is Column
                    &&& final(self).node_at(h).children() =~= nodes_of(*old(self), hs@)
                    &&& final(self).node_at(h).spacing() is None
                    &&& final(self).node_at(h).padding() is None
                    &&& final(self).node_at(h).width() is None
                    &&& final(self).node_at(h).height() is None
                    &&& final(self).node_at(h).max_width() is None
                    &&& final(self).node_at(h).align_x() is None
                    &&& !final(self).node_at(h).clip()
                    &&& forall|i: int| 0 <= i < hs@.len() ==> !final(self).live(#[trigger] hs@[i])
                    &&& forall|h2: u32|
                        h2 != h && !hs@.contains(h2) ==> (final(self).live(h2) <==> old(self).live(
                            h2,
                        ))
                    &&& forall|h2: u32|
                        h2 != h && !hs@.contains(h2) && old(self).live(h2) ==> final(self).obj_at(
                            h2,
                        ) == old(self).obj_at(h2)
                },
                Err(ResourceError::NotFound) => {
                    &&& !nodes_ok(*old(self), hs@)
                    &&& *final(self) == *old(self)
                },
            },
    {
        if !self.nodes_check(hs) {
            return Err(ResourceError::NotFound);
        }
        let mut children: Vec<Node> = Vec::new();
        let n = hs.len();
        let mut i: usize = 0;
        while i < n
            invariant
                self.wf(),
                n == hs@.len(),
                i <= n,
                self.issued() == old(self).issued(),
                self.lower() == old(self).lower(),
                nodes_ok(*old(self), hs@),
                forall|k: int| 0 <= k < i ==> !self.live(#[trigger] hs@[k]),
                forall|k: int|
                    i <= k < n ==> self.live(#[trigger] hs@[k]) && self.obj_at(hs@[k]) == old(
                        self,
                    ).obj_at(hs@[k]),
                children@ =~= nodes_of(*old(self), hs@.take(i as int)),
                forall|h2: u32|
                    !hs@.contains(h2) ==> (self.live(h2) <==> old(self).live(h2)),
                forall|h2: u32|
                    !hs@.contains(h2) && old(self).live(h2) ==> self.obj_at(h2) == old(
                        self,
                    ).obj_at(h2),
            decreases n - i,
        {
            proof {
                assert(hs@.contains(hs@[i as int]));
            }
            let child = match self.take_node(hs[i]) {
                Some(nd) => nd,
                None => {
                    proof {
                        assert(false);
                    }
                    return Err(ResourceError::NotFound);
                },
            };
            children.push(child);
            proof {
                assert(hs@.take(i + 1).drop_last() =~= hs@.take(i as int));
                assert(children@ =~= nodes_of(*old(self), hs@.take(i + 1)));
            }
            i += 1;
        }
        proof {
            assert(hs@.take(n as int) =~= hs@);
            assert forall|k: int| 0 <= k < hs@.len() implies #[trigger] hs@[k] < old(
                self,
            ).issued() by {
                old(self).table.lemma_valid_bounds(hs@[k]);
            }
            if old(self).live(old(self).issued() as u32) {
                old(self).table.lemma_valid_bounds(old(self).issued() as u32);
            }
        }
        let h = self.table.insert(
            Object::Node(
                Node::Column {
                    children,
                    spacing: None,
                    padding: None,
                    width: None,
                    height: None,
                    max_width: None,
                    align_x: None,
                    clip: false,
                },
            ),
        );
        Ok(h)
    }

    /// A new button wrapping the node under `content`, whose handle it
    /// consumes; no press handler is wired yet.
    pub fn button_new(&mut self, content: u32) -> (r: Result<u32, ResourceError>)
        requires
            old(self).wf(),
            old(self).issued() < u32::MAX,
        ensures
            final(self).wf(),
            final(self).lower() == old(self).lower(),
            match r {
                Ok(h) => {
                    &&& h == old(self).issued()
                    &&& !old(self).live(h)
                    &&& final(self).issued() == old(self).issued() + 1
                    &&& old(self).is_node(content)
                    &&& final(self).is_node(h)
                    &&& final(self).node_at(h) is Button
                    &&& final(self).node_at(h).content() == old(self).node_at(content)
                    &&& final(self).node_at(h).on_press() is None
                    &&& !final(self).live(content)
                    &&& forall|h2: u32|
                        h2 != h && h2 != content ==> (final(self).live(h2) <==> old(self).live(h2))
                    &&& forall|h2: u32|
                        h2 != h && h2 != content && old(self).live(h2) ==> final(self).obj_at(h2)
                            == old(self).obj_at(h2)
                },
                Err(ResourceError::NotFound) => {
                    &&& !old(self).is_node(content)
                    &&& *final(self) == *old(self)
                },
            },
    {
        let content_node = match self.take_node(content) {
            Some(n) => n,
            None => {
                return Err(ResourceError::NotFound);
            },
        };
        proof {
            old(self).table.lemma_valid_bounds(content);
        }
        let h = self.table.insert(
            Object::Node(Node::Button { content: Box::new(content_node), on_press: None }),
        );
        Ok(h)
    }

    /// Wires a stateless press closure to a button, keeping its handle.
    /// The closure handle is stored, not checked: a dead handle surfaces
    /// at dispatch time.
    pub fn button_on_press(&mut self, h: u32, closure: u32) -> (r: Result<u32, ResourceError>)
        requires
            old(self).wf(),
        ensures
            final(self).wf(),
            final(self).issued() == old(self).issued(),
            final(self).lower() == old(self).lower(),
            match r {
                Ok(hr) => {
                    &&& hr == h
                    &&& old(self).is_node(h)
                    &&& old(self).node_at(h) is Button
                    &&& final(self).is_node(h)
                    &&& final(self).node_at(h) is Button
                    &&& final(self).node_at(h).content() == old(self).node_at(h).content()
                    &&& final(self).node_at(h).on_press() == Some(closure)
                },
                Err(ResourceError::NotFound) => {
                    &&& !(old(self).is_node(h) && old(self).node_at(h) is Button)
                    &&& *final(self) == *old(self)
                },
            },
            forall|h2: u32| h2 != h ==> (final(self).live(h2) <==> old(self).live(h2)),
            forall|h2: u32|
                h2 != h && old(self).live(h2) ==> final(self).obj_at(h2) == old(self).obj_at(h2),
    {
        let ok = match self.table.get(h) {
            Some(Object::Node(Node::Button { .. })) => true,
            _ => false,
        };
        if !ok {
            return Err(ResourceError::NotFound);
        }
        proof {
            self.table.lemma_valid_bounds(h);
        }
        match self.table.take(h) {
            Some(Object::Node(Node::Button { content, .. })) => {
                self.table.put(
                    h,
                    Object::Node(Node::Button { content, on_press: Some(closure) }),
                );
                Ok(h)
            },
            _ => {
                proof {
                    assert(false);
                }
                Err(ResourceError::NotFound)
            },
        }
    }

    /// A new checkbox with a label and an initial checked state; no toggle
    /// handler is wired yet.
    pub fn checkbox_new(&mut self, label: String, checked: bool) -> (h: u32)
        requires
            old(self).wf(),
            old(self).issued() < u32::MAX,
        ensures
            final(self).wf(),
            h == old(self).issued(),
            !old(self).live(h),
            final(self).issued() == old(self).issued() + 1,
            final(self).lower() == old(self).lower(),
            final(self).is_node(h),
            final(self).node_at(h) is Checkbox,
            final(self).node_at(h).label() == label@,
            final(self).node_at(h).checked() == checked,
            final(self).node_at(h).on_toggle() is None,
            forall|h2: u32| h2 != h ==> (final(self).live(h2) <==> old(self).live(h2)),
            forall|h2: u32|
                h2 != h && old(self).live(h2) ==> final(self).obj_at(h2) == old(self).obj_at(h2),
    {
        self.table.insert(Object::Node(Node::Checkbox { label, checked, on_toggle: None }))
    }

    /// Wires a stateful toggle closure to a checkbox, keeping its handle.
    pub fn checkbox_on_toggle(&mut self, h: u32, closure: u32) -> (r: Result<u32, ResourceError>)
        requires
            old(self).wf(),
        ensures
            final(self).wf(),
            final(self).issued() == old(self).issued(),
            final(self).lower() == old(self).lower(),
            match r {
                Ok(hr) => {
                    &&& hr == h
                    &&& old(self).is_node(h)
                    &&& old(self).node_at(h) is Checkbox
                    &&& final(self).is_node(h)
                    &&& final(self).node_at(h) is Checkbox
                    &&& final(self).node_at(h).label() == old(self).node_at(h).label()
                    &&& final(self).node_at(h).checked() == old(self).node_at(h).checked()
                    &&& final(self).node_at(h).on_toggle() == Some(closure)
                },
                Err(ResourceError::NotFound) => {
                    &&& !(old(self).is_node(h) && old(self).node_at(h) is Checkbox)
                    &&& *final(self) == *old(self)
                },
            },
            forall|h2: u32| h2 != h ==> (final(self).live(h2) <==> old(self).live(h2)),
            forall|h2: u32|
                h2 != h && old(self).live(h2) ==> final(self).obj_at(h2) == old(self).obj_at(h2),
    {
        let ok = match self.table.get(h) {
            Some(Object::Node(Node::Checkbox { .. })) => true,
            _ => false,
        };
        if !ok {
            return Err(ResourceError::NotFound);
        }
        proof {
            self.table.lemma_valid_bounds(h);
        }
        match self.table.take(h) {
            Some(Object::Node(Node::Checkbox { label, checked, .. })) => {
                self.table.put(
                    h,
                    Object::Node(Node::Checkbox { label, checked, on_toggle: Some(closure) }),
                );
                Ok(h)
            },
            _ => {
                proof {
                    assert(false);
                }
                Err(ResourceError::NotFound)
            },
        }
    }
}

} // verus!
