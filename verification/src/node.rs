//! The nodes of the document tree that the filter primitives read.

use crate::component_transfer::FeComponentTransfer;
use crate::transfer::apply_attributes;
use crate::transfer::default_func;
use crate::transfer::is_degenerate;
use crate::transfer::normalized;
use crate::transfer::Channel;
use crate::transfer::FeFunc;
use crate::transfer::FuncAttribute;
use vstd::prelude::*;

verus! {

/// What an element of the document is.
pub enum ElementData {
    /// The component transfer primitive.
    FeComponentTransfer(FeComponentTransfer),
    /// The transfer function of one channel.
    FeFunc(FeFunc),
    /// Any other element.
    Other,
}

/// An element of the document, with the outcome of its validation: it is in
/// error where one of its attributes was refused.
pub struct Element {
    pub data: ElementData,
    pub in_error: bool,
}

/// What a node of the document holds.
pub enum NodeData {
    Element(Element),
    Text,
}

/// A node of the document tree with its children in document order.
pub struct Node {
    pub data: NodeData,
    pub children: Vec<Node>,
}

impl Element {
    /// The transfer function element of a channel with the given attributes.
    /// It is in error exactly where one of the attributes was refused.
    pub fn fe_func(channel: Channel, attributes: &Vec<FuncAttribute>) -> (element: Element)
        ensures
            element.data matches ElementData::FeFunc(func) && func@ == normalized(
                apply_attributes(default_func(channel), attributes@).func,
            ) && !is_degenerate(func@),
            element.in_error == apply_attributes(
                default_func(channel),
                attributes@,
            ).refused is Some,
    {
        let mut func = FeFunc::new(channel);
        let outcome = func.set_attributes(attributes);
        Element { data: ElementData::FeFunc(func), in_error: outcome.is_err() }
    }

    /// Whether the element failed its validation.
    pub fn is_in_error(&self) -> (in_error: bool)
        ensures
            in_error == self.in_error,
    {
        self.in_error
    }
}

impl Node {
    /// A node that holds an element.
    pub fn element(element: Element, children: Vec<Node>) -> (node: Node)
        ensures
            node.data == NodeData::Element(element),
            node.children == children,
    {
        Node { data: NodeData::Element(element), children }
    }

    /// A node that holds text.
    pub fn text() -> (node: Node)
        ensures
            node.data is Text,
            node.children@.len() == 0,
    {
        Node { data: NodeData::Text, children: Vec::new() }
    }

    /// Whether the node holds an element.
    pub fn is_element(&self) -> (element: bool)
        ensures
            element == self.data is Element,
    {
        match self.data {
            NodeData::Element(_) => true,
            NodeData::Text => false,
        }
    }
}

} // verus!
