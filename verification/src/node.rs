//! Uniform access to the children of a tree node.

use vstd::prelude::*;
use crate::command::Command;

verus! {

/// A tree node that can list its children.
pub trait Nodeable: Sized {
    /// The children of the node, in order.
    spec fn child_nodes(&self) -> Seq<Self>;

    /// Borrows the children of the node, in order.
    fn children(&self) -> (r: Vec<&Self>)
        ensures
            r@.len() == self.child_nodes().len(),
            forall|i: int| 0 <= i < r@.len() ==> *r@[i] == self.child_nodes()[i],
    ;
}

impl Nodeable for Command {
    /// The commands of a run or of a group; every other command is a leaf.
    open spec fn child_nodes(&self) -> Seq<Command> {
        match self {
            Command::Commands(list) | Command::Group(list) => list@,
            _ => Seq::empty(),
        }
    }

    fn children(&self) -> (r: Vec<&Command>) {
        let mut found: Vec<&Command> = Vec::new();
        match self {
            Command::Commands(list) | Command::Group(list) => {
                let mut i: usize = 0;
                while i < list.len()
                    invariant
                        i <= list.len(),
                        found@.len() == i,
                        forall|k: int| 0 <= k < i ==> *found@[k] == list@[k],
                    decreases list.len() - i,
                {
                    found.push(&list[i]);
                    i += 1;
                }
            },
            _ => {},
        }
        found
    }
}

/// A borrowed node.
pub struct Node<'a, T: Nodeable> {
    inner: &'a T,
}

impl<'a, T: Nodeable> View for Node<'a, T> {
    type V = T;

    /// The node that is borrowed.
    closed spec fn view(&self) -> T {
        *self.inner
    }
}

impl<'a, T: Nodeable> Node<'a, T> {
    /// Wraps a borrowed node.
    pub fn new(inner: &'a T) -> (node: Self)
        ensures
            node@ == *inner,
    {
        Self { inner }
    }

    /// The node that is borrowed.
    pub fn inner(&self) -> (inner: &'a T)
        ensures
            *inner == self@,
    {
        self.inner
    }
}

} // verus!
