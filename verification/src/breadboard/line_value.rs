//! The kinds of value that a wire carries, and typed handles to the outputs
//! of a breadboard's components.

use std::marker::PhantomData;
use vstd::prelude::*;
use super::private::Sealed;
use crate::guid::Guid;

verus! {

/// The output of a component: the component's place on its breadboard and
/// the output's place among the component's outputs.
#[derive(Debug, Clone, Copy, PartialEq, Eq, Structural)]
pub struct LineInner {
    pub component_index: usize,
    pub output_index: usize,
}

/// A kind of value that a wire carries.
pub trait LineValue: Sealed {

}

/// A number.
pub struct BNumber;

impl Sealed for BNumber {

}

impl LineValue for BNumber {

}

/// A vector of three numbers.
pub struct BVector3;

impl Sealed for BVector3 {

}

impl LineValue for BVector3 {

}

/// A rotation.
pub struct BQuaternion;

impl Sealed for BQuaternion {

}

impl LineValue for BQuaternion {

}

/// A text.
pub struct BString;

impl Sealed for BString {

}

impl LineValue for BString {

}

/// A handle to an output that carries values of kind `T`. It names the
/// breadboard that gave it out, and only that breadboard takes it back.
pub struct Line<T: LineValue> {
    inner: LineInner,
    breadboard: Guid,
    _marker: PhantomData<T>,
}

impl<T: LineValue> Line<T> {
    /// The output that the handle names.
    pub closed spec fn inner(&self) -> LineInner {
        self.inner
    }

    /// The identity of the breadboard that gave the handle out.
    pub closed spec fn owner(&self) -> Guid {
        self.breadboard
    }

    pub(crate) fn new(breadboard: Guid, component_index: usize, output_index: usize) -> (line: Self)
        ensures
            line.owner() == breadboard,
            line.inner() == (LineInner { component_index, output_index }),
    {
        Line {
            inner: LineInner { component_index, output_index },
            breadboard,
            _marker: PhantomData,
        }
    }

    /// The output that the handle names.
    pub fn address(&self) -> (inner: LineInner)
        ensures
            inner == self.inner(),
    {
        self.inner
    }

    /// The identity of the breadboard that gave the handle out.
    pub fn breadboard_identity(&self) -> (owner: Guid)
        ensures
            owner == self.owner(),
    {
        self.breadboard
    }
}

impl<T: LineValue> Clone for Line<T> {
    fn clone(&self) -> (line: Self)
        ensures
            line.inner() == self.inner(),
            line.owner() == self.owner(),
    {
        Line { inner: self.inner, breadboard: self.breadboard, _marker: PhantomData }
    }
}

impl<T: LineValue> Copy for Line<T> {

}

/// The outputs that a sequence of handles names, in order.
pub open spec fn addresses<T: LineValue>(lines: Seq<Line<T>>) -> Seq<LineInner> {
    Seq::new(lines.len(), |i: int| lines[i].inner())
}

/// One or more handles of one kind, handed to a component as its inputs.
pub trait InputGroup<T: LineValue> {
    /// The handles of the group, in order.
    spec fn lines(&self) -> Seq<Line<T>>;

    /// The handles of the group, in order.
    fn iter_inputs(&self) -> (lines: Vec<Line<T>>)
        ensures
            lines@.len() == self.lines().len(),
            forall|i: int|
                0 <= i < lines@.len() ==> (#[trigger] lines@[i]).inner() == self.lines()[i].inner()
                    && lines@[i].owner() == self.lines()[i].owner(),
    ;

    /// The outputs that the handles of the group name, in order.
    fn as_vec(&self) -> (inputs: Vec<LineInner>)
        ensures
            inputs@ == addresses(self.lines()),
    {
        let lines = self.iter_inputs();
        let mut inputs: Vec<LineInner> = Vec::new();
        let mut i: usize = 0;
        while i < lines.len()
            invariant
                i <= lines@.len(),
                lines@.len() == self.lines().len(),
                forall|k: int|
                    0 <= k < lines@.len() ==> (#[trigger] lines@[k]).inner()
                        == self.lines()[k].inner(),
                inputs@.len() == i,
                forall|k: int| 0 <= k < i ==> inputs@[k] == self.lines()[k].inner(),
            decreases lines@.len() - i,
        {
            inputs.push(lines[i].address());
            i += 1;
        }
        assert(inputs@ =~= addresses(self.lines()));
        inputs
    }
}

impl<T: LineValue> InputGroup<T> for Line<T> {
    open spec fn lines(&self) -> Seq<Line<T>> {
        seq![*self]
    }

    fn iter_inputs(&self) -> (lines: Vec<Line<T>>) {
        let mut lines: Vec<Line<T>> = Vec::new();
        lines.push(*self);
        lines
    }
}

impl<T: LineValue> InputGroup<T> for (Line<T>,) {
    open spec fn lines(&self) -> Seq<Line<T>> {
        seq![self.0]
    }

    fn iter_inputs(&self) -> (lines: Vec<Line<T>>) {
        let mut lines: Vec<Line<T>> = Vec::new();
        lines.push(self.0);
        lines
    }
}

impl<T: LineValue> InputGroup<T> for (Line<T>, Line<T>) {
    open spec fn lines(&self) -> Seq<Line<T>> {
        seq![self.0, self.1]
    }

    fn iter_inputs(&self) -> (lines: Vec<Line<T>>) {
        let mut lines: Vec<Line<T>> = Vec::new();
        lines.push(self.0);
        lines.push(self.1);
        lines
    }
}

impl<T: LineValue> InputGroup<T> for (Line<T>, Line<T>, Line<T>) {
    open spec fn lines(&self) -> Seq<Line<T>> {
        seq![self.0, self.1, self.2]
    }

    fn iter_inputs(&self) -> (lines: Vec<Line<T>>) {
        let mut lines: Vec<Line<T>> = Vec::new();
        lines.push(self.0);
        lines.push(self.1);
        lines.push(self.2);
        lines
    }
}

impl<T: LineValue> InputGroup<T> for (Line<T>, Line<T>, Line<T>, Line<T>) {
    open spec fn lines(&self) -> Seq<Line<T>> {
        seq![self.0, self.1, self.2, self.3]
    }

    fn iter_inputs(&self) -> (lines: Vec<Line<T>>) {
        let mut lines: Vec<Line<T>> = Vec::new();
        lines.push(self.0);
        lines.push(self.1);
        lines.push(self.2);
        lines.push(self.3);
        lines
    }
}

impl<T: LineValue> InputGroup<T> for (Line<T>, Line<T>, Line<T>, Line<T>, Line<T>) {
    open spec fn lines(&self) -> Seq<Line<T>> {
        seq![self.0, self.1, self.2, self.3, self.4]
    }

    fn iter_inputs(&self) -> (lines: Vec<Line<T>>) {
        let mut lines: Vec<Line<T>> = Vec::new();
        lines.push(self.0);
        lines.push(self.1);
        lines.push(self.2);
        lines.push(self.3);
        lines.push(self.4);
        lines
    }
}

impl<T: LineValue> InputGroup<T> for Vec<Line<T>> {
    open spec fn lines(&self) -> Seq<Line<T>> {
        self@
    }

    fn iter_inputs(&self) -> (lines: Vec<Line<T>>) {
        let mut lines: Vec<Line<T>> = Vec::new();
        let mut i: usize = 0;
        while i < self.len()
            invariant
                i <= self@.len(),
                lines@ == self@.take(i as int),
            decreases self@.len() - i,
        {
            lines.push(self[i]);
            assert(self@.take(i + 1) =~= self@.take(i as int).push(self@[i as int]));
            i += 1;
        }
        assert(self@.take(i as int) =~= self@);
        lines
    }
}

} // verus!
