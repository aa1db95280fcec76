//! Path items: the operations available on one path.
use crate::schema::info::Server;
use crate::schema::operation::Operation;
use crate::schema::parameter::ParameterOrReference;
use crate::schema::SRef;
use crate::typing::TaggedString;
use vstd::prelude::*;

verus! {

#[derive(Debug)]
pub struct PathItem {
    pub sref: Option<SRef>,
    pub summary: Option<Summary>,
    pub get: Option<Operation>,
    pub put: Option<Operation>,
    pub post: Option<Operation>,
    pub delete: Option<Operation>,
    pub options: Option<Operation>,
    pub head: Option<Operation>,
    pub patch: Option<Operation>,
    pub trace: Option<Operation>,
    pub servers: Option<Vec<Server>>,
    pub parameters: Option<Vec<ParameterOrReference>>,
}

#[derive(Debug)]
pub enum SummaryTag {
    Marker,
}

pub type Summary = TaggedString<SummaryTag>;

#[derive(Debug)]
pub enum DescriptionTag {
    Marker,
}

pub type Description = TaggedString<DescriptionTag>;

/// The HTTP method of an operation, in the order path items list them.
#[derive(Debug, Clone, Copy, PartialEq, Eq)]
pub enum OperationType {
    Get,
    Put,
    Post,
    Delete,
    Options,
    Head,
    Patch,
    Trace,
}

/// The method in slot `i` of a path item.
pub open spec fn op_type_at(i: int) -> OperationType {
    if i == 0 {
        OperationType::Get
    } else if i == 1 {
        OperationType::Put
    } else if i == 2 {
        OperationType::Post
    } else if i == 3 {
        OperationType::Delete
    } else if i == 4 {
        OperationType::Options
    } else if i == 5 {
        OperationType::Head
    } else if i == 6 {
        OperationType::Patch
    } else {
        OperationType::Trace
    }
}

impl PathItem {
    /// The operation in slot `i` (`get` first, `trace` last).
    pub open spec fn slot(&self, i: int) -> Option<&Operation> {
        if i == 0 {
            match &self.get { Some(o) => Some(o), None => None }
        } else if i == 1 {
            match &self.put { Some(o) => Some(o), None => None }
        } else if i == 2 {
            match &self.post { Some(o) => Some(o), None => None }
        } else if i == 3 {
            match &self.delete { Some(o) => Some(o), None => None }
        } else if i == 4 {
            match &self.options { Some(o) => Some(o), None => None }
        } else if i == 5 {
            match &self.head { Some(o) => Some(o), None => None }
        } else if i == 6 {
            match &self.patch { Some(o) => Some(o), None => None }
        } else if i == 7 {
            match &self.trace { Some(o) => Some(o), None => None }
        } else {
            None
        }
    }

    /// The first slot at or after `i` that holds an operation, or 8.
    pub open spec fn next_slot(&self, i: int) -> int
        decreases 8 - i,
    {
        if i >= 8 || i < 0 {
            8
        } else if self.slot(i) is Some {
            i
        } else {
            self.next_slot(i + 1)
        }
    }

    pub fn operation_at(&self, i: usize) -> (r: Option<&Operation>)
        ensures
            r == self.slot(i as int),
    {
        let o = if i == 0 {
            &self.get
        } else if i == 1 {
            &self.put
        } else if i == 2 {
            &self.post
        } else if i == 3 {
            &self.delete
        } else if i == 4 {
            &self.options
        } else if i == 5 {
            &self.head
        } else if i == 6 {
            &self.patch
        } else if i == 7 {
            &self.trace
        } else {
            return None;
        };
        match o {
            Some(x) => Some(x),
            None => None,
        }
    }

    pub fn operations_iter(&self) -> (r: OperationIter<'_>)
        ensures
            r.path_item == self,
            r.pos == 0,
    {
        OperationIter { path_item: self, pos: 0 }
    }
}

/// Walks the operations of a path item in slot order.
pub struct OperationIter<'a> {
    pub path_item: &'a PathItem,
    pub pos: usize,
}

pub fn op_type_of(i: usize) -> (r: OperationType)
    ensures
        r == op_type_at(i as int),
{
    if i == 0 {
        OperationType::Get
    } else if i == 1 {
        OperationType::Put
    } else if i == 2 {
        OperationType::Post
    } else if i == 3 {
        OperationType::Delete
    } else if i == 4 {
        OperationType::Options
    } else if i == 5 {
        OperationType::Head
    } else if i == 6 {
        OperationType::Patch
    } else {
        OperationType::Trace
    }
}

impl<'a> OperationIter<'a> {
    /// The next operation present, with its method.
    pub fn next(&mut self) -> (r: Option<(OperationType, &'a crate::schema::operation::Operation)>)
        ensures
            final(self).path_item == old(self).path_item,
            ({
                let j = old(self).path_item.next_slot(old(self).pos as int);
                if j >= 8 {
                    r is None && final(self).pos == 8
                } else {
                    r == Some((op_type_at(j), old(self).path_item.slot(j)->Some_0)) && final(self).pos == j + 1
                }
            }),
    {
        let item = self.path_item;
        let mut i = self.pos;
        if i > 8 {
            i = 8;
        }
        while i < 8
            invariant
                item == self.path_item,
                self.path_item == old(self).path_item,
                i <= 8,
                item.next_slot(old(self).pos as int) == item.next_slot(i as int),
            decreases 8 - i,
        {
            match item.operation_at(i) {
                Some(o) => {
                    self.pos = i + 1;
                    return Some((op_type_of(i), o));
                },
                None => {},
            }
            i = i + 1;
        }
        self.pos = 8;
        None
    }
}

} // verus!
