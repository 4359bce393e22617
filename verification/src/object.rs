//! Objects of the host, and the handles that own them.

use vstd::prelude::*;
use crate::messages::Logger;

verus! {

/// An object of the host.
#[derive(Clone, Copy, Debug, PartialEq, Eq, Structural)]
pub struct Object {
    pub logger: Option<Logger>,
    pub no_interact: bool,
    pub force: bool,
}

impl Object {
    /// The logging sink of the object, if it has one.
    pub fn logger(&self) -> (r: Option<&Logger>)
        ensures
            match r {
                Some(logger) => self.logger == Some(*logger),
                None => self.logger is None,
            },
    {
        self.logger.as_ref()
    }
}

/// The owner of an object that the host created.
///
/// A handle borrows the object's parent for as long as it lives: the parent
/// cannot be released before the child.  Releasing takes the handle by
/// value, so that an object is released once.
#[derive(Debug)]
pub struct ObjectHandle<'a> {
    obj: Object,
    parent: Option<&'a Object>,
}

impl<'a> ObjectHandle<'a> {
    /// The object that the handle owns.
    pub closed spec fn spec_object(&self) -> Object {
        self.obj
    }

    /// The parent under which the object was created.
    pub closed spec fn spec_parent(&self) -> Option<&'a Object> {
        self.parent
    }

    /// Takes ownership of the object that the host created under `parent`.
    /// Where the host could not create one, there is no handle.
    pub fn new(parent: Option<&'a Object>, created: Option<Object>) -> (r: Option<
        ObjectHandle<'a>,
    >)
        ensures
            r is Some <==> created is Some,
            r matches Some(handle) ==> handle.spec_object() == created->0 && handle.spec_parent()
                == parent,
    {
        match created {
            Some(obj) => Some(ObjectHandle { obj, parent }),
            None => None,
        }
    }

    /// The object.
    pub fn deref(&self) -> (obj: &Object)
        ensures
            *obj == self.spec_object(),
    {
        &self.obj
    }

    /// The object, to change it.
    pub fn deref_mut(&mut self) -> (obj: &mut Object)
        ensures
            *obj == old(self).spec_object(),
            final(self).spec_object() == *final(obj),
            final(self).spec_parent() == old(self).spec_parent(),
    {
        &mut self.obj
    }

    /// The parent under which the object was created.
    pub fn parent(&self) -> (parent: Option<&'a Object>)
        ensures
            parent == self.spec_parent(),
    {
        self.parent
    }

    /// Gives the handle up and hands back the object, for the host to
    /// delete it.
    pub fn release(self) -> (obj: Object)
        ensures
            obj == self.spec_object(),
    {
        self.obj
    }
}

} // verus!
