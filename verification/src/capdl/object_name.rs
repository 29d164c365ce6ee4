use vstd::prelude::*;

use crate::capdl::spec::NamedObject;
use crate::capdl::spec::Object;

verus! {

/// Something that may give an object its name.
pub trait ObjectName {
    /// The name, if there is one.
    spec fn spec_object_name(&self) -> Option<Seq<char>>;

    fn object_name(&self) -> (r: Option<&str>)
        ensures
            match r {
                Some(name) => self.spec_object_name() == Some(name@),
                None => self.spec_object_name().is_none(),
            },
    ;
}

impl ObjectName for &str {
    open spec fn spec_object_name(&self) -> Option<Seq<char>> {
        Some(self@)
    }

    fn object_name(&self) -> (r: Option<&str>)
        ensures
            r == Some(*self),
    {
        Some(*self)
    }
}

impl ObjectName for String {
    open spec fn spec_object_name(&self) -> Option<Seq<char>> {
        Some(self@)
    }

    fn object_name(&self) -> (r: Option<&str>)
        ensures
            r matches Some(s) && s@ == self@,
    {
        Some(self.as_str())
    }
}

impl<T: ObjectName> ObjectName for Option<T> {
    open spec fn spec_object_name(&self) -> Option<Seq<char>> {
        match self {
            Some(name) => name.spec_object_name(),
            None => None,
        }
    }

    fn object_name(&self) -> (r: Option<&str>) {
        match self {
            Some(name) => name.object_name(),
            None => None,
        }
    }
}

/// The name of an object that has none.
#[derive(Debug, Clone, Copy, PartialEq, Eq, Structural)]
pub struct Unnamed;

impl ObjectName for Unnamed {
    open spec fn spec_object_name(&self) -> Option<Seq<char>> {
        None
    }

    fn object_name(&self) -> (r: Option<&str>) {
        None
    }
}

/// Which objects keep their names.
#[derive(Debug, Clone, Copy, PartialEq, Eq, Structural)]
pub enum ObjectNamesLevel {
    /// Every object keeps its name.
    All,
    /// Only thread control blocks keep their names.
    JustTcbs,
    /// No object keeps its name.
    NoNames,
}

impl ObjectNamesLevel {
    /// Whether an object keeps its name at this level.
    pub open spec fn keeps<D, M>(&self, object: Object<D, M>) -> bool {
        match self {
            ObjectNamesLevel::All => true,
            ObjectNamesLevel::JustTcbs => object is Tcb,
            ObjectNamesLevel::NoNames => false,
        }
    }

    /// The name of `named_obj`, if the object keeps it at this level.
    pub fn apply<'a, N, D, M>(&self, named_obj: &'a NamedObject<N, D, M>) -> (r: Option<&'a N>)
        ensures
            self.keeps(named_obj.object) ==> r == Some(&named_obj.name),
            !self.keeps(named_obj.object) ==> r.is_none(),
    {
        match self {
            ObjectNamesLevel::All => Some(&named_obj.name),
            ObjectNamesLevel::JustTcbs => match &named_obj.object {
                Object::Tcb(_) => Some(&named_obj.name),
                _ => None,
            },
            ObjectNamesLevel::NoNames => None,
        }
    }
}

} // verus!
