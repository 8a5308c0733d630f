use vstd::prelude::*;

verus! {

/// Which kind of parent a reference is nested under.
#[derive(Clone, Copy, Debug, PartialEq, Eq, Structural)]
pub enum LocationKind {
    Class,
    Database,
    Index,
    Function,
}

/// The model of a [`Ref`]: an id, and for a nested reference the kind and
/// the model of its parent.
pub enum RefV {
    Root(Seq<char>),
    Nested(Seq<char>, LocationKind, Box<RefV>),
}

/// The parent of a nested reference.
#[derive(Debug)]
pub enum RefLocation {
    Class { location: Box<Ref> },
    Database { location: Box<Ref> },
    Index { location: Box<Ref> },
    Function { location: Box<Ref> },
}

/// Denotes a resource ref: an id, optionally nested under another reference.
#[derive(Debug)]
pub struct Ref {
    pub id: String,
    pub location: Option<RefLocation>,
}

impl RefLocation {
    pub open spec fn kind(&self) -> LocationKind {
        match self {
            RefLocation::Class { .. } => LocationKind::Class,
            RefLocation::Database { .. } => LocationKind::Database,
            RefLocation::Index { .. } => LocationKind::Index,
            RefLocation::Function { .. } => LocationKind::Function,
        }
    }

    pub open spec fn parent(&self) -> &Ref {
        match self {
            RefLocation::Class { location } => &**location,
            RefLocation::Database { location } => &**location,
            RefLocation::Index { location } => &**location,
            RefLocation::Function { location } => &**location,
        }
    }

    /// The reference this location points at.
    pub fn location(&self) -> (r: &Ref)
        ensures
            r == self.parent(),
    {
        match self {
            RefLocation::Class { location } => &**location,
            RefLocation::Database { location } => &**location,
            RefLocation::Index { location } => &**location,
            RefLocation::Function { location } => &**location,
        }
    }

    /// The path of the reference this location points at.
    pub fn path(&self) -> (r: String)
        ensures
            r@ == path_of(self.parent()@),
        decreases self, 0nat,
    {
        self.location().path()
    }

    /// A location of the given kind under `parent`.
    pub fn new(kind: LocationKind, parent: Ref) -> (r: RefLocation)
        ensures
            r.kind() == kind,
            *r.parent() == parent,
    {
        let location = Box::new(parent);
        match kind {
            LocationKind::Class => RefLocation::Class { location },
            LocationKind::Database => RefLocation::Database { location },
            LocationKind::Index => RefLocation::Index { location },
            LocationKind::Function => RefLocation::Function { location },
        }
    }
}

/// The model of a reference.
pub open spec fn ref_view(r: &Ref) -> RefV
    decreases r,
{
    match &r.location {
        None => RefV::Root(r.id@),
        Some(loc) => match loc {
            RefLocation::Class { location } => RefV::Nested(r.id@, LocationKind::Class, Box::new(ref_view(location))),
            RefLocation::Database { location } => RefV::Nested(r.id@, LocationKind::Database, Box::new(ref_view(location))),
            RefLocation::Index { location } => RefV::Nested(r.id@, LocationKind::Index, Box::new(ref_view(location))),
            RefLocation::Function { location } => RefV::Nested(r.id@, LocationKind::Function, Box::new(ref_view(location))),
        },
    }
}

impl Clone for Ref {
    fn clone(&self) -> (r: Ref)
        ensures
            r@ == self@,
        decreases self,
    {
        let location = match &self.location {
            None => None,
            Some(RefLocation::Class { location }) => Some(RefLocation::Class { location: Box::new((**location).clone()) }),
            Some(RefLocation::Database { location }) => Some(RefLocation::Database { location: Box::new((**location).clone()) }),
            Some(RefLocation::Index { location }) => Some(RefLocation::Index { location: Box::new((**location).clone()) }),
            Some(RefLocation::Function { location }) => Some(RefLocation::Function { location: Box::new((**location).clone()) }),
        };
        Ref { id: self.id.clone(), location }
    }
}

impl View for Ref {
    type V = RefV;

    open spec fn view(&self) -> RefV {
        ref_view(self)
    }
}

/// The id of a reference model.
pub open spec fn id_of(r: RefV) -> Seq<char> {
    match r {
        RefV::Root(id) => id,
        RefV::Nested(id, _, _) => id,
    }
}

/// The fully qualified path of a reference: the parent's path, a slash and
/// the id; a reference without a parent is its id alone.
pub open spec fn path_of(r: RefV) -> Seq<char>
    decreases r,
{
    match r {
        RefV::Root(id) => id,
        RefV::Nested(id, _, parent) => path_of(*parent) + seq!['/'] + id,
    }
}

/// The model of a reference under one of the four root collections.
pub open spec fn rooted(id: Seq<char>, kind: LocationKind, root: &str) -> RefV {
    RefV::Nested(id, kind, Box::new(RefV::Root(root@)))
}

/// The label under which a parent of the given kind is shown.
pub open spec fn display_label(kind: LocationKind) -> Seq<char> {
    match kind {
        LocationKind::Index => ",index="@,
        LocationKind::Database => ",database="@,
        _ => ",class="@,
    }
}

/// The text of a reference: its id, and its parent's path under a label.
pub open spec fn display_of(r: RefV) -> Seq<char> {
    match r {
        RefV::Root(id) => "Ref(id="@ + id + ")"@,
        RefV::Nested(id, kind, parent) => "Ref(id="@ + id + display_label(kind) + path_of(*parent) + ")"@,
    }
}

/// The model of `r` moved under `parent`, keeping its id.
pub open spec fn nested_under(r: RefV, kind: LocationKind, parent: RefV) -> RefV {
    RefV::Nested(id_of(r), kind, Box::new(parent))
}

impl Ref {
    /// A ref to a singleton instance.
    pub fn instance(id: &str) -> (r: Ref)
        ensures
            r@ == RefV::Root(id@),
    {
        Ref { id: id.to_owned(), location: None }
    }

    fn rooted(id: &str, kind: LocationKind, root: &str) -> (r: Ref)
        ensures
            r@ == rooted(id@, kind, root),
    {
        Ref { id: id.to_owned(), location: Some(RefLocation::new(kind, Ref::instance(root))) }
    }

    /// A ref to a class.
    pub fn class(id: &str) -> (r: Ref)
        ensures
            r@ == rooted(id@, LocationKind::Class, "classes"),
    {
        Ref::rooted(id, LocationKind::Class, "classes")
    }

    /// A ref to an index.
    pub fn index(id: &str) -> (r: Ref)
        ensures
            r@ == rooted(id@, LocationKind::Index, "indexes"),
    {
        Ref::rooted(id, LocationKind::Index, "indexes")
    }

    /// A ref to a function.
    pub fn function(id: &str) -> (r: Ref)
        ensures
            r@ == rooted(id@, LocationKind::Function, "functions"),
    {
        Ref::rooted(id, LocationKind::Function, "functions")
    }

    /// A ref to a database.
    pub fn database(id: &str) -> (r: Ref)
        ensures
            r@ == rooted(id@, LocationKind::Database, "databases"),
    {
        Ref::rooted(id, LocationKind::Database, "databases")
    }

    /// Set the class for the ref: it is then nested under the class `id`.
    pub fn set_class(&mut self, id: &str) -> (r: &mut Self)
        ensures
            (*r)@ == nested_under(old(self)@, LocationKind::Class, rooted(id@, LocationKind::Class, "classes")),
            *final(self) == *final(r),
    {
        self.location = Some(RefLocation::new(LocationKind::Class, Ref::class(id)));
        self
    }

    /// Set the index for the ref: it is then nested under the index `id`.
    pub fn set_index(&mut self, id: &str) -> (r: &mut Self)
        ensures
            (*r)@ == nested_under(old(self)@, LocationKind::Index, rooted(id@, LocationKind::Index, "indexes")),
            *final(self) == *final(r),
    {
        self.location = Some(RefLocation::new(LocationKind::Index, Ref::index(id)));
        self
    }

    /// The reference as text: `Ref(id=...)`, with the path of its parent
    /// under the parent's kind (`class`, `index` or `database`; a function
    /// reference names its parent `class`).
    pub fn to_display(&self) -> (r: String)
        ensures
            r@ == display_of(self@),
    {
        let mut s = "Ref(id=".to_owned();
        s.append(self.id.as_str());
        match &self.location {
            Some(location) => {
                let label = match location {
                    RefLocation::Index { .. } => ",index=",
                    RefLocation::Database { .. } => ",database=",
                    _ => ",class=",
                };
                s.append(label);
                s.append(location.path().as_str());
            },
            None => {},
        }
        s.append(")");
        s
    }

    /// Gets the fully qualified path.
    pub fn path(&self) -> (r: String)
        ensures
            r@ == path_of(self@),
        decreases self, 1nat,
    {
        match &self.location {
            Some(location) => {
                let mut p = location.path();
                p.append("/");
                p.append(self.id.as_str());
                proof {
                    reveal_strlit("/");
                }
                p
            },
            None => self.id.clone(),
        }
    }
}

} // verus!
