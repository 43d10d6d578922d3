//! Source paths as an attribute holds them.

use vstd::prelude::*;

verus! {

/// A path relative to the package that a target is defined in.
#[derive(Debug, Clone, PartialEq, Eq, Hash)]
pub struct PackageRelativePath(pub String);

impl View for PackageRelativePath {
    type V = Seq<char>;

    open spec fn view(&self) -> Seq<char> {
        self.0@
    }
}

/// A directory, with the files found below it.
#[derive(Debug, Clone, PartialEq, Eq, Hash)]
pub struct CoercedDirectory {
    pub dir: Box<PackageRelativePath>,
    pub files: Vec<Box<PackageRelativePath>>,
}

/// A source path: a single file, or a directory with its files.
#[derive(Debug, Clone, PartialEq, Eq, Hash)]
pub enum CoercedPath {
    File(Box<PackageRelativePath>),
    Directory(Box<CoercedDirectory>),
}

impl CoercedPath {
    /// The path as it was written.
    pub open spec fn spec_path(&self) -> PackageRelativePath {
        match self {
            CoercedPath::File(x) => **x,
            CoercedPath::Directory(x) => *x.dir,
        }
    }

    /// The files that the path stands for: the file itself, or the files of
    /// the directory.
    pub open spec fn spec_inputs(&self) -> Seq<PackageRelativePath> {
        match self {
            CoercedPath::File(x) => seq![**x],
            CoercedPath::Directory(x) => Seq::new(x.files@.len(), |i: int| *x.files@[i]),
        }
    }

    /// The path as it was written: the file, or the directory itself.
    pub fn path(&self) -> (path: &PackageRelativePath)
        ensures
            *path == self.spec_path(),
    {
        match self {
            CoercedPath::File(x) => x,
            CoercedPath::Directory(x) => &x.dir,
        }
    }

    /// The files that the path stands for, in order.
    pub fn inputs(&self) -> (inputs: Vec<&PackageRelativePath>)
        ensures
            inputs@.len() == self.spec_inputs().len(),
            forall|i: int| 0 <= i < inputs@.len() ==> *inputs@[i] == self.spec_inputs()[i],
    {
        match self {
            CoercedPath::File(x) => {
                let mut inputs: Vec<&PackageRelativePath> = Vec::new();
                inputs.push(x);
                inputs
            },
            CoercedPath::Directory(x) => {
                let mut inputs: Vec<&PackageRelativePath> = Vec::new();
                let mut i: usize = 0;
                while i < x.files.len()
                    invariant
                        i <= x.files@.len(),
                        inputs@.len() == i,
                        forall|j: int| 0 <= j < i ==> *inputs@[j] == *x.files@[j],
                    decreases x.files@.len() - i,
                {
                    inputs.push(&x.files[i]);
                    i = i + 1;
                }
                inputs
            },
        }
    }
}

} // verus!
