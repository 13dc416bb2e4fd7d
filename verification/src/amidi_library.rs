//! Loading the native image and resolving its entry points.

use vstd::prelude::*;

use std::sync::Arc;

use crate::entry_point::{EntryPoint, ENTRY_POINT_COUNT};
use crate::symbol_table::SymbolTable;

verus! {

/// Relies on std's `Arc::clone`: the clone is a new reference to the
/// same allocation, so it carries the very value the original points
/// to.
#[verifier::external_body]
pub(crate) fn share_library(lib: &Arc<AmidiLibrary>) -> (r: Arc<AmidiLibrary>)
    ensures
        r == *lib,
{
    Arc::clone(lib)
}

/// What the platform loader reported when asked to open the native
/// image and look up the fourteen entry points.
#[derive(PartialEq, Eq, Debug)]
pub enum ImageResolution {
    /// The image could not be opened; carries the loader's message.
    OpenFailed(String),
    /// The image was opened under the given non-zero image handle.
    /// `symbols` holds one lookup result per entry point, in resolution
    /// order; address zero records that the name was absent.
    Opened { image: u64, symbols: Vec<u64> },
}

/// Why a library failed to load.
#[derive(PartialEq, Eq, Debug)]
pub enum LoadError {
    /// No path to the image was supplied to the builder.
    MissingPath,
    /// The platform loader could not open the image; carries the
    /// loader's message.
    OpenFailed(String),
    /// The named entry point was absent from the image.
    MissingSymbol(EntryPoint),
}

/// The loaded native image: its image handle plus the resolved address
/// of every entry point.  A value exists only when all fourteen entry
/// points resolved.  It is handed out behind `Arc`, shared by every
/// device and port created from it, so the image outlives each of them
/// and none of the resolved addresses can outlive the image.
#[derive(Clone, Copy, PartialEq, Eq, Structural, Debug)]
pub struct AmidiLibrary {
    /// The handle under which the image was mapped.
    pub image: u64,
    /// The resolved entry points.
    pub table: SymbolTable,
}

/// Builder for [`AmidiLibrary`]: collects the path of the native image,
/// then checks the loader's report for it.
#[derive(PartialEq, Eq, Debug)]
pub struct AmidiLibraryBuilder {
    path: Option<String>,
}

impl AmidiLibrary {
    /// Creates a builder for the library.  Typically only the image
    /// path needs to be set.
    pub fn builder() -> (b: AmidiLibraryBuilder)
        ensures
            b.spec_path() is None,
    {
        AmidiLibraryBuilder { path: None }
    }
}

impl AmidiLibraryBuilder {
    /// The path supplied so far.
    pub closed spec fn spec_path(self) -> Option<Seq<char>> {
        match self.path {
            Some(p) => Some(p@),
            None => None,
        }
    }

    /// Required path to the native image.
    pub fn path(self, path: &str) -> (b: Self)
        ensures
            b.spec_path() == Some(path@),
    {
        AmidiLibraryBuilder { path: Some(path.to_string()) }
    }

    /// The path supplied so far, for whoever asks the platform loader
    /// to open the image.
    pub fn path_supplied(&self) -> (p: &Option<String>)
        ensures
            match p {
                Some(s) => self.spec_path() == Some(s@),
                None => self.spec_path() is None,
            },
    {
        &self.path
    }

    /// Build the library from the platform loader's report for the
    /// supplied path.  Fails when no path was supplied, when the image
    /// could not be opened, or when any entry point was absent — naming
    /// the first absent one.  On success every entry point resolved, and
    /// the returned binding carries all fourteen addresses; no partial
    /// binding is ever returned.
    pub fn build(&self, resolution: &ImageResolution) -> (r: Result<Arc<AmidiLibrary>, LoadError>)
        requires
            resolution matches ImageResolution::Opened { symbols, .. } ==> symbols@.len()
                == ENTRY_POINT_COUNT,
        ensures
            match r {
                Ok(lib) => {
                    &&& self.spec_path() is Some
                    &&& resolution matches ImageResolution::Opened { image, symbols } && {
                        &&& lib.image == image
                        &&& forall|e: EntryPoint| lib.table.addr_of(e) == symbols@[e.index()]
                        &&& forall|i: int| 0 <= i < ENTRY_POINT_COUNT ==> symbols@[i] != 0
                    }
                    &&& lib.table.fully_resolved()
                },
                Err(e) => match e {
                    LoadError::MissingPath => self.spec_path() is None,
                    LoadError::OpenFailed(msg) => {
                        &&& self.spec_path() is Some
                        &&& resolution matches ImageResolution::OpenFailed(cause) && msg@ == cause@
                    },
                    LoadError::MissingSymbol(missing) => {
                        &&& self.spec_path() is Some
                        &&& resolution matches ImageResolution::Opened { symbols, .. } && {
                            &&& symbols@[missing.index()] == 0
                            &&& forall|i: int| 0 <= i < missing.index() ==> symbols@[i] != 0
                        }
                    },
                },
            },
    {
        if self.path.is_none() {
            return Err(LoadError::MissingPath);
        }
        match resolution {
            ImageResolution::OpenFailed(cause) => Err(LoadError::OpenFailed(cause.clone())),
            ImageResolution::Opened { image, symbols } => match SymbolTable::resolve(symbols) {
                Ok(table) => Ok(Arc::new(AmidiLibrary { image: *image, table })),
                Err(missing) => Err(LoadError::MissingSymbol(missing)),
            },
        }
    }
}

} // verus!
