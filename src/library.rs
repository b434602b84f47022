use bevy::reflect::TypeRegistry;
use libloading::Library;
use vstd::prelude::*;

verus! {

#[verifier::external_type_specification]
#[verifier::external_body]
pub struct ExLibrary(libloading::Library);

#[verifier::external_type_specification]
#[verifier::external_body]
pub struct ExLibraryError(libloading::Error);

#[verifier::external_type_specification]
#[verifier::external_body]
pub struct ExTypeRegistry(bevy::reflect::TypeRegistry);

/// Why unloading the game library did not go cleanly.
pub enum UnloadError {
    /// The platform loader reported an error while closing the library.
    CloseFailed(libloading::Error),
}

/// The loaded game library, and the type registry that it filled while loaded.
///
/// This registry is kept apart from the application's global registry because it
/// is cleared and rebuilt whenever the library is unloaded or reloaded.
pub struct GameLibrary {
    library: Option<Library>,
    registry: Option<TypeRegistry>,
}

impl GameLibrary {
    /// The registry holds type information whose code and vtables live inside the
    /// library, so it is only ever held while that library is loaded.
    #[verifier::type_invariant]
    spec fn registry_within_library(self) -> bool {
        self.registry is Some ==> self.library is Some
    }

    /// The library handle currently held, if any.
    pub closed spec fn library_spec(self) -> Option<Library> {
        self.library
    }

    /// The registry currently held, if any.
    pub closed spec fn registry_spec(self) -> Option<TypeRegistry> {
        self.registry
    }

    /// Nothing loaded, no registry.
    pub fn new() -> (r: GameLibrary)
        ensures
            r.library_spec() is None,
            r.registry_spec() is None,
    {
        GameLibrary { library: None, registry: None }
    }

    /// Whether the game library is currently loaded.
    pub fn is_loaded(&self) -> (r: bool)
        ensures
            r == self.library_spec() is Some,
    {
        self.library.is_some()
    }

    /// The registry that the loaded library filled, if any.
    pub fn registry(&self) -> (r: Option<&TypeRegistry>)
        ensures
            r is Some == self.registry_spec() is Some,
            r is Some ==> *r->0 == self.registry_spec()->0,
    {
        self.registry.as_ref()
    }

    /// Closes the held library, if any. Only reachable once the registry is gone.
    fn close_held(self) -> (r: Result<(), UnloadError>)
        requires
            self.registry_spec() is None,
        ensures
            self.library_spec() is None ==> r is Ok,
    {
        let GameLibrary { library, registry: _ } = self;
        match library {
            Some(library) => match close_library(library) {
                Ok(()) => Ok(()),
                Err(e) => Err(UnloadError::CloseFailed(e)),
            },
            None => Ok(()),
        }
    }

    /// Drops the registry, then closes the library.
    ///
    /// The registry goes first: dropping it runs code that lives inside the library.
    /// Only a failed close is reported; with nothing loaded this always succeeds.
    pub fn unload_lib(&mut self) -> (r: Result<(), UnloadError>)
        ensures
            final(self).library_spec() is None,
            final(self).registry_spec() is None,
            old(self).library_spec() is None ==> r is Ok,
    {
        self.registry = None;
        let mut held = GameLibrary::new();
        std::mem::swap(self, &mut held);
        held.close_held()
    }

    /// Loads the game library afresh, with the registry that it filled.
    ///
    /// Whatever was loaded is first unloaded as `unload_lib` does (an error closing it
    /// is ignored), so that opening the file again maps the new build rather than
    /// handing back the old one. `open` then loads the library, resolves its
    /// registration entry point and runs it on an empty registry; both are kept.
    pub fn load_lib<F>(&mut self, open: F)
        where
            F: FnOnce() -> (Library, TypeRegistry),
        requires
            open.requires(()),
        ensures
            final(self).library_spec() is Some,
            final(self).registry_spec() is Some,
            open.ensures((), (final(self).library_spec()->0, final(self).registry_spec()->0)),
    {
        let _ = self.unload_lib();
        let (library, registry) = open();
        let mut loaded = GameLibrary { library: Some(library), registry: Some(registry) };
        std::mem::swap(self, &mut loaded);
    }

    /// Resolves something in the loaded library, most often the entry point that
    /// adds the game's systems to an application; `None` while nothing is loaded.
    /// `lookup` does the symbol resolution on the library handle.
    pub fn get_apply<T, F>(&self, lookup: F) -> (r: Option<T>)
        where
            F: FnOnce(&Library) -> T,
        requires
            self.library_spec() is Some ==> lookup.requires((&self.library_spec()->0,)),
        ensures
            r is Some == self.library_spec() is Some,
            r is Some ==> lookup.ensures((&self.library_spec()->0,), r->0),
    {
        match &self.library {
            Some(library) => Some(lookup(library)),
            None => None,
        }
    }
}

impl Default for GameLibrary {
    fn default() -> (r: GameLibrary)
        ensures
            r.library_spec() is None,
            r.registry_spec() is None,
    {
        GameLibrary::new()
    }
}

/// Relies on libloading::Library::close: it consumes the handle and unloads the
/// library, handing back the platform loader's error if there is one.
#[verifier::external_body]
fn close_library(library: Library) -> (r: Result<(), libloading::Error>) {
    library.close()
}

} // verus!
