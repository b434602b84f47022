use std::any::TypeId;

use bevy::reflect::TypeRegistry;
use game_editor::{GameLibrary, UnloadError};
use libloading::Library;

fn this_program() -> Library {
    Library::from(libloading::os::unix::Library::this())
}

fn registry_of<T: bevy::reflect::GetTypeRegistration>() -> TypeRegistry {
    let mut registry = TypeRegistry::empty();
    registry.register::<T>();
    registry
}

#[test]
fn new_library_is_empty() {
    let library = GameLibrary::new();
    assert!(!library.is_loaded());
    assert!(library.registry().is_none());
}

#[test]
fn default_library_is_empty() {
    let library = GameLibrary::default();
    assert!(!library.is_loaded());
    assert!(library.registry().is_none());
}

#[test]
fn unload_with_nothing_loaded_succeeds() {
    let mut library = GameLibrary::new();
    assert!(matches!(library.unload_lib(), Ok(())));
    assert!(!library.is_loaded());
    assert!(library.registry().is_none());
}

#[test]
fn get_apply_with_nothing_loaded_skips_lookup() {
    let library = GameLibrary::new();
    let found: Option<u32> = library.get_apply(|_| panic!("no library to look in"));
    assert!(found.is_none());
}

#[test]
fn load_keeps_library_and_its_registry() {
    let mut library = GameLibrary::new();
    library.load_lib(|| (this_program(), registry_of::<u32>()));
    assert!(library.is_loaded());
    let registry = library.registry().unwrap();
    assert!(registry.contains(TypeId::of::<u32>()));
    assert!(!registry.contains(TypeId::of::<u64>()));
}

#[test]
fn get_apply_with_library_loaded_runs_lookup() {
    let mut library = GameLibrary::new();
    library.load_lib(|| (this_program(), TypeRegistry::empty()));
    assert_eq!(library.get_apply(|_| 42u32), Some(42));
}

#[test]
fn reload_replaces_registry() {
    let mut library = GameLibrary::new();
    library.load_lib(|| (this_program(), registry_of::<u32>()));
    library.load_lib(|| (this_program(), registry_of::<u64>()));
    assert!(library.is_loaded());
    let registry = library.registry().unwrap();
    assert!(registry.contains(TypeId::of::<u64>()));
    assert!(!registry.contains(TypeId::of::<u32>()));
}

#[test]
fn unload_after_load_clears_both() {
    let mut library = GameLibrary::new();
    library.load_lib(|| (this_program(), registry_of::<bool>()));
    let result = library.unload_lib();
    assert!(!matches!(result, Err(UnloadError::CloseFailed(_))));
    assert!(!library.is_loaded());
    assert!(library.registry().is_none());
    assert!(library.get_apply(|_| 1u8).is_none());
}
