//! The interpreter's built-in module resolver and loader, as the collections
//! of paths and sources that the peer table fills.

use rquickjs::loader::BuiltinLoader;
use rquickjs::loader::BuiltinResolver;
use vstd::prelude::*;
use vstd::string::StringSliceAdditionalSpecFns;

verus! {

/// `rquickjs::loader::BuiltinResolver`, the interpreter's resolver over a
/// fixed set of module paths. Nothing is known of a value but what the
/// functions below state.
#[verifier::external_type_specification]
#[verifier::external_body]
pub struct ExBuiltinResolver(rquickjs::loader::BuiltinResolver);

/// `rquickjs::loader::BuiltinLoader`, the interpreter's loader over sources
/// held in memory. Nothing is known of a value but what the functions below
/// state.
#[verifier::external_type_specification]
#[verifier::external_body]
pub struct ExBuiltinLoader(rquickjs::loader::BuiltinLoader);

/// The module paths a resolver accepts as they stand.
pub uninterp spec fn resolver_paths(resolver: BuiltinResolver) -> Set<Seq<char>>;

/// The module sources a loader holds, as UTF-8 bytes by path.
pub uninterp spec fn loader_sources(loader: BuiltinLoader) -> Map<Seq<char>, Seq<u8>>;

/// `BuiltinResolver::default`: a resolver that knows no path. The type's
/// `Default` is derived over its one field, a hash set of paths.
#[verifier::external_body]
pub(crate) fn resolver_new() -> (resolver: BuiltinResolver)
    ensures
        resolver_paths(resolver) == Set::<Seq<char>>::empty(),
{
    BuiltinResolver::default()
}

/// `BuiltinResolver::add_module`: inserts `path` into the resolver's set of
/// paths and leaves the others as they were.
#[verifier::external_body]
pub(crate) fn resolver_add(resolver: &mut BuiltinResolver, path: &str)
    ensures
        resolver_paths(*final(resolver)) == resolver_paths(*old(resolver)).insert(path@),
{
    resolver.add_module(path);
}

/// `BuiltinLoader::default`: a loader that holds no source. The type's
/// `Default` is derived over its one field, a hash map from path to bytes.
#[verifier::external_body]
pub(crate) fn loader_new() -> (loader: BuiltinLoader)
    ensures
        loader_sources(loader) == (Map::<Seq<char>, Seq<u8>>::empty()),
{
    BuiltinLoader::default()
}

/// `BuiltinLoader::add_module`: stores the bytes of `source` under `path`,
/// replacing what was stored there, and leaves the other paths as they were.
#[verifier::external_body]
pub(crate) fn loader_add(loader: &mut BuiltinLoader, path: &str, source: &str)
    ensures
        loader_sources(*final(loader)) == loader_sources(*old(loader)).insert(
            path@,
            source.spec_bytes(),
        ),
{
    loader.add_module(path, source);
}

} // verus!
