//! The persistence bridge: save and load of two whole-file JSON
//! documents in the application's private data directory.
//!
//! The directory is modelled by [`DataDir`]: for each document either
//! the text last saved or nothing, plus whether the directory accepts
//! writes. Each bridge operation is a verified transition of that
//! model; the thin host layer performs the matching file read or write.

use vstd::prelude::*;

verus! {

/// The two documents the bridge persists, each mapped 1:1 to a fixed
/// file name in the private data directory.
#[derive(Clone, Copy, PartialEq, Eq, Structural, Debug)]
pub enum DocKind {
    PokemonCache,
    Favorites,
}

impl DocKind {
    /// The fixed file name the document is stored under.
    pub open spec fn file_name_view(self) -> Seq<char> {
        match self {
            DocKind::PokemonCache => "pokemon_cache.json"@,
            DocKind::Favorites => "favorites.json"@,
        }
    }

    /// The text reported by a load when the document was never saved:
    /// the empty text for the cache, an empty JSON list for favorites.
    pub open spec fn default_contents_view(self) -> Seq<char> {
        match self {
            DocKind::PokemonCache => Seq::<char>::empty(),
            DocKind::Favorites => "[]"@,
        }
    }

    pub fn file_name(&self) -> (r: String)
        ensures
            r@ == self.file_name_view(),
    {
        match self {
            DocKind::PokemonCache => "pokemon_cache.json".to_owned(),
            DocKind::Favorites => "favorites.json".to_owned(),
        }
    }

    pub fn default_contents(&self) -> (r: String)
        ensures
            r@ == self.default_contents_view(),
    {
        match self {
            DocKind::PokemonCache => String::new(),
            DocKind::Favorites => "[]".to_owned(),
        }
    }
}

/// Abstract state of the private data directory: for each document the
/// text it holds (or nothing, if never saved), and whether the
/// directory accepts writes.
pub struct DataDirView {
    pub pokemon_cache: Option<Seq<char>>,
    pub favorites: Option<Seq<char>>,
    pub writable: bool,
}

/// The bridge's model of the private application data directory.
///
/// A save replaces a document's whole text; a load returns the text
/// verbatim, or the document's default when nothing was ever saved.
/// The `writable` flag models a directory on which the host refuses
/// writes: every save then fails and changes nothing.
pub struct DataDir {
    pokemon_cache: Option<String>,
    favorites: Option<String>,
    writable: bool,
}

impl View for DataDir {
    type V = DataDirView;

    closed spec fn view(&self) -> DataDirView {
        DataDirView {
            pokemon_cache: match self.pokemon_cache {
                Some(t) => Some(t@),
                None => None,
            },
            favorites: match self.favorites {
                Some(t) => Some(t@),
                None => None,
            },
            writable: self.writable,
        }
    }
}

/// A directory in which nothing was ever saved and writes succeed.
pub open spec fn fresh_view() -> DataDirView {
    DataDirView { pokemon_cache: None, favorites: None, writable: true }
}

/// The text the directory holds for a document.
pub open spec fn contents_of(v: DataDirView, kind: DocKind) -> Option<Seq<char>> {
    match kind {
        DocKind::PokemonCache => v.pokemon_cache,
        DocKind::Favorites => v.favorites,
    }
}

/// The directory after a save of `data` under `kind`: the whole text
/// replaced if the directory is writable, untouched otherwise.
pub open spec fn save_view(v: DataDirView, kind: DocKind, data: Seq<char>) -> DataDirView {
    if v.writable {
        match kind {
            DocKind::PokemonCache => DataDirView {
                pokemon_cache: Some(data),
                favorites: v.favorites,
                writable: v.writable,
            },
            DocKind::Favorites => DataDirView {
                pokemon_cache: v.pokemon_cache,
                favorites: Some(data),
                writable: v.writable,
            },
        }
    } else {
        v
    }
}

/// The text a load of `kind` returns: the saved text verbatim, or the
/// document's default when nothing was ever saved.
pub open spec fn load_view(v: DataDirView, kind: DocKind) -> Seq<char> {
    match contents_of(v, kind) {
        Some(t) => t,
        None => kind.default_contents_view(),
    }
}

/// Error reported when the host cannot supply a private data directory.
pub open spec fn dir_resolution_error_view() -> Seq<char> {
    "Failed to get app data directory"@
}

pub fn dir_resolution_error() -> (r: String)
    ensures
        r@ == dir_resolution_error_view(),
{
    "Failed to get app data directory".to_owned()
}

/// Error reported when the data directory refuses writes.
pub open spec fn write_refused_error_view() -> Seq<char> {
    "data directory is not writable"@
}

pub fn write_refused_error() -> (r: String)
    ensures
        r@ == write_refused_error_view(),
{
    "data directory is not writable".to_owned()
}

/// First step of every bridge operation: the host either supplies the
/// private data directory or it does not; a missing directory becomes
/// the bridge's directory-resolution error.
pub fn resolve_app_dir(dir: Option<String>) -> (r: Result<String, String>)
    ensures
        dir matches Some(d) ==> (r matches Ok(p) && p@ == d@),
        dir is None ==> (r matches Err(m) && m@ == dir_resolution_error_view()),
{
    match dir {
        Some(d) => Ok(d),
        None => Err(dir_resolution_error()),
    }
}

impl DataDir {
    /// A fresh directory: no prior save, writes accepted.
    pub fn fresh() -> (d: DataDir)
        ensures
            d@ == fresh_view(),
    {
        DataDir { pokemon_cache: None, favorites: None, writable: true }
    }

    /// A fresh directory on a host that may refuse writes.
    pub fn fresh_with_writable(writable: bool) -> (d: DataDir)
        ensures
            d@ == (DataDirView { pokemon_cache: None, favorites: None, writable }),
    {
        DataDir { pokemon_cache: None, favorites: None, writable }
    }

    /// Replaces the document's whole contents with `data`. Succeeds if
    /// and only if the directory accepts writes; a refused save leaves
    /// the directory exactly as it was.
    pub fn save_document(&mut self, kind: DocKind, data: String) -> (r: Result<(), String>)
        ensures
            final(self)@ == save_view(old(self)@, kind, data@),
            r is Ok <==> old(self)@.writable,
            r matches Err(m) ==> m@ == write_refused_error_view(),
    {
        if self.writable {
            match kind {
                DocKind::PokemonCache => {
                    self.pokemon_cache = Some(data);
                },
                DocKind::Favorites => {
                    self.favorites = Some(data);
                },
            }
            Ok(())
        } else {
            Err(write_refused_error())
        }
    }

    /// Returns the document's text verbatim, or its default when it was
    /// never saved. A load never fails on the model: the only read
    /// failure the bridge knows, an unreadable existing file, is a host
    /// fault outside the directory's abstract state.
    pub fn load_document(&self, kind: DocKind) -> (r: Result<String, String>)
        ensures
            r matches Ok(t) && t@ == load_view(self@, kind),
    {
        let stored = match kind {
            DocKind::PokemonCache => &self.pokemon_cache,
            DocKind::Favorites => &self.favorites,
        };
        match stored {
            Some(t) => Ok(t.clone()),
            None => Ok(kind.default_contents()),
        }
    }

    /// Saves the Pokémon cache document.
    pub fn save_pokemon_data(&mut self, data: String) -> (r: Result<(), String>)
        ensures
            final(self)@ == save_view(old(self)@, DocKind::PokemonCache, data@),
            r is Ok <==> old(self)@.writable,
            r matches Err(m) ==> m@ == write_refused_error_view(),
    {
        self.save_document(DocKind::PokemonCache, data)
    }

    /// Loads the Pokémon cache document; `""` when never saved.
    pub fn load_pokemon_data(&self) -> (r: Result<String, String>)
        ensures
            r matches Ok(t) && t@ == load_view(self@, DocKind::PokemonCache),
    {
        self.load_document(DocKind::PokemonCache)
    }

    /// Saves the favorites document.
    pub fn save_favorites(&mut self, favorites: String) -> (r: Result<(), String>)
        ensures
            final(self)@ == save_view(old(self)@, DocKind::Favorites, favorites@),
            r is Ok <==> old(self)@.writable,
            r matches Err(m) ==> m@ == write_refused_error_view(),
    {
        self.save_document(DocKind::Favorites, favorites)
    }

    /// Loads the favorites document; `"[]"` when never saved.
    pub fn load_favorites(&self) -> (r: Result<String, String>)
        ensures
            r matches Ok(t) && t@ == load_view(self@, DocKind::Favorites),
    {
        self.load_document(DocKind::Favorites)
    }
}

/// Round-trip fidelity: after a successful save of `t` under any
/// document, a load of that document returns exactly `t`.
pub proof fn lemma_save_then_load(v: DataDirView, kind: DocKind, t: Seq<char>)
    requires
        v.writable,
    ensures
        load_view(save_view(v, kind, t), kind) == t,
{
}

/// Round-trip fidelity for the Pokémon cache: loading after a
/// successful save of `t` returns exactly `t`.
pub proof fn lemma_pokemon_round_trip(v: DataDirView, t: Seq<char>)
    requires
        v.writable,
    ensures
        load_view(save_view(v, DocKind::PokemonCache, t), DocKind::PokemonCache) == t,
{
}

/// Round-trip fidelity for favorites: loading after a successful save
/// of `t` returns exactly `t`.
pub proof fn lemma_favorites_round_trip(v: DataDirView, t: Seq<char>)
    requires
        v.writable,
    ensures
        load_view(save_view(v, DocKind::Favorites, t), DocKind::Favorites) == t,
{
}

/// A fresh directory answers the defaults: the empty text for the
/// Pokémon cache, an empty JSON list for favorites.
pub proof fn lemma_fresh_defaults()
    ensures
        load_view(fresh_view(), DocKind::PokemonCache) == Seq::<char>::empty(),
        load_view(fresh_view(), DocKind::Favorites) == "[]"@,
{
}

/// A later save fully replaces an earlier one: after saving `t1` and
/// then `t2` under the same document, only `t2` is retrievable, and the
/// directory is in the same state as after saving `t2` alone.
pub proof fn lemma_save_overwrites(v: DataDirView, kind: DocKind, t1: Seq<char>, t2: Seq<char>)
    requires
        v.writable,
    ensures
        save_view(save_view(v, kind, t1), kind, t2) == save_view(v, kind, t2),
        load_view(save_view(save_view(v, kind, t1), kind, t2), kind) == t2,
{
}

/// Saving one document never touches the other.
pub proof fn lemma_save_leaves_other_document(
    v: DataDirView,
    kind: DocKind,
    other: DocKind,
    t: Seq<char>,
)
    requires
        kind != other,
    ensures
        contents_of(save_view(v, kind, t), other) == contents_of(v, other),
{
}

/// On a directory that refuses writes, a save changes nothing; the
/// operation itself reports the error, see [`DataDir::save_document`].
pub proof fn lemma_refused_save_keeps_state(v: DataDirView, kind: DocKind, t: Seq<char>)
    requires
        !v.writable,
    ensures
        save_view(v, kind, t) == v,
{
}

} // verus!
