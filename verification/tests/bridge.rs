use pokedex::store::DataDir;
use pokedex::store::DocKind;
use pokedex::store::dir_resolution_error;
use pokedex::store::resolve_app_dir;
use pokedex::store::write_refused_error;

#[test]
fn pokemon_round_trip() {
    let mut d = DataDir::fresh();
    let text = "{\"pokemon\":[{\"id\":25,\"name\":\"pikachu\"}]}".to_string();
    assert_eq!(d.save_pokemon_data(text.clone()), Ok(()));
    assert_eq!(d.load_pokemon_data(), Ok(text));
}

#[test]
fn favorites_round_trip() {
    let mut d = DataDir::fresh();
    let text = "[1,4,7]".to_string();
    assert_eq!(d.save_favorites(text.clone()), Ok(()));
    assert_eq!(d.load_favorites(), Ok(text));
}

#[test]
fn empty_text_round_trips() {
    let mut d = DataDir::fresh();
    assert_eq!(d.save_favorites(String::new()), Ok(()));
    assert_eq!(d.load_favorites(), Ok(String::new()));
}

#[test]
fn fresh_directory_defaults() {
    let d = DataDir::fresh();
    assert_eq!(d.load_pokemon_data(), Ok(String::new()));
    assert_eq!(d.load_favorites(), Ok("[]".to_string()));
}

#[test]
fn later_save_overwrites_earlier() {
    let mut d = DataDir::fresh();
    assert_eq!(d.save_pokemon_data("first".to_string()), Ok(()));
    assert_eq!(d.save_pokemon_data("second".to_string()), Ok(()));
    assert_eq!(d.load_pokemon_data(), Ok("second".to_string()));
}

#[test]
fn documents_are_independent() {
    let mut d = DataDir::fresh();
    assert_eq!(d.save_pokemon_data("cache".to_string()), Ok(()));
    assert_eq!(d.save_favorites("[2]".to_string()), Ok(()));
    assert_eq!(d.load_pokemon_data(), Ok("cache".to_string()));
    assert_eq!(d.load_favorites(), Ok("[2]".to_string()));
}

#[test]
fn unwritable_directory_rejects_saves() {
    let mut d = DataDir::fresh_with_writable(false);
    let r = d.save_pokemon_data("anything".to_string());
    assert_eq!(r, Err(write_refused_error()));
    assert_eq!(d.load_pokemon_data(), Ok(String::new()));
    let r = d.save_favorites("[9]".to_string());
    assert_eq!(r, Err(write_refused_error()));
    assert_eq!(d.load_favorites(), Ok("[]".to_string()));
}

#[test]
fn generic_save_load_matches_named_operations() {
    let mut d = DataDir::fresh();
    assert_eq!(d.save_document(DocKind::PokemonCache, "c".to_string()), Ok(()));
    assert_eq!(d.save_document(DocKind::Favorites, "[3]".to_string()), Ok(()));
    assert_eq!(d.load_document(DocKind::PokemonCache), Ok("c".to_string()));
    assert_eq!(d.load_document(DocKind::Favorites), Ok("[3]".to_string()));
}

#[test]
fn document_file_names() {
    assert_eq!(DocKind::PokemonCache.file_name(), "pokemon_cache.json".to_string());
    assert_eq!(DocKind::Favorites.file_name(), "favorites.json".to_string());
}

#[test]
fn document_defaults() {
    assert_eq!(DocKind::PokemonCache.default_contents(), String::new());
    assert_eq!(DocKind::Favorites.default_contents(), "[]".to_string());
}

#[test]
fn resolution_passes_directory_through() {
    let r = resolve_app_dir(Some("/home/user/.local/share/pokedex".to_string()));
    assert_eq!(r, Ok("/home/user/.local/share/pokedex".to_string()));
}

#[test]
fn resolution_failure_is_reported() {
    let r = resolve_app_dir(None);
    assert_eq!(r, Err("Failed to get app data directory".to_string()));
    assert_eq!(dir_resolution_error(), "Failed to get app data directory".to_string());
}
