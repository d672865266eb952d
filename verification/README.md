# journey

Journey is a music library that indexes the user's Jellyfin servers into a
local database. This crate holds its logic as a library verified with Verus,
and the desktop application around it.

## Layout

- `src/` — the verified library.
  - `enums.rs`: the kinds of content, image, media item, provider and sign-in,
    with their names; reading a name back gives the kind.
  - `active.rs`: records as they are edited before saving (each column set,
    unchanged, or not set).
  - `ids.rs`, `keyring.rs`: the calls into `uuid`, `url` and std that the
    logic makes, each behind a small trusted wrapper, and the choice of the
    credential store.
  - `provider.rs`, `provider_manager.rs`: a Jellyfin provider (its ids, its
    address, signing in, its session) and the registry of signed-in
    providers, viewed as a map from keys to providers.
  - `indexer.rs`, `jellyfin.rs`: reading the server's items and deciding what
    a media item gains when it is indexed (provider, source, content, images,
    parents). Attaching the same provider, source, content and images to an
    item a second time adds nothing, where the image addresses are already
    in the form the URL parser gives back; parents that are found are added
    each time.
  - `indexer_manager.rs`, `runner.rs`, `progress.rs`: the status receivers of
    running indexers, the decisions of the task runner, and the count of tasks
    in progress.
  - `keyed.rs`: sequences of (key, value) pairs without repeated keys, seen
    as maps; the registries above are kept this way.
  - `dto.rs`, `model.rs`, `convert.rs`: stored records turned into the values
    the user interface shows.
- `tests/` — tests of the library on concrete values.
- `app/` — the application: window and procedures (Tauri), database
  (SeaORM), credential store (keyring-core), the Jellyfin SDK calls, and the
  actors that run indexing tasks.
  The application also uses the Jellyfin SDK (`jellyfin_sdk_rs`), Tauri with
  its plugins, taurpc and specta. These are not listed in `Cargo.toml`, which
  holds the crates the library and its tests build with (Tauri needs the
  system's web view libraries), so `app/` builds only once they are added.

## Checking

Each public function of `src/` states its result in its `ensures`; the laws
that relate several functions are public proof functions named `law_*`.
