//! Choosing the credential store that access tokens are kept in.
use vstd::prelude::*;
use crate::error::KeyringError;
use crate::text::{owned, text_eq};

verus! {

/// What `str::to_lowercase` makes of `s` (Unicode lower case).
pub uninterp spec fn lowercase(s: Seq<char>) -> Seq<char>;

/// Whether every character of `s` is ASCII.
pub open spec fn is_ascii(s: Seq<char>) -> bool {
    forall|i: int| 0 <= i < s.len() ==> (#[trigger] s[i] as int) < 128
}

/// The ASCII lower case of `c`: `A` to `Z` become `a` to `z`, any other
/// character stays.
pub open spec fn ascii_lower(c: char) -> char {
    if 65 <= c as int <= 90 {
        (c as int + 32) as char
    } else {
        c
    }
}

/// `s` with each character in ASCII lower case.
pub open spec fn ascii_lowercase(s: Seq<char>) -> Seq<char> {
    s.map_values(|c: char| ascii_lower(c))
}

/// Calls `str::to_lowercase`; the claim is that the result is the one named
/// by `lowercase`, and that on ASCII text it is the ASCII lower case, which
/// is what the Unicode lower-case mapping gives for ASCII characters.
#[verifier::external_body]
fn to_lowercase(s: &str) -> (lower: String)
    ensures
        lower@ == lowercase(s@),
        is_ascii(s@) ==> lower@ == ascii_lowercase(s@),
{
    s.to_lowercase()
}

/// The operating systems the application is built for.
#[derive(Clone, Copy, Debug, PartialEq, Eq, Structural)]
pub enum TargetOs {
    Android,
    Ios,
    Macos,
    Windows,
    Linux,
    Other,
}

/// The stores known by name.
#[derive(Clone, Copy, Debug, PartialEq, Eq, Structural)]
pub enum NamedStore {
    Android,
    Keyutils,
    Protected,
    Sample,
    Windows,
}

/// The store implementations that can be set up.
#[derive(Clone, Copy, Debug, PartialEq, Eq, Structural)]
pub enum StoreBackend {
    /// The sample store of `keyring-core`.
    Sample,
    /// Android's shared preferences, encrypted with the Android keystore.
    AndroidNative,
    /// The Linux kernel's keyutils.
    LinuxKeyutils,
    /// The iOS/macOS protected data store.
    AppleProtected,
    /// The macOS keychain.
    AppleKeychain,
    /// The Windows credential store.
    WindowsNative,
}

/// The store to set up as the default, and the configuration to create it
/// with, as (key, value) pairs.
#[derive(Debug)]
pub struct StorePlan {
    pub backend: StoreBackend,
    pub config: Vec<(String, String)>,
}

/// The known store names differ from one another.
proof fn lemma_store_names_distinct()
    ensures
        "sample"@ != "android"@,
        "sample"@ != "keyutils"@,
        "sample"@ != "protected"@,
{
    reveal_strlit("sample");
    reveal_strlit("android");
    reveal_strlit("keyutils");
    reveal_strlit("protected");
    assert("sample"@.len() == 6 && "android"@.len() == 7 && "keyutils"@.len() == 8 && "protected"@.len() == 9);
}

/// The store a lower-cased name stands for, if any.
pub open spec fn spec_named_store(lower: Seq<char>) -> Option<NamedStore> {
    if lower == "android"@ {
        Some(NamedStore::Android)
    } else if lower == "keyutils"@ {
        Some(NamedStore::Keyutils)
    } else if lower == "protected"@ {
        Some(NamedStore::Protected)
    } else if lower == "sample"@ {
        Some(NamedStore::Sample)
    } else if lower == "windows"@ {
        Some(NamedStore::Windows)
    } else {
        None
    }
}

/// The names of the known stores, as an invalid name's error lists them.
pub open spec fn known_store_names() -> Seq<char> {
    "must be one of: android, keyutils, protected, windows, sample"@
}

/// The store chosen by `name`, compared in lower case.
pub fn named_store(name: &str) -> (r: Result<NamedStore, KeyringError>)
    ensures
        match spec_named_store(lowercase(name@)) {
            Some(s) => r == Ok::<NamedStore, KeyringError>(s),
            None => r matches Err(KeyringError::Invalid(arg, why)) && arg@ == name@ && why@ == known_store_names(),
        },
{
    let lower = to_lowercase(name);
    let l = lower.as_str();
    if text_eq(l, "android") {
        Ok(NamedStore::Android)
    } else if text_eq(l, "keyutils") {
        Ok(NamedStore::Keyutils)
    } else if text_eq(l, "protected") {
        Ok(NamedStore::Protected)
    } else if text_eq(l, "sample") {
        Ok(NamedStore::Sample)
    } else if text_eq(l, "windows") {
        Ok(NamedStore::Windows)
    } else {
        Err(KeyringError::Invalid(owned(name), owned("must be one of: android, keyutils, protected, windows, sample")))
    }
}

/// The implementation that a named store is on `os`; `sandboxed` tells
/// whether a macOS application runs sandboxed, which is what the protected
/// store needs there (else the keychain is used).
pub open spec fn spec_backend(store: NamedStore, os: TargetOs, sandboxed: bool) -> Option<StoreBackend> {
    match store {
        NamedStore::Sample => Some(StoreBackend::Sample),
        NamedStore::Android => if os == TargetOs::Android { Some(StoreBackend::AndroidNative) } else { None },
        NamedStore::Keyutils => if os == TargetOs::Linux { Some(StoreBackend::LinuxKeyutils) } else { None },
        NamedStore::Windows => if os == TargetOs::Windows { Some(StoreBackend::WindowsNative) } else { None },
        NamedStore::Protected => match os {
            TargetOs::Ios => Some(StoreBackend::AppleProtected),
            TargetOs::Macos => if sandboxed { Some(StoreBackend::AppleProtected) } else { Some(StoreBackend::AppleKeychain) },
            _ => None,
        },
    }
}

/// Why a named store cannot be used on a platform that lacks it.
pub open spec fn unsupported_reason(store: NamedStore) -> Seq<char> {
    match store {
        NamedStore::Android => "The Android native store is only available on Android"@,
        NamedStore::Keyutils => "The keyutils store is only available on Linux"@,
        NamedStore::Windows => "The Windows credential store is only available on Windows"@,
        _ => "The macOS keychain is only available on macOS"@,
    }
}

/// The implementation of `store` on `os`, or why there is none.
pub fn store_backend(store: NamedStore, os: TargetOs, sandboxed: bool) -> (r: Result<StoreBackend, KeyringError>)
    ensures
        match spec_backend(store, os, sandboxed) {
            Some(b) => r == Ok::<StoreBackend, KeyringError>(b),
            None => r matches Err(KeyringError::NotSupportedByStore(why)) && why@ == unsupported_reason(store),
        },
{
    match store {
        NamedStore::Sample => Ok(StoreBackend::Sample),
        NamedStore::Android => if os == TargetOs::Android {
            Ok(StoreBackend::AndroidNative)
        } else {
            Err(KeyringError::NotSupportedByStore(owned("The Android native store is only available on Android")))
        },
        NamedStore::Keyutils => if os == TargetOs::Linux {
            Ok(StoreBackend::LinuxKeyutils)
        } else {
            Err(KeyringError::NotSupportedByStore(owned("The keyutils store is only available on Linux")))
        },
        NamedStore::Windows => if os == TargetOs::Windows {
            Ok(StoreBackend::WindowsNative)
        } else {
            Err(KeyringError::NotSupportedByStore(owned("The Windows credential store is only available on Windows")))
        },
        NamedStore::Protected => match os {
            TargetOs::Ios => Ok(StoreBackend::AppleProtected),
            TargetOs::Macos => if sandboxed {
                Ok(StoreBackend::AppleProtected)
            } else {
                Ok(StoreBackend::AppleKeychain)
            },
            _ => Err(KeyringError::NotSupportedByStore(owned("The macOS keychain is only available on macOS"))),
        },
    }
}

/// The plan for the store named `name`, created with `modifiers`.
pub fn use_named_store_with_modifiers(
    name: &str,
    modifiers: Vec<(String, String)>,
    os: TargetOs,
    sandboxed: bool,
) -> (r: Result<StorePlan, KeyringError>)
    ensures
        match spec_named_store(lowercase(name@)) {
            None => r matches Err(KeyringError::Invalid(arg, why)) && arg@ == name@ && why@ == known_store_names(),
            Some(store) => match spec_backend(store, os, sandboxed) {
                Some(b) => r matches Ok(plan) && plan.backend == b && plan.config == modifiers,
                None => r matches Err(KeyringError::NotSupportedByStore(why)) && why@ == unsupported_reason(store),
            },
        },
{
    let store = named_store(name)?;
    let backend = store_backend(store, os, sandboxed)?;
    Ok(StorePlan { backend, config: modifiers })
}

/// The configuration the sample store is used with by name: persisted.
pub open spec fn persist_config(config: Seq<(String, String)>) -> bool {
    config.len() == 1 && config[0].0@ == "persist"@ && config[0].1@ == "true"@
}

/// The plan for the store named `name` in its default configuration; the
/// sample store is persisted.
pub fn use_named_store(name: &str, os: TargetOs, sandboxed: bool) -> (r: Result<StorePlan, KeyringError>)
    ensures
        is_ascii(name@) ==> lowercase(name@) == ascii_lowercase(name@),
        match spec_named_store(lowercase(name@)) {
            None => r matches Err(KeyringError::Invalid(arg, why)) && arg@ == name@ && why@ == known_store_names(),
            Some(NamedStore::Sample) => r matches Ok(plan) && plan.backend == StoreBackend::Sample
                && persist_config(plan.config@),
            Some(store) => match spec_backend(store, os, sandboxed) {
                Some(b) => r matches Ok(plan) && plan.backend == b && plan.config@.len() == 0,
                None => r matches Err(KeyringError::NotSupportedByStore(why)) && why@ == unsupported_reason(store),
            },
        },
{
    let lower = to_lowercase(name);
    proof {
        lemma_store_names_distinct();
    }
    if text_eq(lower.as_str(), "sample") {
        let mut config = Vec::new();
        config.push((owned("persist"), owned("true")));
        Ok(StorePlan { backend: StoreBackend::Sample, config })
    } else {
        use_named_store_with_modifiers(name, Vec::new(), os, sandboxed)
    }
}

/// The store implementation used by default: the platform's own credential
/// store, or the sample store in debug builds and on platforms without one.
pub open spec fn native_backend(debug: bool, os: TargetOs, sandboxed: bool) -> StoreBackend {
    if debug {
        StoreBackend::Sample
    } else {
        match os {
            TargetOs::Android => StoreBackend::AndroidNative,
            TargetOs::Ios => StoreBackend::AppleProtected,
            TargetOs::Macos => if sandboxed { StoreBackend::AppleProtected } else { StoreBackend::AppleKeychain },
            TargetOs::Windows => StoreBackend::WindowsNative,
            TargetOs::Linux => StoreBackend::LinuxKeyutils,
            TargetOs::Other => StoreBackend::Sample,
        }
    }
}

/// The store names the platform stores go by are ASCII, already in lower
/// case, and name the stores they stand for.
proof fn lemma_native_names()
    ensures
        is_ascii("sample"@) && ascii_lowercase("sample"@) == "sample"@
            && spec_named_store("sample"@) == Some(NamedStore::Sample),
        is_ascii("android"@) && ascii_lowercase("android"@) == "android"@
            && spec_named_store("android"@) == Some(NamedStore::Android),
        is_ascii("protected"@) && ascii_lowercase("protected"@) == "protected"@
            && spec_named_store("protected"@) == Some(NamedStore::Protected),
        is_ascii("windows"@) && ascii_lowercase("windows"@) == "windows"@
            && spec_named_store("windows"@) == Some(NamedStore::Windows),
        is_ascii("keyutils"@) && ascii_lowercase("keyutils"@) == "keyutils"@
            && spec_named_store("keyutils"@) == Some(NamedStore::Keyutils),
{
    reveal_strlit("sample");
    reveal_strlit("android");
    reveal_strlit("protected");
    reveal_strlit("windows");
    reveal_strlit("keyutils");
    assert(ascii_lowercase("sample"@) =~= "sample"@);
    assert(ascii_lowercase("android"@) =~= "android"@);
    assert(ascii_lowercase("protected"@) =~= "protected"@);
    assert(ascii_lowercase("windows"@) =~= "windows"@);
    assert(ascii_lowercase("keyutils"@) =~= "keyutils"@);
    assert("windows"@ != "android"@) by {
        assert("windows"@[0] != "android"@[0]);
    }
}

/// The plan for the platform's own credential store, or for the persisted
/// sample store in debug builds and where the platform has none. Every
/// platform gets a store.
pub fn use_native_store(debug: bool, os: TargetOs, sandboxed: bool) -> (r: Result<StorePlan, KeyringError>)
    ensures
        r matches Ok(plan) && plan.backend == native_backend(debug, os, sandboxed) && if plan.backend
            == StoreBackend::Sample {
            persist_config(plan.config@)
        } else {
            plan.config@.len() == 0
        },
{
    let name: &str = if debug {
        "sample"
    } else {
        match os {
            TargetOs::Android => "android",
            TargetOs::Ios => "protected",
            TargetOs::Macos => "protected",
            TargetOs::Windows => "windows",
            TargetOs::Linux => "keyutils",
            TargetOs::Other => "sample",
        }
    };
    proof {
        lemma_native_names();
    }
    use_named_store(name, os, sandboxed)
}

/// In a release build each platform with a store of its own uses it: the
/// Windows credential store on Windows, keyutils on Linux, the Android store
/// on Android, the protected store on iOS, and on macOS the protected store
/// when sandboxed, else the keychain; each is the store its platform's name
/// stands for there. Debug builds, and platforms without a store, use the
/// sample store.
pub proof fn law_native_store_per_platform(sandboxed: bool)
    ensures
        native_backend(false, TargetOs::Windows, sandboxed) == StoreBackend::WindowsNative,
        native_backend(false, TargetOs::Linux, sandboxed) == StoreBackend::LinuxKeyutils,
        native_backend(false, TargetOs::Android, sandboxed) == StoreBackend::AndroidNative,
        native_backend(false, TargetOs::Ios, sandboxed) == StoreBackend::AppleProtected,
        native_backend(false, TargetOs::Macos, sandboxed)
            == if sandboxed { StoreBackend::AppleProtected } else { StoreBackend::AppleKeychain },
        native_backend(false, TargetOs::Windows, sandboxed)
            == spec_backend(NamedStore::Windows, TargetOs::Windows, sandboxed)->Some_0,
        native_backend(false, TargetOs::Linux, sandboxed)
            == spec_backend(NamedStore::Keyutils, TargetOs::Linux, sandboxed)->Some_0,
        native_backend(false, TargetOs::Android, sandboxed)
            == spec_backend(NamedStore::Android, TargetOs::Android, sandboxed)->Some_0,
        native_backend(false, TargetOs::Macos, sandboxed)
            == spec_backend(NamedStore::Protected, TargetOs::Macos, sandboxed)->Some_0,
        native_backend(false, TargetOs::Other, sandboxed) == StoreBackend::Sample,
        forall|os: TargetOs| native_backend(true, os, sandboxed) == StoreBackend::Sample,
{
}

} // verus!
