use vstd::prelude::*;
use crate::text::text_eq;

verus! {

/// The kind of a content entry attached to a media item.
#[derive(Clone, Copy, Debug, PartialEq, Eq, Hash, Structural)]
pub enum ContentType {
    Unknown,
    Album,
    Artists,
    Container,
    ReleaseDate,
}

impl Default for ContentType {
    fn default() -> (v: Self)
        ensures
            v == ContentType::Unknown,
    {
        ContentType::Unknown
    }
}

impl ContentType {
    /// The textual form under which the value is displayed and stored.
    pub open spec fn spec_name(self) -> Seq<char> {
        match self {
            ContentType::Unknown => "Unknown"@,
            ContentType::Album => "Album"@,
            ContentType::Artists => "Artists"@,
            ContentType::Container => "Container"@,
            ContentType::ReleaseDate => "ReleaseDate"@,
        }
    }

    /// The value whose textual form is exactly `s`, if any.
    pub open spec fn spec_from_name(s: Seq<char>) -> Option<ContentType> {
        if s == "Unknown"@ {
            Some(ContentType::Unknown)
        } else if s == "Album"@ {
            Some(ContentType::Album)
        } else if s == "Artists"@ {
            Some(ContentType::Artists)
        } else if s == "Container"@ {
            Some(ContentType::Container)
        } else if s == "ReleaseDate"@ {
            Some(ContentType::ReleaseDate)
        } else {
            None
        }
    }

    pub fn name(&self) -> (s: &'static str)
        ensures
            s@ == self.spec_name(),
    {
        match self {
            ContentType::Unknown => "Unknown",
            ContentType::Album => "Album",
            ContentType::Artists => "Artists",
            ContentType::Container => "Container",
            ContentType::ReleaseDate => "ReleaseDate",
        }
    }

    pub fn from_name(s: &str) -> (v: Option<ContentType>)
        ensures
            v == ContentType::spec_from_name(s@),
    {
        if text_eq(s, "Unknown") {
            Some(ContentType::Unknown)
        } else if text_eq(s, "Album") {
            Some(ContentType::Album)
        } else if text_eq(s, "Artists") {
            Some(ContentType::Artists)
        } else if text_eq(s, "Container") {
            Some(ContentType::Container)
        } else if text_eq(s, "ReleaseDate") {
            Some(ContentType::ReleaseDate)
        } else {
            None
        }
    }
}

/// Reading back the textual form of a content type gives the same value.
pub proof fn lemma_content_type_name_roundtrip(v: ContentType)
    ensures
        ContentType::spec_from_name(v.spec_name()) == Some(v),
{
    reveal_strlit("Unknown");
    reveal_strlit("Album");
    reveal_strlit("Artists");
    reveal_strlit("Container");
    reveal_strlit("ReleaseDate");
    assert("Unknown"@.len() == 7 && "Unknown"@[0] == 'U');
    assert("Album"@.len() == 5 && "Album"@[0] == 'A');
    assert("Artists"@.len() == 7 && "Artists"@[0] == 'A');
    assert("Container"@.len() == 9 && "Container"@[0] == 'C');
    assert("ReleaseDate"@.len() == 11 && "ReleaseDate"@[0] == 'R');
}

/// The role an image plays for a media item.
#[derive(Clone, Copy, Debug, PartialEq, Eq, Hash, Structural)]
pub enum ImageType {
    Unknown,
    Primary,
    Art,
    Backdrop,
    Banner,
    Logo,
    Thumb,
    Disc,
    Box,
    Screenshot,
    Menu,
    Chapter,
    BoxRear,
    Profile,
}

impl Default for ImageType {
    fn default() -> (v: Self)
        ensures
            v == ImageType::Unknown,
    {
        ImageType::Unknown
    }
}

impl ImageType {
    /// The textual form under which the value is displayed and stored.
    pub open spec fn spec_name(self) -> Seq<char> {
        match self {
            ImageType::Unknown => "Unknown"@,
            ImageType::Primary => "Primary"@,
            ImageType::Art => "Art"@,
            ImageType::Backdrop => "Backdrop"@,
            ImageType::Banner => "Banner"@,
            ImageType::Logo => "Logo"@,
            ImageType::Thumb => "Thumb"@,
            ImageType::Disc => "Disc"@,
            ImageType::Box => "Box"@,
            ImageType::Screenshot => "Screenshot"@,
            ImageType::Menu => "Menu"@,
            ImageType::Chapter => "Chapter"@,
            ImageType::BoxRear => "BoxRear"@,
            ImageType::Profile => "Profile"@,
        }
    }

    /// The value whose textual form is exactly `s`, if any.
    pub open spec fn spec_from_name(s: Seq<char>) -> Option<ImageType> {
        if s == "Unknown"@ {
            Some(ImageType::Unknown)
        } else if s == "Primary"@ {
            Some(ImageType::Primary)
        } else if s == "Art"@ {
            Some(ImageType::Art)
        } else if s == "Backdrop"@ {
            Some(ImageType::Backdrop)
        } else if s == "Banner"@ {
            Some(ImageType::Banner)
        } else if s == "Logo"@ {
            Some(ImageType::Logo)
        } else if s == "Thumb"@ {
            Some(ImageType::Thumb)
        } else if s == "Disc"@ {
            Some(ImageType::Disc)
        } else if s == "Box"@ {
            Some(ImageType::Box)
        } else if s == "Screenshot"@ {
            Some(ImageType::Screenshot)
        } else if s == "Menu"@ {
            Some(ImageType::Menu)
        } else if s == "Chapter"@ {
            Some(ImageType::Chapter)
        } else if s == "BoxRear"@ {
            Some(ImageType::BoxRear)
        } else if s == "Profile"@ {
            Some(ImageType::Profile)
        } else {
            None
        }
    }

    pub fn name(&self) -> (s: &'static str)
        ensures
            s@ == self.spec_name(),
    {
        match self {
            ImageType::Unknown => "Unknown",
            ImageType::Primary => "Primary",
            ImageType::Art => "Art",
            ImageType::Backdrop => "Backdrop",
            ImageType::Banner => "Banner",
            ImageType::Logo => "Logo",
            ImageType::Thumb => "Thumb",
            ImageType::Disc => "Disc",
            ImageType::Box => "Box",
            ImageType::Screenshot => "Screenshot",
            ImageType::Menu => "Menu",
            ImageType::Chapter => "Chapter",
            ImageType::BoxRear => "BoxRear",
            ImageType::Profile => "Profile",
        }
    }

    pub fn from_name(s: &str) -> (v: Option<ImageType>)
        ensures
            v == ImageType::spec_from_name(s@),
    {
        if text_eq(s, "Unknown") {
            Some(ImageType::Unknown)
        } else if text_eq(s, "Primary") {
            Some(ImageType::Primary)
        } else if text_eq(s, "Art") {
            Some(ImageType::Art)
        } else if text_eq(s, "Backdrop") {
            Some(ImageType::Backdrop)
        } else if text_eq(s, "Banner") {
            Some(ImageType::Banner)
        } else if text_eq(s, "Logo") {
            Some(ImageType::Logo)
        } else if text_eq(s, "Thumb") {
            Some(ImageType::Thumb)
        } else if text_eq(s, "Disc") {
            Some(ImageType::Disc)
        } else if text_eq(s, "Box") {
            Some(ImageType::Box)
        } else if text_eq(s, "Screenshot") {
            Some(ImageType::Screenshot)
        } else if text_eq(s, "Menu") {
            Some(ImageType::Menu)
        } else if text_eq(s, "Chapter") {
            Some(ImageType::Chapter)
        } else if text_eq(s, "BoxRear") {
            Some(ImageType::BoxRear)
        } else if text_eq(s, "Profile") {
            Some(ImageType::Profile)
        } else {
            None
        }
    }
}

/// Reading back the textual form of a image type gives the same value.
pub proof fn lemma_image_type_name_roundtrip(v: ImageType)
    ensures
        ImageType::spec_from_name(v.spec_name()) == Some(v),
{
    reveal_strlit("Unknown");
    reveal_strlit("Primary");
    reveal_strlit("Art");
    reveal_strlit("Backdrop");
    reveal_strlit("Banner");
    reveal_strlit("Logo");
    reveal_strlit("Thumb");
    reveal_strlit("Disc");
    reveal_strlit("Box");
    reveal_strlit("Screenshot");
    reveal_strlit("Menu");
    reveal_strlit("Chapter");
    reveal_strlit("BoxRear");
    reveal_strlit("Profile");
    assert("Unknown"@.len() == 7 && "Unknown"@[0] == 'U');
    assert("Primary"@.len() == 7 && "Primary"@[0] == 'P');
    assert("Art"@.len() == 3 && "Art"@[0] == 'A');
    assert("Backdrop"@.len() == 8 && "Backdrop"@[0] == 'B');
    assert("Banner"@.len() == 6 && "Banner"@[0] == 'B');
    assert("Logo"@.len() == 4 && "Logo"@[0] == 'L');
    assert("Thumb"@.len() == 5 && "Thumb"@[0] == 'T');
    assert("Disc"@.len() == 4 && "Disc"@[0] == 'D');
    assert("Box"@.len() == 3 && "Box"@[0] == 'B');
    assert("Screenshot"@.len() == 10 && "Screenshot"@[0] == 'S');
    assert("Menu"@.len() == 4 && "Menu"@[0] == 'M');
    assert("Chapter"@.len() == 7 && "Chapter"@[0] == 'C');
    assert("BoxRear"@.len() == 7 && "BoxRear"@[0] == 'B');
    assert("Profile"@.len() == 7 && "Profile"@[0] == 'P');
    assert("Primary"@[2] == 'i' && "Profile"@[2] == 'o');
}

/// The kind of media server a provider talks to.
#[derive(Clone, Copy, Debug, PartialEq, Eq, Hash, Structural)]
pub enum ProviderVariant {
    Unknown,
    JellyfinProvider,
}

impl Default for ProviderVariant {
    fn default() -> (v: Self)
        ensures
            v == ProviderVariant::Unknown,
    {
        ProviderVariant::Unknown
    }
}

impl ProviderVariant {
    /// The textual form under which the value is displayed and stored.
    pub open spec fn spec_name(self) -> Seq<char> {
        match self {
            ProviderVariant::Unknown => "Unknown"@,
            ProviderVariant::JellyfinProvider => "JellyfinProvider"@,
        }
    }

    /// The value whose textual form is exactly `s`, if any.
    pub open spec fn spec_from_name(s: Seq<char>) -> Option<ProviderVariant> {
        if s == "Unknown"@ {
            Some(ProviderVariant::Unknown)
        } else if s == "JellyfinProvider"@ {
            Some(ProviderVariant::JellyfinProvider)
        } else {
            None
        }
    }

    pub fn name(&self) -> (s: &'static str)
        ensures
            s@ == self.spec_name(),
    {
        match self {
            ProviderVariant::Unknown => "Unknown",
            ProviderVariant::JellyfinProvider => "JellyfinProvider",
        }
    }

    pub fn from_name(s: &str) -> (v: Option<ProviderVariant>)
        ensures
            v == ProviderVariant::spec_from_name(s@),
    {
        if text_eq(s, "Unknown") {
            Some(ProviderVariant::Unknown)
        } else if text_eq(s, "JellyfinProvider") {
            Some(ProviderVariant::JellyfinProvider)
        } else {
            None
        }
    }
}

/// Reading back the textual form of a provider variant gives the same value.
pub proof fn lemma_provider_variant_name_roundtrip(v: ProviderVariant)
    ensures
        ProviderVariant::spec_from_name(v.spec_name()) == Some(v),
{
    reveal_strlit("Unknown");
    reveal_strlit("JellyfinProvider");
    assert("Unknown"@.len() == 7 && "Unknown"@[0] == 'U');
    assert("JellyfinProvider"@.len() == 16 && "JellyfinProvider"@[0] == 'J');
}

/// A way a provider can authenticate.
#[derive(Clone, Copy, Debug, PartialEq, Eq, Hash, Structural)]
pub enum ProviderAuthSchema {
    Unknown,
    Password,
    OTP,
    Oauth,
}

impl Default for ProviderAuthSchema {
    fn default() -> (v: Self)
        ensures
            v == ProviderAuthSchema::Unknown,
    {
        ProviderAuthSchema::Unknown
    }
}

impl ProviderAuthSchema {
    /// The textual form under which the value is displayed and stored.
    pub open spec fn spec_name(self) -> Seq<char> {
        match self {
            ProviderAuthSchema::Unknown => "Unknown"@,
            ProviderAuthSchema::Password => "Password"@,
            ProviderAuthSchema::OTP => "OTP"@,
            ProviderAuthSchema::Oauth => "Oauth"@,
        }
    }

    /// The value whose textual form is exactly `s`, if any.
    pub open spec fn spec_from_name(s: Seq<char>) -> Option<ProviderAuthSchema> {
        if s == "Unknown"@ {
            Some(ProviderAuthSchema::Unknown)
        } else if s == "Password"@ {
            Some(ProviderAuthSchema::Password)
        } else if s == "OTP"@ {
            Some(ProviderAuthSchema::OTP)
        } else if s == "Oauth"@ {
            Some(ProviderAuthSchema::Oauth)
        } else {
            None
        }
    }

    pub fn name(&self) -> (s: &'static str)
        ensures
            s@ == self.spec_name(),
    {
        match self {
            ProviderAuthSchema::Unknown => "Unknown",
            ProviderAuthSchema::Password => "Password",
            ProviderAuthSchema::OTP => "OTP",
            ProviderAuthSchema::Oauth => "Oauth",
        }
    }

    pub fn from_name(s: &str) -> (v: Option<ProviderAuthSchema>)
        ensures
            v == ProviderAuthSchema::spec_from_name(s@),
    {
        if text_eq(s, "Unknown") {
            Some(ProviderAuthSchema::Unknown)
        } else if text_eq(s, "Password") {
            Some(ProviderAuthSchema::Password)
        } else if text_eq(s, "OTP") {
            Some(ProviderAuthSchema::OTP)
        } else if text_eq(s, "Oauth") {
            Some(ProviderAuthSchema::Oauth)
        } else {
            None
        }
    }
}

/// Reading back the textual form of a auth schema gives the same value.
pub proof fn lemma_auth_schema_name_roundtrip(v: ProviderAuthSchema)
    ensures
        ProviderAuthSchema::spec_from_name(v.spec_name()) == Some(v),
{
    reveal_strlit("Unknown");
    reveal_strlit("Password");
    reveal_strlit("OTP");
    reveal_strlit("Oauth");
    assert("Unknown"@.len() == 7 && "Unknown"@[0] == 'U');
    assert("Password"@.len() == 8 && "Password"@[0] == 'P');
    assert("OTP"@.len() == 3 && "OTP"@[0] == 'O');
    assert("Oauth"@.len() == 5 && "Oauth"@[0] == 'O');
}

/// The kind of a media item.
#[derive(Clone, Copy, Debug, PartialEq, Eq, Hash, Structural)]
pub enum MediaItemType {
    Unknown,
    Audio,
    Genre,
    Album,
    Artist,
    Playlist,
}

impl Default for MediaItemType {
    fn default() -> (v: Self)
        ensures
            v == MediaItemType::Unknown,
    {
        MediaItemType::Unknown
    }
}

impl MediaItemType {
    /// The textual form under which the value is displayed and stored.
    pub open spec fn spec_name(self) -> Seq<char> {
        match self {
            MediaItemType::Unknown => "Unknown"@,
            MediaItemType::Audio => "Audio"@,
            MediaItemType::Genre => "Genre"@,
            MediaItemType::Album => "Album"@,
            MediaItemType::Artist => "Artist"@,
            MediaItemType::Playlist => "Playlist"@,
        }
    }

    /// The value whose textual form is exactly `s`, if any.
    pub open spec fn spec_from_name(s: Seq<char>) -> Option<MediaItemType> {
        if s == "Unknown"@ {
            Some(MediaItemType::Unknown)
        } else if s == "Audio"@ {
            Some(MediaItemType::Audio)
        } else if s == "Genre"@ {
            Some(MediaItemType::Genre)
        } else if s == "Album"@ {
            Some(MediaItemType::Album)
        } else if s == "Artist"@ {
            Some(MediaItemType::Artist)
        } else if s == "Playlist"@ {
            Some(MediaItemType::Playlist)
        } else {
            None
        }
    }

    pub fn name(&self) -> (s: &'static str)
        ensures
            s@ == self.spec_name(),
    {
        match self {
            MediaItemType::Unknown => "Unknown",
            MediaItemType::Audio => "Audio",
            MediaItemType::Genre => "Genre",
            MediaItemType::Album => "Album",
            MediaItemType::Artist => "Artist",
            MediaItemType::Playlist => "Playlist",
        }
    }

    pub fn from_name(s: &str) -> (v: Option<MediaItemType>)
        ensures
            v == MediaItemType::spec_from_name(s@),
    {
        if text_eq(s, "Unknown") {
            Some(MediaItemType::Unknown)
        } else if text_eq(s, "Audio") {
            Some(MediaItemType::Audio)
        } else if text_eq(s, "Genre") {
            Some(MediaItemType::Genre)
        } else if text_eq(s, "Album") {
            Some(MediaItemType::Album)
        } else if text_eq(s, "Artist") {
            Some(MediaItemType::Artist)
        } else if text_eq(s, "Playlist") {
            Some(MediaItemType::Playlist)
        } else {
            None
        }
    }
}

/// Reading back the textual form of a media item type gives the same value.
pub proof fn lemma_media_item_type_name_roundtrip(v: MediaItemType)
    ensures
        MediaItemType::spec_from_name(v.spec_name()) == Some(v),
{
    reveal_strlit("Unknown");
    reveal_strlit("Audio");
    reveal_strlit("Genre");
    reveal_strlit("Album");
    reveal_strlit("Artist");
    reveal_strlit("Playlist");
    assert("Unknown"@.len() == 7 && "Unknown"@[0] == 'U');
    assert("Audio"@.len() == 5 && "Audio"@[0] == 'A');
    assert("Genre"@.len() == 5 && "Genre"@[0] == 'G');
    assert("Album"@.len() == 5 && "Album"@[0] == 'A');
    assert("Artist"@.len() == 6 && "Artist"@[0] == 'A');
    assert("Playlist"@.len() == 8 && "Playlist"@[0] == 'P');
    assert("Audio"@[1] == 'u' && "Album"@[1] == 'l');
}

} // verus!
