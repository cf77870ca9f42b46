//! Datto RMM platform configuration.
//!
//! The Datto RMM API is hosted on multiple regional platforms.
//! All platforms share the same API schema.

use crate::trusted::{ascii_lowercase, lowercase, to_lowercase};
use vstd::prelude::*;
use vstd::utf8::is_ascii_chars;

verus! {

/// Datto RMM platform identifiers.
#[derive(Debug, Clone, Copy, PartialEq, Eq, Hash, Structural)]
pub enum Platform {
    /// Pinotage platform
    Pinotage,
    /// Merlot platform
    Merlot,
    /// Concord platform
    Concord,
    /// Vidal platform
    Vidal,
    /// Zinfandel platform
    Zinfandel,
    /// Syrah platform
    Syrah,
}

/// The path of the OAuth token endpoint below a platform's base URL.
pub open spec fn token_path() -> Seq<char> {
    "/public/oauth/token"@
}

/// The names of the given platforms, separated by a comma and a space.
pub open spec fn joined_names(platforms: Seq<Platform>) -> Seq<char>
    decreases platforms.len(),
{
    if platforms.len() == 0 {
        Seq::empty()
    } else if platforms.len() == 1 {
        platforms[0].name_spec()
    } else {
        joined_names(platforms.drop_last()) + ", "@ + platforms.last().name_spec()
    }
}

impl Platform {
    /// The canonical, lowercase name of a platform.
    pub open spec fn name_spec(self) -> Seq<char> {
        match self {
            Platform::Pinotage => "pinotage"@,
            Platform::Merlot => "merlot"@,
            Platform::Concord => "concord"@,
            Platform::Vidal => "vidal"@,
            Platform::Zinfandel => "zinfandel"@,
            Platform::Syrah => "syrah"@,
        }
    }

    /// The base API URL of a platform.
    pub open spec fn base_url_spec(self) -> Seq<char> {
        match self {
            Platform::Pinotage => "https://pinotage-api.centrastage.net/api"@,
            Platform::Merlot => "https://merlot-api.centrastage.net/api"@,
            Platform::Concord => "https://concord-api.centrastage.net/api"@,
            Platform::Vidal => "https://vidal-api.centrastage.net/api"@,
            Platform::Zinfandel => "https://zinfandel-api.centrastage.net/api"@,
            Platform::Syrah => "https://syrah-api.centrastage.net/api"@,
        }
    }

    /// The OAuth token endpoint of a platform: its base URL, then the token path.
    pub open spec fn token_endpoint_spec(self) -> Seq<char> {
        self.base_url_spec() + token_path()
    }

    /// The platforms in their fixed order.
    pub open spec fn all_spec() -> Seq<Platform> {
        seq![
            Platform::Pinotage,
            Platform::Merlot,
            Platform::Concord,
            Platform::Vidal,
            Platform::Zinfandel,
            Platform::Syrah,
        ]
    }

    /// The platform with exactly the given name, if there is one.
    pub open spec fn from_name_spec(name: Seq<char>) -> Option<Platform> {
        if name == Platform::Pinotage.name_spec() {
            Some(Platform::Pinotage)
        } else if name == Platform::Merlot.name_spec() {
            Some(Platform::Merlot)
        } else if name == Platform::Concord.name_spec() {
            Some(Platform::Concord)
        } else if name == Platform::Vidal.name_spec() {
            Some(Platform::Vidal)
        } else if name == Platform::Zinfandel.name_spec() {
            Some(Platform::Zinfandel)
        } else if name == Platform::Syrah.name_spec() {
            Some(Platform::Syrah)
        } else {
            None
        }
    }

    /// The platform that an input names when case is ignored: the one whose
    /// name is the lowercase form of the input.
    pub open spec fn parse_spec(input: Seq<char>) -> Option<Platform> {
        Self::from_name_spec(lowercase(input))
    }

    /// The platform that an input of ASCII characters names when case is
    /// ignored.
    pub open spec fn parse_ascii_spec(input: Seq<char>) -> Option<Platform> {
        Self::from_name_spec(ascii_lowercase(input))
    }

    /// Whether `parsed` is what parsing `input` returns when `found` is the
    /// platform that the input names: that platform, or else an error that
    /// holds the input as it was given.
    pub open spec fn parses_to(
        input: Seq<char>,
        found: Option<Platform>,
        parsed: Result<Platform, PlatformParseError>,
    ) -> bool {
        match parsed {
            Ok(platform) => found == Some(platform),
            Err(error) => found is None && error.input_spec() == input,
        }
    }

    /// Get the base API URL for this platform.
    pub fn base_url(&self) -> (url: &'static str)
        ensures
            url@ == self.base_url_spec(),
    {
        match self {
            Platform::Pinotage => "https://pinotage-api.centrastage.net/api",
            Platform::Merlot => "https://merlot-api.centrastage.net/api",
            Platform::Concord => "https://concord-api.centrastage.net/api",
            Platform::Vidal => "https://vidal-api.centrastage.net/api",
            Platform::Zinfandel => "https://zinfandel-api.centrastage.net/api",
            Platform::Syrah => "https://syrah-api.centrastage.net/api",
        }
    }

    /// Get the OAuth token endpoint for this platform.
    pub fn token_endpoint(&self) -> (url: String)
        ensures
            url@ == self.token_endpoint_spec(),
    {
        String::from_str(self.base_url()).concat("/public/oauth/token")
    }

    /// Get all available platforms.
    pub fn all() -> (platforms: &'static [Platform])
        ensures
            platforms@ == Self::all_spec(),
    {
        &[
            Platform::Pinotage,
            Platform::Merlot,
            Platform::Concord,
            Platform::Vidal,
            Platform::Zinfandel,
            Platform::Syrah,
        ]
    }

    /// The canonical name of this platform.
    pub fn name(&self) -> (name: &'static str)
        ensures
            name@ == self.name_spec(),
    {
        match self {
            Platform::Pinotage => "pinotage",
            Platform::Merlot => "merlot",
            Platform::Concord => "concord",
            Platform::Vidal => "vidal",
            Platform::Zinfandel => "zinfandel",
            Platform::Syrah => "syrah",
        }
    }

    /// The canonical name of this platform as an owned string. Parsing it
    /// gives the platform back.
    pub fn to_string(&self) -> (name: String)
        ensures
            name@ == self.name_spec(),
    {
        String::from_str(self.name())
    }

    /// Find the platform that has exactly this name. Case counts here.
    pub fn from_name(name: &str) -> (found: Option<Platform>)
        ensures
            found == Self::from_name_spec(name@),
    {
        let wanted = name.to_owned();
        let all = Platform::all();
        let mut i: usize = 0;
        while i < all.len()
            invariant
                i <= all.len(),
                all@ == Self::all_spec(),
                wanted@ == name@,
                forall|j: int| 0 <= j < i ==> all@[j].name_spec() != name@,
            decreases all.len() - i,
        {
            let candidate = all[i];
            if String::from_str(candidate.name()) == wanted {
                return Some(candidate);
            }
            i += 1;
        }
        None
    }

    /// Parse a platform name, ignoring case.
    ///
    /// The input is brought to lowercase and then has to be one of the six
    /// names exactly. Any other input is handed back in the error. For an
    /// input of ASCII characters bringing to lowercase is the ASCII mapping,
    /// so that the result is fixed by the characters of the input; in
    /// particular every platform's own name gives that platform.
    pub fn from_str(s: &str) -> (parsed: Result<Platform, PlatformParseError>)
        ensures
            Self::parses_to(s@, Self::parse_spec(s@), parsed),
            is_ascii_chars(s@) ==> Self::parses_to(s@, Self::parse_ascii_spec(s@), parsed),
            forall|platform: Platform|
                s@ == platform.name_spec() ==> parsed == Ok::<Platform, PlatformParseError>(
                    platform,
                ),
    {
        let lower = to_lowercase(s);
        proof {
            assert forall|platform: Platform| s@ == platform.name_spec() implies Self::parse_spec(
                s@,
            ) == Some(platform) by {
                lemma_names_are_lowercase(platform);
                lemma_from_name_finds(lowercase(s@), platform);
            }
        }
        match Platform::from_name(lower.as_str()) {
            Some(platform) => Ok(platform),
            None => Err(PlatformParseError(s.to_owned())),
        }
    }
}

impl std::str::FromStr for Platform {
    type Err = PlatformParseError;

    fn from_str(s: &str) -> (parsed: Result<Self, Self::Err>)
        ensures
            Platform::parses_to(s@, Platform::parse_spec(s@), parsed),
            is_ascii_chars(s@) ==> Platform::parses_to(s@, Platform::parse_ascii_spec(s@), parsed),
    {
        Platform::from_str(s)
    }
}

/// Error returned when parsing an invalid platform name.
#[derive(Debug)]
pub struct PlatformParseError(String);

impl Clone for PlatformParseError {
    fn clone(&self) -> (copy: Self)
        ensures
            copy == *self,
    {
        PlatformParseError(self.0.clone())
    }
}

impl PlatformParseError {
    /// The input that named no platform, as it was given.
    pub closed spec fn input_spec(&self) -> Seq<char> {
        self.0@
    }

    /// The message of an error about the given input.
    pub open spec fn message_spec(input: Seq<char>) -> Seq<char> {
        "unknown platform '"@ + input + "'. Valid platforms: "@ + joined_names(Platform::all_spec())
    }

    /// The input that named no platform, as it was given.
    pub fn input(&self) -> (input: &str)
        ensures
            input@ == self.input_spec(),
    {
        self.0.as_str()
    }

    /// The message for the user: the rejected input, then the name of every
    /// platform.
    pub fn to_string(&self) -> (message: String)
        ensures
            message@ == Self::message_spec(self.input_spec()),
            message@ == "unknown platform '"@ + self.input_spec()
                + "'. Valid platforms: pinotage, merlot, concord, vidal, zinfandel, syrah"@,
    {
        proof {
            lemma_message_text(self.input_spec());
        }
        let all = Platform::all();
        let mut message = String::from_str("unknown platform '");
        message.append(self.0.as_str());
        message.append("'. Valid platforms: ");
        let ghost head = message@;
        let mut i: usize = 0;
        while i < all.len()
            invariant
                i <= all.len(),
                all@ == Platform::all_spec(),
                message@ == head + joined_names(all@.take(i as int)),
            decreases all.len() - i,
        {
            proof {
                assert(all@.take(i + 1).drop_last() == all@.take(i as int));
            }
            if i > 0 {
                message.append(", ");
            }
            message.append(all[i].name());
            i += 1;
        }
        proof {
            assert(all@.take(all@.len() as int) == all@);
        }
        message
    }
}

/// Every platform name is made of small ASCII letters, so bringing it to
/// lowercase the ASCII way changes nothing.
pub proof fn lemma_names_are_lowercase(platform: Platform)
    ensures
        is_ascii_chars(platform.name_spec()),
        ascii_lowercase(platform.name_spec()) == platform.name_spec(),
{
    reveal_strlit("pinotage");
    reveal_strlit("merlot");
    reveal_strlit("concord");
    reveal_strlit("vidal");
    reveal_strlit("zinfandel");
    reveal_strlit("syrah");
    assert(ascii_lowercase(platform.name_spec()) =~= platform.name_spec());
}

/// No two platforms share a name.
pub proof fn lemma_names_distinct(p: Platform, q: Platform)
    ensures
        p.name_spec() == q.name_spec() <==> p == q,
{
    reveal_strlit("pinotage");
    reveal_strlit("merlot");
    reveal_strlit("concord");
    reveal_strlit("vidal");
    reveal_strlit("zinfandel");
    reveal_strlit("syrah");
    if p != q && p.name_spec() == q.name_spec() {
        assert(p.name_spec().len() == q.name_spec().len());
        assert(p.name_spec()[0] == q.name_spec()[0]);
    }
}

/// A name finds a platform exactly when it is that platform's name.
pub proof fn lemma_from_name_finds(name: Seq<char>, platform: Platform)
    ensures
        Platform::from_name_spec(name) == Some(platform) <==> name == platform.name_spec(),
{
    lemma_names_distinct(platform, Platform::Pinotage);
    lemma_names_distinct(platform, Platform::Merlot);
    lemma_names_distinct(platform, Platform::Concord);
    lemma_names_distinct(platform, Platform::Vidal);
    lemma_names_distinct(platform, Platform::Zinfandel);
    lemma_names_distinct(platform, Platform::Syrah);
}

/// Parsing accepts a platform's name in any case and gives the platform whose
/// name is the lowercase form of the input: whenever the lowercase form of
/// `input` is the name of `platform`, parsing `input` finds `platform`, and the
/// name of what was found is that lowercase form.
pub proof fn lemma_parse_any_case(input: Seq<char>, platform: Platform)
    requires
        lowercase(input) == platform.name_spec(),
    ensures
        Platform::parse_spec(input) == Some(platform),
        Platform::parse_spec(input).unwrap().name_spec() == lowercase(input),
{
    lemma_from_name_finds(lowercase(input), platform);
}

/// Whatever parsing finds carries the lowercase form of the input as its
/// name, and parsing finds nothing only if no platform has that name.
pub proof fn lemma_parse_sound(input: Seq<char>)
    ensures
        match Platform::parse_spec(input) {
            Some(platform) => platform.name_spec() == lowercase(input),
            None => forall|platform: Platform| platform.name_spec() != lowercase(input),
        },
{
    assert forall|platform: Platform| Platform::parse_spec(input) is None implies platform.name_spec()
        != lowercase(input) by {
        lemma_from_name_finds(lowercase(input), platform);
    }
}

/// The list of all platforms holds each of the six platforms exactly once.
pub proof fn lemma_all_platforms()
    ensures
        Platform::all_spec().len() == 6,
        Platform::all_spec().no_duplicates(),
        forall|platform: Platform| Platform::all_spec().contains(platform),
{
    let all = Platform::all_spec();
    assert forall|platform: Platform| all.contains(platform) by {
        match platform {
            Platform::Pinotage => assert(all[0] == platform),
            Platform::Merlot => assert(all[1] == platform),
            Platform::Concord => assert(all[2] == platform),
            Platform::Vidal => assert(all[3] == platform),
            Platform::Zinfandel => assert(all[4] == platform),
            Platform::Syrah => assert(all[5] == platform),
        }
    }
}

/// The message of a parse error reads: `unknown platform '`, the input, and
/// `'. Valid platforms: ` with the six names in the order of the list of all
/// platforms.
pub proof fn lemma_message_text(input: Seq<char>)
    ensures
        joined_names(Platform::all_spec())
            == "pinotage, merlot, concord, vidal, zinfandel, syrah"@,
        PlatformParseError::message_spec(input) == "unknown platform '"@ + input
            + "'. Valid platforms: pinotage, merlot, concord, vidal, zinfandel, syrah"@,
{
    reveal_strlit("pinotage");
    reveal_strlit("merlot");
    reveal_strlit("concord");
    reveal_strlit("vidal");
    reveal_strlit("zinfandel");
    reveal_strlit("syrah");
    reveal_strlit(", ");
    reveal_strlit("pinotage, merlot, concord, vidal, zinfandel, syrah");
    reveal_strlit("'. Valid platforms: ");
    reveal_strlit("'. Valid platforms: pinotage, merlot, concord, vidal, zinfandel, syrah");
    let all = Platform::all_spec();
    let names = "pinotage, merlot, concord, vidal, zinfandel, syrah"@;
    reveal_with_fuel(joined_names, 7);
    assert(all.take(1) == all.take(2).drop_last());
    assert(all.take(2) == all.take(3).drop_last());
    assert(all.take(3) == all.take(4).drop_last());
    assert(all.take(4) == all.take(5).drop_last());
    assert(all.take(5) == all.drop_last());
    assert(joined_names(all.take(1)) == "pinotage"@);
    assert(joined_names(all) =~= names);
    assert("'. Valid platforms: "@ + names
        =~= "'. Valid platforms: pinotage, merlot, concord, vidal, zinfandel, syrah"@);
    assert(PlatformParseError::message_spec(input) =~= "unknown platform '"@ + input + (
    "'. Valid platforms: "@ + names));
}

} // verus!
